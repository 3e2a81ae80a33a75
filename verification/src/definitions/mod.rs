//! The opcode families and the decoding table synthesized from them.

pub mod abi;
pub mod add;
pub mod all;
pub mod binop;
pub mod bitmask;
pub mod condition;
pub mod content;
pub mod context;
pub mod counts;
pub mod density;
pub mod distinct;
pub mod div;
pub mod enumeration;
pub mod extension;
pub mod far_call;
pub mod invalid_opcode;
pub mod jump;
pub mod legacy;
pub mod log;
pub mod mul;
pub mod near_call;
pub mod noop;
pub mod opcode_trait;
pub mod ptr;
pub mod ret;
pub mod shift;
pub mod stability;
pub mod sub;
pub mod synthesis;
pub mod uma;
pub mod variant;
pub mod versioned_hash;
