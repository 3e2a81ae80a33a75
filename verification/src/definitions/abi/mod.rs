//! The parameter blocks that instructions pass in a 256-bit word: for far
//! calls, near calls, returns and precompile calls, and the fat pointer.

pub mod far_call;
pub mod fat_pointer;
pub mod meta;
pub mod near_call;
pub mod precompile_call;
pub mod ret;
