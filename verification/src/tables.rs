//! The tables of one version of the instruction set, built once and then only
//! read: the decoding table, the description and the price of every slot, and
//! the index of every variant.

use vstd::prelude::*;
use std::collections::HashMap;
use crate::decoding::VariantMonotonicNumber;
use crate::definitions::all::Opcode;
use crate::definitions::bitmask::{is_bitmask_of, synthesize_bit_decomposition_table};
use crate::definitions::content::lemma_tables_exist;
use crate::definitions::noop::NopOpcode;
use crate::definitions::opcode_trait::{ISAVersion, OpcodeVariantProps, Operand};
use crate::definitions::ret::RetOpcode;
use crate::definitions::synthesis::{
    spec_synthesize_opcode_decoding_tables, synthesize_opcode_decoding_tables, SynthesisError,
};
use crate::definitions::variant::{
    invalid_opcode_variant, lemma_variant_equality, spec_invalid_opcode_variant, variant_of,
    OpcodeVariant,
};
use crate::definitions::add::AddOpcode;
use crate::definitions::binop::BinopOpcode;
use crate::definitions::context::ContextOpcode;
use crate::definitions::div::DivOpcode;
use crate::definitions::far_call::FarCallOpcode;
use crate::definitions::invalid_opcode::InvalidOpcode;
use crate::definitions::jump::JumpOpcode;
use crate::definitions::log::LogOpcode;
use crate::definitions::mul::MulOpcode;
use crate::definitions::near_call::NearCallOpcode;
use crate::definitions::ptr::PtrOpcode;
use crate::definitions::shift::ShiftOpcode;
use crate::definitions::sub::SubOpcode;
use crate::definitions::uma::UMAOpcode;
use crate::imm_mem_modifiers::{ImmMemHandlerFlags, RegOrImmFlags};
use crate::{OPCODES_TABLE_SIZE, OPCODES_TABLE_WIDTH};

verus! {

/// The version whose tables the machine runs on.
pub open spec fn spec_default_isa_version() -> ISAVersion {
    ISAVersion(1)
}

pub fn default_isa_version() -> (r: ISAVersion)
    ensures
        r == spec_default_isa_version(),
{
    ISAVersion(1)
}

/// The `nop` instruction's variant: fully addressable, on registers.
pub open spec fn spec_nop_opcode_variant() -> OpcodeVariant {
    variant_of(
        Opcode::Nop(NopOpcode),
        Operand::Full(ImmMemHandlerFlags::UseRegOnly),
        Operand::Full(ImmMemHandlerFlags::UseRegOnly),
        false,
        false,
    )
}

/// The variant of the panic that ends a frame: `ret.panic` on registers.
pub open spec fn spec_panic_opcode_variant() -> OpcodeVariant {
    variant_of(Opcode::Ret(RetOpcode::Panic), Operand::RegOnly, Operand::RegOnly, false, false)
}

pub fn nop_opcode_variant() -> (r: OpcodeVariant)
    ensures
        r == spec_nop_opcode_variant(),
{
    OpcodeVariant {
        opcode: Opcode::Nop(NopOpcode),
        src0_operand_type: Operand::Full(ImmMemHandlerFlags::UseRegOnly),
        dst0_operand_type: Operand::Full(ImmMemHandlerFlags::UseRegOnly),
        flags: [false, false],
    }
}

pub fn panic_opcode_variant() -> (r: OpcodeVariant)
    ensures
        r == spec_panic_opcode_variant(),
{
    OpcodeVariant {
        opcode: Opcode::Ret(RetOpcode::Panic),
        src0_operand_type: Operand::RegOnly,
        dst0_operand_type: Operand::RegOnly,
        flags: [false, false],
    }
}

/// A number for each spelling of an operand, below 9.
pub open spec fn spec_operand_code(operand: Operand) -> u64 {
    match operand {
        Operand::RegOnly => 0,
        Operand::RegOrImm(RegOrImmFlags::UseRegOnly) => 1,
        Operand::RegOrImm(RegOrImmFlags::UseImm16Only) => 2,
        Operand::Full(f) => (3 + f.spec_variant_index()) as u64,
    }
}

/// A number for each variant: its parts, each on four bits of its own. Two
/// variants with the same key are the same variant, so the key can stand for
/// the variant in a map.
pub open spec fn spec_variant_key(variant: OpcodeVariant) -> u64 {
    (variant.opcode.spec_variant_idx() + 16 * variant.opcode.spec_materialize_subvariant_idx()
        + 256 * spec_operand_code(variant.src0_operand_type) + 4096 * spec_operand_code(
        variant.dst0_operand_type,
    ) + 65536 * (if variant.flags@[0] {
        1int
    } else {
        0int
    }) + 131072 * (if variant.flags@[1] {
        1int
    } else {
        0int
    })) as u64
}

fn operand_code(operand: &Operand) -> (r: u64)
    ensures
        r == spec_operand_code(*operand),
        r < 9,
{
    match operand {
        Operand::RegOnly => 0,
        Operand::RegOrImm(RegOrImmFlags::UseRegOnly) => 1,
        Operand::RegOrImm(RegOrImmFlags::UseImm16Only) => 2,
        Operand::Full(f) => 3 + f.variant_index() as u64,
    }
}

/// The key of a variant.
pub fn variant_key(variant: &OpcodeVariant) -> (r: u64)
    ensures
        r == spec_variant_key(*variant),
{
    let family = variant.opcode.variant_idx() as u64;
    let subvariant = variant.opcode.materialize_subvariant_idx() as u64;
    let src = operand_code(&variant.src0_operand_type);
    let dst = operand_code(&variant.dst0_operand_type);
    let flag0: u64 = if variant.flags[0] {
        1
    } else {
        0
    };
    let flag1: u64 = if variant.flags[1] {
        1
    } else {
        0
    };
    family + 16 * subvariant + 256 * src + 4096 * dst + 65536 * flag0 + 131072 * flag1
}

/// An opcode is its family and the index of its sub-variant.
pub proof fn lemma_opcode_by_indices(a: Opcode, b: Opcode)
    requires
        a.spec_variant_idx() == b.spec_variant_idx(),
        a.spec_materialize_subvariant_idx() == b.spec_materialize_subvariant_idx(),
    ensures
        a == b,
        a.spec_variant_idx() < 16,
        a.spec_materialize_subvariant_idx() < 10,
{
    InvalidOpcode::lemma_variants_are_indexed();
    NopOpcode::lemma_variants_are_indexed();
    AddOpcode::lemma_variants_are_indexed();
    SubOpcode::lemma_variants_are_indexed();
    MulOpcode::lemma_variants_are_indexed();
    DivOpcode::lemma_variants_are_indexed();
    JumpOpcode::lemma_variants_are_indexed();
    ContextOpcode::lemma_variants_are_indexed();
    ShiftOpcode::lemma_variants_are_indexed();
    BinopOpcode::lemma_variants_are_indexed();
    PtrOpcode::lemma_variants_are_indexed();
    NearCallOpcode::lemma_variants_are_indexed();
    LogOpcode::lemma_variants_are_indexed();
    FarCallOpcode::lemma_variants_are_indexed();
    RetOpcode::lemma_variants_are_indexed();
    UMAOpcode::lemma_variants_are_indexed();
}

/// A number written with the given digits: four digits to the base 16 and two
/// bits above them.
pub open spec fn key_of_digits(f: int, s: int, c: int, d: int, x: int, y: int) -> int {
    f + 16 * s + 256 * c + 4096 * d + 65536 * x + 131072 * y
}

/// Numbers with different digits are different.
pub proof fn lemma_key_digits(
    f: int,
    s: int,
    c: int,
    d: int,
    x: int,
    y: int,
    f2: int,
    s2: int,
    c2: int,
    d2: int,
    x2: int,
    y2: int,
)
    requires
        0 <= f < 16 && 0 <= s < 16 && 0 <= c < 16 && 0 <= d < 16 && 0 <= x < 2 && 0 <= y < 2,
        0 <= f2 < 16 && 0 <= s2 < 16 && 0 <= c2 < 16 && 0 <= d2 < 16 && 0 <= x2 < 2 && 0 <= y2
            < 2,
        key_of_digits(f, s, c, d, x, y) == key_of_digits(f2, s2, c2, d2, x2, y2),
    ensures
        f == f2 && s == s2 && c == c2 && d == d2 && x == x2 && y == y2,
{
    let k = key_of_digits(f, s, c, d, x, y);
    assert(k % 16 == f && k % 16 == f2);
    let k1 = s + 16 * c + 256 * d + 4096 * x + 8192 * y;
    let k1b = s2 + 16 * c2 + 256 * d2 + 4096 * x2 + 8192 * y2;
    assert(k1 == k1b);
    assert(k1 % 16 == s && k1b % 16 == s2);
    let k2 = c + 16 * d + 256 * x + 512 * y;
    let k2b = c2 + 16 * d2 + 256 * x2 + 512 * y2;
    assert(k2 == k2b);
    assert(k2 % 16 == c && k2b % 16 == c2);
    let k3 = d + 16 * x + 32 * y;
    let k3b = d2 + 16 * x2 + 32 * y2;
    assert(k3 == k3b);
    assert(k3 % 16 == d && k3b % 16 == d2);
}

/// The digits of the key of a variant.
pub open spec fn spec_variant_digits(variant: OpcodeVariant) -> (int, int, int, int, int, int) {
    (
        variant.opcode.spec_variant_idx() as int,
        variant.opcode.spec_materialize_subvariant_idx() as int,
        spec_operand_code(variant.src0_operand_type) as int,
        spec_operand_code(variant.dst0_operand_type) as int,
        if variant.flags@[0] {
            1int
        } else {
            0int
        },
        if variant.flags@[1] {
            1int
        } else {
            0int
        },
    )
}

/// The key of a variant is the number that its digits write, and the digits
/// are in range.
pub proof fn lemma_variant_key_digits(v: OpcodeVariant)
    ensures
        spec_variant_key(v) == key_of_digits(
            spec_variant_digits(v).0,
            spec_variant_digits(v).1,
            spec_variant_digits(v).2,
            spec_variant_digits(v).3,
            spec_variant_digits(v).4,
            spec_variant_digits(v).5,
        ),
        0 <= spec_variant_digits(v).0 < 16,
        0 <= spec_variant_digits(v).1 < 16,
        0 <= spec_variant_digits(v).2 < 16,
        0 <= spec_variant_digits(v).3 < 16,
        0 <= spec_variant_digits(v).4 < 2,
        0 <= spec_variant_digits(v).5 < 2,
{
    lemma_opcode_by_indices(v.opcode, v.opcode);
}

/// Variants with the same digits are the same variant.
pub proof fn lemma_variant_by_digits(a: OpcodeVariant, b: OpcodeVariant)
    requires
        spec_variant_digits(a) == spec_variant_digits(b),
    ensures
        a == b,
{
    lemma_opcode_by_indices(a.opcode, b.opcode);
    lemma_variant_equality(a, b);
}

/// Two variants with the same key are the same variant.
pub proof fn lemma_variant_key_is_injective(a: OpcodeVariant, b: OpcodeVariant)
    requires
        spec_variant_key(a) == spec_variant_key(b),
    ensures
        a == b,
{
    lemma_variant_key_digits(a);
    lemma_variant_key_digits(b);
    let da = spec_variant_digits(a);
    let db = spec_variant_digits(b);
    lemma_key_digits(da.0, da.1, da.2, da.3, da.4, da.5, db.0, db.1, db.2, db.3, db.4, db.5);
    lemma_variant_by_digits(a, b);
}

/// Whether two slots of a table hold the same variant and that variant is not
/// the invalid one, which alone may fill more than one slot.
pub open spec fn has_ambiguous_slot(table: Seq<OpcodeVariant>) -> bool {
    exists|i: int, j: int|
        0 <= i < j < table.len() && #[trigger] table[i] == #[trigger] table[j] && table[j]
            != spec_invalid_opcode_variant()
}

/// The decoding table on which the tables of `version` rest, or the reason why
/// there are no tables: the table cannot be synthesized, a variant other than
/// the invalid one has two slots, or the table lacks one of the two variants
/// from which the derived code words are made.
pub open spec fn spec_tables_outcome(version: ISAVersion) -> Result<
    Seq<OpcodeVariant>,
    SynthesisError,
> {
    match spec_synthesize_opcode_decoding_tables(OPCODES_TABLE_WIDTH, version) {
        Err(e) => Err(e),
        Ok(table) => if has_ambiguous_slot(table) {
            Err(SynthesisError::DuplicateVariant)
        } else if !table.contains(spec_nop_opcode_variant()) || !table.contains(
            spec_panic_opcode_variant(),
        ) {
            Err(SynthesisError::MissingDerivedVariant)
        } else {
            Ok(table)
        },
    }
}

/// Whether `index` maps the key of every variant of `table` to the first slot
/// that holds the variant, and nothing else.
pub open spec fn index_is_canonical(index: Map<u64, usize>, table: Seq<OpcodeVariant>) -> bool {
    &&& forall|k: u64| #[trigger]
        index.contains_key(k) ==> index[k] < table.len() && spec_variant_key(
            table[index[k] as int],
        ) == k
    &&& forall|i: int|
        0 <= i < table.len() ==> index.contains_key(spec_variant_key(#[trigger] table[i]))
            && index[spec_variant_key(table[i])] <= i
}

/// The tables of one version of the instruction set.
///
/// They are built once, by `OpcodeTables::new`, and never change: whoever holds
/// a value of this type holds tables that passed every check of the synthesis.
pub struct OpcodeTables {
    version: ISAVersion,
    table: Vec<OpcodeVariant>,
    bitmasks: Vec<u64>,
    prices: Vec<u32>,
    index: HashMap<u64, usize>,
}

impl OpcodeTables {
    /// The version of the instruction set.
    pub closed spec fn spec_version(&self) -> ISAVersion {
        self.version
    }

    /// The decoding table.
    pub closed spec fn spec_table(&self) -> Seq<OpcodeVariant> {
        self.table@
    }

    /// The description of every slot.
    pub closed spec fn spec_bitmasks(&self) -> Seq<u64> {
        self.bitmasks@
    }

    /// The price of every slot.
    pub closed spec fn spec_prices(&self) -> Seq<u32> {
        self.prices@
    }

    /// The first slot of every variant, by the variant's key.
    pub closed spec fn spec_index(&self) -> Map<u64, usize> {
        self.index@
    }

    /// What holds of the tables: the decoding table is the synthesized one of
    /// the version and has `2^11` slots, of which the first holds the invalid
    /// variant; the descriptions and prices run parallel to it; and the index
    /// leads from every variant to its first slot.
    #[verifier::type_invariant]
    pub open spec fn wf(&self) -> bool {
        &&& spec_tables_outcome(self.spec_version()) == Ok::<Seq<OpcodeVariant>, SynthesisError>(
            self.spec_table(),
        )
        &&& self.spec_table().len() == OPCODES_TABLE_SIZE
        &&& self.spec_table()[0] == spec_invalid_opcode_variant()
        &&& self.spec_bitmasks().len() == OPCODES_TABLE_SIZE
        &&& forall|i: int|
            0 <= i < OPCODES_TABLE_SIZE ==> is_bitmask_of(
                #[trigger] self.spec_bitmasks()[i],
                self.spec_table()[i],
                self.spec_version(),
            )
        &&& self.spec_prices().len() == OPCODES_TABLE_SIZE
        &&& forall|i: int|
            0 <= i < OPCODES_TABLE_SIZE ==> #[trigger] self.spec_prices()[i]
                == self.spec_table()[i].spec_ergs_price()
        &&& index_is_canonical(self.spec_index(), self.spec_table())
    }

    /// The slot of a variant: the first that holds it.
    pub open spec fn spec_canonical_index(&self, variant: OpcodeVariant) -> Option<usize> {
        if self.spec_index().contains_key(spec_variant_key(variant)) {
            Some(self.spec_index()[spec_variant_key(variant)])
        } else {
            None
        }
    }

    /// Builds the tables of `version`.
    ///
    /// Every check of the synthesis is made, and a failed check would be
    /// reported. None can fail: the families are declared so that the tables of
    /// every version exist.
    pub fn new(version: ISAVersion) -> (r: Result<OpcodeTables, SynthesisError>)
        ensures
            match r {
                Ok(tables) => {
                    &&& tables.wf()
                    &&& tables.spec_version() == version
                    &&& spec_tables_outcome(version) == Ok::<Seq<OpcodeVariant>, SynthesisError>(
                        tables.spec_table(),
                    )
                },
                Err(e) => spec_tables_outcome(version) == Err::<
                    Seq<OpcodeVariant>,
                    SynthesisError,
                >(e),
            },
            r is Ok,
    {
        broadcast use vstd::std_specs::hash::group_hash_axioms;

        proof {
            crate::lemma_table_size();
            lemma_tables_exist(version);
        }
        let table = match synthesize_opcode_decoding_tables(OPCODES_TABLE_WIDTH, version) {
            Ok(table) => table,
            Err(e) => {
                return Err(e);
            },
        };
        let bitmasks = synthesize_bit_decomposition_table(table.as_slice(), version);
        let invalid = invalid_opcode_variant();
        let mut index: HashMap<u64, usize> = HashMap::new();
        let mut i: usize = 0;
        while i < table.len()
            invariant
                i <= table.len(),
                invalid == spec_invalid_opcode_variant(),
                spec_synthesize_opcode_decoding_tables(OPCODES_TABLE_WIDTH, version) == Ok::<
                    Seq<OpcodeVariant>,
                    SynthesisError,
                >(table@),
                spec_tables_outcome(version) is Ok,
                forall|k: u64| #[trigger]
                    index@.contains_key(k) ==> index@[k] < i && spec_variant_key(
                        table@[index@[k] as int],
                    ) == k,
                forall|j: int|
                    0 <= j < i ==> index@.contains_key(spec_variant_key(#[trigger] table@[j]))
                        && index@[spec_variant_key(table@[j])] <= j,
                forall|a: int, b: int|
                    0 <= a < b < i && #[trigger] table@[a] == #[trigger] table@[b] ==> table@[b]
                        == spec_invalid_opcode_variant(),
            decreases table.len() - i,
        {
            let el = table[i];
            let key = variant_key(&el);
            match index.get(&key) {
                Some(existing) => {
                    proof {
                        lemma_variant_key_is_injective(table@[*existing as int], el);
                    }
                    if el != invalid {
                        assert(has_ambiguous_slot(table@)) by {
                            let a = *existing as int;
                            let b = i as int;
                            assert(0 <= a < b < table@.len() && table@[a] == table@[b] && table@[b]
                                != spec_invalid_opcode_variant());
                        }
                        return Err(SynthesisError::DuplicateVariant);
                    }
                },
                None => {
                    assert forall|a: int| 0 <= a < i implies #[trigger] table@[a] != el by {
                        assert(index@.contains_key(spec_variant_key(table@[a])));
                    }
                    index.insert(key, i);
                },
            }
            i += 1;
        }
        assert(!has_ambiguous_slot(table@));
        let nop_key = variant_key(&nop_opcode_variant());
        let panic_key = variant_key(&panic_opcode_variant());
        let has_nop = index.get(&nop_key).is_some();
        let has_panic = index.get(&panic_key).is_some();
        proof {
            lemma_index_decides_membership(index@, table@, spec_nop_opcode_variant());
            lemma_index_decides_membership(index@, table@, spec_panic_opcode_variant());
        }
        if !has_nop || !has_panic {
            return Err(SynthesisError::MissingDerivedVariant);
        }
        let mut prices: Vec<u32> = Vec::new();
        let mut n: usize = 0;
        while n < table.len()
            invariant
                n <= table.len(),
                prices@.len() == n,
                forall|j: int| 0 <= j < n ==> #[trigger] prices@[j] == table@[j].spec_ergs_price(),
            decreases table.len() - n,
        {
            let price = table[n].ergs_price();
            prices.push(price);
            n += 1;
        }
        Ok(OpcodeTables { version, table, bitmasks, prices, index })
    }

    /// The version of the instruction set.
    pub fn version(&self) -> (r: ISAVersion)
        ensures
            r == self.spec_version(),
    {
        self.version
    }

    /// The decoding table: `2^11` variants, the first of them the invalid one.
    pub fn table(&self) -> (r: &Vec<OpcodeVariant>)
        ensures
            r@ == self.spec_table(),
            r@.len() == OPCODES_TABLE_SIZE,
            r@[0] == spec_invalid_opcode_variant(),
            self.wf(),
    {
        proof {
            use_type_invariant(self);
        }
        &self.table
    }

    /// The description of every slot, parallel to the decoding table.
    pub fn bitmasks(&self) -> (r: &Vec<u64>)
        ensures
            r@ == self.spec_bitmasks(),
            r@.len() == OPCODES_TABLE_SIZE,
            self.wf(),
    {
        proof {
            use_type_invariant(self);
        }
        &self.bitmasks
    }

    /// The price of every slot, parallel to the decoding table.
    pub fn prices(&self) -> (r: &Vec<u32>)
        ensures
            r@ == self.spec_prices(),
            r@.len() == OPCODES_TABLE_SIZE,
            self.wf(),
    {
        proof {
            use_type_invariant(self);
        }
        &self.prices
    }

    /// The variant in slot `index`.
    pub fn variant_at(&self, index: usize) -> (r: OpcodeVariant)
        requires
            index < OPCODES_TABLE_SIZE,
        ensures
            r == self.spec_table()[index as int],
            self.wf(),
    {
        proof {
            use_type_invariant(self);
        }
        self.table[index]
    }

    /// The price of the variant in slot `index`: that of its opcode.
    pub fn price_at(&self, index: usize) -> (r: u32)
        requires
            index < OPCODES_TABLE_SIZE,
        ensures
            r == self.spec_prices()[index as int],
            r == self.spec_table()[index as int].opcode.spec_ergs_price(),
            self.wf(),
    {
        proof {
            use_type_invariant(self);
        }
        self.prices[index]
    }

    /// The description of the variant in slot `index`.
    pub fn bitmask_at(&self, index: usize) -> (r: u64)
        requires
            index < OPCODES_TABLE_SIZE,
        ensures
            r == self.spec_bitmasks()[index as int],
            is_bitmask_of(r, self.spec_table()[index as int], self.spec_version()),
            self.wf(),
    {
        proof {
            use_type_invariant(self);
        }
        self.bitmasks[index]
    }

    /// The slot of a variant: the first that holds it, or `None` where the
    /// table does not hold the variant.
    pub fn canonical_index(&self, variant: &OpcodeVariant) -> (r: Option<usize>)
        ensures
            r == self.spec_canonical_index(*variant),
            self.wf(),
            match r {
                Some(index) => {
                    &&& index < OPCODES_TABLE_SIZE
                    &&& self.spec_table()[index as int] == *variant
                    &&& forall|j: int|
                        0 <= j < index ==> #[trigger] self.spec_table()[j] != *variant
                },
                None => !self.spec_table().contains(*variant),
            },
    {
        broadcast use vstd::std_specs::hash::group_hash_axioms;

        proof {
            use_type_invariant(self);
            lemma_index_decides_membership(self.index@, self.table@, *variant);
        }
        let key = variant_key(variant);
        match self.index.get(&key) {
            Some(index) => {
                proof {
                    lemma_variant_key_is_injective(self.table@[*index as int], *variant);
                }
                Some(*index)
            },
            None => None,
        }
    }

    /// The slot of a variant, as the number that the decoder hands out.
    pub fn monotonic_index(&self, variant: &OpcodeVariant) -> (r: Option<VariantMonotonicNumber>)
        ensures
            match r {
                Some(number) => self.spec_canonical_index(*variant) == Some(number.0),
                None => self.spec_canonical_index(*variant) is None,
            },
    {
        match self.canonical_index(variant) {
            Some(index) => Some(VariantMonotonicNumber::from_usize(index)),
            None => None,
        }
    }

    /// The description of the `nop` variant.
    pub fn nop_bitspread(&self) -> (r: u64)
        ensures
            is_bitmask_of(r, spec_nop_opcode_variant(), self.spec_version()),
    {
        proof {
            use_type_invariant(self);
        }
        match self.canonical_index(&nop_opcode_variant()) {
            Some(index) => self.bitmasks[index],
            None => {
                proof {
                    assert(self.spec_table().contains(spec_nop_opcode_variant()));
                }
                0
            },
        }
    }

    /// The description of the panic variant.
    pub fn panic_bitspread(&self) -> (r: u64)
        ensures
            is_bitmask_of(r, spec_panic_opcode_variant(), self.spec_version()),
    {
        proof {
            use_type_invariant(self);
        }
        match self.canonical_index(&panic_opcode_variant()) {
            Some(index) => self.bitmasks[index],
            None => {
                proof {
                    assert(self.spec_table().contains(spec_panic_opcode_variant()));
                }
                0
            },
        }
    }
}

/// The slot of a variant is the first slot that holds it, and a variant has no
/// slot exactly if the table does not hold it.
pub proof fn lemma_canonical_index(tables: OpcodeTables, variant: OpcodeVariant)
    requires
        tables.wf(),
    ensures
        match tables.spec_canonical_index(variant) {
            Some(index) => {
                &&& index < OPCODES_TABLE_SIZE
                &&& tables.spec_table()[index as int] == variant
                &&& forall|j: int| 0 <= j < index ==> #[trigger] tables.spec_table()[j] != variant
            },
            None => !tables.spec_table().contains(variant),
        },
{
    lemma_index_decides_membership(tables.spec_index(), tables.spec_table(), variant);
}

/// A canonical index holds the key of a variant exactly if the table holds the
/// variant.
pub proof fn lemma_index_decides_membership(
    index: Map<u64, usize>,
    table: Seq<OpcodeVariant>,
    variant: OpcodeVariant,
)
    requires
        index_is_canonical(index, table),
    ensures
        index.contains_key(spec_variant_key(variant)) <==> table.contains(variant),
        index.contains_key(spec_variant_key(variant)) ==> table[index[spec_variant_key(
            variant,
        )] as int] == variant,
{
    let k = spec_variant_key(variant);
    if index.contains_key(k) {
        lemma_variant_key_is_injective(table[index[k] as int], variant);
        assert(table.contains(variant));
    }
    if table.contains(variant) {
        let i = choose|i: int| 0 <= i < table.len() && table[i] == variant;
        assert(index.contains_key(spec_variant_key(table[i])));
    }
}

} // verus!
