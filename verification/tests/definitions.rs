use zkevm_opcode_defs::definitions::add::AddOpcode;
use zkevm_opcode_defs::definitions::all::Opcode;
use zkevm_opcode_defs::definitions::bitmask::{
    compute_decoding_format, synthesize_bit_decomposition_table,
};
use zkevm_opcode_defs::definitions::density::compute_encoding_density;
use zkevm_opcode_defs::definitions::enumeration::all_variants_in_version;
use zkevm_opcode_defs::definitions::log::LogOpcode;
use zkevm_opcode_defs::definitions::opcode_trait::{ISAVersion, Operand};
use zkevm_opcode_defs::definitions::synthesis::{
    find_new_opcodes, synthesize_opcode_decoding_tables, synthesize_opcode_decoding_tables_legacy,
};
use zkevm_opcode_defs::definitions::variant::{semantically_equal, OpcodeVariant};
use zkevm_opcode_defs::imm_mem_modifiers::ImmMemHandlerFlags;
use zkevm_opcode_defs::tables::{default_isa_version, OpcodeTables};
use zkevm_opcode_defs::OPCODES_TABLE_WIDTH;

#[test]
fn show_num_variants() {
    let all = compute_encoding_density(ISAVersion(0));
    println!(
        "Need to encode {} variants in version {:?}",
        all,
        ISAVersion(0)
    );
    let all = compute_encoding_density(ISAVersion(1));
    println!(
        "Need to encode {} variants in version {:?}",
        all,
        ISAVersion(1)
    );
}

#[test]
fn show_circuit_decoding_format() {
    let format = compute_decoding_format(ISAVersion(0));
    println!("{} for version {:?}", format, ISAVersion(0));
    let format = compute_decoding_format(ISAVersion(1));
    println!("{} for version {:?}", format, ISAVersion(1));
}

#[test]
fn synthesize_table() {
    let table = synthesize_opcode_decoding_tables(11, ISAVersion(0)).unwrap();
    for el in table[0..20].iter() {
        println!("Opcode {:?}", el);
    }
}

#[test]
fn synthesize_bit_encoding_table() {
    let table = synthesize_opcode_decoding_tables(11, ISAVersion(0)).unwrap();
    let encoding = synthesize_bit_decomposition_table(&table, ISAVersion(0));
    for (el, enc) in table.iter().zip(encoding.iter()).skip(40).take(20) {
        println!("Opcode: {:?}\n Encoding {:035b}", el, enc);
    }
}

#[test]
fn check_encoding() {
    let tables = OpcodeTables::new(default_isa_version()).unwrap();
    let variant = OpcodeVariant {
        opcode: Opcode::Add(AddOpcode::Add),
        src0_operand_type: Operand::Full(ImmMemHandlerFlags::UseImm16Only),
        dst0_operand_type: Operand::Full(ImmMemHandlerFlags::UseRegOnly),
        flags: [false, false],
    };
    let index = tables.canonical_index(&variant).unwrap();
    println!("{:?}", index);
    let encoding = tables.bitmasks()[index];
    println!("Opcode: {:?}\n Encoding {:048b}", variant, encoding);
}

#[test]
fn check_serialize() {
    let tables = OpcodeTables::new(default_isa_version()).unwrap();
    let variant = OpcodeVariant {
        opcode: Opcode::Log(LogOpcode::PrecompileCall),
        src0_operand_type: Operand::RegOnly,
        dst0_operand_type: Operand::RegOnly,
        flags: [false, false],
    };
    let index = tables.canonical_index(&variant).unwrap();
    println!("{:?}", index);
    let encoding = tables.bitmasks()[index];
    println!("Opcode: {:?}\n Encoding {:048b}", variant, encoding);
}

fn decode_from_raw(tables: &OpcodeTables, raw: u64) -> OpcodeVariant {
    let properties_index = raw & ((1u64 << OPCODES_TABLE_WIDTH) - 1);
    let opcode = tables.table()[properties_index as usize];

    opcode
}

#[test]
fn decode_opcode() {
    let tables = OpcodeTables::new(default_isa_version()).unwrap();
    let opcode = 0x000300000004001d;

    let variant = decode_from_raw(&tables, opcode);
    println!("{:?}", variant);
}

#[test]
fn calculator() {
    let mut v0 = all_variants_in_version(ISAVersion(0));
    println!("{:?}", v0.len());
    let v1 = all_variants_in_version(ISAVersion(1));
    println!("{:?}", v1.len());

    // the order of the legacy table is that of the enumeration
    let legacy_v0 = synthesize_opcode_decoding_tables_legacy(11, ISAVersion(0)).unwrap();
    assert_eq!(&legacy_v0[..v0.len()], &v0[..]);

    let new_v0 = synthesize_opcode_decoding_tables(11, ISAVersion(0)).unwrap();
    let num_non_trivial_v0 = compute_encoding_density(ISAVersion(0));
    assert_eq!(&legacy_v0[..], &new_v0[..]);

    let difference = find_new_opcodes(&mut v0, &v1).unwrap();

    let new_v1 = synthesize_opcode_decoding_tables(11, ISAVersion(1)).unwrap();
    let num_non_trivial_v1 = compute_encoding_density(ISAVersion(1));

    for (a, b) in new_v0[..num_non_trivial_v0]
        .iter()
        .zip(new_v1[..num_non_trivial_v0].iter())
    {
        assert!(semantically_equal(a, b));
    }

    assert!(num_non_trivial_v1 >= num_non_trivial_v0);

    for idx in num_non_trivial_v0..num_non_trivial_v1 {
        assert!(new_v0[idx].is_explicit_panic());
    }

    println!("{:?}", &difference);
}

#[test]
fn densities_of_the_registered_versions() {
    assert_eq!(compute_encoding_density(ISAVersion(0)), 1085);
    assert_eq!(compute_encoding_density(ISAVersion(1)), 1093);
    assert_eq!(all_variants_in_version(ISAVersion(0)).len(), 1085);
    assert_eq!(all_variants_in_version(ISAVersion(1)).len(), 1093);
}
