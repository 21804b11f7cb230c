use mov_decoder::decimal::u16_to_decimal;
use mov_decoder::instruction::{Arg, Instruction};
use mov_decoder::registers::{find_register_name, get_register_name};

#[test]
fn register_name_table_byte_registers() {
    let expected = ["al", "cl", "dl", "bl", "ah", "ch", "dh", "bh"];
    for (code, want) in expected.iter().enumerate() {
        assert_eq!(get_register_name(code as u8, false), *want);
    }
}

#[test]
fn register_name_table_word_registers() {
    let expected = ["ax", "cx", "dx", "bx", "sp", "bp", "si", "di"];
    for (code, want) in expected.iter().enumerate() {
        assert_eq!(get_register_name(code as u8, true), *want);
    }
}

#[test]
fn find_register_name_extracts_bit_fields() {
    // reg field (bits 5..3) of 0b11000001 is 000; r/m field (bits 2..0) is 001.
    assert_eq!(find_register_name(&0b11000001, 2, true), "ax");
    assert_eq!(find_register_name(&0b11000001, 5, true), "cx");
    assert_eq!(find_register_name(&0b11110001, 2, false), "dh");
}

#[test]
fn decimal_rendering_exact_values() {
    assert_eq!(u16_to_decimal(0), "0");
    assert_eq!(u16_to_decimal(5), "5");
    assert_eq!(u16_to_decimal(42), "42");
    assert_eq!(u16_to_decimal(258), "258");
    assert_eq!(u16_to_decimal(4660), "4660");
    assert_eq!(u16_to_decimal(65535), "65535");
}

#[test]
fn register_operand_renders_as_its_name() {
    assert_eq!(Arg::new_register("ax").to_string(), "ax");
}

#[test]
fn immediate_operand_renders_as_its_text() {
    assert_eq!(Arg::new_immediate(u16_to_decimal(42)).to_string(), "42");
}

#[test]
fn address_calculation_renders_joined_in_brackets() {
    let parts = vec![String::from("bx"), String::from("si"), String::from("5")];
    assert_eq!(Arg::new_addrs_calc(parts).to_string(), "[bx + si + 5]");
}

#[test]
fn empty_address_calculation_renders_empty_brackets() {
    assert_eq!(Arg::new_addrs_calc(Vec::new()).to_string(), "[]");
}

#[test]
fn instruction_renders_mnemonic_then_operands() {
    let mut inst = Instruction::new("mov");
    inst.arg.push(Arg::new_register("ax"));
    inst.arg.push(Arg::new_register("cx"));
    assert_eq!(inst.to_string(), "mov ax, cx");
}
