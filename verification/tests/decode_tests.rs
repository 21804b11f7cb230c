use mov_decoder::byte_source::ByteSource;
use mov_decoder::decoder::{decode, decode_non_reg_rm_field, DecodeError};

fn decode_one(opcode: u8, rest: Vec<u8>) -> Result<String, DecodeError> {
    let mut source = ByteSource::new(rest);
    decode(opcode, &mut source).map(|inst| inst.to_string())
}

#[test]
fn reg_to_reg_register_direct_round_trip() {
    // Encoded: direction bit set, word flag set, mode register-direct,
    // reg 000 (ax), r/m 001 (cx).
    assert_eq!(decode_one(0b10001011, vec![0b11000001]).unwrap(), "mov ax, cx");
}

#[test]
fn reg_to_reg_register_direct_reg_as_source() {
    // Same fields with the direction bit clear: the reg field is the source.
    assert_eq!(decode_one(0b10001001, vec![0b11000001]).unwrap(), "mov cx, ax");
}

#[test]
fn reg_to_reg_byte_registers() {
    // Word flag clear: the byte register table is used.
    assert_eq!(decode_one(0b10001010, vec![0b11110001]).unwrap(), "mov dh, cl");
}

#[test]
fn one_byte_displacement() {
    // mode 01, r/m 000 (bx+si), displacement 0x05.
    assert_eq!(decode_one(0b10001010, vec![0b01000000, 0x05]).unwrap(), "mov al, [bx + si + 5]");
}

#[test]
fn two_byte_displacement_little_endian() {
    // mode 10, r/m 000, displacement bytes 0x02 0x01 -> 258.
    assert_eq!(
        decode_one(0b10001010, vec![0b10000000, 0x02, 0x01]).unwrap(),
        "mov al, [bx + si + 258]",
    );
}

#[test]
fn direct_address_special_case() {
    // mode 00 with r/m 110 forces a two-byte direct address: 0x34 0x12 -> 4660,
    // and no base register appears.
    assert_eq!(decode_one(0b10001011, vec![0b00000110, 0x34, 0x12]).unwrap(), "mov ax, [4660]");
}

#[test]
fn rm_110_outside_direct_case_means_bp() {
    // mode 01 with r/m 110 is ordinary: base bp plus the displacement.
    assert_eq!(decode_one(0b10001011, vec![0b01000110, 0x07]).unwrap(), "mov ax, [bp + 7]");
}

#[test]
fn zero_displacement_is_omitted() {
    // mode 01 with displacement byte 0x00 renders without the displacement.
    assert_eq!(decode_one(0b10001010, vec![0b01000000, 0x00]).unwrap(), "mov al, [bx + si]");
}

#[test]
fn direct_address_of_zero_renders_empty_brackets() {
    // The direct-address case with a zero address has no pieces at all.
    assert_eq!(decode_one(0b10001011, vec![0b00000110, 0x00, 0x00]).unwrap(), "mov ax, []");
}

#[test]
fn memory_operand_without_displacement() {
    // mode 00 (no displacement), r/m 011 -> bp+di.
    assert_eq!(decode_one(0b10001001, vec![0b00000011]).unwrap(), "mov [bp + di], ax");
}

#[test]
fn immediate_to_byte_register() {
    // opcode 0b00001011 variant with word=0, reg=000, data 0x2A.
    assert_eq!(decode_one(0b10110000, vec![0x2A]).unwrap(), "mov al, 42");
}

#[test]
fn immediate_to_word_register_little_endian() {
    // word=1, reg=000 (ax), data bytes 0x34 0x12 -> 4660.
    assert_eq!(decode_one(0b10111000, vec![0x34, 0x12]).unwrap(), "mov ax, 4660");
}

#[test]
fn immediate_zero() {
    assert_eq!(decode_one(0b10110001, vec![0x00]).unwrap(), "mov cl, 0");
}

#[test]
fn immediate_largest_word_value() {
    assert_eq!(decode_one(0b10111011, vec![0xFF, 0xFF]).unwrap(), "mov bx, 65535");
}

#[test]
fn unsupported_opcode_consumes_exactly_one_byte() {
    // The offending opcode byte was already taken by the caller; the decoder
    // itself must leave the rest of the stream untouched.
    let mut source = ByteSource::new(vec![0xFF, 0x55]);
    let word = source.read_next().unwrap();
    assert_eq!(word, 0xFF);
    let r = decode(word, &mut source);
    assert_eq!(r.unwrap_err(), DecodeError::UnsupportedOpcode);
    assert_eq!(source.read_next(), Some(0x55));
    assert_eq!(source.read_next(), None);
}

#[test]
fn truncated_before_mode_byte() {
    // A register-to-register opcode byte followed at once by end-of-stream.
    assert_eq!(decode_one(0b10001011, vec![]).unwrap_err(), DecodeError::UnexpectedEndOfStream);
}

#[test]
fn truncated_inside_displacement() {
    // mode 10 owes two displacement bytes; only one arrives.
    assert_eq!(
        decode_one(0b10001011, vec![0b10000000, 0x01]).unwrap_err(),
        DecodeError::UnexpectedEndOfStream,
    );
}

#[test]
fn truncated_immediate_data() {
    // A wide immediate owes two data bytes; only one arrives.
    assert_eq!(
        decode_one(0b10111000, vec![0x01]).unwrap_err(),
        DecodeError::UnexpectedEndOfStream,
    );
}

#[test]
fn truncated_immediate_with_no_data() {
    assert_eq!(decode_one(0b10110000, vec![]).unwrap_err(), DecodeError::UnexpectedEndOfStream);
}

#[test]
fn error_messages() {
    assert_eq!(DecodeError::UnsupportedOpcode.message(), "unsupported opcode");
    assert_eq!(DecodeError::UnexpectedEndOfStream.message(), "unexpected end of stream");
}

#[test]
fn decodes_a_stream_of_instructions_in_order() {
    let bytes = vec![0x8B, 0xC1, 0xB0, 0x2A, 0x8B, 0x06, 0x34, 0x12];
    let mut source = ByteSource::new(bytes);
    let mut out: Vec<String> = Vec::new();
    while let Some(word) = source.read_next() {
        match decode(word, &mut source) {
            Ok(inst) => out.push(inst.to_string()),
            Err(e) => out.push(e.message()),
        }
    }
    assert_eq!(out, vec!["mov ax, cx", "mov al, 42", "mov ax, [4660]"]);
}

#[test]
fn decoding_goes_on_after_an_unsupported_opcode() {
    let bytes = vec![0x00, 0xB0, 0x2A];
    let mut source = ByteSource::new(bytes);
    let mut out: Vec<String> = Vec::new();
    while let Some(word) = source.read_next() {
        match decode(word, &mut source) {
            Ok(inst) => out.push(inst.to_string()),
            Err(e) => out.push(e.message()),
        }
    }
    assert_eq!(out, vec!["unsupported opcode", "mov al, 42"]);
}

#[test]
fn non_reg_rm_field_all_codes() {
    let expected = [
        "[bx + si]",
        "[bx + di]",
        "[bp + si]",
        "[bp + di]",
        "[si]",
        "[di]",
        "[bp]",
        "[bx]",
    ];
    for (code, want) in expected.iter().enumerate() {
        // mode 01 keeps even r/m 110 an ordinary base.
        let arg = decode_non_reg_rm_field(code as u8, 0b01, None);
        assert_eq!(arg.to_string(), *want);
    }
}

#[test]
fn non_reg_rm_field_zero_displacement_omitted() {
    let with_zero = decode_non_reg_rm_field(0b010, 0b01, Some(0));
    let without = decode_non_reg_rm_field(0b010, 0b01, None);
    assert_eq!(with_zero.to_string(), "[bp + si]");
    assert_eq!(with_zero.to_string(), without.to_string());
}

#[test]
fn non_reg_rm_field_direct_address() {
    let arg = decode_non_reg_rm_field(0b110, 0b00, Some(4660));
    assert_eq!(arg.to_string(), "[4660]");
}
