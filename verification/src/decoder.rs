use vstd::prelude::*;

use crate::byte_source::ByteSource;
use crate::decimal::{dec_seq, u16_to_decimal};
use crate::instruction::{Arg, ArgV, Instruction, InstructionV};
use crate::registers::{find_register_name, reg_name};

verus! {

/// The top six bits of a register-to-register MOV opcode byte.
pub const INST_MOV_REG_TO_REG: u8 = 0b00100010;

/// The top four bits of an immediate-to-register MOV opcode byte.
pub const INST_MOV_IMMEDIATE_TO_REG: u8 = 0b00001011;

/// Why a decode failed.
#[derive(Clone, Copy, Debug, PartialEq, Eq, Structural)]
pub enum DecodeError {
    /// The opcode byte matches no instruction pattern this decoder knows.
    /// Only that one byte has been consumed.
    UnsupportedOpcode,
    /// The stream ended while further bytes of the instruction were still
    /// owed; the bytes already consumed are not un-read.
    UnexpectedEndOfStream,
}

/// What a decode does to a stream: the instruction it yields or the error it
/// fails with, and in either case how many bytes it consumes beyond the
/// opcode byte itself.
pub enum DecodeOutcome {
    Decoded { inst: InstructionV, used: nat },
    Failed { error: DecodeError, used: nat },
}

/// Whether the opcode byte selects the register-to-register MOV form.
pub open spec fn is_reg_to_reg_opcode(word: u8) -> bool {
    word >> 2 == INST_MOV_REG_TO_REG
}

/// Whether the opcode byte selects the immediate-to-register MOV form.
pub open spec fn is_immediate_opcode(word: u8) -> bool {
    word >> 4 == INST_MOV_IMMEDIATE_TO_REG
}

/// How many displacement bytes the mode byte calls for: one for mode `01`,
/// two for mode `10`, and two for the direct-address exception (mode `00`
/// with r/m `110`); none otherwise.
pub open spec fn disp_len(mode_byte: u8) -> nat {
    if mode_byte >> 6 == 1 {
        1
    } else if mode_byte >> 6 == 2 || (mode_byte >> 6 == 0 && mode_byte & 7 == 6) {
        2
    } else {
        0
    }
}

/// The displacement value read after the mode byte: the bytes at offsets 1
/// and 2 of `input` (which starts at the mode byte), little-endian, with the
/// one-byte form left as that byte's own value.
pub open spec fn spec_displacement(mode_byte: u8, input: Seq<u8>) -> Option<u16>
    recommends
        1 + disp_len(mode_byte) <= input.len(),
{
    if disp_len(mode_byte) == 1 {
        Some(input[1] as u16)
    } else if disp_len(mode_byte) == 2 {
        Some((input[1] + 256 * input[2]) as u16)
    } else {
        None
    }
}

/// The base and index register names that an r/m code stands for in a memory
/// address calculation. In the direct-address exception (mode `00` with r/m
/// `110`) there is no base at all; in every other mode r/m `110` means `bp`.
pub open spec fn base_registers(r_m: u8, mode: u8) -> Seq<Seq<char>>
    recommends
        r_m < 8,
{
    if r_m == 0 {
        seq!["bx"@, "si"@]
    } else if r_m == 1 {
        seq!["bx"@, "di"@]
    } else if r_m == 2 {
        seq!["bp"@, "si"@]
    } else if r_m == 3 {
        seq!["bp"@, "di"@]
    } else if r_m == 4 {
        seq!["si"@]
    } else if r_m == 5 {
        seq!["di"@]
    } else if r_m == 6 {
        if mode == 0 {
            Seq::empty()
        } else {
            seq!["bp"@]
        }
    } else {
        seq!["bx"@]
    }
}

/// The pieces of a rendered memory address calculation: the base and index
/// registers, then the displacement as decimal text — but only when the
/// displacement is present and non-zero.
pub open spec fn addr_calc_parts(r_m: u8, mode: u8, disp: Option<u16>) -> Seq<Seq<char>>
    recommends
        r_m < 8,
{
    let base = base_registers(r_m, mode);
    match disp {
        Some(d) => if d != 0 {
            base.push(dec_seq(d as nat))
        } else {
            base
        },
        None => base,
    }
}

/// The instruction that a register-to-register MOV decodes to, given its
/// opcode byte, its mode byte, and the displacement that followed. The r/m
/// operand comes first and the reg operand second, unless the direction bit
/// says the reg field is the destination, in which case they swap.
pub open spec fn spec_reg_to_reg_instruction(word: u8, mode_byte: u8, disp: Option<u16>)
    -> InstructionV {
    let is_wide = word & 1 == 1;
    let reg_is_destination = word & 2 == 2;
    let mode = mode_byte >> 6;
    let r_m = mode_byte & 7;
    let reg = (mode_byte >> 3) & 7;
    let r_m_arg = if mode == 3 {
        ArgV::Register(reg_name(r_m, is_wide))
    } else {
        ArgV::AddrsCalc(addr_calc_parts(r_m, mode, disp))
    };
    let reg_arg = ArgV::Register(reg_name(reg, is_wide));
    InstructionV {
        mnemonic: "mov"@,
        args: if reg_is_destination {
            seq![reg_arg, r_m_arg]
        } else {
            seq![r_m_arg, reg_arg]
        },
    }
}

/// What decoding a register-to-register MOV does to the bytes after the
/// opcode byte: it needs the mode byte plus the displacement bytes the mode
/// calls for; a shorter stream fails with everything available consumed.
pub open spec fn spec_decode_reg_to_reg(word: u8, input: Seq<u8>) -> DecodeOutcome {
    if input.len() == 0 {
        DecodeOutcome::Failed { error: DecodeError::UnexpectedEndOfStream, used: 0 }
    } else {
        let mode_byte = input[0];
        let needed = 1 + disp_len(mode_byte);
        if input.len() < needed {
            DecodeOutcome::Failed { error: DecodeError::UnexpectedEndOfStream, used: input.len() }
        } else {
            DecodeOutcome::Decoded {
                inst: spec_reg_to_reg_instruction(word, mode_byte, spec_displacement(mode_byte, input)),
                used: needed,
            }
        }
    }
}

/// What decoding an immediate-to-register MOV does to the bytes after the
/// opcode byte: the destination register comes from the opcode byte itself,
/// and one data byte follows, or two (little-endian) when the size flag in
/// opcode bit 3 says wide.
pub open spec fn spec_decode_immediate(word: u8, input: Seq<u8>) -> DecodeOutcome {
    let is_wide = word & 8 == 8;
    let needed: nat = if is_wide {
        2
    } else {
        1
    };
    if input.len() < needed {
        DecodeOutcome::Failed { error: DecodeError::UnexpectedEndOfStream, used: input.len() }
    } else {
        let value: u16 = if is_wide {
            (input[0] + 256 * input[1]) as u16
        } else {
            input[0] as u16
        };
        DecodeOutcome::Decoded {
            inst: InstructionV {
                mnemonic: "mov"@,
                args: seq![
                    ArgV::Register(reg_name(word & 7, is_wide)),
                    ArgV::Immediate(dec_seq(value as nat)),
                ],
            },
            used: needed,
        }
    }
}

/// What decoding does for any opcode byte `word` followed by the bytes
/// `input`: the first matching opcode pattern selects its decode form, and a
/// byte matching neither fails at once with nothing consumed beyond the
/// opcode byte.
pub open spec fn spec_decode(word: u8, input: Seq<u8>) -> DecodeOutcome {
    if is_reg_to_reg_opcode(word) {
        spec_decode_reg_to_reg(word, input)
    } else if is_immediate_opcode(word) {
        spec_decode_immediate(word, input)
    } else {
        DecodeOutcome::Failed { error: DecodeError::UnsupportedOpcode, used: 0 }
    }
}

/// Whether an executable decode result agrees with the outcome the
/// specification calls for: the same instruction or error, and the stream
/// advanced by exactly the consumed bytes.
pub open spec fn decode_result_matches(
    outcome: DecodeOutcome,
    r: Result<Instruction, DecodeError>,
    before: Seq<u8>,
    after: Seq<u8>,
) -> bool {
    match outcome {
        DecodeOutcome::Decoded { inst, used } => r matches Ok(i) && i@ == inst && after
            == before.skip(used as int),
        DecodeOutcome::Failed { error, used } => r matches Err(e) && e == error && after
            == before.skip(used as int),
    }
}

/// The diagnostic text for a decode failure.
pub open spec fn error_message(e: DecodeError) -> Seq<char> {
    match e {
        DecodeError::UnsupportedOpcode => "unsupported opcode"@,
        DecodeError::UnexpectedEndOfStream => "unexpected end of stream"@,
    }
}

impl DecodeError {
    /// Renders this error as a human-readable diagnostic.
    pub fn message(&self) -> (r: String)
        ensures
            r@ == error_message(*self),
    {
        match self {
            DecodeError::UnsupportedOpcode => String::from_str("unsupported opcode"),
            DecodeError::UnexpectedEndOfStream => String::from_str("unexpected end of stream"),
        }
    }
}

/// Law: a zero displacement is left out of the rendered address calculation,
/// so the operand comes out exactly as it would with no displacement at all.
pub proof fn lemma_zero_displacement_omitted(r_m: u8, mode: u8)
    ensures
        addr_calc_parts(r_m, mode, Some(0u16)) == addr_calc_parts(r_m, mode, None),
{
}

/// Law: an opcode byte that matches neither MOV pattern fails with
/// `UnsupportedOpcode` and consumes no byte beyond the opcode byte itself,
/// whatever follows it in the stream.
pub proof fn lemma_unsupported_opcode(word: u8, input: Seq<u8>)
    requires
        !is_reg_to_reg_opcode(word),
        !is_immediate_opcode(word),
    ensures
        spec_decode(word, input) == (DecodeOutcome::Failed {
            error: DecodeError::UnsupportedOpcode,
            used: 0,
        }),
{
}

/// How many bytes beyond the opcode byte a recognized instruction needs: the
/// mode byte and its displacement bytes for the register-to-register form
/// (one byte — the mode byte it never got — when the stream is already
/// empty), the one or two data bytes for the immediate form.
pub open spec fn spec_bytes_needed(word: u8, input: Seq<u8>) -> nat {
    if is_reg_to_reg_opcode(word) {
        if input.len() == 0 {
            1
        } else {
            1 + disp_len(input[0])
        }
    } else if is_immediate_opcode(word) {
        if word & 8 == 8 {
            2
        } else {
            1
        }
    } else {
        0
    }
}

/// Law: a truncated stream — a recognized opcode byte followed by fewer
/// bytes than the instruction needs — fails with `UnexpectedEndOfStream`,
/// and every byte that was still available stays consumed.
pub proof fn lemma_truncated_stream(word: u8, input: Seq<u8>)
    requires
        is_reg_to_reg_opcode(word) || is_immediate_opcode(word),
        input.len() < spec_bytes_needed(word, input),
    ensures
        spec_decode(word, input) == (DecodeOutcome::Failed {
            error: DecodeError::UnexpectedEndOfStream,
            used: input.len(),
        }),
{
    assert(!(word >> 2 == 0b00100010 && word >> 4 == 0b00001011)) by (bit_vector);
}

/// Builds the memory-address-calculation operand for a non-register r/m
/// field: the fixed base/index names for the code, with the displacement
/// appended as decimal text when present and non-zero.
pub fn decode_non_reg_rm_field(r_m: u8, mode: u8, disp: Option<u16>) -> (r: Arg)
    requires
        r_m < 8,
    ensures
        r@ == ArgV::AddrsCalc(addr_calc_parts(r_m, mode, disp)),
{
    let mut calc_args: Vec<String> = Vec::new();
    if r_m == 0 {
        calc_args.push(String::from_str("bx"));
        calc_args.push(String::from_str("si"));
    } else if r_m == 1 {
        calc_args.push(String::from_str("bx"));
        calc_args.push(String::from_str("di"));
    } else if r_m == 2 {
        calc_args.push(String::from_str("bp"));
        calc_args.push(String::from_str("si"));
    } else if r_m == 3 {
        calc_args.push(String::from_str("bp"));
        calc_args.push(String::from_str("di"));
    } else if r_m == 4 {
        calc_args.push(String::from_str("si"));
    } else if r_m == 5 {
        calc_args.push(String::from_str("di"));
    } else if r_m == 6 {
        if mode != 0 {
            calc_args.push(String::from_str("bp"));
        }
    } else {
        calc_args.push(String::from_str("bx"));
    }
    proof {
        assert(calc_args.deep_view() =~= base_registers(r_m, mode));
    }
    if disp.is_some() && disp.unwrap() != 0 {
        calc_args.push(u16_to_decimal(disp.unwrap()));
        proof {
            assert(calc_args.deep_view() =~= base_registers(r_m, mode).push(
                dec_seq(disp.unwrap() as nat),
            ));
        }
    }
    Arg::new_addrs_calc(calc_args)
}

/// Decodes the register-to-register MOV form: reads the mode byte and the
/// displacement bytes it calls for, builds the r/m and reg operands, and
/// orders them by the opcode's direction bit. A stream that ends early fails
/// with `UnexpectedEndOfStream`, the bytes already read staying consumed.
pub fn decode_register_to_register(word: u8, reader: &mut ByteSource) -> (r: Result<
    Instruction,
    DecodeError,
>)
    requires
        old(reader).wf(),
    ensures
        final(reader).wf(),
        decode_result_matches(
            spec_decode_reg_to_reg(word, old(reader).remaining()),
            r,
            old(reader).remaining(),
            final(reader).remaining(),
        ),
{
    let ghost input = reader.remaining();
    let word2 = match reader.read_next() {
        Some(b) => b,
        None => {
            proof {
                assert(input.skip(0) =~= input);
            }
            return Err(DecodeError::UnexpectedEndOfStream);
        },
    };
    let reg_from = word & 0b00000010 == 0b00000010;
    let is_wide = word & 0b00000001 == 0b00000001;

    let mode = word2 >> 6;
    let r_m = word2 & 0b00000111;
    proof {
        assert(word2 & 7 < 8) by (bit_vector);
    }
    let is_reg_to_reg = mode == 0b00000011;
    let does_have_disp_low = mode == 0b00000001;
    let does_have_disp_high = mode == 0b00000010 || (mode == 0b00000000 && r_m == 0b00000110);

    let mut disp_low: u8 = 0;
    let mut disp_high: u8 = 0;
    if does_have_disp_low || does_have_disp_high {
        disp_low = match reader.read_next() {
            Some(b) => b,
            None => {
                proof {
                    assert(input.len() == 1);
                    assert(input.skip(1) =~= input.skip(input.len() as int));
                }
                return Err(DecodeError::UnexpectedEndOfStream);
            },
        };
    }
    if does_have_disp_high {
        disp_high = match reader.read_next() {
            Some(b) => b,
            None => {
                proof {
                    assert(input.len() == 2);
                    assert(input.skip(1).skip(1) =~= input.skip(2));
                }
                return Err(DecodeError::UnexpectedEndOfStream);
            },
        };
    }
    let disp_value: Option<u16> = if does_have_disp_high || does_have_disp_low {
        Some((disp_high as u16) * 256 + (disp_low as u16))
    } else {
        None
    };
    proof {
        if does_have_disp_low {
            assert(input.len() >= 2);
            assert(input.skip(1).skip(1) =~= input.skip(2));
            assert(disp_low == input[1]);
        }
        if does_have_disp_high {
            assert(input.len() >= 3);
            assert(input.skip(1).skip(1) =~= input.skip(2));
            assert(input.skip(2).skip(1) =~= input.skip(3));
            assert(disp_low == input[1]);
            assert(disp_high == input[2]);
            assert(input[1] + 256 * input[2] <= 65535);
        }
        assert(disp_value == spec_displacement(word2, input));
    }

    let r_m_field = if is_reg_to_reg {
        proof {
            assert((word2 << 5) >> 5 == word2 & 7) by (bit_vector);
        }
        Arg::new_register(find_register_name(&word2, 5, is_wide))
    } else {
        decode_non_reg_rm_field(r_m, mode, disp_value)
    };
    proof {
        assert((word2 << 2) >> 5 == (word2 >> 3) & 7) by (bit_vector);
    }
    let reg_field = Arg::new_register(find_register_name(&word2, 2, is_wide));

    let mut res = Instruction::new("mov");
    proof {
        assert(res.arg.deep_view().len() == res.arg@.len());
        assert(res.arg@.len() == 0);
    }
    if reg_from {
        res.arg.push(reg_field);
        res.arg.push(r_m_field);
    } else {
        res.arg.push(r_m_field);
        res.arg.push(reg_field);
    }
    proof {
        let expected = spec_reg_to_reg_instruction(word, word2, spec_displacement(word2, input));
        assert(res.arg@.len() == 2);
        assert(res@.args[0] == res.arg@[0]@);
        assert(res@.args[1] == res.arg@[1]@);
        assert(res@.args =~= expected.args);
        assert(res@ == expected);
    }
    Ok(res)
}

/// Decodes the immediate-to-register MOV form: the destination register
/// comes from the low three bits of the opcode byte, and one data byte
/// follows, or two (little-endian) when opcode bit 3 says wide.
pub fn decode_imediate_to_register(word: u8, reader: &mut ByteSource) -> (r: Result<
    Instruction,
    DecodeError,
>)
    requires
        old(reader).wf(),
    ensures
        final(reader).wf(),
        decode_result_matches(
            spec_decode_immediate(word, old(reader).remaining()),
            r,
            old(reader).remaining(),
            final(reader).remaining(),
        ),
{
    let ghost input = reader.remaining();
    let is_wide = word & 0b00001000 == 0b00001000;
    proof {
        assert((word << 5) >> 5 == word & 7) by (bit_vector);
        assert(word & 7 < 8) by (bit_vector);
    }
    let target_register = find_register_name(&word, 5, is_wide);

    let mut data_high: u8 = 0;
    let data_low: u8 = match reader.read_next() {
        Some(b) => b,
        None => {
            proof {
                assert(input.skip(0) =~= input);
            }
            return Err(DecodeError::UnexpectedEndOfStream);
        },
    };
    if is_wide {
        data_high = match reader.read_next() {
            Some(b) => b,
            None => {
                proof {
                    assert(input.len() == 1);
                    assert(input.skip(1) =~= input.skip(input.len() as int));
                }
                return Err(DecodeError::UnexpectedEndOfStream);
            },
        };
    }
    let data_value: u16 = (data_high as u16) * 256 + (data_low as u16);
    let ghost value16: u16 = if is_wide {
        (input[0] + 256 * input[1]) as u16
    } else {
        input[0] as u16
    };
    proof {
        assert(data_low == input[0]);
        if is_wide {
            assert(input.len() >= 2);
            assert(input.skip(1)[0] == input[1]);
            assert(data_high == input[1]);
            assert(input[0] + 256 * input[1] <= 65535);
            assert(input.skip(1).skip(1) =~= input.skip(2));
        }
        assert(data_value == value16);
    }
    let mut res = Instruction::new("mov");
    proof {
        assert(res.arg.deep_view().len() == res.arg@.len());
        assert(res.arg@.len() == 0);
    }
    res.arg.push(Arg::new_register(target_register));
    res.arg.push(Arg::new_immediate(u16_to_decimal(data_value)));
    proof {
        let ghost expected = seq![
            ArgV::Register(reg_name(word & 7, is_wide)),
            ArgV::Immediate(dec_seq(value16 as nat)),
        ];
        assert(res.arg@.len() == 2);
        assert(res@.args[0] == res.arg@[0]@);
        assert(res@.args[1] == res.arg@[1]@);
        assert(res@.args =~= expected);
    }
    Ok(res)
}

/// Classifies the opcode byte and runs the decode form it selects; a byte
/// matching neither pattern fails with `UnsupportedOpcode` and consumes
/// nothing further from the stream.
pub fn decode(word: u8, reader: &mut ByteSource) -> (r: Result<Instruction, DecodeError>)
    requires
        old(reader).wf(),
    ensures
        final(reader).wf(),
        decode_result_matches(
            spec_decode(word, old(reader).remaining()),
            r,
            old(reader).remaining(),
            final(reader).remaining(),
        ),
{
    if word >> 2 == INST_MOV_REG_TO_REG {
        return decode_register_to_register(word, reader);
    }
    if word >> 4 == INST_MOV_IMMEDIATE_TO_REG {
        return decode_imediate_to_register(word, reader);
    }
    proof {
        assert(reader.remaining().skip(0) =~= reader.remaining());
    }
    Err(DecodeError::UnsupportedOpcode)
}

} // verus!
