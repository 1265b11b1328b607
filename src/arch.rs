//! Architecture facts that the probe engine relies on (x86-64), and the
//! calls into the instruction decoder and the bit-field helpers.
use bit_field::BitField;
use vstd::prelude::*;
use yaxpeax_arch::LengthedInstruction;

verus! {

/// The one-byte breakpoint instruction (`int3`).
pub const BREAKPOINT_OPCODE: u8 = 0xcc;

/// Width in bytes of the breakpoint instruction; the trapped program counter
/// points this far past the patched address.
pub const BREAKPOINT_WIDTH: usize = 1;

/// The longest encoding of a single instruction, in bytes.
pub const MAX_INSTRUCTION_LEN: usize = 15;

/// Index of the trap flag (single-step) in the flags register.
pub const SINGLE_STEP_BIT: usize = 8;

#[verifier::external_type_specification]
#[verifier::external_body]
pub struct ExDecodeError(yaxpeax_x86::amd64::DecodeError);

/// The length of the first x86-64 instruction encoded at the start of
/// `bytes`, or `None` when the decoder does not recognise it.
pub uninterp spec fn x86_instruction_len(bytes: Seq<u8>) -> Option<nat>;

/// Relies on yaxpeax-x86's `InstDecoder::decode_slice` with the default
/// decoder, and on `LengthedInstruction::len` of the decoded instruction: the
/// decoder reads at least one byte, never past the end of the slice, and
/// rejects an instruction longer than fifteen bytes.
#[verifier::external_body]
pub(crate) fn decode_instruction_len(bytes: &[u8]) -> (r: Result<usize, yaxpeax_x86::amd64::DecodeError>)
    ensures
        match r {
            Ok(n) => {
                &&& x86_instruction_len(bytes@) == Some(n as nat)
                &&& 1 <= n <= MAX_INSTRUCTION_LEN
                &&& n <= bytes@.len()
            },
            Err(_) => x86_instruction_len(bytes@) is None,
        },
{
    let decoder = yaxpeax_x86::amd64::InstDecoder::default();
    decoder.decode_slice(bytes).map(|inst| inst.len().to_const() as usize)
}

/// `x` with bit `bit` set to one when `value` holds, to zero otherwise.
pub open spec fn with_bit(x: usize, bit: usize, value: bool) -> usize {
    if value {
        x | (1usize << bit)
    } else {
        x & !(1usize << bit)
    }
}

/// Relies on bit_field's `BitField::set_bit` for `usize`, which sets or
/// clears one bit and panics on an index past the width of the integer.
#[verifier::external_body]
pub(crate) fn set_flag_bit(x: usize, bit: usize, value: bool) -> (r: usize)
    requires
        bit < 32,
    ensures
        r == with_bit(x, bit, value),
{
    let mut y = x;
    y.set_bit(bit, value);
    y
}

} // verus!
