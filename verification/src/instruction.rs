use vstd::prelude::*;
use crate::error::FarmError;

verus! {

/// The instruction tag under which a fee payment is requested.
pub const PAY_FARM_FEE_TAG: u8 = 1;

/// The instructions this core recognises. Only the fee payment is
/// performed; every other tag is kept as an explicit unsupported variant so
/// that the dispatcher can reject it with a typed error instead of crashing
/// on unknown input.
#[derive(Clone, Copy, Debug, PartialEq, Eq, Structural)]
pub enum FarmInstruction {
    /// Pay the farm fee; the payload is the claimed amount.
    PayFarmFee(u64),
    /// Any other instruction tag, outside this core's scope.
    Unsupported(u8),
}

/// What a byte buffer decodes to: the fee-payment tag must be followed by
/// exactly its eight-byte little-endian amount; every other tag is carried
/// through as unsupported; an empty buffer or a fee payload of the wrong
/// length does not decode at all.
pub open spec fn spec_parse_instruction(bytes: Seq<u8>) -> Option<FarmInstruction> {
    if bytes.len() == 0 {
        None
    } else if bytes[0] == PAY_FARM_FEE_TAG {
        if bytes.len() == 9 {
            Some(
                FarmInstruction::PayFarmFee(
                    vstd::bytes::spec_u64_from_le_bytes(bytes.subrange(1, 9)),
                ),
            )
        } else {
            None
        }
    } else {
        Some(FarmInstruction::Unsupported(bytes[0]))
    }
}

/// Decodes an instruction buffer, totally: every input yields either a
/// recognised instruction or a `MalformedInstruction` error.
pub fn parse_instruction(bytes: &[u8]) -> (r: Result<FarmInstruction, FarmError>)
    ensures
        match spec_parse_instruction(bytes@) {
            Some(i) => r == Ok::<FarmInstruction, FarmError>(i),
            None => r == Err::<FarmInstruction, FarmError>(FarmError::MalformedInstruction),
        },
{
    if bytes.len() == 0 {
        return Err(FarmError::MalformedInstruction);
    }
    let tag = *vstd::slice::slice_index_get(bytes, 0);
    if tag == PAY_FARM_FEE_TAG {
        if bytes.len() != 9 {
            return Err(FarmError::MalformedInstruction);
        }
        let payload = vstd::slice::slice_subrange(bytes, 1, 9);
        let amount = vstd::bytes::u64_from_le_bytes(payload);
        Ok(FarmInstruction::PayFarmFee(amount))
    } else {
        Ok(FarmInstruction::Unsupported(tag))
    }
}

} // verus!
