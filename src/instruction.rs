use vstd::bytes::{spec_u64_from_le_bytes, u64_from_le_bytes};
use vstd::prelude::*;
use vstd::slice::slice_subrange;

use crate::error::EscrowError;

verus! {

/// The two commands the escrow program understands.
#[derive(Debug, Clone, Copy, PartialEq, Eq, Structural)]
pub enum EscrowInstruction {
    /// Opens an escrow that asks `amount` of token B in return.
    InitEscrow { amount: u64 },
    /// Completes an escrow; `amount` is the token-A balance the taker expects.
    Exchange { amount: u64 },
}

/// What a buffer decodes to: tag `0` or `1`, then a little-endian amount in
/// the next eight bytes; anything after them is ignored.
pub open spec fn decode_instruction(input: Seq<u8>) -> Result<EscrowInstruction, EscrowError> {
    if input.len() < 9 {
        Err(EscrowError::InvalidInstruction)
    } else if input[0] == 0 {
        Ok(EscrowInstruction::InitEscrow { amount: spec_u64_from_le_bytes(input.subrange(1, 9)) })
    } else if input[0] == 1 {
        Ok(EscrowInstruction::Exchange { amount: spec_u64_from_le_bytes(input.subrange(1, 9)) })
    } else {
        Err(EscrowError::InvalidInstruction)
    }
}

impl EscrowInstruction {
    /// Decodes an instruction buffer.
    pub fn unpack(input: &[u8]) -> (r: Result<EscrowInstruction, EscrowError>)
        ensures
            r == decode_instruction(input@),
    {
        if input.len() < 9 {
            return Err(EscrowError::InvalidInstruction);
        }
        let tag = input[0];
        if tag > 1 {
            return Err(EscrowError::InvalidInstruction);
        }
        let amount_bytes = slice_subrange(input, 1, 9);
        let amount = u64_from_le_bytes(amount_bytes);
        if tag == 0 {
            Ok(EscrowInstruction::InitEscrow { amount })
        } else {
            Ok(EscrowInstruction::Exchange { amount })
        }
    }
}

/// An empty buffer, a tag other than `0` or `1`, or a tag followed by fewer
/// than eight amount bytes never decodes.
pub proof fn lemma_decoder_rejects(input: Seq<u8>)
    ensures
        input.len() == 0 ==> decode_instruction(input) == Err::<EscrowInstruction, EscrowError>(
            EscrowError::InvalidInstruction,
        ),
        input.len() > 0 && input[0] > 1 ==> decode_instruction(input) == Err::<
            EscrowInstruction,
            EscrowError,
        >(EscrowError::InvalidInstruction),
        input.len() < 9 ==> decode_instruction(input) == Err::<EscrowInstruction, EscrowError>(
            EscrowError::InvalidInstruction,
        ),
{
}

} // verus!
