//! The wire form of an operation: a tag byte and a little-endian amount.

use vstd::prelude::*;
use vstd::bytes::{spec_u64_from_le_bytes, u64_from_le_bytes};
use vstd::slice::{slice_index_get, slice_subrange};
use crate::error::SmeltingError;

verus! {

/// One decoded operation request.
#[derive(Clone, Copy, Debug, PartialEq, Eq, Structural)]
pub enum SmeltingInstruction {
    Smelt { amount: u64 },
    Unsmelt { amount: u64 },
    MintIngot { amount: u64 },
    TransferOre { amount: u64 },
    TransferIngot { amount: u64 },
}

/// The operation a raw byte string denotes: a tag byte selecting the
/// operation followed by exactly eight little-endian amount bytes; anything
/// else is malformed.
pub open spec fn spec_unpack_instruction(input: Seq<u8>) -> Result<
    SmeltingInstruction,
    SmeltingError,
> {
    if input.len() != 9 {
        Err(SmeltingError::InvalidInstruction)
    } else {
        let amount = spec_u64_from_le_bytes(input.subrange(1, 9));
        if input[0] == 0 {
            Ok(SmeltingInstruction::Smelt { amount })
        } else if input[0] == 1 {
            Ok(SmeltingInstruction::Unsmelt { amount })
        } else if input[0] == 2 {
            Ok(SmeltingInstruction::MintIngot { amount })
        } else if input[0] == 3 {
            Ok(SmeltingInstruction::TransferOre { amount })
        } else if input[0] == 4 {
            Ok(SmeltingInstruction::TransferIngot { amount })
        } else {
            Err(SmeltingError::InvalidInstruction)
        }
    }
}

impl SmeltingInstruction {
    /// Decodes a raw operation, rejecting an unknown tag and a payload of
    /// the wrong size before any state is touched.
    pub fn unpack(input: &[u8]) -> (r: Result<SmeltingInstruction, SmeltingError>)
        ensures
            r == spec_unpack_instruction(input@),
    {
        if input.len() != 9 {
            return Err(SmeltingError::InvalidInstruction);
        }
        let tag = *slice_index_get(input, 0);
        let amount = u64_from_le_bytes(slice_subrange(input, 1, 9));
        match tag {
            0 => Ok(SmeltingInstruction::Smelt { amount }),
            1 => Ok(SmeltingInstruction::Unsmelt { amount }),
            2 => Ok(SmeltingInstruction::MintIngot { amount }),
            3 => Ok(SmeltingInstruction::TransferOre { amount }),
            4 => Ok(SmeltingInstruction::TransferIngot { amount }),
            _ => Err(SmeltingError::InvalidInstruction),
        }
    }
}

} // verus!
