use crate::error::ProcessError;
use crate::state::{le_u64, read_u64};
use vstd::prelude::*;

verus! {

/// Payload of the instruction that opens an offer.
#[derive(Debug, Clone, Copy, PartialEq, Eq, Structural)]
pub struct CreateSwap {
    pub offered_amount: u64,
    pub desired_amount: u64,
}

/// Payload of the instruction that cancels an offer: empty.
#[derive(Debug, Clone, Copy, PartialEq, Eq, Structural)]
pub struct CancelSwap {}

/// The commands the program accepts.
#[derive(Debug, Clone, Copy, PartialEq, Eq, Structural)]
pub enum Instruction {
    /// Creates a new swap and moves the offered tokens to escrow.
    ///
    ///   0. `[writable, signer]` Creator of the swap.
    ///   1. `[]` Mint of the creator's offered tokens.
    ///   2. `[writable]` The creator's token account for the offered mint.
    ///   3. `[]` Mint of the desired tokens.
    ///   4. `[writable]` Swap record, created here. Seeds = ["swap", account 2].
    ///   5. `[writable]` Escrow token account, created here, with the swap
    ///      record as authority. Seeds = ["escrow", account 2].
    ///   6. `[]` The token program.
    ///   7. `[]` The system program.
    CreateSwap(CreateSwap),
    /// Cancels a swap and returns the offered tokens to the creator.
    ///
    ///   0. `[writable, signer]` Creator of the swap.
    ///   1. `[writable]` The creator's token account for the offered mint.
    ///   2. `[writable]` Swap record, closed here.
    ///   3. `[writable]` Escrow token account, closed here.
    ///   4. `[]` The token program.
    ///   5. `[]` The system program.
    CancelSwap(CancelSwap),
}

/// Length of a create instruction: tag and two amounts.
pub const CREATE_SWAP_LEN: usize = 17;

/// The command encoded by `b`, if any; bytes past the payload are ignored.
pub open spec fn instruction_spec(b: Seq<u8>) -> Option<Instruction> {
    if b.len() == 0 {
        None
    } else if b[0] == 0 {
        if b.len() >= CREATE_SWAP_LEN {
            Some(
                Instruction::CreateSwap(
                    CreateSwap {
                        offered_amount: le_u64(b.subrange(1, 9)),
                        desired_amount: le_u64(b.subrange(9, 17)),
                    },
                ),
            )
        } else {
            None
        }
    } else if b[0] == 1 {
        Some(Instruction::CancelSwap(CancelSwap {}))
    } else {
        None
    }
}

impl Instruction {
    /// Decodes an instruction: a tag byte, then for a create two
    /// little-endian amounts.
    pub fn unpack(input: &[u8]) -> (r: Result<Instruction, ProcessError>)
        ensures
            match instruction_spec(input@) {
                Some(i) => r == Ok::<Instruction, ProcessError>(i),
                None => r == Err::<Instruction, ProcessError>(ProcessError::InvalidInstructionData),
            },
    {
        if input.len() == 0 {
            return Err(ProcessError::InvalidInstructionData);
        }
        let tag = input[0];
        let (_, rest) = input.split_at(1);
        if tag == 0 {
            let (offered_amount, rest) = Self::unpack_u64(rest)?;
            let (desired_amount, _rest) = Self::unpack_u64(rest)?;
            assert(input@.subrange(1, 9) =~= input@.subrange(1, input@.len() as int).subrange(0, 8));
            Ok(Instruction::CreateSwap(CreateSwap { offered_amount, desired_amount }))
        } else if tag == 1 {
            Ok(Instruction::CancelSwap(CancelSwap {}))
        } else {
            Err(ProcessError::InvalidInstructionData)
        }
    }

    fn unpack_u64(input: &[u8]) -> (r: Result<(u64, &[u8]), ProcessError>)
        ensures
            input@.len() >= 8 ==> (r matches Ok((v, rest)) && v == le_u64(input@.subrange(0, 8))
                && rest@ == input@.subrange(8, input@.len() as int)),
            input@.len() < 8 ==> r == Err::<(u64, &[u8]), ProcessError>(ProcessError::InvalidInstructionData),
    {
        if input.len() >= 8 {
            let v = read_u64(input, 0);
            let (_, rest) = input.split_at(8);
            Ok((v, rest))
        } else {
            Err(ProcessError::InvalidInstructionData)
        }
    }
}

} // verus!
