use vstd::prelude::*;

verus! {

/// Failures specific to the swap program.
#[derive(Debug, Copy, Clone, PartialEq, Eq, Structural)]
pub enum SwapError {
    AccountNotWritable,
    InvalidAtaCreatorOfferedMint,
    InvalidAtaCreatorOfferedOwner,
    InvalidMintAccountData,
    InvalidTokenAccountData,
    InvalidSwapAccountData,
}

impl SwapError {
    /// The custom error code the program reports for this failure.
    pub open spec fn code_spec(self) -> u32 {
        match self {
            SwapError::AccountNotWritable => 0,
            SwapError::InvalidAtaCreatorOfferedMint => 1,
            SwapError::InvalidAtaCreatorOfferedOwner => 2,
            SwapError::InvalidMintAccountData => 3,
            SwapError::InvalidTokenAccountData => 4,
            SwapError::InvalidSwapAccountData => 5,
        }
    }

    pub fn code(&self) -> (r: u32)
        ensures
            r == self.code_spec(),
    {
        match self {
            SwapError::AccountNotWritable => 0,
            SwapError::InvalidAtaCreatorOfferedMint => 1,
            SwapError::InvalidAtaCreatorOfferedOwner => 2,
            SwapError::InvalidMintAccountData => 3,
            SwapError::InvalidTokenAccountData => 4,
            SwapError::InvalidSwapAccountData => 5,
        }
    }

    /// A short description of the failure.
    pub fn message(&self) -> (r: &'static str) {
        match self {
            SwapError::AccountNotWritable => "Account is not writable",
            SwapError::InvalidAtaCreatorOfferedMint => "Invalid ata creator offered mint",
            SwapError::InvalidAtaCreatorOfferedOwner => "Invalid ata creator offered owner",
            SwapError::InvalidMintAccountData => "Invalid mint account data",
            SwapError::InvalidTokenAccountData => "Invalid token account data",
            SwapError::InvalidSwapAccountData => "Invalid swap account data",
        }
    }
}

/// Every way an instruction can fail, as reported to the host.
#[derive(Debug, Copy, Clone, PartialEq, Eq, Structural)]
pub enum ProcessError {
    /// A program-specific failure.
    Custom(SwapError),
    /// Fewer accounts were supplied than the instruction needs.
    NotEnoughAccountKeys,
    /// A required signature is absent.
    MissingRequiredSignature,
    /// An account is owned by the wrong program, or a program id is wrong.
    IncorrectProgramId,
    /// An account address does not match its derivation.
    InvalidArgument,
    /// Account data is malformed or refers to the wrong accounts.
    InvalidAccountData,
    /// Account data is well formed but not initialized.
    UninitializedAccount,
    /// The instruction bytes are malformed.
    InvalidInstructionData,
    /// No program address could be derived from the seeds.
    InvalidSeeds,
    /// A balance addition overflowed.
    ArithmeticOverflow,
}

} // verus!
