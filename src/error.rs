use vstd::prelude::*;

verus! {

/// Errors that belong to this program alone.
#[derive(Clone, Copy, Debug, PartialEq, Eq, Structural)]
pub enum VoteError {
    /// The instruction buffer is empty, has an unknown tag or a short payload.
    InvalidInstruction,
    /// `NewVote` targeted a record that is already initialized.
    VoteDataAccountAlreadyInitialized,
    /// `Withdraw` was attempted before the vote's end time.
    VoteInProgress,
}

impl VoteError {
    /// The numeric code under which the host reports this error.
    pub fn code(&self) -> (r: u32)
        ensures
            r == vote_error_code(*self),
    {
        match self {
            VoteError::InvalidInstruction => 0,
            VoteError::VoteDataAccountAlreadyInitialized => 1,
            VoteError::VoteInProgress => 2,
        }
    }
}

pub open spec fn vote_error_code(e: VoteError) -> u32 {
    match e {
        VoteError::InvalidInstruction => 0,
        VoteError::VoteDataAccountAlreadyInitialized => 1,
        VoteError::VoteInProgress => 2,
    }
}

/// Every way in which processing an instruction can fail.
#[derive(Clone, Copy, Debug, PartialEq, Eq, Structural)]
pub enum ProcessError {
    /// One of the program's own errors.
    Custom(VoteError),
    /// A record fails its strict decode, or a derived address does not match.
    InvalidAccountData,
    /// A record is not owned by this program.
    AccountNotOwnedByProgram,
    /// A required signature is absent.
    MissingRequiredSignature,
    /// The voter record is not initialized, or its voter has already voted.
    InvalidInstructionData,
    /// Fewer records were supplied than the operation reads.
    NotEnoughAccountKeys,
    /// The custody account holds no initialized token account.
    UninitializedAccount,
    /// The seed for an address derivation is longer than allowed.
    MaxSeedLengthExceeded,
    /// An address derivation was asked for an owner that is itself derived.
    IllegalOwner,
    /// No program authority address could be derived from the seeds.
    InvalidSeeds,
    /// A tally is already at its largest value.
    ArithmeticOverflow,
}

} // verus!
