//! The failures an operation can report.

use vstd::prelude::*;

verus! {

/// Why an operation was refused. Every failure aborts the whole operation.
#[derive(Clone, Copy, Debug, PartialEq, Eq, Structural)]
pub enum VoteError {
    /// The deadline of a new proposal is not strictly in the future.
    InvalidDeadline,
    /// The proposal counter exists although the treasury does not.
    ProposalCounterAlreadyInitialized,
    /// The proposal counter has reached the end of its 8-bit range.
    ProposalCounterOverflow,
    /// The proposal's deadline has passed: it takes no more votes.
    ProposalEnded,
    /// The proposal's vote count has reached the end of its 8-bit range.
    ProposalVotesOverflow,
    /// The proposal's deadline has not passed: no winner can be declared yet.
    VotingStillActive,
    /// The proposal to finalize has received no vote.
    NoVoteCast,
    /// The caller is not the identity that the operation is reserved for.
    Unauthorized,
    /// A token account or the named token type is not the configured one.
    TokenMintMismatch,
    /// A record already exists where a singleton or a proposal is to be created.
    AlreadyInitialized,
    /// The identity already has a voter record.
    DuplicateRegistration,
    /// No record exists at the address that the operation reads.
    RecordNotFound,
    /// The record at the address is of another type than the operation reads.
    TypeMismatch,
    /// The voter has already cast a vote.
    PreconditionViolated,
    /// The proposal's description is longer than a record can hold.
    LengthExceeded,
    /// The payment cannot be exchanged: the price is zero, or the token amount
    /// does not fit in 64 bits.
    InvalidAmount,
    /// No nonce gives the seeds a valid address.
    NoValidNonce,
}

impl VoteError {
    /// The text of `message`, for each failure.
    pub open spec fn message_text(self) -> Seq<char> {
        match self {
            VoteError::InvalidDeadline => "Invalid deadline passed"@,
            VoteError::ProposalCounterAlreadyInitialized => "Proposal counter is already initialized"@,
            VoteError::ProposalCounterOverflow => "Proposal Counter Overflow"@,
            VoteError::ProposalEnded => "Proposal Ended"@,
            VoteError::ProposalVotesOverflow => "Proposal Votes Overflow"@,
            VoteError::VotingStillActive => "Voting is still active - cannot declare winner yet"@,
            VoteError::NoVoteCast => "No vote cast for this proposal"@,
            VoteError::Unauthorized => "Unauthorized access"@,
            VoteError::TokenMintMismatch => "Token Mint Mismatch"@,
            VoteError::AlreadyInitialized => "Already initialized"@,
            VoteError::DuplicateRegistration => "Voter is already registered"@,
            VoteError::RecordNotFound => "Record not found"@,
            VoteError::TypeMismatch => "Record type mismatch"@,
            VoteError::PreconditionViolated => "Voter has already voted"@,
            VoteError::LengthExceeded => "Proposal description is too long"@,
            VoteError::InvalidAmount => "Payment cannot be exchanged"@,
            VoteError::NoValidNonce => "No valid nonce found"@,
        }
    }

    /// A short description of the failure, for display.
    pub fn message(&self) -> (text: &'static str)
        ensures
            text@ == self.message_text(),
    {
        match self {
            VoteError::InvalidDeadline => "Invalid deadline passed",
            VoteError::ProposalCounterAlreadyInitialized => "Proposal counter is already initialized",
            VoteError::ProposalCounterOverflow => "Proposal Counter Overflow",
            VoteError::ProposalEnded => "Proposal Ended",
            VoteError::ProposalVotesOverflow => "Proposal Votes Overflow",
            VoteError::VotingStillActive => "Voting is still active - cannot declare winner yet",
            VoteError::NoVoteCast => "No vote cast for this proposal",
            VoteError::Unauthorized => "Unauthorized access",
            VoteError::TokenMintMismatch => "Token Mint Mismatch",
            VoteError::AlreadyInitialized => "Already initialized",
            VoteError::DuplicateRegistration => "Voter is already registered",
            VoteError::RecordNotFound => "Record not found",
            VoteError::TypeMismatch => "Record type mismatch",
            VoteError::PreconditionViolated => "Voter has already voted",
            VoteError::LengthExceeded => "Proposal description is too long",
            VoteError::InvalidAmount => "Payment cannot be exchanged",
            VoteError::NoValidNonce => "No valid nonce found",
        }
    }
}

} // verus!
