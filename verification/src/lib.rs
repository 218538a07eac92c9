//! A token-backed election: a treasury sells voting tokens at a fixed rate,
//! identities register as voters, proposals are submitted against a token bond,
//! every voter casts one vote, and after a proposal's deadline the proposal with
//! the most votes is recorded as the winner.
//!
//! All state lives in a [`ledger::Ledger`]: a store of typed records keyed by the
//! address derived for each of them. Every operation loads the records it needs,
//! validates them, applies one transition and returns; a failed operation leaves
//! the ledger exactly as it was. Currency and token movements are not performed
//! here: an operation returns the transfers that its caller has to carry out
//! together with the new state.

pub mod address;
pub mod contexts;
pub mod errors;
pub mod events;
pub mod laws;
pub mod ledger;
pub mod proposals;
pub mod state;
pub mod treasury;
pub mod voters;
pub mod voting;

pub use address::Address;
pub use contexts::{
    BuyTokens, CloseVoterAccount, InitializeTreasury, PickWinner, RegisterProposal, RegisterVoter,
    TokenAccount, Vote,
};
pub use errors::VoteError;
pub use events::{
    ProposalCreated, ProposalRegistered, Purchase, SolWithdrawn, Transfer, VoterAccountClosed,
};
pub use ledger::{Finalizer, FixedAddresses, Ledger};
pub use proposals::register_proposal;
pub use state::{Proposal, ProposalCounter, Record, RecordKind, TreasuryConfig, Voter, Winner};
pub use treasury::{buy_tokens, initialize_treasury};
pub use voters::{close_voter_account, register_voter};
pub use voting::{pick_winner, vote};
