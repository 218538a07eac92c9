//! What an operation hands back to its caller: the notifications to send, and
//! the transfers to carry out together with the ledger's new state.

use crate::address::Address;
use vstd::prelude::*;

verus! {

/// A voter record was closed.
#[derive(Clone, Copy, Debug, PartialEq, Eq)]
pub struct VoterAccountClosed {
    pub voter: Address,
    pub rent_recovered_to: Address,
    pub timestamp: i64,
}

/// A proposal was registered.
#[derive(Debug, PartialEq, Eq)]
pub struct ProposalCreated {
    pub proposal_id: u8,
    pub creator: Address,
    pub proposal_info: String,
    pub deadline: i64,
    pub timestamp: i64,
}

/// Native currency was withdrawn from the vault.
#[derive(Clone, Copy, Debug, PartialEq, Eq)]
pub struct SolWithdrawn {
    pub authority: Address,
    pub amount: u64,
    pub timestamp: i64,
}

/// What a `ProposalCreated` holds.
pub struct ProposalCreatedView {
    pub proposal_id: u8,
    pub creator: Address,
    pub proposal_info: Seq<char>,
    pub deadline: i64,
    pub timestamp: i64,
}

impl View for ProposalCreated {
    type V = ProposalCreatedView;

    open spec fn view(&self) -> ProposalCreatedView {
        ProposalCreatedView {
            proposal_id: self.proposal_id,
            creator: self.creator,
            proposal_info: self.proposal_info@,
            deadline: self.deadline,
            timestamp: self.timestamp,
        }
    }
}

impl Clone for ProposalCreated {
    fn clone(&self) -> (copy: ProposalCreated)
        ensures
            copy@ == self@,
    {
        ProposalCreated {
            proposal_id: self.proposal_id,
            creator: self.creator,
            proposal_info: self.proposal_info.clone(),
            deadline: self.deadline,
            timestamp: self.timestamp,
        }
    }
}

/// An amount to move from one account to another, of native currency or of
/// the voting token.
#[derive(Clone, Copy, Debug, PartialEq, Eq)]
pub struct Transfer {
    pub from: Address,
    pub to: Address,
    pub amount: u64,
}

/// What a purchase moves.
#[derive(Clone, Copy, Debug, PartialEq, Eq)]
pub struct Purchase {
    /// The native currency, from the buyer to the vault.
    pub payment: Transfer,
    /// The tokens, from the treasury's holding to the buyer's.
    pub tokens: Transfer,
}

/// What the registration of a proposal hands back.
#[derive(Debug, PartialEq, Eq)]
pub struct ProposalRegistered {
    /// The notification to send.
    pub event: ProposalCreated,
    /// The bond, from the caller's holding to the treasury's.
    pub bond: Transfer,
}

/// What a `ProposalRegistered` holds.
pub struct ProposalRegisteredView {
    pub event: ProposalCreatedView,
    pub bond: Transfer,
}

impl View for ProposalRegistered {
    type V = ProposalRegisteredView;

    open spec fn view(&self) -> ProposalRegisteredView {
        ProposalRegisteredView { event: self.event@, bond: self.bond }
    }
}

} // verus!
