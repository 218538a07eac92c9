//! The records that the ledger keeps, and what each of them holds.

use crate::address::Address;
use vstd::prelude::*;
use vstd::string::StringSliceAdditionalSpecFns;

verus! {

/// The number of bytes that tell a stored record's type.
pub const DISCRIMINATOR_SIZE: usize = 8;

/// The greatest length of a proposal's description, in bytes of UTF-8.
pub const MAX_INFO_LEN: usize = 50;

/// The number of decimals of the voting token.
pub const MINT_DECIMALS: u8 = 6;

/// The length of a description: the number of bytes of its UTF-8 encoding.
pub open spec fn info_len(info: Seq<char>) -> nat {
    vstd::utf8::encode_utf8(info).len()
}

/// The sale's configuration. There is one, made when the treasury is initialized.
#[derive(Clone, Copy, Debug, PartialEq, Eq)]
pub struct TreasuryConfig {
    /// Who initialized the treasury.
    pub authority: Address,
    /// The voting token's mint.
    pub x_mint: Address,
    /// The treasury's own holding of the voting token.
    pub treasury_token_account: Address,
    /// The price of one purchase, in native currency.
    pub sol_price: u64,
    /// The number of tokens that one purchase gives.
    pub token_per_purchase: u64,
    /// The nonce of the vault's address.
    pub bump: u8,
}

/// The number of proposals accepted so far. There is one counter.
#[derive(Clone, Copy, Debug, PartialEq, Eq)]
pub struct ProposalCounter {
    /// Who initialized the treasury.
    pub authority: Address,
    /// The id that the next proposal gets.
    pub proposal_count: u8,
}

/// A registered voter.
#[derive(Clone, Copy, Debug, PartialEq, Eq)]
pub struct Voter {
    /// The voter's identity.
    pub voter_id: Address,
    /// The id of the proposal voted for; 0 while the voter has not voted.
    pub proposal_voted: u8,
}

/// A proposal.
#[derive(Debug, PartialEq, Eq)]
pub struct Proposal {
    /// The proposal's number, in order of registration.
    pub proposal_id: u8,
    /// The votes received.
    pub number_of_votes: u8,
    /// The time from which the proposal takes no more votes.
    pub deadline: i64,
    /// The description.
    pub proposal_info: String,
    /// Who registered the proposal.
    pub authority: Address,
}

/// The proposal with the most votes among those finalized. There is one winner.
#[derive(Debug, PartialEq, Eq)]
pub struct Winner {
    /// The winning proposal's number.
    pub proposal_id: u8,
    /// The votes it received.
    pub number_of_votes: u8,
    /// Its description.
    pub proposal_info: String,
    /// Who registered it.
    pub authority: Address,
}

/// What a `Proposal` holds.
pub struct ProposalView {
    pub proposal_id: u8,
    pub number_of_votes: u8,
    pub deadline: i64,
    pub proposal_info: Seq<char>,
    pub authority: Address,
}

/// What a `Winner` holds.
pub struct WinnerView {
    pub proposal_id: u8,
    pub number_of_votes: u8,
    pub proposal_info: Seq<char>,
    pub authority: Address,
}

impl View for TreasuryConfig {
    type V = TreasuryConfig;

    open spec fn view(&self) -> TreasuryConfig {
        *self
    }
}

impl View for ProposalCounter {
    type V = ProposalCounter;

    open spec fn view(&self) -> ProposalCounter {
        *self
    }
}

impl View for Voter {
    type V = Voter;

    open spec fn view(&self) -> Voter {
        *self
    }
}

impl View for Proposal {
    type V = ProposalView;

    open spec fn view(&self) -> ProposalView {
        ProposalView {
            proposal_id: self.proposal_id,
            number_of_votes: self.number_of_votes,
            deadline: self.deadline,
            proposal_info: self.proposal_info@,
            authority: self.authority,
        }
    }
}

impl View for Winner {
    type V = WinnerView;

    open spec fn view(&self) -> WinnerView {
        WinnerView {
            proposal_id: self.proposal_id,
            number_of_votes: self.number_of_votes,
            proposal_info: self.proposal_info@,
            authority: self.authority,
        }
    }
}

impl Clone for Proposal {
    fn clone(&self) -> (copy: Proposal)
        ensures
            copy@ == self@,
    {
        Proposal {
            proposal_id: self.proposal_id,
            number_of_votes: self.number_of_votes,
            deadline: self.deadline,
            proposal_info: self.proposal_info.clone(),
            authority: self.authority,
        }
    }
}

impl Clone for Winner {
    fn clone(&self) -> (copy: Winner)
        ensures
            copy@ == self@,
    {
        Winner {
            proposal_id: self.proposal_id,
            number_of_votes: self.number_of_votes,
            proposal_info: self.proposal_info.clone(),
            authority: self.authority,
        }
    }
}

impl ProposalView {
    /// The proposal after one more vote.
    pub open spec fn with_vote(self) -> ProposalView {
        ProposalView { number_of_votes: (self.number_of_votes + 1) as u8, ..self }
    }

    /// The winner's record that this proposal makes.
    pub open spec fn as_winner(self) -> WinnerView {
        WinnerView {
            proposal_id: self.proposal_id,
            number_of_votes: self.number_of_votes,
            proposal_info: self.proposal_info,
            authority: self.authority,
        }
    }
}

impl Proposal {
    /// The proposal with one more vote.
    pub fn with_vote(&self) -> (next: Proposal)
        requires
            self.number_of_votes < u8::MAX,
        ensures
            next@ == self@.with_vote(),
    {
        Proposal {
            proposal_id: self.proposal_id,
            number_of_votes: self.number_of_votes + 1,
            deadline: self.deadline,
            proposal_info: self.proposal_info.clone(),
            authority: self.authority,
        }
    }

    /// The winner's record that this proposal makes.
    pub fn as_winner(&self) -> (winner: Winner)
        ensures
            winner@ == self@.as_winner(),
    {
        Winner {
            proposal_id: self.proposal_id,
            number_of_votes: self.number_of_votes,
            proposal_info: self.proposal_info.clone(),
            authority: self.authority,
        }
    }
}

/// The types of record.
#[derive(Clone, Copy, Debug, PartialEq, Eq, Structural)]
pub enum RecordKind {
    TreasuryConfig,
    ProposalCounter,
    Voter,
    Proposal,
    Winner,
}

impl RecordKind {
    /// The bytes that a stored record of this type takes: the discriminator, then
    /// each field at its fixed size; an address takes 32 bytes, a description
    /// four bytes for its length and room for the longest one.
    pub open spec fn spec_space(self) -> nat {
        match self {
            RecordKind::TreasuryConfig => 8 + 32 + 32 + 32 + 8 + 8 + 1,
            RecordKind::ProposalCounter => 8 + 32 + 1,
            RecordKind::Voter => 8 + 32 + 1,
            RecordKind::Proposal => 8 + 1 + 1 + 8 + (4 + 50) + 32,
            RecordKind::Winner => 8 + 1 + 1 + (4 + 50) + 32,
        }
    }

    /// The bytes that a stored record of this type takes.
    pub fn space(self) -> (bytes: usize)
        ensures
            bytes == self.spec_space(),
    {
        let address: usize = 32;
        let text: usize = 4 + MAX_INFO_LEN;
        match self {
            RecordKind::TreasuryConfig => DISCRIMINATOR_SIZE + 3 * address + 8 + 8 + 1,
            RecordKind::ProposalCounter => DISCRIMINATOR_SIZE + address + 1,
            RecordKind::Voter => DISCRIMINATOR_SIZE + address + 1,
            RecordKind::Proposal => DISCRIMINATOR_SIZE + 1 + 1 + 8 + text + address,
            RecordKind::Winner => DISCRIMINATOR_SIZE + 1 + 1 + text + address,
        }
    }
}

/// A record of any type.
#[derive(Debug, PartialEq, Eq)]
pub enum Record {
    Treasury(TreasuryConfig),
    Counter(ProposalCounter),
    Voter(Voter),
    Proposal(Proposal),
    Winner(Winner),
}

/// What a `Record` holds.
pub enum RecordView {
    Treasury(TreasuryConfig),
    Counter(ProposalCounter),
    Voter(Voter),
    Proposal(ProposalView),
    Winner(WinnerView),
}

impl View for Record {
    type V = RecordView;

    open spec fn view(&self) -> RecordView {
        match self {
            Record::Treasury(config) => RecordView::Treasury(*config),
            Record::Counter(counter) => RecordView::Counter(*counter),
            Record::Voter(voter) => RecordView::Voter(*voter),
            Record::Proposal(proposal) => RecordView::Proposal(proposal@),
            Record::Winner(winner) => RecordView::Winner(winner@),
        }
    }
}

impl RecordView {
    /// The record's type.
    pub open spec fn kind(self) -> RecordKind {
        match self {
            RecordView::Treasury(_) => RecordKind::TreasuryConfig,
            RecordView::Counter(_) => RecordKind::ProposalCounter,
            RecordView::Voter(_) => RecordKind::Voter,
            RecordView::Proposal(_) => RecordKind::Proposal,
            RecordView::Winner(_) => RecordKind::Winner,
        }
    }
}

impl Clone for Record {
    fn clone(&self) -> (copy: Record)
        ensures
            copy@ == self@,
    {
        match self {
            Record::Treasury(config) => Record::Treasury(*config),
            Record::Counter(counter) => Record::Counter(*counter),
            Record::Voter(voter) => Record::Voter(*voter),
            Record::Proposal(proposal) => Record::Proposal(proposal.clone()),
            Record::Winner(winner) => Record::Winner(winner.clone()),
        }
    }
}

impl Record {
    /// The record's type.
    pub fn kind(&self) -> (kind: RecordKind)
        ensures
            kind == self@.kind(),
    {
        match self {
            Record::Treasury(_) => RecordKind::TreasuryConfig,
            Record::Counter(_) => RecordKind::ProposalCounter,
            Record::Voter(_) => RecordKind::Voter,
            Record::Proposal(_) => RecordKind::Proposal,
            Record::Winner(_) => RecordKind::Winner,
        }
    }
}

/// Whether a description fits in a proposal's record.
pub fn info_fits(info: &String) -> (fits: bool)
    ensures
        fits == (info_len(info@) <= MAX_INFO_LEN),
{
    info.as_str().as_bytes().len() <= MAX_INFO_LEN
}

} // verus!
