//! The proposal registry: proposals are numbered in the order in which they
//! are accepted, by the proposal counter.

use crate::address::{derive_proposal, derived, proposal_seeds, Address};
use crate::contexts::{check_holdings, holdings_error, RegisterProposal};
use crate::errors::VoteError;
use crate::events::{
    ProposalCreated, ProposalCreatedView, ProposalRegistered, ProposalRegisteredView, Transfer,
};
use crate::ledger::{Ledger, LedgerView};
use crate::state::{
    info_fits, info_len, Proposal, ProposalCounter, ProposalView, Record, RecordView, MAX_INFO_LEN,
};
use vstd::prelude::*;

verus! {

/// The id that the next proposal gets: the counter's value.
pub open spec fn next_proposal_id(ledger: LedgerView) -> u8 {
    match ledger.load_counter() {
        Ok(counter) => counter.proposal_count,
        Err(_) => 0,
    }
}

/// Why a proposal cannot be registered at `proposal_address`, if anything. The
/// first of these: the description is too long; the deadline is not after
/// `now`; the configuration cannot be read; the token accounts are not in
/// order; the counter cannot be read; the counter is at its last value; the
/// address is in use.
pub open spec fn register_proposal_at_error(
    ledger: LedgerView,
    ctx: RegisterProposal,
    proposal_address: Address,
    proposal_info: Seq<char>,
    deadline: i64,
    now: i64,
) -> Option<VoteError> {
    if info_len(proposal_info) > MAX_INFO_LEN {
        Some(VoteError::LengthExceeded)
    } else if deadline <= now {
        Some(VoteError::InvalidDeadline)
    } else {
        match ledger.load_treasury() {
            Err(error) => Some(error),
            Ok(config) => match holdings_error(
                config.x_mint,
                ctx.x_mint,
                ctx.proposal_token_account,
                ctx.authority,
                ctx.treasury_token_account,
            ) {
                Some(error) => Some(error),
                None => match ledger.load_counter() {
                    Err(error) => Some(error),
                    Ok(counter) => if counter.proposal_count == u8::MAX {
                        Some(VoteError::ProposalCounterOverflow)
                    } else if ledger.records.contains_key(proposal_address) {
                        Some(VoteError::AlreadyInitialized)
                    } else {
                        None
                    },
                },
            },
        }
    }
}

/// The record of a proposal as it is registered: numbered by the counter, with
/// no votes.
pub open spec fn new_proposal(
    ledger: LedgerView,
    ctx: RegisterProposal,
    proposal_info: Seq<char>,
    deadline: i64,
) -> ProposalView {
    ProposalView {
        proposal_id: next_proposal_id(ledger),
        number_of_votes: 0,
        deadline,
        proposal_info,
        authority: ctx.authority,
    }
}

/// What `register_proposal_at` answers: the failure, or the notification of
/// the new proposal and the bond to move to the treasury's holding.
pub open spec fn register_proposal_at_outcome(
    ledger: LedgerView,
    ctx: RegisterProposal,
    proposal_address: Address,
    proposal_info: Seq<char>,
    deadline: i64,
    bond: u64,
    now: i64,
) -> Result<ProposalRegisteredView, VoteError> {
    match register_proposal_at_error(ledger, ctx, proposal_address, proposal_info, deadline, now) {
        Some(error) => Err(error),
        None => Ok(
            ProposalRegisteredView {
                event: ProposalCreatedView {
                    proposal_id: next_proposal_id(ledger),
                    creator: ctx.authority,
                    proposal_info,
                    deadline,
                    timestamp: now,
                },
                bond: Transfer {
                    from: ctx.proposal_token_account.address,
                    to: ctx.treasury_token_account.address,
                    amount: bond,
                },
            },
        ),
    }
}

/// The ledger after `register_proposal_at`: with the new proposal and the
/// counter one higher where the call succeeds, unchanged where it fails.
pub open spec fn register_proposal_at_state(
    ledger: LedgerView,
    ctx: RegisterProposal,
    proposal_address: Address,
    proposal_info: Seq<char>,
    deadline: i64,
    now: i64,
) -> LedgerView {
    if register_proposal_at_error(ledger, ctx, proposal_address, proposal_info, deadline, now)
        is Some {
        ledger
    } else {
        ledger.with_record(
            proposal_address,
            RecordView::Proposal(new_proposal(ledger, ctx, proposal_info, deadline)),
        ).with_record(
            ledger.fixed.proposal_counter,
            RecordView::Counter(
                ProposalCounter {
                    authority: ledger.load_counter()->Ok_0.authority,
                    proposal_count: (next_proposal_id(ledger) + 1) as u8,
                },
            ),
        )
    }
}

/// What a call answered, with the values in place of the strings.
pub open spec fn registered_view(answer: Result<ProposalRegistered, VoteError>) -> Result<
    ProposalRegisteredView,
    VoteError,
> {
    match answer {
        Ok(registered) => Ok(registered@),
        Err(error) => Err(error),
    }
}

/// Registers a proposal, with the record kept at `proposal_address`.
pub fn register_proposal_at(
    ledger: &mut Ledger,
    ctx: &RegisterProposal,
    proposal_address: &Address,
    proposal_info: String,
    deadline: i64,
    bond: u64,
    now: i64,
) -> (registered: Result<ProposalRegistered, VoteError>)
    requires
        old(ledger).wf(),
    ensures
        final(ledger).wf(),
        registered_view(registered) == register_proposal_at_outcome(
            old(ledger)@,
            *ctx,
            *proposal_address,
            proposal_info@,
            deadline,
            bond,
            now,
        ),
        final(ledger)@ == register_proposal_at_state(
            old(ledger)@,
            *ctx,
            *proposal_address,
            proposal_info@,
            deadline,
            now,
        ),
{
    if !info_fits(&proposal_info) {
        return Err(VoteError::LengthExceeded);
    }
    if deadline <= now {
        return Err(VoteError::InvalidDeadline);
    }
    let config = match ledger.treasury() {
        Ok(config) => config,
        Err(error) => {
            return Err(error);
        },
    };
    match check_holdings(
        &config.x_mint,
        &ctx.x_mint,
        &ctx.proposal_token_account,
        &ctx.authority,
        &ctx.treasury_token_account,
    ) {
        Some(error) => {
            return Err(error);
        },
        None => {},
    }
    let counter = match ledger.counter() {
        Ok(counter) => counter,
        Err(error) => {
            return Err(error);
        },
    };
    if counter.proposal_count == u8::MAX {
        return Err(VoteError::ProposalCounterOverflow);
    }
    if ledger.contains(proposal_address) {
        return Err(VoteError::AlreadyInitialized);
    }
    let event = ProposalCreated {
        proposal_id: counter.proposal_count,
        creator: ctx.authority,
        proposal_info: proposal_info.clone(),
        deadline,
        timestamp: now,
    };
    let proposal = Proposal {
        proposal_id: counter.proposal_count,
        number_of_votes: 0,
        deadline,
        proposal_info,
        authority: ctx.authority,
    };
    let raised = ProposalCounter {
        authority: counter.authority,
        proposal_count: counter.proposal_count + 1,
    };
    let counter_address = ledger.fixed().proposal_counter;
    ledger.put(*proposal_address, Record::Proposal(proposal));
    ledger.put(counter_address, Record::Counter(raised));
    Ok(
        ProposalRegistered {
            event,
            bond: Transfer {
                from: ctx.proposal_token_account.address,
                to: ctx.treasury_token_account.address,
                amount: bond,
            },
        },
    )
}

/// Where the next proposal is kept: the address derived from the counter's
/// value. It is not known where the counter cannot be read, or where the
/// address cannot be derived (`NoValidNonce`).
pub open spec fn next_proposal_address(ledger: LedgerView) -> Result<Address, VoteError> {
    match ledger.load_counter() {
        Err(error) => Err(error),
        Ok(counter) => match derived(proposal_seeds(counter.proposal_count), ledger.program) {
            None => Err(VoteError::NoValidNonce),
            Some((address, _)) => Ok(address),
        },
    }
}

/// What `register_proposal` answers: why the next proposal's address is not
/// known, else what `register_proposal_at` answers at that address.
pub open spec fn register_proposal_outcome(
    ledger: LedgerView,
    ctx: RegisterProposal,
    proposal_info: Seq<char>,
    deadline: i64,
    bond: u64,
    now: i64,
) -> Result<ProposalRegisteredView, VoteError> {
    match next_proposal_address(ledger) {
        Err(error) => Err(error),
        Ok(address) => register_proposal_at_outcome(
            ledger,
            ctx,
            address,
            proposal_info,
            deadline,
            bond,
            now,
        ),
    }
}

/// The ledger after `register_proposal`.
pub open spec fn register_proposal_state(
    ledger: LedgerView,
    ctx: RegisterProposal,
    proposal_info: Seq<char>,
    deadline: i64,
    now: i64,
) -> LedgerView {
    match next_proposal_address(ledger) {
        Err(_) => ledger,
        Ok(address) => register_proposal_at_state(
            ledger,
            ctx,
            address,
            proposal_info,
            deadline,
            now,
        ),
    }
}

/// Registers a proposal: reads the counter, writes the proposal under the
/// counter's value as its id, with no votes, at the address derived from that
/// id, and raises the counter by one. The answer holds the notification to
/// send and the bond to move from the caller's holding to the treasury's.
pub fn register_proposal(
    ledger: &mut Ledger,
    ctx: &RegisterProposal,
    proposal_info: String,
    deadline: i64,
    bond: u64,
    now: i64,
) -> (registered: Result<ProposalRegistered, VoteError>)
    requires
        old(ledger).wf(),
    ensures
        final(ledger).wf(),
        registered_view(registered) == register_proposal_outcome(
            old(ledger)@,
            *ctx,
            proposal_info@,
            deadline,
            bond,
            now,
        ),
        final(ledger)@ == register_proposal_state(
            old(ledger)@,
            *ctx,
            proposal_info@,
            deadline,
            now,
        ),
{
    let counter = match ledger.counter() {
        Ok(counter) => counter,
        Err(error) => {
            return Err(error);
        },
    };
    let program = ledger.program();
    match derive_proposal(counter.proposal_count, &program) {
        None => Err(VoteError::NoValidNonce),
        Some((address, _)) => register_proposal_at(
            ledger,
            ctx,
            &address,
            proposal_info,
            deadline,
            bond,
            now,
        ),
    }
}

} // verus!
