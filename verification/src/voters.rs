//! The voter registry: one record for each registered identity.

use crate::address::{derive_voter, derived, voter_seeds, Address};
use crate::contexts::{CloseVoterAccount, RegisterVoter};
use crate::errors::VoteError;
use crate::events::VoterAccountClosed;
use crate::ledger::{Ledger, LedgerView};
use crate::state::{Record, RecordView, Voter};
use vstd::prelude::*;

verus! {

/// The record of a voter who has not voted.
pub open spec fn new_voter(identity: Address) -> Voter {
    Voter { voter_id: identity, proposal_voted: 0 }
}

/// What `register_voter_at` answers: it fails with `DuplicateRegistration`
/// exactly where the address is in use.
pub open spec fn register_voter_at_outcome(
    ledger: LedgerView,
    ctx: RegisterVoter,
    voter_address: Address,
) -> Result<(), VoteError> {
    if ledger.records.contains_key(voter_address) {
        Err(VoteError::DuplicateRegistration)
    } else {
        Ok(())
    }
}

/// The ledger after `register_voter_at`.
pub open spec fn register_voter_at_state(
    ledger: LedgerView,
    ctx: RegisterVoter,
    voter_address: Address,
) -> LedgerView {
    if register_voter_at_outcome(ledger, ctx, voter_address) is Ok {
        ledger.with_record(voter_address, RecordView::Voter(new_voter(ctx.authority)))
    } else {
        ledger
    }
}

/// Registers the caller as a voter, with the record kept at `voter_address`.
pub fn register_voter_at(ledger: &mut Ledger, ctx: &RegisterVoter, voter_address: &Address) -> (done:
    Result<(), VoteError>)
    requires
        old(ledger).wf(),
    ensures
        final(ledger).wf(),
        done == register_voter_at_outcome(old(ledger)@, *ctx, *voter_address),
        final(ledger)@ == register_voter_at_state(old(ledger)@, *ctx, *voter_address),
{
    if ledger.contains(voter_address) {
        return Err(VoteError::DuplicateRegistration);
    }
    let voter = Voter { voter_id: ctx.authority, proposal_voted: 0 };
    ledger.put(*voter_address, Record::Voter(voter));
    Ok(())
}

/// What `register_voter` answers: `NoValidNonce` where the identity's address
/// cannot be derived, else what `register_voter_at` answers at that address.
pub open spec fn register_voter_outcome(ledger: LedgerView, ctx: RegisterVoter) -> Result<
    (),
    VoteError,
> {
    match derived(voter_seeds(ctx.authority), ledger.program) {
        None => Err(VoteError::NoValidNonce),
        Some((address, _)) => register_voter_at_outcome(ledger, ctx, address),
    }
}

/// The ledger after `register_voter`.
pub open spec fn register_voter_state(ledger: LedgerView, ctx: RegisterVoter) -> LedgerView {
    match derived(voter_seeds(ctx.authority), ledger.program) {
        None => ledger,
        Some((address, _)) => register_voter_at_state(ledger, ctx, address),
    }
}

/// Registers the caller as a voter: writes a record for the caller, who has
/// not voted, at the address derived from the caller's identity.
pub fn register_voter(ledger: &mut Ledger, ctx: &RegisterVoter) -> (done: Result<(), VoteError>)
    requires
        old(ledger).wf(),
    ensures
        final(ledger).wf(),
        done == register_voter_outcome(old(ledger)@, *ctx),
        final(ledger)@ == register_voter_state(old(ledger)@, *ctx),
{
    let program = ledger.program();
    match derive_voter(&ctx.authority, &program) {
        None => Err(VoteError::NoValidNonce),
        Some((address, _)) => register_voter_at(ledger, ctx, &address),
    }
}

/// What `close_voter_account_at` answers: the notification of the closure, or
/// the first failure among these: no voter record can be read at the address;
/// the record is another identity's.
pub open spec fn close_voter_account_at_outcome(
    ledger: LedgerView,
    ctx: CloseVoterAccount,
    voter_address: Address,
    now: i64,
) -> Result<VoterAccountClosed, VoteError> {
    match ledger.load_voter(voter_address) {
        Err(error) => Err(error),
        Ok(voter) => if voter.voter_id != ctx.authority {
            Err(VoteError::Unauthorized)
        } else {
            Ok(
                VoterAccountClosed {
                    voter: ctx.authority,
                    rent_recovered_to: ctx.rent_recipient,
                    timestamp: now,
                },
            )
        },
    }
}

/// The ledger after `close_voter_account_at`.
pub open spec fn close_voter_account_at_state(
    ledger: LedgerView,
    ctx: CloseVoterAccount,
    voter_address: Address,
    now: i64,
) -> LedgerView {
    if close_voter_account_at_outcome(ledger, ctx, voter_address, now) is Ok {
        ledger.without_record(voter_address)
    } else {
        ledger
    }
}

/// Closes the caller's voter record, kept at `voter_address`.
pub fn close_voter_account_at(
    ledger: &mut Ledger,
    ctx: &CloseVoterAccount,
    voter_address: &Address,
    now: i64,
) -> (closed: Result<VoterAccountClosed, VoteError>)
    requires
        old(ledger).wf(),
    ensures
        final(ledger).wf(),
        closed == close_voter_account_at_outcome(old(ledger)@, *ctx, *voter_address, now),
        final(ledger)@ == close_voter_account_at_state(old(ledger)@, *ctx, *voter_address, now),
{
    let voter = match ledger.voter_at(voter_address) {
        Ok(voter) => voter,
        Err(error) => {
            return Err(error);
        },
    };
    if !voter.voter_id.same(&ctx.authority) {
        return Err(VoteError::Unauthorized);
    }
    ledger.remove(voter_address);
    Ok(
        VoterAccountClosed {
            voter: ctx.authority,
            rent_recovered_to: ctx.rent_recipient,
            timestamp: now,
        },
    )
}

/// What `close_voter_account` answers: `NoValidNonce` where the identity's
/// address cannot be derived, else what `close_voter_account_at` answers at
/// that address.
pub open spec fn close_voter_account_outcome(
    ledger: LedgerView,
    ctx: CloseVoterAccount,
    now: i64,
) -> Result<VoterAccountClosed, VoteError> {
    match derived(voter_seeds(ctx.authority), ledger.program) {
        None => Err(VoteError::NoValidNonce),
        Some((address, _)) => close_voter_account_at_outcome(ledger, ctx, address, now),
    }
}

/// The ledger after `close_voter_account`.
pub open spec fn close_voter_account_state(
    ledger: LedgerView,
    ctx: CloseVoterAccount,
    now: i64,
) -> LedgerView {
    match derived(voter_seeds(ctx.authority), ledger.program) {
        None => ledger,
        Some((address, _)) => close_voter_account_at_state(ledger, ctx, address, now),
    }
}

/// Closes the caller's voter record: takes it out of the ledger and answers
/// with the notification to send. Only the identity that the record belongs to
/// can close it.
pub fn close_voter_account(ledger: &mut Ledger, ctx: &CloseVoterAccount, now: i64) -> (closed: Result<
    VoterAccountClosed,
    VoteError,
>)
    requires
        old(ledger).wf(),
    ensures
        final(ledger).wf(),
        closed == close_voter_account_outcome(old(ledger)@, *ctx, now),
        final(ledger)@ == close_voter_account_state(old(ledger)@, *ctx, now),
{
    let program = ledger.program();
    match derive_voter(&ctx.authority, &program) {
        None => Err(VoteError::NoValidNonce),
        Some((address, _)) => close_voter_account_at(ledger, ctx, &address, now),
    }
}

} // verus!
