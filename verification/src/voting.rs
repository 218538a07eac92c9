//! Voting and the tally: one vote for each voter while a proposal is open, and
//! after its deadline the winner as the proposal with the most votes.

use crate::address::{derive_proposal, derive_voter, derived, proposal_seeds, voter_seeds, Address};
use crate::contexts::{check_holdings, holdings_error, PickWinner, Vote};
use crate::errors::VoteError;
use crate::events::Transfer;
use crate::ledger::{Finalizer, Ledger, LedgerView};
use crate::state::{ProposalView, Record, RecordView, Voter};
use vstd::prelude::*;

verus! {

/// Why the proposal kept at `proposal_address` takes no vote at `now`, if
/// anything: it cannot be read, or its deadline has passed.
pub open spec fn closed_error(ledger: LedgerView, proposal_address: Address, now: i64) -> Option<
    VoteError,
> {
    match ledger.load_proposal(proposal_address) {
        Err(error) => Some(error),
        Ok(proposal) => if now >= proposal.deadline {
            Some(VoteError::ProposalEnded)
        } else {
            None
        },
    }
}

/// Why the voter whose record is kept at `voter_address` cannot vote, if
/// anything. The first of these: the record cannot be read; it is another
/// identity's; the voter has voted; the configuration cannot be read; the
/// token accounts are not in order.
pub open spec fn voter_error(ledger: LedgerView, ctx: Vote, voter_address: Address) -> Option<
    VoteError,
> {
    match ledger.load_voter(voter_address) {
        Err(error) => Some(error),
        Ok(voter) => if voter.voter_id != ctx.authority {
            Some(VoteError::Unauthorized)
        } else if voter.proposal_voted != 0 {
            Some(VoteError::PreconditionViolated)
        } else {
            match ledger.load_treasury() {
                Err(error) => Some(error),
                Ok(config) => holdings_error(
                    config.x_mint,
                    ctx.x_mint,
                    ctx.voter_token_account,
                    ctx.authority,
                    ctx.treasury_token_account,
                ),
            }
        },
    }
}

/// Why a vote cannot be cast, if anything. The first of these: the proposal
/// takes no vote; the voter cannot vote; the proposal's votes are at their
/// last value.
pub open spec fn vote_at_error(
    ledger: LedgerView,
    ctx: Vote,
    voter_address: Address,
    proposal_address: Address,
    now: i64,
) -> Option<VoteError> {
    if closed_error(ledger, proposal_address, now) is Some {
        closed_error(ledger, proposal_address, now)
    } else if voter_error(ledger, ctx, voter_address) is Some {
        voter_error(ledger, ctx, voter_address)
    } else if ledger.load_proposal(proposal_address)->Ok_0.number_of_votes == u8::MAX {
        Some(VoteError::ProposalVotesOverflow)
    } else {
        None
    }
}

/// What `vote_at` answers: the failure, or the stake to move from the voter's
/// holding to the treasury's.
pub open spec fn vote_at_outcome(
    ledger: LedgerView,
    ctx: Vote,
    voter_address: Address,
    proposal_address: Address,
    stake: u64,
    now: i64,
) -> Result<Transfer, VoteError> {
    match vote_at_error(ledger, ctx, voter_address, proposal_address, now) {
        Some(error) => Err(error),
        None => Ok(
            Transfer {
                from: ctx.voter_token_account.address,
                to: ctx.treasury_token_account.address,
                amount: stake,
            },
        ),
    }
}

/// The ledger after `vote_at`: where the call succeeds the voter's record names
/// the proposal's id and the proposal has one more vote; where it fails
/// nothing has changed.
pub open spec fn vote_at_state(
    ledger: LedgerView,
    ctx: Vote,
    voter_address: Address,
    proposal_address: Address,
    proposal_id: u8,
    now: i64,
) -> LedgerView {
    if vote_at_error(ledger, ctx, voter_address, proposal_address, now) is Some {
        ledger
    } else {
        ledger.with_record(
            voter_address,
            RecordView::Voter(Voter { voter_id: ctx.authority, proposal_voted: proposal_id }),
        ).with_record(
            proposal_address,
            RecordView::Proposal(ledger.load_proposal(proposal_address)->Ok_0.with_vote()),
        )
    }
}

/// Checks that the proposal kept at `proposal_address` takes votes at `now`.
pub fn check_open(ledger: &Ledger, proposal_address: &Address, now: i64) -> (fault: Option<VoteError>)
    requires
        ledger.wf(),
    ensures
        fault == closed_error(ledger@, *proposal_address, now),
{
    match ledger.proposal_at(proposal_address) {
        Err(error) => Some(error),
        Ok(proposal) => if now >= proposal.deadline {
            Some(VoteError::ProposalEnded)
        } else {
            None
        },
    }
}

/// Casts the caller's vote for the proposal kept at `proposal_address`, with
/// the caller's voter record kept at `voter_address`.
pub fn vote_at(
    ledger: &mut Ledger,
    ctx: &Vote,
    voter_address: &Address,
    proposal_address: &Address,
    proposal_id: u8,
    stake: u64,
    now: i64,
) -> (cast: Result<Transfer, VoteError>)
    requires
        old(ledger).wf(),
    ensures
        final(ledger).wf(),
        cast == vote_at_outcome(old(ledger)@, *ctx, *voter_address, *proposal_address, stake, now),
        final(ledger)@ == vote_at_state(
            old(ledger)@,
            *ctx,
            *voter_address,
            *proposal_address,
            proposal_id,
            now,
        ),
{
    let proposal = match ledger.proposal_at(proposal_address) {
        Ok(proposal) => proposal,
        Err(error) => {
            return Err(error);
        },
    };
    if now >= proposal.deadline {
        return Err(VoteError::ProposalEnded);
    }
    let voter = match ledger.voter_at(voter_address) {
        Ok(voter) => voter,
        Err(error) => {
            return Err(error);
        },
    };
    if !voter.voter_id.same(&ctx.authority) {
        return Err(VoteError::Unauthorized);
    }
    if voter.proposal_voted != 0 {
        return Err(VoteError::PreconditionViolated);
    }
    let config = match ledger.treasury() {
        Ok(config) => config,
        Err(error) => {
            return Err(error);
        },
    };
    match check_holdings(
        &config.x_mint,
        &ctx.x_mint,
        &ctx.voter_token_account,
        &ctx.authority,
        &ctx.treasury_token_account,
    ) {
        Some(error) => {
            return Err(error);
        },
        None => {},
    }
    if proposal.number_of_votes == u8::MAX {
        return Err(VoteError::ProposalVotesOverflow);
    }
    let counted = proposal.with_vote();
    let voted = Voter { voter_id: ctx.authority, proposal_voted: proposal_id };
    ledger.put(*voter_address, Record::Voter(voted));
    ledger.put(*proposal_address, Record::Proposal(counted));
    Ok(
        Transfer {
            from: ctx.voter_token_account.address,
            to: ctx.treasury_token_account.address,
            amount: stake,
        },
    )
}

/// What `vote` answers. `NoValidNonce` where the proposal's address cannot be
/// derived. Where the voter's cannot, the reason why the proposal takes no
/// vote, if there is one, else `NoValidNonce`. Else what `vote_at` answers at
/// the two derived addresses.
pub open spec fn vote_outcome(
    ledger: LedgerView,
    ctx: Vote,
    proposal_id: u8,
    stake: u64,
    now: i64,
) -> Result<Transfer, VoteError> {
    match derived(proposal_seeds(proposal_id), ledger.program) {
        None => Err(VoteError::NoValidNonce),
        Some((proposal_address, _)) => match derived(voter_seeds(ctx.authority), ledger.program) {
            Some((voter_address, _)) => vote_at_outcome(
                ledger,
                ctx,
                voter_address,
                proposal_address,
                stake,
                now,
            ),
            None => match closed_error(ledger, proposal_address, now) {
                Some(error) => Err(error),
                None => Err(VoteError::NoValidNonce),
            },
        },
    }
}

/// The ledger after `vote`.
pub open spec fn vote_state(ledger: LedgerView, ctx: Vote, proposal_id: u8, now: i64) -> LedgerView {
    match (
        derived(voter_seeds(ctx.authority), ledger.program),
        derived(proposal_seeds(proposal_id), ledger.program),
    ) {
        (Some((voter_address, _)), Some((proposal_address, _))) => vote_at_state(
            ledger,
            ctx,
            voter_address,
            proposal_address,
            proposal_id,
            now,
        ),
        _ => ledger,
    }
}

/// Casts the caller's vote for the proposal with the given id: the voter's
/// record takes the id, the proposal one more vote. The answer is the stake to
/// move from the voter's holding to the treasury's; what it amounts to is the
/// caller's choice. `now` is the current time.
pub fn vote(ledger: &mut Ledger, ctx: &Vote, proposal_id: u8, stake: u64, now: i64) -> (cast: Result<
    Transfer,
    VoteError,
>)
    requires
        old(ledger).wf(),
    ensures
        final(ledger).wf(),
        cast == vote_outcome(old(ledger)@, *ctx, proposal_id, stake, now),
        final(ledger)@ == vote_state(old(ledger)@, *ctx, proposal_id, now),
{
    let program = ledger.program();
    let proposal_address = match derive_proposal(proposal_id, &program) {
        Some((address, _)) => address,
        None => {
            return Err(VoteError::NoValidNonce);
        },
    };
    match derive_voter(&ctx.authority, &program) {
        Some((voter_address, _)) => vote_at(
            ledger,
            ctx,
            &voter_address,
            &proposal_address,
            proposal_id,
            stake,
            now,
        ),
        None => match check_open(ledger, &proposal_address, now) {
            Some(error) => Err(error),
            None => Err(VoteError::NoValidNonce),
        },
    }
}

/// Why the caller may not finalize the proposal, if anything, under the
/// ledger's rule on who may.
pub open spec fn finalizer_error(ledger: LedgerView, caller: Address, proposal: ProposalView) -> Option<
    VoteError,
> {
    match ledger.finalizer {
        Finalizer::Anyone => None,
        Finalizer::TreasuryAuthority => match ledger.load_treasury() {
            Err(error) => Some(error),
            Ok(config) => if config.authority != caller {
                Some(VoteError::Unauthorized)
            } else {
                None
            },
        },
        Finalizer::ProposalCreator => if proposal.authority != caller {
            Some(VoteError::Unauthorized)
        } else {
            None
        },
    }
}

/// What `pick_winner_at` answers: whether the proposal became the winner, or
/// the first failure among these: the proposal cannot be read; its deadline
/// has not passed; the caller may not finalize; the proposal has no vote; the
/// winner's place holds a record of another type. The proposal becomes the
/// winner where none is recorded, or where it has more votes than the recorded
/// one.
pub open spec fn pick_winner_at_outcome(
    ledger: LedgerView,
    ctx: PickWinner,
    proposal_address: Address,
    now: i64,
) -> Result<bool, VoteError> {
    match ledger.load_proposal(proposal_address) {
        Err(error) => Err(error),
        Ok(proposal) => if now < proposal.deadline {
            Err(VoteError::VotingStillActive)
        } else {
            match finalizer_error(ledger, ctx.authority, proposal) {
                Some(error) => Err(error),
                None => if proposal.number_of_votes == 0 {
                    Err(VoteError::NoVoteCast)
                } else {
                    match ledger.load_winner() {
                        Err(error) => Err(error),
                        Ok(None) => Ok(true),
                        Ok(Some(winner)) => Ok(proposal.number_of_votes > winner.number_of_votes),
                    }
                },
            }
        },
    }
}

/// The ledger after `pick_winner_at`: with the proposal's data as the winner
/// where it became the winner, else unchanged.
pub open spec fn pick_winner_at_state(
    ledger: LedgerView,
    ctx: PickWinner,
    proposal_address: Address,
    now: i64,
) -> LedgerView {
    if pick_winner_at_outcome(ledger, ctx, proposal_address, now) == Ok::<bool, VoteError>(true) {
        ledger.with_record(
            ledger.fixed.winner,
            RecordView::Winner(ledger.load_proposal(proposal_address)->Ok_0.as_winner()),
        )
    } else {
        ledger
    }
}

/// Finalizes the proposal kept at `proposal_address`.
pub fn pick_winner_at(ledger: &mut Ledger, ctx: &PickWinner, proposal_address: &Address, now: i64) -> (picked:
    Result<bool, VoteError>)
    requires
        old(ledger).wf(),
    ensures
        final(ledger).wf(),
        picked == pick_winner_at_outcome(old(ledger)@, *ctx, *proposal_address, now),
        final(ledger)@ == pick_winner_at_state(old(ledger)@, *ctx, *proposal_address, now),
{
    let proposal = match ledger.proposal_at(proposal_address) {
        Ok(proposal) => proposal,
        Err(error) => {
            return Err(error);
        },
    };
    if now < proposal.deadline {
        return Err(VoteError::VotingStillActive);
    }
    match ledger.finalizer() {
        Finalizer::Anyone => {},
        Finalizer::TreasuryAuthority => {
            let config = match ledger.treasury() {
                Ok(config) => config,
                Err(error) => {
                    return Err(error);
                },
            };
            if !config.authority.same(&ctx.authority) {
                return Err(VoteError::Unauthorized);
            }
        },
        Finalizer::ProposalCreator => {
            if !proposal.authority.same(&ctx.authority) {
                return Err(VoteError::Unauthorized);
            }
        },
    }
    if proposal.number_of_votes == 0 {
        return Err(VoteError::NoVoteCast);
    }
    let leads = match ledger.winner() {
        Err(error) => {
            return Err(error);
        },
        Ok(None) => true,
        Ok(Some(winner)) => proposal.number_of_votes > winner.number_of_votes,
    };
    if leads {
        let winner = proposal.as_winner();
        let winner_address = ledger.fixed().winner;
        ledger.put(winner_address, Record::Winner(winner));
    }
    Ok(leads)
}

/// What `pick_winner` answers: `NoValidNonce` where the proposal's address
/// cannot be derived, else what `pick_winner_at` answers at that address.
pub open spec fn pick_winner_outcome(
    ledger: LedgerView,
    ctx: PickWinner,
    proposal_id: u8,
    now: i64,
) -> Result<bool, VoteError> {
    match derived(proposal_seeds(proposal_id), ledger.program) {
        None => Err(VoteError::NoValidNonce),
        Some((address, _)) => pick_winner_at_outcome(ledger, ctx, address, now),
    }
}

/// The ledger after `pick_winner`.
pub open spec fn pick_winner_state(
    ledger: LedgerView,
    ctx: PickWinner,
    proposal_id: u8,
    now: i64,
) -> LedgerView {
    match derived(proposal_seeds(proposal_id), ledger.program) {
        None => ledger,
        Some((address, _)) => pick_winner_at_state(ledger, ctx, address, now),
    }
}

/// Finalizes the proposal with the given id, once its deadline has passed: the
/// proposal becomes the winner where no winner is recorded yet, or where it
/// has strictly more votes than the recorded one. The answer says whether it
/// did. `now` is the current time.
pub fn pick_winner(ledger: &mut Ledger, ctx: &PickWinner, proposal_id: u8, now: i64) -> (picked: Result<
    bool,
    VoteError,
>)
    requires
        old(ledger).wf(),
    ensures
        final(ledger).wf(),
        picked == pick_winner_outcome(old(ledger)@, *ctx, proposal_id, now),
        final(ledger)@ == pick_winner_state(old(ledger)@, *ctx, proposal_id, now),
{
    let program = ledger.program();
    match derive_proposal(proposal_id, &program) {
        None => Err(VoteError::NoValidNonce),
        Some((address, _)) => pick_winner_at(ledger, ctx, &address, now),
    }
}

} // verus!
