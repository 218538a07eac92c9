//! What holds of the operations over many calls.

use crate::address::{proposal_address, voter_address, Address};
use crate::contexts::{
    CloseVoterAccount, InitializeTreasury, PickWinner, RegisterProposal, RegisterVoter, Vote,
};
use crate::errors::VoteError;
use crate::ledger::LedgerView;
use crate::proposals::{
    next_proposal_id, register_proposal_outcome, register_proposal_state,
};
use crate::state::{ProposalView, RecordView, Voter};
use crate::treasury::{initialize_treasury_error, initialize_treasury_state};
use crate::voters::{
    close_voter_account_outcome, close_voter_account_state, new_voter, register_voter_outcome,
    register_voter_state,
};
use crate::voting::{pick_winner_outcome, pick_winner_state, vote_outcome, vote_state};
use vstd::prelude::*;

verus! {

/// A call of one of the operations that write to the ledger, with its arguments.
#[allow(inconsistent_fields)]
pub enum Call {
    InitializeTreasury { ctx: InitializeTreasury, sol_price: u64, token_per_purchase: u64 },
    RegisterVoter { ctx: RegisterVoter },
    CloseVoterAccount { ctx: CloseVoterAccount, now: i64 },
    RegisterProposal {
        ctx: RegisterProposal,
        proposal_info: Seq<char>,
        deadline: i64,
        bond: u64,
        now: i64,
    },
    Vote { ctx: Vote, proposal_id: u8, stake: u64, now: i64 },
    PickWinner { ctx: PickWinner, proposal_id: u8, now: i64 },
}

impl Call {
    /// Whether the call fails on the ledger.
    pub open spec fn fails(self, ledger: LedgerView) -> bool {
        match self {
            Call::InitializeTreasury { ctx, sol_price, token_per_purchase } => {
                initialize_treasury_error(ledger) is Some
            },
            Call::RegisterVoter { ctx } => register_voter_outcome(ledger, ctx) is Err,
            Call::CloseVoterAccount { ctx, now } => close_voter_account_outcome(ledger, ctx, now)
                is Err,
            Call::RegisterProposal { ctx, proposal_info, deadline, bond, now } => {
                register_proposal_outcome(ledger, ctx, proposal_info, deadline, bond, now) is Err
            },
            Call::Vote { ctx, proposal_id, stake, now } => vote_outcome(
                ledger,
                ctx,
                proposal_id,
                stake,
                now,
            ) is Err,
            Call::PickWinner { ctx, proposal_id, now } => pick_winner_outcome(
                ledger,
                ctx,
                proposal_id,
                now,
            ) is Err,
        }
    }

    /// The ledger after the call.
    pub open spec fn apply(self, ledger: LedgerView) -> LedgerView {
        match self {
            Call::InitializeTreasury { ctx, sol_price, token_per_purchase } => {
                initialize_treasury_state(ledger, ctx, sol_price, token_per_purchase)
            },
            Call::RegisterVoter { ctx } => register_voter_state(ledger, ctx),
            Call::CloseVoterAccount { ctx, now } => close_voter_account_state(ledger, ctx, now),
            Call::RegisterProposal { ctx, proposal_info, deadline, bond, now } => {
                register_proposal_state(ledger, ctx, proposal_info, deadline, now)
            },
            Call::Vote { ctx, proposal_id, stake, now } => vote_state(ledger, ctx, proposal_id, now),
            Call::PickWinner { ctx, proposal_id, now } => pick_winner_state(
                ledger,
                ctx,
                proposal_id,
                now,
            ),
        }
    }

    /// Whether the call closes the voter record of `identity`.
    pub open spec fn closes(self, identity: Address) -> bool {
        match self {
            Call::CloseVoterAccount { ctx, now } => ctx.authority == identity,
            _ => false,
        }
    }
}

/// The ledger after the calls, made in order.
pub open spec fn apply_all(ledger: LedgerView, calls: Seq<Call>) -> LedgerView
    decreases calls.len(),
{
    if calls.len() == 0 {
        ledger
    } else {
        calls.last().apply(apply_all(ledger, calls.drop_last()))
    }
}

/// A call that fails leaves the ledger as it was.
pub proof fn law_failure_changes_nothing(ledger: LedgerView, call: Call)
    requires
        call.fails(ledger),
    ensures
        call.apply(ledger) == ledger,
{
}

/// No call changes the program, the fixed addresses or who may finalize.
pub proof fn law_settings_are_kept(ledger: LedgerView, call: Call)
    ensures
        call.apply(ledger).program == ledger.program,
        call.apply(ledger).fixed == ledger.fixed,
        call.apply(ledger).finalizer == ledger.finalizer,
{
}

/// The treasury's configuration does not change once it is written: its token,
/// its price and its authority stay as they are under every call.
pub proof fn law_treasury_is_kept(ledger: LedgerView, call: Call)
    requires
        ledger.load_treasury() is Ok,
    ensures
        call.apply(ledger).load_treasury() == ledger.load_treasury(),
{
}

/// The proposal counter only counts up: a registration that succeeds raises
/// it by one, and no other call changes it.
pub proof fn law_counter_counts_up(ledger: LedgerView, call: Call)
    requires
        ledger.load_counter() is Ok,
    ensures
        call.apply(ledger).load_counter() is Ok,
        call.apply(ledger).load_counter().unwrap().authority
            == ledger.load_counter().unwrap().authority,
        call.apply(ledger).load_counter().unwrap().proposal_count == (if call is RegisterProposal
            && !call.fails(ledger) {
            ledger.load_counter().unwrap().proposal_count + 1
        } else {
            ledger.load_counter().unwrap().proposal_count as int
        }),
{
}

/// A proposal changes by votes alone: under every call it stays as it is, or
/// it gains one vote, and that only by a vote cast before its deadline. Its
/// id, its description, its deadline and its creator never change.
pub proof fn law_proposal_changes_by_votes_alone(ledger: LedgerView, call: Call, address: Address)
    requires
        ledger.load_proposal(address) is Ok,
    ensures
        call.apply(ledger).load_proposal(address) == ledger.load_proposal(address) || ({
            &&& call.apply(ledger).load_proposal(address) == Ok::<ProposalView, VoteError>(
                ledger.load_proposal(address).unwrap().with_vote(),
            )
            &&& ledger.load_proposal(address).unwrap().number_of_votes < u8::MAX
            &&& !call.fails(ledger)
            &&& call matches Call::Vote { now, .. } && now < ledger.load_proposal(
                address,
            ).unwrap().deadline
        }),
{
}

/// A voter's record stays where it is, and stays that identity's, under every
/// call but the one by which the identity closes it. Once it names a proposal
/// other than 0 it does not change at all.
pub proof fn law_voter_record_is_kept(ledger: LedgerView, call: Call, address: Address)
    requires
        ledger.load_voter(address) is Ok,
        !call.closes(ledger.load_voter(address)->Ok_0.voter_id),
    ensures
        call.apply(ledger).load_voter(address) is Ok,
        call.apply(ledger).load_voter(address)->Ok_0.voter_id == ledger.load_voter(
            address,
        )->Ok_0.voter_id,
        ledger.load_voter(address)->Ok_0.proposal_voted != 0 ==> call.apply(ledger).load_voter(
            address,
        ) == ledger.load_voter(address),
{
}

/// The same, over any number of calls.
pub proof fn law_voter_record_is_kept_by_all(ledger: LedgerView, calls: Seq<Call>, address: Address)
    requires
        ledger.load_voter(address) is Ok,
        forall|k: int|
            0 <= k < calls.len() ==> !(#[trigger] calls[k]).closes(
                ledger.load_voter(address)->Ok_0.voter_id,
            ),
    ensures
        apply_all(ledger, calls).program == ledger.program,
        apply_all(ledger, calls).load_voter(address) is Ok,
        apply_all(ledger, calls).load_voter(address)->Ok_0.voter_id == ledger.load_voter(
            address,
        )->Ok_0.voter_id,
        ledger.load_voter(address)->Ok_0.proposal_voted != 0 ==> apply_all(
            ledger,
            calls,
        ).load_voter(address) == ledger.load_voter(address),
    decreases calls.len(),
{
    if calls.len() > 0 {
        let front = calls.drop_last();
        assert forall|k: int| 0 <= k < front.len() implies !(#[trigger] front[k]).closes(
            ledger.load_voter(address)->Ok_0.voter_id,
        ) by {
            assert(front[k] == calls[k]);
        }
        law_voter_record_is_kept_by_all(ledger, front, address);
        let before = apply_all(ledger, front);
        assert(calls.last() == calls[calls.len() - 1]);
        law_voter_record_is_kept(before, calls.last(), address);
        law_settings_are_kept(before, calls.last());
    }
}

/// An identity registers as a voter at most once: after a registration that
/// succeeded, and whatever calls followed it but the identity's own closing of
/// the record, a registration of the same identity fails with
/// `DuplicateRegistration` and changes nothing.
pub proof fn law_voter_registers_once(
    ledger: LedgerView,
    first: RegisterVoter,
    calls: Seq<Call>,
    second: RegisterVoter,
)
    requires
        register_voter_outcome(ledger, first) is Ok,
        second.authority == first.authority,
        forall|k: int| 0 <= k < calls.len() ==> !(#[trigger] calls[k]).closes(first.authority),
    ensures
        register_voter_outcome(apply_all(register_voter_state(ledger, first), calls), second) == Err::<
            (),
            VoteError,
        >(VoteError::DuplicateRegistration),
        register_voter_state(apply_all(register_voter_state(ledger, first), calls), second)
            == apply_all(register_voter_state(ledger, first), calls),
{
    let address = voter_address(first.authority, ledger.program).unwrap();
    let registered = register_voter_state(ledger, first);
    assert(registered.load_voter(address) == Ok::<Voter, VoteError>(new_voter(first.authority)));
    law_voter_record_is_kept_by_all(registered, calls, address);
}

/// A vote is final: after a vote that succeeded for a proposal other than
/// proposal 0, and whatever calls followed it but the voter's own closing of
/// the record, the voter's record names that proposal, and every further vote
/// of that voter fails and changes nothing, so that no vote is counted twice.
pub proof fn law_vote_is_final(
    ledger: LedgerView,
    first: Vote,
    proposal_id: u8,
    stake: u64,
    now: i64,
    calls: Seq<Call>,
    second: Vote,
    second_id: u8,
    second_stake: u64,
    later: i64,
)
    requires
        vote_outcome(ledger, first, proposal_id, stake, now) is Ok,
        proposal_id != 0,
        second.authority == first.authority,
        forall|k: int| 0 <= k < calls.len() ==> !(#[trigger] calls[k]).closes(first.authority),
    ensures
        ({
            let voted = vote_state(ledger, first, proposal_id, now);
            let address = voter_address(first.authority, ledger.program).unwrap();
            let end = apply_all(voted, calls);
            &&& ledger.load_voter(address) == Ok::<Voter, VoteError>(new_voter(first.authority))
            &&& end.load_voter(address) == Ok::<Voter, VoteError>(
                Voter { voter_id: first.authority, proposal_voted: proposal_id },
            )
            &&& vote_outcome(end, second, second_id, second_stake, later) is Err
            &&& vote_state(end, second, second_id, later) == end
        }),
{
    let voted = vote_state(ledger, first, proposal_id, now);
    let address = voter_address(first.authority, ledger.program).unwrap();
    let proposal_at = proposal_address(proposal_id, ledger.program).unwrap();
    assert(ledger.load_voter(address) is Ok);
    assert(ledger.load_proposal(proposal_at) is Ok);
    assert(address != proposal_at);
    assert(voted.load_voter(address) == Ok::<Voter, VoteError>(
        Voter { voter_id: first.authority, proposal_voted: proposal_id },
    ));
    law_voter_record_is_kept_by_all(voted, calls, address);
}

/// A vote for a proposal whose deadline has passed fails with `ProposalEnded`
/// and changes nothing: the proposal's votes stay as they are.
pub proof fn law_no_vote_after_deadline(
    ledger: LedgerView,
    ctx: Vote,
    proposal_id: u8,
    stake: u64,
    now: i64,
)
    requires
        proposal_address(proposal_id, ledger.program) is Some,
        ledger.load_proposal(proposal_address(proposal_id, ledger.program).unwrap()) is Ok,
        now >= ledger.load_proposal(
            proposal_address(proposal_id, ledger.program).unwrap(),
        )->Ok_0.deadline,
    ensures
        vote_outcome(ledger, ctx, proposal_id, stake, now) == Err::<crate::events::Transfer, VoteError>(
            VoteError::ProposalEnded,
        ),
        vote_state(ledger, ctx, proposal_id, now) == ledger,
{
}

/// A call of `register_proposal`, with its arguments.
pub struct Registration {
    pub ctx: RegisterProposal,
    pub proposal_info: Seq<char>,
    pub deadline: i64,
    pub bond: u64,
    pub now: i64,
}

/// The ledger after the registrations, made in order.
pub open spec fn register_all(ledger: LedgerView, calls: Seq<Registration>) -> LedgerView
    decreases calls.len(),
{
    if calls.len() == 0 {
        ledger
    } else {
        let call = calls.last();
        register_proposal_state(
            register_all(ledger, calls.drop_last()),
            call.ctx,
            call.proposal_info,
            call.deadline,
            call.now,
        )
    }
}

/// The ids that the registrations assign, in order: one for each that succeeds.
pub open spec fn assigned_ids(ledger: LedgerView, calls: Seq<Registration>) -> Seq<u8>
    decreases calls.len(),
{
    if calls.len() == 0 {
        Seq::empty()
    } else {
        let call = calls.last();
        let before = register_all(ledger, calls.drop_last());
        let ids = assigned_ids(ledger, calls.drop_last());
        match register_proposal_outcome(
            before,
            call.ctx,
            call.proposal_info,
            call.deadline,
            call.bond,
            call.now,
        ) {
            Ok(registered) => ids.push(registered.event.proposal_id),
            Err(_) => ids,
        }
    }
}

/// Proposals are numbered in the order of their registration, without a gap
/// or a repeat: over any registrations, the ids assigned are the counter's
/// first value and the numbers that follow it, and the counter ends as many
/// higher as registrations succeeded. From a treasury just initialized, whose
/// counter is 0, the ids are 0, 1, 2 and so on, and the counter is the number
/// of registrations that succeeded.
pub proof fn law_proposal_ids_in_order(ledger: LedgerView, calls: Seq<Registration>)
    ensures
        next_proposal_id(register_all(ledger, calls)) == next_proposal_id(ledger) + assigned_ids(
            ledger,
            calls,
        ).len(),
        forall|k: int|
            0 <= k < assigned_ids(ledger, calls).len() ==> #[trigger] assigned_ids(ledger, calls)[k]
                == next_proposal_id(ledger) + k,
        assigned_ids(ledger, calls).len() > 0 ==> register_all(ledger, calls).load_counter() is Ok,
    decreases calls.len(),
{
    if calls.len() > 0 {
        law_proposal_ids_in_order(ledger, calls.drop_last());
    }
}

/// A call of `pick_winner`, with its arguments.
pub struct Finalization {
    pub ctx: PickWinner,
    pub proposal_id: u8,
    pub now: i64,
}

impl Finalization {
    /// Whether the call succeeds on the ledger.
    pub open spec fn succeeds(self, ledger: LedgerView) -> bool {
        pick_winner_outcome(ledger, self.ctx, self.proposal_id, self.now) is Ok
    }

    /// The proposal that the call finalizes, where it succeeds.
    pub open spec fn proposal(self, ledger: LedgerView) -> ProposalView {
        ledger.load_proposal(proposal_address(self.proposal_id, ledger.program).unwrap()).unwrap()
    }
}

/// The ledger after the finalizations, made in order.
pub open spec fn finalize_all(ledger: LedgerView, calls: Seq<Finalization>) -> LedgerView
    decreases calls.len(),
{
    if calls.len() == 0 {
        ledger
    } else {
        let call = calls.last();
        pick_winner_state(
            finalize_all(ledger, calls.drop_last()),
            call.ctx,
            call.proposal_id,
            call.now,
        )
    }
}

/// The votes of the recorded winner; 0 where none is recorded.
pub open spec fn winner_votes(ledger: LedgerView) -> nat {
    match ledger.load_winner() {
        Ok(Some(winner)) => winner.number_of_votes as nat,
        _ => 0,
    }
}

/// Whether `end` is `start` but for the winner, which a finalization wrote.
pub open spec fn differs_by_winner(start: LedgerView, end: LedgerView) -> bool {
    end == start || (start.load_winner() is Ok && end.records.contains_key(start.fixed.winner)
        && end.records[start.fixed.winner] is Winner && end == start.with_record(
        start.fixed.winner,
        end.records[start.fixed.winner],
    ))
}

/// The recorded winner never loses votes, whatever is called.
pub proof fn law_winner_keeps_its_votes(ledger: LedgerView, call: Call)
    ensures
        winner_votes(call.apply(ledger)) >= winner_votes(ledger),
{
}

proof fn lemma_finalization_is_steady(start: LedgerView, end: LedgerView, call: Finalization)
    requires
        differs_by_winner(start, end),
    ensures
        call.succeeds(end) == call.succeeds(start),
        call.succeeds(start) ==> call.proposal(end) == call.proposal(start),
{
}

/// The ledger after one finalization on `before`.
spec fn finalized(before: LedgerView, call: Finalization) -> LedgerView {
    pick_winner_state(before, call.ctx, call.proposal_id, call.now)
}

proof fn lemma_finalization_step(start: LedgerView, before: LedgerView, call: Finalization)
    requires
        differs_by_winner(start, before),
    ensures
        differs_by_winner(start, finalized(before, call)),
        winner_votes(finalized(before, call)) >= winner_votes(before),
        call.succeeds(before) == call.succeeds(start),
        call.succeeds(start) ==> call.proposal(start).number_of_votes <= winner_votes(
            finalized(before, call),
        ),
        finalized(before, call) == before || (call.succeeds(start) && finalized(before, call)
            == start.with_record(
            start.fixed.winner,
            RecordView::Winner(call.proposal(start).as_winner()),
        )),
{
    lemma_finalization_is_steady(start, before, call);
    let end = finalized(before, call);
    if end != before {
        assert(end.records =~= start.with_record(
            start.fixed.winner,
            RecordView::Winner(call.proposal(start).as_winner()),
        ).records);
    }
}

/// The winner is the finalized proposal with the most votes, in whatever
/// order the proposals are finalized. Over any finalizations: the winner has
/// at least the votes of every proposal whose finalization succeeds, and at
/// least those it had before; and the ledger is either as it was, or as it
/// was but for the winner, which then holds the data of one of those
/// proposals.
pub proof fn law_winner_is_maximum(ledger: LedgerView, calls: Seq<Finalization>)
    ensures
        differs_by_winner(ledger, finalize_all(ledger, calls)),
        winner_votes(finalize_all(ledger, calls)) >= winner_votes(ledger),
        forall|k: int|
            0 <= k < calls.len() && (#[trigger] calls[k]).succeeds(ledger) ==> calls[k].proposal(
                ledger,
            ).number_of_votes <= winner_votes(finalize_all(ledger, calls)),
        finalize_all(ledger, calls) == ledger || exists|k: int|
            0 <= k < calls.len() && (#[trigger] calls[k]).succeeds(ledger) && finalize_all(
                ledger,
                calls,
            ) == ledger.with_record(
                ledger.fixed.winner,
                RecordView::Winner(calls[k].proposal(ledger).as_winner()),
            ),
    decreases calls.len(),
{
    if calls.len() > 0 {
        let front = calls.drop_last();
        let call = calls.last();
        let before = finalize_all(ledger, front);
        let end = finalize_all(ledger, calls);
        law_winner_is_maximum(ledger, front);
        assert(end == finalized(before, call));
        lemma_finalization_step(ledger, before, call);
        assert(call == calls[calls.len() - 1]);
        assert forall|k: int| 0 <= k < calls.len() && (#[trigger] calls[k]).succeeds(
            ledger,
        ) implies calls[k].proposal(ledger).number_of_votes <= winner_votes(end) by {
            if k < front.len() {
                assert(front[k] == calls[k]);
            }
        }
        if end == before && before != ledger {
            let k = choose|k: int|
                0 <= k < front.len() && (#[trigger] front[k]).succeeds(ledger) && before
                    == ledger.with_record(
                    ledger.fixed.winner,
                    RecordView::Winner(front[k].proposal(ledger).as_winner()),
                );
            assert(calls[k] == front[k]);
        }
    }
}

/// Whether a finalization succeeds, and on which proposal, does not depend on
/// the finalizations made before it.
pub proof fn law_finalization_whatever_came_before(
    ledger: LedgerView,
    calls: Seq<Finalization>,
    call: Finalization,
)
    ensures
        call.succeeds(finalize_all(ledger, calls)) == call.succeeds(ledger),
        call.succeeds(ledger) ==> call.proposal(finalize_all(ledger, calls)) == call.proposal(
            ledger,
        ),
{
    law_winner_is_maximum(ledger, calls);
    lemma_finalization_is_steady(ledger, finalize_all(ledger, calls), call);
}

/// The winner's votes do not depend on the order of the finalizations: two
/// runs of the same calls, in any two orders, end with the same votes for
/// the winner.
pub proof fn law_winner_whatever_the_order(
    ledger: LedgerView,
    calls: Seq<Finalization>,
    shuffled: Seq<Finalization>,
)
    requires
        calls.to_multiset() == shuffled.to_multiset(),
    ensures
        winner_votes(finalize_all(ledger, calls)) == winner_votes(finalize_all(ledger, shuffled)),
{
    law_winner_is_maximum(ledger, calls);
    law_winner_is_maximum(ledger, shuffled);
    lemma_reaches_every_call(ledger, calls, shuffled);
    lemma_reaches_every_call(ledger, shuffled, calls);
}

proof fn lemma_reaches_every_call(
    ledger: LedgerView,
    calls: Seq<Finalization>,
    others: Seq<Finalization>,
)
    requires
        calls.to_multiset() == others.to_multiset(),
        differs_by_winner(ledger, finalize_all(ledger, calls)),
        finalize_all(ledger, calls) == ledger || exists|k: int|
            0 <= k < calls.len() && (#[trigger] calls[k]).succeeds(ledger) && finalize_all(
                ledger,
                calls,
            ) == ledger.with_record(
                ledger.fixed.winner,
                RecordView::Winner(calls[k].proposal(ledger).as_winner()),
            ),
        winner_votes(finalize_all(ledger, others)) >= winner_votes(ledger),
        forall|k: int|
            0 <= k < others.len() && (#[trigger] others[k]).succeeds(ledger) ==> others[k].proposal(
                ledger,
            ).number_of_votes <= winner_votes(finalize_all(ledger, others)),
    ensures
        winner_votes(finalize_all(ledger, calls)) <= winner_votes(finalize_all(ledger, others)),
{
    let end = finalize_all(ledger, calls);
    if end != ledger {
        let k = choose|k: int|
            0 <= k < calls.len() && (#[trigger] calls[k]).succeeds(ledger) && end
                == ledger.with_record(
                ledger.fixed.winner,
                RecordView::Winner(calls[k].proposal(ledger).as_winner()),
            );
        let call = calls[k];
        assert(calls.contains(call));
        calls.to_multiset_ensures();
        others.to_multiset_ensures();
        assert(others.to_multiset().count(call) > 0);
        assert(others.contains(call));
        let j = choose|j: int| 0 <= j < others.len() && others[j] == call;
        assert(others[j].succeeds(ledger));
    }
}

} // verus!
