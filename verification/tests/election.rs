use vote_app::address::{derive_proposal, derive_voter, Address};
use vote_app::contexts::{
    check_holdings, CloseVoterAccount, InitializeTreasury, PickWinner, RegisterProposal,
    RegisterVoter, TokenAccount, Vote,
};
use vote_app::errors::VoteError;
use vote_app::events::{ProposalCreated, ProposalRegistered, Transfer, VoterAccountClosed};
use vote_app::ledger::{Finalizer, FixedAddresses, Ledger};
use vote_app::proposals::{register_proposal, register_proposal_at};
use vote_app::state::{info_fits, Proposal, ProposalCounter, Record, RecordKind, Voter, Winner};
use vote_app::treasury::initialize_treasury;
use vote_app::voters::{
    close_voter_account, close_voter_account_at, register_voter, register_voter_at,
};
use vote_app::voting::{check_open, pick_winner, pick_winner_at, vote, vote_at};

const ADMIN: u8 = 1;
const TREASURY_HOLDING: u8 = 2;
const DEADLINE: i64 = 1_000;
const BOND: u64 = 50;

fn key(n: u8) -> Address {
    Address { bytes: [n; 32] }
}

fn holding_of(n: u8) -> Address {
    let mut address = key(n);
    address.bytes[0] = 0xEE;
    address
}

fn program() -> Address {
    key(200)
}

fn started(finalizer: Finalizer) -> Ledger {
    let mut ledger = Ledger::new(program(), finalizer).unwrap();
    let ctx =
        InitializeTreasury { authority: key(ADMIN), treasury_token_account: key(TREASURY_HOLDING) };
    assert_eq!(initialize_treasury(&mut ledger, &ctx, 100, 10), Ok(()));
    ledger
}

fn treasury_holding(ledger: &Ledger) -> TokenAccount {
    TokenAccount { address: key(TREASURY_HOLDING), mint: ledger.fixed().x_mint, owner: key(ADMIN) }
}

fn holding(ledger: &Ledger, owner: u8) -> TokenAccount {
    TokenAccount { address: holding_of(owner), mint: ledger.fixed().x_mint, owner: key(owner) }
}

fn proposer(ledger: &Ledger, who: u8) -> RegisterProposal {
    RegisterProposal {
        authority: key(who),
        x_mint: ledger.fixed().x_mint,
        proposal_token_account: holding(ledger, who),
        treasury_token_account: treasury_holding(ledger),
    }
}

fn ballot(ledger: &Ledger, who: u8) -> Vote {
    Vote {
        authority: key(who),
        x_mint: ledger.fixed().x_mint,
        voter_token_account: holding(ledger, who),
        treasury_token_account: treasury_holding(ledger),
    }
}

fn propose(ledger: &mut Ledger, who: u8, info: &str) -> u8 {
    let ctx = proposer(ledger, who);
    register_proposal(ledger, &ctx, info.to_string(), DEADLINE, BOND, 0).unwrap().event.proposal_id
}

fn enroll(ledger: &mut Ledger, who: u8) {
    assert_eq!(register_voter(ledger, &RegisterVoter { authority: key(who) }), Ok(()));
}

fn cast(ledger: &mut Ledger, who: u8, proposal_id: u8) -> Result<Transfer, VoteError> {
    let ctx = ballot(ledger, who);
    vote(ledger, &ctx, proposal_id, 1, 10)
}

fn proposal(ledger: &Ledger, proposal_id: u8) -> Proposal {
    let (address, _) = derive_proposal(proposal_id, &program()).unwrap();
    ledger.proposal_at(&address).unwrap().clone()
}

fn voter(ledger: &Ledger, who: u8) -> Result<Voter, VoteError> {
    let (address, _) = derive_voter(&key(who), &program()).unwrap();
    ledger.voter_at(&address)
}

fn winner(ledger: &Ledger) -> Option<Winner> {
    ledger.winner().unwrap().cloned()
}

fn election(a_votes: u8, b_votes: u8) -> Ledger {
    let mut ledger = started(Finalizer::Anyone);
    assert_eq!(propose(&mut ledger, 3, "void"), 0);
    assert_eq!(propose(&mut ledger, 3, "proposal A"), 1);
    assert_eq!(propose(&mut ledger, 4, "proposal B"), 2);
    for n in 0..a_votes {
        enroll(&mut ledger, 20 + n);
        cast(&mut ledger, 20 + n, 1).unwrap();
    }
    for n in 0..b_votes {
        enroll(&mut ledger, 60 + n);
        cast(&mut ledger, 60 + n, 2).unwrap();
    }
    ledger
}

fn anyone() -> PickWinner {
    PickWinner { authority: key(99) }
}

#[test]
fn voter_registers_with_no_vote() {
    let mut ledger = started(Finalizer::Anyone);
    enroll(&mut ledger, 5);
    assert_eq!(voter(&ledger, 5), Ok(Voter { voter_id: key(5), proposal_voted: 0 }));
    assert_eq!(ledger.len(), 3);
    let (address, _) = derive_voter(&key(5), &program()).unwrap();
    assert!(ledger.contains(&address));
    assert_eq!(ledger.get(&address).unwrap().kind(), RecordKind::Voter);
}

#[test]
fn voter_registers_only_once() {
    let mut ledger = started(Finalizer::Anyone);
    enroll(&mut ledger, 5);
    assert_eq!(
        register_voter(&mut ledger, &RegisterVoter { authority: key(5) }),
        Err(VoteError::DuplicateRegistration)
    );
    assert_eq!(ledger.len(), 3);
    enroll(&mut ledger, 6);
    assert_eq!(
        register_voter(&mut ledger, &RegisterVoter { authority: key(5) }),
        Err(VoteError::DuplicateRegistration)
    );
    assert_eq!(ledger.len(), 4);
    assert_eq!(voter(&ledger, 5), Ok(Voter { voter_id: key(5), proposal_voted: 0 }));
}

#[test]
fn voter_registration_needs_a_free_address() {
    let mut ledger = started(Finalizer::Anyone);
    let counter_address = ledger.fixed().proposal_counter;
    assert_eq!(
        register_voter_at(&mut ledger, &RegisterVoter { authority: key(5) }, &counter_address),
        Err(VoteError::DuplicateRegistration)
    );
    assert_eq!(ledger.counter().unwrap().proposal_count, 0);
    assert_eq!(
        register_voter_at(&mut ledger, &RegisterVoter { authority: key(5) }, &key(70)),
        Ok(())
    );
    assert_eq!(ledger.voter_at(&key(70)), Ok(Voter { voter_id: key(5), proposal_voted: 0 }));
}

#[test]
fn voter_closes_own_record() {
    let mut ledger = started(Finalizer::Anyone);
    enroll(&mut ledger, 5);
    let ctx = CloseVoterAccount { authority: key(5), rent_recipient: key(6) };
    assert_eq!(
        close_voter_account(&mut ledger, &ctx, 77),
        Ok(VoterAccountClosed { voter: key(5), rent_recovered_to: key(6), timestamp: 77 })
    );
    assert_eq!(voter(&ledger, 5), Err(VoteError::RecordNotFound));
    assert_eq!(ledger.len(), 2);
    assert_eq!(close_voter_account(&mut ledger, &ctx, 78), Err(VoteError::RecordNotFound));
    enroll(&mut ledger, 5);
    assert_eq!(voter(&ledger, 5), Ok(Voter { voter_id: key(5), proposal_voted: 0 }));
}

#[test]
fn only_the_owner_closes_a_voter_record() {
    let mut ledger = started(Finalizer::Anyone);
    enroll(&mut ledger, 5);
    let (address, _) = derive_voter(&key(5), &program()).unwrap();
    let intruder = CloseVoterAccount { authority: key(6), rent_recipient: key(6) };
    assert_eq!(
        close_voter_account_at(&mut ledger, &intruder, &address, 1),
        Err(VoteError::Unauthorized)
    );
    assert_eq!(voter(&ledger, 5), Ok(Voter { voter_id: key(5), proposal_voted: 0 }));
    assert_eq!(close_voter_account(&mut ledger, &intruder, 1), Err(VoteError::RecordNotFound));
    let counter_address = ledger.fixed().proposal_counter;
    assert_eq!(
        close_voter_account_at(&mut ledger, &intruder, &counter_address, 1),
        Err(VoteError::TypeMismatch)
    );
    assert_eq!(ledger.len(), 3);
}

#[test]
fn proposal_is_registered_under_the_counter() {
    let mut ledger = started(Finalizer::Anyone);
    let ctx = proposer(&ledger, 3);
    let registered =
        register_proposal(&mut ledger, &ctx, "more parks".to_string(), DEADLINE, BOND, 7);
    assert_eq!(
        registered,
        Ok(ProposalRegistered {
            event: ProposalCreated {
                proposal_id: 0,
                creator: key(3),
                proposal_info: "more parks".to_string(),
                deadline: DEADLINE,
                timestamp: 7,
            },
            bond: Transfer { from: holding_of(3), to: key(TREASURY_HOLDING), amount: BOND },
        })
    );
    assert_eq!(
        proposal(&ledger, 0),
        Proposal {
            proposal_id: 0,
            number_of_votes: 0,
            deadline: DEADLINE,
            proposal_info: "more parks".to_string(),
            authority: key(3),
        }
    );
    assert_eq!(ledger.counter(), Ok(ProposalCounter { authority: key(ADMIN), proposal_count: 1 }));
    assert_eq!(ledger.len(), 3);
}

#[test]
fn proposal_ids_count_up_from_zero() {
    let mut ledger = started(Finalizer::Anyone);
    assert_eq!(propose(&mut ledger, 3, "a"), 0);
    assert_eq!(propose(&mut ledger, 4, "b"), 1);
    let ctx = proposer(&ledger, 5);
    assert_eq!(
        register_proposal(&mut ledger, &ctx, "late".to_string(), 5, BOND, 5),
        Err(VoteError::InvalidDeadline)
    );
    assert_eq!(ledger.counter().unwrap().proposal_count, 2);
    assert_eq!(propose(&mut ledger, 3, "c"), 2);
    assert_eq!(ledger.counter().unwrap().proposal_count, 3);
    for id in 0..3u8 {
        assert_eq!(proposal(&ledger, id).proposal_id, id);
    }
    assert_eq!(proposal(&ledger, 1).proposal_info, "b");
    assert_eq!(proposal(&ledger, 1).authority, key(4));
}

#[test]
fn proposal_with_51_characters_fails() {
    let mut ledger = started(Finalizer::Anyone);
    let ctx = proposer(&ledger, 3);
    let long = "x".repeat(51);
    assert_eq!(
        register_proposal(&mut ledger, &ctx, long, DEADLINE, BOND, 0),
        Err(VoteError::LengthExceeded)
    );
    assert_eq!(ledger.counter().unwrap().proposal_count, 0);
    assert_eq!(ledger.len(), 2);
    let fits = "x".repeat(50);
    let registered = register_proposal(&mut ledger, &ctx, fits.clone(), DEADLINE, BOND, 0);
    assert_eq!(registered.unwrap().event.proposal_info, fits);
    assert_eq!(ledger.counter().unwrap().proposal_count, 1);
}

#[test]
fn description_length_is_counted_in_bytes() {
    assert!(info_fits(&String::new()));
    assert!(info_fits(&"x".repeat(50)));
    assert!(!info_fits(&"x".repeat(51)));
    assert!(info_fits(&"é".repeat(25)));
    assert!(!info_fits(&"é".repeat(26)));
}

#[test]
fn proposal_deadline_must_be_in_the_future() {
    let mut ledger = started(Finalizer::Anyone);
    let ctx = proposer(&ledger, 3);
    assert_eq!(
        register_proposal(&mut ledger, &ctx, "a".to_string(), 10, BOND, 10),
        Err(VoteError::InvalidDeadline)
    );
    assert_eq!(
        register_proposal(&mut ledger, &ctx, "a".to_string(), i64::MIN, BOND, i64::MAX),
        Err(VoteError::InvalidDeadline)
    );
    assert_eq!(ledger.len(), 2);
    let registered = register_proposal(&mut ledger, &ctx, "a".to_string(), 11, BOND, 10);
    assert_eq!(registered.unwrap().event.deadline, 11);
}

#[test]
fn proposal_needs_the_configured_token() {
    let mut ledger = started(Finalizer::Anyone);
    let mut ctx = proposer(&ledger, 3);
    ctx.x_mint = key(77);
    assert_eq!(
        register_proposal(&mut ledger, &ctx, "a".to_string(), DEADLINE, BOND, 0),
        Err(VoteError::TokenMintMismatch)
    );
    let mut ctx = proposer(&ledger, 3);
    ctx.proposal_token_account.mint = key(77);
    assert_eq!(
        register_proposal(&mut ledger, &ctx, "a".to_string(), DEADLINE, BOND, 0),
        Err(VoteError::TokenMintMismatch)
    );
    let mut ctx = proposer(&ledger, 3);
    ctx.treasury_token_account.mint = key(77);
    assert_eq!(
        register_proposal(&mut ledger, &ctx, "a".to_string(), DEADLINE, BOND, 0),
        Err(VoteError::TokenMintMismatch)
    );
    let mut ctx = proposer(&ledger, 3);
    ctx.proposal_token_account.owner = key(4);
    assert_eq!(
        register_proposal(&mut ledger, &ctx, "a".to_string(), DEADLINE, BOND, 0),
        Err(VoteError::Unauthorized)
    );
    assert_eq!(ledger.len(), 2);
    assert_eq!(ledger.counter().unwrap().proposal_count, 0);
}

#[test]
fn holdings_are_checked_in_order() {
    let mint = key(1);
    let owner = key(2);
    let good = TokenAccount { address: key(3), mint, owner };
    let treasury = TokenAccount { address: key(4), mint, owner: key(5) };
    assert_eq!(check_holdings(&mint, &mint, &good, &owner, &treasury), None);
    assert_eq!(
        check_holdings(&key(9), &mint, &good, &owner, &treasury),
        Some(VoteError::TokenMintMismatch)
    );
    let foreign = TokenAccount { address: key(3), mint: key(9), owner: key(8) };
    assert_eq!(
        check_holdings(&mint, &mint, &foreign, &owner, &treasury),
        Some(VoteError::TokenMintMismatch)
    );
    let stolen = TokenAccount { address: key(3), mint, owner: key(8) };
    let odd = TokenAccount { address: key(4), mint: key(9), owner: key(5) };
    assert_eq!(
        check_holdings(&mint, &mint, &stolen, &owner, &odd),
        Some(VoteError::Unauthorized)
    );
    assert_eq!(
        check_holdings(&mint, &mint, &good, &owner, &odd),
        Some(VoteError::TokenMintMismatch)
    );
}

#[test]
fn proposal_needs_treasury_and_counter() {
    let mut ledger = Ledger::new(program(), Finalizer::Anyone).unwrap();
    let ctx = proposer(&ledger, 3);
    assert_eq!(
        register_proposal(&mut ledger, &ctx, "a".to_string(), DEADLINE, BOND, 0),
        Err(VoteError::RecordNotFound)
    );
    assert_eq!(
        register_proposal_at(&mut ledger, &ctx, &key(40), "a".to_string(), DEADLINE, BOND, 0),
        Err(VoteError::RecordNotFound)
    );
    let counter_address = ledger.fixed().proposal_counter;
    ledger.put(counter_address, Record::Voter(Voter { voter_id: key(1), proposal_voted: 0 }));
    assert_eq!(
        register_proposal(&mut ledger, &ctx, "a".to_string(), DEADLINE, BOND, 0),
        Err(VoteError::TypeMismatch)
    );
    assert_eq!(ledger.len(), 1);
}

#[test]
fn proposal_needs_a_free_address() {
    let mut ledger = started(Finalizer::Anyone);
    let ctx = proposer(&ledger, 3);
    let config_address = ledger.fixed().treasury_config;
    assert_eq!(
        register_proposal_at(
            &mut ledger,
            &ctx,
            &config_address,
            "a".to_string(),
            DEADLINE,
            BOND,
            0
        ),
        Err(VoteError::AlreadyInitialized)
    );
    assert_eq!(ledger.counter().unwrap().proposal_count, 0);
    assert_eq!(ledger.treasury().unwrap().sol_price, 100);
    let registered =
        register_proposal_at(&mut ledger, &ctx, &key(40), "a".to_string(), DEADLINE, BOND, 0);
    assert_eq!(registered.unwrap().event.proposal_id, 0);
    assert_eq!(ledger.proposal_at(&key(40)).unwrap().proposal_id, 0);
    assert_eq!(ledger.counter().unwrap().proposal_count, 1);
}

#[test]
fn proposal_counter_stops_at_its_last_value() {
    let mut ledger = started(Finalizer::Anyone);
    for id in 0..255u8 {
        assert_eq!(propose(&mut ledger, 3, "p"), id);
    }
    assert_eq!(ledger.counter().unwrap().proposal_count, 255);
    let ctx = proposer(&ledger, 3);
    assert_eq!(
        register_proposal(&mut ledger, &ctx, "p".to_string(), DEADLINE, BOND, 0),
        Err(VoteError::ProposalCounterOverflow)
    );
    assert_eq!(ledger.counter().unwrap().proposal_count, 255);
    assert_eq!(ledger.len(), 257);
    assert_eq!(proposal(&ledger, 254).proposal_id, 254);
}

#[test]
fn vote_marks_the_voter_and_counts() {
    let mut ledger = election(0, 0);
    enroll(&mut ledger, 5);
    let ctx = ballot(&ledger, 5);
    assert_eq!(
        vote(&mut ledger, &ctx, 1, 25, 10),
        Ok(Transfer { from: holding_of(5), to: key(TREASURY_HOLDING), amount: 25 })
    );
    assert_eq!(voter(&ledger, 5), Ok(Voter { voter_id: key(5), proposal_voted: 1 }));
    assert_eq!(proposal(&ledger, 1).number_of_votes, 1);
    assert_eq!(proposal(&ledger, 1).proposal_info, "proposal A");
    assert_eq!(proposal(&ledger, 1).deadline, DEADLINE);
    assert_eq!(proposal(&ledger, 2).number_of_votes, 0);
}

#[test]
fn stake_is_the_callers_choice() {
    let mut ledger = election(0, 0);
    enroll(&mut ledger, 5);
    enroll(&mut ledger, 6);
    let ctx = ballot(&ledger, 5);
    assert_eq!(vote(&mut ledger, &ctx, 1, 1, 10).unwrap().amount, 1);
    let whole_balance = 123_456_789;
    let ctx = ballot(&ledger, 6);
    assert_eq!(vote(&mut ledger, &ctx, 1, whole_balance, 10).unwrap().amount, whole_balance);
    assert_eq!(proposal(&ledger, 1).number_of_votes, 2);
}

#[test]
fn second_vote_of_a_voter_fails() {
    let mut ledger = election(0, 0);
    enroll(&mut ledger, 5);
    assert!(cast(&mut ledger, 5, 1).is_ok());
    assert_eq!(cast(&mut ledger, 5, 2), Err(VoteError::PreconditionViolated));
    assert_eq!(proposal(&ledger, 1).number_of_votes, 1);
    assert_eq!(proposal(&ledger, 2).number_of_votes, 0);
    assert_eq!(voter(&ledger, 5), Ok(Voter { voter_id: key(5), proposal_voted: 1 }));
    assert_eq!(cast(&mut ledger, 5, 1), Err(VoteError::PreconditionViolated));
    assert_eq!(proposal(&ledger, 1).number_of_votes, 1);
}

#[test]
fn vote_stays_final_after_other_calls() {
    let mut ledger = election(0, 0);
    enroll(&mut ledger, 5);
    assert!(cast(&mut ledger, 5, 2).is_ok());
    enroll(&mut ledger, 6);
    assert!(cast(&mut ledger, 6, 1).is_ok());
    assert_eq!(propose(&mut ledger, 6, "another"), 3);
    assert_eq!(pick_winner(&mut ledger, &anyone(), 2, DEADLINE), Ok(true));
    assert_eq!(voter(&ledger, 5), Ok(Voter { voter_id: key(5), proposal_voted: 2 }));
    assert_eq!(cast(&mut ledger, 5, 3), Err(VoteError::PreconditionViolated));
    assert_eq!(proposal(&ledger, 3).number_of_votes, 0);
}

#[test]
fn vote_for_proposal_zero_leaves_the_record_unmarked() {
    let mut ledger = election(0, 0);
    enroll(&mut ledger, 5);
    assert!(cast(&mut ledger, 5, 0).is_ok());
    assert_eq!(voter(&ledger, 5), Ok(Voter { voter_id: key(5), proposal_voted: 0 }));
    assert_eq!(proposal(&ledger, 0).number_of_votes, 1);
    assert!(cast(&mut ledger, 5, 1).is_ok());
    assert_eq!(voter(&ledger, 5), Ok(Voter { voter_id: key(5), proposal_voted: 1 }));
    assert_eq!(cast(&mut ledger, 5, 0), Err(VoteError::PreconditionViolated));
}

#[test]
fn vote_after_the_deadline_fails() {
    let mut ledger = election(2, 0);
    enroll(&mut ledger, 5);
    let ctx = ballot(&ledger, 5);
    assert_eq!(vote(&mut ledger, &ctx, 1, 1, DEADLINE), Err(VoteError::ProposalEnded));
    assert_eq!(vote(&mut ledger, &ctx, 1, 1, DEADLINE + 1), Err(VoteError::ProposalEnded));
    assert_eq!(vote(&mut ledger, &ctx, 1, 1, i64::MAX), Err(VoteError::ProposalEnded));
    assert_eq!(proposal(&ledger, 1).number_of_votes, 2);
    assert_eq!(voter(&ledger, 5), Ok(Voter { voter_id: key(5), proposal_voted: 0 }));
    let stranger = ballot(&ledger, 9);
    assert_eq!(vote(&mut ledger, &stranger, 1, 1, DEADLINE), Err(VoteError::ProposalEnded));
    assert_eq!(vote(&mut ledger, &ctx, 1, 1, DEADLINE - 1).unwrap().amount, 1);
    assert_eq!(proposal(&ledger, 1).number_of_votes, 3);
}

#[test]
fn open_proposal_is_told_from_a_closed_one() {
    let ledger = election(0, 0);
    let (address, _) = derive_proposal(1, &program()).unwrap();
    assert_eq!(check_open(&ledger, &address, DEADLINE - 1), None);
    assert_eq!(check_open(&ledger, &address, DEADLINE), Some(VoteError::ProposalEnded));
    assert_eq!(check_open(&ledger, &key(44), 0), Some(VoteError::RecordNotFound));
    assert_eq!(
        check_open(&ledger, &ledger.fixed().proposal_counter, 0),
        Some(VoteError::TypeMismatch)
    );
}

#[test]
fn vote_needs_proposal_and_voter() {
    let mut ledger = election(0, 0);
    assert_eq!(cast(&mut ledger, 5, 1), Err(VoteError::RecordNotFound));
    enroll(&mut ledger, 5);
    assert_eq!(cast(&mut ledger, 5, 9), Err(VoteError::RecordNotFound));
    let (voter_address, _) = derive_voter(&key(5), &program()).unwrap();
    let (proposal_address, _) = derive_proposal(1, &program()).unwrap();
    let ctx = ballot(&ledger, 5);
    assert_eq!(
        vote_at(&mut ledger, &ctx, &voter_address, &voter_address, 1, 1, 10),
        Err(VoteError::TypeMismatch)
    );
    assert_eq!(
        vote_at(&mut ledger, &ctx, &proposal_address, &proposal_address, 1, 1, 10),
        Err(VoteError::TypeMismatch)
    );
    assert_eq!(proposal(&ledger, 1).number_of_votes, 0);
    assert_eq!(voter(&ledger, 5), Ok(Voter { voter_id: key(5), proposal_voted: 0 }));
}

#[test]
fn vote_needs_the_voters_own_record_and_holding() {
    let mut ledger = election(0, 0);
    enroll(&mut ledger, 5);
    enroll(&mut ledger, 6);
    let (address_of_5, _) = derive_voter(&key(5), &program()).unwrap();
    let (proposal_address, _) = derive_proposal(1, &program()).unwrap();
    let ctx = ballot(&ledger, 6);
    assert_eq!(
        vote_at(&mut ledger, &ctx, &address_of_5, &proposal_address, 1, 1, 10),
        Err(VoteError::Unauthorized)
    );
    let mut ctx = ballot(&ledger, 5);
    ctx.voter_token_account.owner = key(6);
    assert_eq!(vote(&mut ledger, &ctx, 1, 1, 10), Err(VoteError::Unauthorized));
    let mut ctx = ballot(&ledger, 5);
    ctx.voter_token_account.mint = key(77);
    assert_eq!(vote(&mut ledger, &ctx, 1, 1, 10), Err(VoteError::TokenMintMismatch));
    let mut ctx = ballot(&ledger, 5);
    ctx.treasury_token_account.mint = key(77);
    assert_eq!(vote(&mut ledger, &ctx, 1, 1, 10), Err(VoteError::TokenMintMismatch));
    let mut ctx = ballot(&ledger, 5);
    ctx.x_mint = key(77);
    assert_eq!(vote(&mut ledger, &ctx, 1, 1, 10), Err(VoteError::TokenMintMismatch));
    assert_eq!(proposal(&ledger, 1).number_of_votes, 0);
    assert_eq!(voter(&ledger, 5), Ok(Voter { voter_id: key(5), proposal_voted: 0 }));
}

#[test]
fn votes_stop_at_their_last_value() {
    let mut ledger = election(0, 0);
    let (proposal_address, _) = derive_proposal(1, &program()).unwrap();
    let mut full = proposal(&ledger, 1);
    full.number_of_votes = 254;
    ledger.put(proposal_address, Record::Proposal(full));
    enroll(&mut ledger, 5);
    enroll(&mut ledger, 6);
    assert!(cast(&mut ledger, 5, 1).is_ok());
    assert_eq!(proposal(&ledger, 1).number_of_votes, 255);
    assert_eq!(cast(&mut ledger, 6, 1), Err(VoteError::ProposalVotesOverflow));
    assert_eq!(proposal(&ledger, 1).number_of_votes, 255);
    assert_eq!(voter(&ledger, 6), Ok(Voter { voter_id: key(6), proposal_voted: 0 }));
}

#[test]
fn winner_is_not_picked_before_the_deadline() {
    let mut ledger = election(3, 5);
    assert_eq!(
        pick_winner(&mut ledger, &anyone(), 2, DEADLINE - 1),
        Err(VoteError::VotingStillActive)
    );
    assert_eq!(pick_winner(&mut ledger, &anyone(), 2, 0), Err(VoteError::VotingStillActive));
    assert_eq!(winner(&ledger), None);
    assert!(!ledger.contains(&ledger.fixed().winner));
}

#[test]
fn winner_is_the_proposal_with_more_votes() {
    let mut ledger = election(3, 5);
    let records = ledger.len();
    assert_eq!(pick_winner(&mut ledger, &anyone(), 1, DEADLINE), Ok(true));
    assert_eq!(
        winner(&ledger),
        Some(Winner {
            proposal_id: 1,
            number_of_votes: 3,
            proposal_info: "proposal A".to_string(),
            authority: key(3),
        })
    );
    assert_eq!(ledger.len(), records + 1);
    assert_eq!(pick_winner(&mut ledger, &anyone(), 2, DEADLINE), Ok(true));
    let b = Winner {
        proposal_id: 2,
        number_of_votes: 5,
        proposal_info: "proposal B".to_string(),
        authority: key(4),
    };
    assert_eq!(winner(&ledger), Some(b.clone()));
    assert_eq!(pick_winner(&mut ledger, &anyone(), 1, DEADLINE + 5), Ok(false));
    assert_eq!(winner(&ledger), Some(b.clone()));
    assert_eq!(pick_winner(&mut ledger, &anyone(), 2, DEADLINE + 5), Ok(false));
    assert_eq!(winner(&ledger), Some(b));
    assert_eq!(ledger.len(), records + 1);
    assert_eq!(proposal(&ledger, 1).number_of_votes, 3);
    assert_eq!(proposal(&ledger, 2).number_of_votes, 5);
}

#[test]
fn winner_does_not_depend_on_the_order() {
    let mut forward = election(3, 5);
    assert_eq!(pick_winner(&mut forward, &anyone(), 1, DEADLINE), Ok(true));
    assert_eq!(pick_winner(&mut forward, &anyone(), 2, DEADLINE), Ok(true));
    let mut backward = election(3, 5);
    assert_eq!(pick_winner(&mut backward, &anyone(), 2, DEADLINE), Ok(true));
    assert_eq!(pick_winner(&mut backward, &anyone(), 1, DEADLINE), Ok(false));
    assert_eq!(winner(&forward), winner(&backward));
    assert_eq!(winner(&forward).unwrap().number_of_votes, 5);
}

#[test]
fn first_finalized_wins_a_tie() {
    let mut ledger = election(2, 2);
    assert_eq!(pick_winner(&mut ledger, &anyone(), 2, DEADLINE), Ok(true));
    assert_eq!(pick_winner(&mut ledger, &anyone(), 1, DEADLINE), Ok(false));
    assert_eq!(winner(&ledger).unwrap().proposal_id, 2);
    assert_eq!(winner(&ledger).unwrap().number_of_votes, 2);
}

#[test]
fn proposal_without_votes_is_not_finalized() {
    let mut ledger = election(0, 1);
    assert_eq!(pick_winner(&mut ledger, &anyone(), 1, DEADLINE), Err(VoteError::NoVoteCast));
    assert_eq!(winner(&ledger), None);
    assert_eq!(pick_winner(&mut ledger, &anyone(), 2, DEADLINE), Ok(true));
    assert_eq!(pick_winner(&mut ledger, &anyone(), 1, DEADLINE), Err(VoteError::NoVoteCast));
    assert_eq!(winner(&ledger).unwrap().proposal_id, 2);
}

#[test]
fn finalizing_needs_the_proposal() {
    let mut ledger = election(1, 1);
    assert_eq!(pick_winner(&mut ledger, &anyone(), 9, DEADLINE), Err(VoteError::RecordNotFound));
    let counter_address = ledger.fixed().proposal_counter;
    assert_eq!(
        pick_winner_at(&mut ledger, &anyone(), &counter_address, DEADLINE),
        Err(VoteError::TypeMismatch)
    );
    assert_eq!(winner(&ledger), None);
}

#[test]
fn finalizing_fails_where_the_winners_place_is_taken() {
    let mut ledger = election(1, 1);
    let winner_address = ledger.fixed().winner;
    ledger.put(winner_address, Record::Voter(Voter { voter_id: key(1), proposal_voted: 0 }));
    assert_eq!(pick_winner(&mut ledger, &anyone(), 1, DEADLINE), Err(VoteError::TypeMismatch));
    assert_eq!(ledger.winner(), Err(VoteError::TypeMismatch));
    assert_eq!(
        ledger.voter_at(&winner_address),
        Ok(Voter { voter_id: key(1), proposal_voted: 0 })
    );
}

#[test]
fn treasury_authority_alone_finalizes_where_the_rule_says_so() {
    let mut ledger = started(Finalizer::TreasuryAuthority);
    assert_eq!(propose(&mut ledger, 3, "a"), 0);
    enroll(&mut ledger, 5);
    assert!(cast(&mut ledger, 5, 0).is_ok());
    assert_eq!(pick_winner(&mut ledger, &anyone(), 0, DEADLINE), Err(VoteError::Unauthorized));
    let creator = PickWinner { authority: key(3) };
    assert_eq!(pick_winner(&mut ledger, &creator, 0, DEADLINE), Err(VoteError::Unauthorized));
    assert_eq!(winner(&ledger), None);
    let authority = PickWinner { authority: key(ADMIN) };
    assert_eq!(pick_winner(&mut ledger, &authority, 0, DEADLINE), Ok(true));
    assert_eq!(winner(&ledger).unwrap().proposal_id, 0);
}

#[test]
fn creator_alone_finalizes_where_the_rule_says_so() {
    let mut ledger = started(Finalizer::ProposalCreator);
    assert_eq!(propose(&mut ledger, 3, "a"), 0);
    enroll(&mut ledger, 5);
    assert!(cast(&mut ledger, 5, 0).is_ok());
    let authority = PickWinner { authority: key(ADMIN) };
    assert_eq!(pick_winner(&mut ledger, &authority, 0, DEADLINE), Err(VoteError::Unauthorized));
    assert_eq!(pick_winner(&mut ledger, &anyone(), 0, DEADLINE), Err(VoteError::Unauthorized));
    assert_eq!(winner(&ledger), None);
    let creator = PickWinner { authority: key(3) };
    assert_eq!(pick_winner(&mut ledger, &creator, 0, DEADLINE), Ok(true));
}

#[test]
fn finalizing_by_the_treasury_authority_needs_the_treasury() {
    let fixed = FixedAddresses {
        treasury_config: key(20),
        x_mint: key(21),
        proposal_counter: key(22),
        sol_vault: key(23),
        sol_vault_bump: 255,
        mint_authority: key(24),
        winner: key(25),
    };
    let mut ledger = Ledger::with_addresses(program(), fixed, Finalizer::TreasuryAuthority);
    let voted = Proposal {
        proposal_id: 0,
        number_of_votes: 4,
        deadline: DEADLINE,
        proposal_info: "a".to_string(),
        authority: key(3),
    };
    ledger.put(key(40), Record::Proposal(voted));
    let authority = PickWinner { authority: key(ADMIN) };
    assert_eq!(
        pick_winner_at(&mut ledger, &authority, &key(40), DEADLINE),
        Err(VoteError::RecordNotFound)
    );
    assert_eq!(ledger.len(), 1);
}

#[test]
fn store_puts_replaces_and_removes() {
    let mut ledger = Ledger::new(program(), Finalizer::Anyone).unwrap();
    assert_eq!(ledger.get(&key(1)), None);
    ledger.put(key(1), Record::Voter(Voter { voter_id: key(5), proposal_voted: 0 }));
    ledger.put(key(2), Record::Voter(Voter { voter_id: key(6), proposal_voted: 0 }));
    ledger.put(key(3), Record::Voter(Voter { voter_id: key(7), proposal_voted: 0 }));
    assert_eq!(ledger.len(), 3);
    ledger.put(key(2), Record::Voter(Voter { voter_id: key(6), proposal_voted: 9 }));
    assert_eq!(ledger.len(), 3);
    assert_eq!(
        ledger.get(&key(2)),
        Some(&Record::Voter(Voter { voter_id: key(6), proposal_voted: 9 }))
    );
    ledger.remove(&key(1));
    assert_eq!(ledger.len(), 2);
    assert!(!ledger.contains(&key(1)));
    assert_eq!(ledger.voter_at(&key(2)).unwrap().proposal_voted, 9);
    assert_eq!(ledger.voter_at(&key(3)).unwrap().voter_id, key(7));
    ledger.remove(&key(1));
    assert_eq!(ledger.len(), 2);
    let copy = ledger.clone();
    ledger.remove(&key(2));
    assert_eq!(copy.len(), 2);
    assert_eq!(copy.voter_at(&key(2)).unwrap().proposal_voted, 9);
    assert_eq!(ledger.voter_at(&key(2)), Err(VoteError::RecordNotFound));
}
