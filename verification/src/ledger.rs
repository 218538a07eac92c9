//! The ledger: the store of records, keyed by address.

use crate::address::{
    derive_singleton, derived, singleton_seeds, Address, MINT_AUTHORITY_TAG, PROPOSAL_COUNTER_TAG,
    SOL_VAULT_TAG, TREASURY_CONFIG_TAG, WINNER_TAG, X_MINT_TAG,
};
use crate::errors::VoteError;
use crate::state::{
    Proposal, ProposalCounter, ProposalView, Record, RecordView, TreasuryConfig, Voter, Winner,
    WinnerView,
};
use vstd::prelude::*;

verus! {

/// Who may finalize a proposal.
#[derive(Clone, Copy, Debug, PartialEq, Eq, Structural)]
pub enum Finalizer {
    /// Any caller.
    Anyone,
    /// The treasury's authority alone.
    TreasuryAuthority,
    /// The proposal's creator alone.
    ProposalCreator,
}

/// The addresses that have no parameter: those of the singletons and of the
/// accounts that hold no record.
#[derive(Clone, Copy, Debug, PartialEq, Eq)]
pub struct FixedAddresses {
    /// Where the treasury's configuration is kept.
    pub treasury_config: Address,
    /// The voting token's mint.
    pub x_mint: Address,
    /// Where the proposal counter is kept.
    pub proposal_counter: Address,
    /// The vault that receives the native currency.
    pub sol_vault: Address,
    /// The nonce of the vault's address.
    pub sol_vault_bump: u8,
    /// The account that may mint the voting token.
    pub mint_authority: Address,
    /// Where the winner is kept.
    pub winner: Address,
}

/// The fixed addresses as derived under a program, where each of them has a
/// valid nonce.
pub open spec fn derived_fixed(program: Address) -> Option<FixedAddresses> {
    let config = derived(singleton_seeds(TREASURY_CONFIG_TAG), program);
    let mint = derived(singleton_seeds(X_MINT_TAG), program);
    let counter = derived(singleton_seeds(PROPOSAL_COUNTER_TAG), program);
    let vault = derived(singleton_seeds(SOL_VAULT_TAG), program);
    let authority = derived(singleton_seeds(MINT_AUTHORITY_TAG), program);
    let winner = derived(singleton_seeds(WINNER_TAG), program);
    match (config, mint, counter, vault, authority, winner) {
        (Some(config), Some(mint), Some(counter), Some(vault), Some(authority), Some(winner)) => Some(
            FixedAddresses {
                treasury_config: config.0,
                x_mint: mint.0,
                proposal_counter: counter.0,
                sol_vault: vault.0,
                sol_vault_bump: vault.1,
                mint_authority: authority.0,
                winner: winner.0,
            },
        ),
        _ => None,
    }
}

/// Derives the fixed addresses under a program.
pub fn derive_fixed(program: &Address) -> (fixed: Option<FixedAddresses>)
    ensures
        fixed == derived_fixed(*program),
{
    let config = derive_singleton(TREASURY_CONFIG_TAG, program);
    let mint = derive_singleton(X_MINT_TAG, program);
    let counter = derive_singleton(PROPOSAL_COUNTER_TAG, program);
    let vault = derive_singleton(SOL_VAULT_TAG, program);
    let authority = derive_singleton(MINT_AUTHORITY_TAG, program);
    let winner = derive_singleton(WINNER_TAG, program);
    match (config, mint, counter, vault, authority, winner) {
        (
            Some((treasury_config, _)),
            Some((x_mint, _)),
            Some((proposal_counter, _)),
            Some((sol_vault, sol_vault_bump)),
            Some((mint_authority, _)),
            Some((winner, _)),
        ) => Some(
            FixedAddresses {
                treasury_config,
                x_mint,
                proposal_counter,
                sol_vault,
                sol_vault_bump,
                mint_authority,
                winner,
            },
        ),
        _ => None,
    }
}

/// A record and where it is kept.
struct Entry {
    address: Address,
    record: Record,
}

/// The store of records. No two records share an address.
pub struct Ledger {
    program: Address,
    fixed: FixedAddresses,
    finalizer: Finalizer,
    entries: Vec<Entry>,
}

/// What a `Ledger` holds: the program whose records these are, its fixed
/// addresses, who may finalize, and the record at each address in use.
pub struct LedgerView {
    pub program: Address,
    pub fixed: FixedAddresses,
    pub finalizer: Finalizer,
    pub records: Map<Address, RecordView>,
}

impl LedgerView {
    /// The ledger with `record` at `address`, in place of what was there.
    pub open spec fn with_record(self, address: Address, record: RecordView) -> LedgerView {
        LedgerView { records: self.records.insert(address, record), ..self }
    }

    /// The ledger with nothing at `address`.
    pub open spec fn without_record(self, address: Address) -> LedgerView {
        LedgerView { records: self.records.remove(address), ..self }
    }

    /// The treasury's configuration, or why it cannot be read.
    pub open spec fn load_treasury(self) -> Result<TreasuryConfig, VoteError> {
        if !self.records.contains_key(self.fixed.treasury_config) {
            Err(VoteError::RecordNotFound)
        } else {
            match self.records[self.fixed.treasury_config] {
                RecordView::Treasury(config) => Ok(config),
                _ => Err(VoteError::TypeMismatch),
            }
        }
    }

    /// The proposal counter, or why it cannot be read.
    pub open spec fn load_counter(self) -> Result<ProposalCounter, VoteError> {
        if !self.records.contains_key(self.fixed.proposal_counter) {
            Err(VoteError::RecordNotFound)
        } else {
            match self.records[self.fixed.proposal_counter] {
                RecordView::Counter(counter) => Ok(counter),
                _ => Err(VoteError::TypeMismatch),
            }
        }
    }

    /// The voter record at `address`, or why it cannot be read.
    pub open spec fn load_voter(self, address: Address) -> Result<Voter, VoteError> {
        if !self.records.contains_key(address) {
            Err(VoteError::RecordNotFound)
        } else {
            match self.records[address] {
                RecordView::Voter(voter) => Ok(voter),
                _ => Err(VoteError::TypeMismatch),
            }
        }
    }

    /// The winner, if one is recorded, or why the record cannot be read.
    pub open spec fn load_winner(self) -> Result<Option<WinnerView>, VoteError> {
        if !self.records.contains_key(self.fixed.winner) {
            Ok(None)
        } else {
            match self.records[self.fixed.winner] {
                RecordView::Winner(winner) => Ok(Some(winner)),
                _ => Err(VoteError::TypeMismatch),
            }
        }
    }

    /// The proposal at `address`, or why it cannot be read.
    pub open spec fn load_proposal(self, address: Address) -> Result<ProposalView, VoteError> {
        if !self.records.contains_key(address) {
            Err(VoteError::RecordNotFound)
        } else {
            match self.records[address] {
                RecordView::Proposal(proposal) => Ok(proposal),
                _ => Err(VoteError::TypeMismatch),
            }
        }
    }
}

/// Whether some entry is kept at `address`.
spec fn occurs(entries: Seq<Entry>, address: Address) -> bool {
    exists|i: int| 0 <= i < entries.len() && (#[trigger] entries[i]).address == address
}

/// The place of an entry kept at `address`.
spec fn index_of(entries: Seq<Entry>, address: Address) -> int {
    choose|i: int| 0 <= i < entries.len() && (#[trigger] entries[i]).address == address
}

/// Whether no two entries share an address.
spec fn distinct(entries: Seq<Entry>) -> bool {
    forall|i: int, j: int|
        0 <= i < j < entries.len() ==> (#[trigger] entries[i]).address != (
        #[trigger] entries[j]).address
}

/// The record at each address in use.
spec fn records_of(entries: Seq<Entry>) -> Map<Address, RecordView> {
    Map::new(
        |address: Address| occurs(entries, address),
        |address: Address| entries[index_of(entries, address)].record@,
    )
}

proof fn lemma_entry_found(entries: Seq<Entry>, i: int)
    requires
        distinct(entries),
        0 <= i < entries.len(),
    ensures
        occurs(entries, entries[i].address),
        index_of(entries, entries[i].address) == i,
        records_of(entries).contains_key(entries[i].address),
        records_of(entries)[entries[i].address] == entries[i].record@,
{
    let address = entries[i].address;
    let k = index_of(entries, address);
    assert(0 <= k < entries.len() && entries[k].address == address);
    if k < i {
        assert(entries[k].address != entries[i].address);
    } else if i < k {
        assert(entries[i].address != entries[k].address);
    }
}

proof fn lemma_entry_added(entries: Seq<Entry>, entry: Entry)
    requires
        distinct(entries),
        !occurs(entries, entry.address),
    ensures
        distinct(entries.push(entry)),
        records_of(entries.push(entry)) == records_of(entries).insert(
            entry.address,
            entry.record@,
        ),
{
    let after = entries.push(entry);
    assert(distinct(after)) by {
        assert forall|i: int, j: int| 0 <= i < j < after.len() implies (#[trigger] after[i]).address
            != (#[trigger] after[j]).address by {
            if j == entries.len() {
                assert(entries[i].address != entry.address);
            } else {
                assert(entries[i].address != entries[j].address);
            }
        }
    }
    lemma_entry_found(after, entries.len() as int);
    assert forall|address: Address|
        records_of(after).contains_key(address) <==> #[trigger] records_of(entries).insert(
            entry.address,
            entry.record@,
        ).contains_key(address) by {
        if occurs(after, address) {
            let k = index_of(after, address);
            if k < entries.len() {
                assert(entries[k].address == address);
            }
        }
        if occurs(entries, address) {
            let k = index_of(entries, address);
            assert(after[k].address == address);
        }
    }
    assert forall|address: Address| #[trigger]
        records_of(after).contains_key(address) implies records_of(after)[address]
        == records_of(entries).insert(entry.address, entry.record@)[address] by {
        if address != entry.address {
            let k = index_of(entries, address);
            assert(occurs(entries, address));
            assert(after[k] == entries[k]);
            lemma_entry_found(after, k);
        }
    }
    assert(records_of(after) =~= records_of(entries).insert(entry.address, entry.record@));
}

proof fn lemma_entry_replaced(entries: Seq<Entry>, i: int, entry: Entry)
    requires
        distinct(entries),
        0 <= i < entries.len(),
        entries[i].address == entry.address,
    ensures
        distinct(entries.update(i, entry)),
        records_of(entries.update(i, entry)) == records_of(entries).insert(
            entry.address,
            entry.record@,
        ),
{
    let after = entries.update(i, entry);
    assert(distinct(after)) by {
        assert forall|a: int, b: int| 0 <= a < b < after.len() implies (#[trigger] after[a]).address
            != (#[trigger] after[b]).address by {
            assert(entries[a].address != entries[b].address);
        }
    }
    lemma_entry_found(after, i);
    lemma_entry_found(entries, i);
    assert forall|address: Address|
        records_of(after).contains_key(address) <==> #[trigger] records_of(entries).insert(
            entry.address,
            entry.record@,
        ).contains_key(address) by {
        if occurs(after, address) {
            let k = index_of(after, address);
            assert(entries[k].address == address);
        }
        if occurs(entries, address) {
            let k = index_of(entries, address);
            assert(after[k].address == address);
        }
    }
    assert forall|address: Address| #[trigger]
        records_of(after).contains_key(address) implies records_of(after)[address]
        == records_of(entries).insert(entry.address, entry.record@)[address] by {
        if address != entry.address {
            let k = index_of(entries, address);
            assert(occurs(entries, address));
            assert(after[k] == entries[k]);
            lemma_entry_found(after, k);
        }
    }
    assert(records_of(after) =~= records_of(entries).insert(entry.address, entry.record@));
}

proof fn lemma_entry_removed(entries: Seq<Entry>, i: int)
    requires
        distinct(entries),
        0 <= i < entries.len(),
    ensures
        distinct(entries.remove(i)),
        records_of(entries.remove(i)) == records_of(entries).remove(entries[i].address),
{
    let after = entries.remove(i);
    let gone = entries[i].address;
    assert forall|k: int| 0 <= k < after.len() implies #[trigger] after[k] == entries[if k < i {
        k
    } else {
        k + 1
    }] by {}
    assert(distinct(after)) by {
        assert forall|a: int, b: int| 0 <= a < b < after.len() implies (#[trigger] after[a]).address
            != (#[trigger] after[b]).address by {
            let a0 = if a < i { a } else { a + 1 };
            let b0 = if b < i { b } else { b + 1 };
            assert(after[a] == entries[a0]);
            assert(after[b] == entries[b0]);
            assert(entries[a0].address != entries[b0].address);
        }
    }
    assert forall|address: Address|
        records_of(after).contains_key(address) <==> #[trigger] records_of(entries).remove(
            gone,
        ).contains_key(address) by {
        if occurs(after, address) {
            let k = index_of(after, address);
            let k0 = if k < i { k } else { k + 1 };
            assert(after[k] == entries[k0]);
            assert(entries[k0].address == address);
            if address == gone {
                if k0 < i {
                    assert(entries[k0].address != entries[i].address);
                } else {
                    assert(entries[i].address != entries[k0].address);
                }
            }
        }
        if occurs(entries, address) && address != gone {
            let k = index_of(entries, address);
            let k1 = if k < i { k } else { k - 1 };
            assert(after[k1] == entries[k]);
            assert(after[k1].address == address);
        }
    }
    assert forall|address: Address| #[trigger]
        records_of(after).contains_key(address) implies records_of(after)[address]
        == records_of(entries).remove(gone)[address] by {
        let k = index_of(after, address);
        let k0 = if k < i { k } else { k + 1 };
        assert(after[k] == entries[k0]);
        lemma_entry_found(entries, k0);
    }
    assert(records_of(after) =~= records_of(entries).remove(gone));
}

impl View for Ledger {
    type V = LedgerView;

    closed spec fn view(&self) -> LedgerView {
        LedgerView {
            program: self.program,
            fixed: self.fixed,
            finalizer: self.finalizer,
            records: records_of(self.entries@),
        }
    }
}

impl Ledger {
    /// Whether the store is in order: no two records share an address.
    pub closed spec fn wf(&self) -> bool {
        distinct(self.entries@)
    }

    /// An empty ledger for a program, with the fixed addresses as given.
    pub fn with_addresses(program: Address, fixed: FixedAddresses, finalizer: Finalizer) -> (ledger:
        Ledger)
        ensures
            ledger.wf(),
            ledger@ == (LedgerView { program, fixed, finalizer, records: Map::empty() }),
    {
        let ledger = Ledger { program, fixed, finalizer, entries: Vec::new() };
        proof {
            assert(records_of(ledger.entries@) =~= Map::empty());
        }
        ledger
    }

    /// An empty ledger for a program, with its fixed addresses derived. Fails
    /// with `NoValidNonce` where one of them cannot be derived.
    pub fn new(program: Address, finalizer: Finalizer) -> (made: Result<Ledger, VoteError>)
        ensures
            match made {
                Ok(ledger) => ledger.wf() && derived_fixed(program) is Some && ledger@ == (
                LedgerView {
                    program,
                    fixed: derived_fixed(program)->0,
                    finalizer,
                    records: Map::empty(),
                }),
                Err(error) => derived_fixed(program) is None && error == VoteError::NoValidNonce,
            },
    {
        match derive_fixed(&program) {
            Some(fixed) => Ok(Ledger::with_addresses(program, fixed, finalizer)),
            None => Err(VoteError::NoValidNonce),
        }
    }

    /// The program whose records these are.
    pub fn program(&self) -> (program: Address)
        ensures
            program == self@.program,
    {
        self.program
    }

    /// The fixed addresses.
    pub fn fixed(&self) -> (fixed: FixedAddresses)
        ensures
            fixed == self@.fixed,
    {
        self.fixed
    }

    /// Who may finalize a proposal.
    pub fn finalizer(&self) -> (finalizer: Finalizer)
        ensures
            finalizer == self@.finalizer,
    {
        self.finalizer
    }

    fn position(&self, address: &Address) -> (place: Option<usize>)
        ensures
            match place {
                Some(i) => i < self.entries@.len() && self.entries@[i as int].address == *address,
                None => !occurs(self.entries@, *address),
            },
    {
        let mut i: usize = 0;
        while i < self.entries.len()
            invariant
                i <= self.entries@.len(),
                forall|j: int| 0 <= j < i ==> (#[trigger] self.entries@[j]).address != *address,
            decreases self.entries@.len() - i,
        {
            if self.entries[i].address.same(address) {
                return Some(i);
            }
            i += 1;
        }
        None
    }

    /// The record at `address`, if there is one.
    pub fn get(&self, address: &Address) -> (found: Option<&Record>)
        requires
            self.wf(),
        ensures
            match found {
                Some(record) => self@.records.contains_key(*address) && self@.records[*address]
                    == record@,
                None => !self@.records.contains_key(*address),
            },
    {
        match self.position(address) {
            Some(i) => {
                proof {
                    lemma_entry_found(self.entries@, i as int);
                }
                Some(&self.entries[i].record)
            },
            None => None,
        }
    }

    /// Whether a record is kept at `address`.
    pub fn contains(&self, address: &Address) -> (held: bool)
        requires
            self.wf(),
        ensures
            held == self@.records.contains_key(*address),
    {
        self.get(address).is_some()
    }

    /// Puts `record` at `address`, in place of what was there.
    pub fn put(&mut self, address: Address, record: Record)
        requires
            old(self).wf(),
        ensures
            final(self).wf(),
            final(self)@ == old(self)@.with_record(address, record@),
    {
        let entry = Entry { address, record };
        match self.position(&address) {
            Some(i) => {
                proof {
                    lemma_entry_replaced(self.entries@, i as int, entry);
                }
                self.entries.set(i, entry);
            },
            None => {
                proof {
                    lemma_entry_added(self.entries@, entry);
                }
                self.entries.push(entry);
            },
        }
    }

    /// Takes away the record at `address`, if there is one.
    pub fn remove(&mut self, address: &Address)
        requires
            old(self).wf(),
        ensures
            final(self).wf(),
            final(self)@ == old(self)@.without_record(*address),
    {
        match self.position(address) {
            Some(i) => {
                proof {
                    lemma_entry_removed(self.entries@, i as int);
                }
                self.entries.remove(i);
            },
            None => {
                proof {
                    assert(records_of(self.entries@).remove(*address) =~= records_of(
                        self.entries@,
                    ));
                }
            },
        }
    }

    /// The number of records.
    pub fn len(&self) -> (count: usize)
        requires
            self.wf(),
        ensures
            count == self@.records.len(),
            self@.records.dom().finite(),
    {
        proof {
            lemma_count(self.entries@);
        }
        self.entries.len()
    }

    /// The treasury's configuration.
    pub fn treasury(&self) -> (loaded: Result<TreasuryConfig, VoteError>)
        requires
            self.wf(),
        ensures
            loaded == self@.load_treasury(),
    {
        match self.get(&self.fixed.treasury_config) {
            None => Err(VoteError::RecordNotFound),
            Some(Record::Treasury(config)) => Ok(*config),
            Some(_) => Err(VoteError::TypeMismatch),
        }
    }

    /// The proposal counter.
    pub fn counter(&self) -> (loaded: Result<ProposalCounter, VoteError>)
        requires
            self.wf(),
        ensures
            loaded == self@.load_counter(),
    {
        match self.get(&self.fixed.proposal_counter) {
            None => Err(VoteError::RecordNotFound),
            Some(Record::Counter(counter)) => Ok(*counter),
            Some(_) => Err(VoteError::TypeMismatch),
        }
    }

    /// The voter record at `address`.
    pub fn voter_at(&self, address: &Address) -> (loaded: Result<Voter, VoteError>)
        requires
            self.wf(),
        ensures
            loaded == self@.load_voter(*address),
    {
        match self.get(address) {
            None => Err(VoteError::RecordNotFound),
            Some(Record::Voter(voter)) => Ok(*voter),
            Some(_) => Err(VoteError::TypeMismatch),
        }
    }

    /// The proposal at `address`.
    pub fn proposal_at(&self, address: &Address) -> (loaded: Result<&Proposal, VoteError>)
        requires
            self.wf(),
        ensures
            match loaded {
                Ok(proposal) => self@.load_proposal(*address) == Ok::<ProposalView, VoteError>(
                    proposal@,
                ),
                Err(error) => self@.load_proposal(*address) == Err::<ProposalView, VoteError>(
                    error,
                ),
            },
    {
        match self.get(address) {
            None => Err(VoteError::RecordNotFound),
            Some(Record::Proposal(proposal)) => Ok(proposal),
            Some(_) => Err(VoteError::TypeMismatch),
        }
    }

    /// The winner, if one is recorded.
    pub fn winner(&self) -> (loaded: Result<Option<&Winner>, VoteError>)
        requires
            self.wf(),
        ensures
            match loaded {
                Ok(Some(winner)) => self@.load_winner() == Ok::<Option<WinnerView>, VoteError>(
                    Some(winner@),
                ),
                Ok(None) => self@.load_winner() == Ok::<Option<WinnerView>, VoteError>(None),
                Err(error) => self@.load_winner() == Err::<Option<WinnerView>, VoteError>(error),
            },
    {
        match self.get(&self.fixed.winner) {
            None => Ok(None),
            Some(Record::Winner(winner)) => Ok(Some(winner)),
            Some(_) => Err(VoteError::TypeMismatch),
        }
    }
}

impl Clone for Ledger {
    /// A copy of the ledger, which holds the same records.
    fn clone(&self) -> (copy: Ledger)
        ensures
            self.wf() ==> copy.wf() && copy@ == self@,
    {
        let mut entries: Vec<Entry> = Vec::new();
        let mut i: usize = 0;
        while i < self.entries.len()
            invariant
                i <= self.entries@.len(),
                entries@.len() == i,
                forall|j: int|
                    0 <= j < i ==> (#[trigger] entries@[j]).address == self.entries@[j].address
                        && entries@[j].record@ == self.entries@[j].record@,
            decreases self.entries@.len() - i,
        {
            let entry = Entry {
                address: self.entries[i].address,
                record: self.entries[i].record.clone(),
            };
            entries.push(entry);
            i += 1;
        }
        proof {
            if self.wf() {
                lemma_same_records(self.entries@, entries@);
            }
        }
        Ledger { program: self.program, fixed: self.fixed, finalizer: self.finalizer, entries }
    }
}

proof fn lemma_same_records(entries: Seq<Entry>, copies: Seq<Entry>)
    requires
        distinct(entries),
        copies.len() == entries.len(),
        forall|j: int|
            0 <= j < entries.len() ==> (#[trigger] copies[j]).address == entries[j].address
                && copies[j].record@ == entries[j].record@,
    ensures
        distinct(copies),
        records_of(copies) == records_of(entries),
{
    assert forall|i: int, j: int| 0 <= i < j < copies.len() implies (#[trigger] copies[i]).address
        != (#[trigger] copies[j]).address by {
        assert(entries[i].address != entries[j].address);
    }
    assert forall|address: Address|
        records_of(copies).contains_key(address) <==> #[trigger] records_of(entries).contains_key(
            address,
        ) by {
        if occurs(copies, address) {
            let k = index_of(copies, address);
            assert(entries[k].address == address);
        }
        if occurs(entries, address) {
            let k = index_of(entries, address);
            assert(copies[k].address == address);
        }
    }
    assert forall|address: Address| #[trigger]
        records_of(copies).contains_key(address) implies records_of(copies)[address] == records_of(
        entries,
    )[address] by {
        let k = index_of(copies, address);
        assert(entries[k].address == address);
        lemma_entry_found(entries, k);
    }
    assert(records_of(copies) =~= records_of(entries));
}

proof fn lemma_count(entries: Seq<Entry>)
    requires
        distinct(entries),
    ensures
        records_of(entries).dom().finite(),
        records_of(entries).len() == entries.len(),
    decreases entries.len(),
{
    if entries.len() == 0 {
        assert(records_of(entries) =~= Map::empty());
    } else {
        let last = entries.last();
        let front = entries.drop_last();
        assert(distinct(front)) by {
            assert forall|i: int, j: int| 0 <= i < j < front.len() implies (
            #[trigger] front[i]).address != (#[trigger] front[j]).address by {
                assert(entries[i].address != entries[j].address);
            }
        }
        assert(!occurs(front, last.address)) by {
            if occurs(front, last.address) {
                let k = index_of(front, last.address);
                assert(entries[k].address != entries[entries.len() - 1].address);
            }
        }
        lemma_count(front);
        lemma_entry_added(front, last);
        assert(front.push(last) =~= entries);
    }
}

} // verus!
