//! The ledger: every record of the service, each at its own address.
//!
//! The model of a ledger is the sequence of its entries, in the order in
//! which their addresses were first written. No address occurs twice, so the
//! sequence reads as a map from addresses to records: [`record_at`] looks a
//! record up and [`put`] writes one.

use crate::address::Address;
use crate::state::{PoolAccount, Record, StateAccount, UserPoolAccount};
use vstd::prelude::*;

verus! {

/// A record and the address at which it stands.
#[derive(Clone, Copy, Debug, PartialEq, Eq)]
pub struct Entry {
    pub address: Address,
    pub record: Record,
}

/// A record stands at `address`.
pub open spec fn holds(s: Seq<Entry>, address: Address) -> bool {
    exists|i: int| 0 <= i < s.len() && (#[trigger] s[i]).address == address
}

/// The place in `s` of the entry at `address`, where there is one.
pub open spec fn slot_of(s: Seq<Entry>, address: Address) -> int {
    choose|i: int| 0 <= i < s.len() && (#[trigger] s[i]).address == address
}

/// The record that stands at `address`, if any.
pub open spec fn record_at(s: Seq<Entry>, address: Address) -> Option<Record> {
    if holds(s, address) {
        Some(s[slot_of(s, address)].record)
    } else {
        None
    }
}

/// The authority record at `address`, if one stands there.
pub open spec fn state_at(s: Seq<Entry>, address: Address) -> Option<StateAccount> {
    match record_at(s, address) {
        Some(Record::State(state)) => Some(state),
        _ => None,
    }
}

/// The pool at `address`, if one stands there.
pub open spec fn pool_at(s: Seq<Entry>, address: Address) -> Option<PoolAccount> {
    match record_at(s, address) {
        Some(Record::Pool(pool)) => Some(pool),
        _ => None,
    }
}

/// The position at `address`, if one stands there.
pub open spec fn position_at(s: Seq<Entry>, address: Address) -> Option<UserPoolAccount> {
    match record_at(s, address) {
        Some(Record::UserPool(position)) => Some(position),
        _ => None,
    }
}

/// `s` with `record` written at `address`: in place of the record that stood
/// there, or else as a new last entry.
pub open spec fn put(s: Seq<Entry>, address: Address, record: Record) -> Seq<Entry> {
    if holds(s, address) {
        s.update(slot_of(s, address), Entry { address, record })
    } else {
        s.push(Entry { address, record })
    }
}

/// No address occurs twice.
pub open spec fn distinct(s: Seq<Entry>) -> bool {
    forall|i: int, j: int|
        0 <= i < j < s.len() ==> (#[trigger] s[i]).address != (#[trigger] s[j]).address
}

/// What `record` adds to the deposits of the pool at `pool`: its amount if it
/// is a position in that pool, and nothing otherwise.
pub open spec fn deposited(record: Record, pool: Address) -> nat {
    match record {
        Record::UserPool(position) => if position.pool == pool {
            position.amount as nat
        } else {
            0
        },
        _ => 0,
    }
}

/// The sum of the amounts of all positions in the pool at `pool`.
pub open spec fn positions_total(s: Seq<Entry>, pool: Address) -> nat
    decreases s.len(),
{
    if s.len() == 0 {
        0
    } else {
        positions_total(s.drop_last(), pool) + deposited(s.last().record, pool)
    }
}

/// What holds of the record at `address` in a well-formed ledger: a pool is
/// well formed and its total is the sum of its positions; a position is in a
/// pool of the ledger and holds nothing or that pool's accepted amount.
pub open spec fn record_well_formed(s: Seq<Entry>, address: Address) -> bool {
    match record_at(s, address) {
        Some(Record::Pool(pool)) => {
            &&& pool.well_formed()
            &&& pool.total_amount == positions_total(s, address)
        },
        Some(Record::UserPool(position)) => {
            &&& pool_at(s, position.pool) is Some
            &&& position.amount == 0 || position.amount == pool_at(
                s,
                position.pool,
            ).unwrap().accepted_amount
        },
        _ => true,
    }
}

/// The invariant of the ledger.
pub open spec fn well_formed(s: Seq<Entry>) -> bool {
    &&& distinct(s)
    &&& forall|address: Address| #[trigger] record_well_formed(s, address)
}

/// In a ledger without repeated addresses, an entry is what `record_at` finds at
/// its address.
pub proof fn record_at_entry(s: Seq<Entry>, i: int)
    requires
        distinct(s),
        0 <= i < s.len(),
    ensures
        holds(s, s[i].address),
        slot_of(s, s[i].address) == i,
        record_at(s, s[i].address) == Some(s[i].record),
{
}

/// Reading after `put`: the record written is found at its address, and every
/// other address holds what it held.
pub proof fn record_at_put(s: Seq<Entry>, address: Address, record: Record, other: Address)
    requires
        distinct(s),
    ensures
        distinct(put(s, address, record)),
        holds(put(s, address, record), other) == (other == address || holds(s, other)),
        record_at(put(s, address, record), other) == if other == address {
            Some(record)
        } else {
            record_at(s, other)
        },
{
    let t = put(s, address, record);
    if !holds(s, address) {
        assert(t[s.len() as int] == Entry { address, record });
    }
    assert(distinct(t));
    if holds(s, other) {
        assert(t[slot_of(s, other)].address == other);
    }
    if holds(t, other) {
        let k = slot_of(t, other);
        record_at_entry(t, k);
        if k < s.len() {
            record_at_entry(s, k);
        }
    }
}

/// Adding an entry adds what its record deposits.
pub proof fn positions_total_push(s: Seq<Entry>, entry: Entry, pool: Address)
    ensures
        positions_total(s.push(entry), pool) == positions_total(s, pool) + deposited(
            entry.record,
            pool,
        ),
{
    assert(s.push(entry).drop_last() =~= s);
}

/// Replacing an entry takes away what the old record deposited and adds what
/// the new one deposits.
pub proof fn positions_total_update(s: Seq<Entry>, i: int, entry: Entry, pool: Address)
    requires
        0 <= i < s.len(),
    ensures
        positions_total(s.update(i, entry), pool) + deposited(s[i].record, pool)
            == positions_total(s, pool) + deposited(entry.record, pool),
    decreases s.len(),
{
    let t = s.update(i, entry);
    if i == s.len() - 1 {
        assert(t.drop_last() =~= s.drop_last());
    } else {
        assert(t.drop_last() =~= s.drop_last().update(i, entry));
        positions_total_update(s.drop_last(), i, entry, pool);
    }
}

/// No position holds more than the total of its pool.
pub proof fn positions_total_bounds(s: Seq<Entry>, i: int, pool: Address)
    requires
        0 <= i < s.len(),
    ensures
        deposited(s[i].record, pool) <= positions_total(s, pool),
    decreases s.len(),
{
    if i < s.len() - 1 {
        positions_total_bounds(s.drop_last(), i, pool);
    }
}

/// A pool in which no record is a position has a total of nothing.
pub proof fn positions_total_none(s: Seq<Entry>, pool: Address)
    requires
        forall|i: int| 0 <= i < s.len() ==> deposited((#[trigger] s[i]).record, pool) == 0,
    ensures
        positions_total(s, pool) == 0,
    decreases s.len(),
{
    if s.len() > 0 {
        positions_total_none(s.drop_last(), pool);
    }
}

/// The total of a pool after `put`: what stood at the address no longer
/// counts, and what was written does.
pub proof fn positions_total_put(s: Seq<Entry>, address: Address, record: Record, pool: Address)
    ensures
        positions_total(put(s, address, record), pool) + (match record_at(s, address) {
            Some(old) => deposited(old, pool),
            None => 0,
        }) == positions_total(s, pool) + deposited(record, pool),
{
    let e = Entry { address, record };
    if holds(s, address) {
        positions_total_update(s, slot_of(s, address), e, pool);
    } else {
        positions_total_push(s, e, pool);
    }
}

/// What the position at `address` holds; nothing where no position stands
/// there.
pub open spec fn held(s: Seq<Entry>, address: Address) -> nat {
    match position_at(s, address) {
        Some(position) => position.amount as nat,
        None => 0,
    }
}

/// In a well-formed ledger the pool of every position is a pool of the
/// ledger, so an address without a pool is the pool of no position.
pub proof fn free_address_has_no_positions(s: Seq<Entry>, address: Address)
    requires
        well_formed(s),
        pool_at(s, address) is None,
    ensures
        positions_total(s, address) == 0,
{
    assert forall|i: int| 0 <= i < s.len() implies deposited((#[trigger] s[i]).record, address)
        == 0 by {
        record_at_entry(s, i);
        assert(record_well_formed(s, s[i].address));
    }
    positions_total_none(s, address);
}

/// A new authority record at a free address keeps the ledger well formed.
pub proof fn well_formed_with_state(s: Seq<Entry>, address: Address, state: StateAccount)
    requires
        well_formed(s),
        !holds(s, address),
    ensures
        well_formed(put(s, address, Record::State(state))),
{
    let record = Record::State(state);
    let t = put(s, address, record);
    record_at_put(s, address, record, address);
    assert forall|other: Address| #[trigger] record_well_formed(t, other) by {
        assert(record_well_formed(s, other));
        record_at_put(s, address, record, other);
        positions_total_put(s, address, record, other);
        match record_at(s, other) {
            Some(Record::UserPool(position)) => {
                record_at_put(s, address, record, position.pool);
            },
            _ => {},
        }
    }
}

/// A new pool without deposits at a free address keeps the ledger well
/// formed.
pub proof fn well_formed_with_pool(s: Seq<Entry>, address: Address, pool: PoolAccount)
    requires
        well_formed(s),
        !holds(s, address),
        pool.well_formed(),
        pool.total_amount == 0,
    ensures
        well_formed(put(s, address, Record::Pool(pool))),
{
    let record = Record::Pool(pool);
    let t = put(s, address, record);
    record_at_put(s, address, record, address);
    free_address_has_no_positions(s, address);
    assert forall|other: Address| #[trigger] record_well_formed(t, other) by {
        assert(record_well_formed(s, other));
        record_at_put(s, address, record, other);
        positions_total_put(s, address, record, other);
        match record_at(s, other) {
            Some(Record::UserPool(position)) => {
                record_at_put(s, address, record, position.pool);
            },
            _ => {},
        }
    }
}

/// Moving an amount between a pool's total and one of its positions keeps the
/// ledger well formed: the pool at `pool_address` becomes `pool`, and the
/// position at `position_address`, which is in that pool or new, becomes
/// `position`; the total changes as the position does.
pub proof fn well_formed_with_move(
    s: Seq<Entry>,
    pool_address: Address,
    pool: PoolAccount,
    position_address: Address,
    position: UserPoolAccount,
)
    requires
        well_formed(s),
        pool_at(s, pool_address) is Some,
        pool.well_formed(),
        pool.accepted_amount == pool_at(s, pool_address).unwrap().accepted_amount,
        position.pool == pool_address,
        match record_at(s, position_address) {
            None => true,
            Some(Record::UserPool(before)) => before.pool == pool_address,
            Some(_) => false,
        },
        position.amount == 0 || position.amount == pool.accepted_amount,
        pool.total_amount + held(s, position_address) == pool_at(
            s,
            pool_address,
        ).unwrap().total_amount + position.amount,
    ensures
        well_formed(
            put(
                put(s, pool_address, Record::Pool(pool)),
                position_address,
                Record::UserPool(position),
            ),
        ),
{
    let first = Record::Pool(pool);
    let second = Record::UserPool(position);
    let t = put(s, pool_address, first);
    let u = put(t, position_address, second);
    record_at_put(s, pool_address, first, pool_address);
    record_at_put(s, pool_address, first, position_address);
    record_at_put(t, position_address, second, position_address);
    record_at_put(t, position_address, second, pool_address);
    assert forall|other: Address| #[trigger] record_well_formed(u, other) by {
        assert(record_well_formed(s, other));
        record_at_put(s, pool_address, first, other);
        record_at_put(t, position_address, second, other);
        positions_total_put(s, pool_address, first, other);
        positions_total_put(t, position_address, second, other);
        match record_at(u, other) {
            Some(Record::UserPool(found)) => {
                record_at_put(s, pool_address, first, found.pool);
                record_at_put(t, position_address, second, found.pool);
                if other != position_address {
                    assert(record_well_formed(s, found.pool));
                }
            },
            _ => {},
        }
    }
}

/// A ledger without records is well formed.
pub proof fn empty_is_well_formed()
    ensures
        well_formed(Seq::<Entry>::empty()),
{
    let s = Seq::<Entry>::empty();
    assert forall|address: Address| #[trigger] record_well_formed(s, address) by {
        assert(!holds(s, address));
    }
}

fn slot_in(entries: &Vec<Entry>, address: &Address) -> (found: Option<usize>)
    requires
        distinct(entries@),
    ensures
        match found {
            Some(i) => holds(entries@, *address) && i == slot_of(entries@, *address) && i
                < entries@.len(),
            None => !holds(entries@, *address),
        },
{
    let mut i: usize = 0;
    while i < entries.len()
        invariant
            i <= entries.len(),
            distinct(entries@),
            forall|j: int| 0 <= j < i ==> (#[trigger] entries@[j]).address != *address,
        decreases entries.len() - i,
    {
        if entries[i].address == *address {
            proof {
                record_at_entry(entries@, i as int);
            }
            return Some(i);
        }
        i += 1;
    }
    None
}

fn write_entry(entries: &mut Vec<Entry>, address: Address, record: Record)
    requires
        distinct(old(entries)@),
    ensures
        final(entries)@ == put(old(entries)@, address, record),
        distinct(final(entries)@),
{
    proof {
        record_at_put(entries@, address, record, address);
    }
    match slot_in(entries, &address) {
        Some(i) => {
            entries[i] = Entry { address, record };
        },
        None => {
            entries.push(Entry { address, record });
        },
    }
}

/// The records of the service.
#[derive(Debug, PartialEq, Eq)]
pub struct Ledger {
    entries: Vec<Entry>,
}

impl View for Ledger {
    type V = Seq<Entry>;

    closed spec fn view(&self) -> Seq<Entry> {
        self.entries@
    }
}

impl Clone for Ledger {
    /// A ledger with the same records.
    fn clone(&self) -> (copy: Ledger)
        ensures
            copy@ == self@,
    {
        proof {
            use_type_invariant(self);
        }
        let mut entries: Vec<Entry> = Vec::new();
        let mut i: usize = 0;
        while i < self.entries.len()
            invariant
                i <= self.entries.len(),
                entries@ == self.entries@.take(i as int),
            decreases self.entries.len() - i,
        {
            entries.push(self.entries[i]);
            assert(self.entries@.take(i + 1) == self.entries@.take(i as int).push(
                self.entries@[i as int],
            ));
            i += 1;
        }
        assert(self.entries@.take(i as int) == self.entries@);
        Ledger { entries }
    }
}

impl Ledger {
    /// The invariant of the type: the model is well formed.
    #[verifier::type_invariant]
    pub open spec fn wf(&self) -> bool {
        well_formed(self@)
    }

    /// A ledger without records.
    pub fn new() -> (ledger: Ledger)
        ensures
            ledger@ == Seq::<Entry>::empty(),
    {
        proof {
            empty_is_well_formed();
        }
        Ledger { entries: Vec::new() }
    }

    /// The number of records.
    pub fn len(&self) -> (n: usize)
        ensures
            n == self@.len(),
    {
        self.entries.len()
    }

    /// The entry at the place `index`, for reading the ledger through; entries
    /// stand in the order in which their addresses were first written.
    pub fn entry(&self, index: usize) -> (found: Option<Entry>)
        ensures
            found == if index < self@.len() {
                Some(self@[index as int])
            } else {
                None::<Entry>
            },
    {
        if index < self.entries.len() {
            Some(self.entries[index])
        } else {
            None
        }
    }

    /// The record at `address`, if any.
    pub fn get(&self, address: &Address) -> (found: Option<Record>)
        ensures
            found == record_at(self@, *address),
    {
        proof {
            use_type_invariant(self);
        }
        match slot_in(&self.entries, address) {
            Some(i) => Some(self.entries[i].record),
            None => None,
        }
    }

    /// The authority record at `address`, if one stands there.
    pub fn state(&self, address: &Address) -> (found: Option<StateAccount>)
        ensures
            found == state_at(self@, *address),
    {
        match self.get(address) {
            Some(Record::State(state)) => Some(state),
            _ => None,
        }
    }

    /// The pool at `address`, if one stands there.
    pub fn pool(&self, address: &Address) -> (found: Option<PoolAccount>)
        ensures
            found == pool_at(self@, *address),
    {
        match self.get(address) {
            Some(Record::Pool(pool)) => Some(pool),
            _ => None,
        }
    }

    /// The position at `address`, if one stands there.
    pub fn user_pool(&self, address: &Address) -> (found: Option<UserPoolAccount>)
        ensures
            found == position_at(self@, *address),
    {
        match self.get(address) {
            Some(Record::UserPool(position)) => Some(position),
            _ => None,
        }
    }

    /// Writes `record` at `address`, where that keeps the ledger well formed.
    pub(crate) fn write(&mut self, address: Address, record: Record)
        requires
            well_formed(put(old(self)@, address, record)),
        ensures
            final(self)@ == put(old(self)@, address, record),
    {
        proof {
            use_type_invariant(&*self);
            empty_is_well_formed();
        }
        let mut entries: Vec<Entry> = Vec::new();
        std::mem::swap(&mut entries, &mut self.entries);
        write_entry(&mut entries, address, record);
        self.entries = entries;
    }

    /// Writes two records, where the two together keep the ledger well
    /// formed.
    pub(crate) fn write_both(
        &mut self,
        first_address: Address,
        first: Record,
        second_address: Address,
        second: Record,
    )
        requires
            well_formed(put(put(old(self)@, first_address, first), second_address, second)),
        ensures
            final(self)@ == put(
                put(old(self)@, first_address, first),
                second_address,
                second,
            ),
    {
        proof {
            use_type_invariant(&*self);
            empty_is_well_formed();
        }
        let mut entries: Vec<Entry> = Vec::new();
        std::mem::swap(&mut entries, &mut self.entries);
        write_entry(&mut entries, first_address, first);
        write_entry(&mut entries, second_address, second);
        self.entries = entries;
    }
}

} // verus!
