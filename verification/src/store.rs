//! What a key-addressed store holds, as mathematics: three maps from names to values, one
//! for each kind of value, and the vesting record that lies in them under its ten names.

use crate::key;
use crate::schedule::{Amount, Time, VestingRecord};
use vstd::prelude::*;

verus! {

/// The contents of a store.
#[verifier::ext_equal]
pub struct Store {
    pub amounts: Map<Seq<char>, Amount>,
    pub times: Map<Seq<char>, Time>,
    pub booleans: Map<Seq<char>, bool>,
}

impl Store {
    /// A store that holds nothing.
    pub open spec fn empty() -> Store {
        Store { amounts: Map::empty(), times: Map::empty(), booleans: Map::empty() }
    }

    /// The store after `value` was written as an amount under `name`.
    pub open spec fn put_amount(self, name: Seq<char>, value: Amount) -> Store {
        Store { amounts: self.amounts.insert(name, value), ..self }
    }

    /// The store after `value` was written as a time under `name`.
    pub open spec fn put_time(self, name: Seq<char>, value: Time) -> Store {
        Store { times: self.times.insert(name, value), ..self }
    }

    /// The store after `value` was written as a flag under `name`.
    pub open spec fn put_boolean(self, name: Seq<char>, value: bool) -> Store {
        Store { booleans: self.booleans.insert(name, value), ..self }
    }

    /// Whether all ten fields of the record have been written.
    pub open spec fn holds_record(self) -> bool {
        &&& self.times.contains_key(key::CLIFF_TIMESTAMP@)
        &&& self.amounts.contains_key(key::CLIFF_AMOUNT@)
        &&& self.times.contains_key(key::DRIP_DURATION@)
        &&& self.amounts.contains_key(key::DRIP_AMOUNT@)
        &&& self.amounts.contains_key(key::TOTAL_AMOUNT@)
        &&& self.times.contains_key(key::ADMIN_RELEASE_DURATION@)
        &&& self.amounts.contains_key(key::RELEASED_AMOUNT@)
        &&& self.booleans.contains_key(key::PAUSE_FLAG@)
        &&& self.times.contains_key(key::LAST_PAUSE_TIMESTAMP@)
        &&& self.times.contains_key(key::ON_PAUSE_DURATION@)
    }

    /// The record that the store holds under the ten names.
    pub open spec fn record(self) -> VestingRecord {
        VestingRecord {
            cliff_timestamp: self.times[key::CLIFF_TIMESTAMP@],
            cliff_amount: self.amounts[key::CLIFF_AMOUNT@],
            drip_duration: self.times[key::DRIP_DURATION@],
            drip_amount: self.amounts[key::DRIP_AMOUNT@],
            total_amount: self.amounts[key::TOTAL_AMOUNT@],
            admin_release_duration: self.times[key::ADMIN_RELEASE_DURATION@],
            released_amount: self.amounts[key::RELEASED_AMOUNT@],
            is_paused: self.booleans[key::PAUSE_FLAG@],
            last_pause_timestamp: self.times[key::LAST_PAUSE_TIMESTAMP@],
            on_pause_duration: self.times[key::ON_PAUSE_DURATION@],
        }
    }

    /// The store after every field of `record` was written under its name. Whatever else
    /// the store holds stays as it was.
    pub open spec fn put_record(self, record: VestingRecord) -> Store {
        self.put_time(key::CLIFF_TIMESTAMP@, record.cliff_timestamp).put_amount(
            key::CLIFF_AMOUNT@,
            record.cliff_amount,
        ).put_time(key::DRIP_DURATION@, record.drip_duration).put_amount(
            key::DRIP_AMOUNT@,
            record.drip_amount,
        ).put_amount(key::TOTAL_AMOUNT@, record.total_amount).put_time(
            key::ADMIN_RELEASE_DURATION@,
            record.admin_release_duration,
        ).put_amount(key::RELEASED_AMOUNT@, record.released_amount).put_boolean(
            key::PAUSE_FLAG@,
            record.is_paused,
        ).put_time(key::ON_PAUSE_DURATION@, record.on_pause_duration).put_time(
            key::LAST_PAUSE_TIMESTAMP@,
            record.last_pause_timestamp,
        )
    }
}

/// A record that was written is the record that is read back.
pub proof fn lemma_put_record_reads_back(store: Store, record: VestingRecord)
    ensures
        store.put_record(record).holds_record(),
        store.put_record(record).record() == record,
{
    key::lemma_names_differ();
}

/// Writing one record and then another leaves what writing the second alone leaves.
pub proof fn lemma_put_record_twice(store: Store, first: VestingRecord, second: VestingRecord)
    ensures
        store.put_record(first).put_record(second) == store.put_record(second),
{
    key::lemma_names_differ();
    let a = store.put_record(first).put_record(second);
    let b = store.put_record(second);
    assert(a.amounts =~= b.amounts);
    assert(a.times =~= b.times);
    assert(a.booleans =~= b.booleans);
}

/// Beginning a pause writes two fields; the store is then the one that holds the paused
/// record.
pub proof fn lemma_put_pause(store: Store, now: Time)
    requires
        store.holds_record(),
    ensures
        store.put_time(key::LAST_PAUSE_TIMESTAMP@, now).put_boolean(key::PAUSE_FLAG@, true)
            == store.put_record(store.record().paused_at(now)),
{
    key::lemma_names_differ();
    let a = store.put_time(key::LAST_PAUSE_TIMESTAMP@, now).put_boolean(key::PAUSE_FLAG@, true);
    let b = store.put_record(store.record().paused_at(now));
    assert(a.amounts =~= b.amounts);
    assert(a.times =~= b.times);
    assert(a.booleans =~= b.booleans);
}

/// Ending a pause writes two fields; the store is then the one that holds the running
/// record.
pub proof fn lemma_put_unpause(store: Store, now: Time)
    requires
        store.holds_record(),
    ensures
        store.put_time(
            key::ON_PAUSE_DURATION@,
            store.record().unpaused_at(now).on_pause_duration,
        ).put_boolean(key::PAUSE_FLAG@, false) == store.put_record(
            store.record().unpaused_at(now),
        ),
{
    key::lemma_names_differ();
    let next = store.record().unpaused_at(now);
    let a = store.put_time(key::ON_PAUSE_DURATION@, next.on_pause_duration).put_boolean(
        key::PAUSE_FLAG@,
        false,
    );
    let b = store.put_record(next);
    assert(a.amounts =~= b.amounts);
    assert(a.times =~= b.times);
    assert(a.booleans =~= b.booleans);
}

/// A payout writes one field; the store is then the one that holds the record with that
/// much released.
pub proof fn lemma_put_released(store: Store, released: Amount)
    requires
        store.holds_record(),
    ensures
        store.put_amount(key::RELEASED_AMOUNT@, released) == store.put_record(
            VestingRecord { released_amount: released, ..store.record() },
        ),
{
    key::lemma_names_differ();
    let a = store.put_amount(key::RELEASED_AMOUNT@, released);
    let b = store.put_record(VestingRecord { released_amount: released, ..store.record() });
    assert(a.amounts =~= b.amounts);
    assert(a.times =~= b.times);
    assert(a.booleans =~= b.booleans);
}

} // verus!
