//! A vesting contract held in memory: the record in named fields, and a clock that its owner
//! sets.

use crate::key;
use crate::schedule::{Amount, Time, VestingRecord};
use crate::store::Store;
use crate::vesting::VestingTrait;
use vstd::prelude::*;
use vstd::string::StringSliceAdditionalSpecFns;
use vstd::utf8::encode_utf8_decode_utf8;

verus! {

/// Whether two names are the same: they are when their bytes are.
fn same_name(a: &str, b: &str) -> (same: bool)
    ensures
        same == (a@ == b@),
{
    let left = a.as_bytes();
    let right = b.as_bytes();
    proof {
        encode_utf8_decode_utf8(a@);
        encode_utf8_decode_utf8(b@);
    }
    if left.len() != right.len() {
        return false;
    }
    let mut i: usize = 0;
    while i < left.len()
        invariant
            0 <= i <= left.len(),
            left.len() == right.len(),
            left@ == a.spec_bytes(),
            right@ == b.spec_bytes(),
            forall|j: int| 0 <= j < i ==> left@[j] == right@[j],
        decreases left.len() - i,
    {
        if left[i] != right[i] {
            return false;
        }
        i = i + 1;
    }
    assert(left@ =~= right@);
    true
}

/// A vesting contract whose store is its own ten fields.
///
/// A host that keeps the record elsewhere reads it into one of these, lets the engine
/// decide, and writes the record back.
#[derive(PartialEq, Eq, Structural, Debug, Clone, Copy)]
pub struct VestingContract {
    /// The record.
    pub record: VestingRecord,
    /// What the clock reads.
    pub current_timestamp: Time,
}

impl VestingContract {
    /// A contract at instant zero whose policy is all zero: nothing ever unlocks.
    pub fn new() -> (contract: VestingContract)
        ensures
            contract.record == VestingRecord::fresh(0, 0, 0, 0, 0, 0),
            contract.store() == Store::empty().put_record(VestingRecord::fresh(0, 0, 0, 0, 0, 0)),
            contract.clock() == 0,
    {
        VestingContract {
            record: VestingRecord {
                cliff_timestamp: 0,
                cliff_amount: 0,
                drip_duration: 0,
                drip_amount: 0,
                total_amount: 0,
                admin_release_duration: 0,
                released_amount: 0,
                is_paused: false,
                last_pause_timestamp: 0,
                on_pause_duration: 0,
            },
            current_timestamp: 0,
        }
    }

    /// The store of such a contract holds the record, and nothing else.
    pub proof fn lemma_store_holds_record(self)
        ensures
            self.store().holds_record(),
            self.store().record() == self.record,
    {
        crate::store::lemma_put_record_reads_back(Store::empty(), self.record);
    }

    /// After an operation has written `next`, `next` is the record.
    pub proof fn lemma_record_after(self, after: VestingContract, next: VestingRecord)
        requires
            after.store() == self.store().put_record(next),
        ensures
            after.record == next,
    {
        crate::store::lemma_put_record_twice(Store::empty(), self.record, next);
        crate::store::lemma_put_record_reads_back(Store::empty(), next);
        crate::store::lemma_put_record_reads_back(Store::empty(), after.record);
    }

    /// After an operation has left the store alone, the record is as it was.
    pub proof fn lemma_record_kept(self, after: VestingContract)
        requires
            after.store() == self.store(),
        ensures
            after.record == self.record,
    {
        crate::store::lemma_put_record_reads_back(Store::empty(), self.record);
        crate::store::lemma_put_record_reads_back(Store::empty(), after.record);
    }

    /// Sets the clock.
    pub fn set_current_timestamp(&mut self, new_time: Time)
        ensures
            final(self).clock() == new_time,
            final(self).store() == old(self).store(),
    {
        self.current_timestamp = new_time;
    }
}

impl VestingTrait for VestingContract {
    open spec fn store(&self) -> Store {
        Store::empty().put_record(self.record)
    }

    open spec fn clock(&self) -> Time {
        self.current_timestamp
    }

    fn current_timestamp(&self) -> (now: Time) {
        self.current_timestamp
    }

    fn set_amount(&mut self, name: &str, value: Amount) {
        proof {
            key::lemma_names_differ();
        }
        if same_name(name, key::CLIFF_AMOUNT) {
            self.record.cliff_amount = value;
        } else if same_name(name, key::DRIP_AMOUNT) {
            self.record.drip_amount = value;
        } else if same_name(name, key::TOTAL_AMOUNT) {
            self.record.total_amount = value;
        } else {
            self.record.released_amount = value;
        }
        assert(self.store().amounts =~= old(self).store().put_amount(name@, value).amounts);
        assert(self.store().times =~= old(self).store().times);
        assert(self.store().booleans =~= old(self).store().booleans);
    }

    fn amount(&self, name: &str) -> (value: Amount) {
        proof {
            key::lemma_names_differ();
        }
        if same_name(name, key::CLIFF_AMOUNT) {
            self.record.cliff_amount
        } else if same_name(name, key::DRIP_AMOUNT) {
            self.record.drip_amount
        } else if same_name(name, key::TOTAL_AMOUNT) {
            self.record.total_amount
        } else {
            self.record.released_amount
        }
    }

    fn set_time(&mut self, name: &str, value: Time) {
        proof {
            key::lemma_names_differ();
        }
        if same_name(name, key::CLIFF_TIMESTAMP) {
            self.record.cliff_timestamp = value;
        } else if same_name(name, key::DRIP_DURATION) {
            self.record.drip_duration = value;
        } else if same_name(name, key::ADMIN_RELEASE_DURATION) {
            self.record.admin_release_duration = value;
        } else if same_name(name, key::ON_PAUSE_DURATION) {
            self.record.on_pause_duration = value;
        } else {
            self.record.last_pause_timestamp = value;
        }
        assert(self.store().times =~= old(self).store().put_time(name@, value).times);
        assert(self.store().amounts =~= old(self).store().amounts);
        assert(self.store().booleans =~= old(self).store().booleans);
    }

    fn time(&self, name: &str) -> (value: Time) {
        proof {
            key::lemma_names_differ();
        }
        if same_name(name, key::CLIFF_TIMESTAMP) {
            self.record.cliff_timestamp
        } else if same_name(name, key::DRIP_DURATION) {
            self.record.drip_duration
        } else if same_name(name, key::ADMIN_RELEASE_DURATION) {
            self.record.admin_release_duration
        } else if same_name(name, key::ON_PAUSE_DURATION) {
            self.record.on_pause_duration
        } else {
            self.record.last_pause_timestamp
        }
    }

    fn set_boolean(&mut self, name: &str, value: bool) {
        self.record.is_paused = value;
        assert(self.store().booleans =~= old(self).store().put_boolean(name@, value).booleans);
        assert(self.store().amounts =~= old(self).store().amounts);
        assert(self.store().times =~= old(self).store().times);
    }

    fn boolean(&self, name: &str) -> (value: bool) {
        self.record.is_paused
    }
}

} // verus!
