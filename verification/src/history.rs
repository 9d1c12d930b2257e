//! Whole histories of a contract: requests made one after the other while the clock moves on,
//! and what holds of the record after any of them.

use crate::error::VestingError;
use crate::laws::{
    law_admin_release_keeps_valid, law_available_within_remainder, law_pause_keeps_valid,
    law_unpause_keeps_valid, law_valid_as_time_passes, law_withdraw_keeps_valid,
};
use crate::schedule::{Amount, Time, VestingRecord};
use vstd::prelude::*;

verus! {

/// A request to the engine.
pub enum Operation {
    Pause,
    Unpause,
    Withdraw { amount: Amount },
    AdminRelease,
}

/// A request, and what the clock reads when it is made.
pub struct Event {
    pub at: Time,
    pub operation: Operation,
}

impl VestingRecord {
    /// Whether the engine grants the request.
    pub open spec fn grants(self, event: Event) -> bool {
        match event.operation {
            Operation::Pause => self.pause_step(event.at) is Ok,
            Operation::Unpause => self.unpause_step(event.at) is Ok,
            Operation::Withdraw { amount } => self.withdraw_step(event.at, amount) is Ok,
            Operation::AdminRelease => self.admin_release_step(event.at) is Ok,
        }
    }

    /// The record after the request: the next record if it is granted, the same if not.
    pub open spec fn after(self, event: Event) -> VestingRecord {
        match event.operation {
            Operation::Pause => match self.pause_step(event.at) {
                Ok(next) => next,
                Err(_) => self,
            },
            Operation::Unpause => match self.unpause_step(event.at) {
                Ok(next) => next,
                Err(_) => self,
            },
            Operation::Withdraw { amount } => match self.withdraw_step(event.at, amount) {
                Ok(next) => next,
                Err(_) => self,
            },
            Operation::AdminRelease => match self.admin_release_step(event.at) {
                Ok((next, _)) => next,
                Err(_) => self,
            },
        }
    }

    /// The record after all the requests, in turn.
    pub open spec fn after_all(self, events: Seq<Event>) -> VestingRecord
        decreases events.len(),
    {
        if events.len() == 0 {
            self
        } else {
            self.after_all(events.drop_last()).after(events.last())
        }
    }

    /// The stamp that the latest pause has after all the requests: the instant of the last
    /// request to pause that was granted, and the stamp from before if there was none.
    pub open spec fn latest_pause(self, events: Seq<Event>) -> Time
        decreases events.len(),
    {
        if events.len() == 0 {
            self.last_pause_timestamp
        } else if events.last().operation is Pause && self.after_all(events.drop_last()).grants(
            events.last(),
        ) {
            events.last().at
        } else {
            self.latest_pause(events.drop_last())
        }
    }

    /// Whether two records have the same policy.
    pub open spec fn same_policy(self, other: VestingRecord) -> bool {
        &&& self.cliff_timestamp == other.cliff_timestamp
        &&& self.cliff_amount == other.cliff_amount
        &&& self.drip_duration == other.drip_duration
        &&& self.drip_amount == other.drip_amount
        &&& self.total_amount == other.total_amount
        &&& self.admin_release_duration == other.admin_release_duration
    }
}

/// Whether the clock, which read `start` at first, never ran backwards from one request to
/// the next.
pub open spec fn clock_runs_forward(start: Time, events: Seq<Event>) -> bool {
    &&& forall|i: int| 0 <= i < events.len() ==> start <= #[trigger] events[i].at
    &&& forall|i: int, j: int|
        0 <= i <= j < events.len() ==> (#[trigger] events[i]).at <= (#[trigger] events[j]).at
}

/// What the clock reads after the last request.
pub open spec fn last_reading(start: Time, events: Seq<Event>) -> Time {
    if events.len() == 0 {
        start
    } else {
        events.last().at
    }
}

/// One request, granted or not, keeps a valid record valid and the policy as it is; it
/// takes nothing back that was released and shortens no pause.
pub proof fn law_event_keeps_valid(record: VestingRecord, event: Event)
    requires
        record.valid_at(event.at as int),
    ensures
        record.after(event).valid_at(event.at as int),
        record.after(event).same_policy(record),
        record.after(event).released_amount >= record.released_amount,
        record.after(event).on_pause_duration >= record.on_pause_duration,
        !record.grants(event) ==> record.after(event) == record,
{
    match event.operation {
        Operation::Pause => law_pause_keeps_valid(record, event.at),
        Operation::Unpause => law_unpause_keeps_valid(record, event.at),
        Operation::Withdraw { amount } => law_withdraw_keeps_valid(record, event.at, amount),
        Operation::AdminRelease => law_admin_release_keeps_valid(record, event.at),
    }
}

/// Whatever is asked of a contract, in whatever order, while its clock does not run
/// backwards: the record stays valid, so never more is released than the total and never
/// more is available than remains; the policy stays as it was created; what was released
/// and the sum of the ended pauses never go down; and the stamp of the latest pause is
/// written by a granted pause and by nothing else.
pub proof fn law_every_history_is_valid(record: VestingRecord, start: Time, events: Seq<Event>)
    requires
        record.valid_at(start as int),
        clock_runs_forward(start, events),
    ensures
        record.after_all(events).valid_at(last_reading(start, events) as int),
        record.after_all(events).released_amount <= record.after_all(events).total_amount,
        0 <= record.after_all(events).available(last_reading(start, events) as int)
            <= record.after_all(events).remainder(),
        record.after_all(events).same_policy(record),
        record.after_all(events).released_amount >= record.released_amount,
        record.after_all(events).on_pause_duration >= record.on_pause_duration,
        record.after_all(events).last_pause_timestamp == record.latest_pause(events),
    decreases events.len(),
{
    if events.len() > 0 {
        let earlier = events.drop_last();
        let event = events.last();
        assert(clock_runs_forward(start, earlier)) by {
            assert forall|i: int| 0 <= i < earlier.len() implies start
                <= #[trigger] earlier[i].at by {
                assert(earlier[i] == events[i]);
            }
            assert forall|i: int, j: int| 0 <= i <= j < earlier.len() implies (
            #[trigger] earlier[i]).at <= (#[trigger] earlier[j]).at by {
                assert(earlier[i] == events[i]);
                assert(earlier[j] == events[j]);
            }
        }
        law_every_history_is_valid(record, start, earlier);
        let before = record.after_all(earlier);
        assert(last_reading(start, earlier) <= event.at) by {
            if earlier.len() > 0 {
                assert(earlier.last() == events[events.len() - 2]);
                assert(event == events[events.len() - 1]);
            } else {
                assert(event == events[0]);
            }
        }
        law_valid_as_time_passes(before, last_reading(start, earlier), event.at);
        law_event_keeps_valid(before, event);
    }
    law_available_within_remainder(
        record.after_all(events),
        last_reading(start, events) as int,
    );
}

/// A request that is refused changes nothing, whatever the reason.
pub proof fn law_refusal_changes_nothing(record: VestingRecord, event: Event)
    requires
        !record.grants(event),
    ensures
        record.after(event) == record,
{
}

/// The reasons for which each request is refused, and no others.
pub proof fn law_reasons_of_refusal(record: VestingRecord, now: Time, amount: Amount)
    ensures
        record.pause_step(now) matches Err(e) ==> e == VestingError::AlreadyPaused,
        record.unpause_step(now) matches Err(e) ==> e == VestingError::AlreadyUnpaused,
        record.withdraw_step(now, amount) matches Err(e) ==> e == VestingError::NotEnoughBalance,
        record.admin_release_step(now) matches Err(e) ==> {
            ||| e == VestingError::AdminReleaseErrorNotPaused
            ||| e == VestingError::AdminReleaseErrorNotEnoughTimeElapsed
            ||| e == VestingError::AdminReleaseErrorNothingToWithdraw
        },
{
}

} // verus!
