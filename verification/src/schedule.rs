//! The vesting record and the arithmetic of its schedule, as mathematics.
//!
//! The record is plain data. Its functions are ghost code: the engine states its contracts
//! over them, and the laws of the schedule are proved about them.

use crate::error::VestingError;
use vstd::prelude::*;

verus! {

/// A quantity of the escrowed asset.
pub type Amount = u64;

/// An instant, or a span between two instants, in the host's clock units.
pub type Time = u64;

/// The one record that a vesting contract keeps.
///
/// The first six fields are the policy, fixed when the contract is created. The last four
/// are the running state.
#[derive(PartialEq, Eq, Structural, Debug, Clone, Copy)]
pub struct VestingRecord {
    /// The instant at which the cliff unlocks, on a clock that never paused.
    pub cliff_timestamp: Time,
    /// What unlocks in one step at the cliff.
    pub cliff_amount: Amount,
    /// The span between two drips; zero switches drips off.
    pub drip_duration: Time,
    /// What unlocks with each completed drip.
    pub drip_amount: Amount,
    /// The ceiling on everything that is ever released.
    pub total_amount: Amount,
    /// How long a pause must have lasted before the administrator may reclaim.
    pub admin_release_duration: Time,
    /// Everything paid out so far.
    pub released_amount: Amount,
    /// Whether the schedule is paused.
    pub is_paused: bool,
    /// The instant of the latest pause.
    pub last_pause_timestamp: Time,
    /// The sum of all pauses that have ended.
    pub on_pause_duration: Time,
}

impl VestingRecord {
    /// The record of a contract that was just created with the given policy.
    pub open spec fn fresh(
        cliff_timestamp: Time,
        cliff_amount: Amount,
        drip_duration: Time,
        drip_amount: Amount,
        total_amount: Amount,
        admin_release_duration: Time,
    ) -> VestingRecord {
        VestingRecord {
            cliff_timestamp,
            cliff_amount,
            drip_duration,
            drip_amount,
            total_amount,
            admin_release_duration,
            released_amount: 0,
            is_paused: false,
            last_pause_timestamp: 0,
            on_pause_duration: 0,
        }
    }

    /// The length of the pause that is running at `now`; zero when none is.
    pub open spec fn running_pause(self, now: int) -> int {
        if self.is_paused {
            now - self.last_pause_timestamp
        } else {
            0
        }
    }

    /// All the time spent paused up to `now`: the pauses that ended and the one that runs.
    pub open spec fn total_paused(self, now: int) -> int {
        self.on_pause_duration + self.running_pause(now)
    }

    /// The instant at which the cliff really unlocks: the pauses push it back.
    pub open spec fn effective_cliff(self, now: int) -> int {
        self.cliff_timestamp + self.total_paused(now)
    }

    /// Whether the cliff has been reached at `now`.
    pub open spec fn cliff_reached(self, now: int) -> bool {
        self.effective_cliff(now) <= now
    }

    /// The number of drips completed at `now`, counted from the effective cliff.
    pub open spec fn drips(self, now: int) -> int {
        if self.drip_duration == 0 {
            0
        } else {
            (now - self.effective_cliff(now)) / (self.drip_duration as int)
        }
    }

    /// What the schedule alone would have unlocked at `now`, with no ceiling.
    pub open spec fn uncapped(self, now: int) -> int {
        self.cliff_amount + self.drip_amount * self.drips(now)
    }

    /// Everything that has unlocked at `now`, paid out or not: nothing before the cliff,
    /// and never more than the total.
    pub open spec fn accrued(self, now: int) -> int {
        if !self.cliff_reached(now) {
            0
        } else if self.uncapped(now) <= self.total_amount {
            self.uncapped(now)
        } else {
            self.total_amount as int
        }
    }

    /// What can be withdrawn at `now`: what has accrued and was not yet released. Once more
    /// has been released than the schedule has unlocked, which only a reclaim by the
    /// administrator brings about, nothing is available.
    pub open spec fn available(self, now: int) -> int {
        if self.accrued(now) >= self.released_amount {
            self.accrued(now) - self.released_amount
        } else {
            0
        }
    }

    /// What has not been released yet.
    pub open spec fn remainder(self) -> int {
        self.total_amount - self.released_amount
    }

    /// Whether the clock reading `now` is one that can follow the latest pause.
    pub open spec fn clock_agrees(self, now: int) -> bool {
        self.is_paused ==> self.last_pause_timestamp <= now
    }

    /// Whether the record is one that a contract can be in at `now`: no more was released
    /// than the total, the clock has not run backwards, and the time spent paused is no
    /// longer than the time that has passed.
    pub open spec fn valid_at(self, now: int) -> bool {
        &&& self.released_amount <= self.total_amount
        &&& self.clock_agrees(now)
        &&& if self.is_paused {
            self.on_pause_duration <= self.last_pause_timestamp
        } else {
            self.on_pause_duration <= now
        }
    }
}

/// The operations, as steps from one record to the next.
impl VestingRecord {
    /// The record once a pause has begun at `now`.
    pub open spec fn paused_at(self, now: Time) -> VestingRecord {
        VestingRecord { is_paused: true, last_pause_timestamp: now, ..self }
    }

    /// What a request to pause at `now` leads to.
    pub open spec fn pause_step(self, now: Time) -> Result<VestingRecord, VestingError> {
        if self.is_paused {
            Err(VestingError::AlreadyPaused)
        } else {
            Ok(self.paused_at(now))
        }
    }

    /// The record once the running pause has ended at `now`: its length joins the pauses
    /// that ended.
    pub open spec fn unpaused_at(self, now: Time) -> VestingRecord {
        VestingRecord {
            is_paused: false,
            on_pause_duration: (self.on_pause_duration + now - self.last_pause_timestamp) as Time,
            ..self
        }
    }

    /// What a request to end the pause at `now` leads to.
    pub open spec fn unpause_step(self, now: Time) -> Result<VestingRecord, VestingError> {
        if self.is_paused {
            Ok(self.unpaused_at(now))
        } else {
            Err(VestingError::AlreadyUnpaused)
        }
    }

    /// The record once `amount` more has been paid out.
    pub open spec fn withdrawn(self, amount: Amount) -> VestingRecord {
        VestingRecord { released_amount: (self.released_amount + amount) as Amount, ..self }
    }

    /// What a request to withdraw `amount` at `now` leads to.
    pub open spec fn withdraw_step(self, now: Time, amount: Amount) -> Result<
        VestingRecord,
        VestingError,
    > {
        if self.available(now as int) < amount {
            Err(VestingError::NotEnoughBalance)
        } else {
            Ok(self.withdrawn(amount))
        }
    }

    /// The record once the administrator has reclaimed the remainder.
    pub open spec fn reclaimed(self) -> VestingRecord {
        VestingRecord { released_amount: self.total_amount, ..self }
    }

    /// What a request of the administrator to reclaim at `now` leads to: the next record
    /// and the amount that goes to the administrator, or the first check that fails.
    pub open spec fn admin_release_step(self, now: Time) -> Result<
        (VestingRecord, Amount),
        VestingError,
    > {
        if !self.is_paused {
            Err(VestingError::AdminReleaseErrorNotPaused)
        } else if now - self.last_pause_timestamp < self.admin_release_duration {
            Err(VestingError::AdminReleaseErrorNotEnoughTimeElapsed)
        } else if self.total_amount == self.released_amount {
            Err(VestingError::AdminReleaseErrorNothingToWithdraw)
        } else {
            Ok((self.reclaimed(), (self.total_amount - self.released_amount) as Amount))
        }
    }
}

} // verus!
