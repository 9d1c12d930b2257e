//! The vesting engine: the operations on the record, written once over any store and clock.

use crate::error::VestingError;
use crate::key;
use crate::schedule::{Amount, Time, VestingRecord};
use crate::store::{
    lemma_put_pause, lemma_put_record_reads_back, lemma_put_released, lemma_put_unpause, Store,
};
use vstd::prelude::*;

verus! {

/// `num_traits::Zero::zero` at `u64`: the additive identity of the type, which the crate
/// defines for each primitive integer as the literal `0`.
#[verifier::external_body]
pub(crate) fn zero() -> (z: u64)
    ensures
        z == 0,
{
    <u64 as num_traits::Zero>::zero()
}

/// The drips that fit into a span are at most the span, so what they unlock stays far
/// below the limit of the wide integers in which it is computed.
proof fn lemma_drips_fit(span: int, drip_duration: int, drip_amount: int)
    requires
        0 <= span <= u64::MAX,
        0 <= drip_duration,
        0 <= drip_amount <= u64::MAX,
    ensures
        drip_duration > 0 ==> 0 <= span / drip_duration <= span,
        drip_duration > 0 ==> 0 <= drip_amount * (span / drip_duration) <= u64::MAX
            * u64::MAX,
        drip_amount * 0 == 0,
{
    if drip_duration > 0 {
        let drips = span / drip_duration;
        assert(0 <= drips <= span) by (nonlinear_arith)
            requires
                drips == span / drip_duration,
                0 <= span,
                drip_duration > 0,
        ;
        assert(0 <= drip_amount * drips <= u64::MAX * u64::MAX) by (nonlinear_arith)
            requires
                0 <= drips <= u64::MAX,
                0 <= drip_amount <= u64::MAX,
        ;
    }
}

/// A vesting contract over a store and a clock.
///
/// An implementor supplies the clock and the six accessors of a key-addressed store, and
/// says with `store` and `clock` what they hold. The operations of the engine are provided:
/// they read and write the record under the names of [`key`] and decide by the functions of
/// [`VestingRecord`]. The engine authenticates nobody and moves no asset: a host does both
/// around it.
pub trait VestingTrait {
    /// What the store holds.
    spec fn store(&self) -> Store;

    /// What the clock reads. The clock is the host's: no operation moves it.
    spec fn clock(&self) -> Time;

    /// Reads the clock.
    fn current_timestamp(&self) -> (now: Time)
        ensures
            now == self.clock(),
    ;

    /// Writes an amount under one of the names that hold one.
    fn set_amount(&mut self, name: &str, value: Amount)
        requires
            key::is_amount_name(name@),
        ensures
            final(self).store() == old(self).store().put_amount(name@, value),
            final(self).clock() == old(self).clock(),
    ;

    /// Reads the amount under `name`, which must have been written.
    fn amount(&self, name: &str) -> (value: Amount)
        requires
            key::is_amount_name(name@),
            self.store().amounts.contains_key(name@),
        ensures
            value == self.store().amounts[name@],
    ;

    /// Writes a time under one of the names that hold one.
    fn set_time(&mut self, name: &str, value: Time)
        requires
            key::is_time_name(name@),
        ensures
            final(self).store() == old(self).store().put_time(name@, value),
            final(self).clock() == old(self).clock(),
    ;

    /// Reads the time under `name`, which must have been written.
    fn time(&self, name: &str) -> (value: Time)
        requires
            key::is_time_name(name@),
            self.store().times.contains_key(name@),
        ensures
            value == self.store().times[name@],
    ;

    /// Writes a flag under the name that holds one.
    fn set_boolean(&mut self, name: &str, value: bool)
        requires
            key::is_boolean_name(name@),
        ensures
            final(self).store() == old(self).store().put_boolean(name@, value),
            final(self).clock() == old(self).clock(),
    ;

    /// Reads the flag under `name`, which must have been written.
    fn boolean(&self, name: &str) -> (value: bool)
        requires
            key::is_boolean_name(name@),
            self.store().booleans.contains_key(name@),
        ensures
            value == self.store().booleans[name@],
    ;

    /// Creates the contract: writes the policy and a running state in which nothing was
    /// released and no pause ever happened. The policy is taken as it is given.
    fn init(
        &mut self,
        cliff_timestamp: Time,
        cliff_amount: Amount,
        drip_duration: Time,
        drip_amount: Amount,
        total_amount: Amount,
        admin_release_duration: Time,
    )
        ensures
            final(self).store() == old(self).store().put_record(
                VestingRecord::fresh(
                    cliff_timestamp,
                    cliff_amount,
                    drip_duration,
                    drip_amount,
                    total_amount,
                    admin_release_duration,
                ),
            ),
            final(self).store().holds_record(),
            final(self).store().record() == VestingRecord::fresh(
                cliff_timestamp,
                cliff_amount,
                drip_duration,
                drip_amount,
                total_amount,
                admin_release_duration,
            ),
            final(self).clock() == old(self).clock(),
    {
        proof {
            lemma_put_record_reads_back(
                old(self).store(),
                VestingRecord::fresh(
                    cliff_timestamp,
                    cliff_amount,
                    drip_duration,
                    drip_amount,
                    total_amount,
                    admin_release_duration,
                ),
            );
        }
        self.set_cliff_timestamp(cliff_timestamp);
        self.set_cliff_amount(cliff_amount);
        self.set_drip_duration(drip_duration);
        self.set_drip_amount(drip_amount);
        self.set_total_amount(total_amount);
        self.set_admin_release_duration(admin_release_duration);
        self.set_released_amount(zero());
        self.set_paused_flag(false);
        self.set_on_pause_duration(zero());
        self.set_last_pause_timestamp(zero());
    }

    /// Pauses the schedule at the clock's reading, unless it is paused already.
    fn pause(&mut self) -> (result: Result<(), VestingError>)
        requires
            old(self).store().holds_record(),
        ensures
            final(self).clock() == old(self).clock(),
            final(self).store().holds_record(),
            match old(self).store().record().pause_step(old(self).clock()) {
                Ok(next) => {
                    &&& result == Ok::<(), VestingError>(())
                    &&& final(self).store() == old(self).store().put_record(next)
                    &&& final(self).store().record() == next
                },
                Err(e) => {
                    &&& result == Err::<(), VestingError>(e)
                    &&& final(self).store() == old(self).store()
                },
            },
    {
        if !self.is_paused() {
            let now = self.current_timestamp();
            self.set_last_pause_timestamp(now);
            self.set_paused_flag(true);
            proof {
                lemma_put_pause(old(self).store(), now);
                lemma_put_record_reads_back(
                    old(self).store(),
                    old(self).store().record().paused_at(now),
                );
            }
            Ok(())
        } else {
            Err(VestingError::AlreadyPaused)
        }
    }

    /// Ends the pause at the clock's reading, unless the schedule is running. The clock
    /// must not read less than when the pause began, and the time spent paused must stay
    /// within `Time`.
    fn unpause(&mut self) -> (result: Result<(), VestingError>)
        requires
            old(self).store().holds_record(),
            old(self).store().record().clock_agrees(old(self).clock() as int),
            old(self).store().record().total_paused(old(self).clock() as int) <= Time::MAX,
        ensures
            final(self).clock() == old(self).clock(),
            final(self).store().holds_record(),
            match old(self).store().record().unpause_step(old(self).clock()) {
                Ok(next) => {
                    &&& result == Ok::<(), VestingError>(())
                    &&& final(self).store() == old(self).store().put_record(next)
                    &&& final(self).store().record() == next
                },
                Err(e) => {
                    &&& result == Err::<(), VestingError>(e)
                    &&& final(self).store() == old(self).store()
                },
            },
    {
        if self.is_paused() {
            let on_pause_duration = self.on_pause_duration();
            let last_pause_timestamp = self.last_pause_timestamp();
            let elapsed_timestamp = self.current_timestamp() - last_pause_timestamp;
            self.set_on_pause_duration(on_pause_duration + elapsed_timestamp);
            self.set_paused_flag(false);
            proof {
                lemma_put_unpause(old(self).store(), old(self).clock());
                lemma_put_record_reads_back(
                    old(self).store(),
                    old(self).store().record().unpaused_at(old(self).clock()),
                );
            }
            Ok(())
        } else {
            Err(VestingError::AlreadyUnpaused)
        }
    }

    /// What can be withdrawn at the clock's reading: what the schedule has unlocked, capped
    /// at the total, less what was released. The clock must not read less than when a
    /// running pause began.
    fn available_amount(&self) -> (available: Amount)
        requires
            self.store().holds_record(),
            self.store().record().clock_agrees(self.clock() as int),
        ensures
            available == self.store().record().available(self.clock() as int),
    {
        let current_timestamp: u128 = self.current_timestamp() as u128;
        let cliff_timestamp: u128 = self.cliff_timestamp() as u128;
        let running_pause: u128 = if self.is_paused() {
            current_timestamp - self.last_pause_timestamp() as u128
        } else {
            zero() as u128
        };
        let total_paused_duration: u128 = self.on_pause_duration() as u128 + running_pause;
        let cliff_timestamp_adjusted: u128 = cliff_timestamp + total_paused_duration;
        if current_timestamp < cliff_timestamp_adjusted {
            zero()
        } else {
            let drip_duration: Time = self.drip_duration();
            let time_diff: u128 = current_timestamp - cliff_timestamp_adjusted;
            let available_drips: u128 = if drip_duration == zero() {
                zero() as u128
            } else {
                time_diff / (drip_duration as u128)
            };
            let total_amount: Amount = self.total_amount();
            let drip_amount: Amount = self.drip_amount();
            let released_amount: Amount = self.released_amount();
            let cliff_amount: Amount = self.cliff_amount();
            proof {
                lemma_drips_fit(time_diff as int, drip_duration as int, drip_amount as int);
            }
            let counter: u128 = cliff_amount as u128 + drip_amount as u128 * available_drips;
            let accrued: Amount = if counter <= total_amount as u128 {
                counter as Amount
            } else {
                total_amount
            };
            if accrued >= released_amount {
                accrued - released_amount
            } else {
                zero()
            }
        }
    }

    /// Pays out `amount` if that much is available at the clock's reading; a pause does not
    /// stand in the way. The host then moves `amount` to the recipient.
    fn withdraw(&mut self, amount: Amount) -> (result: Result<(), VestingError>)
        requires
            old(self).store().holds_record(),
            old(self).store().record().clock_agrees(old(self).clock() as int),
        ensures
            final(self).clock() == old(self).clock(),
            final(self).store().holds_record(),
            match old(self).store().record().withdraw_step(old(self).clock(), amount) {
                Ok(next) => {
                    &&& result == Ok::<(), VestingError>(())
                    &&& final(self).store() == old(self).store().put_record(next)
                    &&& final(self).store().record() == next
                },
                Err(e) => {
                    &&& result == Err::<(), VestingError>(e)
                    &&& final(self).store() == old(self).store()
                },
            },
    {
        let available_amount: Amount = self.available_amount();
        if available_amount < amount {
            Err(VestingError::NotEnoughBalance)
        } else {
            let released_amount: Amount = self.released_amount();
            self.set_released_amount(released_amount + amount);
            proof {
                lemma_put_released(old(self).store(), (released_amount + amount) as Amount);
                lemma_put_record_reads_back(
                    old(self).store(),
                    old(self).store().record().withdrawn(amount),
                );
            }
            Ok(())
        }
    }

    /// Hands the remainder to the administrator: only while paused, only once the pause has
    /// lasted `admin_release_duration`, and only if anything is left. The checks are made
    /// in that order. On success everything counts as released, and the host moves the
    /// returned amount to the administrator. No more than the total may have been released.
    fn admin_release(&mut self) -> (result: Result<Amount, VestingError>)
        requires
            old(self).store().holds_record(),
            old(self).store().record().clock_agrees(old(self).clock() as int),
            old(self).store().record().released_amount
                <= old(self).store().record().total_amount,
        ensures
            final(self).clock() == old(self).clock(),
            final(self).store().holds_record(),
            match old(self).store().record().admin_release_step(old(self).clock()) {
                Ok((next, amount)) => {
                    &&& result == Ok::<Amount, VestingError>(amount)
                    &&& final(self).store() == old(self).store().put_record(next)
                    &&& final(self).store().record() == next
                },
                Err(e) => {
                    &&& result == Err::<Amount, VestingError>(e)
                    &&& final(self).store() == old(self).store()
                },
            },
    {
        if !self.is_paused() {
            return Err(VestingError::AdminReleaseErrorNotPaused);
        }
        let last_pause_timestamp: Time = self.last_pause_timestamp();
        let since_last_pause: Time = self.current_timestamp() - last_pause_timestamp;
        let required_wait_duration: Time = self.admin_release_duration();
        if since_last_pause < required_wait_duration {
            return Err(VestingError::AdminReleaseErrorNotEnoughTimeElapsed);
        }
        let total_amount: Amount = self.total_amount();
        let released_amount: Amount = self.released_amount();
        if total_amount == released_amount {
            return Err(VestingError::AdminReleaseErrorNothingToWithdraw);
        }
        let amount_to_withdraw: Amount = total_amount - released_amount;
        self.set_released_amount(total_amount);
        proof {
            lemma_put_released(old(self).store(), total_amount);
                lemma_put_record_reads_back(
                    old(self).store(),
                    old(self).store().record().reclaimed(),
                );
        }
        Ok(amount_to_withdraw)
    }

    /// All the time spent paused up to the clock's reading.
    fn total_paused_duration(&self) -> (duration: Time)
        requires
            self.store().holds_record(),
            self.store().record().clock_agrees(self.clock() as int),
            self.store().record().total_paused(self.clock() as int) <= Time::MAX,
        ensures
            duration == self.store().record().total_paused(self.clock() as int),
    {
        let running = if self.is_paused() {
            self.current_timestamp() - self.last_pause_timestamp()
        } else {
            zero()
        };
        self.on_pause_duration() + running
    }

    /// Whether the schedule is paused.
    fn is_paused(&self) -> (paused: bool)
        requires
            self.store().booleans.contains_key(key::PAUSE_FLAG@),
        ensures
            paused == self.store().booleans[key::PAUSE_FLAG@],
    {
        self.paused_flag()
    }

    /// Writes the field `cliff_timestamp`.
    fn set_cliff_timestamp(&mut self, cliff_timestamp: Time)
        ensures
            final(self).store() == old(self).store().put_time(
                key::CLIFF_TIMESTAMP@,
                cliff_timestamp,
            ),
            final(self).clock() == old(self).clock(),
    {
        self.set_time(key::CLIFF_TIMESTAMP, cliff_timestamp);
    }

    /// Reads the field `cliff_timestamp`.
    fn cliff_timestamp(&self) -> (value: Time)
        requires
            self.store().times.contains_key(key::CLIFF_TIMESTAMP@),
        ensures
            value == self.store().times[key::CLIFF_TIMESTAMP@],
    {
        self.time(key::CLIFF_TIMESTAMP)
    }

    /// Writes the field `cliff_amount`.
    fn set_cliff_amount(&mut self, cliff_amount: Amount)
        ensures
            final(self).store() == old(self).store().put_amount(key::CLIFF_AMOUNT@, cliff_amount),
            final(self).clock() == old(self).clock(),
    {
        self.set_amount(key::CLIFF_AMOUNT, cliff_amount);
    }

    /// Reads the field `cliff_amount`.
    fn cliff_amount(&self) -> (value: Amount)
        requires
            self.store().amounts.contains_key(key::CLIFF_AMOUNT@),
        ensures
            value == self.store().amounts[key::CLIFF_AMOUNT@],
    {
        self.amount(key::CLIFF_AMOUNT)
    }

    /// Writes the field `drip_duration`.
    fn set_drip_duration(&mut self, drip_duration: Time)
        ensures
            final(self).store() == old(self).store().put_time(key::DRIP_DURATION@, drip_duration),
            final(self).clock() == old(self).clock(),
    {
        self.set_time(key::DRIP_DURATION, drip_duration);
    }

    /// Reads the field `drip_duration`.
    fn drip_duration(&self) -> (value: Time)
        requires
            self.store().times.contains_key(key::DRIP_DURATION@),
        ensures
            value == self.store().times[key::DRIP_DURATION@],
    {
        self.time(key::DRIP_DURATION)
    }

    /// Writes the field `drip_amount`.
    fn set_drip_amount(&mut self, drip_amount: Amount)
        ensures
            final(self).store() == old(self).store().put_amount(key::DRIP_AMOUNT@, drip_amount),
            final(self).clock() == old(self).clock(),
    {
        self.set_amount(key::DRIP_AMOUNT, drip_amount);
    }

    /// Reads the field `drip_amount`.
    fn drip_amount(&self) -> (value: Amount)
        requires
            self.store().amounts.contains_key(key::DRIP_AMOUNT@),
        ensures
            value == self.store().amounts[key::DRIP_AMOUNT@],
    {
        self.amount(key::DRIP_AMOUNT)
    }

    /// Writes the field `total_amount`.
    fn set_total_amount(&mut self, total_amount: Amount)
        ensures
            final(self).store() == old(self).store().put_amount(key::TOTAL_AMOUNT@, total_amount),
            final(self).clock() == old(self).clock(),
    {
        self.set_amount(key::TOTAL_AMOUNT, total_amount);
    }

    /// Reads the field `total_amount`.
    fn total_amount(&self) -> (value: Amount)
        requires
            self.store().amounts.contains_key(key::TOTAL_AMOUNT@),
        ensures
            value == self.store().amounts[key::TOTAL_AMOUNT@],
    {
        self.amount(key::TOTAL_AMOUNT)
    }

    /// Writes the field `released_amount`.
    fn set_released_amount(&mut self, released_amount: Amount)
        ensures
            final(self).store() == old(self).store().put_amount(
                key::RELEASED_AMOUNT@,
                released_amount,
            ),
            final(self).clock() == old(self).clock(),
    {
        self.set_amount(key::RELEASED_AMOUNT, released_amount);
    }

    /// Reads the field `released_amount`.
    fn released_amount(&self) -> (value: Amount)
        requires
            self.store().amounts.contains_key(key::RELEASED_AMOUNT@),
        ensures
            value == self.store().amounts[key::RELEASED_AMOUNT@],
    {
        self.amount(key::RELEASED_AMOUNT)
    }

    /// Writes the field `admin_release_duration`.
    fn set_admin_release_duration(&mut self, admin_release_duration: Time)
        ensures
            final(self).store() == old(self).store().put_time(
                key::ADMIN_RELEASE_DURATION@,
                admin_release_duration,
            ),
            final(self).clock() == old(self).clock(),
    {
        self.set_time(key::ADMIN_RELEASE_DURATION, admin_release_duration);
    }

    /// Reads the field `admin_release_duration`.
    fn admin_release_duration(&self) -> (value: Time)
        requires
            self.store().times.contains_key(key::ADMIN_RELEASE_DURATION@),
        ensures
            value == self.store().times[key::ADMIN_RELEASE_DURATION@],
    {
        self.time(key::ADMIN_RELEASE_DURATION)
    }

    /// Writes the field `on_pause_duration`.
    fn set_on_pause_duration(&mut self, on_pause_duration: Time)
        ensures
            final(self).store() == old(self).store().put_time(
                key::ON_PAUSE_DURATION@,
                on_pause_duration,
            ),
            final(self).clock() == old(self).clock(),
    {
        self.set_time(key::ON_PAUSE_DURATION, on_pause_duration);
    }

    /// Reads the field `on_pause_duration`.
    fn on_pause_duration(&self) -> (value: Time)
        requires
            self.store().times.contains_key(key::ON_PAUSE_DURATION@),
        ensures
            value == self.store().times[key::ON_PAUSE_DURATION@],
    {
        self.time(key::ON_PAUSE_DURATION)
    }

    /// Writes the field `last_pause_timestamp`.
    fn set_last_pause_timestamp(&mut self, last_pause_timestamp: Time)
        ensures
            final(self).store() == old(self).store().put_time(
                key::LAST_PAUSE_TIMESTAMP@,
                last_pause_timestamp,
            ),
            final(self).clock() == old(self).clock(),
    {
        self.set_time(key::LAST_PAUSE_TIMESTAMP, last_pause_timestamp);
    }

    /// Reads the field `last_pause_timestamp`.
    fn last_pause_timestamp(&self) -> (value: Time)
        requires
            self.store().times.contains_key(key::LAST_PAUSE_TIMESTAMP@),
        ensures
            value == self.store().times[key::LAST_PAUSE_TIMESTAMP@],
    {
        self.time(key::LAST_PAUSE_TIMESTAMP)
    }

    /// Writes the pause flag.
    fn set_paused_flag(&mut self, is_paused: bool)
        ensures
            final(self).store() == old(self).store().put_boolean(key::PAUSE_FLAG@, is_paused),
            final(self).clock() == old(self).clock(),
    {
        self.set_boolean(key::PAUSE_FLAG, is_paused);
    }

    /// Reads the pause flag.
    fn paused_flag(&self) -> (value: bool)
        requires
            self.store().booleans.contains_key(key::PAUSE_FLAG@),
        ensures
            value == self.store().booleans[key::PAUSE_FLAG@],
    {
        self.boolean(key::PAUSE_FLAG)
    }
}

} // verus!
