//! What holds of every vesting record, proved over the functions in which the engine's
//! contracts are stated.

use crate::error::VestingError;
use crate::schedule::{Amount, Time, VestingRecord};
use vstd::arithmetic::div_mod::lemma_div_is_ordered;
use vstd::prelude::*;

verus! {

/// A new contract is in a state a contract can be in, whatever its policy and whatever the
/// clock reads.
pub proof fn law_fresh_is_valid(
    cliff_timestamp: Time,
    cliff_amount: Amount,
    drip_duration: Time,
    drip_amount: Amount,
    total_amount: Amount,
    admin_release_duration: Time,
    now: Time,
)
    ensures
        VestingRecord::fresh(
            cliff_timestamp,
            cliff_amount,
            drip_duration,
            drip_amount,
            total_amount,
            admin_release_duration,
        ).valid_at(now as int),
{
}

/// A valid record stays valid while the clock moves on and nothing else happens.
pub proof fn law_valid_as_time_passes(record: VestingRecord, earlier: Time, later: Time)
    requires
        record.valid_at(earlier as int),
        earlier <= later,
    ensures
        record.valid_at(later as int),
{
}

/// A pause that is granted keeps the record valid, releases nothing, leaves the sum of the
/// ended pauses alone and stamps the instant.
pub proof fn law_pause_keeps_valid(record: VestingRecord, now: Time)
    requires
        record.valid_at(now as int),
    ensures
        record.pause_step(now) matches Ok(next) ==> {
            &&& next.valid_at(now as int)
            &&& next.is_paused
            &&& next.last_pause_timestamp == now
            &&& next.released_amount == record.released_amount
            &&& next.on_pause_duration == record.on_pause_duration
        },
{
}

/// An end of pause that is granted keeps the record valid, releases nothing, does not
/// shorten the sum of the ended pauses, and leaves the stamp of the pause as it was.
pub proof fn law_unpause_keeps_valid(record: VestingRecord, now: Time)
    requires
        record.valid_at(now as int),
    ensures
        record.unpause_step(now) matches Ok(next) ==> {
            &&& next.valid_at(now as int)
            &&& !next.is_paused
            &&& next.last_pause_timestamp == record.last_pause_timestamp
            &&& next.released_amount == record.released_amount
            &&& next.on_pause_duration == record.on_pause_duration + (now
                - record.last_pause_timestamp)
            &&& next.on_pause_duration >= record.on_pause_duration
        },
{
}

/// A withdrawal that is granted keeps the record valid, releases exactly what was asked
/// for, and touches nothing of the pauses.
pub proof fn law_withdraw_keeps_valid(record: VestingRecord, now: Time, amount: Amount)
    requires
        record.valid_at(now as int),
    ensures
        record.withdraw_step(now, amount) matches Ok(next) ==> {
            &&& next.valid_at(now as int)
            &&& next.released_amount == record.released_amount + amount
            &&& next.released_amount >= record.released_amount
            &&& next.is_paused == record.is_paused
            &&& next.last_pause_timestamp == record.last_pause_timestamp
            &&& next.on_pause_duration == record.on_pause_duration
        },
{
    law_available_within_remainder(record, now as int);
}

/// A reclaim that is granted keeps the record valid, hands over exactly the remainder,
/// which is not zero, and leaves nothing unreleased.
pub proof fn law_admin_release_keeps_valid(record: VestingRecord, now: Time)
    requires
        record.valid_at(now as int),
    ensures
        record.admin_release_step(now) matches Ok((next, amount)) ==> {
            &&& next.valid_at(now as int)
            &&& amount == record.remainder()
            &&& amount > 0
            &&& next.released_amount == record.total_amount
            &&& next.released_amount >= record.released_amount
            &&& next.remainder() == 0
            &&& next.is_paused == record.is_paused
            &&& next.last_pause_timestamp == record.last_pause_timestamp
            &&& next.on_pause_duration == record.on_pause_duration
        },
{
}

/// What has accrued is never negative and never more than the total.
pub proof fn law_accrued_within_total(record: VestingRecord, now: int)
    ensures
        0 <= record.accrued(now) <= record.total_amount,
{
    if record.cliff_reached(now) {
        lemma_drips_not_negative(record, now);
    }
}

/// What is available is never more than what has not been released.
pub proof fn law_available_within_remainder(record: VestingRecord, now: int)
    requires
        record.released_amount <= record.total_amount,
    ensures
        0 <= record.available(now) <= record.remainder(),
{
    law_accrued_within_total(record, now);
}

/// While nothing is done to the record, what is available never goes down as the clock
/// moves on.
pub proof fn law_available_never_decreases(record: VestingRecord, earlier: int, later: int)
    requires
        earlier <= later,
    ensures
        record.accrued(earlier) <= record.accrued(later),
        record.available(earlier) <= record.available(later),
{
    law_accrued_within_total(record, later);
    if record.cliff_reached(earlier) {
        assert(record.cliff_reached(later));
        lemma_drips_not_negative(record, earlier);
        if record.drip_duration != 0 {
            lemma_div_is_ordered(
                earlier - record.effective_cliff(earlier),
                later - record.effective_cliff(later),
                record.drip_duration as int,
            );
        }
        let a = record.drip_amount as int;
        let x = record.drips(earlier);
        let y = record.drips(later);
        assert(a * x <= a * y) by (nonlinear_arith)
            requires
                0 <= a,
                x <= y,
        ;
    }
}

/// After the cliff the count of drips is not negative, and neither is what they unlock.
proof fn lemma_drips_not_negative(record: VestingRecord, now: int)
    requires
        record.cliff_reached(now),
    ensures
        0 <= record.drips(now),
        0 <= record.drip_amount * record.drips(now),
        record.cliff_amount <= record.uncapped(now),
{
    let span = now - record.effective_cliff(now);
    let d = record.drip_duration as int;
    if d != 0 {
        assert(0 <= span / d) by (nonlinear_arith)
            requires
                0 <= span,
                0 < d,
        ;
    }
    let a = record.drip_amount as int;
    let x = record.drips(now);
    assert(0 <= a * x) by (nonlinear_arith)
        requires
            0 <= a,
            0 <= x,
    ;
}

/// A pause from `paused` to `unpaused` moves the whole schedule later by its length: what
/// was available at any instant before is available that much later after, and the
/// effective cliff lies that much later.
pub proof fn law_pause_shifts_schedule(
    record: VestingRecord,
    paused: Time,
    unpaused: Time,
    instant: int,
)
    requires
        !record.is_paused,
        paused <= unpaused,
        record.on_pause_duration + (unpaused - paused) <= Time::MAX,
    ensures
        ({
            let after = record.paused_at(paused).unpaused_at(unpaused);
            let shift = unpaused - paused;
            &&& record.pause_step(paused) == Ok::<VestingRecord, VestingError>(
                record.paused_at(paused),
            )
            &&& record.paused_at(paused).unpause_step(unpaused) == Ok::<
                VestingRecord,
                VestingError,
            >(after)
            &&& after.effective_cliff(instant + shift) == record.effective_cliff(instant) + shift
            &&& after.accrued(instant + shift) == record.accrued(instant)
            &&& after.available(instant + shift) == record.available(instant)
        }),
{
    let after = record.paused_at(paused).unpaused_at(unpaused);
    let shift = unpaused - paused;
    assert(after.effective_cliff(instant + shift) == record.effective_cliff(instant) + shift);
    assert((instant + shift) - after.effective_cliff(instant + shift) == instant
        - record.effective_cliff(instant));
    assert(after.drips(instant + shift) == record.drips(instant));
}

/// What was released and what remains make up the total.
pub proof fn law_conservation(record: VestingRecord)
    ensures
        record.released_amount + record.remainder() == record.total_amount,
{
}

/// Once everything has been released, nothing is available, at any instant.
pub proof fn law_nothing_available_when_all_released(record: VestingRecord, now: int)
    requires
        record.released_amount == record.total_amount,
    ensures
        record.available(now) == 0,
{
    law_accrued_within_total(record, now);
}

/// After a pause was granted, a second request to pause is refused, at any instant.
pub proof fn law_second_pause_is_refused(record: VestingRecord, first: Time, second: Time)
    ensures
        record.pause_step(first) matches Ok(next) ==> next.pause_step(second) == Err::<
            VestingRecord,
            VestingError,
        >(VestingError::AlreadyPaused),
{
}

/// After an end of pause was granted, a second request to end it is refused, at any
/// instant.
pub proof fn law_second_unpause_is_refused(record: VestingRecord, first: Time, second: Time)
    ensures
        record.unpause_step(first) matches Ok(next) ==> next.unpause_step(second) == Err::<
            VestingRecord,
            VestingError,
        >(VestingError::AlreadyUnpaused),
{
}

/// However long the wait: once the schedule alone would have unlocked the total or more,
/// what is available and what was released make up exactly the total.
pub proof fn law_long_wait_is_clamped(record: VestingRecord, now: int)
    requires
        record.cliff_reached(now),
        record.uncapped(now) >= record.total_amount,
        record.released_amount <= record.total_amount,
    ensures
        record.accrued(now) == record.total_amount,
        record.available(now) + record.released_amount == record.total_amount,
{
}

/// A pause that ends at the instant at which it began changes nothing but the stamp of the
/// latest pause: the sum of the ended pauses is as before, the schedule runs, and what is
/// available at any instant is what it was.
pub proof fn law_pause_of_no_length(record: VestingRecord, instant: Time, now: int)
    requires
        !record.is_paused,
    ensures
        ({
            let after = record.paused_at(instant).unpaused_at(instant);
            &&& after == VestingRecord { last_pause_timestamp: instant, ..record }
            &&& after.on_pause_duration == record.on_pause_duration
            &&& !after.is_paused
            &&& after.accrued(now) == record.accrued(now)
            &&& after.available(now) == record.available(now)
        }),
{
}

/// Two pauses, one after the other, add the lengths of both to the sum of the ended
/// pauses.
pub proof fn law_pauses_add_up(
    record: VestingRecord,
    first_pause: Time,
    first_unpause: Time,
    second_pause: Time,
    second_unpause: Time,
)
    requires
        !record.is_paused,
        first_pause <= first_unpause,
        second_pause <= second_unpause,
        record.on_pause_duration + (first_unpause - first_pause) + (second_unpause
            - second_pause) <= Time::MAX,
    ensures
        record.paused_at(first_pause).unpaused_at(first_unpause).paused_at(
            second_pause,
        ).unpaused_at(second_unpause).on_pause_duration == record.on_pause_duration + (
        first_unpause - first_pause) + (second_unpause - second_pause),
        !record.paused_at(first_pause).unpaused_at(first_unpause).paused_at(
            second_pause,
        ).unpaused_at(second_unpause).is_paused,
{
}

} // verus!
