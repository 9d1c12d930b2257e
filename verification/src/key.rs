//! The names under which the fields of the vesting record are stored.
//!
//! The names are part of the interface: an observer reads the record under them.

use vstd::prelude::*;

verus! {

/// The instant at which the cliff unlocks.
pub const CLIFF_TIMESTAMP: &'static str = "cliff_timestamp";

/// What unlocks at the cliff.
pub const CLIFF_AMOUNT: &'static str = "cliff_amount";

/// The span between two drips.
pub const DRIP_DURATION: &'static str = "drip_duration";

/// What unlocks with each drip.
pub const DRIP_AMOUNT: &'static str = "drip_amount";

/// The ceiling on all releases.
pub const TOTAL_AMOUNT: &'static str = "total_amount";

/// What has been paid out.
pub const RELEASED_AMOUNT: &'static str = "released_amount";

/// How long a pause must last before a reclaim.
pub const ADMIN_RELEASE_DURATION: &'static str = "admin_release_duration";

/// Whether the schedule is paused.
pub const PAUSE_FLAG: &'static str = "is_paused";

/// The sum of the pauses that ended.
pub const ON_PAUSE_DURATION: &'static str = "on_pause_duration";

/// The instant of the latest pause.
pub const LAST_PAUSE_TIMESTAMP: &'static str = "last_pause_timestamp";

/// Whether `name` is one of the four names that hold an amount.
pub open spec fn is_amount_name(name: Seq<char>) -> bool {
    ||| name == CLIFF_AMOUNT@
    ||| name == DRIP_AMOUNT@
    ||| name == TOTAL_AMOUNT@
    ||| name == RELEASED_AMOUNT@
}

/// Whether `name` is one of the five names that hold an instant or a span.
pub open spec fn is_time_name(name: Seq<char>) -> bool {
    ||| name == CLIFF_TIMESTAMP@
    ||| name == DRIP_DURATION@
    ||| name == ADMIN_RELEASE_DURATION@
    ||| name == ON_PAUSE_DURATION@
    ||| name == LAST_PAUSE_TIMESTAMP@
}

/// Whether `name` is the one name that holds a flag.
pub open spec fn is_boolean_name(name: Seq<char>) -> bool {
    name == PAUSE_FLAG@
}

/// No two fields of one kind share a name, so writing one never changes another.
pub proof fn lemma_names_differ()
    ensures
        CLIFF_AMOUNT@ != DRIP_AMOUNT@,
        CLIFF_AMOUNT@ != TOTAL_AMOUNT@,
        CLIFF_AMOUNT@ != RELEASED_AMOUNT@,
        DRIP_AMOUNT@ != TOTAL_AMOUNT@,
        DRIP_AMOUNT@ != RELEASED_AMOUNT@,
        TOTAL_AMOUNT@ != RELEASED_AMOUNT@,
        CLIFF_TIMESTAMP@ != DRIP_DURATION@,
        CLIFF_TIMESTAMP@ != ADMIN_RELEASE_DURATION@,
        CLIFF_TIMESTAMP@ != ON_PAUSE_DURATION@,
        CLIFF_TIMESTAMP@ != LAST_PAUSE_TIMESTAMP@,
        DRIP_DURATION@ != ADMIN_RELEASE_DURATION@,
        DRIP_DURATION@ != ON_PAUSE_DURATION@,
        DRIP_DURATION@ != LAST_PAUSE_TIMESTAMP@,
        ADMIN_RELEASE_DURATION@ != ON_PAUSE_DURATION@,
        ADMIN_RELEASE_DURATION@ != LAST_PAUSE_TIMESTAMP@,
        ON_PAUSE_DURATION@ != LAST_PAUSE_TIMESTAMP@,
{
    reveal_strlit("cliff_timestamp");
    reveal_strlit("cliff_amount");
    reveal_strlit("drip_duration");
    reveal_strlit("drip_amount");
    reveal_strlit("total_amount");
    reveal_strlit("released_amount");
    reveal_strlit("admin_release_duration");
    reveal_strlit("on_pause_duration");
    reveal_strlit("last_pause_timestamp");
    assert(CLIFF_AMOUNT@.len() == 12 && DRIP_AMOUNT@.len() == 11 && TOTAL_AMOUNT@.len() == 12
        && RELEASED_AMOUNT@.len() == 15);
    assert(CLIFF_AMOUNT@[0] == 'c' && TOTAL_AMOUNT@[0] == 't');
    assert(CLIFF_TIMESTAMP@.len() == 15 && DRIP_DURATION@.len() == 13
        && ADMIN_RELEASE_DURATION@.len() == 22 && ON_PAUSE_DURATION@.len() == 17
        && LAST_PAUSE_TIMESTAMP@.len() == 20);
}

} // verus!
