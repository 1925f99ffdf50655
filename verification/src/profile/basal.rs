//! The scheduled basal rate over the day.

use crate::time::is_instant;
use crate::time::minute_of_day;
use crate::time::utc_minute_of_day;
use crate::types::BasalScheduleEntry;
use crate::types::Profile;
use vstd::prelude::*;

verus! {

/// Whether the schedule holds an entry that starts at midnight.
pub open spec fn basal_starts_at_midnight(entries: Seq<BasalScheduleEntry>) -> bool {
    exists|k: int| 0 <= k < entries.len() && (#[trigger] entries[k]).minutes == 0
}

/// Whether entry `k` applies at `minute`: it has begun, no entry that has
/// begun begins later, and of those that begin with it, it stands last.
pub open spec fn basal_applies_at(entries: Seq<BasalScheduleEntry>, minute: int, k: int) -> bool {
    &&& 0 <= k < entries.len()
    &&& entries[k].minutes <= minute
    &&& forall|j: int|
        0 <= j < entries.len() && (#[trigger] entries[j]).minutes <= minute ==> entries[j].minutes
            < entries[k].minutes || (entries[j].minutes == entries[k].minutes && j <= k)
}

/// The basal rate scheduled at `time`: the rate of the entry that applies,
/// or the profile's current rate where the schedule is empty, has no entry
/// that starts at midnight, or `time` is no calendar instant.
pub open spec fn basal_at(profile: Profile, time: int) -> int {
    if is_instant(time) && basal_starts_at_midnight(profile.basal_profile@) {
        let k = choose|k: int| basal_applies_at(profile.basal_profile@, minute_of_day(time), k);
        profile.basal_profile@[k].rate as int
    } else {
        profile.current_basal as int
    }
}

/// The basal rate scheduled at `time`.
pub fn basal_lookup(profile: &Profile, time: i64) -> (r: i64)
    ensures
        r == basal_at(*profile, time as int),
        r != profile.current_basal ==> exists|k: int|
            basal_applies_at(profile.basal_profile@, minute_of_day(time as int), k) && r
                == profile.basal_profile@[k].rate,
{
    let entries = &profile.basal_profile;
    let minute: u32 = match utc_minute_of_day(time) {
        Some(m) => m,
        None => {
            return profile.current_basal;
        },
    };
    let mut midnight: bool = false;
    let mut best: usize = 0;
    let mut found: bool = false;
    let mut i: usize = 0;
    while i < entries.len()
        invariant
            i <= entries.len(),
            midnight <==> exists|k: int| 0 <= k < i && (#[trigger] entries@[k]).minutes == 0,
            found ==> best < i && entries@[best as int].minutes <= minute,
            found ==> forall|j: int|
                0 <= j < i && (#[trigger] entries@[j]).minutes <= minute ==> entries@[j].minutes
                    < entries@[best as int].minutes || (entries@[j].minutes
                    == entries@[best as int].minutes && j <= best),
            !found ==> forall|j: int| 0 <= j < i ==> (#[trigger] entries@[j]).minutes > minute,
        decreases entries.len() - i,
    {
        let offset: u32 = entries[i].minutes;
        if offset == 0 {
            midnight = true;
        }
        if offset <= minute && (!found || entries[best].minutes <= offset) {
            best = i;
            found = true;
        }
        i += 1;
    }
    if midnight {
        proof {
            let k0 = choose|k: int| 0 <= k < entries@.len() && (#[trigger] entries@[k]).minutes == 0;
            assert(entries@[k0].minutes <= minute);
            assert(found);
            assert(basal_applies_at(entries@, minute as int, best as int));
        }
        entries[best].rate
    } else {
        profile.current_basal
    }
}

} // verus!
