//! The insulin sensitivity factor over the day.

use crate::time::is_instant;
use crate::time::minute_of_day;
use crate::time::utc_minute_of_day;
use crate::types::ISFEntry;
use crate::types::ISFProfile;
use crate::types::Profile;
use vstd::prelude::*;

verus! {

/// Whether the schedule holds an entry that starts at midnight.
pub open spec fn starts_at_midnight(entries: Seq<ISFEntry>) -> bool {
    exists|k: int| 0 <= k < entries.len() && (#[trigger] entries[k]).offset == 0
}

/// Whether entry `k` applies at `minute`: it has begun, no entry that has
/// begun begins later, and of those that begin with it, it stands last.
pub open spec fn applies_at(entries: Seq<ISFEntry>, minute: int, k: int) -> bool {
    &&& 0 <= k < entries.len()
    &&& entries[k].offset <= minute
    &&& forall|j: int|
        0 <= j < entries.len() && (#[trigger] entries[j]).offset <= minute ==> entries[j].offset
            < entries[k].offset || (entries[j].offset == entries[k].offset && j <= k)
}

/// The sensitivity that a schedule gives at `time`, if it gives one.
pub open spec fn scheduled_sens(entries: Seq<ISFEntry>, time: int) -> Option<i64> {
    if is_instant(time) && starts_at_midnight(entries) {
        let k = choose|k: int| applies_at(entries, minute_of_day(time), k);
        Some(entries[k].sensitivity)
    } else {
        None
    }
}

/// The sensitivity at `time`: the schedule's, or the profile's own where the
/// schedule gives none.
pub open spec fn sens_at(profile: Profile, time: int) -> int {
    match scheduled_sens(profile.isf_profile.sensitivities@, time) {
        Some(v) => v as int,
        None => profile.sens as int,
    }
}

/// At most one entry applies.
pub proof fn lemma_applies_unique(entries: Seq<ISFEntry>, minute: int, a: int, b: int)
    requires
        applies_at(entries, minute, a),
        applies_at(entries, minute, b),
    ensures
        a == b,
{
}

/// The sensitivity that the schedule gives at `time`. It gives none where it
/// is empty, where no entry starts at midnight, or where `time` is no
/// calendar instant.
pub fn isf_lookup_from_schedule(isf_profile: &ISFProfile, time: i64) -> (r: Option<i64>)
    ensures
        r == scheduled_sens(isf_profile.sensitivities@, time as int),
        r is Some ==> exists|k: int|
            applies_at(isf_profile.sensitivities@, minute_of_day(time as int), k) && r == Some(
                isf_profile.sensitivities@[k].sensitivity,
            ),
{
    let entries = &isf_profile.sensitivities;
    let minute: u32 = match utc_minute_of_day(time) {
        Some(m) => m,
        None => {
            return None;
        },
    };
    let mut midnight: bool = false;
    let mut best: usize = 0;
    let mut found: bool = false;
    let mut i: usize = 0;
    while i < entries.len()
        invariant
            i <= entries.len(),
            midnight <==> exists|k: int| 0 <= k < i && (#[trigger] entries@[k]).offset == 0,
            found ==> best < i && entries@[best as int].offset <= minute,
            found ==> forall|j: int|
                0 <= j < i && (#[trigger] entries@[j]).offset <= minute ==> entries@[j].offset
                    < entries@[best as int].offset || (entries@[j].offset
                    == entries@[best as int].offset && j <= best),
            !found ==> forall|j: int| 0 <= j < i ==> (#[trigger] entries@[j]).offset > minute,
        decreases entries.len() - i,
    {
        let offset: u32 = entries[i].offset;
        if offset == 0 {
            midnight = true;
        }
        if offset <= minute && (!found || entries[best].offset <= offset) {
            best = i;
            found = true;
        }
        i += 1;
    }
    if midnight {
        proof {
            let k0 = choose|k: int| 0 <= k < entries@.len() && (#[trigger] entries@[k]).offset == 0;
            assert(entries@[k0].offset <= minute);
            assert(found);
            assert(applies_at(entries@, minute as int, best as int));
            let k = choose|k: int| applies_at(entries@, minute_of_day(time as int), k);
            lemma_applies_unique(entries@, minute as int, k, best as int);
        }
        Some(entries[best].sensitivity)
    } else {
        None
    }
}

/// The sensitivity at `time`.
pub fn isf_lookup(profile: &Profile, time: i64) -> (r: i64)
    ensures
        r == sens_at(*profile, time as int),
{
    match isf_lookup_from_schedule(&profile.isf_profile, time) {
        Some(v) => v,
        None => profile.sens,
    }
}

} // verus!
