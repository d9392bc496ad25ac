use vstd::prelude::*;

verus! {

use crate::text::str_starts_with;
use crate::text::trimmed_eq;
use crate::text::trims_to;

/// What the power-supply scan reads of one sysfs power-supply entry: its
/// directory name and the raw contents of its `type` and `online` files,
/// where readable.
pub struct PowerSupplyEntry {
    pub name: String,
    pub supply_type: Option<String>,
    pub online: Option<String>,
}

pub open spec fn spec_starts_with(s: Seq<char>, p: Seq<char>) -> bool {
    p.len() <= s.len() && s.subrange(0, p.len() as int) == p
}

/// The legacy adapter names that mark an AC supply even without a readable
/// `Mains` type.
pub open spec fn spec_legacy_ac_name(name: Seq<char>) -> bool {
    spec_starts_with(name, "AC"@) || spec_starts_with(name, "ADP"@) || spec_starts_with(
        name,
        "ACAD"@,
    ) || spec_starts_with(name, "AC0"@) || spec_starts_with(name, "ADP0"@)
}

/// An entry shows mains power when its type file reads `Mains` or its name
/// is a legacy adapter name, and in either case its online file reads `1`.
pub open spec fn spec_entry_on_ac(e: PowerSupplyEntry) -> bool {
    &&& ((match e.supply_type {
        Some(t) => trims_to(t@, "Mains"@),
        None => false,
    }) || spec_legacy_ac_name(e.name@))
    &&& (match e.online {
        Some(o) => trims_to(o@, "1"@),
        None => false,
    })
}

pub fn entry_on_ac(e: &PowerSupplyEntry) -> (r: bool)
    ensures
        r == spec_entry_on_ac(*e),
{
    let online_ok = match &e.online {
        Some(o) => trimmed_eq(o.as_str(), "1"),
        None => false,
    };
    if !online_ok {
        return false;
    }
    let mains = match &e.supply_type {
        Some(t) => trimmed_eq(t.as_str(), "Mains"),
        None => false,
    };
    if mains {
        return true;
    }
    str_starts_with(e.name.as_str(), "AC") || str_starts_with(e.name.as_str(), "ADP")
        || str_starts_with(e.name.as_str(), "ACAD") || str_starts_with(e.name.as_str(), "AC0")
        || str_starts_with(e.name.as_str(), "ADP0")
}

/// Whether any scanned power-supply entry shows the machine on AC power.
pub fn is_on_ac_power(entries: &Vec<PowerSupplyEntry>) -> (r: bool)
    ensures
        r == (exists|i: int| 0 <= i < entries@.len() && spec_entry_on_ac(#[trigger] entries@[i])),
{
    let mut i: usize = 0;
    while i < entries.len()
        invariant
            0 <= i <= entries@.len(),
            forall|j: int| 0 <= j < i ==> !spec_entry_on_ac(#[trigger] entries@[j]),
        decreases entries@.len() - i,
    {
        if entry_on_ac(&entries[i]) {
            return true;
        }
        i += 1;
    }
    false
}

/// One row of the session list the login service reports: the owning user
/// and the session's object path.
pub struct SessionRecord {
    pub uid: u32,
    pub path: String,
}

/// The first position at or after `i` whose session belongs to `uid`.
pub open spec fn spec_find_session(sessions: Seq<SessionRecord>, uid: u32, i: int) -> Option<int>
    decreases sessions.len() - i when 0 <= i <= sessions.len()
{
    if i >= sessions.len() {
        None
    } else if sessions[i].uid == uid {
        Some(i)
    } else {
        spec_find_session(sessions, uid, i + 1)
    }
}

/// The object path of the first session owned by `uid`, if any: how the
/// daemon picks its own session out of the login service's list.
pub fn find_session_for_uid(sessions: &Vec<SessionRecord>, uid: u32) -> (r: Option<String>)
    ensures
        match spec_find_session(sessions@, uid, 0) {
            Some(i) => r is Some && r->0@ == sessions@[i].path@,
            None => r is None,
        },
{
    let mut i: usize = 0;
    while i < sessions.len()
        invariant
            0 <= i <= sessions@.len(),
            spec_find_session(sessions@, uid, 0) == spec_find_session(sessions@, uid, i as int),
        decreases sessions@.len() - i,
    {
        if sessions[i].uid == uid {
            return Some(sessions[i].path.clone());
        }
        i += 1;
    }
    None
}

} // verus!
