use vstd::prelude::*;

verus! {

use vstd::string::StringExecFns;
use crate::text::spec_dec;
use crate::text::trimmed_eq;
use crate::text::trims_to;
use crate::text::u64_to_dec;

/// What kind of machine this is; detected once at startup. Desktops never
/// evaluate power-source-based profile switching.
#[derive(Debug, Clone, Copy, PartialEq, Eq, Structural)]
pub enum ChassisKind {
    Laptop,
    Desktop,
}

/// The chassis-type codes that sysfs reports for laptop-class machines.
pub open spec fn spec_is_laptop_code(data: Seq<char>) -> bool {
    trims_to(data, "8"@) || trims_to(data, "9"@) || trims_to(data, "10"@) || trims_to(
        data,
        "14"@,
    )
}

/// Classifies the contents of the chassis-type file: codes 8, 9, 10 and 14
/// mean a laptop, anything else a desktop.
pub fn chassis_from_code(data: &str) -> (r: ChassisKind)
    ensures
        r is Laptop <==> spec_is_laptop_code(data@),
{
    if trimmed_eq(data, "8") || trimmed_eq(data, "9") || trimmed_eq(data, "10") || trimmed_eq(
        data,
        "14",
    ) {
        ChassisKind::Laptop
    } else {
        ChassisKind::Desktop
    }
}

/// How a span of `secs` seconds is written for users: bare seconds under a
/// minute, minutes and seconds under an hour, hours and minutes above.
pub open spec fn spec_format_duration(secs: u64) -> Seq<char> {
    if secs < 60 {
        spec_dec(secs as nat) + "s"@
    } else if secs < 3600 {
        spec_dec((secs / 60) as nat) + "m "@ + spec_dec((secs % 60) as nat) + "s"@
    } else {
        spec_dec((secs / 3600) as nat) + "h "@ + spec_dec(((secs % 3600) / 60) as nat) + "m"@
    }
}

pub fn format_duration(secs: u64) -> (r: String)
    ensures
        r@ == spec_format_duration(secs),
{
    if secs < 60 {
        let mut s = u64_to_dec(secs);
        s.append("s");
        s
    } else if secs < 3600 {
        let mut s = u64_to_dec(secs / 60);
        s.append("m ");
        let sec = u64_to_dec(secs % 60);
        s.append(sec.as_str());
        s.append("s");
        s
    } else {
        let mut s = u64_to_dec(secs / 3600);
        s.append("h ");
        let m = u64_to_dec((secs % 3600) / 60);
        s.append(m.as_str());
        s.append("m");
        s
    }
}

} // verus!
