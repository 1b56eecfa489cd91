//! Time budgets, as whole seconds and nanoseconds.
use vstd::prelude::*;

use crate::text::{decimal, join};

verus! {

/// A span of time.
#[derive(Debug, Clone, Copy, PartialEq, Eq, Structural)]
pub struct JobDuration {
    pub secs: u64,
    /// Below one second.
    pub nanos: u32,
}

impl JobDuration {
    pub open spec fn wf(&self) -> bool {
        self.nanos < 1_000_000_000
    }

    /// A span of whole seconds.
    pub fn from_secs(secs: u64) -> (d: JobDuration)
        ensures
            d.wf(),
            d.secs == secs,
            d.nanos == 0,
    {
        JobDuration { secs, nanos: 0 }
    }

    /// Its human-readable text, such as `10s` or `1h 30m`.
    pub fn text(&self) -> (r: String)
        requires
            self.wf(),
        ensures
            r@ == duration_text(self.secs as nat, self.nanos as nat),
    {
        format_duration(self.secs, self.nanos)
    }
}

/// One part of a span's text: the value and its unit, none for a zero value;
/// `plural` units take an `s` after values above one.
pub open spec fn duration_part(value: nat, unit: Seq<char>, plural: bool) -> Seq<Seq<char>> {
    if value == 0 {
        Seq::empty()
    } else if plural && value > 1 {
        seq![decimal(value) + unit + "s"@]
    } else {
        seq![decimal(value) + unit]
    }
}

/// The text humantime gives a span of time: `0s` for an empty span, else the
/// non-zero parts among years (365.25 days), months (30.44 days), days,
/// hours, minutes, seconds, milliseconds, microseconds and nanoseconds,
/// separated by spaces, such as `1month 2days 3h 10ms`.
pub open spec fn duration_text(secs: nat, nanos: nat) -> Seq<char> {
    if secs == 0 && nanos == 0 {
        "0s"@
    } else {
        let ydays = secs % 31_557_600;
        let mdays = ydays % 2_630_016;
        let day_secs = mdays % 86400;
        join(
            duration_part(secs / 31_557_600, "year"@, true) + duration_part(
                ydays / 2_630_016,
                "month"@,
                true,
            ) + duration_part(mdays / 86400, "day"@, true) + duration_part(
                day_secs / 3600,
                "h"@,
                false,
            ) + duration_part(day_secs % 3600 / 60, "m"@, false) + duration_part(
                day_secs % 60,
                "s"@,
                false,
            ) + duration_part(nanos / 1_000_000, "ms"@, false) + duration_part(
                nanos / 1000 % 1000,
                "us"@,
                false,
            ) + duration_part(nanos % 1000, "ns"@, false),
            " "@,
        )
    }
}

/// Relies on `humantime::format_duration` and its `Display` (without the
/// `mu` feature, so microseconds are `us`): the parts as `duration_text`
/// states them. `Duration::new` panics only where the
/// nanoseconds carry past the largest number of seconds, which `requires`
/// leaves out.
#[verifier::external_body]
fn format_duration(secs: u64, nanos: u32) -> (r: String)
    requires
        nanos < 1_000_000_000,
    ensures
        r@ == duration_text(secs as nat, nanos as nat),
{
    humantime::format_duration(std::time::Duration::new(secs, nanos)).to_string()
}

} // verus!
