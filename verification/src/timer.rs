//! The duration clock: what a count of seconds looks like, and how much of an
//! allotted time is left.

use vstd::prelude::*;
use vstd::string::StringExecFns;
use crate::text::{two_digit_string, two_digits};

verus! {

/// The marker that stands in place of a countdown that has run out.
pub const OVERTIME: &'static str = "OVERTIME!";

/// Seconds as `HH:MM:SS`: hours, minutes of the hour and seconds of the
/// minute, each in two places at least.
pub open spec fn clock_text(seconds: nat) -> Seq<char> {
    two_digits(seconds / 60 / 60) + seq![':'] + two_digits((seconds / 60) % 60) + seq![':']
        + two_digits(seconds % 60)
}

/// What is left of `total` after `elapsed`, never below zero.
pub open spec fn spec_remaining(elapsed: u64, total: u64) -> u64 {
    if elapsed > total {
        0
    } else {
        (total - elapsed) as u64
    }
}

/// Whether `elapsed` has gone beyond `total`.
pub open spec fn spec_overtime(elapsed: u64, total: u64) -> bool {
    elapsed > total
}

/// A value that can be shown as a time of day.
pub trait Timer {
    /// The seconds that the value stands for.
    spec fn seconds(&self) -> nat;

    /// The value as `HH:MM:SS`.
    fn as_time(&self) -> (s: String)
        ensures
            s@ == clock_text(self.seconds()),
    ;
}

impl Timer for u64 {
    open spec fn seconds(&self) -> nat {
        *self as nat
    }

    fn as_time(&self) -> (s: String) {
        proof {
            reveal_strlit(":");
        }
        let n: u64 = *self;
        let mut s = two_digit_string(n / 60 / 60);
        s.append(":");
        let minutes = two_digit_string((n / 60) % 60);
        s.append(minutes.as_str());
        s.append(":");
        let seconds = two_digit_string(n % 60);
        s.append(seconds.as_str());
        assert(":"@ =~= seq![':']);
        s
    }
}

/// The countdown of one clock: the seconds left of `total` after `elapsed`,
/// held at zero, and whether `elapsed` is beyond `total`.
pub fn remaining(elapsed: u64, total: u64) -> (r: (u64, bool))
    ensures
        r.0 == spec_remaining(elapsed, total),
        r.1 == spec_overtime(elapsed, total),
        elapsed > total ==> r.0 == 0 && r.1,
        elapsed <= total ==> r.0 == total - elapsed && !r.1,
{
    if elapsed > total {
        (0, true)
    } else {
        (total - elapsed, false)
    }
}

/// What a countdown shows: the time that is left, or the overtime marker
/// once the allotted time has run out.
pub open spec fn countdown_text(elapsed: u64, total: u64) -> Seq<char> {
    if spec_overtime(elapsed, total) {
        OVERTIME@
    } else {
        clock_text(spec_remaining(elapsed, total) as nat)
    }
}

/// The text of a countdown.
pub fn countdown(elapsed: u64, total: u64) -> (s: String)
    ensures
        s@ == countdown_text(elapsed, total),
{
    let (left, over) = remaining(elapsed, total);
    if over {
        String::from_str(OVERTIME)
    } else {
        left.as_time()
    }
}

} // verus!
