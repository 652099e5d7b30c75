//! A minimal version counter.
//!
//! A [`Version`] holds one unsigned integer, can be advanced by exactly one
//! unit at a time, and renders itself as decimal text. The stored width is
//! 128 bits; an increment at the maximum representable value wraps to zero,
//! and that wrap is part of the stated contract.

use vstd::prelude::*;
use vstd::string::StringExecFns;

pub mod decimal;

use crate::decimal::{decimal_text, digit_char, digit_str, digits};

verus! {

/// One increment step on the abstract counter value: the successor of `v`,
/// wrapping to zero at the maximum 128-bit value.
pub open spec fn increment(v: nat) -> nat {
    if v == u128::MAX as nat {
        0
    } else {
        v + 1
    }
}

/// The abstract counter value after `k` increment steps starting from `v`.
pub open spec fn after_increments(v: nat, k: nat) -> nat
    decreases k,
{
    if k == 0 {
        v
    } else {
        increment(after_increments(v, (k - 1) as nat))
    }
}

/// A version number: a single non-negative counter.
pub struct Version {
    number: u128,
}

impl View for Version {
    type V = nat;

    closed spec fn view(&self) -> nat {
        self.number as nat
    }
}

impl Version {
    /// Creates a counter holding exactly `number`.
    pub fn new(number: u128) -> (v: Version)
        ensures
            v@ == number as nat,
    {
        Version { number }
    }

    /// Advances the counter by exactly one unit; at the maximum
    /// representable value it wraps to zero.
    pub fn next(&mut self)
        ensures
            final(self)@ == increment(old(self)@),
            old(self)@ < u128::MAX as nat ==> final(self)@ == old(self)@ + 1,
            old(self)@ == u128::MAX as nat ==> final(self)@ == 0,
    {
        if self.number == u128::MAX {
            self.number = 0;
        } else {
            self.number = self.number + 1;
        }
    }

    /// Renders the counter as decimal text: no leading zeros (except the
    /// value zero itself, which renders as `"0"`), no sign, no separators.
    pub fn render(&self) -> (s: String)
        ensures
            s@ == decimal_text(self@),
    {
        if self.number == 0 {
            let s = String::from_str("0");
            proof {
                reveal_strlit("0");
                assert(s@ =~= decimal_text(self@));
            }
            return s;
        }
        let mut n: u128 = self.number;
        let mut s = String::new();
        proof {
            assert(digits(self.number as nat) =~= digits(n as nat) + s@);
        }
        while n > 0
            invariant
                self.number > 0,
                digits(self.number as nat) == digits(n as nat) + s@,
            decreases n,
        {
            let ghost n0: nat = n as nat;
            let ghost s0: Seq<char> = s@;
            let d: u128 = n % 10;
            let piece = String::from_str(digit_str(d));
            s = piece.concat(s.as_str());
            n = n / 10;
            proof {
                let c = digit_char(n0 % 10);
                assert(digits(n0) == digits(n0 / 10).push(c));
                assert(digits(n as nat) + s@ =~= digits(n0) + s0);
            }
        }
        proof {
            assert(digits(self.number as nat) =~= s@);
        }
        s
    }

    /// The stored counter value.
    pub fn number(&self) -> (n: u128)
        ensures
            n as nat == self@,
    {
        self.number
    }
}

/// Monotonicity of the increment step: `k` increments in sequence starting
/// from `v` reach exactly `v + k`, and so render as the decimal text of
/// `v + k`, for any count that keeps the counter within the representable
/// range.
pub proof fn lemma_increments_add(v: nat, k: nat)
    requires
        v + k <= u128::MAX as nat,
    ensures
        after_increments(v, k) == v + k,
        decimal_text(after_increments(v, k)) == decimal_text(v + k),
    decreases k,
{
    if k > 0 {
        lemma_increments_add(v, (k - 1) as nat);
    }
}

/// Rendering is read-only and its text depends on the stored value alone:
/// two counters holding the same value render the same text, so repeated
/// calls to `render` without an intervening `next` always agree.
pub proof fn lemma_render_repeatable(a: Version, b: Version)
    requires
        a@ == b@,
    ensures
        decimal_text(a@) == decimal_text(b@),
{
}

} // verus!
