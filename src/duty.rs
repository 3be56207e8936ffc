use crate::pattern::Pattern;
use vstd::prelude::*;

verus! {

/// An unsigned integer type that a PWM output takes its duty cycle in.
///
/// The duty conversion works on the value widened to `u128`, where no product
/// of a code and a duty can overflow, and narrows the result back.
pub trait DutyValue: Copy + Sized {
    /// The value as a natural number.
    spec fn value(&self) -> nat;

    /// The value, widened without loss.
    fn widen(self) -> (r: u128)
        ensures
            r == self.value(),
            r <= u64::MAX,
    ;

    /// `v` in this type; `v` fits since it is at most `self`.
    fn narrow_within(self, v: u128) -> (r: Self)
        requires
            v <= self.value(),
        ensures
            r.value() == v,
    ;
}

impl DutyValue for u8 {
    open spec fn value(&self) -> nat {
        *self as nat
    }

    fn widen(self) -> (r: u128) {
        self as u128
    }

    fn narrow_within(self, v: u128) -> (r: u8) {
        v as u8
    }
}

impl DutyValue for u16 {
    open spec fn value(&self) -> nat {
        *self as nat
    }

    fn widen(self) -> (r: u128) {
        self as u128
    }

    fn narrow_within(self, v: u128) -> (r: u16) {
        v as u16
    }
}

impl DutyValue for u32 {
    open spec fn value(&self) -> nat {
        *self as nat
    }

    fn widen(self) -> (r: u128) {
        self as u128
    }

    fn narrow_within(self, v: u128) -> (r: u32) {
        v as u32
    }
}

impl DutyValue for u64 {
    open spec fn value(&self) -> nat {
        *self as nat
    }

    fn widen(self) -> (r: u128) {
        self as u128
    }

    fn narrow_within(self, v: u128) -> (r: u64) {
        v as u64
    }
}

impl DutyValue for usize {
    open spec fn value(&self) -> nat {
        *self as nat
    }

    fn widen(self) -> (r: u128) {
        self as u128
    }

    fn narrow_within(self, v: u128) -> (r: usize) {
        v as usize
    }
}

impl Pattern {
    /// The duty cycle of this mode on an output whose largest duty is
    /// `max_duty`: the rescaled duty `code / 200` times `max_duty`, truncated
    /// toward zero.
    ///
    /// The result is `max_duty / max_duty` times that product. The factor is 1
    /// for every `max_duty` but zero, on which it has no value: there the
    /// result is zero, an output that cannot be driven at all.
    pub fn as_duty<T: DutyValue>(&self, max_duty: T) -> (r: T)
        ensures
            r.value() == self.code() * max_duty.value() / 200,
            r.value() <= max_duty.value(),
            max_duty.value() == 0 ==> r.value() == 0,
    {
        let code: u8 = self.raw_code();
        let m: u128 = max_duty.widen();
        if m == 0 {
            return max_duty.narrow_within(0);
        }
        proof {
            crate::pattern::lemma_code_in_range(*self);
        }
        assert((code as u128) * m <= 199 * (u64::MAX as u128)) by (nonlinear_arith)
            requires
                code <= 199,
                m <= u64::MAX,
        ;
        let scaled: u128 = (code as u128) * m / 200;
        assert(scaled <= m) by (nonlinear_arith)
            requires
                scaled == (code as u128) * m / 200,
                code <= 199,
                m > 0,
        ;
        let unit: u128 = m / m;
        assert(unit == 1) by (nonlinear_arith)
            requires
                unit == m / m,
                m > 0,
        ;
        max_duty.narrow_within(unit * scaled)
    }
}

/// The duty cycle is the rescaled duty of the mode, in thousandths, times the
/// largest duty, truncated.
pub proof fn lemma_duty_scales_abs_percentage(p: Pattern, max_duty: nat)
    ensures
        p.code() * max_duty / 200 == p.unit_thousandths() * max_duty / 1000,
{
    assert(p.code() * max_duty / 200 == (p.code() * 5) * max_duty / 1000) by (nonlinear_arith);
}

} // verus!
