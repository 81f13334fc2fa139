//! A bounded, steppable parameter.

use vstd::prelude::*;

verus! {

/// The value a step up from `value` lands on: `value + step`, or `max` when
/// that would pass it.
pub open spec fn stepped_up(value: int, step: int, max: int) -> int {
    if value + step <= max {
        value + step
    } else {
        max
    }
}

/// The value a step down from `value` lands on: `value - step`, or `min` when
/// that would pass it.
pub open spec fn stepped_down(value: int, step: int, min: int) -> int {
    if value - step >= min {
        value - step
    } else {
        min
    }
}

/// One adjustable parameter: a current value, the bounds it is kept in, the
/// increment a key press moves it by, and the value a reset restores.
#[derive(Debug)]
pub struct Param<T> {
    pub value: T,
    pub min: T,
    pub max: T,
    pub step: T,
    pub base: T,
}

impl<T> Param<T> {
    /// Sets the lower bound.
    pub fn min(self, min: T) -> (r: Self)
        ensures
            r.min == min,
            r.max == self.max,
            r.step == self.step,
            r.base == self.base,
            r.value == self.value,
    {
        Param { min, ..self }
    }

    /// Sets the upper bound.
    pub fn max(self, max: T) -> (r: Self)
        ensures
            r.max == max,
            r.min == self.min,
            r.step == self.step,
            r.base == self.base,
            r.value == self.value,
    {
        Param { max, ..self }
    }

    /// Sets the increment.
    pub fn step(self, step: T) -> (r: Self)
        ensures
            r.step == step,
            r.min == self.min,
            r.max == self.max,
            r.base == self.base,
            r.value == self.value,
    {
        Param { step, ..self }
    }

    /// The current value.
    pub fn value(&self) -> (r: &T)
        ensures
            *r == self.value,
    {
        &self.value
    }
}

impl<T: Copy> Param<T> {
    /// Sets the base value and makes it the current one.
    pub fn base(self, base: T) -> (r: Self)
        ensures
            r.base == base,
            r.value == base,
            r.min == self.min,
            r.max == self.max,
            r.step == self.step,
    {
        Param { base, value: base, ..self }
    }

    /// Restores the base value.
    pub fn reset(&mut self)
        ensures
            final(self).value == old(self).base,
            final(self).base == old(self).base,
            final(self).min == old(self).min,
            final(self).max == old(self).max,
            final(self).step == old(self).step,
    {
        self.value = self.base;
    }
}

impl Param<usize> {
    /// Moves the value up by one step, stopping at `max`.
    pub fn inc(&mut self)
        ensures
            final(self).value == stepped_up(
                old(self).value as int,
                old(self).step as int,
                old(self).max as int,
            ),
            final(self).base == old(self).base,
            final(self).min == old(self).min,
            final(self).max == old(self).max,
            final(self).step == old(self).step,
    {
        if self.step <= self.max && self.value <= self.max - self.step {
            self.value = self.value + self.step;
        } else {
            self.value = self.max;
        }
    }

    /// Moves the value down by one step, stopping at `min`.
    pub fn dec(&mut self)
        ensures
            final(self).value == stepped_down(
                old(self).value as int,
                old(self).step as int,
                old(self).min as int,
            ),
            final(self).base == old(self).base,
            final(self).min == old(self).min,
            final(self).max == old(self).max,
            final(self).step == old(self).step,
    {
        if self.step <= self.value && self.value - self.step >= self.min {
            self.value = self.value - self.step;
        } else {
            self.value = self.min;
        }
    }
}

impl Default for Param<usize> {
    /// A parameter with every field zero.
    fn default() -> (r: Self)
        ensures
            r.value == 0,
            r.min == 0,
            r.max == 0,
            r.step == 0,
            r.base == 0,
    {
        Param { value: 0, min: 0, max: 0, step: 0, base: 0 }
    }
}

} // verus!
