//! The clock tree: a process-wide context that supplies derived clock
//! frequencies to the peripheral binders and tracks which clock
//! generators are already allocated, plus the divisor-selection rule
//! every binder uses to quantize a requested frequency.

use vstd::arithmetic::div_mod::{
    lemma_div_is_ordered, lemma_div_multiples_vanish, lemma_fundamental_div_mod,
    lemma_mod_bound, lemma_multiply_divide_lt,
};
use vstd::arithmetic::mul::lemma_mul_inequality;
use vstd::prelude::*;

use crate::Error;

verus! {

/// The purpose a clock generator has been allocated to.
#[derive(Clone, Copy, Debug, PartialEq, Eq, Structural)]
pub enum ClockPurpose {
    /// The main system clock (generator 0), feeding the controller
    /// core clocks.
    MainClock,
    /// A serial-engine core clock.
    SercomCore,
    /// A timer/counter core clock.
    PwmClock,
    /// The USB device clock.
    UsbClock,
}

/// Number of clock generators in the device's clock tree.
pub const GENERATOR_COUNT: usize = 12;

/// The smallest divisor `d >= 1` such that `c / d` does not exceed `f`,
/// for a root clock `c` and a requested frequency `f >= 1`.
pub open spec fn min_divisor(c: u32, f: u32) -> int {
    c as int / (f as int + 1) + 1
}

/// The frequency a binder achieves for root clock `c` and requested
/// frequency `f`: the closest rate at or below the target.
pub open spec fn achieved_rate(c: u32, f: u32) -> int {
    c as int / min_divisor(c, f)
}

/// `min_divisor` is sound (the achieved rate never exceeds the target)
/// and minimal (every smaller divisor would overshoot the target).
pub proof fn lemma_min_divisor_properties(c: u32, f: u32)
    requires
        1 <= c,
        1 <= f,
    ensures
        1 <= min_divisor(c, f),
        min_divisor(c, f) <= c,
        c as int / min_divisor(c, f) <= f as int,
        forall|e: int| 1 <= e && e < min_divisor(c, f) ==> #[trigger] (c as int / e) > f as int,
{
    let ci = c as int;
    let fi = f as int;
    let q = ci / (fi + 1);
    let d = q + 1;
    lemma_fundamental_div_mod(ci, fi + 1);
    lemma_mod_bound(ci, fi + 1);
    assert(ci == (fi + 1) * q + ci % (fi + 1));
    assert(0 <= q) by {
        lemma_div_is_ordered(0, ci, fi + 1);
    }
    assert(q <= ci / 2) by {
        vstd::arithmetic::div_mod::lemma_div_is_ordered_by_denominator(ci, 2, fi + 1);
    }
    assert(ci / 2 < ci) by {
        vstd::arithmetic::div_mod::lemma_div_is_strictly_smaller(ci, 2);
    }
    assert(ci < d * (fi + 1)) by {
        assert((q + 1) * (fi + 1) == (fi + 1) * q + (fi + 1)) by (nonlinear_arith);
    }
    assert(ci / d <= fi) by {
        lemma_multiply_divide_lt(ci, d, fi + 1);
    }
    assert forall|e: int| 1 <= e && e < d implies #[trigger] (ci / e) > fi by {
        assert(e <= q);
        assert(e * (fi + 1) <= q * (fi + 1)) by {
            lemma_mul_inequality(e, q, fi + 1);
        }
        assert(q * (fi + 1) <= ci) by (nonlinear_arith)
            requires
                ci == (fi + 1) * q + ci % (fi + 1),
                0 <= ci % (fi + 1),
        ;
        assert((e * (fi + 1)) / e == fi + 1) by {
            lemma_div_multiples_vanish(fi + 1, e);
        }
        lemma_div_is_ordered(e * (fi + 1), ci, e);
    }
}

/// Pick the divisor for root clock `c` and requested frequency `f`:
/// the smallest divisor whose resulting rate is at or below `f`
/// (round down — the achieved rate never exceeds the request).
pub fn select_divisor(c: u32, f: u32) -> (d: u32)
    requires
        1 <= c,
        1 <= f,
    ensures
        d as int == min_divisor(c, f),
        1 <= d,
        c as int / d as int <= f as int,
        forall|e: int| 1 <= e && e < d as int ==> #[trigger] (c as int / e) > f as int,
{
    proof {
        lemma_min_divisor_properties(c, f);
    }
    let q: u64 = (c as u64) / ((f as u64) + 1);
    (q + 1) as u32
}

/// The oscillator/generator hierarchy: created once at startup, borrowed
/// mutably by every peripheral binder, never torn down.
pub struct ClockContext {
    root_hz: u32,
    gens: Vec<Option<ClockPurpose>>,
}

impl ClockContext {
    /// Frequency of the root oscillator feeding generator 0.
    pub closed spec fn root(self) -> u32 {
        self.root_hz
    }

    /// Allocation state of each generator.
    pub closed spec fn gens(self) -> Seq<Option<ClockPurpose>> {
        self.gens@
    }

    /// The clock tree is well-formed: all generators present and
    /// generator 0 held by the main system clock.
    pub open spec fn wf(self) -> bool {
        &&& self.gens().len() == GENERATOR_COUNT
        &&& self.gens()[0] == Some(ClockPurpose::MainClock)
        &&& self.root() >= 1
    }

    /// Build the clock tree from the root oscillator frequency.
    /// Generator 0 carries the main clock; all others are free.
    pub fn new(root_hz: u32) -> (ctx: ClockContext)
        requires
            root_hz >= 1,
        ensures
            ctx.wf(),
            ctx.root() == root_hz,
            forall|i: int| 1 <= i < GENERATOR_COUNT ==> ctx.gens()[i] is None,
    {
        let mut gens: Vec<Option<ClockPurpose>> = Vec::new();
        gens.push(Some(ClockPurpose::MainClock));
        while gens.len() < GENERATOR_COUNT
            invariant
                1 <= gens@.len() <= GENERATOR_COUNT,
                gens@[0] == Some(ClockPurpose::MainClock),
                forall|i: int| 1 <= i < gens@.len() ==> gens@[i] is None,
            decreases GENERATOR_COUNT - gens@.len(),
        {
            gens.push(None);
        }
        ClockContext { root_hz, gens }
    }

    /// The frequency generator 0 supplies to controller core clocks.
    pub fn core_clock(&self) -> (hz: u32)
        ensures
            hz == self.root(),
    {
        self.root_hz
    }

    /// Allocate generator `idx` to purpose `p`.  A generator already
    /// held for an unrelated purpose is never silently reused: the call
    /// fails with `Error::ClockUnavailable`, as it does for a generator
    /// index outside the tree.  Re-requesting the same purpose succeeds
    /// and changes nothing observable.
    pub fn allocate_generator(&mut self, idx: usize, p: ClockPurpose) -> (r: Result<(), Error>)
        ensures
            final(self).root() == old(self).root(),
            idx >= old(self).gens().len() ==> {
                &&& r == Err::<(), Error>(Error::ClockUnavailable)
                &&& final(self).gens() == old(self).gens()
            },
            idx < old(self).gens().len() && old(self).gens()[idx as int] is Some
                && old(self).gens()[idx as int] != Some(p) ==> {
                &&& r == Err::<(), Error>(Error::ClockUnavailable)
                &&& final(self).gens() == old(self).gens()
            },
            idx < old(self).gens().len() && (old(self).gens()[idx as int] is None
                || old(self).gens()[idx as int] == Some(p)) ==> {
                &&& r == Ok::<(), Error>(())
                &&& final(self).gens() == old(self).gens().update(idx as int, Some(p))
            },
            old(self).wf() ==> final(self).wf(),
    {
        if idx >= self.gens.len() {
            return Err(Error::ClockUnavailable);
        }
        match self.gens[idx] {
            Some(q) => {
                if q == p {
                    self.gens.set(idx, Some(p));
                    assert(final(self).gens() =~= old(self).gens().update(idx as int, Some(p)));
                    Ok(())
                } else {
                    Err(Error::ClockUnavailable)
                }
            },
            None => {
                self.gens.set(idx, Some(p));
                Ok(())
            },
        }
    }

    /// Explicitly reconfigure generator `idx` to purpose `p`.  This is
    /// the deliberate path around the no-silent-reuse rule; generator 0
    /// (the main clock) can never be retargeted.
    pub fn reconfigure_generator(&mut self, idx: usize, p: ClockPurpose)
        requires
            old(self).wf(),
            1 <= idx < old(self).gens().len(),
        ensures
            final(self).wf(),
            final(self).root() == old(self).root(),
            final(self).gens() == old(self).gens().update(idx as int, Some(p)),
    {
        self.gens.set(idx, Some(p));
    }
}

} // verus!
