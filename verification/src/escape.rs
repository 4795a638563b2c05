//! Escape-time bookkeeping for one orbit.
//!
//! The caller owns the orbit: it holds the current point, tests it against
//! the escape radius and applies the map. [`EscapeTimer`] owns the decision
//! that goes with each test: whether to iterate once more, and how many
//! iterations were reached when the answer is no.

use vstd::prelude::*;

verus! {

/// The iteration count after one more radius test: it goes up by one while
/// the cap is not reached and the point is still within the radius, and
/// stays where it is otherwise.
pub open spec fn next_steps(steps: nat, limit: nat, within_radius: bool) -> nat {
    if steps < limit && within_radius {
        steps + 1
    } else {
        steps
    }
}

/// The iteration count reached from `steps` by the radius tests in `tests`,
/// taken in order.
pub open spec fn steps_after(steps: nat, limit: nat, tests: Seq<bool>) -> nat
    decreases tests.len(),
{
    if tests.len() == 0 {
        steps
    } else {
        steps_after(next_steps(steps, limit, tests[0]), limit, tests.skip(1))
    }
}

/// Escape speed on the scale 0..=255: the share of the cap that was reached,
/// times 255, rounded down. A cap of zero gives 0, and a count above the cap
/// gives 255.
pub open spec fn intensity_of(steps: nat, limit: nat) -> nat {
    if limit == 0 {
        0
    } else if steps >= limit {
        255
    } else {
        255 * steps / limit
    }
}

/// Scales an iteration count to an intensity.
pub fn intensity_for(iterations: u32, max_iterations: u32) -> (i: u8)
    ensures
        i == intensity_of(iterations as nat, max_iterations as nat),
{
    if max_iterations == 0 {
        0
    } else if iterations >= max_iterations {
        255
    } else {
        let scaled: u64 = 255 * (iterations as u64) / (max_iterations as u64);
        assert(scaled < 255) by (nonlinear_arith)
            requires
                scaled == 255 * (iterations as int) / (max_iterations as int),
                0 <= iterations < max_iterations,
        ;
        scaled as u8
    }
}

/// Counts the iterations of one orbit against the cap.
pub struct EscapeTimer {
    limit: u32,
    steps: u32,
}

impl EscapeTimer {
    #[verifier::type_invariant]
    spec fn within_limit(self) -> bool {
        self.steps <= self.limit
    }

    /// The cap on the iteration count.
    pub closed spec fn limit(self) -> nat {
        self.limit as nat
    }

    /// The iterations counted so far.
    pub closed spec fn steps(self) -> nat {
        self.steps as nat
    }

    /// A timer at zero iterations with the given cap.
    pub fn start(max_iterations: u32) -> (timer: EscapeTimer)
        ensures
            timer.limit() == max_iterations,
            timer.steps() == 0,
    {
        EscapeTimer { limit: max_iterations, steps: 0 }
    }

    /// Takes the outcome of one radius test on the current point and says
    /// whether the map is to be applied once more. The answer is yes, and the
    /// iteration is counted, exactly when the cap is not yet reached and the
    /// point is within the radius.
    pub fn advance(&mut self, within_radius: bool) -> (again: bool)
        ensures
            again == (old(self).steps() < old(self).limit() && within_radius),
            final(self).limit() == old(self).limit(),
            final(self).steps() == next_steps(old(self).steps(), old(self).limit(), within_radius),
            final(self).steps() <= final(self).limit(),
    {
        proof {
            use_type_invariant(&*self);
        }
        if self.steps < self.limit && within_radius {
            self.steps = self.steps + 1;
            true
        } else {
            false
        }
    }

    /// The iterations counted so far, never more than the cap.
    pub fn iterations(&self) -> (n: u32)
        ensures
            n == self.steps(),
            n <= self.limit(),
    {
        proof {
            use_type_invariant(self);
        }
        self.steps
    }

    /// The cap that the timer was started with.
    pub fn max_iterations(&self) -> (n: u32)
        ensures
            n == self.limit(),
    {
        self.limit
    }

    /// The intensity of the count reached so far.
    pub fn intensity(&self) -> (i: u8)
        ensures
            i == intensity_of(self.steps(), self.limit()),
    {
        intensity_for(self.steps, self.limit)
    }
}

/// No run of radius tests takes the count past the cap.
pub proof fn lemma_steps_within_limit(steps: nat, limit: nat, tests: Seq<bool>)
    requires
        steps <= limit,
    ensures
        steps <= steps_after(steps, limit, tests) <= limit,
        steps_after(steps, limit, tests) <= steps + tests.len(),
    decreases tests.len(),
{
    if tests.len() > 0 {
        lemma_steps_within_limit(next_steps(steps, limit, tests[0]), limit, tests.skip(1));
    }
}

/// Every count up to the cap has an intensity on the scale 0..=255, zero
/// iterations give 0 and a count at the cap gives 255.
pub proof fn lemma_intensity_range(steps: nat, limit: nat)
    requires
        steps <= limit,
    ensures
        0 <= intensity_of(steps, limit) <= 255,
        intensity_of(0, limit) == 0,
        limit > 0 ==> intensity_of(limit, limit) == 255,
{
    if limit > 0 && steps < limit {
        assert(0 <= 255 * steps / limit < 255) by (nonlinear_arith)
            requires
                0 <= steps < limit,
        ;
    }
}

} // verus!
