//! The dice source: a generator seeded from a 64-bit number, from which every
//! roll of a session is drawn.
//!
//! The generator itself is `rand`'s `StdRng`. What it returns is not restated
//! here: each draw is named as a function of the generator's state and of the
//! range asked for, which is what makes a session reproducible.

use rand::rngs::StdRng;
use rand::Rng;
use rand::SeedableRng;
use vstd::prelude::*;

verus! {

/// `rand::rngs::StdRng`, carried as an opaque value.
#[verifier::external_type_specification]
#[verifier::external_body]
pub struct ExStdRng(StdRng);

/// The generator that `StdRng::seed_from_u64` builds from `seed`.
pub uninterp spec fn seeded_generator(seed: u64) -> StdRng;

/// What `Rng::gen_range(low..=high)` does on a generator in state `rng`: the
/// number it returns, and the state it leaves the generator in.
pub uninterp spec fn uniform_sample(rng: StdRng, low: i32, high: i32) -> (i32, StdRng);

/// Calls `StdRng::seed_from_u64` (`SeedableRng::seed_from_u64`, which
/// `StdRng` does not override). The seed alone decides the generator that
/// comes back.
#[verifier::external_body]
fn seed_generator(seed: u64) -> (rng: StdRng)
    ensures
        rng == seeded_generator(seed),
{
    StdRng::seed_from_u64(seed)
}

/// Calls `Rng::gen_range` with the inclusive range `low..=high`, which must
/// not be empty: on an empty range `gen_range` panics. The number returned
/// lies in the range; it and the state the generator is left in are decided
/// by the state before the call and by the range. Nothing is claimed of how
/// the numbers are spread over the range.
#[verifier::external_body]
fn sample_inclusive(rng: &mut StdRng, low: i32, high: i32) -> (r: i32)
    requires
        low <= high,
    ensures
        (r, *final(rng)) == uniform_sample(*old(rng), low, high),
        low <= r <= high,
{
    rng.gen_range(low..=high)
}

/// `StdRng`'s `Clone::clone`: the copy is a generator in the same state.
pub assume_specification[ <StdRng as Clone>::clone ](rng: &StdRng) -> (copy: StdRng)
    ensures
        copy == *rng,
;

/// A seeded source of dice rolls.
#[derive(Debug)]
pub struct DiceRoller {
    rng: StdRng,
}

impl Clone for DiceRoller {
    /// A second roller in the same state: both give the same rolls from here on.
    fn clone(&self) -> (copy: Self)
        ensures
            copy == *self,
    {
        DiceRoller { rng: self.rng.clone() }
    }
}

impl DiceRoller {
    /// The roller that a seed gives.
    pub closed spec fn seeded(seed: u64) -> DiceRoller {
        DiceRoller { rng: seeded_generator(seed) }
    }

    /// The number that the next draw from `low..=high` gives.
    pub closed spec fn draw(self, low: i32, high: i32) -> int {
        uniform_sample(self.rng, low, high).0 as int
    }

    /// The roller after a draw from `low..=high`.
    pub closed spec fn after_draw(self, low: i32, high: i32) -> DiceRoller {
        DiceRoller { rng: uniform_sample(self.rng, low, high).1 }
    }

    /// The number that the next twenty-sided die shows.
    pub open spec fn d20_value(self) -> int {
        self.draw(1, 20)
    }

    /// The roller after a twenty-sided die was thrown.
    pub open spec fn after_d20(self) -> DiceRoller {
        self.after_draw(1, 20)
    }

    /// The sum of the next `count` dice of `sides` sides, thrown one after
    /// the other.
    pub open spec fn roll_total(self, count: nat, sides: u8) -> int
        decreases count,
    {
        if count == 0 {
            0
        } else {
            self.draw(1, sides as i32) + self.after_draw(1, sides as i32).roll_total(
                (count - 1) as nat,
                sides,
            )
        }
    }

    /// The roller after `count` dice of `sides` sides were thrown.
    pub open spec fn after_roll(self, count: nat, sides: u8) -> DiceRoller
        decreases count,
    {
        if count == 0 {
            self
        } else {
            self.after_draw(1, sides as i32).after_roll((count - 1) as nat, sides)
        }
    }

    /// A roller seeded with `seed`.
    pub fn new(seed: u64) -> (roller: Self)
        ensures
            roller == Self::seeded(seed),
    {
        DiceRoller { rng: seed_generator(seed) }
    }

    /// Throws one twenty-sided die.
    pub fn d20(&mut self) -> (r: i32)
        ensures
            r == old(self).d20_value(),
            *final(self) == old(self).after_d20(),
            1 <= r <= 20,
    {
        sample_inclusive(&mut self.rng, 1, 20)
    }

    /// Throws `count` dice of `sides` sides and adds them up. Without dice the
    /// sum is 0 and nothing is drawn; a die must have at least one side.
    pub fn roll(&mut self, count: u8, sides: u8) -> (r: i32)
        requires
            count > 0 ==> sides > 0,
        ensures
            r == old(self).roll_total(count as nat, sides),
            *final(self) == old(self).after_roll(count as nat, sides),
            count <= r <= count * sides,
    {
        let mut total: i32 = 0;
        let mut thrown: u8 = 0;
        while thrown < count
            invariant
                thrown <= count,
                count > 0 ==> sides > 0,
                thrown <= total <= thrown * sides,
                old(self).roll_total(count as nat, sides) == total + self.roll_total(
                    (count - thrown) as nat,
                    sides,
                ),
                old(self).after_roll(count as nat, sides) == self.after_roll(
                    (count - thrown) as nat,
                    sides,
                ),
            decreases count - thrown,
        {
            assert(thrown * sides + sides == (thrown + 1) * sides) by (nonlinear_arith);
            assert(thrown * sides <= 255 * 255) by (nonlinear_arith)
                requires
                    thrown <= 255,
                    sides <= 255,
            ;
            let face = sample_inclusive(&mut self.rng, 1, sides as i32);
            total = total + face;
            thrown = thrown + 1;
        }
        total
    }
}

} // verus!
