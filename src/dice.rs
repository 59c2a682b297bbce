//! The dice engine: a roll specification and a seedable source of die faces.

use rand::rngs::StdRng;
use rand::Rng;
use rand::SeedableRng;
use vstd::prelude::*;

verus! {

/// `rand::rngs::StdRng`, carried as an opaque value.
#[verifier::external_type_specification]
#[verifier::external_body]
pub struct ExStdRng(StdRng);

/// Relies on `rand::SeedableRng::seed_from_u64`: builds a generator from a seed
/// (it cannot fail).
#[verifier::external_body]
fn rng_from_seed(seed: u64) -> (r: StdRng) {
    StdRng::seed_from_u64(seed)
}

/// Relies on `rand::Rng::gen_range` over the inclusive range `1..=sides`: the
/// value lies in that range, which is not empty.
#[verifier::external_body]
fn draw_face(rng: &mut StdRng, sides: u32) -> (r: u32)
    requires
        sides >= 1,
    ensures
        1 <= r <= sides,
{
    rng.gen_range(1..=sides)
}

/// The source of randomness that every roll draws from. It is handed to the
/// operations that roll, so that a fixed seed makes a run reproducible.
pub struct Roller {
    rng: StdRng,
}

impl Roller {
    /// A roller whose sequence of faces is fixed by `seed`.
    pub fn seeded(seed: u64) -> (r: Roller) {
        Roller { rng: rng_from_seed(seed) }
    }

    /// One face of a die with `sides` faces.
    pub fn face(&mut self, sides: u32) -> (r: u32)
        requires
            sides >= 1,
        ensures
            1 <= r <= sides,
    {
        draw_face(&mut self.rng, sides)
    }
}

/// A roll specification: `count` dice with `sides` faces each.
#[derive(Clone, Copy, Debug, PartialEq, Eq)]
pub struct Dice {
    pub count: u32,
    pub sides: u32,
}

/// The total of one evaluation of a `Dice`.
#[derive(Clone, Copy, Debug, PartialEq, Eq)]
pub struct RollResult {
    pub total: u64,
}

impl Dice {
    /// At least one die, each with at least one face.
    pub open spec fn wf(&self) -> bool {
        self.count >= 1 && self.sides >= 1
    }

    /// The smallest total that the dice can show.
    pub open spec fn min_total(&self) -> int {
        self.count as int
    }

    /// The largest total that the dice can show.
    pub open spec fn max_total(&self) -> int {
        self.count as int * self.sides as int
    }

    /// Whether `total` is a total that these dice can show.
    pub open spec fn can_show(&self, total: int) -> bool {
        self.min_total() <= total <= self.max_total()
    }

    /// No total of two `u32` factors reaches past `u32::MAX * u32::MAX`.
    pub proof fn lemma_max_total_bound(&self)
        ensures
            0 <= self.max_total() <= u32::MAX as int * u32::MAX as int,
    {
        let c = self.count as int;
        let s = self.sides as int;
        assert(0 <= c * s <= u32::MAX as int * u32::MAX as int) by (nonlinear_arith)
            requires
                0 <= c <= u32::MAX,
                0 <= s <= u32::MAX,
        ;
    }

    /// Sums `count` independent faces drawn from `roller`.
    pub fn roll(&self, roller: &mut Roller) -> (r: RollResult)
        requires
            self.wf(),
        ensures
            self.can_show(r.total as int),
    {
        let mut total: u64 = 0;
        let mut i: u32 = 0;
        while i < self.count
            invariant
                self.wf(),
                i <= self.count,
                i as int <= total as int <= i as int * self.sides as int,
            decreases self.count - i,
        {
            let f = roller.face(self.sides);
            proof {
                lemma_step_bound(i as int, self.count as int, self.sides as int);
            }
            total = total + f as u64;
            i = i + 1;
        }
        RollResult { total }
    }
}

proof fn lemma_step_bound(i: int, count: int, sides: int)
    requires
        0 <= i < count <= u32::MAX,
        1 <= sides <= u32::MAX,
    ensures
        (i + 1) * sides <= u64::MAX,
        i * sides + sides == (i + 1) * sides,
{
    assert((i + 1) * sides <= u32::MAX as int * u32::MAX as int) by (nonlinear_arith)
        requires
            0 <= i + 1 <= u32::MAX,
            1 <= sides <= u32::MAX,
    ;
    assert((i + 1) * sides == i * sides + sides) by (nonlinear_arith);
}

} // verus!
