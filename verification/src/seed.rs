//! The pseudo-random pattern that the first generation starts from.

use rand::rngs::ThreadRng;
use rand::Rng;
use vstd::prelude::*;
use crate::renderer::Renderer;
use crate::rule::{ALIVE, DEAD};

verus! {

/// The thread-local generator of the `rand` crate, which seeds itself from
/// the operating system. Nothing is known of its state.
#[verifier::external_type_specification]
#[verifier::external_body]
pub struct ExThreadRng(rand::rngs::ThreadRng);

/// `rand::rng`: a handle to the generator of the calling thread. It panics
/// where the operating system has no entropy to seed the generator from,
/// which no argument can rule out. Trusted, not proved; nothing is claimed
/// of the handle.
#[verifier::external_body]
fn thread_rng() -> ThreadRng {
    rand::rng()
}

/// `Rng::random_ratio`: `true` with a chance of `numerator` in
/// `denominator`. The outside function panics on a zero denominator and on a
/// numerator above the denominator, so both are ruled out here. It also
/// panics where the generator is due for new entropy and the operating
/// system has none to give, which no argument can rule out. Trusted, not
/// proved; nothing is claimed of the outcome.
#[verifier::external_body]
fn random_ratio(rng: &mut ThreadRng, numerator: u32, denominator: u32) -> bool
    requires
        0 < denominator,
        numerator <= denominator,
{
    rng.random_ratio(numerator, denominator)
}

/// The cell that a coin flip stands for: alive on `true`, dead on `false`.
pub open spec fn coin_cell(coin: bool) -> u32 {
    if coin {
        ALIVE
    } else {
        DEAD
    }
}

/// Whether `pattern` is a seed for `cells` cells: one value for each cell,
/// each of them dead or alive.
pub open spec fn is_seed(pattern: Seq<u32>, cells: int) -> bool {
    &&& pattern.len() == cells
    &&& forall|i: int| 0 <= i < pattern.len() ==> pattern[i] == DEAD || pattern[i] == ALIVE
}

/// Turns coin flips into cells, one for one and in order.
pub fn cells_from_coins(coins: &[bool]) -> (pattern: Vec<u32>)
    ensures
        pattern@ == coins@.map_values(|coin: bool| coin_cell(coin)),
        is_seed(pattern@, coins@.len() as int),
{
    let mut pattern: Vec<u32> = Vec::with_capacity(coins.len());
    let mut i: usize = 0;
    while i < coins.len()
        invariant
            i <= coins@.len(),
            pattern@ == coins@.take(i as int).map_values(|coin: bool| coin_cell(coin)),
        decreases coins@.len() - i,
    {
        let cell: u32 = if coins[i] {
            ALIVE
        } else {
            DEAD
        };
        pattern.push(cell);
        i += 1;
        assert(coins@.take(i as int) == coins@.take(i - 1).push(coins@[i - 1]));
    }
    assert(coins@.take(i as int) == coins@);
    pattern
}

/// Flips a fair coin `count` times.
pub fn flip_coins(count: u32) -> (coins: Vec<bool>)
    ensures
        coins@.len() == count,
{
    let mut rng = thread_rng();
    let mut coins: Vec<bool> = Vec::new();
    let mut i: u32 = 0;
    while i < count
        invariant
            i <= count,
            coins@.len() == i,
        decreases count - i,
    {
        let coin = random_ratio(&mut rng, 1, 2);
        coins.push(coin);
        i += 1;
    }
    coins
}

/// A fresh random pattern for `cells` cells, each alive with a chance of one
/// half and independently of the others.
pub fn seed_pattern(cells: u32) -> (pattern: Vec<u32>)
    ensures
        is_seed(pattern@, cells as int),
{
    let coins = flip_coins(cells);
    cells_from_coins(coins.as_slice())
}

impl Renderer {
    /// A fresh random first generation for this grid, row by row.
    pub fn seed(&self) -> (pattern: Vec<u32>)
        ensures
            is_seed(pattern@, self.width() * self.height()),
    {
        seed_pattern(self.cell_count())
    }
}

} // verus!
