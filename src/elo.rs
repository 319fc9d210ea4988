//! Rating buckets: the network is conditioned on a category in `0..=10`
//! for each player instead of a raw rating.
use vstd::prelude::*;

verus! {

/// The rating levels that Maia2 distinguishes.
///
/// `EloLow` stands for every rating below 1100 and `EloHigh` for every rating
/// of 2000 and above; each other level is the lower bound of its bucket.
#[derive(Clone, Copy, Debug, PartialEq, Eq, Structural)]
pub enum MaiaElo {
    EloLow,
    Elo1100,
    Elo1200,
    Elo1300,
    Elo1400,
    Elo1500,
    Elo1600,
    Elo1700,
    Elo1800,
    Elo1900,
    EloHigh,
}

/// The representative rating of every level, in the order of the categories.
pub const MAIA_ELOS: [u32; 11] = [1000, 1100, 1200, 1300, 1400, 1500, 1600, 1700, 1800, 1900, 2000];

/// The category of one rating: 0 below 1100, 10 from 2000 on, and one bucket
/// per hundred points in between.
pub open spec fn elo_category(e: u32) -> i64 {
    if e < 1100 {
        0
    } else if e >= 2000 {
        10
    } else {
        ((e - 1100) / 100 + 1) as i64
    }
}

impl MaiaElo {
    /// The representative rating of this level.
    pub open spec fn spec_rating(self) -> u32 {
        match self {
            MaiaElo::EloLow => 1000,
            MaiaElo::Elo1100 => 1100,
            MaiaElo::Elo1200 => 1200,
            MaiaElo::Elo1300 => 1300,
            MaiaElo::Elo1400 => 1400,
            MaiaElo::Elo1500 => 1500,
            MaiaElo::Elo1600 => 1600,
            MaiaElo::Elo1700 => 1700,
            MaiaElo::Elo1800 => 1800,
            MaiaElo::Elo1900 => 1900,
            MaiaElo::EloHigh => 2000,
        }
    }

    /// The representative rating of this level.
    pub fn rating(&self) -> (r: u32)
        ensures
            r == self.spec_rating(),
    {
        match self {
            MaiaElo::EloLow => 1000,
            MaiaElo::Elo1100 => 1100,
            MaiaElo::Elo1200 => 1200,
            MaiaElo::Elo1300 => 1300,
            MaiaElo::Elo1400 => 1400,
            MaiaElo::Elo1500 => 1500,
            MaiaElo::Elo1600 => 1600,
            MaiaElo::Elo1700 => 1700,
            MaiaElo::Elo1800 => 1800,
            MaiaElo::Elo1900 => 1900,
            MaiaElo::EloHigh => 2000,
        }
    }

    /// The category that the network is given for this level.
    pub fn category(&self) -> (r: i64)
        ensures
            r == elo_category(self.spec_rating()),
            0 <= r <= 10,
    {
        let e = self.rating();
        elo_to_category(e)
    }
}

/// The category of a single rating.
pub fn elo_to_category(e: u32) -> (r: i64)
    ensures
        r == elo_category(e),
        0 <= r <= 10,
{
    if e < 1100 {
        0
    } else if e >= 2000 {
        10
    } else {
        ((e - 1100) / 100 + 1) as i64
    }
}

/// Maps each rating to its category, element by element and in order.
pub fn map_elos_to_categories(elo: &[u32]) -> (r: Vec<i64>)
    ensures
        r@.len() == elo@.len(),
        forall|i: int| 0 <= i < elo@.len() ==> #[trigger] r@[i] == elo_category(elo@[i]),
{
    let mut out: Vec<i64> = Vec::with_capacity(elo.len());
    let mut i: usize = 0;
    while i < elo.len()
        invariant
            i <= elo@.len(),
            out@.len() == i,
            forall|j: int| 0 <= j < i ==> #[trigger] out@[j] == elo_category(elo@[j]),
        decreases elo@.len() - i,
    {
        out.push(elo_to_category(elo[i]));
        i += 1;
    }
    out
}

} // verus!
