//! The game at the command line: a score sheet and one roll of a die.

use vstd::prelude::*;
use rand::rngs::ThreadRng;
use crate::game::RollResult;
use crate::random::gen_range;

verus! {

/// A score sheet.
#[derive(Debug, Clone, Copy, PartialEq, Eq, Structural)]
pub struct Score {
    pub ones: Option<u8>,
    pub twos: Option<u8>,
    pub threes: Option<u8>,
    pub fours: Option<u8>,
    pub fives: Option<u8>,
    pub sixes: Option<u8>,
    pub three_kind: bool,
    pub four_kind: bool,
    pub full_house: bool,
    pub sm_straight: bool,
    pub lg_straight: bool,
    pub yahtzee: bool,
    pub bonus_yahtzee: Option<u8>,
    pub chance: Option<u8>,
}

impl Score {
    /// The sheet with nothing scored.
    pub open spec fn blank() -> Score {
        Score {
            ones: None,
            twos: None,
            threes: None,
            fours: None,
            fives: None,
            sixes: None,
            three_kind: false,
            four_kind: false,
            full_house: false,
            sm_straight: false,
            lg_straight: false,
            yahtzee: false,
            bonus_yahtzee: None,
            chance: None,
        }
    }

    pub fn new() -> (s: Score)
        ensures
            s == Score::blank(),
    {
        Score::default()
    }
}

impl Default for Score {
    fn default() -> (s: Score)
        ensures
            s == Score::blank(),
    {
        Score {
            ones: None,
            twos: None,
            threes: None,
            fours: None,
            fives: None,
            sixes: None,
            three_kind: false,
            four_kind: false,
            full_house: false,
            sm_straight: false,
            lg_straight: false,
            yahtzee: false,
            bonus_yahtzee: None,
            chance: None,
        }
    }
}

/// A player and their score sheet.
#[derive(Debug)]
pub struct Player {
    pub score: Score,
}

impl Player {
    pub fn new() -> (p: Player)
        ensures
            p.score == Score::blank(),
    {
        Player { score: Score::new() }
    }
}

/// Rolls one die with the given generator. Every face can come up; which
/// one does is not known.
pub fn roll_die(rng: ThreadRng) -> (r: RollResult) {
    let mut rng = rng;
    let idx = gen_range(&mut rng, 1, 7);
    RollResult::from_roll(idx)
}

} // verus!
