//! Characters and round bookkeeping: the static definition a character is
//! loaded from, the per-round stats, the state a character can be in, and
//! the timeout rule that ends a round.

use vstd::prelude::*;

verus! {

use crate::command_list::{CommandList, Move};

/// The static description of a playable character. Mesh and animation data
/// live with the renderer; the gameplay core reads only these fields.
pub struct CharacterDefinition {
    pub name: String,
    pub max_hp: usize,
    pub forward_walk_speed: isize,
    pub backward_walk_speed: isize,
    pub command_list: CommandList,
}

pub struct CharacterStats {
    pub health: usize,
    pub boost_meter: usize,
    pub super_meter: usize,
}

/// The boost meter a character starts a round with.
pub const STARTING_BOOST: usize = 1000;

impl CharacterStats {
    pub fn new(definition: &CharacterDefinition) -> (r: Self)
        ensures
            r == (CharacterStats {
                health: definition.max_hp,
                boost_meter: STARTING_BOOST,
                super_meter: 0,
            }),
    {
        Self { health: definition.max_hp, boost_meter: STARTING_BOOST, super_meter: 0 }
    }
}

pub enum CharacterState {
    Idle,
    Walking,
    Jumping,
    Attacking(Move),
    Blockstun,
    Hitstun(usize),
    KnockedDown(usize),
    Juggle,
}

#[derive(Clone, Copy, PartialEq, Eq, Structural, Debug)]
pub enum MatchResult {
    Player1Win,
    Player2Win,
    Draw,
}

/// Which player a timeout favours: the one whose remaining health is the
/// larger fraction of their maximum. The fractions `h1 / max1` and
/// `h2 / max2` are compared exactly, as `h1 * max2` against `h2 * max1`.
pub open spec fn spec_timeout_result(h1: int, max1: int, h2: int, max2: int) -> MatchResult {
    if h1 * max2 < h2 * max1 {
        MatchResult::Player2Win
    } else if h1 * max2 == h2 * max1 {
        MatchResult::Draw
    } else {
        MatchResult::Player1Win
    }
}

/// Decides a round that ran out of time from both players' remaining and
/// maximum health.
pub fn decide_timeout(p1_health: usize, p1_max_hp: usize, p2_health: usize, p2_max_hp: usize) -> (r:
    MatchResult)
    ensures
        r == spec_timeout_result(p1_health as int, p1_max_hp as int, p2_health as int, p2_max_hp as int),
{
    proof {
        lemma_timeout_products_fit(p1_health as int, p2_max_hp as int);
        lemma_timeout_products_fit(p2_health as int, p1_max_hp as int);
    }
    let lhs = (p1_health as u128) * (p2_max_hp as u128);
    let rhs = (p2_health as u128) * (p1_max_hp as u128);
    if lhs < rhs {
        MatchResult::Player2Win
    } else if lhs == rhs {
        MatchResult::Draw
    } else {
        MatchResult::Player1Win
    }
}

/// The product of two values that fit in a machine word fits in a double
/// word.
proof fn lemma_timeout_products_fit(a: int, b: int)
    requires
        0 <= a <= usize::MAX,
        0 <= b <= usize::MAX,
    ensures
        a * b <= u128::MAX,
{
    assert(a * b <= (usize::MAX as int) * (usize::MAX as int)) by (nonlinear_arith)
        requires
            0 <= a <= usize::MAX,
            0 <= b <= usize::MAX,
    ;
}

} // verus!
