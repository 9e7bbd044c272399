//! Round state: the two players, the round timer, and the per-frame
//! update. Drawing is the host's business and happens outside the library.

use vstd::prelude::*;

verus! {

use crate::character::{
    CharacterDefinition, CharacterState, CharacterStats, MatchResult, decide_timeout,
    spec_timeout_result,
};
use crate::input_buffer::{spec_pushed, InputBuffer, InputState};

pub struct PlayerGameState {
    pub character: CharacterDefinition,
    pub character_stats: CharacterStats,
    pub win_count: usize,
    pub input_buffer: InputBuffer,
    pub pos_x: isize,
    pub pos_y: isize,
    pub character_state: CharacterState,
    pub freeze_frames: usize,
}

pub struct MatchState {
    pub timer: usize,
    pub player_1: PlayerGameState,
    pub player_2: PlayerGameState,
}

impl MatchState {
    /// One frame of the match: both players' inputs are recorded and the
    /// round timer advances; at zero the round is decided by remaining
    /// health.
    pub fn update(&mut self, p1_inputs: InputState, p2_inputs: InputState) -> (r: Option<
        MatchResult,
    >)
        requires
            old(self).player_1.input_buffer.well_formed(),
            old(self).player_2.input_buffer.well_formed(),
            old(self).player_1.input_buffer@.last().state == p1_inputs ==> old(
                self,
            ).player_1.input_buffer@.last().frame_count < usize::MAX,
            old(self).player_2.input_buffer@.last().state == p2_inputs ==> old(
                self,
            ).player_2.input_buffer@.last().frame_count < usize::MAX,
        ensures
            final(self).player_1.input_buffer@ == spec_pushed(
                old(self).player_1.input_buffer@,
                p1_inputs,
            ),
            final(self).player_2.input_buffer@ == spec_pushed(
                old(self).player_2.input_buffer@,
                p2_inputs,
            ),
            final(self).player_1.input_buffer.well_formed(),
            final(self).player_2.input_buffer.well_formed(),
            old(self).timer == 0 ==> final(self).timer == 0 && r == Some(
                spec_timeout_result(
                    old(self).player_1.character_stats.health as int,
                    old(self).player_1.character.max_hp as int,
                    old(self).player_2.character_stats.health as int,
                    old(self).player_2.character.max_hp as int,
                ),
            ),
            old(self).timer > 0 ==> final(self).timer == old(self).timer - 1 && r is None,
            final(self).player_1 == (PlayerGameState {
                input_buffer: final(self).player_1.input_buffer,
                ..old(self).player_1
            }),
            final(self).player_2 == (PlayerGameState {
                input_buffer: final(self).player_2.input_buffer,
                ..old(self).player_2
            }),
    {
        self.player_1.input_buffer.push(p1_inputs);
        self.player_2.input_buffer.push(p2_inputs);
        self.update_timer()
    }

    /// Advances the round timer; a round at zero is decided by which player
    /// keeps the larger fraction of their health.
    fn update_timer(&mut self) -> (r: Option<MatchResult>)
        ensures
            *final(self) == (MatchState {
                timer: if old(self).timer == 0 {
                    0
                } else {
                    (old(self).timer - 1) as usize
                },
                ..*old(self)
            }),
            old(self).timer == 0 ==> r == Some(
                spec_timeout_result(
                    old(self).player_1.character_stats.health as int,
                    old(self).player_1.character.max_hp as int,
                    old(self).player_2.character_stats.health as int,
                    old(self).player_2.character.max_hp as int,
                ),
            ),
            old(self).timer > 0 ==> r is None,
    {
        if self.timer == 0 {
            Some(
                decide_timeout(
                    self.player_1.character_stats.health,
                    self.player_1.character.max_hp,
                    self.player_2.character_stats.health,
                    self.player_2.character.max_hp,
                ),
            )
        } else {
            self.timer = self.timer - 1;
            None
        }
    }
}

} // verus!
