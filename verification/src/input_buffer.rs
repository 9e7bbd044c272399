//! A bounded history of controller states.
//!
//! Each entry records one held controller state and for how many extra frames
//! it was held. Pushing the state already at the back only bumps that count;
//! a new state appends an entry, dropping the oldest once the buffer holds
//! `INPUT_BUFFER_LENGTH` entries.

use vstd::prelude::*;

verus! {

use crate::command_list::DirectionInput;

pub const INPUT_BUFFER_LENGTH: usize = 32;

#[derive(Clone, Copy, PartialEq, Eq, Structural, Debug)]
pub struct InputState {
    pub direction: DirectionInput,
    pub a_pressed: bool,
    pub b_pressed: bool,
    pub c_pressed: bool,
    pub s_pressed: bool,
}

impl Default for InputState {
    fn default() -> (r: Self)
        ensures
            r == spec_default_input_state(),
    {
        InputState {
            direction: Default::default(),
            a_pressed: false,
            b_pressed: false,
            c_pressed: false,
            s_pressed: false,
        }
    }
}

pub open spec fn spec_default_input_state() -> InputState {
    InputState {
        direction: DirectionInput {
            vertical: crate::command_list::VerticalInput::Neutral,
            horizontal: crate::command_list::HorizontalInput::Neutral,
        },
        a_pressed: false,
        b_pressed: false,
        c_pressed: false,
        s_pressed: false,
    }
}

#[derive(Clone, Copy, PartialEq, Eq, Structural, Debug)]
pub struct FrameCommandState {
    /// How many frames beyond the first the state has been held.
    pub frame_count: usize,
    pub state: InputState,
}

impl FrameCommandState {
    pub fn new(state: InputState) -> (r: Self)
        ensures
            r == (FrameCommandState { frame_count: 0, state }),
    {
        Self { frame_count: 0, state }
    }
}

impl Default for FrameCommandState {
    fn default() -> (r: Self)
        ensures
            r == (FrameCommandState { frame_count: 0, state: spec_default_input_state() }),
    {
        FrameCommandState { frame_count: 0, state: Default::default() }
    }
}

/// What the buffer holds after recording one more frame of `input`: the
/// back entry's count bumped where the state repeats, else a fresh entry,
/// the oldest entry falling out at capacity.
pub open spec fn spec_pushed(buffer: Seq<FrameCommandState>, input: InputState) -> Seq<
    FrameCommandState,
> {
    if buffer.last().state == input {
        buffer.update(
            buffer.len() - 1,
            FrameCommandState {
                frame_count: (buffer.last().frame_count + 1) as usize,
                state: input,
            },
        )
    } else if buffer.len() == INPUT_BUFFER_LENGTH {
        buffer.skip(1).push(FrameCommandState { frame_count: 0, state: input })
    } else {
        buffer.push(FrameCommandState { frame_count: 0, state: input })
    }
}

pub struct InputBuffer {
    buffer: std::collections::VecDeque<FrameCommandState>,
}

impl InputBuffer {
    /// The recorded history, oldest entry first.
    pub closed spec fn view(&self) -> Seq<FrameCommandState> {
        self.buffer@
    }

    /// The buffer always holds at least one entry and never more than
    /// `INPUT_BUFFER_LENGTH`.
    pub open spec fn well_formed(&self) -> bool {
        1 <= self@.len() <= INPUT_BUFFER_LENGTH
    }

    pub fn new() -> (r: Self)
        ensures
            r@ =~= seq![
                FrameCommandState { frame_count: 0, state: spec_default_input_state() },
            ],
            r.well_formed(),
    {
        let mut buffer = std::collections::VecDeque::with_capacity(INPUT_BUFFER_LENGTH);
        buffer.push_back(FrameCommandState::default());
        Self { buffer }
    }

    pub fn get_last_entry(&self) -> (r: &FrameCommandState)
        requires
            self.well_formed(),
        ensures
            *r == self@.last(),
    {
        &self.buffer[self.buffer.len() - 1]
    }

    /// Records the controller state of one more frame.
    pub fn push(&mut self, input_state: InputState)
        requires
            old(self).well_formed(),
            old(self)@.last().state == input_state ==> old(self)@.last().frame_count < usize::MAX,
        ensures
            final(self).well_formed(),
            final(self)@ == spec_pushed(old(self)@, input_state),
    {
        let ghost pre = self.buffer@;
        let last = self.buffer.pop_back().unwrap();
        if last.state == input_state {
            self.buffer.push_back(
                FrameCommandState { frame_count: last.frame_count + 1, state: last.state },
            );
            proof {
                assert(self.buffer@ =~= pre.update(
                    pre.len() - 1,
                    FrameCommandState {
                        frame_count: (pre.last().frame_count + 1) as usize,
                        state: input_state,
                    },
                ));
            }
            return ;
        }
        self.buffer.push_back(last);
        proof {
            assert(self.buffer@ =~= pre);
        }
        if self.buffer.len() == INPUT_BUFFER_LENGTH {
            self.buffer.pop_front();
        }
        self.buffer.push_back(FrameCommandState::new(input_state));
        proof {
            if pre.len() == INPUT_BUFFER_LENGTH {
                assert(self.buffer@ =~= pre.skip(1).push(
                    FrameCommandState { frame_count: 0, state: input_state },
                ));
            } else {
                assert(self.buffer@ =~= pre.push(
                    FrameCommandState { frame_count: 0, state: input_state },
                ));
            }
        }
    }
}

} // verus!
