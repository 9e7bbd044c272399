//! Input notation and command lists.
//!
//! Commands are written in numpad notation: a digit `1`..`9` names a stick
//! direction (the layout of a number pad, `5` being neutral) and one or two
//! letters name the button, so `"2a"` is down plus the light attack and
//! `"6as"` is forward plus throw.

use vstd::prelude::*;

verus! {

use vstd::string::StringSliceAdditionalSpecFns;

/// The byte value of `'a'`.
pub const BYTE_A: u8 = 97;

/// The byte value of `'b'`.
pub const BYTE_B: u8 = 98;

/// The byte value of `'c'`.
pub const BYTE_C: u8 = 99;

/// The byte value of `'s'`.
pub const BYTE_S: u8 = 115;

/// The byte value of `'1'`.
pub const BYTE_ONE: u8 = 49;

/// The byte value of `'9'`.
pub const BYTE_NINE: u8 = 57;

#[derive(Clone, Copy, PartialEq, Eq, Structural, Debug)]
pub enum VerticalInput {
    Neutral,
    Up,
    Down,
}

#[derive(Clone, Copy, PartialEq, Eq, Structural, Debug)]
pub enum HorizontalInput {
    Neutral,
    Forward,
    Backward,
}

#[derive(Clone, Copy, PartialEq, Eq, Structural, Debug)]
pub struct DirectionInput {
    pub vertical: VerticalInput,
    pub horizontal: HorizontalInput,
}

#[derive(Clone, Copy, PartialEq, Eq, Structural, Debug)]
pub enum ButtonInput {
    /// Light attack.
    A,
    /// Medium attack.
    B,
    /// Heavy attack.
    C,
    /// Special.
    S,
    /// Throw.
    AS,
    /// Boost.
    BS,
    /// Super.
    CS,
}

#[derive(Clone, Copy, PartialEq, Eq, Structural, Debug)]
pub struct InputCommand {
    pub direction: DirectionInput,
    pub button: ButtonInput,
}

#[derive(Clone, Copy, PartialEq, Eq, Structural, Debug)]
pub enum MoveType {
    Normal,
    Special,
    Super,
}

pub struct Move {
    pub command: InputCommand,
    pub move_type: MoveType,
}

pub struct CommandList {
    pub moves: Vec<Move>,
}

impl Default for VerticalInput {
    fn default() -> (r: Self)
        ensures
            r == VerticalInput::Neutral,
    {
        VerticalInput::Neutral
    }
}

impl Default for HorizontalInput {
    fn default() -> (r: Self)
        ensures
            r == HorizontalInput::Neutral,
    {
        HorizontalInput::Neutral
    }
}

impl Default for DirectionInput {
    fn default() -> (r: Self)
        ensures
            r == (DirectionInput {
                vertical: VerticalInput::Neutral,
                horizontal: HorizontalInput::Neutral,
            }),
    {
        DirectionInput { vertical: VerticalInput::Neutral, horizontal: HorizontalInput::Neutral }
    }
}

/// The vertical component named by a numpad digit: the bottom row is down,
/// the middle row neutral, the top row up.
pub open spec fn spec_vertical(c: char) -> VerticalInput {
    if c == '1' || c == '2' || c == '3' {
        VerticalInput::Down
    } else if c == '7' || c == '8' || c == '9' {
        VerticalInput::Up
    } else {
        VerticalInput::Neutral
    }
}

/// The horizontal component named by a numpad digit: the left column is
/// backward, the middle column neutral, the right column forward.
pub open spec fn spec_horizontal(c: char) -> HorizontalInput {
    if c == '1' || c == '4' || c == '7' {
        HorizontalInput::Backward
    } else if c == '3' || c == '6' || c == '9' {
        HorizontalInput::Forward
    } else {
        HorizontalInput::Neutral
    }
}

pub open spec fn spec_direction(c: char) -> DirectionInput {
    DirectionInput { vertical: spec_vertical(c), horizontal: spec_horizontal(c) }
}

impl DirectionInput {
    /// Reads one digit of numpad notation:
    /// ```text
    /// 7 8 9
    /// 4 5 6
    /// 1 2 3
    /// ```
    pub fn from_notation(input: &char) -> (r: Self)
        requires
            '1' <= *input <= '9',
        ensures
            r == spec_direction(*input),
    {
        match *input {
            '1' => DirectionInput {
                vertical: VerticalInput::Down,
                horizontal: HorizontalInput::Backward,
            },
            '2' => DirectionInput {
                vertical: VerticalInput::Down,
                horizontal: HorizontalInput::Neutral,
            },
            '3' => DirectionInput {
                vertical: VerticalInput::Down,
                horizontal: HorizontalInput::Forward,
            },
            '4' => DirectionInput {
                vertical: VerticalInput::Neutral,
                horizontal: HorizontalInput::Backward,
            },
            '5' => DirectionInput {
                vertical: VerticalInput::Neutral,
                horizontal: HorizontalInput::Neutral,
            },
            '6' => DirectionInput {
                vertical: VerticalInput::Neutral,
                horizontal: HorizontalInput::Forward,
            },
            '7' => DirectionInput {
                vertical: VerticalInput::Up,
                horizontal: HorizontalInput::Backward,
            },
            '8' => DirectionInput {
                vertical: VerticalInput::Up,
                horizontal: HorizontalInput::Neutral,
            },
            _ => DirectionInput {
                vertical: VerticalInput::Up,
                horizontal: HorizontalInput::Forward,
            },
        }
    }
}

/// The button named by a notation suffix, or `None` where the bytes are not
/// a button name.
pub open spec fn spec_button(bs: Seq<u8>) -> Option<ButtonInput> {
    if bs =~= seq![BYTE_A] {
        Some(ButtonInput::A)
    } else if bs =~= seq![BYTE_B] {
        Some(ButtonInput::B)
    } else if bs =~= seq![BYTE_C] {
        Some(ButtonInput::C)
    } else if bs =~= seq![BYTE_S] {
        Some(ButtonInput::S)
    } else if bs =~= seq![BYTE_A, BYTE_S] {
        Some(ButtonInput::AS)
    } else if bs =~= seq![BYTE_B, BYTE_S] {
        Some(ButtonInput::BS)
    } else if bs =~= seq![BYTE_C, BYTE_S] {
        Some(ButtonInput::CS)
    } else {
        None
    }
}

impl ButtonInput {
    pub fn from_notation(input: &str) -> (r: Self)
        requires
            spec_button(input.spec_bytes()) is Some,
        ensures
            Some(r) == spec_button(input.spec_bytes()),
    {
        Self::from_notation_bytes(input.as_bytes())
    }

    pub fn from_notation_bytes(bytes: &[u8]) -> (r: Self)
        requires
            spec_button(bytes@) is Some,
        ensures
            Some(r) == spec_button(bytes@),
    {
        if bytes.len() == 1 {
            let b = bytes[0];
            if b == BYTE_A {
                ButtonInput::A
            } else if b == BYTE_B {
                ButtonInput::B
            } else if b == BYTE_C {
                ButtonInput::C
            } else {
                assert(bytes@ =~= seq![BYTE_S]);
                ButtonInput::S
            }
        } else {
            let b = bytes[0];
            assert(bytes@ =~= seq![bytes@[0], bytes@[1]]);
            if b == BYTE_A {
                ButtonInput::AS
            } else if b == BYTE_B {
                ButtonInput::BS
            } else {
                ButtonInput::CS
            }
        }
    }
}

/// A whole command in notation: one direction digit followed by a button
/// name, or `None` where the bytes are not of that shape.
pub open spec fn spec_command(bs: Seq<u8>) -> Option<InputCommand> {
    if bs.len() < 2 || bs.len() > 3 {
        None
    } else if !(BYTE_ONE <= bs[0] <= BYTE_NINE) {
        None
    } else {
        match spec_button(bs.skip(1)) {
            Some(button) => Some(
                InputCommand { direction: spec_direction(bs[0] as char), button },
            ),
            None => None,
        }
    }
}

impl InputCommand {
    pub fn from_notation(input: &str) -> (r: Self)
        requires
            spec_command(input.spec_bytes()) is Some,
        ensures
            Some(r) == spec_command(input.spec_bytes()),
    {
        let bytes = input.as_bytes();
        let button = if bytes.len() == 2 {
            let tail = [bytes[1]];
            assert(tail@ =~= bytes@.skip(1));
            ButtonInput::from_notation_bytes(tail.as_slice())
        } else {
            let tail = [bytes[1], bytes[2]];
            assert(tail@ =~= bytes@.skip(1));
            ButtonInput::from_notation_bytes(tail.as_slice())
        };
        let digit = bytes[0] as char;
        assert('1' <= digit <= '9');
        Self { direction: DirectionInput::from_notation(&digit), button }
    }
}

/// The first move of the list whose command equals `cmd`.
pub open spec fn spec_first_move(moves: Seq<Move>, cmd: InputCommand) -> Option<Move>
    decreases moves.len(),
{
    if moves.len() == 0 {
        None
    } else if moves[0].command == cmd {
        Some(moves[0])
    } else {
        spec_first_move(moves.skip(1), cmd)
    }
}

impl CommandList {
    pub fn get_move(&self, input: InputCommand) -> (r: Option<&Move>)
        ensures
            match r {
                Some(m) => Some(*m) == spec_first_move(self.moves@, input),
                None => spec_first_move(self.moves@, input) is None,
            },
    {
        let n = self.moves.len();
        proof {
            assert(self.moves@.skip(0) =~= self.moves@);
        }
        for i in 0..n
            invariant
                n == self.moves@.len(),
                forall|j: int| 0 <= j < i ==> self.moves@[j].command != input,
                spec_first_move(self.moves@, input) == spec_first_move(self.moves@.skip(i as int), input),
        {
            proof {
                assert(self.moves@.skip(i as int)[0] == self.moves@[i as int]);
                assert(self.moves@.skip(i as int).skip(1) =~= self.moves@.skip(i + 1));
            }
            if self.moves[i].command == input {
                return Some(&self.moves[i]);
            }
        }
        proof {
            assert(self.moves@.skip(n as int).len() == 0);
        }
        None
    }
}

} // verus!
