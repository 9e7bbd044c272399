use fighting_frame::command_list::{
    ButtonInput, CommandList, DirectionInput, HorizontalInput, InputCommand, Move, MoveType,
    VerticalInput,
};

#[test]
fn direction_neutral() {
    let d = DirectionInput::from_notation(&'5');
    assert_eq!(d.vertical, VerticalInput::Neutral);
    assert_eq!(d.horizontal, HorizontalInput::Neutral);
}

#[test]
fn direction_corners() {
    let d1 = DirectionInput::from_notation(&'1');
    assert_eq!(d1.vertical, VerticalInput::Down);
    assert_eq!(d1.horizontal, HorizontalInput::Backward);

    let d3 = DirectionInput::from_notation(&'3');
    assert_eq!(d3.vertical, VerticalInput::Down);
    assert_eq!(d3.horizontal, HorizontalInput::Forward);

    let d7 = DirectionInput::from_notation(&'7');
    assert_eq!(d7.vertical, VerticalInput::Up);
    assert_eq!(d7.horizontal, HorizontalInput::Backward);

    let d9 = DirectionInput::from_notation(&'9');
    assert_eq!(d9.vertical, VerticalInput::Up);
    assert_eq!(d9.horizontal, HorizontalInput::Forward);
}

#[test]
fn direction_edges() {
    assert_eq!(DirectionInput::from_notation(&'2').vertical, VerticalInput::Down);
    assert_eq!(DirectionInput::from_notation(&'2').horizontal, HorizontalInput::Neutral);
    assert_eq!(DirectionInput::from_notation(&'4').horizontal, HorizontalInput::Backward);
    assert_eq!(DirectionInput::from_notation(&'4').vertical, VerticalInput::Neutral);
    assert_eq!(DirectionInput::from_notation(&'6').horizontal, HorizontalInput::Forward);
    assert_eq!(DirectionInput::from_notation(&'8').vertical, VerticalInput::Up);
}

#[test]
fn buttons_single() {
    assert_eq!(ButtonInput::from_notation("a"), ButtonInput::A);
    assert_eq!(ButtonInput::from_notation("b"), ButtonInput::B);
    assert_eq!(ButtonInput::from_notation("c"), ButtonInput::C);
    assert_eq!(ButtonInput::from_notation("s"), ButtonInput::S);
}

#[test]
fn buttons_paired() {
    assert_eq!(ButtonInput::from_notation("as"), ButtonInput::AS);
    assert_eq!(ButtonInput::from_notation("bs"), ButtonInput::BS);
    assert_eq!(ButtonInput::from_notation("cs"), ButtonInput::CS);
}

#[test]
fn buttons_from_bytes() {
    assert_eq!(ButtonInput::from_notation_bytes(&[b'a']), ButtonInput::A);
    assert_eq!(ButtonInput::from_notation_bytes(&[b'c', b's']), ButtonInput::CS);
}

#[test]
fn command_from_notation() {
    let c = InputCommand::from_notation("2a");
    assert_eq!(c.direction.vertical, VerticalInput::Down);
    assert_eq!(c.direction.horizontal, HorizontalInput::Neutral);
    assert_eq!(c.button, ButtonInput::A);

    let c = InputCommand::from_notation("6as");
    assert_eq!(c.direction.horizontal, HorizontalInput::Forward);
    assert_eq!(c.button, ButtonInput::AS);
}

#[test]
fn get_move_finds_first_match() {
    let list = CommandList {
        moves: vec![
            Move { command: InputCommand::from_notation("5a"), move_type: MoveType::Normal },
            Move { command: InputCommand::from_notation("2s"), move_type: MoveType::Special },
            Move { command: InputCommand::from_notation("2s"), move_type: MoveType::Super },
        ],
    };
    let m = list.get_move(InputCommand::from_notation("2s")).expect("move expected");
    assert!(matches!(m.move_type, MoveType::Special));
    assert!(list.get_move(InputCommand::from_notation("8c")).is_none());
}
