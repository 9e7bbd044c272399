use fighting_frame::character::{
    decide_timeout, CharacterDefinition, CharacterState, CharacterStats, MatchResult,
};
use fighting_frame::match_state::{MatchState, PlayerGameState};
use fighting_frame::command_list::CommandList;
use fighting_frame::input_buffer::{FrameCommandState, InputBuffer, InputState, INPUT_BUFFER_LENGTH};
use fighting_frame::move_data::{FrameData, MoveData};
use fighting_frame::command_list::MoveType;
use fighting_frame::rect::{CollisionBoxes, GridPoint, Rect};

fn frame(duration: usize) -> FrameData {
    FrameData { frame_duration: duration, hitboxes: None, hurtboxes: None, blocking_volume: vec![] }
}

#[test]
fn stats_start_from_definition() {
    let def = CharacterDefinition {
        name: String::from("test"),
        max_hp: 1200,
        forward_walk_speed: 15,
        backward_walk_speed: 12,
        command_list: CommandList { moves: vec![] },
    };
    let stats = CharacterStats::new(&def);
    assert_eq!(stats.health, 1200);
    assert_eq!(stats.boost_meter, 1000);
    assert_eq!(stats.super_meter, 0);
}

#[test]
fn timeout_compares_health_fractions() {
    // 500/1000 vs 300/500: 0.5 < 0.6, player 2 wins.
    assert_eq!(decide_timeout(500, 1000, 300, 500), MatchResult::Player2Win);
    // 600/1000 vs 250/500: 0.6 > 0.5.
    assert_eq!(decide_timeout(600, 1000, 250, 500), MatchResult::Player1Win);
    // 400/800 vs 250/500: both one half.
    assert_eq!(decide_timeout(400, 800, 250, 500), MatchResult::Draw);
}

fn player(max_hp: usize, health: usize) -> PlayerGameState {
    let definition = CharacterDefinition {
        name: String::from("test"),
        max_hp,
        forward_walk_speed: 15,
        backward_walk_speed: 12,
        command_list: CommandList { moves: vec![] },
    };
    PlayerGameState {
        character_stats: CharacterStats {
            health,
            ..CharacterStats::new(&definition)
        },
        character: definition,
        win_count: 0,
        input_buffer: InputBuffer::new(),
        pos_x: 0,
        pos_y: 0,
        character_state: CharacterState::Idle,
        freeze_frames: 0,
    }
}

#[test]
fn match_update_counts_down_then_decides() {
    let mut state = MatchState { timer: 2, player_1: player(10, 1), player_2: player(10, 2) };
    let idle = InputState::default();
    assert!(state.update(idle, idle).is_none());
    assert_eq!(state.timer, 1);
    assert!(state.update(idle, idle).is_none());
    assert_eq!(state.timer, 0);
    let result = state.update(idle, idle);
    assert_eq!(result, Some(MatchResult::Player2Win));
    // Three frames of one held state were recorded along the way.
    assert_eq!(state.player_1.input_buffer.get_last_entry().frame_count, 3);
}

#[test]
fn buffer_starts_with_one_default_entry() {
    let buffer = InputBuffer::new();
    let last = buffer.get_last_entry();
    assert_eq!(last.frame_count, 0);
    assert_eq!(last.state, InputState::default());
}

#[test]
fn buffer_coalesces_repeated_state() {
    let mut buffer = InputBuffer::new();
    let held = InputState { a_pressed: true, ..InputState::default() };
    buffer.push(held);
    buffer.push(held);
    buffer.push(held);
    let last = buffer.get_last_entry();
    assert_eq!(last.state, held);
    assert_eq!(last.frame_count, 2);
}

#[test]
fn buffer_drops_oldest_at_capacity() {
    let mut buffer = InputBuffer::new();
    // Alternate two states so that every push appends a fresh entry.
    let a = InputState { a_pressed: true, ..InputState::default() };
    let b = InputState { b_pressed: true, ..InputState::default() };
    for i in 0..(INPUT_BUFFER_LENGTH * 2) {
        buffer.push(if i % 2 == 0 { a } else { b });
        let last = buffer.get_last_entry();
        assert_eq!(last.frame_count, 0);
    }
    let last = buffer.get_last_entry();
    assert_eq!(last.state, b);
}

#[test]
fn frame_command_state_new() {
    let s = InputState { c_pressed: true, ..InputState::default() };
    let f = FrameCommandState::new(s);
    assert_eq!(f.frame_count, 0);
    assert_eq!(f.state, s);
}

#[test]
fn total_frames_sums_durations() {
    let m = MoveData { move_type: MoveType::Normal, frame_data: vec![frame(3), frame(5), frame(2)] };
    assert_eq!(m.get_total_frames(), 10);
    let empty = MoveData { move_type: MoveType::Normal, frame_data: vec![] };
    assert_eq!(empty.get_total_frames(), 0);
}

fn rect(l: i32, t: i32, r: i32, b: i32) -> Rect {
    Rect { top_left: GridPoint { x: l, y: t }, bottom_right: GridPoint { x: r, y: b } }
}

#[test]
fn rects_overlap_and_touching_edges_do_not() {
    assert!(rect(0, 0, 10, 10).collides(&rect(5, 5, 15, 15)));
    assert!(!rect(0, 0, 10, 10).collides(&rect(10, 0, 20, 10)));
    assert!(!rect(0, 0, 10, 10).collides(&rect(20, 20, 30, 30)));
}

#[test]
fn box_groups_collide_pairwise() {
    let a = CollisionBoxes { data: vec![rect(0, 0, 2, 2), rect(10, 10, 12, 12)] };
    let b = CollisionBoxes { data: vec![rect(5, 5, 6, 6), rect(11, 11, 13, 13)] };
    let c = CollisionBoxes { data: vec![rect(100, 100, 101, 101)] };
    assert!(a.collides(&b));
    assert!(!a.collides(&c));
    assert!(!CollisionBoxes { data: vec![] }.collides(&b));
}
