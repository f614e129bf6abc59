use pixel_sprite::game::{AnimationChoice, Character, GameState};
use pixel_sprite::layout::Coordinate;
use pixel_sprite::palette::{Color, ColorScheme};
use pixel_sprite::renderer::{Frame, Pixel};
use pixel_sprite::screen::Screen;
use pixel_sprite::sprite::Sprite;

/// A two-frame sprite of one blue cell, as the animation tests use.
fn two_frame_sprite(row: u16) -> Sprite {
    let first = Frame::new(
        vec![Pixel::new(ColorScheme::Standard(Color::RGB(0, 0, 255)), 0, row)],
        None,
    );
    let second = Frame::new(
        vec![Pixel::new(ColorScheme::Standard(Color::RGB(0, 0, 255)), 1, row)],
        None,
    );
    Sprite::new(vec![first, second]).unwrap()
}

/// A character with one small animation per movement direction.
fn test_character() -> Character {
    Character::new(
        two_frame_sprite(1),
        two_frame_sprite(2),
        two_frame_sprite(3),
        two_frame_sprite(4),
    )
}

/// The state every game test starts from: delta of one second, speed 10,
/// origin position, 16 ms frame budget.
fn test_state() -> GameState {
    GameState {
        player: test_character(),
        player_pos: Coordinate::default(),
        player_speed: 10,
        delta: 1_000_000,
        fps_budget: 16_000,
    }
}

#[test]
fn test_player_movement_applied() {
    let mut gs = test_state();
    let mut screen = Screen::new(50, 50);

    gs.update(Some(Coordinate::from_cells(1, -1)), &mut screen);

    // The player should have moved right by 10 units and up by 10 units
    assert_eq!(gs.player_pos, Coordinate::from_cells(10, -10));
}

#[test]
fn test_idle_animation() {
    let mut gs = test_state();
    let mut screen = Screen::new(50, 50);

    let choice = gs.update(Some(Coordinate::from_cells(0, 0)), &mut screen);

    assert_eq!(choice, AnimationChoice::Idle);
}

#[test]
fn test_left_side_walk_animation() {
    let mut gs = test_state();
    let mut screen = Screen::new(50, 50);

    let choice = gs.update(Some(Coordinate::from_cells(-1, 0)), &mut screen);

    assert_eq!(choice, AnimationChoice::SideMirrored);
}

#[test]
fn test_right_side_walk_animation() {
    let mut gs = test_state();
    let mut screen = Screen::new(50, 50);

    let choice = gs.update(Some(Coordinate::from_cells(1, 0)), &mut screen);

    assert_eq!(choice, AnimationChoice::Side);
}

#[test]
fn test_back_animation() {
    let mut gs = test_state();
    let mut screen = Screen::new(50, 50);

    let choice = gs.update(Some(Coordinate::from_cells(0, -1)), &mut screen);

    assert_eq!(choice, AnimationChoice::Back);
}

#[test]
fn test_front_animation() {
    let mut gs = test_state();
    let mut screen = Screen::new(50, 50);

    let choice = gs.update(Some(Coordinate::from_cells(0, 1)), &mut screen);

    assert_eq!(choice, AnimationChoice::Front);
}
