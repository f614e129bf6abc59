use pixel_sprite::input::{GameInput, GameInputHandler};
use pixel_sprite::layout::Coordinate;

#[test]
fn test_to_coordinate_with_physical_key() {
    let mut handler = GameInputHandler::default();

    let test_cases = vec![
        // Press the left key (and release it)
        (
            GameInput::PlayerMoveLeft,
            true,
            Some(Coordinate::from_cells(-1, 0)),
        ),
        (GameInput::PlayerMoveLeft, false, None),
        // Press the right key (and release it)
        (
            GameInput::PlayerMoveRight,
            true,
            Some(Coordinate::from_cells(1, 0)),
        ),
        (GameInput::PlayerMoveRight, false, None),
        // Press the up key (and release it)
        (
            GameInput::PlayerMoveUp,
            true,
            Some(Coordinate::from_cells(0, -1)),
        ),
        (GameInput::PlayerMoveUp, false, None),
        // Press the down key (and release it)
        (
            GameInput::PlayerMoveDown,
            true,
            Some(Coordinate::from_cells(0, 1)),
        ),
        (GameInput::PlayerMoveDown, false, None),
        // Press left and up (and release both)
        (
            GameInput::PlayerMoveLeft,
            true,
            Some(Coordinate::from_cells(-1, 0)),
        ),
        (
            GameInput::PlayerMoveUp,
            true,
            Some(Coordinate::from_cells(-1, -1)),
        ),
        (GameInput::PlayerMoveUp, false, None),
        (GameInput::PlayerMoveLeft, false, None),
        // Press left and down (and release both)
        (
            GameInput::PlayerMoveLeft,
            true,
            Some(Coordinate::from_cells(-1, 0)),
        ),
        (
            GameInput::PlayerMoveDown,
            true,
            Some(Coordinate::from_cells(-1, 1)),
        ),
        (GameInput::PlayerMoveDown, false, None),
        (GameInput::PlayerMoveLeft, false, None),
        // Press right and down (and release both)
        (
            GameInput::PlayerMoveRight,
            true,
            Some(Coordinate::from_cells(1, 0)),
        ),
        (
            GameInput::PlayerMoveDown,
            true,
            Some(Coordinate::from_cells(1, 1)),
        ),
        (GameInput::PlayerMoveDown, false, None),
        (GameInput::PlayerMoveRight, false, None),
        // Press right and up (and release both)
        (
            GameInput::PlayerMoveRight,
            true,
            Some(Coordinate::from_cells(1, 0)),
        ),
        (
            GameInput::PlayerMoveUp,
            true,
            Some(Coordinate::from_cells(1, -1)),
        ),
        (GameInput::PlayerMoveUp, false, None),
        (GameInput::PlayerMoveRight, false, None),
    ];

    for (key, pressed, expected_coord) in test_cases {
        let result = handler.to_coordinate(key, pressed);
        assert_eq!(result, expected_coord, "Failed for {:?}", (key, pressed));
    }
}

#[test]
fn test_is_held_tracks_press_and_release() {
    let mut handler = GameInputHandler::default();
    assert!(!handler.is_held(GameInput::PlayerMoveUp));

    handler.to_coordinate(GameInput::PlayerMoveUp, true);
    assert!(handler.is_held(GameInput::PlayerMoveUp));
    assert!(!handler.is_held(GameInput::PlayerMoveDown));

    handler.to_coordinate(GameInput::PlayerMoveUp, false);
    assert!(!handler.is_held(GameInput::PlayerMoveUp));
}
