use pixel_sprite::layout::{Coordinate, MirrorDirection};
use pixel_sprite::palette::{Color, ColorScheme};
use pixel_sprite::renderer::{Frame, Pixel};
use pixel_sprite::screen::Screen;
use pixel_sprite::sprite::Sprite;

/// A two-frame sprite without explicit durations: one blue cell that moves
/// one column between the frames.
fn two_frame_sprite(row: u16) -> Sprite {
    let first = Frame::new(
        vec![Pixel::new(ColorScheme::Standard(Color::RGB(0, 0, 255)), 0, row)],
        None,
    );
    let second = Frame::new(
        vec![Pixel::new(ColorScheme::Standard(Color::RGB(0, 0, 255)), 1, row)],
        None,
    );
    Sprite::new(vec![first, second]).unwrap()
}

#[test]
fn test_animation_frame_advance() {
    let mut sprite = two_frame_sprite(1);
    let mut screen = Screen::new(50, 50);

    // Each call to `play` advances by one frame if delta exceeds the
    // default duration of one second split over two frames.
    sprite.play(
        400_000,
        MirrorDirection::NoMirror,
        Coordinate::default(),
        &mut screen,
    );

    // Check that frame does not advance from 0
    assert_eq!(sprite.frame_pos, 0);

    sprite.play(
        1_000_000,
        MirrorDirection::NoMirror,
        Coordinate::default(),
        &mut screen,
    );

    // Check that frame advanced from 0 to 1
    assert_eq!(sprite.frame_pos, 1);

    sprite.play(
        1_000_000,
        MirrorDirection::NoMirror,
        Coordinate::default(),
        &mut screen,
    );
    assert_eq!(sprite.frame_pos, 0); // loops and starts the animation over
}
