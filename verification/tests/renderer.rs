use pixel_sprite::layout::{Coordinate, Direction, MirrorDirectionValue};
use pixel_sprite::palette::{CheckPattern, Color, ColorScheme, Stroke};
use pixel_sprite::renderer::Pixel;
use pixel_sprite::screen::Screen;

#[test]
fn test_pixel_creation_with_standard_color() {
    let pixel = Pixel::new(ColorScheme::Standard(Color::RGB(255, 0, 0)), 10, 20);

    assert_eq!(pixel.len(), 1);
    assert_eq!(pixel.row_pos(0), Some(20));
    assert_eq!(pixel.column_pos(0), Some(10));
}

#[test]
fn test_pixel_creation_with_check_pattern() {
    let check_pattern = ColorScheme::CheckPattern(CheckPattern {
        a: Color::RGB(255, 0, 0),
        b: Color::RGB(0, 255, 0),
        range: Direction::Horizontal(2),
    });

    let pixel = Pixel::new(check_pattern, 5, 5);

    assert_eq!(pixel.len(), 2);
    assert_eq!(pixel.row_pos(0), Some(5));
    assert_eq!(pixel.column_pos(0), Some(5));
    assert_eq!(pixel.row_pos(1), Some(5));
    assert_eq!(pixel.column_pos(1), Some(6));
}

#[test]
fn test_pixel_creation_with_stroke() {
    let stroke = ColorScheme::Stroke(Stroke {
        color: Color::RGB(0, 0, 255),
        range: Direction::Vertical(2),
    });

    let pixel = Pixel::new(stroke, 5, 5);

    assert_eq!(pixel.len(), 2);
    assert_eq!(pixel.row_pos(0), Some(5));
    assert_eq!(pixel.column_pos(0), Some(5));
    assert_eq!(pixel.row_pos(1), Some(6));
    assert_eq!(pixel.column_pos(1), Some(5));
}

#[test]
fn test_move_pos() {
    let mut pixel = Pixel::new(ColorScheme::Standard(Color::RGB(255, 0, 0)), 10, 20);
    assert_eq!(pixel.move_pos(0, Direction::Horizontal(15)), Some(10));
    assert_eq!(pixel.move_pos(0, Direction::Vertical(25)), Some(20));
}

#[test]
fn test_change_color() {
    let mut pixel = Pixel::new(ColorScheme::Standard(Color::RGB(255, 0, 0)), 10, 20);
    assert_eq!(
        pixel.change_color(0, Color::RGB(0, 255, 0)),
        Some(Color::RGB(255, 0, 0))
    );
    assert_eq!(pixel.color_at(0), Some(Color::RGB(0, 255, 0)));
    assert_eq!(
        pixel.change_color(0, Color::RGB(0, 0, 255)),
        Some(Color::RGB(0, 255, 0))
    );
    assert_eq!(pixel.color_at(0), Some(Color::RGB(0, 0, 255)));
}

#[test]
fn test_draw_rgb() {
    let mut screen = Screen::new(50, 50);
    let pixel = Pixel::new(ColorScheme::Standard(Color::RGB(255, 0, 0)), 5, 5);

    // Simulate drawing the pixel onto the screen
    pixel.draw(&mut screen, MirrorDirectionValue::NoMirror, Coordinate::default());

    // Check the pixel data in the screen buffer
    // RGBA means 4 bytes per pixel so calculation follows suit
    let idx = (5 * 50 + 5) as usize * 4; // Pixel at (5, 5)
    assert_eq!(screen.buffer[idx], 255); // Red channel
    assert_eq!(screen.buffer[idx + 1], 0); // Green channel
    assert_eq!(screen.buffer[idx + 2], 0); // Blue channel
    assert_eq!(screen.buffer[idx + 3], 255); // Alpha channel
}

#[test]
fn test_draw_rgba() {
    let mut screen = Screen::new(50, 50);
    let pixel = Pixel::new(ColorScheme::Standard(Color::RGBA(255, 0, 0, 180)), 5, 5);

    // Simulate drawing the pixel onto the screen
    pixel.draw(&mut screen, MirrorDirectionValue::NoMirror, Coordinate::default());

    // Check the pixel data in the screen buffer
    // RGBA means 4 bytes per pixel so calculation follows suit
    let idx = (5 * 50 + 5) as usize * 4; // Pixel at (5, 5)
    assert_eq!(screen.buffer[idx], 255); // Red channel
    assert_eq!(screen.buffer[idx + 1], 0); // Green channel
    assert_eq!(screen.buffer[idx + 2], 0); // Blue channel
    assert_eq!(screen.buffer[idx + 3], 180); // Alpha channel
}

#[test]
fn test_mirror_flip_vertical() {
    let mut screen = Screen::new(50, 50);
    let pixel = Pixel::new(ColorScheme::Standard(Color::RGB(255, 0, 0)), 5, 3);

    // Flip vertically at line 5
    pixel.draw(
        &mut screen,
        MirrorDirectionValue::FlipVertical(5),
        Coordinate::default(),
    );

    // Check the pixel's mirrored position
    let idx_original = (3 * 50 + 5) as usize * 4; // Pixel at (5, 3)
    let idx_mirrored = (3 * 50 + 0) as usize * 4; // Pixel at (0, 3)
    assert_eq!(screen.buffer[idx_original], 0); // Should not be original pixel
    assert_eq!(screen.buffer[idx_mirrored], 255); // Should be mirrored pixel
}

#[test]
fn test_mirror_flip_horizontal() {
    let mut screen = Screen::new(50, 50);
    let pixel = Pixel::new(ColorScheme::Standard(Color::RGB(255, 0, 0)), 5, 3);

    // Flip horizontally at line 3
    pixel.draw(
        &mut screen,
        MirrorDirectionValue::FlipHorizontal(3),
        Coordinate::default(),
    );

    // Check the pixel's mirrored position
    let idx_original = (3 * 50 + 5) as usize * 4; // Pixel at (5, 3)
    let idx_mirrored = (0 * 50 + 5) as usize * 4; // Pixel at (5, 0)
    assert_eq!(screen.buffer[idx_original], 0); // Should not be original pixel
    assert_eq!(screen.buffer[idx_mirrored], 255); // Should be mirrored pixel
}
