use chan_face::geometry::{Color, Pixel, Point, Rect, Size};
use chan_face::sprite::Sprite;

fn numbered(n: u16) -> Vec<Color> {
    (0..n).map(Color::new).collect()
}

fn at(s: &Sprite, x: u32, y: u32) -> Color {
    s.colors()[(y * s.size().width + x) as usize]
}

#[test]
fn new_sprite_is_black_at_origin() {
    let s = Sprite::new(4, 3);
    assert_eq!(s.size(), Size::new(4, 3));
    assert_eq!(s.offset(), Point::new(0, 0));
    assert_eq!(s.colors().len(), 12);
    assert!(s.colors().iter().all(|c| *c == Color::black()));
}

#[test]
fn set_pixel_outside_leaves_buffer_unchanged() {
    let mut s = Sprite::new(4, 3);
    s.fill_contiguous(Rect::new(Point::new(0, 0), Size::new(4, 3)), &numbered(12));
    let before = s.colors().clone();
    for p in [
        Point::new(-1, 0),
        Point::new(0, -1),
        Point::new(4, 0),
        Point::new(0, 3),
        Point::new(4, 3),
        Point::new(i32::MIN, i32::MIN),
        Point::new(i32::MAX, 1),
    ] {
        s.set_pixel(p, Color::blue());
        assert_eq!(*s.colors(), before);
    }
}

#[test]
fn set_pixel_inside_writes_one_pixel() {
    let mut s = Sprite::new(4, 3);
    s.set_pixel(Point::new(3, 2), Color::blue());
    assert_eq!(at(&s, 3, 2), Color::blue());
    assert_eq!(s.colors().iter().filter(|c| **c == Color::blue()).count(), 1);
    assert_eq!(s.colors()[11], Color::blue());
}

#[test]
fn draw_iter_drops_outside_and_last_write_wins() {
    let mut s = Sprite::new(3, 3);
    let pixels = vec![
        Pixel::new(Point::new(1, 1), Color::blue()),
        Pixel::new(Point::new(-1, 1), Color::white()),
        Pixel::new(Point::new(1, 3), Color::white()),
        Pixel::new(Point::new(1, 1), Color::new(7)),
        Pixel::new(Point::new(0, 2), Color::white()),
    ];
    s.draw_iter(&pixels);
    assert_eq!(at(&s, 1, 1), Color::new(7));
    assert_eq!(at(&s, 0, 2), Color::white());
    let changed = s.colors().iter().filter(|c| **c != Color::black()).count();
    assert_eq!(changed, 2);
}

#[test]
fn draw_iter_all_outside_is_a_no_op() {
    let mut s = Sprite::new(2, 2);
    let before = s.colors().clone();
    let pixels = vec![
        Pixel::new(Point::new(2, 0), Color::blue()),
        Pixel::new(Point::new(0, -5), Color::blue()),
    ];
    s.draw_iter(&pixels);
    assert_eq!(*s.colors(), before);
}

#[test]
fn draw_points_paints_listed_points_only() {
    let mut s = Sprite::new(3, 2);
    s.draw_points(&vec![Point::new(0, 0), Point::new(2, 1), Point::new(5, 5)], Color::blue());
    let expected = vec![
        Color::blue(),
        Color::black(),
        Color::black(),
        Color::black(),
        Color::black(),
        Color::blue(),
    ];
    assert_eq!(*s.colors(), expected);
}

#[test]
fn clear_sets_every_pixel() {
    let mut s = Sprite::new(5, 2);
    s.set_pixel(Point::new(1, 1), Color::blue());
    s.clear(Color::white());
    assert!(s.colors().iter().all(|c| *c == Color::white()));
}

#[test]
fn fill_inside_is_row_major() {
    let mut s = Sprite::new(3, 2);
    s.fill_contiguous(Rect::new(Point::new(0, 0), Size::new(3, 2)), &numbered(6));
    assert_eq!(*s.colors(), numbered(6));
}

#[test]
fn fill_partly_outside_writes_clipped_subset_positionally() {
    let mut s = Sprite::new(4, 3);
    // A 3x3 area whose top row and left column lie outside the buffer.
    s.fill_contiguous(Rect::new(Point::new(-1, -1), Size::new(3, 3)), &numbered(9));
    assert_eq!(at(&s, 0, 0), Color::new(4));
    assert_eq!(at(&s, 1, 0), Color::new(5));
    assert_eq!(at(&s, 0, 1), Color::new(7));
    assert_eq!(at(&s, 1, 1), Color::new(8));
    for (x, y) in [(2, 0), (3, 0), (2, 1), (3, 1), (0, 2), (1, 2), (2, 2), (3, 2)] {
        assert_eq!(at(&s, x, y), Color::black());
    }
}

#[test]
fn fill_past_right_and_bottom_edges() {
    let mut s = Sprite::new(3, 3);
    s.fill_contiguous(Rect::new(Point::new(2, 1), Size::new(2, 3)), &numbered(6));
    assert_eq!(at(&s, 2, 1), Color::new(0));
    assert_eq!(at(&s, 2, 2), Color::new(2));
    assert_eq!(s.colors().iter().filter(|c| **c != Color::black()).count(), 1);
}

#[test]
fn fill_stops_when_colors_run_out() {
    let mut s = Sprite::new(3, 2);
    s.clear(Color::white());
    s.fill_contiguous(Rect::new(Point::new(0, 0), Size::new(3, 2)), &numbered(4));
    let mut expected = numbered(4);
    expected.push(Color::white());
    expected.push(Color::white());
    assert_eq!(*s.colors(), expected);
}

#[test]
fn fill_empty_or_disjoint_area_changes_nothing() {
    let mut s = Sprite::new(3, 2);
    let before = s.colors().clone();
    s.fill_contiguous(Rect::new(Point::new(0, 0), Size::new(0, 2)), &numbered(6));
    s.fill_contiguous(Rect::new(Point::new(5, 0), Size::new(2, 2)), &numbered(6));
    s.fill_contiguous(Rect::new(Point::new(0, -3), Size::new(3, 3)), &numbered(9));
    assert_eq!(*s.colors(), before);
}

#[test]
fn from_pixels_checks_the_count() {
    let s = Sprite::from_pixels(3, 2, numbered(6)).unwrap();
    assert_eq!(s.size(), Size::new(3, 2));
    assert_eq!(*s.colors(), numbered(6));
    assert!(Sprite::from_pixels(3, 2, numbered(5)).is_none());
    assert!(Sprite::from_pixels(4, 2, numbered(6)).is_none());
}

#[test]
fn offset_places_draw_area() {
    let mut s = Sprite::new(4, 3);
    s.set_offset(Point::new(-2, 9));
    assert_eq!(s.draw_area(), Rect::new(Point::new(-2, 9), Size::new(4, 3)));
}
