use chan_face::geometry::{Color, Point};
use chan_face::raster::{EyeState, WioTerminalChan};
use chan_face::sprite::Sprite;
use embedded_graphics::geometry::{Angle, Point as EgPoint};
use embedded_graphics::pixelcolor::BinaryColor;
use embedded_graphics::primitives::{Arc, Primitive, PrimitiveStyle, Sector};

fn upper_half_disc(diameter: u32) -> Vec<Point> {
    Sector::new(EgPoint::zero(), diameter, Angle::from_degrees(0.0), Angle::from_degrees(180.0))
        .into_styled(PrimitiveStyle::with_fill(BinaryColor::On))
        .pixels()
        .map(|p| Point::new(p.0.x, p.0.y))
        .collect()
}

fn upper_arc(diameter: u32) -> Vec<Point> {
    Arc::new(EgPoint::zero(), diameter, Angle::from_degrees(0.0), Angle::from_degrees(180.0))
        .into_styled(PrimitiveStyle::with_stroke(BinaryColor::On, 1))
        .pixels()
        .map(|p| Point::new(p.0.x, p.0.y))
        .collect()
}

fn lower_right_quarter(diameter: u32) -> Vec<Point> {
    Sector::new(EgPoint::zero(), diameter, Angle::from_degrees(0.0), Angle::from_degrees(-90.0))
        .into_styled(PrimitiveStyle::with_fill(BinaryColor::On))
        .pixels()
        .map(|p| Point::new(p.0.x, p.0.y))
        .collect()
}

fn drawn_chan() -> WioTerminalChan {
    let mut chan = WioTerminalChan::new();
    chan.update_eye_sprite(Color::blue(), Color::white(), &upper_half_disc(51), &upper_arc(51));
    chan.update_mouth_sprite(Color::blue(), Color::white(), &lower_right_quarter(71));
    chan
}

fn at(s: &Sprite, x: i32, y: i32) -> Color {
    s.colors()[(y as u32 * s.size().width + x as u32) as usize]
}

/// Squared distance of the pixel from the center of a 51-pixel eye, at
/// twice the pixel scale.
fn doubled_distance(x: i32, y: i32) -> i32 {
    (2 * x - 50) * (2 * x - 50) + (2 * y - 50) * (2 * y - 50)
}

fn count(s: &Sprite, c: Color) -> usize {
    s.colors().iter().filter(|p| **p == c).count()
}

#[test]
fn new_chan_has_black_sprites_of_the_right_size() {
    let chan = WioTerminalChan::new();
    let eye = chan.eye_sprite(EyeState::Closed);
    assert_eq!((eye.size().width, eye.size().height), (51, 51));
    assert_eq!(count(eye, Color::black()), 51 * 51);
    let mouth = chan.mouth_sprite();
    assert_eq!((mouth.size().width, mouth.size().height), (71, 71));
}

#[test]
fn opened_eye_is_a_blue_disc_on_white() {
    let chan = drawn_chan();
    let eye = chan.eye_sprite(EyeState::Opened);
    for y in 0..51 {
        for x in 0..51 {
            let expected = if doubled_distance(x, y) < 51 * 51 { Color::blue() } else { Color::white() };
            assert_eq!(at(eye, x, y), expected, "pixel ({}, {})", x, y);
        }
    }
    assert_eq!(at(eye, 25, 25), Color::blue());
    assert_eq!(at(eye, 0, 0), Color::white());
    assert_eq!(at(eye, 0, 25), Color::blue());
}

#[test]
fn closed_eye_is_a_thin_upper_arc() {
    let chan = drawn_chan();
    let eye = chan.eye_sprite(EyeState::Closed);
    let mut blue = 0;
    for y in 0..51 {
        for x in 0..51 {
            let c = at(eye, x, y);
            if c == Color::blue() {
                blue += 1;
                let d = doubled_distance(x, y);
                assert!(49 * 49 <= d && d < 51 * 51, "pixel ({}, {}) is off the outline", x, y);
                assert!(y <= 25, "pixel ({}, {}) is below the center", x, y);
            } else {
                assert_eq!(c, Color::white());
            }
        }
    }
    assert!(blue > 50);
    assert_eq!(at(eye, 25, 0), Color::blue());
    assert_eq!(at(eye, 25, 50), Color::white());
}

#[test]
fn half_opened_eye_is_the_upper_half_disc() {
    let chan = drawn_chan();
    let eye = chan.eye_sprite(EyeState::HalfOpened);
    assert_eq!(at(eye, 25, 5), Color::blue());
    assert_eq!(at(eye, 25, 45), Color::white());
    for y in 27..51 {
        for x in 0..51 {
            assert_eq!(at(eye, x, y), Color::white());
        }
    }
}

#[test]
fn almost_closed_eye_keeps_a_sliver_of_the_half_disc() {
    let chan = drawn_chan();
    let half = chan.eye_sprite(EyeState::HalfOpened);
    let almost = chan.eye_sprite(EyeState::AlmostClosed);
    let sliver = count(almost, Color::blue());
    assert!(sliver > 0);
    assert!(sliver < count(half, Color::blue()) / 4);
    for y in 0..51 {
        for x in 0..51 {
            if at(almost, x, y) == Color::blue() {
                assert_eq!(at(half, x, y), Color::blue());
            }
        }
    }
    // The eyelid covers the middle of the upper half.
    assert_eq!(at(almost, 25, 5), Color::white());
}

#[test]
fn mouth_is_the_lower_right_quarter_disc() {
    let chan = drawn_chan();
    let mouth = chan.mouth_sprite();
    assert_eq!(at(mouth, 45, 45), Color::blue());
    assert_eq!(at(mouth, 20, 20), Color::white());
    assert_eq!(at(mouth, 45, 20), Color::white());
    assert_eq!(at(mouth, 20, 45), Color::white());
    let eye_blue = count(drawn_chan().eye_sprite(EyeState::Opened), Color::blue());
    assert!(count(mouth, Color::blue()) > eye_blue / 2);
}

#[test]
fn redrawing_with_the_same_colors_is_deterministic() {
    let a = drawn_chan();
    let b = drawn_chan();
    for s in [EyeState::Opened, EyeState::HalfOpened, EyeState::AlmostClosed, EyeState::Closed] {
        assert_eq!(a.eye_sprite(s).colors(), b.eye_sprite(s).colors());
    }
    assert_eq!(a.mouth_sprite().colors(), b.mouth_sprite().colors());
}

#[test]
fn updating_the_mouth_leaves_the_eyes() {
    let mut chan = drawn_chan();
    let before = chan.eye_sprite(EyeState::Opened).colors().clone();
    chan.update_mouth_sprite(Color::white(), Color::blue(), &lower_right_quarter(71));
    assert_eq!(*chan.eye_sprite(EyeState::Opened).colors(), before);
    assert_eq!(at(chan.mouth_sprite(), 0, 0), Color::blue());
}

#[test]
fn eye_pose_from_explicit_shapes() {
    let disc = vec![Point::new(1, 1)];
    let half = vec![Point::new(0, 0), Point::new(1, 0), Point::new(2, 0), Point::new(9, 0)];
    let lid = vec![Point::new(1, 0), Point::new(1, 1)];
    let arc = vec![Point::new(0, 2), Point::new(-1, 2)];
    let (e, b) = (Color::blue(), Color::white());
    let expect = |state: EyeState, blue: &[(i32, i32)]| {
        let mut s = Sprite::new(3, 3);
        chan_face::raster::draw_eye_pose(&mut s, state, e, b, &disc, &half, &lid, &arc);
        for y in 0..3 {
            for x in 0..3 {
                let want = if blue.contains(&(x, y)) { e } else { b };
                assert_eq!(at(&s, x, y), want, "{:?} at ({}, {})", state, x, y);
            }
        }
    };
    expect(EyeState::Opened, &[(1, 1)]);
    expect(EyeState::HalfOpened, &[(0, 0), (1, 0), (2, 0)]);
    expect(EyeState::AlmostClosed, &[(0, 0), (2, 0)]);
    expect(EyeState::Closed, &[(0, 2)]);
}

/// The eyelid ellipse of 51 by 38 pixels, at twice the pixel scale.
fn in_eyelid(x: i64, y: i64) -> bool {
    let dx = 2 * x - 50;
    let dy = 2 * y - 37;
    38 * 38 * dx * dx + 51 * 51 * dy * dy < 51 * 51 * 38 * 38
}

#[test]
fn almost_closed_eye_is_half_disc_minus_eyelid() {
    let half = upper_half_disc(51);
    let chan = drawn_chan();
    let almost = chan.eye_sprite(EyeState::AlmostClosed);
    for y in 0..51 {
        for x in 0..51 {
            let on_half = half.contains(&Point::new(x, y));
            let blue = on_half && !in_eyelid(x as i64, y as i64);
            let want = if blue { Color::blue() } else { Color::white() };
            assert_eq!(at(almost, x, y), want, "pixel ({}, {})", x, y);
        }
    }
    // Rows 38 and below lie outside the eyelid's bounding box.
    assert!(!in_eyelid(25, 38));
    assert!(in_eyelid(25, 37));
}

#[test]
fn new_chan_sprites_are_black_at_origin() {
    let chan = WioTerminalChan::new();
    for s in [EyeState::Opened, EyeState::HalfOpened, EyeState::AlmostClosed, EyeState::Closed] {
        let eye = chan.eye_sprite(s);
        assert_eq!(eye.offset(), Point::new(0, 0));
        assert_eq!(eye.colors().len(), 51 * 51);
        assert!(eye.colors().iter().all(|c| *c == Color::black()));
    }
    let mouth = chan.mouth_sprite();
    assert_eq!(mouth.offset(), Point::new(0, 0));
    assert_eq!(mouth.colors().len(), 71 * 71);
    assert!(mouth.colors().iter().all(|c| *c == Color::black()));
}
