//! Procedural eye and mouth sprites.
use vstd::prelude::*;
use embedded_graphics::prelude::Point as EgPoint;
use embedded_graphics::prelude::Size as EgSize;
use embedded_graphics::primitives::{Circle, Ellipse, PointsIter};
use crate::geometry::{Color, Point};
use crate::sprite::{covers, Sprite};

verus! {

/// Radius of an eye sprite, in pixels.
pub const EYE_RADIUS: u32 = 25;

/// Side of the square eye sprite: `2 * EYE_RADIUS + 1`.
pub const EYE_DIAMETER: u32 = 51;

/// Height of the ellipse that covers most of the half-open eye to leave an
/// almost closed one: three quarters of the eye's diameter.
pub const EYELID_HEIGHT: u32 = 38;

/// Radius of the mouth sprite, in pixels.
pub const MOUTH_RADIUS: u32 = 35;

/// Side of the square mouth sprite: `2 * MOUTH_RADIUS + 1`.
pub const MOUTH_DIAMETER: u32 = 71;

/// Largest side for which the shape wrappers below are used; it keeps the
/// outside crate's `u32` and `i32` arithmetic far from overflow.
pub const MAX_SHAPE_SIDE: u32 = 128;

/// The squared-distance bound below which a point lies in a circle of
/// `diameter` pixels, distances being taken at twice the pixel scale.
pub open spec fn circle_threshold(diameter: int) -> int {
    if diameter <= 4 {
        diameter * diameter - diameter / 2
    } else {
        diameter * diameter
    }
}

/// Whether `(x, y)` is a pixel of the filled circle of `diameter` pixels
/// whose bounding square has its top-left corner at the origin.
pub open spec fn in_circle(diameter: int, x: int, y: int) -> bool {
    let dx = 2 * x - (diameter - 1);
    let dy = 2 * y - (diameter - 1);
    &&& 0 <= x < diameter
    &&& 0 <= y < diameter
    &&& dx * dx + dy * dy < circle_threshold(diameter)
}

/// Whether `(x, y)` is a pixel of the filled ellipse of `width` by `height`
/// pixels whose bounding box has its top-left corner at the origin. Offsets
/// are taken at twice the pixel scale; an ellipse whose sides are equal is
/// the circle of that diameter.
pub open spec fn in_ellipse(width: int, height: int, x: int, y: int) -> bool {
    let dx = 2 * x - (width - 1);
    let dy = 2 * y - (height - 1);
    &&& 0 <= x < width
    &&& 0 <= y < height
    &&& if width == height {
        dx * dx + dy * dy < circle_threshold(width)
    } else {
        height * height * (dx * dx) + width * width * (dy * dy) < width * width * (height * height)
    }
}

/// Relies on embedded_graphics's `Circle::points`: a circle at the origin
/// yields exactly the points of its bounding square whose doubled offset from
/// the center has a squared length under the circle's threshold.
#[verifier::external_body]
fn circle_points(diameter: u32) -> (r: Vec<Point>)
    requires
        1 <= diameter <= MAX_SHAPE_SIDE,
    ensures
        forall|x: int, y: int| covers(r@, x, y) <==> in_circle(diameter as int, x, y),
{
    Circle::new(EgPoint::zero(), diameter).points().map(|p| Point { x: p.x, y: p.y }).collect()
}

/// Relies on embedded_graphics's `Ellipse::points`: an ellipse at the origin
/// yields, row by row, the points of its bounding box that
/// `EllipseContains::contains` accepts, stopping at the first row with none.
/// With an odd width the middle column lies in every row, so no row is
/// empty and the result is exactly the `in_ellipse` points.
#[verifier::external_body]
fn filled_ellipse_points(width: u32, height: u32) -> (r: Vec<Point>)
    requires
        1 <= width <= MAX_SHAPE_SIDE,
        1 <= height <= MAX_SHAPE_SIDE,
        width % 2 == 1,
    ensures
        forall|x: int, y: int| covers(r@, x, y) <==> in_ellipse(width as int, height as int, x, y),
{
    Ellipse::new(EgPoint::zero(), EgSize::new(width, height)).points().map(
        |p| Point { x: p.x, y: p.y },
    ).collect()
}

/// The four drawn states of an eye.
#[derive(Clone, Copy, PartialEq, Eq, Structural, Debug)]
pub enum EyeState {
    Opened,
    HalfOpened,
    AlmostClosed,
    Closed,
}

/// Color of pixel `(x, y)` of the eye sprite for `state`, once drawn with
/// `eye` over `background` from the given half-disc and arc outlines.
pub open spec fn eye_pixel(
    state: EyeState,
    eye: Color,
    background: Color,
    half_disc: Seq<Point>,
    arc: Seq<Point>,
    x: int,
    y: int,
) -> Color {
    match state {
        EyeState::Opened => if in_circle(EYE_DIAMETER as int, x, y) {
            eye
        } else {
            background
        },
        EyeState::HalfOpened => if covers(half_disc, x, y) {
            eye
        } else {
            background
        },
        EyeState::AlmostClosed => if in_ellipse(EYE_DIAMETER as int, EYELID_HEIGHT as int, x, y) {
            background
        } else if covers(half_disc, x, y) {
            eye
        } else {
            background
        },
        EyeState::Closed => if covers(arc, x, y) {
            eye
        } else {
            background
        },
    }
}

/// Color of pixel `(x, y)` of an eye drawn in `state` from explicit shapes:
/// `disc` for an open eye, `half_disc` for a half-open one, `half_disc` with
/// `eyelid` painted back in `background` for an almost closed one, and `arc`
/// for a closed one, each in `eye` over `background`.
pub open spec fn pose_pixel(
    state: EyeState,
    eye: Color,
    background: Color,
    disc: Seq<Point>,
    half_disc: Seq<Point>,
    eyelid: Seq<Point>,
    arc: Seq<Point>,
    x: int,
    y: int,
) -> Color {
    match state {
        EyeState::Opened => if covers(disc, x, y) {
            eye
        } else {
            background
        },
        EyeState::HalfOpened => if covers(half_disc, x, y) {
            eye
        } else {
            background
        },
        EyeState::AlmostClosed => if covers(eyelid, x, y) {
            background
        } else if covers(half_disc, x, y) {
            eye
        } else {
            background
        },
        EyeState::Closed => if covers(arc, x, y) {
            eye
        } else {
            background
        },
    }
}

/// Redraws `sprite` as the eye in `state`: first all `background`, then the
/// pose's shapes in order as `pose_pixel` describes. Points outside the
/// sprite are dropped.
pub fn draw_eye_pose(
    sprite: &mut Sprite,
    state: EyeState,
    eye: Color,
    background: Color,
    disc: &Vec<Point>,
    half_disc: &Vec<Point>,
    eyelid: &Vec<Point>,
    arc: &Vec<Point>,
)
    requires
        old(sprite).wf(),
    ensures
        final(sprite).same_frame(old(sprite)),
        forall|x: int, y: int|
            old(sprite).contains(x, y) ==> #[trigger] final(sprite).color_at(x, y) == pose_pixel(
                state,
                eye,
                background,
                disc@,
                half_disc@,
                eyelid@,
                arc@,
                x,
                y,
            ),
{
    sprite.clear(background);
    match state {
        EyeState::Opened => sprite.draw_points(disc, eye),
        EyeState::HalfOpened => sprite.draw_points(half_disc, eye),
        EyeState::AlmostClosed => {
            sprite.draw_points(half_disc, eye);
            sprite.draw_points(eyelid, background);
        },
        EyeState::Closed => sprite.draw_points(arc, eye),
    }
}

/// Color of pixel `(x, y)` of the mouth sprite drawn with `mouth` over
/// `background` from the given quarter disc.
pub open spec fn mouth_pixel(
    mouth: Color,
    background: Color,
    quarter_disc: Seq<Point>,
    x: int,
    y: int,
) -> Color {
    if covers(quarter_disc, x, y) {
        mouth
    } else {
        background
    }
}

/// The sprites of the face: one per eye state and one for the mouth.
pub struct WioTerminalChan {
    pub(crate) eye_opened: Sprite,
    pub(crate) eye_half_opened: Sprite,
    pub(crate) eye_almost_closed: Sprite,
    pub(crate) eye_closed: Sprite,
    pub(crate) mouth: Sprite,
}

/// Whether `s` is a well-formed square sprite of side `side`.
pub open spec fn square_sprite(s: Sprite, side: int) -> bool {
    &&& s.wf()
    &&& s.width() == side
    &&& s.height() == side
    &&& s.pixels().len() == side * side
}

impl WioTerminalChan {
    pub closed spec fn eye_spec(&self, state: EyeState) -> Sprite {
        match state {
            EyeState::Opened => self.eye_opened,
            EyeState::HalfOpened => self.eye_half_opened,
            EyeState::AlmostClosed => self.eye_almost_closed,
            EyeState::Closed => self.eye_closed,
        }
    }

    pub closed spec fn mouth_spec(&self) -> Sprite {
        self.mouth
    }

    pub open spec fn wf(&self) -> bool {
        &&& forall|s: EyeState| square_sprite(#[trigger] self.eye_spec(s), EYE_DIAMETER as int)
        &&& square_sprite(self.mouth_spec(), MOUTH_DIAMETER as int)
    }

    /// Black sprites of the eye and mouth sizes.
    pub fn new() -> (c: WioTerminalChan)
        ensures
            c.wf(),
            forall|s: EyeState| #[trigger] c.eye_spec(s).offset_spec() == (Point { x: 0, y: 0 }),
            c.mouth_spec().offset_spec() == (Point { x: 0, y: 0 }),
            forall|s: EyeState, x: int, y: int|
                0 <= x < EYE_DIAMETER && 0 <= y < EYE_DIAMETER ==> #[trigger] c.eye_spec(s).color_at(x, y)
                    == (Color { raw: 0 }),
            forall|x: int, y: int|
                0 <= x < MOUTH_DIAMETER && 0 <= y < MOUTH_DIAMETER ==> #[trigger] c.mouth_spec().color_at(x, y)
                    == (Color { raw: 0 }),
    {
        assert(EYE_DIAMETER == 2 * EYE_RADIUS + 1 && MOUTH_DIAMETER == 2 * MOUTH_RADIUS + 1);
        assert(EYELID_HEIGHT == EYE_DIAMETER * 3 / 4);
        let c = WioTerminalChan {
            eye_opened: Sprite::new(EYE_DIAMETER, EYE_DIAMETER),
            eye_half_opened: Sprite::new(EYE_DIAMETER, EYE_DIAMETER),
            eye_almost_closed: Sprite::new(EYE_DIAMETER, EYE_DIAMETER),
            eye_closed: Sprite::new(EYE_DIAMETER, EYE_DIAMETER),
            mouth: Sprite::new(MOUTH_DIAMETER, MOUTH_DIAMETER),
        };
        assert forall|s: EyeState| square_sprite(#[trigger] c.eye_spec(s), EYE_DIAMETER as int) by {
            match s {
                EyeState::Opened => {},
                EyeState::HalfOpened => {},
                EyeState::AlmostClosed => {},
                EyeState::Closed => {},
            }
        }
        assert forall|s: EyeState| #[trigger] c.eye_spec(s).offset_spec() == (Point { x: 0, y: 0 }) by {
            match s {
                EyeState::Opened => {},
                EyeState::HalfOpened => {},
                EyeState::AlmostClosed => {},
                EyeState::Closed => {},
            }
        }
        assert forall|s: EyeState, x: int, y: int|
            0 <= x < EYE_DIAMETER && 0 <= y < EYE_DIAMETER implies #[trigger] c.eye_spec(s).color_at(x, y)
            == (Color { raw: 0 }) by {
            match s {
                EyeState::Opened => assert(c.eye_opened.contains(x, y)),
                EyeState::HalfOpened => assert(c.eye_half_opened.contains(x, y)),
                EyeState::AlmostClosed => assert(c.eye_almost_closed.contains(x, y)),
                EyeState::Closed => assert(c.eye_closed.contains(x, y)),
            }
        }
        assert forall|x: int, y: int|
            0 <= x < MOUTH_DIAMETER && 0 <= y < MOUTH_DIAMETER implies #[trigger] c.mouth_spec().color_at(x, y)
            == (Color { raw: 0 }) by {
            assert(c.mouth.contains(x, y));
        }
        c
    }

    /// The sprite of the eye in `state`.
    pub fn eye_sprite(&self, state: EyeState) -> (s: &Sprite)
        ensures
            *s == self.eye_spec(state),
    {
        match state {
            EyeState::Opened => &self.eye_opened,
            EyeState::HalfOpened => &self.eye_half_opened,
            EyeState::AlmostClosed => &self.eye_almost_closed,
            EyeState::Closed => &self.eye_closed,
        }
    }

    pub fn mouth_sprite(&self) -> (s: &Sprite)
        ensures
            *s == self.mouth_spec(),
    {
        &self.mouth
    }

    /// Redraws the four eye sprites in `eye` over `background`: a filled
    /// circle for `Opened`; `half_disc` (the filled upper half of the eye's
    /// circle) for `HalfOpened`; the same half disc with the upper part of
    /// the eye, an ellipse of `EYELID_HEIGHT` rows, painted back in
    /// `background` for `AlmostClosed`; and `arc` (the one-pixel outline of
    /// the upper half circle) for `Closed`. Points outside a sprite are
    /// dropped.
    pub fn update_eye_sprite(
        &mut self,
        eye: Color,
        background: Color,
        half_disc: &Vec<Point>,
        arc: &Vec<Point>,
    )
        requires
            old(self).wf(),
        ensures
            final(self).wf(),
            final(self).mouth_spec() == old(self).mouth_spec(),
            forall|s: EyeState| #[trigger] final(self).eye_spec(s).offset_spec() == old(self).eye_spec(s).offset_spec(),
            forall|s: EyeState, x: int, y: int|
                0 <= x < EYE_DIAMETER && 0 <= y < EYE_DIAMETER ==> #[trigger] final(self).eye_spec(s).color_at(x, y)
                    == eye_pixel(s, eye, background, half_disc@, arc@, x, y),
    {
        proof {
            self.lemma_eye_square(EyeState::Opened);
            self.lemma_eye_square(EyeState::HalfOpened);
            self.lemma_eye_square(EyeState::AlmostClosed);
            self.lemma_eye_square(EyeState::Closed);
        }
        let disc = circle_points(EYE_DIAMETER);
        let eyelid = filled_ellipse_points(EYE_DIAMETER, EYELID_HEIGHT);
        draw_eye_pose(&mut self.eye_opened, EyeState::Opened, eye, background, &disc, half_disc, &eyelid, arc);
        draw_eye_pose(&mut self.eye_half_opened, EyeState::HalfOpened, eye, background, &disc, half_disc, &eyelid, arc);
        draw_eye_pose(&mut self.eye_almost_closed, EyeState::AlmostClosed, eye, background, &disc, half_disc, &eyelid, arc);
        draw_eye_pose(&mut self.eye_closed, EyeState::Closed, eye, background, &disc, half_disc, &eyelid, arc);

        assert forall|s: EyeState| square_sprite(#[trigger] self.eye_spec(s), EYE_DIAMETER as int) by {
            match s {
                EyeState::Opened => {},
                EyeState::HalfOpened => {},
                EyeState::AlmostClosed => {},
                EyeState::Closed => {},
            }
        }
        assert forall|s: EyeState, x: int, y: int|
            0 <= x < EYE_DIAMETER && 0 <= y < EYE_DIAMETER implies #[trigger] self.eye_spec(s).color_at(x, y)
            == eye_pixel(s, eye, background, half_disc@, arc@, x, y) by {
            match s {
                EyeState::Opened => {
                    assert(self.eye_opened.contains(x, y));
                },
                EyeState::HalfOpened => {
                    assert(self.eye_half_opened.contains(x, y));
                },
                EyeState::AlmostClosed => {
                    assert(self.eye_almost_closed.contains(x, y));
                },
                EyeState::Closed => {
                    assert(self.eye_closed.contains(x, y));
                },
            }
        }
    }

    /// Redraws the mouth sprite: `quarter_disc` (the filled lower-right
    /// quarter of the mouth's circle) in `mouth` over `background`.
    pub fn update_mouth_sprite(&mut self, mouth: Color, background: Color, quarter_disc: &Vec<Point>)
        requires
            old(self).wf(),
        ensures
            final(self).wf(),
            forall|s: EyeState| #[trigger] final(self).eye_spec(s) == old(self).eye_spec(s),
            final(self).mouth_spec().offset_spec() == old(self).mouth_spec().offset_spec(),
            forall|x: int, y: int|
                0 <= x < MOUTH_DIAMETER && 0 <= y < MOUTH_DIAMETER ==> #[trigger] final(self).mouth_spec().color_at(x, y)
                    == mouth_pixel(mouth, background, quarter_disc@, x, y),
    {
        self.mouth.clear(background);
        self.mouth.draw_points(quarter_disc, mouth);
        assert forall|s: EyeState| #[trigger] self.eye_spec(s) == old(self).eye_spec(s) by {
            match s {
                EyeState::Opened => {},
                EyeState::HalfOpened => {},
                EyeState::AlmostClosed => {},
                EyeState::Closed => {},
            }
        }
        assert forall|x: int, y: int|
            0 <= x < MOUTH_DIAMETER && 0 <= y < MOUTH_DIAMETER implies #[trigger] self.mouth_spec().color_at(x, y)
            == mouth_pixel(mouth, background, quarter_disc@, x, y) by {
            assert(self.mouth.contains(x, y));
        }
    }

    proof fn lemma_eye_square(&self, s: EyeState)
        requires
            self.wf(),
        ensures
            square_sprite(self.eye_spec(s), EYE_DIAMETER as int),
    {
    }
}

} // verus!
