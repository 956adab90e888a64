//! Placement of the eye and mouth sprites on the display.
use vstd::prelude::*;
use crate::geometry::{Point, Rect, Size};
use crate::sequencer::{action_at, action_spec, lemma_action_periodic, Action, CYCLE_LENGTH};
use crate::raster::{EyeState, WioTerminalChan, EYE_DIAMETER, EYE_RADIUS, MOUTH_DIAMETER, MOUTH_RADIUS};

verus! {

/// Distance of each eye's center from the left or right edge.
pub const EYE_OFFSET_X: u32 = 60;

/// Distance of the eyes' centers from the top edge.
pub const EYE_OFFSET_Y: u32 = 70;

/// Distance of the mouth's center from the bottom edge.
pub const MOUTH_OFFSET: u32 = 70;

/// Which sprite of a `WioTerminalChan` a blit copies.
#[derive(Clone, Copy, PartialEq, Eq, Structural, Debug)]
pub enum SpriteId {
    Eye(EyeState),
    Mouth,
}

/// A copy of one sprite's pixels, row by row, into `area` of the display.
#[derive(Clone, Copy, PartialEq, Eq, Structural, Debug)]
pub struct Blit {
    pub sprite: SpriteId,
    pub area: Rect,
}

/// The centers of the two eyes and of the mouth.
#[derive(Clone, Copy, PartialEq, Eq, Structural, Debug)]
pub struct FaceAnchors {
    pub left_eye: Point,
    pub right_eye: Point,
    pub mouth: Point,
}

/// Screens on which the anchors are defined: the offsets fit inside, and
/// both sides are valid coordinates.
pub open spec fn screen_fits(screen: Size) -> bool {
    &&& EYE_OFFSET_X <= screen.width <= i32::MAX
    &&& MOUTH_OFFSET <= screen.height <= i32::MAX
}

/// The anchors on a `screen`-sized display.
pub open spec fn anchors_spec(screen: Size) -> FaceAnchors {
    FaceAnchors {
        left_eye: Point { x: EYE_OFFSET_X as i32, y: EYE_OFFSET_Y as i32 },
        right_eye: Point { x: (screen.width - EYE_OFFSET_X) as i32, y: EYE_OFFSET_Y as i32 },
        mouth: Point { x: (screen.width / 2) as i32, y: (screen.height - MOUTH_OFFSET) as i32 },
    }
}

/// The square of side `diameter` centered on `center`.
pub open spec fn centered_square(center: Point, radius: int, diameter: u32) -> Rect {
    Rect {
        top_left: Point { x: (center.x - radius) as i32, y: (center.y - radius) as i32 },
        size: Size { width: diameter, height: diameter },
    }
}

/// Whether a square of the given radius centered on `center` has a
/// representable top-left corner.
pub open spec fn center_fits(center: Point, radius: int) -> bool {
    center.x - radius >= i32::MIN && center.y - radius >= i32::MIN
}

/// The blits that draw the face, in order: left eye, right eye, mouth, each
/// sprite centered on its anchor.
pub open spec fn face_blits_spec(left: EyeState, right: EyeState, screen: Size) -> Seq<Blit> {
    let a = anchors_spec(screen);
    seq![
        Blit {
            sprite: SpriteId::Eye(left),
            area: centered_square(a.left_eye, EYE_RADIUS as int, EYE_DIAMETER),
        },
        Blit {
            sprite: SpriteId::Eye(right),
            area: centered_square(a.right_eye, EYE_RADIUS as int, EYE_DIAMETER),
        },
        Blit { sprite: SpriteId::Mouth, area: centered_square(a.mouth, MOUTH_RADIUS as int, MOUTH_DIAMETER) },
    ]
}

/// What tick `t` draws: the face when the schedule redraws it, else nothing.
pub open spec fn frame_spec(t: int, screen: Size) -> Seq<Blit> {
    match action_spec(t) {
        Action::DrawFace(state) => face_blits_spec(state, state, screen),
        _ => Seq::empty(),
    }
}

/// The drawing repeats every cycle: ticks `t` and `t + CYCLE_LENGTH` draw the
/// same blits.
pub proof fn lemma_frame_periodic(t: int, screen: Size)
    ensures
        frame_spec(t, screen) == frame_spec(t + CYCLE_LENGTH, screen),
{
    lemma_action_periodic(t);
}

/// The eye and mouth centers on a display of size `screen`: the left eye at
/// `(EYE_OFFSET_X, EYE_OFFSET_Y)`, the right eye mirrored from the right
/// edge, and the mouth centered horizontally `MOUTH_OFFSET` above the bottom.
pub fn face_anchors(screen: Size) -> (a: FaceAnchors)
    requires
        screen_fits(screen),
    ensures
        a == anchors_spec(screen),
{
    FaceAnchors {
        left_eye: Point::new(EYE_OFFSET_X as i32, EYE_OFFSET_Y as i32),
        right_eye: Point::new((screen.width - EYE_OFFSET_X) as i32, EYE_OFFSET_Y as i32),
        mouth: Point::new((screen.width / 2) as i32, (screen.height - MOUTH_OFFSET) as i32),
    }
}

impl WioTerminalChan {
    /// The blit that draws the eye in `state` centered on `center`.
    pub fn draw_eye(&self, center: Point, state: EyeState) -> (b: Blit)
        requires
            center_fits(center, EYE_RADIUS as int),
        ensures
            b.sprite == SpriteId::Eye(state),
            b.area == centered_square(center, EYE_RADIUS as int, EYE_DIAMETER),
    {
        let r = EYE_RADIUS as i32;
        Blit {
            sprite: SpriteId::Eye(state),
            area: Rect::new(Point::new(center.x - r, center.y - r), Size::new(EYE_DIAMETER, EYE_DIAMETER)),
        }
    }

    /// The blit that draws the mouth centered on `center`.
    pub fn draw_mouth(&self, center: Point) -> (b: Blit)
        requires
            center_fits(center, MOUTH_RADIUS as int),
        ensures
            b.sprite == SpriteId::Mouth,
            b.area == centered_square(center, MOUTH_RADIUS as int, MOUTH_DIAMETER),
    {
        let r = MOUTH_RADIUS as i32;
        Blit {
            sprite: SpriteId::Mouth,
            area: Rect::new(Point::new(center.x - r, center.y - r), Size::new(MOUTH_DIAMETER, MOUTH_DIAMETER)),
        }
    }

    /// The blits that draw the face on a `screen`-sized display, in drawing
    /// order: left eye, right eye, mouth.
    pub fn draw_face(&self, left: EyeState, right: EyeState, screen: Size) -> (r: Vec<Blit>)
        requires
            screen_fits(screen),
        ensures
            r@ == face_blits_spec(left, right, screen),
    {
        let a = face_anchors(screen);
        let mut r: Vec<Blit> = Vec::new();
        r.push(self.draw_eye(a.left_eye, left));
        r.push(self.draw_eye(a.right_eye, right));
        r.push(self.draw_mouth(a.mouth));
        assert(r@ =~= face_blits_spec(left, right, screen));
        r
    }

    /// The blits to draw on tick `tick`: the face with both eyes in the
    /// scheduled state on a tick that redraws, nothing otherwise.
    pub fn frame_blits(&self, tick: u32, screen: Size) -> (r: Vec<Blit>)
        requires
            screen_fits(screen),
        ensures
            r@ == frame_spec(tick as int, screen),
    {
        match action_at(tick) {
            Action::DrawFace(state) => self.draw_face(state, state, screen),
            _ => Vec::new(),
        }
    }
}

} // verus!
