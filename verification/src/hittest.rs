//! Hit-testing for frameless windows: resize border bands, drag regions and
//! no-drag regions, and the cursor-icon decision on pointer motion.

use vstd::prelude::*;
use crate::geometry::{in_any, Rect};

verus! {

/// Width of the resize border band, in device pixels.
pub const RESIZE_BORDER: i32 = 8;

/// The direction of a native resize gesture.
#[derive(Clone, Copy, PartialEq, Eq, Structural, Debug)]
pub enum ResizeDirection {
    North,
    South,
    East,
    West,
    NorthEast,
    NorthWest,
    SouthEast,
    SouthWest,
}

/// The resize direction for a pointer at `(px, py)` in a window of inner size
/// `w` by `h`, or `None` when the pointer is outside the border band.
/// Corners take priority over edges.
pub open spec fn spec_resize_direction(px: int, py: int, w: int, h: int) -> Option<
    ResizeDirection,
> {
    let b = RESIZE_BORDER as int;
    if px < b && py < b {
        Some(ResizeDirection::NorthWest)
    } else if px > w - b && py < b {
        Some(ResizeDirection::NorthEast)
    } else if px < b && py > h - b {
        Some(ResizeDirection::SouthWest)
    } else if px > w - b && py > h - b {
        Some(ResizeDirection::SouthEast)
    } else if px < b {
        Some(ResizeDirection::West)
    } else if px > w - b {
        Some(ResizeDirection::East)
    } else if py < b {
        Some(ResizeDirection::North)
    } else if py > h - b {
        Some(ResizeDirection::South)
    } else {
        None
    }
}

pub fn resize_direction(px: i32, py: i32, w: u32, h: u32) -> (r: Option<ResizeDirection>)
    ensures
        r == spec_resize_direction(px as int, py as int, w as int, h as int),
{
    let b = RESIZE_BORDER as i64;
    let x = px as i64;
    let y = py as i64;
    let right = w as i64 - b;
    let bottom = h as i64 - b;
    if x < b && y < b {
        Some(ResizeDirection::NorthWest)
    } else if x > right && y < b {
        Some(ResizeDirection::NorthEast)
    } else if x < b && y > bottom {
        Some(ResizeDirection::SouthWest)
    } else if x > right && y > bottom {
        Some(ResizeDirection::SouthEast)
    } else if x < b {
        Some(ResizeDirection::West)
    } else if x > right {
        Some(ResizeDirection::East)
    } else if y < b {
        Some(ResizeDirection::North)
    } else if y > bottom {
        Some(ResizeDirection::South)
    } else {
        None
    }
}

/// What a left-button press at a point means for a window.
#[derive(Clone, Copy, PartialEq, Eq, Structural, Debug)]
pub enum PressOutcome {
    /// Deliver the button event to the page unchanged.
    Forward,
    /// Swallow the event and start a native resize gesture.
    BeginResize(ResizeDirection),
    /// Swallow the event and start a native window move.
    BeginMove,
}

/// Classification of a left-button press: no-drag regions win over
/// everything, then the resize border band, then the drag regions.
pub open spec fn spec_classify_press(
    frameless: bool,
    drag: Seq<Rect>,
    no_drag: Seq<Rect>,
    px: int,
    py: int,
    w: int,
    h: int,
) -> PressOutcome {
    if !frameless {
        PressOutcome::Forward
    } else if in_any(no_drag, px, py) {
        PressOutcome::Forward
    } else if spec_resize_direction(px, py, w, h) is Some {
        PressOutcome::BeginResize(spec_resize_direction(px, py, w, h)->Some_0)
    } else if in_any(drag, px, py) {
        PressOutcome::BeginMove
    } else {
        PressOutcome::Forward
    }
}

pub fn classify_press(
    frameless: bool,
    drag: &Vec<Rect>,
    no_drag: &Vec<Rect>,
    px: i32,
    py: i32,
    w: u32,
    h: u32,
) -> (r: PressOutcome)
    ensures
        r == spec_classify_press(
            frameless,
            drag@,
            no_drag@,
            px as int,
            py as int,
            w as int,
            h as int,
        ),
{
    if !frameless {
        return PressOutcome::Forward;
    }
    if crate::geometry::hit_any(no_drag, px, py) {
        return PressOutcome::Forward;
    }
    match resize_direction(px, py, w, h) {
        Some(dir) => PressOutcome::BeginResize(dir),
        None => {
            if crate::geometry::hit_any(drag, px, py) {
                PressOutcome::BeginMove
            } else {
                PressOutcome::Forward
            }
        },
    }
}

/// How the cursor icon is driven on pointer motion.
#[derive(Clone, Copy, PartialEq, Eq, Structural, Debug)]
pub enum CursorDecision {
    /// Override the cursor with the resize icon for this direction.
    SetResize(ResizeDirection),
    /// Reset the cursor to the default icon.
    SetDefault,
    /// Leave cursor control to the rendering engine's own notifications.
    Yield,
}

/// The cursor decision on pointer motion, together with the new value of the
/// "currently within resize border" flag. Inside a no-drag rectangle no
/// hit-testing occurs; entering the border band overrides the cursor; the
/// default icon is restored only on the transition out of the band.
pub open spec fn spec_motion_decision(
    frameless: bool,
    no_drag: Seq<Rect>,
    in_resize_border: bool,
    px: int,
    py: int,
    w: int,
    h: int,
) -> (bool, CursorDecision) {
    if !frameless {
        (in_resize_border, CursorDecision::Yield)
    } else if in_any(no_drag, px, py) {
        if in_resize_border {
            (false, CursorDecision::SetDefault)
        } else {
            (false, CursorDecision::Yield)
        }
    } else {
        match spec_resize_direction(px, py, w, h) {
            Some(dir) => (true, CursorDecision::SetResize(dir)),
            None => if in_resize_border {
                (false, CursorDecision::SetDefault)
            } else {
                (false, CursorDecision::Yield)
            },
        }
    }
}

pub fn motion_decision(
    frameless: bool,
    no_drag: &Vec<Rect>,
    in_resize_border: bool,
    px: i32,
    py: i32,
    w: u32,
    h: u32,
) -> (r: (bool, CursorDecision))
    ensures
        r == spec_motion_decision(
            frameless,
            no_drag@,
            in_resize_border,
            px as int,
            py as int,
            w as int,
            h as int,
        ),
{
    if !frameless {
        return (in_resize_border, CursorDecision::Yield);
    }
    if crate::geometry::hit_any(no_drag, px, py) {
        if in_resize_border {
            return (false, CursorDecision::SetDefault);
        }
        return (false, CursorDecision::Yield);
    }
    match resize_direction(px, py, w, h) {
        Some(dir) => (true, CursorDecision::SetResize(dir)),
        None => {
            if in_resize_border {
                (false, CursorDecision::SetDefault)
            } else {
                (false, CursorDecision::Yield)
            }
        },
    }
}

/// A point inside a no-drag rectangle is never classified as a drag or a
/// resize, whatever the drag rectangles and the border bands say, and motion
/// there never overrides the cursor with a resize icon.
pub proof fn lemma_no_drag_wins(
    drag: Seq<Rect>,
    no_drag: Seq<Rect>,
    in_resize_border: bool,
    px: int,
    py: int,
    w: int,
    h: int,
)
    requires
        in_any(no_drag, px, py),
    ensures
        forall|frameless: bool|
            spec_classify_press(frameless, drag, no_drag, px, py, w, h)
                == PressOutcome::Forward,
        forall|frameless: bool|
            !(#[trigger] spec_motion_decision(frameless, no_drag, in_resize_border, px, py, w, h).1
                is SetResize),
{
}

/// In the border band of a frameless window, outside every no-drag
/// rectangle, a press begins the geometrically matching resize: corners win
/// over edges, and each plain edge band maps to its own direction.
pub proof fn lemma_resize_band_direction(
    drag: Seq<Rect>,
    no_drag: Seq<Rect>,
    px: int,
    py: int,
    w: int,
    h: int,
)
    requires
        !in_any(no_drag, px, py),
        RESIZE_BORDER < w - RESIZE_BORDER,
        RESIZE_BORDER < h - RESIZE_BORDER,
    ensures
        px < RESIZE_BORDER && py < RESIZE_BORDER ==> spec_classify_press(
            true,
            drag,
            no_drag,
            px,
            py,
            w,
            h,
        ) == PressOutcome::BeginResize(ResizeDirection::NorthWest),
        px > w - RESIZE_BORDER && py < RESIZE_BORDER ==> spec_classify_press(
            true,
            drag,
            no_drag,
            px,
            py,
            w,
            h,
        ) == PressOutcome::BeginResize(ResizeDirection::NorthEast),
        px < RESIZE_BORDER && py > h - RESIZE_BORDER ==> spec_classify_press(
            true,
            drag,
            no_drag,
            px,
            py,
            w,
            h,
        ) == PressOutcome::BeginResize(ResizeDirection::SouthWest),
        px > w - RESIZE_BORDER && py > h - RESIZE_BORDER ==> spec_classify_press(
            true,
            drag,
            no_drag,
            px,
            py,
            w,
            h,
        ) == PressOutcome::BeginResize(ResizeDirection::SouthEast),
        px < RESIZE_BORDER && RESIZE_BORDER <= py <= h - RESIZE_BORDER ==> spec_classify_press(
            true,
            drag,
            no_drag,
            px,
            py,
            w,
            h,
        ) == PressOutcome::BeginResize(ResizeDirection::West),
        px > w - RESIZE_BORDER && RESIZE_BORDER <= py <= h - RESIZE_BORDER ==> spec_classify_press(
            true,
            drag,
            no_drag,
            px,
            py,
            w,
            h,
        ) == PressOutcome::BeginResize(ResizeDirection::East),
        py < RESIZE_BORDER && RESIZE_BORDER <= px <= w - RESIZE_BORDER ==> spec_classify_press(
            true,
            drag,
            no_drag,
            px,
            py,
            w,
            h,
        ) == PressOutcome::BeginResize(ResizeDirection::North),
        py > h - RESIZE_BORDER && RESIZE_BORDER <= px <= w - RESIZE_BORDER ==> spec_classify_press(
            true,
            drag,
            no_drag,
            px,
            py,
            w,
            h,
        ) == PressOutcome::BeginResize(ResizeDirection::South),
{
}

} // verus!
