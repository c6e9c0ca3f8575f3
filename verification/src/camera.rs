//! 2D camera controller: keyboard pan, middle-mouse drag pan, scroll-wheel
//! zoom, and a rectangular position clamp applied at the end of each frame.
//!
//! Coordinates, deltas and the zoom scale are fixed-point milli-units. The
//! zoom scale is kept in [0.1, 5.0] (100..=5000 milli); the position is kept
//! inside the configured bounds rectangle.

use vstd::prelude::*;
use crate::fixed::{scale_div, clamp_int, div_trunc, mul_div, DIAG_NUM, DIAG_DEN};

verus! {

/// Smallest zoom scale, in milli (0.1).
pub const ZOOM_MIN_MILLI: i64 = 100;
/// Largest zoom scale, in milli (5.0).
pub const ZOOM_MAX_MILLI: i64 = 5000;
/// Keyboard pan speed in world units per second.
pub const PAN_SPEED: i64 = 200;

/// The rectangle the camera position is clamped into, in milli-units.
#[derive(Debug, Clone, Copy, PartialEq, Eq, Structural)]
pub struct CameraBounds {
    pub min_x_milli: i64,
    pub max_x_milli: i64,
    pub min_y_milli: i64,
    pub max_y_milli: i64,
}

/// Bounds are ordered and small enough that clamped arithmetic cannot
/// overflow a 64-bit coordinate.
pub open spec fn bounds_wf(b: CameraBounds) -> bool {
    &&& b.min_x_milli <= b.max_x_milli
    &&& b.min_y_milli <= b.max_y_milli
    &&& -1000000000000000 <= b.min_x_milli
    &&& b.max_x_milli <= 1000000000000000
    &&& -1000000000000000 <= b.min_y_milli
    &&& b.max_y_milli <= 1000000000000000
}

impl CameraBounds {
    /// The fixed arena bound rectangle, 100 world units out on each side.
    pub fn new_default() -> (b: CameraBounds)
        ensures
            b.min_x_milli == -100000 && b.max_x_milli == 100000,
            b.min_y_milli == -100000 && b.max_y_milli == 100000,
            bounds_wf(b),
    {
        CameraBounds {
            min_x_milli: -100000,
            max_x_milli: 100000,
            min_y_milli: -100000,
            max_y_milli: 100000,
        }
    }
}

impl Default for CameraBounds {
    /// The fixed arena bound rectangle, 100 world units out on each side.
    fn default() -> (b: CameraBounds)
        ensures
            b.min_x_milli == -100000 && b.max_x_milli == 100000,
            b.min_y_milli == -100000 && b.max_y_milli == 100000,
            bounds_wf(b),
    {
        CameraBounds::new_default()
    }
}

/// Camera position and orthographic zoom scale, in milli-units.
#[derive(Debug, Clone, Copy, PartialEq, Eq, Structural)]
pub struct CameraState {
    pub x_milli: i64,
    pub y_milli: i64,
    pub zoom_milli: i64,
}

/// The camera position lies inside the bounds rectangle.
pub open spec fn position_in_bounds(c: CameraState, b: CameraBounds) -> bool {
    &&& b.min_x_milli <= c.x_milli <= b.max_x_milli
    &&& b.min_y_milli <= c.y_milli <= b.max_y_milli
}

/// The zoom scale lies in [0.1, 5.0].
pub open spec fn zoom_in_range(c: CameraState) -> bool {
    ZOOM_MIN_MILLI <= c.zoom_milli <= ZOOM_MAX_MILLI
}

/// The zoom scale after one scroll event of `scroll_milli` lines: the scale
/// moves by -scroll/10 (a 0.1 zoom step per line) and is clamped into range.
pub open spec fn zoom_step(zoom: int, scroll_milli: int) -> int {
    clamp_int(zoom - scale_div(scroll_milli, 10), ZOOM_MIN_MILLI as int, ZOOM_MAX_MILLI as int)
}

/// The zoom scale after a whole sequence of scroll events, in order: the
/// fold of `zoom_step` over the events. An empty sequence leaves the scale
/// unchanged.
pub open spec fn zoom_fold(zoom: int, events: Seq<i64>) -> int
    decreases events.len(),
{
    if events.len() == 0 {
        zoom
    } else {
        zoom_step(zoom_fold(zoom, events.drop_last()), events.last() as int)
    }
}

/// The position after one frame of movement: the keyboard and drag deltas
/// add, then the result is clamped into the bounds rectangle.
pub open spec fn pan_step_axis(p: int, d1: int, d2: int, lo: int, hi: int) -> int {
    clamp_int(p + d1 + d2, lo, hi)
}

/// The position after a whole sequence of pan frames, in order: on each
/// axis, the fold of `pan_step_axis` over that axis's deltas. An empty
/// sequence leaves the position unchanged.
pub open spec fn pan_fold(x: int, y: int, deltas: Seq<(i64, i64)>, b: CameraBounds) -> (int, int)
    decreases deltas.len(),
{
    if deltas.len() == 0 {
        (x, y)
    } else {
        let prev = pan_fold(x, y, deltas.drop_last(), b);
        (
            pan_step_axis(prev.0, deltas.last().0 as int, 0,
                b.min_x_milli as int, b.max_x_milli as int),
            pan_step_axis(prev.1, deltas.last().1 as int, 0,
                b.min_y_milli as int, b.max_y_milli as int),
        )
    }
}

impl CameraState {
    /// The camera as spawned: at the origin with zoom scale 1.0.
    pub fn new() -> (c: CameraState)
        ensures
            c.x_milli == 0 && c.y_milli == 0 && c.zoom_milli == 1000,
            zoom_in_range(c),
    {
        CameraState { x_milli: 0, y_milli: 0, zoom_milli: 1000 }
    }

    /// One scroll-wheel event. Whatever the event value, the new scale stays
    /// in [0.1, 5.0].
    pub fn handle_scroll(&mut self, scroll_milli: i64)
        requires
            zoom_in_range(*old(self)),
            scroll_milli > i64::MIN,
        ensures
            final(self).zoom_milli == zoom_step(old(self).zoom_milli as int, scroll_milli as int),
            final(self).x_milli == old(self).x_milli,
            final(self).y_milli == old(self).y_milli,
            zoom_in_range(*final(self)),
    {
        let delta: i64 = div_trunc(scroll_milli, 10);
        let moved: i64 = self.zoom_milli - delta;
        self.zoom_milli = if moved < ZOOM_MIN_MILLI {
            ZOOM_MIN_MILLI
        } else if moved > ZOOM_MAX_MILLI {
            ZOOM_MAX_MILLI
        } else {
            moved
        };
    }

    /// A whole sequence of scroll events, applied in order: the scale ends
    /// at the fold of the per-event clamp step over the events, and stays
    /// in [0.1, 5.0] however long the sequence runs.
    pub fn handle_scroll_events(&mut self, events: &Vec<i64>)
        requires
            zoom_in_range(*old(self)),
            forall|i: int| 0 <= i < events@.len() ==> events@[i] > i64::MIN,
        ensures
            final(self).zoom_milli == zoom_fold(old(self).zoom_milli as int, events@),
            zoom_in_range(*final(self)),
            final(self).x_milli == old(self).x_milli,
            final(self).y_milli == old(self).y_milli,
    {
        let n: usize = events.len();
        let mut i: usize = 0;
        while i < n
            invariant
                i <= n,
                n == events@.len(),
                self.zoom_milli == zoom_fold(old(self).zoom_milli as int,
                    events@.subrange(0, i as int)),
                zoom_in_range(*self),
                self.x_milli == old(self).x_milli,
                self.y_milli == old(self).y_milli,
                forall|j: int| 0 <= j < events@.len() ==> events@[j] > i64::MIN,
            decreases n - i,
        {
            let e: i64 = events[i];
            self.handle_scroll(e);
            proof {
                assert(events@.subrange(0, i + 1).drop_last()
                    =~= events@.subrange(0, i as int));
                assert(events@.subrange(0, i + 1).last() == events@[i as int]);
            }
            i = i + 1;
        }
        proof {
            assert(events@.subrange(0, events@.len() as int) =~= events@);
        }
    }

    /// One frame of camera movement: add the keyboard and drag deltas, then
    /// clamp the position into the bounds rectangle, clamp last.
    pub fn step_frame(&mut self, kb_dx: i64, kb_dy: i64, drag_dx: i64, drag_dy: i64, bounds: &CameraBounds)
        requires
            bounds_wf(*bounds),
            position_in_bounds(*old(self), *bounds),
            -1000000000000000 <= kb_dx <= 1000000000000000,
            -1000000000000000 <= kb_dy <= 1000000000000000,
            -1000000000000000 <= drag_dx <= 1000000000000000,
            -1000000000000000 <= drag_dy <= 1000000000000000,
        ensures
            final(self).x_milli == pan_step_axis(
                old(self).x_milli as int, kb_dx as int, drag_dx as int,
                bounds.min_x_milli as int, bounds.max_x_milli as int),
            final(self).y_milli == pan_step_axis(
                old(self).y_milli as int, kb_dy as int, drag_dy as int,
                bounds.min_y_milli as int, bounds.max_y_milli as int),
            final(self).zoom_milli == old(self).zoom_milli,
            position_in_bounds(*final(self), *bounds),
    {
        let sx: i64 = self.x_milli + kb_dx + drag_dx;
        let sy: i64 = self.y_milli + kb_dy + drag_dy;
        self.x_milli = if sx < bounds.min_x_milli {
            bounds.min_x_milli
        } else if sx > bounds.max_x_milli {
            bounds.max_x_milli
        } else {
            sx
        };
        self.y_milli = if sy < bounds.min_y_milli {
            bounds.min_y_milli
        } else if sy > bounds.max_y_milli {
            bounds.max_y_milli
        } else {
            sy
        };
    }

    /// A whole sequence of pan frames, applied in order: the position ends
    /// at the per-axis fold of the clamped movement step over the deltas,
    /// and stays inside the bounds rectangle however long the sequence runs.
    pub fn apply_pan_frames(&mut self, deltas: &Vec<(i64, i64)>, bounds: &CameraBounds)
        requires
            bounds_wf(*bounds),
            position_in_bounds(*old(self), *bounds),
            forall|i: int| 0 <= i < deltas@.len()
                ==> -1000000000000000 <= (#[trigger] deltas@[i]).0 <= 1000000000000000
                    && -1000000000000000 <= deltas@[i].1 <= 1000000000000000,
        ensures
            (final(self).x_milli as int, final(self).y_milli as int)
                == pan_fold(old(self).x_milli as int, old(self).y_milli as int,
                    deltas@, *bounds),
            position_in_bounds(*final(self), *bounds),
            final(self).zoom_milli == old(self).zoom_milli,
    {
        let n: usize = deltas.len();
        let mut i: usize = 0;
        while i < n
            invariant
                i <= n,
                n == deltas@.len(),
                bounds_wf(*bounds),
                (self.x_milli as int, self.y_milli as int)
                    == pan_fold(old(self).x_milli as int, old(self).y_milli as int,
                        deltas@.subrange(0, i as int), *bounds),
                position_in_bounds(*self, *bounds),
                self.zoom_milli == old(self).zoom_milli,
                forall|j: int| 0 <= j < deltas@.len()
                    ==> -1000000000000000 <= (#[trigger] deltas@[j]).0 <= 1000000000000000
                        && -1000000000000000 <= deltas@[j].1 <= 1000000000000000,
            decreases n - i,
        {
            let (dx, dy): (i64, i64) = deltas[i];
            self.step_frame(dx, dy, 0, 0, bounds);
            proof {
                assert(deltas@.subrange(0, i + 1).drop_last()
                    =~= deltas@.subrange(0, i as int));
                assert(deltas@.subrange(0, i + 1).last() == deltas@[i as int]);
            }
            i = i + 1;
        }
        proof {
            assert(deltas@.subrange(0, deltas@.len() as int) =~= deltas@);
        }
    }
}

/// Middle-mouse drag tracking: whether a drag is live and the cursor
/// position (milli-pixels) it was last seen at.
#[derive(Debug, Clone, Copy, PartialEq, Eq, Structural)]
pub struct DragState {
    pub is_dragging: bool,
    pub last_x_milli: i64,
    pub last_y_milli: i64,
}

/// The last seen cursor position stays within the coordinate range a drag
/// step accepts.
pub open spec fn drag_wf(d: DragState) -> bool {
    &&& -1000000000000 <= d.last_x_milli <= 1000000000000
    &&& -1000000000000 <= d.last_y_milli <= 1000000000000
}

/// The drag state after the press and release edges of one frame: a press
/// over a visible cursor begins a drag there; a release ends it.
pub open spec fn drag_mid(
    d: DragState, pressed: bool, released: bool, cursor: Option<(i64, i64)>,
) -> DragState {
    let begun = if pressed && cursor is Some {
        DragState {
            is_dragging: true,
            last_x_milli: cursor->Some_0.0,
            last_y_milli: cursor->Some_0.1,
        }
    } else {
        d
    };
    if released {
        DragState {
            is_dragging: false,
            last_x_milli: begun.last_x_milli,
            last_y_milli: begun.last_y_milli,
        }
    } else {
        begun
    }
}

/// The drag state at the end of one frame: while dragging over a visible
/// cursor, the cursor position is remembered for the next frame.
pub open spec fn drag_after(
    d: DragState, pressed: bool, released: bool, cursor: Option<(i64, i64)>,
) -> DragState {
    let mid = drag_mid(d, pressed, released, cursor);
    if mid.is_dragging && cursor is Some {
        DragState {
            is_dragging: true,
            last_x_milli: cursor->Some_0.0,
            last_y_milli: cursor->Some_0.1,
        }
    } else {
        mid
    }
}

/// The world-space pan the drag contributes in one frame: while dragging
/// over a visible cursor, the screen motion since the last seen position,
/// converted by zoom over viewport with the x sign flipped; otherwise zero.
pub open spec fn drag_step_delta(
    d: DragState, pressed: bool, released: bool, cursor: Option<(i64, i64)>,
    zoom: int, vw: int, vh: int,
) -> (int, int) {
    let mid = drag_mid(d, pressed, released, cursor);
    if mid.is_dragging && cursor is Some {
        let sdx = cursor->Some_0.0 - mid.last_x_milli;
        let sdy = cursor->Some_0.1 - mid.last_y_milli;
        (-scale_div(sdx * zoom, vw), scale_div(sdy * zoom, vh))
    } else {
        (0, 0)
    }
}

impl DragState {
    /// Before any input: no drag live, last position at the origin.
    pub fn new() -> (d: DragState)
        ensures
            d == (DragState { is_dragging: false, last_x_milli: 0, last_y_milli: 0 }),
            drag_wf(d),
    {
        DragState { is_dragging: false, last_x_milli: 0, last_y_milli: 0 }
    }

    /// One frame of the middle-mouse drag handler: track the press and
    /// release edges, and return the world-space pan this frame's cursor
    /// motion asks for.
    pub fn update(
        &mut self,
        middle_just_pressed: bool,
        middle_just_released: bool,
        cursor: Option<(i64, i64)>,
        zoom_milli: i64,
        viewport_w_milli: i64,
        viewport_h_milli: i64,
    ) -> (delta: (i64, i64))
        requires
            drag_wf(*old(self)),
            ZOOM_MIN_MILLI <= zoom_milli <= ZOOM_MAX_MILLI,
            viewport_w_milli > 0,
            viewport_h_milli > 0,
            cursor is Some ==> -1000000000000 <= cursor->Some_0.0 <= 1000000000000
                && -1000000000000 <= cursor->Some_0.1 <= 1000000000000,
        ensures
            *final(self) == drag_after(*old(self), middle_just_pressed, middle_just_released,
                cursor),
            (delta.0 as int, delta.1 as int) == drag_step_delta(*old(self), middle_just_pressed,
                middle_just_released, cursor, zoom_milli as int, viewport_w_milli as int,
                viewport_h_milli as int),
            drag_wf(*final(self)),
    {
        if middle_just_pressed {
            if let Some((cx, cy)) = cursor {
                self.is_dragging = true;
                self.last_x_milli = cx;
                self.last_y_milli = cy;
            }
        }
        if middle_just_released {
            self.is_dragging = false;
        }
        if self.is_dragging {
            if let Some((cx, cy)) = cursor {
                let sdx: i64 = cx - self.last_x_milli;
                let sdy: i64 = cy - self.last_y_milli;
                let delta: (i64, i64) = drag_world_delta(
                    sdx, sdy, zoom_milli, viewport_w_milli, viewport_h_milli);
                self.last_x_milli = cx;
                self.last_y_milli = cy;
                return delta;
            }
        }
        (0, 0)
    }
}

/// The world-space pan delta for one frame of held direction keys.
///
/// Each axis direction is the difference of its two keys; a diagonal is
/// normalized by the fixed-point cos(45 deg) factor, so the pan speed is the
/// same on every heading, then scaled by 200 units/second times the frame
/// delta.
pub fn keyboard_pan_delta(up: bool, down: bool, left: bool, right: bool, dt_milli: i64)
    -> (d: (i64, i64))
    requires
        0 <= dt_milli <= 1000000000,
    ensures
        ({
            let dir_x: int = (if right { 1int } else { 0int }) - (if left { 1int } else { 0int });
            let dir_y: int = (if up { 1int } else { 0int }) - (if down { 1int } else { 0int });
            let step: int = PAN_SPEED * dt_milli;
            if dir_x != 0 && dir_y != 0 {
                d.0 == dir_x * scale_div(step * DIAG_NUM, DIAG_DEN as int)
                    && d.1 == dir_y * scale_div(step * DIAG_NUM, DIAG_DEN as int)
            } else {
                d.0 == dir_x * step && d.1 == dir_y * step
            }
        }),
{
    let dir_x: i64 = (if right { 1i64 } else { 0i64 }) - (if left { 1i64 } else { 0i64 });
    let dir_y: i64 = (if up { 1i64 } else { 0i64 }) - (if down { 1i64 } else { 0i64 });
    let step: i64 = PAN_SPEED * dt_milli;
    if dir_x != 0 && dir_y != 0 {
        proof {
            crate::fixed::lemma_mul_abs_bound(step as int, 200000000000,
                DIAG_NUM as int, DIAG_NUM as int);
            crate::fixed::lemma_scale_div_bounds(step * DIAG_NUM, DIAG_DEN as int);
        }
        let diag: i64 = mul_div(step, DIAG_NUM, DIAG_DEN);
        proof {
            crate::fixed::lemma_mul_abs_bound(dir_x as int, 1, diag as int,
                141421400000000000);
            crate::fixed::lemma_mul_abs_bound(dir_y as int, 1, diag as int,
                141421400000000000);
        }
        (dir_x * diag, dir_y * diag)
    } else {
        proof {
            crate::fixed::lemma_mul_abs_bound(dir_x as int, 1, step as int, 200000000000);
            crate::fixed::lemma_mul_abs_bound(dir_y as int, 1, step as int, 200000000000);
        }
        (dir_x * step, dir_y * step)
    }
}

/// The world-space delta for a middle-mouse drag of `(screen_dx, screen_dy)`
/// milli-pixels: each axis scales by zoom over the viewport extent, with the
/// sign flipped on x and kept on y.
pub fn drag_world_delta(
    screen_dx_milli: i64,
    screen_dy_milli: i64,
    zoom_milli: i64,
    viewport_w_milli: i64,
    viewport_h_milli: i64,
) -> (d: (i64, i64))
    requires
        ZOOM_MIN_MILLI <= zoom_milli <= ZOOM_MAX_MILLI,
        viewport_w_milli > 0,
        viewport_h_milli > 0,
        -2000000000000 <= screen_dx_milli <= 2000000000000,
        -2000000000000 <= screen_dy_milli <= 2000000000000,
    ensures
        d.0 == -scale_div(screen_dx_milli * zoom_milli, viewport_w_milli as int),
        d.1 == scale_div(screen_dy_milli * zoom_milli, viewport_h_milli as int),
{
    proof {
        crate::fixed::lemma_mul_abs_bound(
            screen_dx_milli as int, 2000000000000, zoom_milli as int, 5000);
        crate::fixed::lemma_mul_abs_bound(
            screen_dy_milli as int, 2000000000000, zoom_milli as int, 5000);
        crate::fixed::lemma_scale_div_bounds(
            screen_dx_milli * zoom_milli, viewport_w_milli as int);
    }
    let wx: i64 = mul_div(screen_dx_milli, zoom_milli, viewport_w_milli);
    let wy: i64 = mul_div(screen_dy_milli, zoom_milli, viewport_h_milli);
    (-wx, wy)
}

} // verus!
