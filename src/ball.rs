use vstd::prelude::*;

use crate::geometry::{
    button_offset, button_radius, center_x_of, center_y_of, circle_layout, clamp_int, gear_layout,
    in_disk, radius_of, resize_layout, within, Point, Rect, Size,
};

verus! {

/// What the gauge asks of the application.
#[derive(Clone, Copy, Debug, PartialEq, Eq, Structural)]
pub enum BallEvent {
    StartDrag,
    ToggleSettings,
    RefreshNow,
    Scroll(i32),
    StartResize(Point),
    ResizeMove(Point),
    EndResize,
}

/// The state shown by the gauge's outline color.
#[derive(Clone, Copy, Debug, PartialEq, Eq, Structural)]
pub enum BallStatus {
    Idle,
    Fetching,
    Error,
}

/// What the gauge shows: a title, a value, a fill ratio (scaled by `RATIO_SCALE`) and a status.
#[derive(Clone, Debug)]
pub struct BallDisplay {
    pub title: String,
    pub value: String,
    pub ratio: u32,
    pub status: BallStatus,
}

/// The gauge's model: what it shows, whether the overlay layer must be redrawn, and the
/// wave phase in millionths of a radian.
#[derive(Debug)]
pub struct FloatingBall {
    pub display: BallDisplay,
    pub overlay_dirty: bool,
    pub wave_phase: u32,
}

/// The pointer state kept between events: whether a resize drag is under way.
#[derive(Debug)]
pub struct BallState {
    pub resizing: bool,
}

/// A pointer event over the gauge's canvas.
#[derive(Clone, Copy, Debug, PartialEq, Eq, Structural)]
pub enum PointerEvent {
    LeftPressed,
    LeftReleased,
    RightPressed,
    CursorMoved(Point),
    CursorLeft,
    /// A wheel turn; the vertical delta in millionths of a line (or pixel).
    WheelScrolled(i64),
    Other,
}

/// Whether the canvas used an event.
#[derive(Clone, Copy, Debug, PartialEq, Eq, Structural)]
pub enum EventStatus {
    Ignored,
    Captured,
}

/// The cursor to show over the canvas.
#[derive(Clone, Copy, Debug, PartialEq, Eq, Structural)]
pub enum CursorShape {
    Default,
    ResizeDiagonal,
}

/// The overlay layer draws the title, the value and the status: it must be redrawn exactly
/// when one of them changes. The ratio only moves the water.
pub open spec fn overlay_changed(a: BallDisplay, b: BallDisplay) -> bool {
    a.title@ != b.title@ || a.value@ != b.value@ || a.status != b.status
}

pub open spec fn size_of(bounds: Rect) -> Size {
    Size { width: bounds.width, height: bounds.height }
}

/// `p` lies on the gauge.
pub open spec fn in_ball(p: Point, size: Size) -> bool {
    in_disk(
        p.x as int,
        p.y as int,
        center_x_of(size),
        center_y_of(size),
        radius_of(size),
    )
}

/// `p` lies on the gear button (upper right).
pub open spec fn on_gear(p: Point, size: Size) -> bool {
    let r = radius_of(size);
    in_disk(
        p.x as int,
        p.y as int,
        center_x_of(size) + button_offset(r),
        center_y_of(size) - button_offset(r),
        button_radius(r),
    )
}

/// `p` lies on the resize handle (lower right).
pub open spec fn on_handle(p: Point, size: Size) -> bool {
    let r = radius_of(size);
    in_disk(
        p.x as int,
        p.y as int,
        center_x_of(size) + button_offset(r),
        center_y_of(size) + button_offset(r),
        button_radius(r),
    )
}

/// The cursor's absolute position: as given, else the canvas origin plus `p`.
pub open spec fn absolute_of(p: Point, bounds: Rect, absolute: Option<Point>) -> Point {
    match absolute {
        Some(a) => a,
        None => Point {
            x: clamp_int(bounds.x + p.x, i32::MIN as int, i32::MAX as int) as i32,
            y: clamp_int(bounds.y + p.y, i32::MIN as int, i32::MAX as int) as i32,
        },
    }
}

/// How a pointer event is answered: the new `resizing` flag, the status and the event.
/// Presses, right clicks and wheel turns count only on the gauge; the gear is tested before
/// the handle. Release, moves and leaving count only during a resize.
pub open spec fn pointer_outcome(
    resizing: bool,
    event: PointerEvent,
    bounds: Rect,
    inside: Option<Point>,
    absolute: Option<Point>,
) -> (bool, EventStatus, Option<BallEvent>) {
    let size = size_of(bounds);
    let ignored = (resizing, EventStatus::Ignored, None);
    match event {
        PointerEvent::LeftPressed => match inside {
            Some(p) => if !in_ball(p, size) {
                ignored
            } else if on_gear(p, size) {
                (resizing, EventStatus::Captured, Some(BallEvent::ToggleSettings))
            } else if on_handle(p, size) {
                (
                    true,
                    EventStatus::Captured,
                    Some(BallEvent::StartResize(absolute_of(p, bounds, absolute))),
                )
            } else {
                (resizing, EventStatus::Captured, Some(BallEvent::StartDrag))
            },
            None => ignored,
        },
        PointerEvent::LeftReleased => if resizing {
            (false, EventStatus::Captured, Some(BallEvent::EndResize))
        } else {
            ignored
        },
        PointerEvent::CursorMoved(p) => if resizing {
            (resizing, EventStatus::Captured, Some(BallEvent::ResizeMove(p)))
        } else {
            ignored
        },
        PointerEvent::CursorLeft => if resizing {
            (false, EventStatus::Captured, Some(BallEvent::EndResize))
        } else {
            ignored
        },
        PointerEvent::RightPressed => match inside {
            Some(p) => if in_ball(p, size) {
                (resizing, EventStatus::Captured, Some(BallEvent::RefreshNow))
            } else {
                ignored
            },
            None => ignored,
        },
        PointerEvent::WheelScrolled(y) => match inside {
            Some(p) => if in_ball(p, size) && y != 0 {
                (
                    resizing,
                    EventStatus::Captured,
                    Some(
                        BallEvent::Scroll(
                            if y > 0 {
                                -1i32
                            } else {
                                1i32
                            },
                        ),
                    ),
                )
            } else {
                ignored
            },
            None => ignored,
        },
        PointerEvent::Other => ignored,
    }
}

/// The cursor over the canvas: diagonal arrows during a resize or over the handle.
pub open spec fn cursor_shape_spec(resizing: bool, bounds: Rect, inside: Option<Point>) -> CursorShape {
    if resizing {
        CursorShape::ResizeDiagonal
    } else {
        match inside {
            Some(p) => if in_ball(p, size_of(bounds)) && on_handle(p, size_of(bounds)) {
                CursorShape::ResizeDiagonal
            } else {
                CursorShape::Default
            },
            None => CursorShape::Default,
        }
    }
}

impl Default for BallDisplay {
    fn default() -> (r: BallDisplay)
        ensures
            r.title@ == "未配置"@,
            r.value@ == "--"@,
            r.ratio == 0,
            r.status == BallStatus::Idle,
    {
        BallDisplay {
            title: String::from_str("未配置"),
            value: String::from_str("--"),
            ratio: 0,
            status: BallStatus::Idle,
        }
    }
}

impl Default for BallState {
    fn default() -> (r: BallState)
        ensures
            !r.resizing,
    {
        BallState { resizing: false }
    }
}

/// Where the gauge, the gear and the handle lie on a canvas of `size`.
struct Regions {
    center: Point,
    radius: i32,
    gear: Point,
    gear_radius: i32,
    handle: Point,
    handle_radius: i32,
}

fn regions(size: Size) -> (r: Regions)
    ensures
        forall|p: Point|
            in_ball(p, size) == in_disk(
                p.x as int,
                p.y as int,
                r.center.x as int,
                r.center.y as int,
                r.radius as int,
            ),
        forall|p: Point|
            on_gear(p, size) == in_disk(
                p.x as int,
                p.y as int,
                r.gear.x as int,
                r.gear.y as int,
                r.gear_radius as int,
            ),
        forall|p: Point|
            on_handle(p, size) == in_disk(
                p.x as int,
                p.y as int,
                r.handle.x as int,
                r.handle.y as int,
                r.handle_radius as int,
            ),
{
    let (center, radius) = circle_layout(size);
    let (gear, gear_radius) = gear_layout(center, radius);
    let (handle, handle_radius) = resize_layout(center, radius);
    Regions { center, radius, gear, gear_radius, handle, handle_radius }
}

impl FloatingBall {
    pub fn new(display: BallDisplay) -> (r: FloatingBall)
        ensures
            r.display == display,
            r.overlay_dirty,
            r.wave_phase == 0,
    {
        FloatingBall { display, overlay_dirty: true, wave_phase: 0 }
    }

    /// Replaces what the gauge shows; marks the overlay for redrawing when its text or status
    /// changed.
    pub fn set_display(&mut self, display: BallDisplay)
        ensures
            final(self).display == display,
            final(self).overlay_dirty == (old(self).overlay_dirty || overlay_changed(
                old(self).display,
                display,
            )),
            final(self).wave_phase == old(self).wave_phase,
    {
        let changed = !(self.display.title == display.title) || !(self.display.value
            == display.value) || self.display.status != display.status;
        if changed {
            self.overlay_dirty = true;
        }
        self.display = display;
    }

    pub fn set_wave_phase(&mut self, phase: u32)
        ensures
            final(self).wave_phase == phase,
            final(self).display == old(self).display,
            final(self).overlay_dirty == old(self).overlay_dirty,
    {
        self.wave_phase = phase;
    }

    /// Whether the overlay must be redrawn; the mark is cleared.
    pub fn take_overlay_dirty(&mut self) -> (r: bool)
        ensures
            r == old(self).overlay_dirty,
            !final(self).overlay_dirty,
            final(self).display == old(self).display,
            final(self).wave_phase == old(self).wave_phase,
    {
        let r = self.overlay_dirty;
        self.overlay_dirty = false;
        r
    }

    /// Answers a pointer event over a canvas at `bounds` (see `pointer_outcome`). `inside` is
    /// the cursor relative to the canvas when it is over it; `absolute` its screen position.
    pub fn update(
        &self,
        state: &mut BallState,
        event: PointerEvent,
        bounds: Rect,
        inside: Option<Point>,
        absolute: Option<Point>,
    ) -> (r: (EventStatus, Option<BallEvent>))
        ensures
            (final(state).resizing, r.0, r.1) == pointer_outcome(
                old(state).resizing,
                event,
                bounds,
                inside,
                absolute,
            ),
    {
        let size = Size { width: bounds.width, height: bounds.height };
        match event {
            PointerEvent::LeftPressed => {
                let p = match inside {
                    Some(p) => p,
                    None => {
                        return (EventStatus::Ignored, None);
                    },
                };
                let g = regions(size);
                if !within(p, g.center, g.radius) {
                    return (EventStatus::Ignored, None);
                }
                if within(p, g.gear, g.gear_radius) {
                    return (EventStatus::Captured, Some(BallEvent::ToggleSettings));
                }
                if within(p, g.handle, g.handle_radius) {
                    state.resizing = true;
                    let at = match absolute {
                        Some(a) => a,
                        None => Point {
                            x: saturating_sum(bounds.x, p.x),
                            y: saturating_sum(bounds.y, p.y),
                        },
                    };
                    return (EventStatus::Captured, Some(BallEvent::StartResize(at)));
                }
                (EventStatus::Captured, Some(BallEvent::StartDrag))
            },
            PointerEvent::LeftReleased => {
                if state.resizing {
                    state.resizing = false;
                    (EventStatus::Captured, Some(BallEvent::EndResize))
                } else {
                    (EventStatus::Ignored, None)
                }
            },
            PointerEvent::CursorMoved(p) => {
                if state.resizing {
                    (EventStatus::Captured, Some(BallEvent::ResizeMove(p)))
                } else {
                    (EventStatus::Ignored, None)
                }
            },
            PointerEvent::CursorLeft => {
                if state.resizing {
                    state.resizing = false;
                    (EventStatus::Captured, Some(BallEvent::EndResize))
                } else {
                    (EventStatus::Ignored, None)
                }
            },
            PointerEvent::RightPressed => {
                let p = match inside {
                    Some(p) => p,
                    None => {
                        return (EventStatus::Ignored, None);
                    },
                };
                let g = regions(size);
                if !within(p, g.center, g.radius) {
                    return (EventStatus::Ignored, None);
                }
                (EventStatus::Captured, Some(BallEvent::RefreshNow))
            },
            PointerEvent::WheelScrolled(y) => {
                let p = match inside {
                    Some(p) => p,
                    None => {
                        return (EventStatus::Ignored, None);
                    },
                };
                let g = regions(size);
                if !within(p, g.center, g.radius) {
                    return (EventStatus::Ignored, None);
                }
                if y == 0 {
                    return (EventStatus::Ignored, None);
                }
                let steps: i32 = if y > 0 {
                    -1
                } else {
                    1
                };
                (EventStatus::Captured, Some(BallEvent::Scroll(steps)))
            },
            PointerEvent::Other => (EventStatus::Ignored, None),
        }
    }

    /// The cursor to show over a canvas at `bounds` (see `cursor_shape_spec`).
    pub fn mouse_interaction(&self, state: &BallState, bounds: Rect, inside: Option<Point>) -> (r:
        CursorShape)
        ensures
            r == cursor_shape_spec(state.resizing, bounds, inside),
    {
        if state.resizing {
            return CursorShape::ResizeDiagonal;
        }
        let p = match inside {
            Some(p) => p,
            None => {
                return CursorShape::Default;
            },
        };
        let g = regions(Size { width: bounds.width, height: bounds.height });
        if !within(p, g.center, g.radius) {
            return CursorShape::Default;
        }
        if within(p, g.handle, g.handle_radius) {
            return CursorShape::ResizeDiagonal;
        }
        CursorShape::Default
    }
}

/// `a + b`, held to the range of `i32`.
fn saturating_sum(a: i32, b: i32) -> (r: i32)
    ensures
        r == clamp_int(a + b, i32::MIN as int, i32::MAX as int),
{
    let s = a as i64 + b as i64;
    if s < i32::MIN as i64 {
        i32::MIN
    } else if s > i32::MAX as i64 {
        i32::MAX
    } else {
        s as i32
    }
}

} // verus!
