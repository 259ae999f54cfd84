//! The gesture engine of a scrollable viewport: drag to scroll, wheel to
//! scroll, and a momentum flight after a quick drag.
//!
//! Offsets are logical units and times are milliseconds of a monotonic clock.
use vstd::prelude::*;

use crate::input::{InputEventFilterResult, InputEventResult, MouseEvent, Point, PointerEventButton};

verus! {

/// The distance a pointer must travel before a drag takes the events away
/// from the children.
pub const DISTANCE_THRESHOLD: i64 = 8;

/// How long after a press a movement may still start a drag.
pub const DURATION_THRESHOLD: u64 = 500;

/// How long a press is shown to the children before it is replayed here.
pub const FORWARD_DELAY: u64 = 100;

/// The length of a momentum flight.
pub const FLICK_DURATION: u64 = 250;

/// A momentum flight: the viewport offset eases out towards `target` over
/// `duration` milliseconds on the cubic-bezier curve (0, 0, 0.58, 1).
#[derive(Clone, Copy, Debug, PartialEq, Eq, Structural)]
pub struct Flight {
    pub target: Point,
    pub duration: u64,
}

/// The scrolled content: its offset (`x`, `y`, at most zero), its size, and
/// the flight its offset is animating along, if any.
#[derive(Clone, Copy, Debug, PartialEq, Eq, Structural)]
pub struct Viewport {
    pub x: i32,
    pub y: i32,
    pub width: i32,
    pub height: i32,
    pub flight: Option<Flight>,
}

impl Viewport {
    pub open spec fn wf(&self) -> bool {
        self.width >= 0 && self.height >= 0
    }

    /// A viewport at offset zero with no flight.
    pub fn new(width: i32, height: i32) -> (r: Viewport)
        ensures
            r == (Viewport { x: 0, y: 0, width, height, flight: None }),
    {
        Viewport { x: 0, y: 0, width, height, flight: None }
    }
}

/// The gesture state of one flickable.
#[derive(Clone, Copy, Debug, PartialEq, Eq, Structural)]
pub struct FlickableDataInner {
    /// Where the press was made.
    pub pressed_pos: Point,
    /// When the press was made; `None` when no press is active.
    pub pressed_time: Option<u64>,
    /// The viewport offset at the time of the press.
    pub pressed_viewport_pos: Point,
    /// Set while the flickable has claimed the pointer and keeps its events
    /// from the children.
    pub capture_events: bool,
}

/// A scrollable container: its own geometry, the viewport it scrolls, and
/// its gesture engine.
pub struct Flickable {
    pub x: i32,
    pub y: i32,
    pub width: i32,
    pub height: i32,
    pub viewport: Viewport,
    /// When false, only the wheel scrolls.
    pub interactive: bool,
    pub data: FlickableDataBox,
}

/// Owns the gesture engine of a flickable.
pub struct FlickableDataBox(Box<FlickableData>);

/// The gesture engine of one flickable.
pub struct FlickableData {
    inner: FlickableDataInner,
}

impl View for FlickableData {
    type V = FlickableDataInner;

    closed spec fn view(&self) -> FlickableDataInner {
        self.inner
    }
}

impl View for FlickableDataBox {
    type V = FlickableDataInner;

    closed spec fn view(&self) -> FlickableDataInner {
        self.0@
    }
}

// ---------------------------------------------------------------------------
// The model

/// Time from `since` to `now`; a clock that went back counts as no time.
pub open spec fn elapsed(now: u64, since: u64) -> int {
    if now >= since {
        now - since
    } else {
        0
    }
}

pub open spec fn abs(v: int) -> int {
    if v < 0 {
        -v
    } else {
        v
    }
}

/// The lowest offset along an axis: the visible extent minus the content
/// extent, or zero when the content fits.
pub open spec fn min_offset(extent: int, content: int) -> int {
    if extent - content < 0 {
        extent - content
    } else {
        0
    }
}

/// `v` clamped to the valid offsets `[min_offset(extent, content), 0]`.
pub open spec fn bound_axis(v: int, extent: int, content: int) -> int {
    if v < min_offset(extent, content) {
        min_offset(extent, content)
    } else if v > 0 {
        0
    } else {
        v
    }
}

pub open spec fn in_bounds(v: int, extent: int, content: int) -> bool {
    min_offset(extent, content) <= v <= 0
}

/// Whether the offset of `vp` lies within its bounds on both axes.
pub open spec fn offset_in_bounds(vp: Viewport, width: i32, height: i32) -> bool {
    in_bounds(vp.x as int, width as int, vp.width as int) && in_bounds(
        vp.y as int,
        height as int,
        vp.height as int,
    )
}

/// The distance travelled in a flight at the speed `d / ms`, rounded toward
/// zero.
pub open spec fn projected(d: int, ms: int) -> int {
    if d >= 0 {
        d * FLICK_DURATION / ms
    } else {
        -((-d) * FLICK_DURATION / ms)
    }
}

/// Whether a movement to `position` lets the flickable take the pointer.
pub open spec fn move_intercepts(
    s: FlickableDataInner,
    width: i32,
    height: i32,
    vp: Viewport,
    position: Point,
    now: u64,
) -> bool {
    s.capture_events || match s.pressed_time {
        Some(t) => elapsed(now, t) <= DURATION_THRESHOLD && ((vp.width > width && abs(
            position.x - s.pressed_pos.x,
        ) > DISTANCE_THRESHOLD) || (vp.height > height && abs(position.y - s.pressed_pos.y)
            > DISTANCE_THRESHOLD)),
        None => false,
    }
}

/// The flight that a release (or exit) `event` at `now` starts, if any.
pub open spec fn flight_of(
    s: FlickableDataInner,
    width: i32,
    height: i32,
    vp: Viewport,
    event: MouseEvent,
    now: u64,
) -> Option<Flight> {
    match (s.pressed_time, event.position_spec()) {
        (Some(t), Some(pos)) => {
            let dx = pos.x - s.pressed_pos.x;
            let dy = pos.y - s.pressed_pos.y;
            let ms = elapsed(now, t);
            if dx * dx + dy * dy > DISTANCE_THRESHOLD * DISTANCE_THRESHOLD && ms > 1 {
                Some(
                    Flight {
                        target: Point {
                            x: bound_axis(
                                s.pressed_viewport_pos.x + dx + projected(dx, ms),
                                width as int,
                                vp.width as int,
                            ) as i32,
                            y: bound_axis(
                                s.pressed_viewport_pos.y + dy + projected(dy, ms),
                                height as int,
                                vp.height as int,
                            ) as i32,
                        },
                        duration: FLICK_DURATION,
                    },
                )
            } else {
                None
            }
        },
        _ => None,
    }
}

/// The gesture state after a release: no press, no capture.
pub open spec fn released(s: FlickableDataInner) -> FlickableDataInner {
    FlickableDataInner { pressed_time: None, capture_events: false, ..s }
}

/// The viewport after a release: flying if the release starts a flight.
pub open spec fn viewport_after_release(
    s: FlickableDataInner,
    width: i32,
    height: i32,
    vp: Viewport,
    event: MouseEvent,
    now: u64,
) -> Viewport {
    match flight_of(s, width, height, vp, event, now) {
        Some(f) => Viewport { flight: Some(f), ..vp },
        None => vp,
    }
}

/// The viewport moved to the offset (`x`, `y`) clamped to its bounds; a
/// direct move ends any flight.
pub open spec fn scrolled_to(vp: Viewport, width: i32, height: i32, x: int, y: int) -> Viewport {
    Viewport {
        x: bound_axis(x, width as int, vp.width as int) as i32,
        y: bound_axis(y, height as int, vp.height as int) as i32,
        flight: None,
        ..vp
    }
}

/// The filter pass: new gesture state, new viewport, and the decision.
pub open spec fn filter_step(
    s: FlickableDataInner,
    width: i32,
    height: i32,
    vp: Viewport,
    event: MouseEvent,
    now: u64,
) -> (FlickableDataInner, Viewport, InputEventFilterResult) {
    match event {
        MouseEvent::Pressed { position, button: PointerEventButton::Left } => (
            FlickableDataInner {
                pressed_pos: position,
                pressed_time: Some(now),
                pressed_viewport_pos: Point { x: vp.x, y: vp.y },
                capture_events: s.capture_events,
            },
            vp,
            if s.capture_events {
                InputEventFilterResult::Intercept
            } else {
                InputEventFilterResult::DelayForwarding(FORWARD_DELAY)
            },
        ),
        MouseEvent::Released { button: PointerEventButton::Left, .. } | MouseEvent::Exit => (
            released(s),
            viewport_after_release(s, width, height, vp, event, now),
            if s.capture_events {
                InputEventFilterResult::Intercept
            } else {
                InputEventFilterResult::ForwardEvent
            },
        ),
        MouseEvent::Moved { position } => (
            s,
            vp,
            if move_intercepts(s, width, height, vp, position, now) {
                InputEventFilterResult::Intercept
            } else if s.pressed_time.is_some() {
                InputEventFilterResult::ForwardAndInterceptGrab
            } else {
                InputEventFilterResult::ForwardEvent
            },
        ),
        MouseEvent::Wheel { position, .. } => (
            s,
            vp,
            InputEventFilterResult::InterceptAndDispatch(MouseEvent::Moved { position }),
        ),
        _ => (s, vp, InputEventFilterResult::ForwardAndIgnore),
    }
}

/// The handling pass: new gesture state, new viewport, and the outcome.
pub open spec fn handle_step(
    s: FlickableDataInner,
    width: i32,
    height: i32,
    vp: Viewport,
    event: MouseEvent,
    now: u64,
) -> (FlickableDataInner, Viewport, InputEventResult) {
    match event {
        MouseEvent::Pressed { .. } => (
            FlickableDataInner { capture_events: true, ..s },
            vp,
            InputEventResult::GrabMouse,
        ),
        MouseEvent::Released { .. } | MouseEvent::Exit => (
            released(s),
            viewport_after_release(s, width, height, vp, event, now),
            InputEventResult::EventAccepted,
        ),
        MouseEvent::Moved { position } => match s.pressed_time {
            Some(_) => (
                FlickableDataInner { capture_events: true, ..s },
                scrolled_to(
                    vp,
                    width,
                    height,
                    s.pressed_viewport_pos.x + position.x - s.pressed_pos.x,
                    s.pressed_viewport_pos.y + position.y - s.pressed_pos.y,
                ),
                InputEventResult::GrabMouse,
            ),
            None => (
                FlickableDataInner { capture_events: false, ..s },
                vp,
                InputEventResult::EventIgnored,
            ),
        },
        MouseEvent::Wheel { delta_x, delta_y, .. } => (
            s,
            scrolled_to(vp, width, height, vp.x + delta_x, vp.y + delta_y),
            InputEventResult::EventAccepted,
        ),
    }
}

// ---------------------------------------------------------------------------
// The code

/// `v` clamped to the valid offsets of an axis.
fn bound_offset(v: i64, extent: i32, content: i32) -> (r: i32)
    requires
        extent >= 0,
        content >= 0,
    ensures
        r == bound_axis(v as int, extent as int, content as int),
{
    let diff: i64 = extent as i64 - content as i64;
    let lo: i64 = if diff < 0 {
        diff
    } else {
        0
    };
    if v < lo {
        lo as i32
    } else if v > 0 {
        0
    } else {
        v as i32
    }
}

/// Make sure that the offset (`x`, `y`) is within the bounds of the viewport.
pub fn ensure_in_bound(width: i32, height: i32, viewport: &Viewport, x: i64, y: i64) -> (r: Point)
    requires
        width >= 0,
        height >= 0,
        viewport.wf(),
    ensures
        r.x == bound_axis(x as int, width as int, viewport.width as int),
        r.y == bound_axis(y as int, height as int, viewport.height as int),
        in_bounds(r.x as int, width as int, viewport.width as int),
        in_bounds(r.y as int, height as int, viewport.height as int),
{
    Point::new(bound_offset(x, width, viewport.width), bound_offset(y, height, viewport.height))
}

fn elapsed_since(now: u64, since: u64) -> (r: u64)
    ensures
        r == elapsed(now, since),
{
    if now >= since {
        now - since
    } else {
        0
    }
}

/// The distance travelled in a flight at the speed `d / ms`.
fn projected_distance(d: i64, ms: u64) -> (r: i64)
    requires
        ms >= 1,
        -0x1_0000_0000 <= d <= 0x1_0000_0000,
    ensures
        r == projected(d as int, ms as int),
        abs(r as int) <= abs(d as int) * FLICK_DURATION,
{
    let magnitude: u64 = if d >= 0 {
        (d as u64) * FLICK_DURATION
    } else {
        ((-d) as u64) * FLICK_DURATION
    };
    let q: u64 = magnitude / ms;
    proof {
        vstd::arithmetic::div_mod::lemma_div_is_ordered_by_denominator(magnitude as int, 1, ms as int);
    }
    if d >= 0 {
        q as i64
    } else {
        -(q as i64)
    }
}

impl FlickableData {
    pub open spec fn new_spec() -> FlickableDataInner {
        FlickableDataInner {
            pressed_pos: Point { x: 0, y: 0 },
            pressed_time: None,
            pressed_viewport_pos: Point { x: 0, y: 0 },
            capture_events: false,
        }
    }

    /// A flickable with no press and no capture.
    pub fn new() -> (r: FlickableData)
        ensures
            r@ == FlickableData::new_spec(),
    {
        FlickableData {
            inner: FlickableDataInner {
                pressed_pos: Point::new(0, 0),
                pressed_time: None,
                pressed_viewport_pos: Point::new(0, 0),
                capture_events: false,
            },
        }
    }

    /// The shared end of a press: starts a flight after a quick drag, then
    /// drops the press and the capture.
    pub fn mouse_released(
        &mut self,
        width: i32,
        height: i32,
        viewport: &mut Viewport,
        event: MouseEvent,
        now: u64,
    )
        requires
            width >= 0,
            height >= 0,
            old(viewport).wf(),
        ensures
            final(self)@ == released(old(self)@),
            *final(viewport) == viewport_after_release(
                old(self)@,
                width,
                height,
                *old(viewport),
                event,
                now,
            ),
    {
        if let (Some(pressed_time), Some(pos)) = (self.inner.pressed_time, event.position()) {
            let dx: i64 = pos.x as i64 - self.inner.pressed_pos.x as i64;
            let dy: i64 = pos.y as i64 - self.inner.pressed_pos.y as i64;
            let millis: u64 = elapsed_since(now, pressed_time);
            let wx: i128 = dx as i128;
            let wy: i128 = dy as i128;
            proof {
                assert(0 <= wx * wx <= 0x1_0000_0000_0000_0000) by (nonlinear_arith)
                    requires
                        -0x1_0000_0000 <= wx <= 0x1_0000_0000,
                ;
                assert(0 <= wy * wy <= 0x1_0000_0000_0000_0000) by (nonlinear_arith)
                    requires
                        -0x1_0000_0000 <= wy <= 0x1_0000_0000,
                ;
            }
            let square_length: i128 = wx * wx + wy * wy;
            if square_length > (DISTANCE_THRESHOLD * DISTANCE_THRESHOLD) as i128 && millis > 1 {
                let fx: i64 = self.inner.pressed_viewport_pos.x as i64 + dx + projected_distance(
                    dx,
                    millis,
                );
                let fy: i64 = self.inner.pressed_viewport_pos.y as i64 + dy + projected_distance(
                    dy,
                    millis,
                );
                let final_pos = ensure_in_bound(width, height, viewport, fx, fy);
                viewport.flight = Some(Flight { target: final_pos, duration: FLICK_DURATION });
            }
        }
        // The capture ends with the press, before the flight is over.
        self.inner.capture_events = false;
        self.inner.pressed_time = None;
    }

    /// The filter pass, run before the children see `event`.
    pub fn handle_mouse_filter(
        &mut self,
        width: i32,
        height: i32,
        viewport: &mut Viewport,
        event: MouseEvent,
        now: u64,
    ) -> (r: InputEventFilterResult)
        requires
            width >= 0,
            height >= 0,
            old(viewport).wf(),
        ensures
            (final(self)@, *final(viewport), r) == filter_step(
                old(self)@,
                width,
                height,
                *old(viewport),
                event,
                now,
            ),
    {
        match event {
            MouseEvent::Pressed { position, button: PointerEventButton::Left } => {
                self.inner.pressed_pos = position;
                self.inner.pressed_time = Some(now);
                self.inner.pressed_viewport_pos = Point::new(viewport.x, viewport.y);
                if self.inner.capture_events {
                    InputEventFilterResult::Intercept
                } else {
                    InputEventFilterResult::DelayForwarding(FORWARD_DELAY)
                }
            },
            MouseEvent::Exit | MouseEvent::Released { button: PointerEventButton::Left, .. } => {
                let was_capturing = self.inner.capture_events;
                self.mouse_released(width, height, viewport, event, now);
                if was_capturing {
                    InputEventFilterResult::Intercept
                } else {
                    InputEventFilterResult::ForwardEvent
                }
            },
            MouseEvent::Moved { position } => {
                let do_intercept = self.inner.capture_events || match self.inner.pressed_time {
                    Some(pressed_time) => {
                        if elapsed_since(now, pressed_time) > DURATION_THRESHOLD {
                            false
                        } else {
                            let can_move_horiz = viewport.width > width;
                            let can_move_vert = viewport.height > height;
                            let diff_x: i64 = position.x as i64 - self.inner.pressed_pos.x as i64;
                            let diff_y: i64 = position.y as i64 - self.inner.pressed_pos.y as i64;
                            (can_move_horiz && (diff_x > DISTANCE_THRESHOLD || diff_x
                                < -DISTANCE_THRESHOLD)) || (can_move_vert && (diff_y
                                > DISTANCE_THRESHOLD || diff_y < -DISTANCE_THRESHOLD))
                        }
                    },
                    None => false,
                };
                if do_intercept {
                    InputEventFilterResult::Intercept
                } else if self.inner.pressed_time.is_some() {
                    InputEventFilterResult::ForwardAndInterceptGrab
                } else {
                    InputEventFilterResult::ForwardEvent
                }
            },
            MouseEvent::Wheel { position, .. } => {
                InputEventFilterResult::InterceptAndDispatch(MouseEvent::Moved { position })
            },
            // A button other than the left one.
            MouseEvent::Pressed { .. } | MouseEvent::Released { .. } => {
                InputEventFilterResult::ForwardAndIgnore
            },
        }
    }

    /// The handling pass, run when the filter pass left `event` to this item.
    pub fn handle_mouse(
        &mut self,
        width: i32,
        height: i32,
        viewport: &mut Viewport,
        event: MouseEvent,
        now: u64,
    ) -> (r: InputEventResult)
        requires
            width >= 0,
            height >= 0,
            old(viewport).wf(),
        ensures
            (final(self)@, *final(viewport), r) == handle_step(
                old(self)@,
                width,
                height,
                *old(viewport),
                event,
                now,
            ),
            final(viewport).wf(),
            match event {
                MouseEvent::Wheel { .. } => offset_in_bounds(*final(viewport), width, height),
                MouseEvent::Moved { .. } => old(self)@.pressed_time.is_some() ==> offset_in_bounds(
                    *final(viewport),
                    width,
                    height,
                ),
                _ => true,
            },
    {
        match event {
            MouseEvent::Pressed { .. } => {
                self.inner.capture_events = true;
                InputEventResult::GrabMouse
            },
            MouseEvent::Exit | MouseEvent::Released { .. } => {
                self.mouse_released(width, height, viewport, event, now);
                InputEventResult::EventAccepted
            },
            MouseEvent::Moved { position } => {
                if self.inner.pressed_time.is_some() {
                    self.inner.capture_events = true;
                    let new_pos = ensure_in_bound(
                        width,
                        height,
                        viewport,
                        self.inner.pressed_viewport_pos.x as i64 + (position.x as i64
                            - self.inner.pressed_pos.x as i64),
                        self.inner.pressed_viewport_pos.y as i64 + (position.y as i64
                            - self.inner.pressed_pos.y as i64),
                    );
                    viewport.x = new_pos.x;
                    viewport.y = new_pos.y;
                    viewport.flight = None;
                    InputEventResult::GrabMouse
                } else {
                    self.inner.capture_events = false;
                    InputEventResult::EventIgnored
                }
            },
            MouseEvent::Wheel { delta_x, delta_y, .. } => {
                let new_pos = ensure_in_bound(
                    width,
                    height,
                    viewport,
                    viewport.x as i64 + delta_x as i64,
                    viewport.y as i64 + delta_y as i64,
                );
                viewport.x = new_pos.x;
                viewport.y = new_pos.y;
                viewport.flight = None;
                InputEventResult::EventAccepted
            },
        }
    }
}

impl FlickableDataBox {
    pub fn new() -> (r: FlickableDataBox)
        ensures
            r@ == FlickableData::new_spec(),
    {
        FlickableDataBox(Box::new(FlickableData::new()))
    }
}

impl Default for FlickableDataBox {
    fn default() -> (r: Self)
        ensures
            r@ == FlickableData::new_spec(),
    {
        Self::new()
    }
}

impl Flickable {
    pub open spec fn wf(&self) -> bool {
        self.width >= 0 && self.height >= 0 && self.viewport.wf()
    }

    /// The gesture state.
    pub open spec fn gesture(&self) -> FlickableDataInner {
        self.data@
    }

    /// Whether `p` lies outside the flickable's own area.
    pub open spec fn is_outside(&self, p: Point) -> bool {
        p.x < 0 || p.y < 0 || p.x > self.width || p.y > self.height
    }

    /// An interactive flickable at the origin with no press.
    pub fn new(width: i32, height: i32, viewport: Viewport) -> (r: Flickable)
        ensures
            r.x == 0 && r.y == 0 && r.width == width && r.height == height,
            r.viewport == viewport,
            r.interactive,
            r.gesture() == FlickableData::new_spec(),
    {
        Flickable { x: 0, y: 0, width, height, viewport, interactive: true, data: FlickableDataBox::new() }
    }

    /// The filter pass: events outside the flickable are intercepted, and a
    /// flickable that is not interactive lets all but the wheel through.
    pub fn input_event_filter_before_children(&mut self, event: MouseEvent, now: u64) -> (r:
        InputEventFilterResult)
        requires
            old(self).wf(),
        ensures
            final(self).wf(),
            final(self).x == old(self).x && final(self).y == old(self).y,
            final(self).width == old(self).width && final(self).height == old(self).height,
            final(self).interactive == old(self).interactive,
            if event.position_spec() is Some && old(self).is_outside(
                event.position_spec().unwrap(),
            ) {
                r == InputEventFilterResult::Intercept && *final(self) == *old(self)
            } else if !old(self).interactive && !(event is Wheel) {
                r == InputEventFilterResult::ForwardAndIgnore && *final(self) == *old(self)
            } else {
                (final(self).gesture(), final(self).viewport, r) == filter_step(
                    old(self).gesture(),
                    old(self).width,
                    old(self).height,
                    old(self).viewport,
                    event,
                    now,
                )
            },
    {
        if let Some(pos) = event.position() {
            if pos.x < 0 || pos.y < 0 || pos.x > self.width || pos.y > self.height {
                return InputEventFilterResult::Intercept;
            }
        }
        if !self.interactive && !matches!(event, MouseEvent::Wheel { .. }) {
            return InputEventFilterResult::ForwardAndIgnore;
        }
        self.data.0.handle_mouse_filter(self.width, self.height, &mut self.viewport, event, now)
    }

    /// The handling pass: a flickable that is not interactive ignores all
    /// but the wheel, and presses and wheel turns outside it are ignored.
    pub fn input_event(&mut self, event: MouseEvent, now: u64) -> (r: InputEventResult)
        requires
            old(self).wf(),
        ensures
            final(self).wf(),
            final(self).x == old(self).x && final(self).y == old(self).y,
            final(self).width == old(self).width && final(self).height == old(self).height,
            final(self).interactive == old(self).interactive,
            if !old(self).interactive && !(event is Wheel) {
                r == InputEventResult::EventIgnored && *final(self) == *old(self)
            } else if (event is Wheel || event is Pressed) && old(self).is_outside(
                event.position_spec().unwrap(),
            ) {
                r == InputEventResult::EventIgnored && *final(self) == *old(self)
            } else {
                (final(self).gesture(), final(self).viewport, r) == handle_step(
                    old(self).gesture(),
                    old(self).width,
                    old(self).height,
                    old(self).viewport,
                    event,
                    now,
                )
            },
    {
        if !self.interactive && !matches!(event, MouseEvent::Wheel { .. }) {
            return InputEventResult::EventIgnored;
        }
        if let Some(pos) = event.position() {
            if matches!(event, MouseEvent::Wheel { .. } | MouseEvent::Pressed { .. }) && (pos.x < 0
                || pos.y < 0 || pos.x > self.width || pos.y > self.height) {
                return InputEventResult::EventIgnored;
            }
        }
        self.data.0.handle_mouse(self.width, self.height, &mut self.viewport, event, now)
    }

    /// Whether the flickable holds the pointer.
    pub fn is_capturing(&self) -> (r: bool)
        ensures
            r == self.gesture().capture_events,
    {
        self.data.0.inner.capture_events
    }
}

// ---------------------------------------------------------------------------
// Laws

/// A left press followed, within the time threshold, by a movement that goes
/// past the distance threshold along an axis in which the viewport can scroll
/// is intercepted by the filter pass.
pub proof fn lemma_quick_drag_intercepts(
    s: FlickableDataInner,
    width: i32,
    height: i32,
    vp: Viewport,
    press: Point,
    to: Point,
    pressed_at: u64,
    moved_at: u64,
)
    requires
        pressed_at <= moved_at,
        moved_at - pressed_at <= DURATION_THRESHOLD,
        (vp.width > width && abs(to.x - press.x) > DISTANCE_THRESHOLD) || (vp.height > height
            && abs(to.y - press.y) > DISTANCE_THRESHOLD),
    ensures
        ({
            let (s1, vp1, _) = filter_step(
                s,
                width,
                height,
                vp,
                MouseEvent::Pressed { position: press, button: PointerEventButton::Left },
                pressed_at,
            );
            filter_step(s1, width, height, vp1, MouseEvent::Moved { position: to }, moved_at).2
                == InputEventFilterResult::Intercept
        }),
{
}

/// A left press, a drag through the handling pass, and a release at a
/// distance `d` from the press more than one millisecond later and past the
/// distance threshold start a flight to the offset at the press plus `d` plus
/// the distance covered in the flight duration at the speed `d / elapsed`,
/// clamped to the bounds.
pub proof fn lemma_flick_target(
    s: FlickableDataInner,
    width: i32,
    height: i32,
    vp: Viewport,
    press: Point,
    drag: Point,
    release: Point,
    pressed_at: u64,
    dragged_at: u64,
    released_at: u64,
)
    requires
        width >= 0,
        height >= 0,
        vp.wf(),
        pressed_at <= released_at,
        released_at - pressed_at > 1,
        (release.x - press.x) * (release.x - press.x) + (release.y - press.y) * (release.y
            - press.y) > DISTANCE_THRESHOLD * DISTANCE_THRESHOLD,
    ensures
        ({
            let (s1, vp1, _) = filter_step(
                s,
                width,
                height,
                vp,
                MouseEvent::Pressed { position: press, button: PointerEventButton::Left },
                pressed_at,
            );
            let (s2, vp2, _) = handle_step(
                s1,
                width,
                height,
                vp1,
                MouseEvent::Moved { position: drag },
                dragged_at,
            );
            let (s3, vp3, _) = filter_step(
                s2,
                width,
                height,
                vp2,
                MouseEvent::Released { position: release, button: PointerEventButton::Left },
                released_at,
            );
            let t = released_at - pressed_at;
            let dx = release.x - press.x;
            let dy = release.y - press.y;
            &&& vp3.flight == Some(
                Flight {
                    target: Point {
                        x: bound_axis(vp.x + dx + projected(dx, t), width as int, vp.width as int)
                            as i32,
                        y: bound_axis(vp.y + dy + projected(dy, t), height as int, vp.height as int)
                            as i32,
                    },
                    duration: FLICK_DURATION,
                },
            )
            &&& s3.pressed_time is None
            &&& !s3.capture_events
        }),
{
}

/// A flight never leaves the bounds of the viewport.
pub proof fn lemma_flight_in_bounds(
    s: FlickableDataInner,
    width: i32,
    height: i32,
    vp: Viewport,
    event: MouseEvent,
    now: u64,
)
    requires
        width >= 0,
        height >= 0,
        vp.wf(),
    ensures
        flight_of(s, width, height, vp, event, now) matches Some(f) ==> in_bounds(
            f.target.x as int,
            width as int,
            vp.width as int,
        ) && in_bounds(f.target.y as int, height as int, vp.height as int),
{
}

/// After a wheel turn, or a drag while a press is active, the offset lies
/// within `[min(0, extent - content), 0]` on each axis, whatever the event.
pub proof fn lemma_scroll_in_bounds(
    s: FlickableDataInner,
    width: i32,
    height: i32,
    vp: Viewport,
    event: MouseEvent,
    now: u64,
)
    requires
        width >= 0,
        height >= 0,
        vp.wf(),
        event is Wheel || (event is Moved && s.pressed_time is Some),
    ensures
        offset_in_bounds(handle_step(s, width, height, vp, event, now).1, width, height),
{
}

} // verus!
