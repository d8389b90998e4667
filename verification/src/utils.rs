//! Pointer resolution for one frame: scaling the window cursor into the
//! viewport's logical space, and the touch fallback used when no cursor
//! position is available.

use vstd::prelude::*;

use vstd::arithmetic::div_mod::{lemma_div_is_ordered, lemma_div_multiples_vanish};
use vstd::arithmetic::mul::lemma_mul_inequality;

use crate::iced::{Event, Point, Size};
use crate::WindowInfo;

verus! {

/// One touch contact tracked by the host.
#[derive(Clone, Copy, PartialEq, Eq, Structural, Debug)]
pub struct TouchPoint {
    /// The finger identifier.
    pub finger: u64,
    /// The contact position, in thousandths of a pixel.
    pub position: Point,
}

/// The host's touch state for this tick: the currently pressed contacts and
/// the contacts released this tick, each in the host's report order.
pub struct Touches {
    /// Currently pressed contacts.
    pub pressed: Vec<TouchPoint>,
    /// Contacts released this tick.
    pub just_released: Vec<TouchPoint>,
}

/// The cursor position mapped from window pixel space into the viewport's
/// logical space: each axis is scaled by the ratio of the logical bounds to
/// the window's physical size.
pub open spec fn spec_process_cursor_position(
    position: Point,
    bounds: Size,
    window: WindowInfo,
) -> Point {
    Point {
        x: (position.x * bounds.width / (window.physical_width * 1000)) as i64,
        y: (position.y * bounds.height / (window.physical_height * 1000)) as i64,
    }
}

/// Scaling one axis: value * bounds / window, all in thousandths.
fn scale_axis(value: i64, bound: u64, window_milli: u64) -> (r: i64)
    requires
        window_milli > 0,
        0 <= value <= window_milli,
        bound <= i64::MAX,
    ensures
        r == value * bound / window_milli as int,
        0 <= r <= bound,
{
    proof {
        lemma_mul_inequality(value as int, window_milli as int, bound as int);
        lemma_div_is_ordered(
            value as int * bound as int,
            window_milli as int * bound as int,
            window_milli as int,
        );
        lemma_div_multiples_vanish(bound as int, window_milli as int);
        lemma_div_is_ordered(0, value as int * bound as int, window_milli as int);
        assert(value as int * bound as int >= 0) by (nonlinear_arith)
            requires
                value >= 0,
                bound >= 0,
        ;
        assert((window_milli as int) * (bound as int) <= (u64::MAX as int) * (i64::MAX as int))
            by (nonlinear_arith)
            requires
                0 <= window_milli as int <= u64::MAX as int,
                0 <= bound as int <= i64::MAX as int,
        ;
    }
    (((value as u128) * (bound as u128)) / (window_milli as u128)) as i64
}

/// Translates a window cursor position into the viewport's logical space.
/// No vertical flip: the window and the toolkit both put the origin at the
/// top left with Y growing downward.
pub fn process_cursor_position(position: Point, bounds: Size, window: &WindowInfo) -> (r: Point)
    requires
        window.physical_width > 0,
        window.physical_height > 0,
        0 <= position.x <= window.physical_width * 1000,
        0 <= position.y <= window.physical_height * 1000,
        bounds.width <= i64::MAX,
        bounds.height <= i64::MAX,
    ensures
        r == spec_process_cursor_position(position, bounds, *window),
        0 <= r.x <= bounds.width,
        0 <= r.y <= bounds.height,
{
    let wx: u64 = (window.physical_width as u64) * 1000;
    let wy: u64 = (window.physical_height as u64) * 1000;
    Point {
        x: scale_axis(position.x, bounds.width, wx),
        y: scale_axis(position.y, bounds.height, wy),
    }
}

/// The position of the first event in the queue that is a touch event, if
/// any.
pub open spec fn spec_first_touch_event_position(q: Seq<Event>) -> Option<Point>
    decreases q.len(),
{
    if q.len() == 0 {
        None
    } else {
        match q[0].spec_touch_position() {
            Some(p) => Some(p),
            None => spec_first_touch_event_position(q.drop_first()),
        }
    }
}

/// The touch fallback for the frame's pointer: the first currently pressed
/// contact, else the first contact released this tick, else the first touch
/// event still in the queue; none of those means no pointer.
pub open spec fn spec_process_touch_input(touches: Touches, q: Seq<Event>) -> Option<Point> {
    if touches.pressed@.len() > 0 {
        Some(touches.pressed@[0].position)
    } else if touches.just_released@.len() > 0 {
        Some(touches.just_released@[0].position)
    } else {
        spec_first_touch_event_position(q)
    }
}

/// A queue prefix without touch events does not change which touch position
/// is found.
proof fn lemma_first_touch_skip(q: Seq<Event>, i: int)
    requires
        0 <= i <= q.len(),
        forall|j: int| 0 <= j < i ==> q[j].spec_touch_position() is None,
    ensures
        spec_first_touch_event_position(q.skip(i)) == spec_first_touch_event_position(q),
    decreases i,
{
    if i > 0 {
        lemma_first_touch_skip(q, i - 1);
        let r = q.skip(i - 1);
        assert(r[0] == q[i - 1]);
        assert(r.drop_first() =~= q.skip(i));
    } else {
        assert(q.skip(0) =~= q);
    }
}

/// Resolves the frame's pointer from touch state when the window reports no
/// cursor, as a last resort from the queued events themselves.
pub fn process_touch_input(touches: &Touches, queue: &Vec<Event>) -> (r: Option<Point>)
    ensures
        r == spec_process_touch_input(*touches, queue@),
{
    if touches.pressed.len() > 0 {
        return Some(touches.pressed[0].position);
    }
    if touches.just_released.len() > 0 {
        return Some(touches.just_released[0].position);
    }
    let mut i: usize = 0;
    while i < queue.len()
        invariant
            i <= queue.len(),
            touches.pressed@.len() == 0,
            touches.just_released@.len() == 0,
            forall|j: int| 0 <= j < i ==> queue@[j].spec_touch_position() is None,
        decreases queue.len() - i,
    {
        let found = queue[i].touch_position();
        match found {
            Some(p) => {
                proof {
                    lemma_first_touch_skip(queue@, i as int);
                    let rest = queue@.skip(i as int);
                    assert(rest.len() > 0);
                    assert(rest[0] == queue@[i as int]);
                    assert(spec_first_touch_event_position(rest) == Some(p));
                }
                return Some(p);
            },
            None => {},
        }
        i = i + 1;
    }
    proof {
        lemma_first_touch_skip(queue@, queue@.len() as int);
        assert(queue@.skip(queue@.len() as int).len() == 0);
    }
    None
}

} // verus!
