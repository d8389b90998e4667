//! Per-tick input translation: the host's raw input vocabulary, the modifier
//! snapshot, and the pass that rebuilds the shared event queue from the raw
//! events of one tick, in arrival order.

use vstd::prelude::*;

use crate::conversions;
use crate::iced::{Event, KeyboardEvent, Modifiers, MouseButton, MouseEvent, Point};

verus! {

/// A physical key location of the host engine. Only the dedicated modifier
/// keys are distinguished; every other location is carried by scan index.
#[derive(Clone, Copy, PartialEq, Eq, Structural, Debug)]
pub enum KeyCode {
    /// Left control.
    ControlLeft,
    /// Right control.
    ControlRight,
    /// Left shift.
    ShiftLeft,
    /// Right shift.
    ShiftRight,
    /// Left alt.
    AltLeft,
    /// Right alt.
    AltRight,
    /// Left logo (super/meta).
    SuperLeft,
    /// Right logo (super/meta).
    SuperRight,
    /// Any other physical key, by scan index.
    Other(u32),
}

/// A logical key of the host engine, best-effort mapped into the toolkit's
/// vocabulary by the key table.
#[derive(Clone, Copy, PartialEq, Eq, Structural, Debug)]
pub enum RawKey {
    /// A key identified by the character it produces.
    Character(char),
    /// The enter (return) key.
    Enter,
    /// The tab key.
    Tab,
    /// The space bar.
    Space,
    /// The backspace key.
    Backspace,
    /// The forward delete key.
    Delete,
    /// The escape key.
    Escape,
    /// The up arrow.
    ArrowUp,
    /// The down arrow.
    ArrowDown,
    /// The left arrow.
    ArrowLeft,
    /// The right arrow.
    ArrowRight,
    /// The home key.
    Home,
    /// The end key.
    End,
    /// The page-up key.
    PageUp,
    /// The page-down key.
    PageDown,
    /// The insert key.
    Insert,
    /// A function key, by number.
    F(u8),
    /// A control key, as a logical key.
    Control,
    /// A shift key, as a logical key.
    Shift,
    /// An alt key, as a logical key.
    Alt,
    /// A logo (super/meta) key, as a logical key.
    Super,
    /// A key the host could not identify; dropped by the table.
    Unidentified,
}

/// One keyboard transition delivered by the host this tick.
#[derive(Clone, Copy, PartialEq, Eq, Structural, Debug)]
pub struct RawKeyInput {
    /// The physical key location.
    pub key_code: KeyCode,
    /// The logical key.
    pub logical_key: RawKey,
    /// Whether the key went down (true) or up (false).
    pub pressed: bool,
}

/// One mouse button transition delivered by the host this tick.
#[derive(Clone, Copy, PartialEq, Eq, Structural, Debug)]
pub struct RawMouseButton {
    /// The button.
    pub button: MouseButton,
    /// Whether the button went down (true) or up (false).
    pub pressed: bool,
}

/// The phase of a host touch event.
#[derive(Clone, Copy, PartialEq, Eq, Structural, Debug)]
pub enum TouchPhase {
    /// A finger touched the screen.
    Started,
    /// A finger moved.
    Moved,
    /// A finger was lifted.
    Ended,
    /// The system canceled the contact.
    Canceled,
}

/// One touch event delivered by the host this tick.
#[derive(Clone, Copy, PartialEq, Eq, Structural, Debug)]
pub struct RawTouch {
    /// The phase.
    pub phase: TouchPhase,
    /// The finger identifier.
    pub finger: u64,
    /// The contact position, in thousandths of a pixel.
    pub position: Point,
}

/// The raw input that arrived since the last tick, one vector per native
/// source, each in arrival order. Read exactly once per tick.
pub struct InputEvents {
    /// How many times the cursor entered the window.
    pub cursor_entered: u32,
    /// How many times the cursor left the window.
    pub cursor_left: u32,
    /// Cursor positions, in window pixel space (thousandths of a pixel).
    pub cursor_moved: Vec<Point>,
    /// Mouse button transitions.
    pub mouse_button: Vec<RawMouseButton>,
    /// Wheel deltas, in thousandths of a pixel.
    pub mouse_wheel: Vec<Point>,
    /// Characters produced by text composition.
    pub received_character: Vec<char>,
    /// Keyboard transitions.
    pub keyboard_input: Vec<RawKeyInput>,
    /// Touch events.
    pub touch_input: Vec<RawTouch>,
}

/// The ordered buffer of translated events for one tick, shared by every UI
/// session; rebuilt unconditionally at the top of each tick's translation.
pub struct IcedEventQueue(pub Vec<Event>);

impl IcedEventQueue {
    /// An empty queue.
    pub fn new() -> (q: IcedEventQueue)
        ensures
            q.0@ == Seq::<Event>::empty(),
    {
        IcedEventQueue(Vec::new())
    }

    /// Drops every buffered event.
    pub fn clear(&mut self)
        ensures
            final(self).0@ == Seq::<Event>::empty(),
    {
        self.0.clear();
    }
}

/// Whether the snapshot of held keys contains one of the two locations of a
/// modifier.
pub open spec fn spec_any_pressed(pressed: Seq<KeyCode>, a: KeyCode, b: KeyCode) -> bool {
    exists|i: int| 0 <= i < pressed.len() && (pressed[i] == a || pressed[i] == b)
}

/// The modifier bitmask computed from a snapshot of held keys.
pub open spec fn spec_modifiers(pressed: Seq<KeyCode>) -> Modifiers {
    Modifiers {
        ctrl: spec_any_pressed(pressed, KeyCode::ControlLeft, KeyCode::ControlRight),
        shift: spec_any_pressed(pressed, KeyCode::ShiftLeft, KeyCode::ShiftRight),
        alt: spec_any_pressed(pressed, KeyCode::AltLeft, KeyCode::AltRight),
        logo: spec_any_pressed(pressed, KeyCode::SuperLeft, KeyCode::SuperRight),
    }
}

/// Computes the modifier bitmask from the currently-held-keys snapshot: each
/// bit is set exactly when one of that modifier's two keys is held.
pub fn compute_modifiers(pressed: &Vec<KeyCode>) -> (m: Modifiers)
    ensures
        m == spec_modifiers(pressed@),
{
    let mut m = Modifiers::empty();
    let mut i: usize = 0;
    while i < pressed.len()
        invariant
            i <= pressed.len(),
            m.ctrl == spec_any_pressed(
                pressed@.take(i as int),
                KeyCode::ControlLeft,
                KeyCode::ControlRight,
            ),
            m.shift == spec_any_pressed(
                pressed@.take(i as int),
                KeyCode::ShiftLeft,
                KeyCode::ShiftRight,
            ),
            m.alt == spec_any_pressed(
                pressed@.take(i as int),
                KeyCode::AltLeft,
                KeyCode::AltRight,
            ),
            m.logo == spec_any_pressed(
                pressed@.take(i as int),
                KeyCode::SuperLeft,
                KeyCode::SuperRight,
            ),
        decreases pressed.len() - i,
    {
        let k = pressed[i];
        proof {
            lemma_any_pressed_take_step(pressed@, i as int, KeyCode::ControlLeft, KeyCode::ControlRight);
            lemma_any_pressed_take_step(pressed@, i as int, KeyCode::ShiftLeft, KeyCode::ShiftRight);
            lemma_any_pressed_take_step(pressed@, i as int, KeyCode::AltLeft, KeyCode::AltRight);
            lemma_any_pressed_take_step(pressed@, i as int, KeyCode::SuperLeft, KeyCode::SuperRight);
        }
        if k == KeyCode::ControlLeft || k == KeyCode::ControlRight {
            m.ctrl = true;
        }
        if k == KeyCode::ShiftLeft || k == KeyCode::ShiftRight {
            m.shift = true;
        }
        if k == KeyCode::AltLeft || k == KeyCode::AltRight {
            m.alt = true;
        }
        if k == KeyCode::SuperLeft || k == KeyCode::SuperRight {
            m.logo = true;
        }
        i = i + 1;
    }
    proof {
        assert(pressed@.take(pressed@.len() as int) =~= pressed@);
    }
    m
}

/// Extending the snapshot prefix by one key either keeps the bit or sets it
/// when the new key is one of the modifier's locations.
proof fn lemma_any_pressed_take_step(s: Seq<KeyCode>, i: int, a: KeyCode, b: KeyCode)
    requires
        0 <= i < s.len(),
    ensures
        spec_any_pressed(s.take(i + 1), a, b) == (spec_any_pressed(s.take(i), a, b) || s[i] == a
            || s[i] == b),
{
    let pre = s.take(i);
    let post = s.take(i + 1);
    if spec_any_pressed(pre, a, b) {
        let j = choose|j: int| 0 <= j < pre.len() && (pre[j] == a || pre[j] == b);
        assert(post[j] == a || post[j] == b);
    }
    if s[i] == a || s[i] == b {
        assert(post[i] == a || post[i] == b);
    }
    if spec_any_pressed(post, a, b) && !(s[i] == a || s[i] == b) {
        let j = choose|j: int| 0 <= j < post.len() && (post[j] == a || post[j] == b);
        assert(j < i ==> (pre[j] == a || pre[j] == b));
    }
}

/// Translation of the cursor movements, in order.
pub open spec fn spec_translate_cursor_moved(s: Seq<Point>) -> Seq<Event> {
    s.map_values(|p: Point| Event::Mouse(MouseEvent::CursorMoved { position: p }))
}

/// Translation of the button transitions, in order.
pub open spec fn spec_translate_buttons(s: Seq<RawMouseButton>) -> Seq<Event> {
    s.map_values(
        |r: RawMouseButton| Event::Mouse(
            if r.pressed {
                MouseEvent::ButtonPressed(r.button)
            } else {
                MouseEvent::ButtonReleased(r.button)
            },
        ),
    )
}

/// The same event, a given number of times.
pub open spec fn spec_repeat(n: nat, e: Event) -> Seq<Event> {
    Seq::new(n, |i: int| e)
}

/// Translation of the wheel deltas, in order.
pub open spec fn spec_translate_wheel(s: Seq<Point>) -> Seq<Event> {
    s.map_values(|d: Point| Event::Mouse(MouseEvent::WheelScrolled { delta: d }))
}

/// Translation of one produced character: a key press carrying the
/// character as literal text, independent of any physical key event.
pub open spec fn spec_translate_char(c: char, m: Modifiers) -> Event {
    Event::Keyboard(
        KeyboardEvent::KeyPressed { key: crate::iced::Key::Character(c), modifiers: m, text: Some(c) },
    )
}

/// Translation of composed text: one key press per produced character, in
/// order.
pub open spec fn spec_translate_chars(s: Seq<char>, m: Modifiers) -> Seq<Event>
    decreases s.len(),
{
    if s.len() == 0 {
        Seq::empty()
    } else {
        spec_translate_chars(s.drop_last(), m).push(spec_translate_char(s.last(), m))
    }
}

/// Translation of one keyboard transition: a dedicated modifier key becomes
/// a modifier change; any other key goes through the key table, or is
/// dropped when the table has no entry for it.
pub open spec fn spec_translate_key(k: RawKeyInput, m: Modifiers) -> Seq<Event> {
    if conversions::spec_is_modifier_key(k.key_code) {
        seq![Event::Keyboard(KeyboardEvent::ModifiersChanged(m))]
    } else {
        match conversions::spec_key_code(k.logical_key) {
            Some(key) => seq![
                Event::Keyboard(
                    if k.pressed {
                        KeyboardEvent::KeyPressed { key, modifiers: m, text: None }
                    } else {
                        KeyboardEvent::KeyReleased { key, modifiers: m }
                    },
                ),
            ],
            None => Seq::empty(),
        }
    }
}

/// Translation of the keyboard transitions, in order.
pub open spec fn spec_translate_keys(s: Seq<RawKeyInput>, m: Modifiers) -> Seq<Event>
    decreases s.len(),
{
    if s.len() == 0 {
        Seq::empty()
    } else {
        spec_translate_keys(s.drop_last(), m) + spec_translate_key(s.last(), m)
    }
}

/// Translation of the touch events, in order.
pub open spec fn spec_translate_touches(s: Seq<RawTouch>) -> Seq<Event> {
    s.map_values(|t: RawTouch| Event::Touch(conversions::spec_touch_event(t)))
}

impl InputEvents {
    /// The whole tick's translation: every raw event in its source's arrival
    /// order, sources in a fixed order, with one modifier snapshot for all
    /// key events of the tick.
    pub open spec fn spec_translate(self, m: Modifiers) -> Seq<Event> {
        spec_translate_cursor_moved(self.cursor_moved@) + spec_translate_buttons(
            self.mouse_button@,
        ) + spec_repeat(self.cursor_entered as nat, Event::Mouse(MouseEvent::CursorEntered))
            + spec_repeat(self.cursor_left as nat, Event::Mouse(MouseEvent::CursorLeft))
            + spec_translate_wheel(self.mouse_wheel@) + spec_translate_chars(
            self.received_character@,
            m,
        ) + spec_translate_keys(self.keyboard_input@, m) + spec_translate_touches(
            self.touch_input@,
        )
    }
}

/// Rebuilds the event queue from this tick's raw input: the queue is cleared
/// first (stale events are discarded, an at-most-one-tick delivery
/// guarantee), then every raw event is translated and appended in order,
/// with the modifier bitmask taken from the held-keys snapshot.
pub fn process_input(
    events: &InputEvents,
    event_queue: &mut IcedEventQueue,
    pressed: &Vec<KeyCode>,
)
    ensures
        final(event_queue).0@ == events.spec_translate(spec_modifiers(pressed@)),
{
    event_queue.clear();

    let mut i: usize = 0;
    while i < events.cursor_moved.len()
        invariant
            i <= events.cursor_moved.len(),
            event_queue.0@ == spec_translate_cursor_moved(events.cursor_moved@.take(i as int)),
        decreases events.cursor_moved.len() - i,
    {
        let p = events.cursor_moved[i];
        event_queue.0.push(Event::Mouse(MouseEvent::CursorMoved { position: p }));
        proof {
            assert(spec_translate_cursor_moved(events.cursor_moved@.take(i + 1))
                =~= spec_translate_cursor_moved(events.cursor_moved@.take(i as int)).push(
                Event::Mouse(MouseEvent::CursorMoved { position: p }),
            ));
        }
        i = i + 1;
    }
    proof {
        assert(events.cursor_moved@.take(events.cursor_moved@.len() as int)
            =~= events.cursor_moved@);
    }

    let ghost seg1 = event_queue.0@;
    let mut i: usize = 0;
    while i < events.mouse_button.len()
        invariant
            i <= events.mouse_button.len(),
            event_queue.0@ == seg1 + spec_translate_buttons(events.mouse_button@.take(i as int)),
        decreases events.mouse_button.len() - i,
    {
        let r = events.mouse_button[i];
        let ev = Event::Mouse(
            if r.pressed {
                MouseEvent::ButtonPressed(r.button)
            } else {
                MouseEvent::ButtonReleased(r.button)
            },
        );
        event_queue.0.push(ev);
        proof {
            assert(seg1 + spec_translate_buttons(events.mouse_button@.take(i + 1))
                =~= (seg1 + spec_translate_buttons(events.mouse_button@.take(i as int))).push(ev));
        }
        i = i + 1;
    }
    proof {
        assert(events.mouse_button@.take(events.mouse_button@.len() as int)
            =~= events.mouse_button@);
    }

    let ghost seg2 = event_queue.0@;
    let mut n: u32 = 0;
    while n < events.cursor_entered
        invariant
            n <= events.cursor_entered,
            event_queue.0@ == seg2 + spec_repeat(
                n as nat,
                Event::Mouse(MouseEvent::CursorEntered),
            ),
        decreases events.cursor_entered - n,
    {
        event_queue.0.push(Event::Mouse(MouseEvent::CursorEntered));
        proof {
            assert(seg2 + spec_repeat((n + 1) as nat, Event::Mouse(MouseEvent::CursorEntered))
                =~= (seg2 + spec_repeat(n as nat, Event::Mouse(MouseEvent::CursorEntered))).push(
                Event::Mouse(MouseEvent::CursorEntered),
            ));
        }
        n = n + 1;
    }

    let ghost seg3 = event_queue.0@;
    let mut n: u32 = 0;
    while n < events.cursor_left
        invariant
            n <= events.cursor_left,
            event_queue.0@ == seg3 + spec_repeat(n as nat, Event::Mouse(MouseEvent::CursorLeft)),
        decreases events.cursor_left - n,
    {
        event_queue.0.push(Event::Mouse(MouseEvent::CursorLeft));
        proof {
            assert(seg3 + spec_repeat((n + 1) as nat, Event::Mouse(MouseEvent::CursorLeft))
                =~= (seg3 + spec_repeat(n as nat, Event::Mouse(MouseEvent::CursorLeft))).push(
                Event::Mouse(MouseEvent::CursorLeft),
            ));
        }
        n = n + 1;
    }

    let ghost seg4 = event_queue.0@;
    let mut i: usize = 0;
    while i < events.mouse_wheel.len()
        invariant
            i <= events.mouse_wheel.len(),
            event_queue.0@ == seg4 + spec_translate_wheel(events.mouse_wheel@.take(i as int)),
        decreases events.mouse_wheel.len() - i,
    {
        let d = events.mouse_wheel[i];
        event_queue.0.push(Event::Mouse(MouseEvent::WheelScrolled { delta: d }));
        proof {
            assert(seg4 + spec_translate_wheel(events.mouse_wheel@.take(i + 1))
                =~= (seg4 + spec_translate_wheel(events.mouse_wheel@.take(i as int))).push(
                Event::Mouse(MouseEvent::WheelScrolled { delta: d }),
            ));
        }
        i = i + 1;
    }
    proof {
        assert(events.mouse_wheel@.take(events.mouse_wheel@.len() as int) =~= events.mouse_wheel@);
    }

    let modifiers = compute_modifiers(pressed);

    let ghost seg5 = event_queue.0@;
    let mut i: usize = 0;
    while i < events.received_character.len()
        invariant
            i <= events.received_character.len(),
            event_queue.0@ == seg5 + spec_translate_chars(
                events.received_character@.take(i as int),
                modifiers,
            ),
        decreases events.received_character.len() - i,
    {
        let c = events.received_character[i];
        let ev = Event::Keyboard(
            KeyboardEvent::KeyPressed {
                key: crate::iced::Key::Character(c),
                modifiers,
                text: Some(c),
            },
        );
        event_queue.0.push(ev);
        proof {
            assert(events.received_character@.take(i + 1).drop_last()
                =~= events.received_character@.take(i as int));
            assert(events.received_character@.take(i + 1).last() == c);
            assert(event_queue.0@ =~= seg5 + spec_translate_chars(
                events.received_character@.take(i + 1),
                modifiers,
            ));
        }
        i = i + 1;
    }
    proof {
        assert(events.received_character@.take(events.received_character@.len() as int)
            =~= events.received_character@);
    }

    let ghost seg6 = event_queue.0@;
    let mut i: usize = 0;
    while i < events.keyboard_input.len()
        invariant
            i <= events.keyboard_input.len(),
            event_queue.0@ == seg6 + spec_translate_keys(
                events.keyboard_input@.take(i as int),
                modifiers,
            ),
        decreases events.keyboard_input.len() - i,
    {
        let k = events.keyboard_input[i];
        proof {
            assert(events.keyboard_input@.take(i + 1).drop_last()
                =~= events.keyboard_input@.take(i as int));
            assert(events.keyboard_input@.take(i + 1).last() == k);
        }
        if conversions::is_modifier_key(k.key_code) {
            event_queue.0.push(Event::Keyboard(KeyboardEvent::ModifiersChanged(modifiers)));
        } else {
            match conversions::key_code(&k.logical_key) {
                Some(key) => {
                    let ev = Event::Keyboard(
                        if k.pressed {
                            KeyboardEvent::KeyPressed { key, modifiers, text: None }
                        } else {
                            KeyboardEvent::KeyReleased { key, modifiers }
                        },
                    );
                    event_queue.0.push(ev);
                },
                None => {},
            }
        }
        proof {
            assert(event_queue.0@ =~= seg6 + spec_translate_keys(
                events.keyboard_input@.take(i + 1),
                modifiers,
            ));
        }
        i = i + 1;
    }
    proof {
        assert(events.keyboard_input@.take(events.keyboard_input@.len() as int)
            =~= events.keyboard_input@);
    }

    let ghost seg7 = event_queue.0@;
    let mut i: usize = 0;
    while i < events.touch_input.len()
        invariant
            i <= events.touch_input.len(),
            event_queue.0@ == seg7 + spec_translate_touches(events.touch_input@.take(i as int)),
        decreases events.touch_input.len() - i,
    {
        let t = events.touch_input[i];
        let ev = Event::Touch(conversions::touch_event(&t));
        event_queue.0.push(ev);
        proof {
            assert(seg7 + spec_translate_touches(events.touch_input@.take(i + 1))
                =~= (seg7 + spec_translate_touches(events.touch_input@.take(i as int))).push(ev));
        }
        i = i + 1;
    }
    proof {
        assert(events.touch_input@.take(events.touch_input@.len() as int) =~= events.touch_input@);
        assert(event_queue.0@ =~= events.spec_translate(spec_modifiers(pressed@)));
    }
}

} // verus!
