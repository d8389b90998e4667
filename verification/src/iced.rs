//! The toolkit's vocabulary, as plain values: geometry, input events, keys,
//! modifier bitmask, cursor state, and the theme and style configuration the
//! draw call takes.
//!
//! Coordinates are in thousandths of a pixel (see the crate root), so every
//! position and delta is an exact integer.

use vstd::prelude::*;

verus! {

/// A point, in thousandths of a pixel.
#[derive(Clone, Copy, PartialEq, Eq, Structural, Debug)]
pub struct Point {
    /// Distance from the left edge, in thousandths of a pixel.
    pub x: i64,
    /// Distance from the top edge (Y grows downward), in thousandths of a
    /// pixel.
    pub y: i64,
}

/// A size, in thousandths of a pixel.
#[derive(Clone, Copy, PartialEq, Eq, Structural, Debug)]
pub struct Size {
    /// Width in thousandths of a pixel.
    pub width: u64,
    /// Height in thousandths of a pixel.
    pub height: u64,
}

/// A mouse button, with unnamed buttons carried by index.
#[derive(Clone, Copy, PartialEq, Eq, Structural, Debug)]
pub enum MouseButton {
    /// The left button.
    Left,
    /// The right button.
    Right,
    /// The middle (wheel) button.
    Middle,
    /// The back navigation button.
    Back,
    /// The forward navigation button.
    Forward,
    /// Any other button, by index.
    Other(u16),
}

/// The keyboard modifier bitmask attached to every key event.
#[derive(Clone, Copy, PartialEq, Eq, Structural, Debug)]
pub struct Modifiers {
    /// A control key is held.
    pub ctrl: bool,
    /// A shift key is held.
    pub shift: bool,
    /// An alt key is held.
    pub alt: bool,
    /// A logo (super/meta) key is held.
    pub logo: bool,
}

impl Modifiers {
    /// No modifier held.
    pub fn empty() -> (m: Modifiers)
        ensures
            m == (Modifiers { ctrl: false, shift: false, alt: false, logo: false }),
    {
        Modifiers { ctrl: false, shift: false, alt: false, logo: false }
    }
}

/// A named (non-character) key of the toolkit's vocabulary.
#[derive(Clone, Copy, PartialEq, Eq, Structural, Debug)]
pub enum NamedKey {
    /// The enter (return) key.
    Enter,
    /// The tab key.
    Tab,
    /// The space bar.
    Space,
    /// The backspace key.
    Backspace,
    /// The forward delete key.
    Delete,
    /// The escape key.
    Escape,
    /// The up arrow.
    ArrowUp,
    /// The down arrow.
    ArrowDown,
    /// The left arrow.
    ArrowLeft,
    /// The right arrow.
    ArrowRight,
    /// The home key.
    Home,
    /// The end key.
    End,
    /// The page-up key.
    PageUp,
    /// The page-down key.
    PageDown,
    /// The insert key.
    Insert,
    /// A function key, by number.
    F(u8),
    /// A control key, as a logical key.
    Control,
    /// A shift key, as a logical key.
    Shift,
    /// An alt key, as a logical key.
    Alt,
    /// A logo (super/meta) key, as a logical key.
    Super,
}

/// A key in the toolkit's vocabulary: named, or a produced character.
#[derive(Clone, Copy, PartialEq, Eq, Structural, Debug)]
pub enum Key {
    /// A named key.
    Named(NamedKey),
    /// A key identified by the character it produces.
    Character(char),
}

/// A mouse event of the toolkit.
#[derive(Clone, Copy, PartialEq, Eq, Structural, Debug)]
pub enum MouseEvent {
    /// The cursor moved; the position is in window pixel space, untranslated
    /// (scaling to logical space happens at consumption time).
    CursorMoved {
        /// The new position.
        position: Point,
    },
    /// The cursor entered the window.
    CursorEntered,
    /// The cursor left the window.
    CursorLeft,
    /// A button was pressed.
    ButtonPressed(MouseButton),
    /// A button was released.
    ButtonReleased(MouseButton),
    /// The wheel scrolled by a pixel delta.
    WheelScrolled {
        /// The scroll delta, in thousandths of a pixel.
        delta: Point,
    },
}

/// A keyboard event of the toolkit.
#[derive(Clone, Copy, PartialEq, Eq, Structural, Debug)]
pub enum KeyboardEvent {
    /// A key went down, or text was composed (then `text` carries the
    /// produced character).
    KeyPressed {
        /// The key.
        key: Key,
        /// Modifiers held when the event was translated.
        modifiers: Modifiers,
        /// The character this press produced, for text input.
        text: Option<char>,
    },
    /// A key went up.
    KeyReleased {
        /// The key.
        key: Key,
        /// Modifiers held when the event was translated.
        modifiers: Modifiers,
    },
    /// The held modifiers changed.
    ModifiersChanged(Modifiers),
}

/// A touch event of the toolkit, tagged by a per-finger identifier.
#[derive(Clone, Copy, PartialEq, Eq, Structural, Debug)]
pub enum TouchEvent {
    /// A finger touched the screen.
    FingerPressed {
        /// The finger identifier.
        finger: u64,
        /// The contact position.
        position: Point,
    },
    /// A finger moved.
    FingerMoved {
        /// The finger identifier.
        finger: u64,
        /// The contact position.
        position: Point,
    },
    /// A finger was lifted.
    FingerLifted {
        /// The finger identifier.
        finger: u64,
        /// The last contact position.
        position: Point,
    },
    /// A touch was canceled by the system.
    FingerLost {
        /// The finger identifier.
        finger: u64,
        /// The last contact position.
        position: Point,
    },
}

/// One input event in the toolkit's vocabulary.
#[derive(Clone, Copy, PartialEq, Eq, Structural, Debug)]
pub enum Event {
    /// A mouse event.
    Mouse(MouseEvent),
    /// A keyboard event.
    Keyboard(KeyboardEvent),
    /// A touch event.
    Touch(TouchEvent),
}

impl Event {
    /// The contact position, for touch events.
    pub open spec fn spec_touch_position(self) -> Option<Point> {
        match self {
            Event::Touch(TouchEvent::FingerPressed { position, .. }) => Some(position),
            Event::Touch(TouchEvent::FingerMoved { position, .. }) => Some(position),
            Event::Touch(TouchEvent::FingerLifted { position, .. }) => Some(position),
            Event::Touch(TouchEvent::FingerLost { position, .. }) => Some(position),
            _ => None,
        }
    }

    /// The contact position, for touch events.
    pub fn touch_position(&self) -> (r: Option<Point>)
        ensures
            r == self.spec_touch_position(),
    {
        match self {
            Event::Touch(TouchEvent::FingerPressed { position, .. }) => Some(*position),
            Event::Touch(TouchEvent::FingerMoved { position, .. }) => Some(*position),
            Event::Touch(TouchEvent::FingerLifted { position, .. }) => Some(*position),
            Event::Touch(TouchEvent::FingerLost { position, .. }) => Some(*position),
            _ => None,
        }
    }
}

/// The pointer position handed to the toolkit for one frame, in the
/// viewport's logical space, or no pointer at all.
#[derive(Clone, Copy, PartialEq, Eq, Structural, Debug)]
pub enum Cursor {
    /// The pointer is at this logical position.
    Available(Point),
    /// No pointer position could be resolved this frame.
    Unavailable,
}

/// Whether the interface consumed one replayed event, so that the host can
/// decide whether to also deliver the same raw input to the scene.
#[derive(Clone, Copy, PartialEq, Eq, Structural, Debug)]
pub enum Status {
    /// The interface reacted to the event.
    Captured,
    /// The interface did not react to the event.
    Ignored,
}

/// A color with 8-bit channels.
#[derive(Clone, Copy, PartialEq, Eq, Structural, Debug)]
pub struct Color {
    /// Red channel.
    pub r: u8,
    /// Green channel.
    pub g: u8,
    /// Blue channel.
    pub b: u8,
    /// Alpha channel.
    pub a: u8,
}

impl Color {
    /// Opaque white.
    pub fn white() -> (c: Color)
        ensures
            c == (Color { r: 255, g: 255, b: 255, a: 255 }),
    {
        Color { r: 255, g: 255, b: 255, a: 255 }
    }
}

/// The theme to draw the widgets with.
#[derive(Clone, Copy, PartialEq, Eq, Structural, Debug)]
pub enum Theme {
    /// A light palette.
    Light,
    /// A dark palette.
    Dark,
}

/// The default text style the draw call takes.
#[derive(Clone, Copy, PartialEq, Eq, Structural, Debug)]
pub struct Style {
    /// The default text color.
    pub text_color: Color,
}

/// The antialiasing mode of the toolkit's rasterizer.
#[derive(Clone, Copy, PartialEq, Eq, Structural, Debug)]
pub enum Antialiasing {
    /// Two samples per pixel.
    MSAAx2,
    /// Four samples per pixel.
    MSAAx4,
    /// Eight samples per pixel.
    MSAAx8,
    /// Sixteen samples per pixel.
    MSAAx16,
}

/// The toolkit's renderer configuration.
#[derive(Clone, Copy, PartialEq, Eq, Structural, Debug)]
pub struct Settings {
    /// The default text size, in thousandths of a pixel.
    pub default_text_size_milli: u64,
    /// The antialiasing mode; none disables antialiasing.
    pub antialiasing: Option<Antialiasing>,
}

impl Default for Settings {
    /// The toolkit's defaults: 16 pixel text, no antialiasing.
    fn default() -> (s: Settings)
        ensures
            s == (Settings { default_text_size_milli: 16_000u64, antialiasing: None::<Antialiasing> }),
    {
        Settings { default_text_size_milli: 16_000, antialiasing: None }
    }
}

} // verus!
