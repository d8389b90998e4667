//! Conversions from the host engine's input vocabulary into the toolkit's:
//! the key table, the modifier-key classification, and the touch phases.

use vstd::prelude::*;

use crate::iced::{Key, NamedKey, Point, TouchEvent};
use crate::systems::{KeyCode, RawKey, RawTouch, TouchPhase};

verus! {

/// Whether a physical key participates in the modifier bitmask; such keys
/// are reported to the toolkit as a modifier change, not as a key press.
pub open spec fn spec_is_modifier_key(code: KeyCode) -> bool {
    ||| code == KeyCode::ControlLeft
    ||| code == KeyCode::ControlRight
    ||| code == KeyCode::ShiftLeft
    ||| code == KeyCode::ShiftRight
    ||| code == KeyCode::AltLeft
    ||| code == KeyCode::AltRight
    ||| code == KeyCode::SuperLeft
    ||| code == KeyCode::SuperRight
}

/// Whether a physical key participates in the modifier bitmask.
pub fn is_modifier_key(code: KeyCode) -> (r: bool)
    ensures
        r == spec_is_modifier_key(code),
{
    match code {
        KeyCode::ControlLeft => true,
        KeyCode::ControlRight => true,
        KeyCode::ShiftLeft => true,
        KeyCode::ShiftRight => true,
        KeyCode::AltLeft => true,
        KeyCode::AltRight => true,
        KeyCode::SuperLeft => true,
        KeyCode::SuperRight => true,
        KeyCode::Other(_) => false,
    }
}

/// The host-to-toolkit key table. Best effort: a key with no toolkit
/// counterpart maps to nothing and its event is dropped silently.
pub open spec fn spec_key_code(key: RawKey) -> Option<Key> {
    match key {
        RawKey::Character(c) => Some(Key::Character(c)),
        RawKey::Enter => Some(Key::Named(NamedKey::Enter)),
        RawKey::Tab => Some(Key::Named(NamedKey::Tab)),
        RawKey::Space => Some(Key::Named(NamedKey::Space)),
        RawKey::Backspace => Some(Key::Named(NamedKey::Backspace)),
        RawKey::Delete => Some(Key::Named(NamedKey::Delete)),
        RawKey::Escape => Some(Key::Named(NamedKey::Escape)),
        RawKey::ArrowUp => Some(Key::Named(NamedKey::ArrowUp)),
        RawKey::ArrowDown => Some(Key::Named(NamedKey::ArrowDown)),
        RawKey::ArrowLeft => Some(Key::Named(NamedKey::ArrowLeft)),
        RawKey::ArrowRight => Some(Key::Named(NamedKey::ArrowRight)),
        RawKey::Home => Some(Key::Named(NamedKey::Home)),
        RawKey::End => Some(Key::Named(NamedKey::End)),
        RawKey::PageUp => Some(Key::Named(NamedKey::PageUp)),
        RawKey::PageDown => Some(Key::Named(NamedKey::PageDown)),
        RawKey::Insert => Some(Key::Named(NamedKey::Insert)),
        RawKey::F(n) => Some(Key::Named(NamedKey::F(n))),
        RawKey::Control => Some(Key::Named(NamedKey::Control)),
        RawKey::Shift => Some(Key::Named(NamedKey::Shift)),
        RawKey::Alt => Some(Key::Named(NamedKey::Alt)),
        RawKey::Super => Some(Key::Named(NamedKey::Super)),
        RawKey::Unidentified => None,
    }
}

/// Maps a host logical key to the toolkit's key.
pub fn key_code(key: &RawKey) -> (r: Option<Key>)
    ensures
        r == spec_key_code(*key),
{
    match key {
        RawKey::Character(c) => Some(Key::Character(*c)),
        RawKey::Enter => Some(Key::Named(NamedKey::Enter)),
        RawKey::Tab => Some(Key::Named(NamedKey::Tab)),
        RawKey::Space => Some(Key::Named(NamedKey::Space)),
        RawKey::Backspace => Some(Key::Named(NamedKey::Backspace)),
        RawKey::Delete => Some(Key::Named(NamedKey::Delete)),
        RawKey::Escape => Some(Key::Named(NamedKey::Escape)),
        RawKey::ArrowUp => Some(Key::Named(NamedKey::ArrowUp)),
        RawKey::ArrowDown => Some(Key::Named(NamedKey::ArrowDown)),
        RawKey::ArrowLeft => Some(Key::Named(NamedKey::ArrowLeft)),
        RawKey::ArrowRight => Some(Key::Named(NamedKey::ArrowRight)),
        RawKey::Home => Some(Key::Named(NamedKey::Home)),
        RawKey::End => Some(Key::Named(NamedKey::End)),
        RawKey::PageUp => Some(Key::Named(NamedKey::PageUp)),
        RawKey::PageDown => Some(Key::Named(NamedKey::PageDown)),
        RawKey::Insert => Some(Key::Named(NamedKey::Insert)),
        RawKey::F(n) => Some(Key::Named(NamedKey::F(*n))),
        RawKey::Control => Some(Key::Named(NamedKey::Control)),
        RawKey::Shift => Some(Key::Named(NamedKey::Shift)),
        RawKey::Alt => Some(Key::Named(NamedKey::Alt)),
        RawKey::Super => Some(Key::Named(NamedKey::Super)),
        RawKey::Unidentified => None,
    }
}

/// The host-to-toolkit touch table: begin, move and end map one to one, and
/// a canceled contact counts as a lost finger.
pub open spec fn spec_touch_event(t: RawTouch) -> TouchEvent {
    match t.phase {
        TouchPhase::Started => TouchEvent::FingerPressed { finger: t.finger, position: t.position },
        TouchPhase::Moved => TouchEvent::FingerMoved { finger: t.finger, position: t.position },
        TouchPhase::Ended => TouchEvent::FingerLifted { finger: t.finger, position: t.position },
        TouchPhase::Canceled => TouchEvent::FingerLost { finger: t.finger, position: t.position },
    }
}

/// Maps a host touch event to the toolkit's touch event.
pub fn touch_event(t: &RawTouch) -> (r: TouchEvent)
    ensures
        r == spec_touch_event(*t),
{
    let position = Point { x: t.position.x, y: t.position.y };
    match t.phase {
        TouchPhase::Started => TouchEvent::FingerPressed { finger: t.finger, position },
        TouchPhase::Moved => TouchEvent::FingerMoved { finger: t.finger, position },
        TouchPhase::Ended => TouchEvent::FingerLifted { finger: t.finger, position },
        TouchPhase::Canceled => TouchEvent::FingerLost { finger: t.finger, position },
    }
}

} // verus!
