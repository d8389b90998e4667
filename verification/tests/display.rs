//! The frame orchestrator: message order, cache round-trips, the shared
//! queue drained by the first session of a tick, and the draw flag.

use bevy_iced::iced::{
    Cursor, Event, MouseButton, MouseEvent, Point, Status, Style, Theme,
};
use bevy_iced::program::UserInterface;
use bevy_iced::render::{extract_iced_data, DidDraw, ViewportResource};
use bevy_iced::systems::IcedEventQueue;
use bevy_iced::utils::Touches;
use bevy_iced::{IcedCache, IcedContext, IcedSettings, WindowInfo};

/// A widget stand-in that emits its running count on every mouse button
/// press and retains the count as its cache.
struct Counter {
    count: u64,
}

impl UserInterface<u64, u64> for Counter {
    // the ghost half of the contract is erased from compiled code and never
    // runs; only a verified implementation has to supply it for real
    fn spec_restore(self, _cache: Option<u64>) -> Counter {
        unreachable!()
    }
    fn spec_emits(self, _event: Event, _cursor: Cursor) -> vstd::seq::Seq<u64> {
        unreachable!()
    }
    fn spec_absorb(self, _event: Event, _cursor: Cursor) -> Counter {
        unreachable!()
    }
    fn spec_captures(self, _event: Event, _cursor: Cursor) -> bool {
        unreachable!()
    }
    fn spec_into_cache(self) -> u64 {
        unreachable!()
    }
    fn lemma_cache_roundtrip(self, _cache: u64) {}

    fn restore(self, cache: Option<u64>) -> Counter {
        Counter { count: cache.unwrap_or(0) }
    }

    fn update(&mut self, event: Event, _cursor: Cursor) -> (Vec<u64>, Status) {
        match event {
            Event::Mouse(MouseEvent::ButtonPressed(_)) => {
                let out = vec![self.count];
                self.count += 1;
                (out, Status::Captured)
            }
            Event::Mouse(_) => (Vec::new(), Status::Captured),
            _ => (Vec::new(), Status::Ignored),
        }
    }

    fn draw(&mut self, _theme: &Theme, _style: &Style, _cursor: Cursor) {}

    fn into_cache(self) -> u64 {
        self.count
    }
}

/// A widget stand-in for a second message type: it reports the resolved
/// pointer position once per replayed event.
struct PointerEcho;

impl UserInterface<String, u64> for PointerEcho {
    fn spec_restore(self, _cache: Option<u64>) -> PointerEcho {
        unreachable!()
    }
    fn spec_emits(self, _event: Event, _cursor: Cursor) -> vstd::seq::Seq<String> {
        unreachable!()
    }
    fn spec_absorb(self, _event: Event, _cursor: Cursor) -> PointerEcho {
        unreachable!()
    }
    fn spec_captures(self, _event: Event, _cursor: Cursor) -> bool {
        unreachable!()
    }
    fn spec_into_cache(self) -> u64 {
        unreachable!()
    }
    fn lemma_cache_roundtrip(self, _cache: u64) {}

    fn restore(self, _cache: Option<u64>) -> PointerEcho {
        PointerEcho
    }

    fn update(&mut self, _event: Event, cursor: Cursor) -> (Vec<String>, Status) {
        match cursor {
            Cursor::Available(p) => (vec![format!("{},{}", p.x, p.y)], Status::Captured),
            Cursor::Unavailable => (vec!["none".to_string()], Status::Ignored),
        }
    }

    fn draw(&mut self, _theme: &Theme, _style: &Style, _cursor: Cursor) {}

    fn into_cache(self) -> u64 {
        0
    }
}

fn context(cursor: Option<Point>) -> IcedContext<u64> {
    let window = WindowInfo {
        physical_width: 800,
        physical_height: 600,
        scale_factor_milli: 2000,
        cursor_position: cursor,
    };
    let settings = IcedSettings::default();
    IcedContext {
        viewport: bevy_iced::render::update_viewport(&window, &settings),
        settings,
        window,
        touches: Touches { pressed: vec![], just_released: vec![] },
        events: IcedEventQueue::new(),
        cache_map: IcedCache::new(),
        did_draw: DidDraw::new(),
    }
}

fn press() -> Event {
    Event::Mouse(MouseEvent::ButtonPressed(MouseButton::Left))
}

#[test]
fn display_replays_in_arrival_order() {
    let mut ctx = context(None);
    ctx.events.0.push(press());
    ctx.events.0.push(Event::Mouse(MouseEvent::CursorEntered));
    ctx.events.0.push(press());
    ctx.events.0.push(press());
    let (messages, statuses) = ctx.display(1, Counter { count: 0 });
    assert_eq!(messages, vec![0, 1, 2]);
    assert_eq!(
        statuses,
        vec![Status::Captured, Status::Captured, Status::Captured, Status::Captured]
    );
}

#[test]
fn display_round_trips_cache_between_frames() {
    let mut ctx = context(None);
    ctx.events.0.push(press());
    let (m1, _) = ctx.display(1, Counter { count: 0 });
    assert_eq!(m1, vec![0]);
    ctx.events.0.push(press());
    let (m2, _) = ctx.display(1, Counter { count: 0 });
    assert_eq!(m2, vec![1]);
}

#[test]
fn display_without_events_keeps_cache() {
    let mut ctx = context(None);
    ctx.events.0.push(press());
    ctx.events.0.push(press());
    let (m1, _) = ctx.display(1, Counter { count: 0 });
    assert_eq!(m1, vec![0, 1]);
    // two displays with no pending events and an unchanged tree
    let (m2, _) = ctx.display(1, Counter { count: 0 });
    let (m3, _) = ctx.display(1, Counter { count: 0 });
    assert!(m2.is_empty() && m3.is_empty());
    // a third call still sees the cache the first frame stored
    ctx.events.0.push(press());
    let (m4, _) = ctx.display(1, Counter { count: 0 });
    assert_eq!(m4, vec![2]);
}

#[test]
fn first_session_drains_the_shared_queue() {
    let mut ctx = context(None);
    ctx.events.0.push(press());
    ctx.events.0.push(press());
    let (for_a, _) = ctx.display(1, Counter { count: 0 });
    assert_eq!(for_a, vec![0, 1]);
    // same tick, second session with its own message type: the queue is
    // already empty, so it emits nothing
    let (for_b, _) = ctx.display::<String, PointerEcho>(2, PointerEcho);
    assert!(for_b.is_empty());
    assert!(ctx.events.0.is_empty());
}

#[test]
fn display_resolves_cursor_into_logical_space() {
    let mut ctx = context(Some(Point { x: 100_000, y: 100_000 }));
    ctx.events.0.push(Event::Mouse(MouseEvent::CursorEntered));
    let (messages, _) = ctx.display::<String, PointerEcho>(1, PointerEcho);
    assert_eq!(messages, vec!["50000,50000".to_string()]);
}

#[test]
fn display_without_cursor_or_touch_reports_no_pointer() {
    let mut ctx = context(None);
    ctx.events.0.push(Event::Mouse(MouseEvent::CursorEntered));
    let (messages, _) = ctx.display::<String, PointerEcho>(1, PointerEcho);
    assert_eq!(messages, vec!["none".to_string()]);
}

#[test]
fn display_sets_draw_flag_for_one_extraction() {
    let mut ctx = context(None);
    let _ = ctx.display(1, Counter { count: 0 });
    let (_, extracted) = extract_iced_data(&ViewportResource::default(), &mut ctx.did_draw);
    assert!(extracted.0);
    // next tick without a display call
    let (_, extracted) = extract_iced_data(&ViewportResource::default(), &mut ctx.did_draw);
    assert!(!extracted.0);
}

#[test]
fn sessions_keep_independent_caches() {
    let mut ctx = context(None);
    // first tick: session 1 consumes the press, session 2 sees nothing
    ctx.events.0.push(press());
    let (m1, _) = ctx.display(1, Counter { count: 0 });
    assert_eq!(m1, vec![0]);
    let (m2, _) = ctx.display(2, Counter { count: 0 });
    assert!(m2.is_empty());
    // second tick: session 2 starts from its own count, not session 1's
    ctx.events.0.push(press());
    let (m3, _) = ctx.display(2, Counter { count: 0 });
    assert_eq!(m3, vec![0]);
    // third tick: session 1 resumes from the count it stored in tick one
    ctx.events.0.push(press());
    let (m4, _) = ctx.display(1, Counter { count: 0 });
    assert_eq!(m4, vec![1]);
}
