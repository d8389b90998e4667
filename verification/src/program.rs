//! The frame's transient widget interface, as the bridge sees it: a value
//! that absorbs replayed events one at a time, emits messages, and collapses
//! back into a retained cache at the end of the frame. The host glue
//! implements this over the toolkit; the bridge's orchestration and its laws
//! are verified against the contract alone.

use vstd::prelude::*;

use crate::iced::{Cursor, Event, Status, Style, Theme};

verus! {

/// One frame's widget interface for a session: built by the caller from the
/// widget tree, completed with the session's retained cache, fed the tick's
/// events in order, drawn once, and collapsed into the next retained cache.
pub trait UserInterface<M, C>: Sized {
    /// The interface after the session's retained cache is injected; no
    /// cache means the session's first frame.
    spec fn spec_restore(self, cache: Option<C>) -> Self;

    /// The messages one event makes the interface emit, given the frame's
    /// pointer.
    spec fn spec_emits(self, event: Event, cursor: Cursor) -> Seq<M>;

    /// The interface after absorbing one event, given the frame's pointer.
    spec fn spec_absorb(self, event: Event, cursor: Cursor) -> Self;

    /// Whether the interface captures one event, given the frame's pointer.
    spec fn spec_captures(self, event: Event, cursor: Cursor) -> bool;

    /// The retained cache the interface collapses into.
    spec fn spec_into_cache(self) -> C;

    /// Injects the session's retained cache.
    fn restore(self, cache: Option<C>) -> (r: Self)
        ensures
            r == self.spec_restore(cache),
    ;

    /// Feeds one event to the interface, yielding the messages it emits and
    /// whether it captured the event.
    fn update(&mut self, event: Event, cursor: Cursor) -> (r: (Vec<M>, Status))
        ensures
            r.0@ == old(self).spec_emits(event, cursor),
            *final(self) == old(self).spec_absorb(event, cursor),
            r.1 == (if old(self).spec_captures(event, cursor) {
                Status::Captured
            } else {
                Status::Ignored
            }),
    ;

    /// Draws the interface into the shared renderer's primitive batch; the
    /// interface itself does not change.
    fn draw(&mut self, theme: &Theme, style: &Style, cursor: Cursor)
        ensures
            *final(self) == *old(self),
    ;

    /// Collapses the interface into the cache to retain for the next frame.
    fn into_cache(self) -> (c: C)
        ensures
            c == self.spec_into_cache(),
    ;

    /// Restoring a retained cache into the widget tree it came from, and
    /// collapsing again without any event in between, returns that cache.
    proof fn lemma_cache_roundtrip(self, cache: C)
        ensures
            self.spec_restore(Some(cache)).spec_into_cache() == cache,
    ;
}

/// The interface state after replaying a queue in arrival order.
pub open spec fn spec_replay_state<M, C, I: UserInterface<M, C>>(
    ui: I,
    events: Seq<Event>,
    cursor: Cursor,
) -> I
    decreases events.len(),
{
    if events.len() == 0 {
        ui
    } else {
        spec_replay_state(ui, events.drop_last(), cursor).spec_absorb(events.last(), cursor)
    }
}

/// The messages emitted while replaying a queue in arrival order: each
/// event's messages, in the order the events arrived.
pub open spec fn spec_replay_messages<M, C, I: UserInterface<M, C>>(
    ui: I,
    events: Seq<Event>,
    cursor: Cursor,
) -> Seq<M>
    decreases events.len(),
{
    if events.len() == 0 {
        Seq::empty()
    } else {
        spec_replay_messages(ui, events.drop_last(), cursor) + spec_replay_state(
            ui,
            events.drop_last(),
            cursor,
        ).spec_emits(events.last(), cursor)
    }
}

/// The per-event capture verdicts of replaying a queue, in arrival order.
pub open spec fn spec_replay_statuses<M, C, I: UserInterface<M, C>>(
    ui: I,
    events: Seq<Event>,
    cursor: Cursor,
) -> Seq<Status>
    decreases events.len(),
{
    if events.len() == 0 {
        Seq::empty()
    } else {
        spec_replay_statuses(ui, events.drop_last(), cursor).push(
            if spec_replay_state(ui, events.drop_last(), cursor).spec_captures(
                events.last(),
                cursor,
            ) {
                Status::Captured
            } else {
                Status::Ignored
            },
        )
    }
}

/// Replays the queue into the interface in arrival order, collecting every
/// emitted message and every capture verdict, both in that order.
pub fn replay<M, C, I: UserInterface<M, C>>(ui: &mut I, events: &Vec<Event>, cursor: Cursor) -> (r:
    (Vec<M>, Vec<Status>))
    ensures
        r.0@ == spec_replay_messages(*old(ui), events@, cursor),
        r.1@ == spec_replay_statuses(*old(ui), events@, cursor),
        *final(ui) == spec_replay_state(*old(ui), events@, cursor),
{
    let ghost ui0 = *ui;
    let mut messages: Vec<M> = Vec::new();
    let mut statuses: Vec<Status> = Vec::new();
    let mut i: usize = 0;
    while i < events.len()
        invariant
            i <= events@.len(),
            *ui == spec_replay_state(ui0, events@.take(i as int), cursor),
            messages@ == spec_replay_messages(ui0, events@.take(i as int), cursor),
            statuses@ == spec_replay_statuses(ui0, events@.take(i as int), cursor),
        decreases events@.len() - i,
    {
        let e = events[i];
        let (mut ms, st) = ui.update(e, cursor);
        messages.append(&mut ms);
        statuses.push(st);
        proof {
            assert(events@.take(i + 1).drop_last() =~= events@.take(i as int));
            assert(events@.take(i + 1).last() == e);
            assert(messages@ =~= spec_replay_messages(ui0, events@.take(i + 1), cursor));
        }
        i = i + 1;
    }
    proof {
        assert(events@.take(events@.len() as int) =~= events@);
    }
    (messages, statuses)
}

/// Replay is an order-preserving fold over the queue: the messages of a
/// queue split anywhere are the messages of the first part, followed by the
/// messages of the second part replayed from the state the first part left,
/// and the final state composes the same way.
pub proof fn lemma_replay_order_preserving<M, C, I: UserInterface<M, C>>(
    ui: I,
    q1: Seq<Event>,
    q2: Seq<Event>,
    cursor: Cursor,
)
    ensures
        spec_replay_state(ui, q1 + q2, cursor) == spec_replay_state(
            spec_replay_state(ui, q1, cursor),
            q2,
            cursor,
        ),
        spec_replay_messages(ui, q1 + q2, cursor) == spec_replay_messages(ui, q1, cursor)
            + spec_replay_messages(spec_replay_state(ui, q1, cursor), q2, cursor),
    decreases q2.len(),
{
    if q2.len() == 0 {
        assert(q1 + q2 =~= q1);
        assert(spec_replay_messages(ui, q1, cursor) + spec_replay_messages(
            spec_replay_state(ui, q1, cursor),
            q2,
            cursor,
        ) =~= spec_replay_messages(ui, q1, cursor));
    } else {
        lemma_replay_order_preserving(ui, q1, q2.drop_last(), cursor);
        assert((q1 + q2).drop_last() =~= q1 + q2.drop_last());
        assert((q1 + q2).last() == q2.last());
        let s1 = spec_replay_state(ui, q1, cursor);
        assert(spec_replay_messages(ui, q1 + q2, cursor) =~= spec_replay_messages(ui, q1, cursor)
            + spec_replay_messages(s1, q2, cursor));
    }
}

/// Replaying an empty queue emits nothing, captures nothing and leaves the
/// interface unchanged; with the orchestrator clearing the shared queue at
/// the end of every `display`, a second session displayed in the same tick
/// replays exactly this.
pub proof fn lemma_replay_empty<M, C, I: UserInterface<M, C>>(ui: I, cursor: Cursor)
    ensures
        spec_replay_messages::<M, C, I>(ui, Seq::empty(), cursor) == Seq::<M>::empty(),
        spec_replay_statuses::<M, C, I>(ui, Seq::empty(), cursor) == Seq::<Status>::empty(),
        spec_replay_state(ui, Seq::empty(), cursor) == ui,
{
}

/// A `display` with no pending events does not change the session's stored
/// cache: the cache is taken, restored into the tree, and collapsed straight
/// back to the same value, so a repeated `display` with an unchanged widget
/// tree and an empty queue round-trips the cache unchanged.
pub proof fn lemma_display_no_events_keeps_cache<M, C, I: UserInterface<M, C>>(
    tree: I,
    cache: C,
    cursor: Cursor,
)
    ensures
        spec_replay_state(
            tree.spec_restore(Some(cache)),
            Seq::<Event>::empty(),
            cursor,
        ).spec_into_cache() == cache,
{
    tree.lemma_cache_roundtrip(cache);
}

} // verus!
