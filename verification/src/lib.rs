//! Bridge between an ECS host engine and an embedded retained-mode GUI
//! toolkit.
//!
//! The bridge collects the host's raw input each tick and translates it into
//! the toolkit's event vocabulary, keeps one retained layout cache per UI
//! session, orchestrates one GUI frame per `display` call, and gates an extra
//! render pass that composites the toolkit's output over the scene.
//!
//! All geometry is carried in fixed-point units of one thousandth of a pixel,
//! so that scaling arithmetic is exact for the scale factors real windows use.

pub mod conversions;
pub mod iced;
pub mod program;
pub mod render;
pub mod systems;
pub mod utils;

use vstd::prelude::*;

use crate::iced::{Point, Settings, Size, Status, Style, Theme};

verus! {

/// A snapshot of the primary window, read once per tick. Callers must
/// guarantee that exactly one primary window exists; its absence is a fatal
/// host misconfiguration, not a state this type can hold.
#[derive(Clone, Copy, PartialEq, Eq, Structural, Debug)]
pub struct WindowInfo {
    /// Window width in whole physical pixels.
    pub physical_width: u32,
    /// Window height in whole physical pixels.
    pub physical_height: u32,
    /// The window's own scale factor, in thousandths; always positive.
    pub scale_factor_milli: u32,
    /// The cursor position in window pixel space (thousandths of a pixel),
    /// present only while the cursor is inside the window.
    pub cursor_position: Option<Point>,
}

impl WindowInfo {
    /// The scale factor is positive and a reported cursor lies inside the
    /// window, which therefore has a positive size.
    pub open spec fn wf(self) -> bool {
        &&& self.scale_factor_milli > 0
        &&& match self.cursor_position {
            Some(p) => {
                &&& self.physical_width > 0
                &&& self.physical_height > 0
                &&& 0 <= p.x <= self.physical_width * 1000
                &&& 0 <= p.y <= self.physical_height * 1000
            },
            None => true,
        }
    }
}

/// Settings used to independently customize the toolkit's rendering.
#[derive(Clone, Copy, PartialEq, Eq, Structural, Debug)]
pub struct IcedSettings {
    /// The scale factor to use for rendering, in thousandths. None defaults
    /// to the window's own scale factor.
    pub scale_factor_milli: Option<u32>,
    /// The theme to draw with.
    pub theme: Theme,
    /// The default text style to draw with.
    pub style: Style,
}

impl IcedSettings {
    /// An overriding scale factor, where given, is positive.
    pub open spec fn wf(self) -> bool {
        match self.scale_factor_milli {
            Some(s) => s > 0,
            None => true,
        }
    }

    /// Sets the scale factor override; none returns to the window's own
    /// factor.
    pub fn set_scale_factor(&mut self, factor: Option<u32>)
        requires
            (factor matches Some(s) ==> s > 0),
        ensures
            final(self).scale_factor_milli == factor,
            final(self).theme == old(self).theme,
            final(self).style == old(self).style,
            final(self).wf(),
    {
        self.scale_factor_milli = factor;
    }
}

impl Default for IcedSettings {
    /// No scale override, the dark theme, and white default text.
    fn default() -> (s: IcedSettings)
        ensures
            s.scale_factor_milli == None::<u32>,
            s.theme == Theme::Dark,
            s.style == (Style { text_color: crate::iced::Color { r: 255, g: 255, b: 255, a: 255 } }),
            s.wf(),
    {
        IcedSettings {
            scale_factor_milli: None,
            theme: Theme::Dark,
            style: Style { text_color: crate::iced::Color::white() },
        }
    }
}

/// The association list behind the session registry, as a map from session
/// identifier to its slot: a stored cache, or nothing while the cache is
/// taken for a build.
pub open spec fn spec_cache_map_of<C>(s: Seq<(u64, Option<C>)>) -> Map<u64, Option<C>>
    decreases s.len(),
{
    if s.len() == 0 {
        Map::empty()
    } else {
        spec_cache_map_of(s.drop_last()).insert(s.last().0, s.last().1)
    }
}

/// No session identifier occurs twice.
pub open spec fn spec_cache_keys_unique<C>(s: Seq<(u64, Option<C>)>) -> bool {
    forall|i: int, j: int| 0 <= i < j < s.len() ==> s[i].0 != s[j].0
}

/// A key is in the map exactly when some entry carries it.
proof fn lemma_cache_map_contains<C>(s: Seq<(u64, Option<C>)>, id: u64)
    ensures
        spec_cache_map_of(s).contains_key(id) == (exists|i: int|
            0 <= i < s.len() && s[i].0 == id),
    decreases s.len(),
{
    if s.len() > 0 {
        lemma_cache_map_contains(s.drop_last(), id);
        if spec_cache_map_of(s).contains_key(id) {
            if s.last().0 == id {
                assert(s[s.len() - 1].0 == id);
            } else {
                let i = choose|i: int| 0 <= i < s.len() - 1 && s.drop_last()[i].0 == id;
                assert(s[i].0 == id);
            }
        }
        if exists|i: int| 0 <= i < s.len() && s[i].0 == id {
            let i = choose|i: int| 0 <= i < s.len() && s[i].0 == id;
            if i < s.len() - 1 {
                assert(s.drop_last()[i].0 == id);
            }
        }
    }
}

/// With unique keys, the map sends each entry's key to that entry's slot.
proof fn lemma_cache_map_get<C>(s: Seq<(u64, Option<C>)>, i: int)
    requires
        spec_cache_keys_unique(s),
        0 <= i < s.len(),
    ensures
        spec_cache_map_of(s).contains_key(s[i].0),
        spec_cache_map_of(s)[s[i].0] == s[i].1,
    decreases s.len(),
{
    if i < s.len() - 1 {
        assert(spec_cache_keys_unique(s.drop_last()));
        lemma_cache_map_get(s.drop_last(), i);
        assert(s.drop_last()[i] == s[i]);
        assert(s[i].0 != s.last().0);
    }
}

/// With unique keys, replacing the slot of one entry is one map insertion.
proof fn lemma_cache_map_update<C>(s: Seq<(u64, Option<C>)>, i: int, k: u64, v: Option<C>)
    requires
        spec_cache_keys_unique(s),
        0 <= i < s.len(),
        s[i].0 == k,
    ensures
        spec_cache_map_of(s.update(i, (k, v))) == spec_cache_map_of(s).insert(k, v),
    decreases s.len(),
{
    let t = s.update(i, (k, v));
    if i == s.len() - 1 {
        assert(t.drop_last() =~= s.drop_last());
        assert(t.last() == (k, v));
        assert(spec_cache_map_of(s.drop_last()).insert(k, s.last().1).insert(k, v)
            =~= spec_cache_map_of(s.drop_last()).insert(k, v));
    } else {
        assert(spec_cache_keys_unique(s.drop_last()));
        lemma_cache_map_update(s.drop_last(), i, k, v);
        assert(s.drop_last()[i] == s[i]);
        assert(t.drop_last() =~= s.drop_last().update(i, (k, v)));
        assert(t.last() == s.last());
        assert(k != s.last().0);
        assert(spec_cache_map_of(s.drop_last()).insert(k, v).insert(s.last().0, s.last().1)
            =~= spec_cache_map_of(s.drop_last()).insert(s.last().0, s.last().1).insert(k, v));
    }
}

/// The per-session registry of retained layout caches, keyed by an explicit
/// session identifier. A session's slot is created on first use and lives
/// for the rest of the run; its cache is taken out for each frame's build
/// and must be stored back before the next take for the same session.
pub struct IcedCache<C> {
    entries: Vec<(u64, Option<C>)>,
}

impl<C> View for IcedCache<C> {
    type V = Map<u64, Option<C>>;

    closed spec fn view(&self) -> Map<u64, Option<C>> {
        spec_cache_map_of(self.entries@)
    }
}

impl<C> IcedCache<C> {
    /// The registry's session identifiers never collide.
    pub closed spec fn wf(self) -> bool {
        spec_cache_keys_unique(self.entries@)
    }

    /// A session is mid-frame: its slot exists and its cache is taken.
    pub open spec fn spec_taken(self, id: u64) -> bool {
        self@.contains_key(id) && self@[id] is None
    }

    /// An empty registry.
    pub fn new() -> (c: IcedCache<C>)
        ensures
            c.wf(),
            c@ == Map::<u64, Option<C>>::empty(),
    {
        IcedCache { entries: Vec::new() }
    }

    /// The entry index of a session, if its slot exists.
    fn find(&self, id: u64) -> (r: Option<usize>)
        requires
            self.wf(),
        ensures
            match r {
                Some(i) => {
                    &&& i < self.entries@.len()
                    &&& self.entries@[i as int].0 == id
                    &&& self@.contains_key(id)
                    &&& self@[id] == self.entries@[i as int].1
                },
                None => {
                    &&& !self@.contains_key(id)
                    &&& (forall|j: int| 0 <= j < self.entries@.len() ==> self.entries@[j].0 != id)
                },
            },
    {
        let mut i: usize = 0;
        while i < self.entries.len()
            invariant
                i <= self.entries@.len(),
                forall|j: int| 0 <= j < i ==> self.entries@[j].0 != id,
                self.wf(),
            decreases self.entries@.len() - i,
        {
            if self.entries[i].0 == id {
                proof {
                    lemma_cache_map_get(self.entries@, i as int);
                }
                return Some(i);
            }
            i = i + 1;
        }
        proof {
            lemma_cache_map_contains(self.entries@, id);
        }
        None
    }

    /// Whether a session is mid-frame: its cache is taken and not yet
    /// stored back. A caller about to take a cache can fail cleanly on a
    /// session left mid-frame instead of violating the take's contract.
    pub fn is_taken(&self, id: u64) -> (r: bool)
        requires
            self.wf(),
        ensures
            r == self.spec_taken(id),
    {
        let found = self.find(id);
        match found {
            Some(i) => self.entries[i].1.is_none(),
            None => false,
        }
    }

    /// Takes ownership of the session's stored cache, leaving the slot
    /// marked taken; a first use of the session creates the slot and yields
    /// no cache. The caller must store a cache back before the next take for
    /// the same session.
    pub fn acquire(&mut self, id: u64) -> (r: Option<C>)
        requires
            old(self).wf(),
            !old(self).spec_taken(id),
        ensures
            final(self).wf(),
            r == (if old(self)@.contains_key(id) {
                old(self)@[id]
            } else {
                None::<C>
            }),
            final(self)@ == old(self)@.insert(id, None::<C>),
    {
        let found = self.find(id);
        match found {
            Some(i) => {
                let ghost s0 = self.entries@;
                let slot = &mut self.entries[i];
                let got = slot.1.take();
                proof {
                    assert(self.entries@ =~= s0.update(i as int, (id, None::<C>)));
                    lemma_cache_map_update(s0, i as int, id, None::<C>);
                    assert(forall|a: int, b: int|
                        0 <= a < b < self.entries@.len() ==> self.entries@[a].0
                            != self.entries@[b].0);
                }
                got
            },
            None => {
                let ghost s0 = self.entries@;
                self.entries.push((id, None));
                proof {
                    assert(self.entries@.drop_last() =~= s0);
                    assert(self.entries@.last() == (id, None::<C>));
                    assert(forall|a: int, b: int|
                        0 <= a < b < self.entries@.len() ==> self.entries@[a].0
                            != self.entries@[b].0);
                }
                None
            },
        }
    }

    /// Stores a cache back into the session's taken slot.
    pub fn release(&mut self, id: u64, cache: C)
        requires
            old(self).wf(),
            old(self).spec_taken(id),
        ensures
            final(self).wf(),
            final(self)@ == old(self)@.insert(id, Some(cache)),
    {
        let found = self.find(id);
        match found {
            Some(i) => {
                let ghost s0 = self.entries@;
                let slot = &mut self.entries[i];
                slot.1 = Some(cache);
                proof {
                    assert(self.entries@ =~= s0.update(i as int, (id, Some(cache))));
                    lemma_cache_map_update(s0, i as int, id, Some(cache));
                    assert(forall|a: int, b: int|
                        0 <= a < b < self.entries@.len() ==> self.entries@[a].0
                            != self.entries@[b].0);
                }
            },
            None => {
                proof {
                    assert(false);
                }
            },
        }
    }
}

/// The per-tick state the bridge reads and writes while displaying UI
/// sessions: the shared viewport, the settings, the primary window snapshot,
/// the touch state, the shared event queue, the session registry, and the
/// draw flag. One value of this drives every session of a tick.
pub struct IcedContext<C> {
    /// The viewport recomputed this tick.
    pub viewport: render::ViewportResource,
    /// The rendering settings.
    pub settings: IcedSettings,
    /// The primary window snapshot.
    pub window: WindowInfo,
    /// The host's touch state.
    pub touches: utils::Touches,
    /// The shared event queue, rebuilt by this tick's translation.
    pub events: systems::IcedEventQueue,
    /// The per-session cache registry.
    pub cache_map: IcedCache<C>,
    /// The draw flag the render side extracts.
    pub did_draw: render::DidDraw,
}

impl<C> IcedContext<C> {
    /// The context is usable: viewport, settings and window are well formed
    /// and the registry's keys are unique.
    pub open spec fn wf(self) -> bool {
        &&& self.viewport.0.wf()
        &&& self.settings.wf()
        &&& self.window.wf()
        &&& self.cache_map.wf()
    }

    /// The logical bounds every session of this tick lays out against.
    pub open spec fn spec_bounds(self) -> Size {
        Size {
            width: self.viewport.0.spec_logical_width_milli() as u64,
            height: self.viewport.0.spec_logical_height_milli() as u64,
        }
    }

    /// The frame's pointer: the window cursor scaled into logical space
    /// where present, else the touch fallback, else no pointer.
    pub open spec fn spec_resolve_cursor(self) -> crate::iced::Cursor {
        match self.window.cursor_position {
            Some(p) => crate::iced::Cursor::Available(
                utils::spec_process_cursor_position(p, self.spec_bounds(), self.window),
            ),
            None => match utils::spec_process_touch_input(self.touches, self.events.0@) {
                Some(p) => crate::iced::Cursor::Available(p),
                None => crate::iced::Cursor::Unavailable,
            },
        }
    }

    /// The session's stored cache, where its slot already exists.
    pub open spec fn spec_session_cache(self, session: u64) -> Option<C> {
        if self.cache_map@.contains_key(session) {
            self.cache_map@[session]
        } else {
            None
        }
    }

    /// The logical bounds every session of this tick lays out against.
    pub fn logical_bounds(&self) -> (r: Size)
        requires
            self.viewport.0.wf(),
        ensures
            r == self.spec_bounds(),
            r.width <= i64::MAX,
            r.height <= i64::MAX,
    {
        proof {
            vstd::arithmetic::div_mod::lemma_div_is_ordered_by_denominator(
                self.viewport.0.physical_width * 1_000_000,
                1,
                self.viewport.0.scale_factor_milli as int,
            );
            vstd::arithmetic::div_mod::lemma_div_is_ordered_by_denominator(
                self.viewport.0.physical_height * 1_000_000,
                1,
                self.viewport.0.scale_factor_milli as int,
            );
        }
        Size {
            width: self.viewport.0.logical_width_milli(),
            height: self.viewport.0.logical_height_milli(),
        }
    }

    /// Resolves the frame's pointer: the window cursor scaled into the
    /// viewport's logical space where the window reports one, else the touch
    /// fallback, else no pointer.
    pub fn resolve_cursor(&self) -> (r: crate::iced::Cursor)
        requires
            self.wf(),
        ensures
            r == self.spec_resolve_cursor(),
    {
        let bounds = self.logical_bounds();
        match self.window.cursor_position {
            Some(position) => crate::iced::Cursor::Available(
                utils::process_cursor_position(position, bounds, &self.window),
            ),
            None => match utils::process_touch_input(&self.touches, &self.events.0) {
                Some(p) => crate::iced::Cursor::Available(p),
                None => crate::iced::Cursor::Unavailable,
            },
        }
    }

    /// Displays one session's widget tree for this tick: resolves the
    /// frame's pointer, restores the session's retained cache into the tree,
    /// replays the whole shared queue in arrival order, draws, clears the
    /// shared queue (so a session displayed later this tick replays
    /// nothing), stores the resulting cache back, and sets the draw flag.
    /// Returns the emitted messages and the per-event capture verdicts, both
    /// in arrival order, for the caller to forward.
    pub fn display<M, I: program::UserInterface<M, C>>(&mut self, session: u64, widget_tree: I)
        -> (r: (Vec<M>, Vec<Status>))
        requires
            old(self).wf(),
            !old(self).cache_map.spec_taken(session),
        ensures
            final(self).wf(),
            ({
                let ui0 = widget_tree.spec_restore(old(self).spec_session_cache(session));
                let cursor = old(self).spec_resolve_cursor();
                let queue = old(self).events.0@;
                &&& r.0@ == program::spec_replay_messages(ui0, queue, cursor)
                &&& r.1@ == program::spec_replay_statuses(ui0, queue, cursor)
                &&& final(self).cache_map@ == old(self).cache_map@.insert(
                    session,
                    Some(program::spec_replay_state(ui0, queue, cursor).spec_into_cache()),
                )
            }),
            final(self).events.0@ == Seq::<crate::iced::Event>::empty(),
            final(self).did_draw.flag,
            final(self).viewport == old(self).viewport,
            final(self).settings == old(self).settings,
            final(self).window == old(self).window,
            final(self).touches == old(self).touches,
    {
        let cursor = self.resolve_cursor();
        let cache = self.cache_map.acquire(session);
        let mut ui = widget_tree.restore(cache);
        let (messages, statuses) = program::replay(&mut ui, &self.events.0, cursor);
        ui.draw(&self.settings.theme, &self.settings.style, cursor);
        self.events.clear();
        self.cache_map.release(session, ui.into_cache());
        self.did_draw.set();
        (messages, statuses)
    }
}

/// A `display` with no pending events and an unchanged widget tree does not
/// change the registry at all: the cache it stores back is the cache it
/// took, so repeating such a call any number of times leaves every session's
/// observable state as it was.
pub proof fn lemma_display_idempotent_registry<M, C, I: program::UserInterface<M, C>>(
    ctx: IcedContext<C>,
    tree: I,
    session: u64,
    cache: C,
)
    requires
        ctx.events.0@ == Seq::<crate::iced::Event>::empty(),
        ctx.cache_map@.contains_key(session),
        ctx.cache_map@[session] == Some(cache),
    ensures
        ctx.cache_map@.insert(
            session,
            Some(
                program::spec_replay_state(
                    tree.spec_restore(ctx.spec_session_cache(session)),
                    ctx.events.0@,
                    ctx.spec_resolve_cursor(),
                ).spec_into_cache(),
            ),
        ) == ctx.cache_map@,
{
    tree.lemma_cache_roundtrip(cache);
    assert(ctx.cache_map@.insert(session, Some(cache)) =~= ctx.cache_map@);
}

/// Sessions displayed in the same tick share one queue, and the first
/// `display` clears it: a session displayed later in the tick replays an
/// empty queue, so it emits no messages and its cache only round-trips.
pub proof fn lemma_second_session_sees_empty<M, C, I: program::UserInterface<M, C>>(
    ctx: IcedContext<C>,
    tree: I,
    session: u64,
)
    requires
        ctx.events.0@ == Seq::<crate::iced::Event>::empty(),
    ensures
        program::spec_replay_messages(
            tree.spec_restore(ctx.spec_session_cache(session)),
            ctx.events.0@,
            ctx.spec_resolve_cursor(),
        ) == Seq::<M>::empty(),
        program::spec_replay_state(
            tree.spec_restore(ctx.spec_session_cache(session)),
            ctx.events.0@,
            ctx.spec_resolve_cursor(),
        ) == tree.spec_restore(ctx.spec_session_cache(session)),
{
}

/// The bridge's configuration, registered once at startup: the toolkit's
/// renderer settings and font file contents to preload.
pub struct IcedPlugin {
    /// The renderer settings.
    pub settings: Settings,
    /// Font file contents to preload into the renderer.
    pub fonts: Vec<Vec<u8>>,
}

impl Default for IcedPlugin {
    /// Default renderer settings and no extra fonts.
    fn default() -> (p: IcedPlugin)
        ensures
            p.settings == (Settings {
                default_text_size_milli: 16_000u64,
                antialiasing: None::<crate::iced::Antialiasing>,
            }),
            p.fonts@.len() == 0,
    {
        IcedPlugin { settings: Settings::default(), fonts: Vec::new() }
    }
}

} // verus!
