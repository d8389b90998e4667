//! The render-side half of the bridge: the per-tick viewport snapshot, the
//! draw flag that crosses from the update phase to the render phase, and the
//! decision that gates the splice pass.

use vstd::prelude::*;

verus! {

/// Physical window size plus the scale factor that maps physical pixels to
/// the toolkit's logical coordinate space.
///
/// The scale factor is carried in thousandths, so a factor of 2.0 is stored
/// as 2000. Logical lengths are reported in thousandths of a logical pixel:
/// an 800 pixel wide window at factor 2.0 has logical width 400_000.
#[derive(Clone, Copy, PartialEq, Eq, Structural, Debug)]
pub struct Viewport {
    /// Window width in whole physical pixels.
    pub physical_width: u32,
    /// Window height in whole physical pixels.
    pub physical_height: u32,
    /// Scale factor in thousandths; always positive.
    pub scale_factor_milli: u32,
}

impl Viewport {
    /// A viewport is usable once its scale factor is positive.
    pub open spec fn wf(self) -> bool {
        self.scale_factor_milli > 0
    }

    /// Logical width in thousandths of a pixel: physical width divided by
    /// the scale factor.
    pub open spec fn spec_logical_width_milli(self) -> int {
        self.physical_width * 1_000_000 / self.scale_factor_milli as int
    }

    /// Logical height in thousandths of a pixel.
    pub open spec fn spec_logical_height_milli(self) -> int {
        self.physical_height * 1_000_000 / self.scale_factor_milli as int
    }

    /// Makes the viewport for a window of the given physical size and scale
    /// factor.
    pub fn with_physical_size(width: u32, height: u32, scale_factor_milli: u32) -> (v: Viewport)
        requires
            scale_factor_milli > 0,
        ensures
            v == (Viewport { physical_width: width, physical_height: height, scale_factor_milli }),
            v.wf(),
    {
        Viewport { physical_width: width, physical_height: height, scale_factor_milli }
    }

    /// Logical width in thousandths of a pixel.
    pub fn logical_width_milli(&self) -> (r: u64)
        requires
            self.wf(),
        ensures
            r == self.spec_logical_width_milli(),
    {
        (self.physical_width as u64) * 1_000_000 / (self.scale_factor_milli as u64)
    }

    /// Logical height in thousandths of a pixel.
    pub fn logical_height_milli(&self) -> (r: u64)
        requires
            self.wf(),
        ensures
            r == self.spec_logical_height_milli(),
    {
        (self.physical_height as u64) * 1_000_000 / (self.scale_factor_milli as u64)
    }
}

/// The viewport snapshot shared by every UI session in a tick, and copied
/// into the render side once per frame.
#[derive(Clone, Copy, PartialEq, Eq, Structural, Debug)]
pub struct ViewportResource(pub Viewport);

impl Default for ViewportResource {
    /// The placeholder viewport installed at startup, before the first tick
    /// has read the window: 1600 by 900 physical pixels at factor 1.0.
    fn default() -> (v: ViewportResource)
        ensures
            v.0 == (Viewport {
                physical_width: 1600u32,
                physical_height: 900u32,
                scale_factor_milli: 1000u32,
            }),
            v.0.wf(),
    {
        ViewportResource(
            Viewport { physical_width: 1600, physical_height: 900, scale_factor_milli: 1000 },
        )
    }
}

/// The viewport a tick derives from the window and the settings: the
/// window's physical size, under the configured scale override where one is
/// set, else under the window's own scale factor.
pub open spec fn spec_update_viewport(
    window: crate::WindowInfo,
    settings: crate::IcedSettings,
) -> Viewport {
    Viewport {
        physical_width: window.physical_width,
        physical_height: window.physical_height,
        scale_factor_milli: match settings.scale_factor_milli {
            Some(s) => s,
            None => window.scale_factor_milli,
        },
    }
}

/// Recomputes the shared viewport from the primary window's current size and
/// the configured scale-factor override; runs once per tick, so the viewport
/// follows every change of window size or scale factor.
pub fn update_viewport(window: &crate::WindowInfo, settings: &crate::IcedSettings) -> (r:
    ViewportResource)
    requires
        window.wf(),
        settings.wf(),
    ensures
        r.0 == spec_update_viewport(*window, *settings),
        r.0.wf(),
{
    let scale_factor_milli = match settings.scale_factor_milli {
        Some(s) => s,
        None => window.scale_factor_milli,
    };
    ViewportResource(
        Viewport {
            physical_width: window.physical_width,
            physical_height: window.physical_height,
            scale_factor_milli,
        },
    )
}

/// The viewport recomputation, stated once for every window and setting: the
/// logical size is the physical size divided by the effective scale factor,
/// which is the override where one is set and the window's factor otherwise.
pub proof fn lemma_viewport_recompute(window: crate::WindowInfo, settings: crate::IcedSettings)
    requires
        window.wf(),
        settings.wf(),
    ensures
        ({
            let v = spec_update_viewport(window, settings);
            let scale = match settings.scale_factor_milli {
                Some(s) => s as int,
                None => window.scale_factor_milli as int,
            };
            &&& v.spec_logical_width_milli() == window.physical_width * 1_000_000 / scale
            &&& v.spec_logical_height_milli() == window.physical_height * 1_000_000 / scale
            &&& v.physical_width == window.physical_width
            &&& v.physical_height == window.physical_height
        }),
{
}

/// The update-phase draw flag: set by every `display` call, taken and reset
/// by the extraction step that feeds the render phase.
#[derive(PartialEq, Eq, Structural, Debug)]
pub struct DidDraw {
    /// Whether some session produced new draw primitives this tick.
    pub flag: bool,
}

impl DidDraw {
    /// The flag starts unset: nothing has drawn yet.
    pub fn new() -> (d: DidDraw)
        ensures
            !d.flag,
    {
        DidDraw { flag: false }
    }

    /// Records that a session produced new draw primitives this tick.
    pub fn set(&mut self)
        ensures
            final(self).flag,
    {
        self.flag = true;
    }
}

/// The render-side, read-only snapshot of the draw flag for one frame.
#[derive(Clone, Copy, PartialEq, Eq, Structural, Debug)]
pub struct ExtractedDidDraw(pub bool);

/// What one extraction step does: it observes the current flag and leaves
/// the flag reset.
pub open spec fn spec_extract(d: DidDraw) -> (ExtractedDidDraw, DidDraw) {
    (ExtractedDidDraw(d.flag), DidDraw { flag: false })
}

/// Copies the viewport into the render side and takes the draw flag,
/// resetting it so that a tick without a `display` call reads as "no draw".
pub fn extract_iced_data(viewport: &ViewportResource, did_draw: &mut DidDraw) -> (r: (
    ViewportResource,
    ExtractedDidDraw,
))
    ensures
        r.0 == *viewport,
        r.1 == spec_extract(*old(did_draw)).0,
        *final(did_draw) == spec_extract(*old(did_draw)).1,
        r.1.0 == old(did_draw).flag,
        !final(did_draw).flag,
{
    let observed = did_draw.flag;
    did_draw.flag = false;
    (*viewport, ExtractedDidDraw(observed))
}

/// Label of the splice pass in the host's render graph.
#[derive(Clone, Copy, PartialEq, Eq, Structural, Hash, Debug)]
pub struct IcedPass;

/// Whether the splice pass records GPU work this frame: only when the frame
/// has a target texture and some session drew this tick. A minimized window
/// or a missing draw-flag snapshot skips the pass silently.
pub fn splice_should_present(window_available: bool, extracted: Option<&ExtractedDidDraw>) -> (r:
    bool)
    ensures
        r == (window_available && (extracted matches Some(e) && e.0)),
{
    window_available && match extracted {
        Some(e) => e.0,
        None => false,
    }
}

/// A set draw flag is observed by extraction exactly once: the first
/// extraction after a `display` call observes true and resets the flag, and
/// a second extraction with no `display` call in between observes false.
pub proof fn lemma_did_draw_observed_once(after_display: DidDraw)
    requires
        after_display.flag,
    ensures
        spec_extract(after_display).0.0,
        !spec_extract(spec_extract(after_display).1).0.0,
{
}

} // verus!
