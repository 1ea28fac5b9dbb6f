//! The lifecycle of one effect: its tint, the size the overlay canvas was last
//! drawn at, whether it still renders, its pending animation-frame request and
//! its pointer listener. The render loop asks this state what to do and reports
//! back what it did.

use vstd::prelude::*;
use vstd::string::StringSliceAdditionalSpecFns;

use crate::tint::{channels_on_char_boundaries, parse_hex_rgb, spec_parse_hex_rgb};

verus! {

/// What the render loop does in one animation frame.
#[derive(Debug, Clone, Copy, PartialEq, Eq)]
pub enum FramePlan {
    /// The element covers no pixels: nothing is drawn.
    Skip,
    /// Draw at `width` x `height` device pixels; when `resize` holds a size, the
    /// canvas and the viewport are first set to it.
    Draw { width: i32, height: i32, resize: Option<(u32, u32)> },
}

/// What tearing an effect down has to undo.
#[derive(Debug, Clone, Copy, PartialEq, Eq)]
pub struct Teardown {
    /// The animation-frame request to cancel, if one was made.
    pub cancel_frame: Option<i32>,
    /// Whether the pointer listener is still registered and must be removed.
    pub remove_pointer_listener: bool,
}

/// The abstract state of an effect.
#[derive(Debug, Clone, Copy, PartialEq, Eq)]
pub struct GlassModel {
    pub tint: (u8, u8, u8),
    pub last_size: (i32, i32),
    pub running: bool,
    pub frame_request: Option<i32>,
    pub pointer_listener: bool,
}

/// The state of a freshly started effect with the given tint.
pub open spec fn initial_model(tint: (u8, u8, u8)) -> GlassModel {
    GlassModel {
        tint,
        last_size: (0, 0),
        running: true,
        frame_request: None,
        pointer_listener: false,
    }
}

/// One animation frame at `width` x `height` device pixels: nothing is drawn over
/// an empty area; otherwise the frame is drawn, after resizing the canvas when its
/// size differs from the size last drawn at.
pub open spec fn plan_frame_model(m: GlassModel, width: i32, height: i32) -> (GlassModel, FramePlan) {
    if width <= 0 || height <= 0 {
        (m, FramePlan::Skip)
    } else if width != m.last_size.0 || height != m.last_size.1 {
        (
            GlassModel { last_size: (width, height), ..m },
            FramePlan::Draw {
                width,
                height,
                resize: Some((width as u32, height as u32)),
            },
        )
    } else {
        (m, FramePlan::Draw { width, height, resize: None })
    }
}

/// Tearing down: rendering stops, the pending frame request is cancelled and the
/// pointer listener, if still registered, is removed (and forgotten).
pub open spec fn destroy_model(m: GlassModel) -> (GlassModel, Teardown) {
    (
        GlassModel { running: false, pointer_listener: false, ..m },
        Teardown { cancel_frame: m.frame_request, remove_pointer_listener: m.pointer_listener },
    )
}

/// Something that happens to an effect.
#[derive(Debug, Clone, Copy, PartialEq, Eq)]
pub enum GlassEvent {
    /// The tint is set to a colour.
    Retint(u8, u8, u8),
    /// An animation frame at the given size is planned.
    Frame(i32, i32),
    /// An animation frame was requested under the given id.
    FrameRequested(i32),
    /// The pointer listener was registered.
    PointerTracking,
    /// The effect is torn down.
    Destroy,
}

/// The state after one event.
pub open spec fn apply_event(m: GlassModel, e: GlassEvent) -> GlassModel {
    match e {
        GlassEvent::Retint(r, g, b) => GlassModel { tint: (r, g, b), ..m },
        GlassEvent::Frame(w, h) => plan_frame_model(m, w, h).0,
        GlassEvent::FrameRequested(id) => GlassModel { frame_request: Some(id), ..m },
        GlassEvent::PointerTracking => GlassModel { pointer_listener: true, ..m },
        GlassEvent::Destroy => destroy_model(m).0,
    }
}

/// The state after a sequence of events, in order.
pub open spec fn apply_events(m: GlassModel, events: Seq<GlassEvent>) -> GlassModel
    decreases events.len(),
{
    if events.len() == 0 {
        m
    } else {
        apply_events(apply_event(m, events[0]), events.drop_first())
    }
}

/// The state of one effect.
pub struct GlassState {
    tint: (u8, u8, u8),
    last_width: i32,
    last_height: i32,
    running: bool,
    frame_request: Option<i32>,
    pointer_listener: bool,
}

impl View for GlassState {
    type V = GlassModel;

    closed spec fn view(&self) -> GlassModel {
        GlassModel {
            tint: self.tint,
            last_size: (self.last_width, self.last_height),
            running: self.running,
            frame_request: self.frame_request,
            pointer_listener: self.pointer_listener,
        }
    }
}

impl GlassState {
    /// Starts an effect with the given tint: it runs, has drawn nothing yet, has no
    /// frame requested and no pointer listener.
    pub fn new(tint: (u8, u8, u8)) -> (s: GlassState)
        ensures
            s@ == initial_model(tint),
    {
        GlassState {
            tint,
            last_width: 0,
            last_height: 0,
            running: true,
            frame_request: None,
            pointer_listener: false,
        }
    }

    /// The current tint.
    pub fn tint(&self) -> (t: (u8, u8, u8))
        ensures
            t == self@.tint,
    {
        self.tint
    }

    /// Whether the effect still renders; an animation frame that arrives when it
    /// does not is dropped without drawing or requesting another.
    pub fn is_running(&self) -> (r: bool)
        ensures
            r == self@.running,
    {
        self.running
    }

    /// Sets the tint from a hexadecimal colour such as `#88ccff`; nothing else changes.
    pub fn set_tint(&mut self, hex: &str)
        requires
            channels_on_char_boundaries(hex.spec_bytes()),
        ensures
            final(self)@ == apply_event(
                old(self)@,
                GlassEvent::Retint(
                    spec_parse_hex_rgb(hex.spec_bytes()).0,
                    spec_parse_hex_rgb(hex.spec_bytes()).1,
                    spec_parse_hex_rgb(hex.spec_bytes()).2,
                ),
            ),
            final(self)@.tint == spec_parse_hex_rgb(hex.spec_bytes()),
    {
        self.tint = parse_hex_rgb(hex);
    }

    /// Plans the animation frame for an element of `width` x `height` device pixels
    /// and records the size drawn at.
    pub fn plan_frame(&mut self, width: i32, height: i32) -> (plan: FramePlan)
        ensures
            (final(self)@, plan) == plan_frame_model(old(self)@, width, height),
    {
        if width <= 0 || height <= 0 {
            FramePlan::Skip
        } else if width != self.last_width || height != self.last_height {
            self.last_width = width;
            self.last_height = height;
            FramePlan::Draw { width, height, resize: Some((width as u32, height as u32)) }
        } else {
            FramePlan::Draw { width, height, resize: None }
        }
    }

    /// Records the id of the animation frame just requested.
    pub fn frame_requested(&mut self, id: i32)
        ensures
            final(self)@ == apply_event(old(self)@, GlassEvent::FrameRequested(id)),
    {
        self.frame_request = Some(id);
    }

    /// Records that the pointer listener has been registered.
    pub fn pointer_tracking_started(&mut self)
        ensures
            final(self)@ == apply_event(old(self)@, GlassEvent::PointerTracking),
    {
        self.pointer_listener = true;
    }

    /// Stops rendering and says what to undo: the last frame request, and the
    /// pointer listener if it is still registered.
    pub fn destroy(&mut self) -> (t: Teardown)
        ensures
            (final(self)@, t) == destroy_model(old(self)@),
    {
        self.running = false;
        let remove = self.pointer_listener;
        self.pointer_listener = false;
        Teardown { cancel_frame: self.frame_request, remove_pointer_listener: remove }
    }
}

proof fn lemma_stopped_stays_stopped(m: GlassModel, events: Seq<GlassEvent>)
    requires
        !m.running,
    ensures
        !apply_events(m, events).running,
    decreases events.len(),
{
    if events.len() > 0 {
        lemma_stopped_stays_stopped(apply_event(m, events[0]), events.drop_first());
    }
}

/// Once torn down, an effect never renders again, whatever happens to it next.
pub proof fn law_destroyed_effect_stays_stopped(m: GlassModel, events: Seq<GlassEvent>)
    ensures
        !apply_events(destroy_model(m).0, events).running,
{
    lemma_stopped_stays_stopped(destroy_model(m).0, events);
}

/// Tearing down twice leaves the effect as the first teardown did, and the second
/// one never removes the pointer listener again.
pub proof fn law_destroy_twice(m: GlassModel)
    ensures
        destroy_model(destroy_model(m).0).0 == destroy_model(m).0,
        !destroy_model(destroy_model(m).0).1.remove_pointer_listener,
        destroy_model(destroy_model(m).0).1.cancel_frame == destroy_model(m).1.cancel_frame,
{
}

/// The first frame drawn over a non-empty element sizes the canvas to it.
pub proof fn law_first_frame_sizes_canvas(tint: (u8, u8, u8), width: i32, height: i32)
    requires
        width > 0,
        height > 0,
    ensures
        plan_frame_model(initial_model(tint), width, height).1 == (FramePlan::Draw {
            width,
            height,
            resize: Some((width as u32, height as u32)),
        }),
{
}

/// The canvas is resized only when the element's size changes: a second frame at
/// the size just drawn at is drawn without resizing and changes nothing.
pub proof fn law_same_size_no_resize(m: GlassModel, width: i32, height: i32)
    requires
        width > 0,
        height > 0,
    ensures
        ({
            let first = plan_frame_model(m, width, height).0;
            plan_frame_model(first, width, height) == (first, FramePlan::Draw {
                width,
                height,
                resize: None,
            })
        }),
{
}

/// A frame resizes the canvas exactly when the element covers pixels and its size
/// differs from the size last drawn at.
pub proof fn law_resize_iff_size_changed(m: GlassModel, width: i32, height: i32)
    ensures
        (plan_frame_model(m, width, height).1 matches FramePlan::Draw { resize: Some(_), .. })
            <==> (width > 0 && height > 0 && (width, height) != m.last_size),
{
}

/// Every frame that draws, draws at the element's size and remembers that size;
/// one that resizes the canvas resizes it to exactly the element's size, whatever
/// size the canvas had before.
pub proof fn law_draw_at_element_size(m: GlassModel, width: i32, height: i32)
    ensures
        plan_frame_model(m, width, height).1 is Draw ==> {
            &&& width > 0 && height > 0
            &&& plan_frame_model(m, width, height).1->width == width
            &&& plan_frame_model(m, width, height).1->height == height
            &&& plan_frame_model(m, width, height).0.last_size == (width, height)
            &&& plan_frame_model(m, width, height).1->resize is Some ==> plan_frame_model(
                m,
                width,
                height,
            ).1->resize.unwrap() == (width as u32, height as u32)
        },
{
}

/// A frame over an empty element draws nothing and changes nothing.
pub proof fn law_empty_area_draws_nothing(m: GlassModel, width: i32, height: i32)
    requires
        width <= 0 || height <= 0,
    ensures
        plan_frame_model(m, width, height) == (m, FramePlan::Skip),
{
}

} // verus!
