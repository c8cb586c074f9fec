use vstd::prelude::*;
use crate::surface::{clamp_extent, clamped, Extent};

verus! {

/// Where the application stands: before the window and GPU resources exist,
/// or with them in place.
#[derive(Clone, Copy, Debug, PartialEq, Eq, Structural)]
pub enum Phase {
    Loading,
    /// The window and renderer exist; `pending_resize` records that the
    /// surface's configured size is stale relative to the window.
    Ready { pending_resize: bool },
}

/// A physical key, as far as the application tells keys apart.
#[derive(Clone, Copy, Debug, PartialEq, Eq, Structural)]
pub enum Key {
    Escape,
    Other,
}

/// Whether a key went down or up.
#[derive(Clone, Copy, Debug, PartialEq, Eq, Structural)]
pub enum KeyState {
    Pressed,
    Released,
}

/// A signal from the windowing platform.
#[derive(Clone, Copy, Debug, PartialEq, Eq, Structural)]
pub enum Event {
    /// The platform says a window may now be created and drawn to.
    Resumed,
    /// The window asks to be drawn; it currently measures `width` by `height`.
    RedrawRequested { width: u32, height: u32 },
    /// The window was resized to `width` by `height`.
    Resized { width: u32, height: u32 },
    /// The user asked to close the window.
    CloseRequested,
    /// A key changed state.
    Keyboard { key: Key, state: KeyState },
    /// Any other window event.
    Other,
}

/// The work that an event asks of the platform layer, performed in the order
/// of the fields.
#[derive(Clone, Copy, Debug, PartialEq, Eq, Structural)]
pub struct Effects {
    /// Create the window hidden, centre it, and build the renderer for the
    /// window's current size.
    pub set_up: bool,
    /// Reconfigure the surface to this size.
    pub reconfigure: Option<Extent>,
    /// Render and present one frame.
    pub render: bool,
    /// Make the window visible.
    pub show_window: bool,
    /// Ask the window for another redraw.
    pub request_redraw: bool,
    /// Leave the event loop.
    pub exit: bool,
}

/// No work at all.
pub open spec fn no_effects() -> Effects {
    Effects {
        set_up: false,
        reconfigure: None,
        render: false,
        show_window: false,
        request_redraw: false,
        exit: false,
    }
}

/// The next phase and the effects of one event.
pub open spec fn step(phase: Phase, event: Event) -> (Phase, Effects) {
    match phase {
        Phase::Loading => match event {
            Event::Resumed => (
                Phase::Ready { pending_resize: false },
                Effects { set_up: true, render: true, show_window: true, ..no_effects() },
            ),
            Event::CloseRequested => (phase, Effects { exit: true, ..no_effects() }),
            _ => (phase, no_effects()),
        },
        Phase::Ready { pending_resize } => match event {
            Event::RedrawRequested { width, height } => (
                Phase::Ready { pending_resize: false },
                Effects {
                    reconfigure: if pending_resize {
                        Some(clamped(width, height))
                    } else {
                        None
                    },
                    render: true,
                    request_redraw: true,
                    ..no_effects()
                },
            ),
            Event::Resized { .. } => (
                Phase::Ready { pending_resize: true },
                Effects { request_redraw: true, ..no_effects() },
            ),
            Event::CloseRequested => (phase, Effects { exit: true, ..no_effects() }),
            Event::Keyboard { key: Key::Escape, state: KeyState::Pressed } => (
                phase,
                Effects { exit: true, ..no_effects() },
            ),
            _ => (phase, no_effects()),
        },
    }
}

/// The final phase and the effects of each event, for a sequence of events.
pub open spec fn run(phase: Phase, events: Seq<Event>) -> (Phase, Seq<Effects>)
    decreases events.len(),
{
    if events.len() == 0 {
        (phase, Seq::empty())
    } else {
        let (next, effects) = step(phase, events[0]);
        let (last, rest) = run(next, events.drop_first());
        (last, seq![effects] + rest)
    }
}

/// Drives the application through platform events.
#[derive(Debug)]
pub struct Lifecycle {
    phase: Phase,
}

impl Lifecycle {
    pub closed spec fn phase_spec(&self) -> Phase {
        self.phase
    }

    /// A controller before any window exists.
    pub fn new() -> (r: Lifecycle)
        ensures
            r.phase_spec() == Phase::Loading,
    {
        Lifecycle { phase: Phase::Loading }
    }

    /// The current phase.
    pub fn phase(&self) -> (r: Phase)
        ensures
            r == self.phase_spec(),
    {
        self.phase
    }

    /// Whether the window and renderer exist.
    pub fn is_ready(&self) -> (r: bool)
        ensures
            r == (self.phase_spec() is Ready),
    {
        match self.phase {
            Phase::Ready { .. } => true,
            Phase::Loading => false,
        }
    }

    /// Takes one platform event: moves to the next phase and returns the work
    /// for the platform layer to do.
    pub fn handle(&mut self, event: Event) -> (r: Effects)
        ensures
            (final(self).phase_spec(), r) == step(old(self).phase_spec(), event),
    {
        let none = Effects {
            set_up: false,
            reconfigure: None,
            render: false,
            show_window: false,
            request_redraw: false,
            exit: false,
        };
        match self.phase {
            Phase::Loading => match event {
                Event::Resumed => {
                    self.phase = Phase::Ready { pending_resize: false };
                    Effects { set_up: true, render: true, show_window: true, ..none }
                },
                Event::CloseRequested => Effects { exit: true, ..none },
                _ => none,
            },
            Phase::Ready { pending_resize } => match event {
                Event::RedrawRequested { width, height } => {
                    let reconfigure = if pending_resize {
                        Some(clamp_extent(width, height))
                    } else {
                        None
                    };
                    self.phase = Phase::Ready { pending_resize: false };
                    Effects { reconfigure, render: true, request_redraw: true, ..none }
                },
                Event::Resized { .. } => {
                    self.phase = Phase::Ready { pending_resize: true };
                    Effects { request_redraw: true, ..none }
                },
                Event::CloseRequested => Effects { exit: true, ..none },
                Event::Keyboard { key: Key::Escape, state: KeyState::Pressed } => Effects {
                    exit: true,
                    ..none
                },
                _ => none,
            },
        }
    }
}

/// One resize notification for each size, in order.
pub open spec fn resize_events(sizes: Seq<Extent>) -> Seq<Event> {
    sizes.map_values(|e: Extent| Event::Resized { width: e.width, height: e.height })
}

/// The usability signal is acted on once: a second one in a row changes
/// nothing and asks for no work, so no second window or renderer is made.
pub proof fn lemma_resume_idempotent(phase: Phase)
    ensures
        step(step(phase, Event::Resumed).0, Event::Resumed).0 == step(phase, Event::Resumed).0,
        step(step(phase, Event::Resumed).0, Event::Resumed).1 == no_effects(),
        step(phase, Event::Resumed).1.set_up <==> phase == Phase::Loading,
{
}

/// Only an Escape key-press while ready leaves the loop: a release, any
/// other key, or any key before the window exists does not.
pub proof fn lemma_only_escape_press_exits(phase: Phase, key: Key, state: KeyState)
    ensures
        step(phase, Event::Keyboard { key, state }).1.exit <==> (phase is Ready && key == Key::Escape
            && state == KeyState::Pressed),
{
}

/// A close request leaves the loop in either phase, and changes nothing else.
pub proof fn lemma_close_exits(phase: Phase)
    ensures
        step(phase, Event::CloseRequested).1.exit,
        step(phase, Event::CloseRequested).0 == phase,
{
}

/// Resize notifications followed by one redraw: only the redraw may
/// reconfigure, and it does so, at the size current at the redraw, when a
/// resize was pending or seen.
proof fn lemma_resizes_then_redraw(pending: bool, sizes: Seq<Extent>, width: u32, height: u32)
    ensures
        ({
            let events = resize_events(sizes).push(Event::RedrawRequested { width, height });
            let (last, effects) = run(Phase::Ready { pending_resize: pending }, events);
            &&& last == Phase::Ready { pending_resize: false }
            &&& effects.len() == events.len()
            &&& forall|i: int| 0 <= i < effects.len() - 1 ==> effects[i].reconfigure is None
            &&& effects[effects.len() - 1].reconfigure == if pending || sizes.len() > 0 {
                Some(clamped(width, height))
            } else {
                None
            }
        }),
    decreases sizes.len(),
{
    let redraw = Event::RedrawRequested { width, height };
    let events = resize_events(sizes).push(redraw);
    let phase = Phase::Ready { pending_resize: pending };
    if sizes.len() == 0 {
        assert(events.drop_first() =~= Seq::<Event>::empty());
        assert(run(step(phase, redraw).0, events.drop_first()).1 =~= Seq::<Effects>::empty());
    } else {
        let rest = sizes.drop_first();
        assert(events.drop_first() =~= resize_events(rest).push(redraw));
        lemma_resizes_then_redraw(true, rest, width, height);
        let tail = run(Phase::Ready { pending_resize: true }, events.drop_first()).1;
        let effects = run(phase, events).1;
        assert(effects =~= seq![step(phase, events[0]).1] + tail);
        assert forall|i: int| 0 <= i < effects.len() - 1 implies effects[i].reconfigure is None by {
            if i > 0 {
                assert(effects[i] == tail[i - 1]);
            }
        }
    }
}

/// Resize coalescing: any positive number of resize notifications followed
/// by one redraw yields exactly one reconfiguration, made by the redraw, at
/// the size the window has when the redraw comes.
pub proof fn lemma_resize_coalescing(phase: Phase, sizes: Seq<Extent>, width: u32, height: u32)
    requires
        phase is Ready,
        sizes.len() > 0,
    ensures
        ({
            let events = resize_events(sizes).push(Event::RedrawRequested { width, height });
            let effects = run(phase, events).1;
            &&& effects.len() == events.len()
            &&& forall|i: int|
                0 <= i < effects.len() ==> (effects[i].reconfigure is Some <==> i == effects.len()
                    - 1)
            &&& effects[effects.len() - 1].reconfigure == Some(clamped(width, height))
        }),
{
    lemma_resizes_then_redraw(phase->pending_resize, sizes, width, height);
}

} // verus!
