//! How a scrollable with smooth scrolling decides what to do with an event:
//! take the wheel over and animate it, move along an animation in flight,
//! drop it, or leave the event to the scrollable it wraps.

use vstd::prelude::*;

verus! {

/// How a smooth scrollable reacts to scrolling.
///
/// - [`ScrollMode::Instant`] scrolls immediately, exactly like a regular
///   scrollable.
/// - [`ScrollMode::Smooth`] animates towards the destination with a
///   symmetrical acceleration and deceleration curve.
#[derive(Debug, Clone, Copy, PartialEq, Eq, Structural)]
pub enum ScrollMode {
    /// Scroll instantly, with no animation.
    Instant,
    /// Animate scrolling.
    Smooth,
}

impl Default for ScrollMode {
    fn default() -> (mode: Self)
        ensures
            mode == ScrollMode::Smooth,
    {
        ScrollMode::Smooth
    }
}

/// An event, as the smooth scrollable sees it.
pub enum ScrollEvent {
    /// The keyboard modifiers changed.
    ModifiersChanged,
    /// The wheel turned; `over` tells whether the pointer is over the
    /// scrollable.
    Wheel { over: bool },
    /// A redraw was requested; `animating` tells whether an animation is in
    /// flight.
    RedrawRequested { animating: bool },
    /// A mouse button was pressed.
    ButtonPressed,
    /// The screen was touched.
    Touch,
    /// Any other keyboard event.
    Key,
    /// Anything else.
    Other,
}

/// What the smooth scrollable does with an event.
#[derive(Debug, Clone, Copy, PartialEq, Eq, Structural)]
pub enum ScrollStep {
    /// Hand the event to the wrapped scrollable untouched.
    Forward,
    /// Take the wheel over: let a nested scrollable have it first, then
    /// start or extend the animation, capture the event and ask for a redraw.
    /// The wrapped scrollable does not see the event otherwise.
    Animate,
    /// Move the viewport to where the animation stands, drop the animation
    /// once it is over or ask for another redraw, then hand the event over.
    Sample,
    /// Drop the animation in flight, then hand the event over.
    Cancel,
}

/// What a scrollable in `mode` does with `event`. Only smooth scrolling
/// departs from plain forwarding: the wheel over the widget is animated, a
/// redraw moves the animation along, and a click, a touch or a key (other
/// than a change of modifiers) stops it.
pub open spec fn spec_scroll_step(mode: ScrollMode, event: ScrollEvent) -> ScrollStep {
    match mode {
        ScrollMode::Instant => ScrollStep::Forward,
        ScrollMode::Smooth => match event {
            ScrollEvent::Wheel { over } => if over {
                ScrollStep::Animate
            } else {
                ScrollStep::Forward
            },
            ScrollEvent::RedrawRequested { animating } => if animating {
                ScrollStep::Sample
            } else {
                ScrollStep::Forward
            },
            ScrollEvent::ButtonPressed => ScrollStep::Cancel,
            ScrollEvent::Touch => ScrollStep::Cancel,
            ScrollEvent::Key => ScrollStep::Cancel,
            ScrollEvent::ModifiersChanged => ScrollStep::Forward,
            ScrollEvent::Other => ScrollStep::Forward,
        },
    }
}

/// Decides what a scrollable in `mode` does with `event`; in instant mode
/// every event goes to the wrapped scrollable untouched.
pub fn update(mode: ScrollMode, event: &ScrollEvent) -> (step: ScrollStep)
    ensures
        step == spec_scroll_step(mode, *event),
        mode is Instant ==> step == ScrollStep::Forward,
{
    match mode {
        ScrollMode::Instant => ScrollStep::Forward,
        ScrollMode::Smooth => match event {
            ScrollEvent::Wheel { over } => {
                if *over {
                    ScrollStep::Animate
                } else {
                    ScrollStep::Forward
                }
            },
            ScrollEvent::RedrawRequested { animating } => {
                if *animating {
                    ScrollStep::Sample
                } else {
                    ScrollStep::Forward
                }
            },
            ScrollEvent::ButtonPressed | ScrollEvent::Touch | ScrollEvent::Key => ScrollStep::Cancel,
            ScrollEvent::ModifiersChanged | ScrollEvent::Other => ScrollStep::Forward,
        },
    }
}

/// How a wheel event that the smooth scrollable takes over is shared with a
/// scrollable nested in its content.
#[derive(Debug, Clone, Copy, PartialEq, Eq, Structural)]
pub enum Arbitration {
    /// Animate the wheel.
    Animate,
    /// The nested scrollable used the wheel up: leave it there.
    Consumed,
    /// The wheel went past the nested scrollable and moved the wrapper at
    /// once: move the wrapper back, then animate the wheel.
    Rewind,
}

/// Decides how a wheel event is shared, given whether the pointer is over a
/// nested scrollable with room left (`nested`), and, once the event was
/// handed to the wrapped scrollable, whether it captured it (`captured`) and
/// whether the wrapper's own position changed (`moved`).
pub fn arbitrate(nested: bool, captured: bool, moved: bool) -> (arbitration: Arbitration)
    ensures
        arbitration == (if nested && captured {
            if moved {
                Arbitration::Rewind
            } else {
                Arbitration::Consumed
            }
        } else {
            Arbitration::Animate
        }),
{
    if nested && captured {
        if moved {
            Arbitration::Rewind
        } else {
            Arbitration::Consumed
        }
    } else {
        Arbitration::Animate
    }
}

/// The search, through the scrollables that the wrapped scrollable reports,
/// for one nested in its content, under the pointer, with room left to
/// scroll. The wrapped scrollable itself is reported first, at depth `0`;
/// everything reported deeper is content.
pub struct NestedSearch {
    /// How many scrollables deep the search stands.
    pub depth: usize,
    /// Whether such a scrollable was found.
    pub found: bool,
}

impl NestedSearch {
    /// Starts a search, at the wrapped scrollable itself.
    pub fn new() -> (search: Self)
        ensures
            search.depth == 0,
            !search.found,
    {
        NestedSearch { depth: 0, found: false }
    }

    /// Enters the content of the scrollable last reported.
    pub fn enter(&mut self)
        requires
            old(self).depth < usize::MAX,
        ensures
            final(self).depth == old(self).depth + 1,
            final(self).found == old(self).found,
    {
        self.depth = self.depth + 1;
    }

    /// Leaves the content entered last.
    pub fn leave(&mut self)
        requires
            old(self).depth > 0,
        ensures
            final(self).depth == old(self).depth - 1,
            final(self).found == old(self).found,
    {
        self.depth = self.depth - 1;
    }

    /// Takes a reported scrollable into account: `under_pointer` tells
    /// whether the pointer lies within its bounds, `has_room` whether its
    /// content is larger than them. Only a scrollable in the content counts,
    /// and a search that found one stays done.
    pub fn visit(&mut self, under_pointer: bool, has_room: bool)
        ensures
            final(self).depth == old(self).depth,
            final(self).found == (old(self).found || (old(self).depth > 0 && under_pointer
                && has_room)),
    {
        if self.depth == 0 || self.found {
            return;
        }
        if !under_pointer {
            return;
        }
        self.found = has_room;
    }
}

/// In instant mode every event goes to the wrapped scrollable untouched.
pub proof fn instant_mode_forwards_everything(event: ScrollEvent)
    ensures
        spec_scroll_step(ScrollMode::Instant, event) == ScrollStep::Forward,
{
}

/// A change of modifiers never stops an animation, in either mode.
pub proof fn modifiers_never_stop_an_animation(mode: ScrollMode)
    ensures
        spec_scroll_step(mode, ScrollEvent::ModifiersChanged) == ScrollStep::Forward,
{
}

} // verus!
