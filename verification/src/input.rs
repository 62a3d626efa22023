//! Input events and the rule that ends the render loop.

use vstd::prelude::*;

verus! {

/// What the window system reported, reduced to what the loop cares about.
#[derive(Clone, Copy, Debug, PartialEq, Eq, Structural)]
pub enum Event {
    /// The user asked to close the window.
    Quit,
    /// A key went down.
    KeyDown,
    /// A mouse button went down.
    MouseButtonDown,
    /// Anything else.
    Other,
}

/// A close request, a key press and a mouse click each end the loop.
pub open spec fn ends_loop(event: Event) -> bool {
    event is Quit || event is KeyDown || event is MouseButtonDown
}

/// Some event of the batch ends the loop.
pub open spec fn quit_requested(events: Seq<Event>) -> bool {
    exists|i: int| 0 <= i < events.len() && ends_loop(#[trigger] events[i])
}

/// Tells whether `event` ends the loop.
pub fn is_quit_event(event: Event) -> (quit: bool)
    ensures
        quit == ends_loop(event),
{
    match event {
        Event::Quit => true,
        Event::KeyDown => true,
        Event::MouseButtonDown => true,
        Event::Other => false,
    }
}

/// Goes through all events that were pending and tells whether the loop is
/// to end: it is when `quit` was already set or one of the events ends it.
pub fn poll_events(quit: bool, events: &Vec<Event>) -> (stop: bool)
    ensures
        stop == (quit || quit_requested(events@)),
{
    let mut stop: bool = quit;
    let mut i: usize = 0;
    while i < events.len()
        invariant
            i <= events.len(),
            stop == (quit || exists|k: int| 0 <= k < i && ends_loop(#[trigger] events@[k])),
        decreases events.len() - i,
    {
        if is_quit_event(events[i]) {
            stop = true;
        }
        i = i + 1;
    }
    stop
}

} // verus!
