//! One turn of the render loop.
//!
//! The caller owns the loop: it collects the events that are pending, asks
//! [`step`] what to do, and either replays the frame and comes back or leaves.

use vstd::prelude::*;
use crate::input::{poll_events, quit_requested, Event};
use crate::scene::{Command, Screen, Texture};

verus! {

/// What the caller does next.
#[derive(Debug, PartialEq, Eq)]
pub enum Action {
    /// Replay these commands on the renderer, then poll again.
    Render(Vec<Command>),
    /// Leave the loop.
    Exit,
}

/// Decides one turn of the loop from the events that were pending. If any of
/// them ends the loop the answer is to exit, and nothing is drawn. Otherwise
/// the answer is the next frame.
pub fn step(screen: &Screen, background: &Texture, image: &Texture, events: &Vec<Event>) -> (action:
    Action)
    requires
        screen.wf(),
    ensures
        quit_requested(events@) ==> action is Exit,
        !quit_requested(events@) ==> (action matches Action::Render(commands) && commands@
            == screen.frame(*background, *image)),
{
    if poll_events(false, events) {
        Action::Exit
    } else {
        Action::Render(screen.draw_frame(background, image))
    }
}

} // verus!
