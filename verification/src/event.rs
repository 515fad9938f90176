//! What the surroundings answer when the launcher asks for something.

use vstd::prelude::*;

use crate::activity::State;

verus! {

/// An answer. `S` is the kind of text: `String` in a program, a sequence of
/// characters in a contract. `E` is what the surroundings say of a failure.
#[derive(Debug, PartialEq, Eq)]
pub enum Event<S, E> {
    /// The lock is held.
    Locked,
    /// Someone else holds the lock.
    Busy,
    /// The state that is remembered.
    Loaded(State),
    /// A text: the reply to a request, or whatever text was asked for.
    Text(S),
    /// There is no such text.
    Missing,
    /// A step that brings the sidebar closer to the full height: the pane below
    /// it, the tab they are in, and the pane beside it.
    Step { below: S, tab: S, beside: S },
    /// Yes or no.
    Flag(bool),
    /// It is done.
    Done,
    /// It could not be done, for the given reason.
    Failed(E),
}

impl<E> View for Event<String, E> {
    type V = Event<Seq<char>, E>;

    open spec fn view(&self) -> Event<Seq<char>, E> {
        match *self {
            Event::Locked => Event::Locked,
            Event::Busy => Event::Busy,
            Event::Loaded(state) => Event::Loaded(state),
            Event::Text(text) => Event::Text(text@),
            Event::Missing => Event::Missing,
            Event::Step { below, tab, beside } => Event::Step {
                below: below@,
                tab: tab@,
                beside: beside@,
            },
            Event::Flag(flag) => Event::Flag(flag),
            Event::Done => Event::Done,
            Event::Failed(error) => Event::Failed(error),
        }
    }
}

} // verus!
