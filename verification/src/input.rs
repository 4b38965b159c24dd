//! What the window owner reads from the window each tick, and whether it
//! goes on.

use vstd::prelude::*;

verus! {

/// The keys that the owner tells apart.
#[derive(Clone, Copy, Debug, PartialEq, Eq)]
pub enum Key {
    Escape,
    Other,
}

/// What happened to a key.
#[derive(Clone, Copy, Debug, PartialEq, Eq)]
pub enum Action {
    Release,
    Press,
    Repeat,
}

/// One event of the window, reduced to what the owner looks at.
#[derive(Clone, Copy, Debug, PartialEq, Eq)]
pub enum WindowEvent {
    Key(Key, Action),
    Other,
}

/// Whether `event` asks to quit: Escape going down, and nothing else.
pub open spec fn is_quit(event: WindowEvent) -> bool {
    event == WindowEvent::Key(Key::Escape, Action::Press)
}

/// Whether any of `events` asks to quit.
pub open spec fn any_quit(events: Seq<WindowEvent>) -> bool {
    exists|i: int| 0 <= i < events.len() && is_quit(#[trigger] events[i])
}

/// Whether the owner goes on after a tick in which the window reported
/// `should_close` and delivered `events`.
pub open spec fn keeps_running(should_close: bool, events: Seq<WindowEvent>) -> bool {
    !should_close && !any_quit(events)
}

/// Tells whether one event asks to quit.
pub fn quits(event: &WindowEvent) -> (quit: bool)
    ensures
        quit == is_quit(*event),
{
    match event {
        WindowEvent::Key(Key::Escape, Action::Press) => true,
        _ => false,
    }
}

/// One tick of input: the owner stops when the window was asked to close or
/// Escape was pressed, and goes on otherwise.
pub fn input(should_close: bool, events: &Vec<WindowEvent>) -> (go_on: bool)
    ensures
        go_on == keeps_running(should_close, events@),
{
    if should_close {
        return false;
    }
    let mut i: usize = 0;
    while i < events.len()
        invariant
            i <= events.len(),
            forall|j: int| 0 <= j < i ==> !is_quit(#[trigger] events@[j]),
        decreases events.len() - i,
    {
        if quits(&events[i]) {
            return false;
        }
        i += 1;
    }
    true
}

} // verus!
