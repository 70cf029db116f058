use vstd::prelude::*;

verus! {

/// Whether a key went down or came back up.
#[derive(Clone, Copy, Debug, PartialEq, Eq, Structural)]
pub enum KeyState {
    Pressed,
    Released,
}

/// The keys that the event loop tells apart.
#[derive(Clone, Copy, Debug, PartialEq, Eq, Structural)]
pub enum Key {
    Escape,
    Other,
}

/// An event delivered to the event loop, reduced to what the loop decides on.
#[derive(Clone, Copy, Debug, PartialEq, Eq, Structural)]
pub enum LoopEvent {
    /// The user asked to close the window.
    CloseRequested,
    /// A keyboard event; `key` is `None` where the toolkit could not name the key.
    Keyboard { key: Option<Key>, state: KeyState },
    /// Any other event, of the window or of the application.
    Other,
}

/// What the event loop does after an event: wait for the next one, or stop.
#[derive(Clone, Copy, Debug, PartialEq, Eq, Structural)]
pub enum Flow {
    Wait,
    Exit,
}

/// The loop ends on a close request and on the release of the Escape key.
pub open spec fn ends_loop(event: LoopEvent) -> bool {
    ||| event == LoopEvent::CloseRequested
    ||| event == (LoopEvent::Keyboard { key: Some(Key::Escape), state: KeyState::Released })
}

/// Decides how the event loop goes on after `event`.
pub fn next_flow(event: &LoopEvent) -> (r: Flow)
    ensures
        r == (if ends_loop(*event) { Flow::Exit } else { Flow::Wait }),
{
    match event {
        LoopEvent::CloseRequested => Flow::Exit,
        LoopEvent::Keyboard { key: Some(Key::Escape), state: KeyState::Released } => Flow::Exit,
        _ => Flow::Wait,
    }
}

} // verus!
