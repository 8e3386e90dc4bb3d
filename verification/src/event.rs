//! The input events the game reacts to, and what a handler asks of the scene.
use vstd::prelude::*;

verus! {

/// A mouse button.
#[derive(Clone, Copy, Debug, PartialEq, Eq, Structural)]
pub enum MouseButton {
    Unknown,
    Left,
    Middle,
    Right,
    X1,
    X2,
}

/// The keys the game tells apart.
#[derive(Clone, Copy, Debug, PartialEq, Eq, Structural)]
pub enum Key {
    Escape,
    Other,
}

/// An input event, reduced to what the game reads of it.
#[derive(Clone, Copy, Debug, PartialEq, Eq, Structural)]
pub enum InputEvent {
    /// The window was closed.
    Quit,
    /// A key went down; `None` where the key has no key code.
    KeyDown(Option<Key>),
    MouseButtonDown(MouseButton),
    MouseButtonUp(MouseButton),
    /// Any other event.
    Other,
}

/// What an event handler asks of the scene beyond its own sprite.
#[derive(Clone, Copy, Debug, PartialEq, Eq, Structural)]
pub enum EventReply {
    Nothing,
    /// Show the background and the plane (the start button was released).
    RevealPlayfield,
    /// Shoot a bullet from the plane.
    FirePlayerBullet,
}

pub open spec fn quits(e: InputEvent) -> bool {
    e == InputEvent::Quit || e == InputEvent::KeyDown(Some(Key::Escape))
}

/// Only closing the window and pressing Escape end the game: no mouse
/// event, other key or other event does.
pub proof fn lemma_only_close_and_escape_quit(e: InputEvent)
    ensures
        quits(e) <==> (e == InputEvent::Quit || e == InputEvent::KeyDown(Some(Key::Escape))),
        forall|b: MouseButton| !quits(InputEvent::MouseButtonDown(b)),
        forall|b: MouseButton| !quits(InputEvent::MouseButtonUp(b)),
        !quits(InputEvent::KeyDown(None)),
        !quits(InputEvent::KeyDown(Some(Key::Other))),
        !quits(InputEvent::Other),
{
}

/// Whether the event ends the main loop: the window was closed, or Escape
/// was pressed.
pub fn is_quit(e: &InputEvent) -> (r: bool)
    ensures
        r == quits(*e),
        r <==> (*e == InputEvent::Quit || *e == InputEvent::KeyDown(Some(Key::Escape))),
        forall|b: MouseButton|
            *e == InputEvent::MouseButtonDown(b) || *e == InputEvent::MouseButtonUp(b) ==> !r,
{
    match e {
        InputEvent::Quit => true,
        InputEvent::KeyDown(Some(Key::Escape)) => true,
        _ => false,
    }
}

} // verus!
