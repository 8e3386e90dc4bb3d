//! What every thing on screen offers, and the plain sprite: an image with
//! a place on screen and, for the start button, a click handler.
use vstd::prelude::*;

use crate::event::{EventReply, InputEvent, MouseButton};
use crate::layout::{H, START_H, START_W, W};
use crate::rect::{Rect, RectView};

verus! {

/// What kind of thing an entity on screen is; each kind behaves its own way.
#[derive(Clone, Copy, Debug, PartialEq, Eq, Structural)]
pub enum Tag {
    Start,
    Bg,
    Plane,
    PlayerBullet,
    Enemy,
    EnemyBullet,
}

/// Something that draws itself onto a target.
pub trait Drawable {
    type Target;

    fn draw(&self, t: &mut Self::Target);
}

/// Something that reacts to input events. The handler changes its own
/// entity and answers what it asks of the rest of the scene.
pub trait EventHandle {
    fn on_handle_event(&mut self, e: &InputEvent) -> EventReply;
}

/// Visibility, and whether a point falls within the entity's reach.
pub trait BV {
    fn is_visible(&self) -> bool;

    fn in_bound(&self, p: (i32, i32)) -> bool;
}

/// An entity that draws, handles events and has a visibility.
pub trait DH: Drawable + EventHandle + BV {

}

/// The kind an entity is.
pub trait HasTag {
    fn tag(&self) -> Tag;
}

/// The click behaviours a sprite can be given.
#[derive(Clone, Copy, Debug, PartialEq, Eq, Structural)]
pub enum SpriteHandler {
    /// Shrinks the button while the left button is held over it; on release
    /// hides the button and asks for the playfield to be shown.
    StartButton,
}

/// A still image.
#[allow(non_snake_case)]
#[derive(Clone, Copy, Debug)]
pub struct Sprite {
    /// The part of the image that is shown; `None` for all of it.
    pub src: Option<Rect>,
    pub dst: Option<Rect>,
    pub isVisible: bool,
    pub event_func: Option<SpriteHandler>,
    pub tag: Tag,
}

/// Where the start button stands while it is held down: 10 pixels narrower
/// and 4 pixels lower than at rest, centred in the window.
pub open spec fn pressed_button_rect() -> RectView {
    RectView::clamped(
        ((W - (START_W - 10)) / 2) as int,
        ((H - (START_H - 4)) / 2) as int,
        (START_W - 10) as int,
        (START_H - 4) as int,
    )
}

/// What a sprite's handler does with an event: the start button shrinks
/// while the left button is held and hides itself on release, asking for the
/// playfield; any other sprite, and any other event, changes nothing.
pub open spec fn sprite_reacts(s0: Sprite, s1: Sprite, e: InputEvent, r: EventReply) -> bool {
    let button = s0.event_func == Some(SpriteHandler::StartButton);
    &&& s1.src == s0.src
    &&& s1.event_func == s0.event_func
    &&& s1.tag == s0.tag
    &&& button && e == InputEvent::MouseButtonDown(MouseButton::Left) ==> {
        &&& s1.dst matches Some(d) && d@ == pressed_button_rect()
        &&& s1.isVisible == s0.isVisible
        &&& r == EventReply::Nothing
    }
    &&& button && e == InputEvent::MouseButtonUp(MouseButton::Left) ==> {
        &&& s1.dst == s0.dst
        &&& !s1.isVisible
        &&& r == EventReply::RevealPlayfield
    }
    &&& s0.event_func == None::<SpriteHandler> ==> {
        &&& s1 == s0
        &&& r == EventReply::Nothing
    }
    &&& e != InputEvent::MouseButtonDown(MouseButton::Left) && e != InputEvent::MouseButtonUp(
        MouseButton::Left,
    ) ==> {
        &&& s1 == s0
        &&& r == EventReply::Nothing
    }
}

impl Sprite {
    /// A visible sprite without a handler. The source rectangle given is not
    /// kept: the sprite always shows its whole image.
    #[allow(unused_variables)]
    pub fn new(src: Option<Rect>, dst_: Option<Rect>, tag_: Tag) -> (s: Sprite)
        ensures
            s.src == None::<Rect>,
            s.dst == dst_,
            s.isVisible,
            s.event_func == None::<SpriteHandler>,
            s.tag == tag_,
    {
        Sprite { src: None, dst: dst_, isVisible: true, event_func: None, tag: tag_ }
    }

    #[allow(non_snake_case)]
    pub fn setEventFunc(&mut self, f: SpriteHandler)
        ensures
            *final(self) == (Sprite { event_func: Some(f), ..*old(self) }),
    {
        self.event_func = Some(f);
    }
}

impl BV for Sprite {
    fn is_visible(&self) -> (r: bool)
        ensures
            r == self.isVisible,
    {
        self.isVisible
    }

    /// Whether `p` lies in the sprite's place on screen.
    fn in_bound(&self, p: (i32, i32)) -> (r: bool)
        ensures
            r == (self.dst matches Some(d) && d@.contains(p.0 as int, p.1 as int)),
    {
        match self.dst {
            Some(r) => r.contains_point(p),
            None => false,
        }
    }
}

impl HasTag for Sprite {
    fn tag(&self) -> (r: Tag)
        ensures
            r == self.tag,
    {
        self.tag
    }
}

impl EventHandle for Sprite {
    /// Runs the sprite's handler, if it has one.
    fn on_handle_event(&mut self, e: &InputEvent) -> (r: EventReply)
        ensures
            sprite_reacts(*old(self), *final(self), *e, r),
    {
        let handler = self.event_func;
        let ev = *e;
        match handler {
            Some(SpriteHandler::StartButton) => {
                match ev {
                    InputEvent::MouseButtonDown(MouseButton::Left) => {
                        let nw: u32 = START_W - 10;
                        let nh: u32 = START_H - 4;
                        let n_dst = Rect::new(((W - nw) / 2) as i32, ((H - nh) / 2) as i32, nw, nh);
                        self.dst = Some(n_dst);
                        EventReply::Nothing
                    },
                    InputEvent::MouseButtonUp(MouseButton::Left) => {
                        self.isVisible = false;
                        EventReply::RevealPlayfield
                    },
                    _ => EventReply::Nothing,
                }
            },
            None => EventReply::Nothing,
        }
    }
}

} // verus!
