//! The player's plane and the bullets (which include the enemies): things
//! that move and whose place on screen is a rectangle centred on their
//! position.
//!
//! A position is kept in whole pixels, as the screen rectangle is computed
//! from it: `px` and `py` are the position truncated to integers.
use vstd::prelude::*;

use crate::event::{EventReply, InputEvent, MouseButton};
use crate::rect::{Rect, RectView, MAX_INT_VALUE, MIN_INT_VALUE};
use crate::sprite::{BV, EventHandle, HasTag, Tag};

verus! {

/// The place on screen of a `w` by `h` entity whose centre is at `(px, py)`.
pub open spec fn centered_dst(px: int, py: int, w: u32, h: u32) -> RectView {
    RectView::clamped(px - w / 2, py - h / 2, w as int, h as int)
}

/// The top-left corner of the entity is an `i32`.
pub open spec fn dst_fits(px: int, py: int, w: u32, h: u32) -> bool {
    px - w / 2 >= i32::MIN && py - h / 2 >= i32::MIN
}

/// The place on screen of a `w` by `h` entity centred on `(px, py)`.
pub fn centered_rect(px: i32, py: i32, w: u32, h: u32) -> (r: Rect)
    requires
        dst_fits(px as int, py as int, w, h),
    ensures
        r@ == centered_dst(px as int, py as int, w, h),
{
    Rect::new(px - (w / 2) as i32, py - (h / 2) as i32, w, h)
}

/// The click behaviours a plane can be given.
#[derive(Clone, Copy, Debug, PartialEq, Eq, Structural)]
pub enum PlaneHandler {
    /// Asks for a bullet when the left button goes down while the plane shows.
    FireOnClick,
}

/// The player's plane.
#[allow(non_snake_case)]
#[derive(Clone, Copy, Debug)]
pub struct Plane {
    pub px: i32,
    pub py: i32,
    pub h: u32,
    pub w: u32,
    pub flip_v: bool,
    pub dst: Option<Rect>,
    pub isVisible: bool,
    pub event_func: Option<PlaneHandler>,
    pub tag: Tag,
}

/// What a plane's handler answers: a bullet when it fires on click, shows,
/// and the left button went down.
pub open spec fn plane_reply(p: Plane, e: InputEvent) -> EventReply {
    if p.event_func == Some(PlaneHandler::FireOnClick) && e == InputEvent::MouseButtonDown(
        MouseButton::Left,
    ) && p.isVisible {
        EventReply::FirePlayerBullet
    } else {
        EventReply::Nothing
    }
}

impl Plane {
    /// A visible plane without a handler, centred on `(x_, y_)`.
    pub fn new(x_: i32, y_: i32, w_: u32, h_: u32, flip_v_: bool, tag_: Tag) -> (p: Plane)
        requires
            dst_fits(x_ as int, y_ as int, w_, h_),
        ensures
            p.px == x_,
            p.py == y_,
            p.w == w_,
            p.h == h_,
            p.flip_v == flip_v_,
            p.dst matches Some(d) && d@ == centered_dst(x_ as int, y_ as int, w_, h_),
            p.isVisible,
            p.event_func == None::<PlaneHandler>,
            p.tag == tag_,
    {
        let mut p = Plane {
            px: x_,
            py: y_,
            w: w_,
            h: h_,
            flip_v: flip_v_,
            dst: None,
            isVisible: true,
            event_func: None,
            tag: tag_,
        };
        p.calc_dst();
        p
    }

    /// Places `dst` around the current position.
    pub fn calc_dst(&mut self)
        requires
            dst_fits(old(self).px as int, old(self).py as int, old(self).w, old(self).h),
        ensures
            *final(self) == (Plane { dst: final(self).dst, ..*old(self) }),
            final(self).dst matches Some(d) && d@ == centered_dst(
                old(self).px as int,
                old(self).py as int,
                old(self).w,
                old(self).h,
            ),
    {
        self.dst = Some(centered_rect(self.px, self.py, self.w, self.h));
    }

    /// Moves the plane so that it is centred on `p`.
    pub fn set_pos(&mut self, p: (i32, i32))
        requires
            dst_fits(p.0 as int, p.1 as int, old(self).w, old(self).h),
        ensures
            *final(self) == (Plane { px: p.0, py: p.1, dst: final(self).dst, ..*old(self) }),
            final(self).dst matches Some(d) && d@ == centered_dst(
                p.0 as int,
                p.1 as int,
                old(self).w,
                old(self).h,
            ),
    {
        self.px = p.0;
        self.py = p.1;
        self.calc_dst();
    }

    #[allow(non_snake_case)]
    pub fn setEventFunc(&mut self, f: PlaneHandler)
        ensures
            *final(self) == (Plane { event_func: Some(f), ..*old(self) }),
    {
        self.event_func = Some(f);
    }
}

impl BV for Plane {
    fn is_visible(&self) -> (r: bool)
        ensures
            r == self.isVisible,
    {
        self.isVisible
    }

    /// The plane hears every event, wherever the mouse is.
    fn in_bound(&self, p: (i32, i32)) -> (r: bool)
        ensures
            r,
    {
        true
    }
}

impl HasTag for Plane {
    fn tag(&self) -> (r: Tag)
        ensures
            r == self.tag,
    {
        self.tag
    }
}

impl EventHandle for Plane {
    /// Runs the plane's handler, if it has one. The plane itself does not
    /// change.
    fn on_handle_event(&mut self, e: &InputEvent) -> (r: EventReply)
        ensures
            *final(self) == *old(self),
            r == plane_reply(*old(self), *e),
    {
        let handler = self.event_func;
        let ev = *e;
        match handler {
            Some(PlaneHandler::FireOnClick) => {
                match ev {
                    InputEvent::MouseButtonDown(button) => {
                        if self.isVisible {
                            match button {
                                MouseButton::Left => {
                                    assert(old(self).event_func == Some(PlaneHandler::FireOnClick));
                                    EventReply::FirePlayerBullet
                                },
                                _ => EventReply::Nothing,
                            }
                        } else {
                            EventReply::Nothing
                        }
                    },
                    _ => EventReply::Nothing,
                }
            },
            None => EventReply::Nothing,
        }
    }
}

/// Two optional rectangles that are both there and overlap.
pub open spec fn hits(a: Option<Rect>, b: Option<Rect>) -> bool {
    a matches Some(x) && b matches Some(y) && x@.overlaps(y@)
}

/// Whether two bullets or planes touch does not depend on which one asks.
pub proof fn lemma_hits_symmetric(a: Option<Rect>, b: Option<Rect>)
    ensures
        hits(a, b) == hits(b, a),
{
}

/// An entity's place on screen covers its own position, as long as nothing
/// had to be clamped.
pub proof fn lemma_dst_covers_position(px: int, py: int, w: u32, h: u32)
    requires
        1 <= w <= MAX_INT_VALUE,
        1 <= h <= MAX_INT_VALUE,
        MIN_INT_VALUE <= px - w / 2 <= MAX_INT_VALUE,
        MIN_INT_VALUE <= py - h / 2 <= MAX_INT_VALUE,
    ensures
        centered_dst(px, py, w, h).contains(px, py),
{
}

/// A moving thing: the player's bullets, the enemies and their bullets.
#[allow(non_snake_case)]
#[derive(Clone, Copy, Debug)]
pub struct Bullet {
    pub px: i32,
    pub py: i32,
    pub h: u32,
    pub w: u32,
    pub flip_v: bool,
    pub src: Option<Rect>,
    pub dst: Option<Rect>,
    pub isVisible: bool,
    pub tag: Tag,
}

impl Bullet {
    /// A visible bullet centred on `(x_, y_)`, showing its whole image.
    pub fn new(x_: i32, y_: i32, w_: u32, h_: u32, flip_v_: bool, tag_: Tag) -> (b: Bullet)
        requires
            dst_fits(x_ as int, y_ as int, w_, h_),
        ensures
            b.px == x_,
            b.py == y_,
            b.w == w_,
            b.h == h_,
            b.flip_v == flip_v_,
            b.src == None::<Rect>,
            b.dst matches Some(d) && d@ == centered_dst(x_ as int, y_ as int, w_, h_),
            b.isVisible,
            b.tag == tag_,
    {
        let mut b = Bullet {
            px: x_,
            py: y_,
            w: w_,
            h: h_,
            flip_v: flip_v_,
            src: None,
            dst: None,
            isVisible: true,
            tag: tag_,
        };
        b.calc_dst();
        b
    }

    /// Places `dst` around the current position.
    pub fn calc_dst(&mut self)
        requires
            dst_fits(old(self).px as int, old(self).py as int, old(self).w, old(self).h),
        ensures
            *final(self) == (Bullet { dst: final(self).dst, ..*old(self) }),
            final(self).dst matches Some(d) && d@ == centered_dst(
                old(self).px as int,
                old(self).py as int,
                old(self).w,
                old(self).h,
            ),
    {
        self.dst = Some(centered_rect(self.px, self.py, self.w, self.h));
    }

    /// Moves the bullet so that it is centred on `p`.
    pub fn set_pos(&mut self, p: (i32, i32))
        requires
            dst_fits(p.0 as int, p.1 as int, old(self).w, old(self).h),
        ensures
            *final(self) == (Bullet { px: p.0, py: p.1, dst: final(self).dst, ..*old(self) }),
            final(self).dst matches Some(d) && d@ == centered_dst(
                p.0 as int,
                p.1 as int,
                old(self).w,
                old(self).h,
            ),
    {
        self.px = p.0;
        self.py = p.1;
        self.calc_dst();
    }

    /// Moves the bullet to `(p.0, p.1)` and gives it the size `p.2` by `p.3`.
    pub fn set_dst(&mut self, p: (i32, i32, u32, u32))
        requires
            dst_fits(p.0 as int, p.1 as int, p.2, p.3),
        ensures
            *final(self) == (Bullet {
                px: p.0,
                py: p.1,
                w: p.2,
                h: p.3,
                dst: final(self).dst,
                ..*old(self)
            }),
            final(self).dst matches Some(d) && d@ == centered_dst(
                p.0 as int,
                p.1 as int,
                p.2,
                p.3,
            ),
    {
        self.px = p.0;
        self.py = p.1;
        self.w = p.2;
        self.h = p.3;
        self.calc_dst();
    }

    /// Moves the bullet up or down to the row `y_`.
    pub fn set_y(&mut self, y_: i32)
        requires
            dst_fits(old(self).px as int, y_ as int, old(self).w, old(self).h),
        ensures
            *final(self) == (Bullet { py: y_, dst: final(self).dst, ..*old(self) }),
            final(self).dst matches Some(d) && d@ == centered_dst(
                old(self).px as int,
                y_ as int,
                old(self).w,
                old(self).h,
            ),
    {
        self.py = y_;
        self.calc_dst();
    }

    /// Whether the bullet's place on screen overlaps `ortho`; false where
    /// either is missing.
    pub fn intersection(&self, ortho: &Option<Rect>) -> (res: bool)
        ensures
            res == hits(self.dst, *ortho),
    {
        let mut res = false;
        if let Some(r) = self.dst {
            if let Some(ortho_r) = *ortho {
                res = r.has_intersection(ortho_r);
            }
        }
        res
    }
}

impl BV for Bullet {
    fn is_visible(&self) -> (r: bool)
        ensures
            r == self.isVisible,
    {
        self.isVisible
    }

    /// Bullets hear no event.
    fn in_bound(&self, p: (i32, i32)) -> (r: bool)
        ensures
            !r,
    {
        false
    }
}

impl HasTag for Bullet {
    fn tag(&self) -> (r: Tag)
        ensures
            r == self.tag,
    {
        self.tag
    }
}

impl EventHandle for Bullet {
    /// Bullets ignore events.
    fn on_handle_event(&mut self, e: &InputEvent) -> (r: EventReply)
        ensures
            *final(self) == *old(self),
            r == EventReply::Nothing,
    {
        EventReply::Nothing
    }
}

} // verus!
