//! The scene: everything on screen, in drawing order, and the rules that
//! tie its entities together.
//!
//! The scene always starts with the start button, the background and the
//! player's plane, in that order; every later entity is a bullet, an enemy
//! or an enemy bullet. Entities made during a frame wait in a queue and
//! join the scene, last made first, when the frame ends. Bullets and enemies
//! that leave play are hidden, and a hidden one of the right kind is reused
//! before a new one is made.
use vstd::prelude::*;

use crate::chance::{
    enemy_fire_due, enemy_fire_due_spec, enemy_spawn_x, enemy_speed_step, thread_rng_u32,
};
use crate::event::{EventReply, InputEvent, MouseButton};
use crate::layout::{H, START_H, START_W, W};
use crate::plane::{centered_dst, dst_fits, hits, plane_reply, Bullet, Plane, PlaneHandler};
use crate::rect::{Rect, RectView};
use crate::sprite::{
    pressed_button_rect, sprite_reacts, BV, EventHandle, HasTag, Sprite, SpriteHandler, Tag,
};

verus! {

/// Anything in the scene.
#[derive(Clone, Copy, Debug)]
pub enum Actor {
    Sprite(Sprite),
    Plane(Plane),
    Bullet(Bullet),
}

impl Actor {
    pub open spec fn shown(self) -> bool {
        match self {
            Actor::Sprite(s) => s.isVisible,
            Actor::Plane(p) => p.isVisible,
            Actor::Bullet(b) => b.isVisible,
        }
    }

    pub open spec fn kind(self) -> Tag {
        match self {
            Actor::Sprite(s) => s.tag,
            Actor::Plane(p) => p.tag,
            Actor::Bullet(b) => b.tag,
        }
    }

    /// The place on screen.
    pub open spec fn place(self) -> Option<Rect> {
        match self {
            Actor::Sprite(s) => s.dst,
            Actor::Plane(p) => p.dst,
            Actor::Bullet(b) => b.dst,
        }
    }

    /// Whether the entity hears events with the mouse at `p`.
    pub open spec fn reaches(self, p: (i32, i32)) -> bool {
        match self {
            Actor::Sprite(s) => s.dst matches Some(d) && d@.contains(p.0 as int, p.1 as int),
            Actor::Plane(_) => true,
            Actor::Bullet(_) => false,
        }
    }

    /// The position, in whole pixels, of a plane or bullet.
    pub open spec fn pos(self) -> (i32, i32) {
        match self {
            Actor::Sprite(_) => (0i32, 0i32),
            Actor::Plane(p) => (p.px, p.py),
            Actor::Bullet(b) => (b.px, b.py),
        }
    }

    /// The size of a plane or bullet.
    pub open spec fn span(self) -> (u32, u32) {
        match self {
            Actor::Sprite(_) => (0u32, 0u32),
            Actor::Plane(p) => (p.w, p.h),
            Actor::Bullet(b) => (b.w, b.h),
        }
    }

    /// The same entity, shown or hidden.
    pub open spec fn with_visibility(self, v: bool) -> Actor {
        match self {
            Actor::Sprite(s) => Actor::Sprite(Sprite { isVisible: v, ..s }),
            Actor::Plane(p) => Actor::Plane(Plane { isVisible: v, ..p }),
            Actor::Bullet(b) => Actor::Bullet(Bullet { isVisible: v, ..b }),
        }
    }

    /// `a1` is the plane or bullet `a0` centred on `p`, otherwise unchanged.
    pub open spec fn moved(a0: Actor, a1: Actor, p: (i32, i32)) -> bool {
        match (a0, a1) {
            (Actor::Plane(p0), Actor::Plane(p1)) => {
                &&& p1 == Plane { px: p.0, py: p.1, dst: p1.dst, ..p0 }
                &&& p1.dst matches Some(d) && d@ == centered_dst(p.0 as int, p.1 as int, p0.w, p0.h)
            },
            (Actor::Bullet(b0), Actor::Bullet(b1)) => {
                &&& b1 == Bullet { px: p.0, py: p.1, dst: b1.dst, ..b0 }
                &&& b1.dst matches Some(d) && d@ == centered_dst(p.0 as int, p.1 as int, b0.w, b0.h)
            },
            _ => false,
        }
    }

    pub fn dst(&self) -> (r: Option<Rect>)
        ensures
            r == self.place(),
    {
        match self {
            Actor::Sprite(s) => s.dst,
            Actor::Plane(p) => p.dst,
            Actor::Bullet(b) => b.dst,
        }
    }

    pub fn set_visible(&mut self, v: bool)
        ensures
            *final(self) == old(self).with_visibility(v),
    {
        match self {
            Actor::Sprite(s) => s.isVisible = v,
            Actor::Plane(p) => p.isVisible = v,
            Actor::Bullet(b) => b.isVisible = v,
        }
    }
}

impl BV for Actor {
    fn is_visible(&self) -> (r: bool)
        ensures
            r == self.shown(),
    {
        match self {
            Actor::Sprite(s) => s.is_visible(),
            Actor::Plane(p) => p.is_visible(),
            Actor::Bullet(b) => b.is_visible(),
        }
    }

    fn in_bound(&self, p: (i32, i32)) -> (r: bool)
        ensures
            r == self.reaches(p),
    {
        match self {
            Actor::Sprite(s) => s.in_bound(p),
            Actor::Plane(pl) => pl.in_bound(p),
            Actor::Bullet(b) => b.in_bound(p),
        }
    }
}

impl HasTag for Actor {
    fn tag(&self) -> (r: Tag)
        ensures
            r == self.kind(),
    {
        match self {
            Actor::Sprite(s) => s.tag(),
            Actor::Plane(p) => p.tag(),
            Actor::Bullet(b) => b.tag(),
        }
    }
}

impl EventHandle for Actor {
    /// Runs the entity's own handler.
    fn on_handle_event(&mut self, e: &InputEvent) -> (r: EventReply)
        ensures
            match *old(self) {
                Actor::Sprite(s0) => *final(self) matches Actor::Sprite(s1) && sprite_reacts(
                    s0,
                    s1,
                    *e,
                    r,
                ),
                Actor::Plane(p0) => *final(self) == *old(self) && r == plane_reply(p0, *e),
                Actor::Bullet(_) => *final(self) == *old(self) && r == EventReply::Nothing,
            },
    {
        match self {
            Actor::Sprite(s) => s.on_handle_event(e),
            Actor::Plane(p) => p.on_handle_event(e),
            Actor::Bullet(b) => b.on_handle_event(e),
        }
    }
}

/// The kinds that bullets stand for: the player's bullets, enemies and
/// enemy bullets.
pub open spec fn bullet_tag(t: Tag) -> bool {
    t == Tag::PlayerBullet || t == Tag::Enemy || t == Tag::EnemyBullet
}

/// The width of a bullet of kind `t`.
pub open spec fn bullet_w(t: Tag) -> u32 {
    if t == Tag::Enemy {
        59
    } else {
        10
    }
}

/// The height of a bullet of kind `t`.
pub open spec fn bullet_h(t: Tag) -> u32 {
    if t == Tag::Enemy {
        72
    } else {
        16
    }
}

/// The size of the bullets of kind `t`: enemies are 59 by 72, the others
/// 10 by 16.
pub fn bullet_size(t: Tag) -> (r: (u32, u32))
    ensures
        r == (bullet_w(t), bullet_h(t)),
        t == Tag::Enemy ==> r == (59u32, 72u32),
        t != Tag::Enemy ==> r == (10u32, 16u32),
{
    match t {
        Tag::Enemy => (118u32 / 2, 144u32 / 2),
        _ => (10u32, 16u32),
    }
}

/// Enemies are 59 by 72; player bullets and enemy bullets are 10 by 16.
pub proof fn lemma_bullet_sizes()
    ensures
        bullet_w(Tag::Enemy) == 59 && bullet_h(Tag::Enemy) == 72,
        bullet_w(Tag::PlayerBullet) == 10 && bullet_h(Tag::PlayerBullet) == 16,
        bullet_w(Tag::EnemyBullet) == 10 && bullet_h(Tag::EnemyBullet) == 16,
{
}

/// A bullet of a bullet kind, with that kind's size.
pub open spec fn proper_bullet(a: Actor) -> bool {
    a matches Actor::Bullet(b) && bullet_tag(b.tag) && b.w == bullet_w(b.tag) && b.h == bullet_h(
        b.tag,
    )
}

/// Who is where: the start button, the background and the plane lead the
/// scene, with their handlers; everything after them, and everything queued,
/// is a bullet.
pub open spec fn cast_ok(s: Seq<Actor>, q: Seq<Actor>) -> bool {
    &&& s.len() >= 3
    &&& s[0] matches Actor::Sprite(a) && a.tag == Tag::Start && a.event_func == Some(
        SpriteHandler::StartButton,
    )
    &&& s[1] matches Actor::Sprite(b) && b.tag == Tag::Bg && b.event_func == None::<SpriteHandler>
    &&& s[2] matches Actor::Plane(p) && p.tag == Tag::Plane && p.event_func == Some(
        PlaneHandler::FireOnClick,
    )
    &&& forall|i: int| 3 <= i < s.len() ==> proper_bullet(#[trigger] s[i])
    &&& forall|i: int| 0 <= i < q.len() ==> proper_bullet(#[trigger] q[i])
}

/// The start screen and the playfield never show together: the start button
/// shows exactly when the plane does not, and the background exactly when
/// the plane does.
pub open spec fn screens_ok(s: Seq<Actor>) -> bool {
    &&& s[0].shown() == !s[2].shown()
    &&& s[1].shown() == s[2].shown()
}

/// In a well-formed scene the start screen and the playfield never show
/// together.
pub proof fn lemma_screens_exclusive(w: World)
    requires
        w.wf(),
    ensures
        w.actors()[0].shown() != w.actors()[2].shown(),
        w.actors()[1].shown() == w.actors()[2].shown(),
{
}

/// An entity that can be reused for kind `t`: of that kind, and hidden.
pub open spec fn reusable(a: Actor, t: Tag) -> bool {
    a.kind() == t && !a.shown()
}

/// `j` is the first entity of `s` that can be reused for kind `t`.
pub open spec fn first_reusable(s: Seq<Actor>, t: Tag, j: int) -> bool {
    &&& 0 <= j < s.len()
    &&& reusable(s[j], t)
    &&& forall|k: int| 0 <= k < j ==> !reusable(#[trigger] s[k], t)
}

/// No entity of `s` can be reused for kind `t`.
pub open spec fn none_reusable(s: Seq<Actor>, t: Tag) -> bool {
    forall|k: int| 0 <= k < s.len() ==> !reusable(#[trigger] s[k], t)
}

/// The start button at rest, centred in the window.
pub open spec fn start_button_rect() -> RectView {
    RectView::clamped(
        ((W - START_W) / 2) as int,
        ((H - START_H) / 2) as int,
        START_W as int,
        START_H as int,
    )
}

/// The start button as the game begins: showing, at rest, with its handler.
pub open spec fn is_initial_start(s: Sprite) -> bool {
    &&& s.src == None::<Rect>
    &&& s.dst matches Some(d) && d@ == start_button_rect()
    &&& s.isVisible
    &&& s.event_func == Some(SpriteHandler::StartButton)
    &&& s.tag == Tag::Start
}

/// The background as the game begins: hidden, covering the window.
pub open spec fn is_initial_bg(s: Sprite) -> bool {
    &&& s.src == None::<Rect>
    &&& s.dst matches Some(d) && d@ == RectView::clamped(0, 0, W as int, H as int)
    &&& !s.isVisible
    &&& s.event_func == None::<SpriteHandler>
    &&& s.tag == Tag::Bg
}

/// The plane as the game begins: hidden, 31 by 42, in the middle of the
/// window, firing on click.
pub open spec fn is_initial_plane(p: Plane) -> bool {
    &&& p.px == 200 && p.py == 250
    &&& p.w == 31 && p.h == 42
    &&& !p.flip_v
    &&& p.dst matches Some(d) && d@ == centered_dst(200, 250, 31, 42)
    &&& !p.isVisible
    &&& p.event_func == Some(PlaneHandler::FireOnClick)
    &&& p.tag == Tag::Plane
}

/// The start button: 180 by 80 in the middle of the window.
pub fn create_start() -> (s: Sprite)
    ensures
        is_initial_start(s),
{
    let dst = Rect::new(((W - START_W) / 2) as i32, ((H - START_H) / 2) as i32, START_W, START_H);
    let mut start = Sprite::new(None, Some(dst), Tag::Start);
    start.setEventFunc(SpriteHandler::StartButton);
    start
}

/// The background, hidden until the game starts.
pub fn create_bg() -> (s: Sprite)
    ensures
        is_initial_bg(s),
{
    let src = Rect::new(0, 1000, W, H);
    let dst = Rect::new(0, 0, W, H);
    let mut sprite = Sprite::new(Some(src), Some(dst), Tag::Bg);
    sprite.isVisible = false;
    sprite
}

/// The player's plane, hidden until the game starts.
pub fn create_plane_player() -> (p: Plane)
    ensures
        is_initial_plane(p),
{
    let mut plane = Plane::new((W / 2) as i32, (H / 2) as i32, 94u32 / 3u32, 127u32 / 3u32, false, Tag::Plane);
    plane.isVisible = false;
    plane.setEventFunc(PlaneHandler::FireOnClick);
    plane
}

/// Moves everything from `buffer` to the end of `sprites`, taking from the
/// back of `buffer` each time, so that it arrives in reverse order.
pub fn merge_reversed<T>(sprites: &mut Vec<T>, buffer: &mut Vec<T>)
    ensures
        final(sprites)@ == old(sprites)@ + old(buffer)@.reverse(),
        final(buffer)@.len() == 0,
{
    let ghost s0 = sprites@;
    let ghost b0 = buffer@;
    while !buffer.is_empty()
        invariant
            buffer@.len() <= b0.len(),
            buffer@ == b0.subrange(0, buffer@.len() as int),
            sprites@ == s0 + b0.subrange(buffer@.len() as int, b0.len() as int).reverse(),
        decreases buffer@.len(),
    {
        let ghost bl = buffer@.len() as int;
        if let Some(thing) = buffer.pop() {
            sprites.push(thing);
        }
        assert(b0.subrange(bl - 1, b0.len() as int).reverse() =~= b0.subrange(
            bl,
            b0.len() as int,
        ).reverse().push(b0[bl - 1]));
    }
    assert(b0.subrange(0, b0.len() as int) =~= b0);
}

/// Where a bullet came from: a hidden one was reused, or a new one was
/// queued.
#[derive(Clone, Copy, Debug, PartialEq, Eq, Structural)]
pub enum Spawn {
    Reused(usize),
    Queued,
}

/// `b1` is the bullet `b0` brought back into play, shown and centred on `p`.
pub open spec fn relocated(b0: Bullet, b1: Bullet, p: (i32, i32)) -> bool {
    &&& b1 == Bullet { px: p.0, py: p.1, dst: b1.dst, isVisible: true, ..b0 }
    &&& b1.dst matches Some(d) && d@ == centered_dst(p.0 as int, p.1 as int, b0.w, b0.h)
}

/// `b` is a new, showing bullet of kind `t`, centred on `p`.
pub open spec fn fresh_bullet(b: Bullet, p: (i32, i32), t: Tag, flip_v: bool) -> bool {
    &&& b.px == p.0 && b.py == p.1
    &&& b.w == bullet_w(t) && b.h == bullet_h(t)
    &&& b.flip_v == flip_v
    &&& b.src == None::<Rect>
    &&& b.dst matches Some(d) && d@ == centered_dst(p.0 as int, p.1 as int, b.w, b.h)
    &&& b.isVisible
    &&& b.tag == t
}

/// How the scene `s0` with queue `q0` becomes `s1` with queue `q1` when a
/// bullet of kind `t` is wanted: the first hidden one of that kind in the
/// scene comes back at `reuse_at`; if there is none, a new one is queued at
/// `fresh_at`.
pub open spec fn spawned(
    s0: Seq<Actor>,
    q0: Seq<Actor>,
    s1: Seq<Actor>,
    q1: Seq<Actor>,
    t: Tag,
    reuse_at: (i32, i32),
    fresh_at: (i32, i32),
    flip_v: bool,
    res: Spawn,
) -> bool {
    match res {
        Spawn::Reused(j) => {
            &&& first_reusable(s0, t, j as int)
            &&& s1.len() == s0.len()
            &&& s1 == s0.update(j as int, s1[j as int])
            &&& s0[j as int] matches Actor::Bullet(b0) && s1[j as int] matches Actor::Bullet(b1)
                && relocated(b0, b1, reuse_at)
            &&& q1 == q0
        },
        Spawn::Queued => {
            &&& none_reusable(s0, t)
            &&& s1 == s0
            &&& q1.len() == q0.len() + 1
            &&& q1.drop_last() == q0
            &&& q1.last() matches Actor::Bullet(b) && fresh_bullet(b, fresh_at, t, flip_v)
        },
    }
}

/// The column, in whole pixels, in which an enemy appears for `roll`.
pub open spec fn spawn_column(roll: u32) -> i32 {
    (roll % 300 + 50) as i32
}

/// An enemy's column is the roll modulo 300, plus 50: within the
/// 400-pixel window with room to spare on both sides.
pub proof fn lemma_spawn_column(roll: u32)
    ensures
        spawn_column(roll) == roll % 300 + 50,
        50 <= spawn_column(roll) < 350,
{
}

/// What calling up an enemy with the roll `roll` does: a hidden enemy comes
/// back 36 pixels above the window, or a new one is queued 50 pixels above
/// it, in the column `roll` picks.
pub open spec fn enemy_spawned(
    s0: Seq<Actor>,
    q0: Seq<Actor>,
    s1: Seq<Actor>,
    q1: Seq<Actor>,
    roll: u32,
    res: Spawn,
) -> bool {
    spawned(
        s0,
        q0,
        s1,
        q1,
        Tag::Enemy,
        (spawn_column(roll), -36i32),
        (spawn_column(roll), -50i32),
        false,
        res,
    )
}

/// The left button goes down on the showing start button.
pub open spec fn presses(s: Seq<Actor>, e: InputEvent, mouse: (i32, i32)) -> bool {
    e == InputEvent::MouseButtonDown(MouseButton::Left) && s[0].shown() && s[0].reaches(mouse)
}

/// The left button comes up on the showing start button.
pub open spec fn releases(s: Seq<Actor>, e: InputEvent, mouse: (i32, i32)) -> bool {
    e == InputEvent::MouseButtonUp(MouseButton::Left) && s[0].shown() && s[0].reaches(mouse)
}

/// `a1` is the button `a0` moved to its pressed place.
pub open spec fn pressed_from(a0: Sprite, a1: Sprite) -> bool {
    &&& a1 == Sprite { dst: a1.dst, ..a0 }
    &&& a1.dst matches Some(d) && d@ == pressed_button_rect()
}

/// What an event does to the start button, the background and the plane:
/// pressing the start button moves it to its pressed place; releasing it
/// hides it and shows the background and the plane; anything else leaves
/// the three alone.
pub open spec fn front_after_event(
    s0: Seq<Actor>,
    s1: Seq<Actor>,
    e: InputEvent,
    mouse: (i32, i32),
) -> bool {
    &&& presses(s0, e, mouse) ==> {
        &&& s0[0] matches Actor::Sprite(a0) && s1[0] matches Actor::Sprite(a1) && pressed_from(
            a0,
            a1,
        )
        &&& s1[1] == s0[1]
        &&& s1[2] == s0[2]
    }
    &&& releases(s0, e, mouse) ==> {
        &&& s1[0] == s0[0].with_visibility(false)
        &&& s1[1] == s0[1].with_visibility(true)
        &&& s1[2] == s0[2].with_visibility(true)
    }
    &&& !presses(s0, e, mouse) && !releases(s0, e, mouse) ==> {
        &&& s1[0] == s0[0]
        &&& s1[1] == s0[1]
        &&& s1[2] == s0[2]
    }
}

/// The bullet at `k` is a showing player bullet that the attacker at `i`
/// touches.
pub open spec fn struck(s: Seq<Actor>, i: int, k: int) -> bool {
    s[k].shown() && s[k].kind() == Tag::PlayerBullet && hits(s[i].place(), s[k].place())
}

/// The attacker at `i` touches the showing plane.
pub open spec fn crashed(s: Seq<Actor>, i: int) -> bool {
    s[2].shown() && hits(s[i].place(), s[2].place())
}

/// The game ends exactly when the plane shows and the attacker's place
/// overlaps the plane's, whatever kind the attacker is.
pub proof fn lemma_crash_condition(s: Seq<Actor>, i: int)
    ensures
        crashed(s, i) == (s[2].shown() && (s[i].place() matches Some(a) && s[2].place() matches Some(
            p,
        ) && a@.overlaps(p@))),
{
}

/// Some showing player bullet touches the attacker at `i`.
pub open spec fn shot_down(s: Seq<Actor>, i: int) -> bool {
    exists|k: int| 3 <= k < s.len() && #[trigger] struck(s, i, k)
}

/// The scene and the queue of entities made during the current frame.
pub struct World {
    sprites: Vec<Actor>,
    buffer: Vec<Actor>,
}

impl World {
    /// The entities in the scene, in drawing order.
    pub closed spec fn actors(&self) -> Seq<Actor> {
        self.sprites@
    }

    /// The entities made during this frame, oldest first.
    pub closed spec fn queued(&self) -> Seq<Actor> {
        self.buffer@
    }

    pub open spec fn wf(&self) -> bool {
        &&& cast_ok(self.actors(), self.queued())
        &&& screens_ok(self.actors())
    }

    /// The scene as the game begins: the start button, the background and
    /// the plane, with nothing queued.
    pub fn new() -> (w: World)
        ensures
            w.wf(),
            w.actors().len() == 3,
            w.actors()[0] matches Actor::Sprite(s) && is_initial_start(s),
            w.actors()[1] matches Actor::Sprite(s) && is_initial_bg(s),
            w.actors()[2] matches Actor::Plane(p) && is_initial_plane(p),
            w.queued().len() == 0,
    {
        let mut sprites: Vec<Actor> = Vec::new();
        sprites.push(Actor::Sprite(create_start()));
        sprites.push(Actor::Sprite(create_bg()));
        sprites.push(Actor::Plane(create_plane_player()));
        World { sprites, buffer: Vec::new() }
    }

    pub fn len(&self) -> (n: usize)
        ensures
            n == self.actors().len(),
    {
        self.sprites.len()
    }

    pub fn queued_len(&self) -> (n: usize)
        ensures
            n == self.queued().len(),
    {
        self.buffer.len()
    }

    pub fn actor(&self, i: usize) -> (a: Actor)
        requires
            i < self.actors().len(),
        ensures
            a == self.actors()[i as int],
    {
        self.sprites[i]
    }

    pub fn queued_actor(&self, i: usize) -> (a: Actor)
        requires
            i < self.queued().len(),
        ensures
            a == self.queued()[i as int],
    {
        self.buffer[i]
    }

    pub fn is_visible(&self, i: usize) -> (r: bool)
        requires
            i < self.actors().len(),
        ensures
            r == self.actors()[i as int].shown(),
    {
        self.sprites[i].is_visible()
    }

    pub fn tag(&self, i: usize) -> (r: Tag)
        requires
            i < self.actors().len(),
        ensures
            r == self.actors()[i as int].kind(),
    {
        self.sprites[i].tag()
    }

    /// The first hidden entity of kind `t` in the scene; the queue is not
    /// searched.
    pub fn find_reusable(&self, t: Tag) -> (r: Option<usize>)
        ensures
            r matches Some(j) ==> first_reusable(self.actors(), t, j as int),
            r is None ==> none_reusable(self.actors(), t),
    {
        let n = self.sprites.len();
        let mut i: usize = 0;
        while i < n
            invariant
                n == self.actors().len(),
                i <= n,
                forall|k: int| 0 <= k < i ==> !reusable(#[trigger] self.actors()[k], t),
            decreases n - i,
        {
            let a = self.sprites[i];
            if a.tag() == t && !a.is_visible() {
                return Some(i);
            }
            i += 1;
        }
        None
    }
    fn set_visible(&mut self, k: usize, v: bool)
        requires
            k < old(self).actors().len(),
        ensures
            final(self).actors() == old(self).actors().update(
                k as int,
                old(self).actors()[k as int].with_visibility(v),
            ),
            final(self).queued() == old(self).queued(),
    {
        let mut a = self.sprites[k];
        a.set_visible(v);
        self.sprites.set(k, a);
    }

    /// Brings back the first hidden bullet of kind `t` at `reuse_at`, or
    /// queues a new one at `fresh_at`.
    fn spawn(&mut self, t: Tag, reuse_at: (i32, i32), fresh_at: (i32, i32), flip_v: bool) -> (res:
        Spawn)
        requires
            old(self).wf(),
            bullet_tag(t),
            dst_fits(reuse_at.0 as int, reuse_at.1 as int, bullet_w(t), bullet_h(t)),
            dst_fits(fresh_at.0 as int, fresh_at.1 as int, bullet_w(t), bullet_h(t)),
        ensures
            final(self).wf(),
            spawned(
                old(self).actors(),
                old(self).queued(),
                final(self).actors(),
                final(self).queued(),
                t,
                reuse_at,
                fresh_at,
                flip_v,
                res,
            ),
    {
        let (w, h) = bullet_size(t);
        match self.find_reusable(t) {
            Some(j) => {
                let a = self.sprites[j];
                match a {
                    Actor::Bullet(b0) => {
                        let mut b = b0;
                        b.set_pos(reuse_at);
                        b.isVisible = true;
                        self.sprites.set(j, Actor::Bullet(b));
                        assert(self.actors() =~= old(self).actors().update(j as int, self.actors()[j as int]));
                        Spawn::Reused(j)
                    },
                    _ => Spawn::Reused(j),
                }
            },
            None => {
                let b = Bullet::new(fresh_at.0, fresh_at.1, w, h, flip_v, t);
                self.buffer.push(Actor::Bullet(b));
                assert(self.queued().drop_last() =~= old(self).queued());
                Spawn::Queued
            },
        }
    }

    /// The plane shoots: a hidden player bullet comes back at `reuse_at`,
    /// or a new one is queued at `fresh_at`.
    pub fn fire_player_bullet(&mut self, reuse_at: (i32, i32), fresh_at: (i32, i32)) -> (res:
        Spawn)
        requires
            old(self).wf(),
            dst_fits(reuse_at.0 as int, reuse_at.1 as int, 10, 16),
            dst_fits(fresh_at.0 as int, fresh_at.1 as int, 10, 16),
        ensures
            final(self).wf(),
            spawned(
                old(self).actors(),
                old(self).queued(),
                final(self).actors(),
                final(self).queued(),
                Tag::PlayerBullet,
                reuse_at,
                fresh_at,
                false,
                res,
            ),
            res == Spawn::Queued ==> (final(self).queued().last() matches Actor::Bullet(b) && b.w
                == 10 && b.h == 16 && (b.px, b.py) == fresh_at),
            res matches Spawn::Reused(j) ==> final(self).actors()[j as int] matches Actor::Bullet(b)
                && b.w == 10 && b.h == 16 && (b.px, b.py) == reuse_at,
    {
        self.spawn(Tag::PlayerBullet, reuse_at, fresh_at, false)
    }

    /// An enemy shoots: a hidden enemy bullet comes back at `reuse_at`, or a
    /// new one is queued at `fresh_at`. Enemy bullets are drawn upside down.
    pub fn fire_enemy_bullet(&mut self, reuse_at: (i32, i32), fresh_at: (i32, i32)) -> (res:
        Spawn)
        requires
            old(self).wf(),
            dst_fits(reuse_at.0 as int, reuse_at.1 as int, 10, 16),
            dst_fits(fresh_at.0 as int, fresh_at.1 as int, 10, 16),
        ensures
            final(self).wf(),
            spawned(
                old(self).actors(),
                old(self).queued(),
                final(self).actors(),
                final(self).queued(),
                Tag::EnemyBullet,
                reuse_at,
                fresh_at,
                true,
                res,
            ),
            res == Spawn::Queued ==> (final(self).queued().last() matches Actor::Bullet(b) && b.w
                == 10 && b.h == 16 && (b.px, b.py) == fresh_at),
            res matches Spawn::Reused(j) ==> final(self).actors()[j as int] matches Actor::Bullet(b)
                && b.w == 10 && b.h == 16 && (b.px, b.py) == reuse_at,
    {
        self.spawn(Tag::EnemyBullet, reuse_at, fresh_at, true)
    }

    /// Calls up an enemy in the column that `x_roll` picks.
    pub fn spawn_enemy(&mut self, x_roll: u32) -> (res: Spawn)
        requires
            old(self).wf(),
        ensures
            final(self).wf(),
            enemy_spawned(
                old(self).actors(),
                old(self).queued(),
                final(self).actors(),
                final(self).queued(),
                x_roll,
                res,
            ),
            res == Spawn::Queued ==> (final(self).queued().last() matches Actor::Bullet(b) && b.px
                == (x_roll % 300 + 50) as i32 && b.py == -50 && b.w == 59 && b.h == 72),
            res matches Spawn::Reused(j) ==> final(self).actors()[j as int] matches Actor::Bullet(b)
                && b.px == (x_roll % 300 + 50) as i32 && b.py == -36 && b.w == 59 && b.h == 72,
    {
        let x = enemy_spawn_x(x_roll) as i32;
        self.spawn(Tag::Enemy, (x, -36), (x, -50), false)
    }

    /// Calls up an enemy in a random column. A new enemy also gets a random
    /// speed step (see `enemy_speed_step`); a reused one keeps its speed.
    pub fn spawn_enemy_at_random(&mut self) -> (res: (Spawn, Option<u32>))
        requires
            old(self).wf(),
        ensures
            final(self).wf(),
            exists|roll: u32|
                #[trigger] enemy_spawned(
                    old(self).actors(),
                    old(self).queued(),
                    final(self).actors(),
                    final(self).queued(),
                    roll,
                    res.0,
                ),
            res.0 == Spawn::Queued ==> (final(self).queued().last() matches Actor::Bullet(b) && 50
                <= b.px < 350 && b.py == -50 && b.w == 59 && b.h == 72),
            res.0 matches Spawn::Reused(j) ==> final(self).actors()[j as int] matches Actor::Bullet(b)
                && 50 <= b.px < 350 && b.py == -36 && b.w == 59 && b.h == 72,
            res.1 is Some <==> res.0 is Queued,
            res.1 matches Some(step) ==> 5 <= step < 35,
    {
        let x_roll = thread_rng_u32();
        let spawn = self.spawn_enemy(x_roll);
        let step = match spawn {
            Spawn::Queued => Some(enemy_speed_step(thread_rng_u32())),
            Spawn::Reused(_) => None,
        };
        (spawn, step)
    }

    /// Whether an enemy shoots this frame: never while the plane is hidden,
    /// otherwise one roll in a hundred.
    pub fn enemy_fires(&self) -> (r: bool)
        requires
            self.wf(),
        ensures
            r ==> self.actors()[2].shown(),
    {
        if self.sprites[2].is_visible() {
            self.enemy_fires_with_roll(thread_rng_u32())
        } else {
            false
        }
    }

    /// Whether an enemy shoots this frame, given the roll: exactly when the
    /// plane shows and the roll is a multiple of a hundred.
    pub fn enemy_fires_with_roll(&self, roll: u32) -> (r: bool)
        requires
            self.wf(),
        ensures
            r == (self.actors()[2].shown() && roll % 100 == 0),
            r == enemy_fire_due_spec(self.actors()[2].shown(), roll),
    {
        enemy_fire_due(self.sprites[2].is_visible(), roll)
    }

    /// Takes the bullet at `i` out of play (hides it): it left the window.
    pub fn retire(&mut self, i: usize)
        requires
            old(self).wf(),
            3 <= i < old(self).actors().len(),
        ensures
            final(self).wf(),
            final(self).actors() == old(self).actors().update(
                i as int,
                old(self).actors()[i as int].with_visibility(false),
            ),
            final(self).queued() == old(self).queued(),
    {
        self.set_visible(i, false);
    }

    /// Centres the plane or bullet at `i` on `p`.
    pub fn move_to(&mut self, i: usize, p: (i32, i32))
        requires
            old(self).wf(),
            2 <= i < old(self).actors().len(),
            dst_fits(
                p.0 as int,
                p.1 as int,
                old(self).actors()[i as int].span().0,
                old(self).actors()[i as int].span().1,
            ),
        ensures
            final(self).wf(),
            final(self).actors().len() == old(self).actors().len(),
            final(self).actors() == old(self).actors().update(i as int, final(self).actors()[i as int]),
            Actor::moved(old(self).actors()[i as int], final(self).actors()[i as int], p),
            final(self).queued() == old(self).queued(),
    {
        let a = self.sprites[i];
        match a {
            Actor::Plane(p0) => {
                let mut pl = p0;
                pl.set_pos(p);
                self.sprites.set(i, Actor::Plane(pl));
            },
            Actor::Bullet(b0) => {
                let mut b = b0;
                b.set_pos(p);
                self.sprites.set(i, Actor::Bullet(b));
            },
            Actor::Sprite(_) => {},
        }
    }

    /// Moves the bullet at `i` up or down to the row `y`.
    pub fn set_y(&mut self, i: usize, y: i32)
        requires
            old(self).wf(),
            3 <= i < old(self).actors().len(),
            dst_fits(
                old(self).actors()[i as int].pos().0 as int,
                y as int,
                old(self).actors()[i as int].span().0,
                old(self).actors()[i as int].span().1,
            ),
        ensures
            final(self).wf(),
            final(self).actors().len() == old(self).actors().len(),
            final(self).actors() == old(self).actors().update(i as int, final(self).actors()[i as int]),
            Actor::moved(
                old(self).actors()[i as int],
                final(self).actors()[i as int],
                (old(self).actors()[i as int].pos().0, y),
            ),
            final(self).queued() == old(self).queued(),
    {
        let a = self.sprites[i];
        match a {
            Actor::Bullet(b0) => {
                let mut b = b0;
                b.set_y(y);
                self.sprites.set(i, Actor::Bullet(b));
            },
            _ => {},
        }
    }
    /// Shows every background and plane in the scene.
    fn reveal_playfield(&mut self)
        requires
            cast_ok(old(self).actors(), old(self).queued()),
        ensures
            final(self).actors() == old(self).actors().update(
                1,
                old(self).actors()[1].with_visibility(true),
            ).update(2, old(self).actors()[2].with_visibility(true)),
            final(self).queued() == old(self).queued(),
    {
        let ghost s0 = self.actors();
        let n = self.sprites.len();
        let mut k: usize = 0;
        while k < n
            invariant
                n == s0.len(),
                cast_ok(s0, self.queued()),
                self.queued() == old(self).queued(),
                s0 == old(self).actors(),
                k <= n,
                self.actors().len() == n,
                forall|m: int|
                    0 <= m < n ==> #[trigger] self.actors()[m] == if m < k && (m == 1 || m == 2) {
                        s0[m].with_visibility(true)
                    } else {
                        s0[m]
                    },
            decreases n - k,
        {
            let t = self.sprites[k].tag();
            match t {
                Tag::Bg => self.set_visible(k, true),
                Tag::Plane => self.set_visible(k, true),
                _ => {},
            }
            k += 1;
        }
        assert(self.actors() =~= s0.update(1, s0[1].with_visibility(true)).update(
            2,
            s0[2].with_visibility(true),
        ));
    }

    /// Hands the event to every showing entity that hears it at `mouse`, in
    /// drawing order, and carries out what the handlers ask. Returns whether
    /// the plane asked for a bullet; the caller then fires it.
    pub fn handle_event(&mut self, e: &InputEvent, mouse: (i32, i32)) -> (fire: bool)
        requires
            old(self).wf(),
        ensures
            final(self).wf(),
            final(self).queued() == old(self).queued(),
            final(self).actors().len() == old(self).actors().len(),
            fire == (*e == InputEvent::MouseButtonDown(MouseButton::Left)
                && old(self).actors()[2].shown()),
            front_after_event(old(self).actors(), final(self).actors(), *e, mouse),
            forall|k: int|
                3 <= k < old(self).actors().len() ==> #[trigger] final(self).actors()[k]
                    == old(self).actors()[k],
    {
        let ghost s0 = self.actors();
        let n = self.sprites.len();
        let mut fire = false;
        let mut i: usize = 0;
        while i < n
            invariant
                n == s0.len(),
                s0 == old(self).actors(),
                cast_ok(s0, old(self).queued()),
                screens_ok(s0),
                self.queued() == old(self).queued(),
                self.actors().len() == n,
                i <= n,
                cast_ok(self.actors(), self.queued()),
                forall|k: int| 3 <= k < n ==> #[trigger] self.actors()[k] == s0[k],
                i == 0 ==> self.actors() == s0,
                i >= 1 ==> front_after_event(s0, self.actors(), *e, mouse),
                fire == (i > 2 && *e == InputEvent::MouseButtonDown(MouseButton::Left)
                    && s0[2].shown()),
            decreases n - i,
        {
            let a = self.sprites[i];
            if a.is_visible() && a.in_bound(mouse) {
                let mut a2 = a;
                let reply = a2.on_handle_event(e);
                self.sprites.set(i, a2);
                match reply {
                    EventReply::RevealPlayfield => self.reveal_playfield(),
                    EventReply::FirePlayerBullet => fire = true,
                    EventReply::Nothing => {},
                }
            }
            i += 1;
        }
        fire
    }
    /// The enemy or enemy bullet at `i` checks what it touches. Every showing
    /// player bullet it touches is spent, and then so is the attacker; if it
    /// touches the showing plane, the game is over: the plane and the
    /// background hide and the start button shows again.
    pub fn strike(&mut self, i: usize)
        requires
            old(self).wf(),
            3 <= i < old(self).actors().len(),
            old(self).actors()[i as int].kind() == Tag::Enemy || old(self).actors()[i as int].kind()
                == Tag::EnemyBullet,
        ensures
            final(self).wf(),
            final(self).queued() == old(self).queued(),
            final(self).actors().len() == old(self).actors().len(),
            forall|k: int|
                3 <= k < old(self).actors().len() && k != i ==> #[trigger] final(self).actors()[k]
                    == if struck(old(self).actors(), i as int, k) {
                    old(self).actors()[k].with_visibility(false)
                } else {
                    old(self).actors()[k]
                },
            final(self).actors()[i as int] == old(self).actors()[i as int].with_visibility(
                old(self).actors()[i as int].shown() && !shot_down(old(self).actors(), i as int),
            ),
            final(self).actors()[2] == old(self).actors()[2].with_visibility(
                old(self).actors()[2].shown() && !crashed(old(self).actors(), i as int),
            ),
            final(self).actors()[0] == old(self).actors()[0].with_visibility(
                old(self).actors()[0].shown() || crashed(old(self).actors(), i as int),
            ),
            final(self).actors()[1] == old(self).actors()[1].with_visibility(
                old(self).actors()[1].shown() && !crashed(old(self).actors(), i as int),
            ),
            old(self).actors()[2].shown() && hits(
                old(self).actors()[i as int].place(),
                old(self).actors()[2].place(),
            ) ==> {
                &&& !final(self).actors()[2].shown()
                &&& !final(self).actors()[1].shown()
                &&& final(self).actors()[0].shown()
            },
            old(self).actors()[2].shown() && !hits(
                old(self).actors()[i as int].place(),
                old(self).actors()[2].place(),
            ) ==> {
                &&& final(self).actors()[2].shown()
                &&& final(self).actors()[1].shown()
                &&& !final(self).actors()[0].shown()
            },
    {
        let ghost s0 = self.actors();
        let n = self.sprites.len();
        let a = self.sprites[i];
        if let Actor::Bullet(attacker) = a {
            let ghost mut hit_any = false;
            let mut k: usize = 0;
            while k < n
                invariant
                    n == s0.len(),
                    s0 == old(self).actors(),
                    cast_ok(s0, old(self).queued()),
                    screens_ok(s0),
                    3 <= i < n,
                    s0[i as int] == Actor::Bullet(attacker),
                    attacker.tag == Tag::Enemy || attacker.tag == Tag::EnemyBullet,
                    self.queued() == old(self).queued(),
                    self.actors().len() == n,
                    k <= n,
                    hit_any == exists|m: int| 3 <= m < k && #[trigger] struck(s0, i as int, m),
                    forall|m: int|
                        3 <= m < n && m != i ==> #[trigger] self.actors()[m] == if m < k && struck(
                            s0,
                            i as int,
                            m,
                        ) {
                            s0[m].with_visibility(false)
                        } else {
                            s0[m]
                        },
                    self.actors()[i as int] == s0[i as int].with_visibility(
                        s0[i as int].shown() && !hit_any,
                    ),
                    self.actors()[2] == s0[2].with_visibility(
                        s0[2].shown() && !(k > 2 && crashed(s0, i as int)),
                    ),
                    self.actors()[0] == s0[0].with_visibility(
                        s0[0].shown() || (k > 2 && crashed(s0, i as int)),
                    ),
                    self.actors()[1] == s0[1].with_visibility(
                        s0[1].shown() && !(k > 2 && crashed(s0, i as int)),
                    ),
                decreases n - k,
            {
                let it = self.sprites[k];
                if it.is_visible() {
                    if it.tag() == Tag::PlayerBullet {
                        if attacker.intersection(&it.dst()) {
                            self.set_visible(k, false);
                            self.set_visible(i, false);
                            proof {
                                assert(struck(s0, i as int, k as int));
                                hit_any = true;
                            }
                        }
                    } else if it.tag() == Tag::Plane {
                        if attacker.intersection(&it.dst()) {
                            self.set_visible(k, false);
                            self.set_visible(0, true);
                            self.set_visible(1, false);
                        }
                    }
                }
                k += 1;
            }
        }
    }

    /// Ends the frame: the queued entities join the scene, last made first.
    pub fn merge_buffer(&mut self)
        requires
            old(self).wf(),
        ensures
            final(self).wf(),
            final(self).actors() == old(self).actors() + old(self).queued().reverse(),
            final(self).queued().len() == 0,
    {
        merge_reversed(&mut self.sprites, &mut self.buffer);
    }
}

} // verus!
