use sdl_test::event::{EventReply, InputEvent, Key, MouseButton};
use sdl_test::plane::{centered_rect, Bullet, Plane, PlaneHandler};
use sdl_test::rect::Rect;
use sdl_test::sprite::{EventHandle, HasTag, Sprite, SpriteHandler, Tag, BV};

#[test]
fn centered_rect_puts_position_in_the_middle() {
    let r = centered_rect(200, 250, 31, 42);
    assert_eq!((r.x(), r.y(), r.width(), r.height()), (185, 229, 31, 42));
    assert!(r.contains_point((200, 250)));
}

#[test]
fn plane_new_computes_dst() {
    let p = Plane::new(200, 250, 31, 42, false, Tag::Plane);
    assert_eq!(p.dst, Some(Rect::new(185, 229, 31, 42)));
    assert!(p.isVisible);
    assert_eq!(p.event_func, None);
    assert_eq!(p.tag(), Tag::Plane);
}

#[test]
fn plane_set_pos_moves_dst() {
    let mut p = Plane::new(0, 0, 10, 10, false, Tag::Plane);
    p.set_pos((100, -20));
    assert_eq!((p.px, p.py), (100, -20));
    assert_eq!(p.dst, Some(Rect::new(95, -25, 10, 10)));
}

#[test]
fn plane_hears_every_point() {
    let p = Plane::new(0, 0, 10, 10, false, Tag::Plane);
    assert!(p.in_bound((-1000, 1000)));
}

#[test]
fn plane_fires_only_on_left_down_while_visible() {
    let mut p = Plane::new(0, 0, 10, 10, false, Tag::Plane);
    assert_eq!(p.on_handle_event(&InputEvent::MouseButtonDown(MouseButton::Left)), EventReply::Nothing);
    p.setEventFunc(PlaneHandler::FireOnClick);
    assert_eq!(
        p.on_handle_event(&InputEvent::MouseButtonDown(MouseButton::Left)),
        EventReply::FirePlayerBullet
    );
    assert_eq!(p.on_handle_event(&InputEvent::MouseButtonDown(MouseButton::Right)), EventReply::Nothing);
    assert_eq!(p.on_handle_event(&InputEvent::MouseButtonUp(MouseButton::Left)), EventReply::Nothing);
    p.isVisible = false;
    assert_eq!(p.on_handle_event(&InputEvent::MouseButtonDown(MouseButton::Left)), EventReply::Nothing);
}

#[test]
fn bullet_moves_and_resizes() {
    let mut b = Bullet::new(50, 60, 10, 16, false, Tag::PlayerBullet);
    assert_eq!(b.dst, Some(Rect::new(45, 52, 10, 16)));
    assert_eq!(b.src, None);
    b.set_y(30);
    assert_eq!((b.px, b.py), (50, 30));
    assert_eq!(b.dst, Some(Rect::new(45, 22, 10, 16)));
    b.set_pos((0, 0));
    assert_eq!(b.dst, Some(Rect::new(-5, -8, 10, 16)));
    b.set_dst((10, 10, 4, 6));
    assert_eq!((b.w, b.h), (4, 6));
    assert_eq!(b.dst, Some(Rect::new(8, 7, 4, 6)));
}

#[test]
fn bullet_size_zero_becomes_one_pixel() {
    let b = Bullet::new(5, 5, 0, 1, false, Tag::Enemy);
    assert_eq!(b.dst, Some(Rect::new(5, 5, 1, 1)));
}

#[test]
fn bullet_intersection() {
    let b = Bullet::new(50, 60, 10, 16, false, Tag::Enemy);
    assert!(b.intersection(&Some(Rect::new(54, 67, 5, 5))));
    assert!(!b.intersection(&Some(Rect::new(55, 60, 5, 5))));
    assert!(!b.intersection(&None));
    let mut nowhere = b;
    nowhere.dst = None;
    assert!(!nowhere.intersection(&Some(Rect::new(50, 60, 5, 5))));
}

#[test]
fn bullet_touching_is_symmetric_on_example() {
    let a = Bullet::new(50, 60, 10, 16, false, Tag::Enemy);
    let b = Bullet::new(58, 70, 10, 16, false, Tag::PlayerBullet);
    assert_eq!(a.intersection(&b.dst), b.intersection(&a.dst));
    assert!(a.intersection(&b.dst));
}

#[test]
fn bullets_hear_no_event() {
    let mut b = Bullet::new(50, 60, 10, 16, false, Tag::PlayerBullet);
    assert!(!b.in_bound((50, 60)));
    let before = b;
    assert_eq!(b.on_handle_event(&InputEvent::MouseButtonDown(MouseButton::Left)), EventReply::Nothing);
    assert_eq!(b.dst, before.dst);
    assert!(b.is_visible());
}

#[test]
fn sprite_new_drops_source_rect() {
    let s = Sprite::new(Some(Rect::new(0, 1000, 400, 500)), Some(Rect::new(0, 0, 400, 500)), Tag::Bg);
    assert_eq!(s.src, None);
    assert_eq!(s.dst, Some(Rect::new(0, 0, 400, 500)));
    assert!(s.is_visible());
    assert_eq!(s.event_func, None);
}

#[test]
fn sprite_in_bound_follows_dst() {
    let mut s = Sprite::new(None, Some(Rect::new(110, 210, 180, 80)), Tag::Start);
    assert!(s.in_bound((110, 210)));
    assert!(!s.in_bound((290, 210)));
    s.dst = None;
    assert!(!s.in_bound((150, 250)));
}

#[test]
fn start_button_shrinks_on_press_and_hides_on_release() {
    let mut s = Sprite::new(None, Some(Rect::new(110, 210, 180, 80)), Tag::Start);
    s.setEventFunc(SpriteHandler::StartButton);
    assert_eq!(s.on_handle_event(&InputEvent::MouseButtonDown(MouseButton::Left)), EventReply::Nothing);
    assert_eq!(s.dst, Some(Rect::new(115, 212, 170, 76)));
    assert!(s.isVisible);
    assert_eq!(s.on_handle_event(&InputEvent::MouseButtonDown(MouseButton::Right)), EventReply::Nothing);
    assert_eq!(s.on_handle_event(&InputEvent::KeyDown(Some(Key::Other))), EventReply::Nothing);
    assert!(s.isVisible);
    assert_eq!(
        s.on_handle_event(&InputEvent::MouseButtonUp(MouseButton::Left)),
        EventReply::RevealPlayfield
    );
    assert!(!s.isVisible);
    assert_eq!(s.dst, Some(Rect::new(115, 212, 170, 76)));
}

#[test]
fn sprite_without_handler_ignores_clicks() {
    let mut s = Sprite::new(None, Some(Rect::new(0, 0, 400, 500)), Tag::Bg);
    assert_eq!(s.on_handle_event(&InputEvent::MouseButtonUp(MouseButton::Left)), EventReply::Nothing);
    assert!(s.isVisible);
}
