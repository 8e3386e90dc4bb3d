use sdl_test::event::{InputEvent, MouseButton};
use sdl_test::plane::PlaneHandler;
use sdl_test::rect::Rect;
use sdl_test::sprite::{SpriteHandler, Tag};
use sdl_test::world::{create_bg, create_plane_player, create_start, merge_reversed, Actor, Spawn, World};

fn started() -> World {
    let mut w = World::new();
    let fire = w.handle_event(&InputEvent::MouseButtonUp(MouseButton::Left), (200, 250));
    assert!(!fire);
    w
}

fn shown(w: &World) -> Vec<bool> {
    (0..w.len()).map(|i| w.is_visible(i)).collect()
}

#[test]
fn initial_entities() {
    let s = create_start();
    assert_eq!(s.dst, Some(Rect::new(110, 210, 180, 80)));
    assert!(s.isVisible);
    assert_eq!(s.event_func, Some(SpriteHandler::StartButton));
    let bg = create_bg();
    assert_eq!(bg.src, None);
    assert_eq!(bg.dst, Some(Rect::new(0, 0, 400, 500)));
    assert!(!bg.isVisible);
    let p = create_plane_player();
    assert_eq!((p.px, p.py, p.w, p.h), (200, 250, 31, 42));
    assert_eq!(p.dst, Some(Rect::new(185, 229, 31, 42)));
    assert!(!p.isVisible);
    assert_eq!(p.event_func, Some(PlaneHandler::FireOnClick));
}

#[test]
fn new_world_shows_only_the_start_button() {
    let w = World::new();
    assert_eq!(w.len(), 3);
    assert_eq!(w.queued_len(), 0);
    assert_eq!(shown(&w), vec![true, false, false]);
    assert_eq!((w.tag(0), w.tag(1), w.tag(2)), (Tag::Start, Tag::Bg, Tag::Plane));
}

#[test]
fn press_then_release_on_button_starts_the_game() {
    let mut w = World::new();
    assert!(!w.handle_event(&InputEvent::MouseButtonDown(MouseButton::Left), (200, 250)));
    match w.actor(0) {
        Actor::Sprite(s) => assert_eq!(s.dst, Some(Rect::new(115, 212, 170, 76))),
        _ => panic!("the start button leads the scene"),
    }
    assert_eq!(shown(&w), vec![true, false, false]);
    assert!(!w.handle_event(&InputEvent::MouseButtonUp(MouseButton::Left), (200, 250)));
    assert_eq!(shown(&w), vec![false, true, true]);
}

#[test]
fn release_outside_button_does_nothing() {
    let mut w = World::new();
    assert!(!w.handle_event(&InputEvent::MouseButtonUp(MouseButton::Left), (5, 5)));
    assert_eq!(shown(&w), vec![true, false, false]);
    assert!(!w.handle_event(&InputEvent::MouseButtonUp(MouseButton::Right), (200, 250)));
    assert_eq!(shown(&w), vec![true, false, false]);
}

#[test]
fn click_fires_only_while_playing() {
    let mut w = World::new();
    assert!(!w.handle_event(&InputEvent::MouseButtonDown(MouseButton::Left), (1, 1)));
    let mut w = started();
    assert!(w.handle_event(&InputEvent::MouseButtonDown(MouseButton::Left), (1, 1)));
    assert!(!w.handle_event(&InputEvent::MouseButtonDown(MouseButton::Right), (1, 1)));
    assert!(!w.handle_event(&InputEvent::Quit, (1, 1)));
}

#[test]
fn new_bullets_wait_in_the_queue() {
    let mut w = started();
    assert_eq!(w.fire_player_bullet((200, 225), (200, 250)), Spawn::Queued);
    assert_eq!(w.len(), 3);
    assert_eq!(w.queued_len(), 1);
    match w.queued_actor(0) {
        Actor::Bullet(b) => {
            assert_eq!((b.px, b.py, b.w, b.h, b.flip_v), (200, 250, 10, 16, false));
            assert_eq!(b.tag, Tag::PlayerBullet);
            assert!(b.isVisible);
        }
        _ => panic!("queued entities are bullets"),
    }
}

#[test]
fn merge_reverses_the_queue() {
    let mut w = started();
    w.fire_player_bullet((0, 0), (1, 1));
    w.fire_enemy_bullet((0, 0), (2, 2));
    w.spawn_enemy(0);
    assert_eq!(w.queued_len(), 3);
    w.merge_buffer();
    assert_eq!(w.queued_len(), 0);
    assert_eq!(w.len(), 6);
    assert_eq!((w.tag(3), w.tag(4), w.tag(5)), (Tag::Enemy, Tag::EnemyBullet, Tag::PlayerBullet));
}

#[test]
fn merge_reversed_on_plain_vectors() {
    let mut a = vec![1, 2];
    let mut b = vec![3, 4, 5];
    merge_reversed(&mut a, &mut b);
    assert_eq!(a, vec![1, 2, 5, 4, 3]);
    assert!(b.is_empty());
    let mut c: Vec<i32> = vec![];
    merge_reversed(&mut a, &mut c);
    assert_eq!(a, vec![1, 2, 5, 4, 3]);
}

#[test]
fn hidden_bullet_is_reused_first() {
    let mut w = started();
    w.fire_player_bullet((0, 0), (10, 10));
    w.fire_player_bullet((0, 0), (20, 20));
    w.merge_buffer();
    assert_eq!(w.find_reusable(Tag::PlayerBullet), None);
    w.retire(3);
    w.retire(4);
    assert_eq!(w.find_reusable(Tag::PlayerBullet), Some(3));
    assert_eq!(w.find_reusable(Tag::Enemy), None);
    assert_eq!(w.fire_player_bullet((100, 75), (100, 100)), Spawn::Reused(3));
    assert_eq!(w.queued_len(), 0);
    match w.actor(3) {
        Actor::Bullet(b) => {
            assert!(b.isVisible);
            assert_eq!((b.px, b.py), (100, 75));
            assert_eq!(b.dst, Some(Rect::new(95, 67, 10, 16)));
        }
        _ => panic!("bullets follow the plane"),
    }
    assert_eq!(w.fire_player_bullet((1, 1), (2, 2)), Spawn::Reused(4));
    assert_eq!(w.fire_player_bullet((1, 1), (2, 2)), Spawn::Queued);
}

#[test]
fn enemies_come_back_above_the_window() {
    let mut w = started();
    assert_eq!(w.spawn_enemy(100), Spawn::Queued);
    w.merge_buffer();
    match w.actor(3) {
        Actor::Bullet(b) => {
            assert_eq!((b.px, b.py, b.w, b.h), (150, -50, 59, 72));
            assert_eq!(b.tag, Tag::Enemy);
        }
        _ => panic!("enemies are bullets"),
    }
    w.retire(3);
    assert_eq!(w.spawn_enemy(250), Spawn::Reused(3));
    match w.actor(3) {
        Actor::Bullet(b) => assert_eq!((b.px, b.py), (300, -36)),
        _ => panic!("enemies are bullets"),
    }
}

#[test]
fn random_enemy_gets_a_speed_only_when_new() {
    let mut w = started();
    let (s, step) = w.spawn_enemy_at_random();
    assert_eq!(s, Spawn::Queued);
    let step = step.unwrap();
    assert!((5..35).contains(&step));
    w.merge_buffer();
    w.retire(3);
    let (s2, step2) = w.spawn_enemy_at_random();
    assert_eq!(s2, Spawn::Reused(3));
    assert_eq!(step2, None);
}

#[test]
fn enemies_never_fire_before_the_game_starts() {
    let w = World::new();
    for _ in 0..200 {
        assert!(!w.enemy_fires());
    }
}

#[test]
fn enemy_spends_bullets_it_touches() {
    let mut w = started();
    w.spawn_enemy(0);
    w.fire_player_bullet((0, 0), (50, 0));
    w.fire_player_bullet((0, 0), (60, 0));
    w.fire_player_bullet((0, 0), (300, 300));
    w.merge_buffer();
    // scene: 3 = far bullet, 4 = bullet at (60,0), 5 = bullet at (50,0), 6 = enemy at (50,-50)
    assert_eq!(w.tag(6), Tag::Enemy);
    w.move_to(6, (50, 0));
    w.strike(6);
    assert_eq!(shown(&w), vec![false, true, true, true, false, false, false]);
}

#[test]
fn enemy_that_misses_changes_nothing() {
    let mut w = started();
    w.spawn_enemy(0);
    w.fire_player_bullet((0, 0), (300, 300));
    w.merge_buffer();
    w.strike(4);
    assert_eq!(shown(&w), vec![false, true, true, true, true]);
}

#[test]
fn hidden_bullets_are_not_struck() {
    let mut w = started();
    w.spawn_enemy(0);
    w.fire_player_bullet((0, 0), (50, -50));
    w.merge_buffer();
    w.retire(3);
    w.strike(4);
    assert_eq!(shown(&w), vec![false, true, true, false, true]);
}

#[test]
fn crash_into_plane_ends_the_game() {
    let mut w = started();
    w.fire_enemy_bullet((0, 0), (200, 250));
    w.merge_buffer();
    w.strike(3);
    assert_eq!(shown(&w), vec![true, false, false, true]);
    // the start button works again
    assert!(!w.handle_event(&InputEvent::MouseButtonUp(MouseButton::Left), (200, 250)));
    assert_eq!(shown(&w), vec![false, true, true, true]);
}

#[test]
fn strike_while_not_playing_leaves_screens_alone() {
    let mut w = World::new();
    w.fire_enemy_bullet((0, 0), (200, 250));
    w.merge_buffer();
    w.strike(3);
    assert_eq!(shown(&w), vec![true, false, false, true]);
}

#[test]
fn moving_and_retiring() {
    let mut w = started();
    w.move_to(2, (10, 20));
    match w.actor(2) {
        Actor::Plane(p) => {
            assert_eq!((p.px, p.py), (10, 20));
            assert_eq!(p.dst, Some(Rect::new(-5, -1, 31, 42)));
        }
        _ => panic!("the plane is third"),
    }
    w.fire_player_bullet((0, 0), (5, 5));
    w.merge_buffer();
    w.set_y(3, -30);
    match w.actor(3) {
        Actor::Bullet(b) => assert_eq!((b.px, b.py), (5, -30)),
        _ => panic!("bullets follow the plane"),
    }
    w.retire(3);
    assert!(!w.is_visible(3));
}
