//! The rules of a small shoot-'em-up: rectangles and collisions, the start
//! screen, the player's plane, bullet and enemy pools and the scene they live in.
pub mod rect;
pub mod event;
pub mod layout;
pub mod sprite;
pub mod plane;
pub mod chance;
pub mod world;
