//! The verified core of a small arcade game: the outline of its ring, the
//! pulsation of the ring's scale, the steering of the player and the walls of
//! the arena. Everything is integer arithmetic; drawing, physics and input are
//! left to the program that uses it.

pub mod arena;
pub mod measure;
pub mod movement;
pub mod ring;
pub mod scale;
