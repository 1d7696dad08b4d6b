//! Verified gameplay core of an arcade space shooter: a craft in a
//! wrap-around arena fires lasers at drifting meteors and loses lives on
//! impact.
//!
//! The library decides; the game engine around it draws, listens to the
//! keyboard and finds overlaps. Lengths, directions and the shared movement
//! vector are fixed-point integers in millionths of a unit; time is in whole
//! nanoseconds or microseconds. Objects are known by the 64-bit form of
//! their entity.

pub mod asteroid;
pub mod collisions;
pub mod controller;
pub mod engine;
pub mod game;
pub mod gameui;
pub mod lives;
pub mod movement;
pub mod spaceship;
pub mod weapon;
