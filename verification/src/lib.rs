//! Simulation core of a small 2D platformer: a millisecond time unit, an
//! edge-detecting input tracker, sprite animation clocks, the player's
//! kinematics and motion state machine, and the decisions of a fixed-rate
//! frame pacer.
//!
//! The library computes on plain values only. Windows, textures, the event
//! queue and the wall clock belong to the program around it, which performs
//! the blits and sleeps that the library asks for.

pub mod constants;
pub mod entities;
pub mod game;
pub mod graphics;
pub mod input;
pub mod player;
pub mod sprite;
pub mod units;
