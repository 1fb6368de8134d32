//! The logic of the firmware of a hand-held game: a rotary encoder, two buttons, a display and a
//! serial port.
//!
//! - `game`: the words in which panel, game and display talk to each other.
//! - `rotary`: the decoder of the rotary encoder.
//! - `panel`: what the interrupt handler and the main loop share.
//! - `handler`: the interrupt handler.
//! - `clock`: when the game ticks.
//! - `display`: what is drawn.
//! - `main_loop`: the main loop.
//!
//! Handler and main loop never touch a pin or a port themselves: they say what is to be done next,
//! and are told what came of it.

pub mod clock;
pub mod display;
pub mod game;
pub mod handler;
pub mod main_loop;
pub mod panel;
pub mod rotary;
