//! A virtual numeric keypad on a laptop touchpad.
//!
//! The crate holds the decisions of the keypad: the integer geometry that
//! turns a touch position into a key of the grid or into a hit of one of the
//! two hot-zones, and the controller that keeps at most one key held, flips
//! the numpad mode only once the hardware has acknowledged it, and says what
//! to undo when a session ends. Reading the touchpad, writing to the bus and
//! to the virtual keyboard are left to the caller: the controller names the
//! next action and is told how it went.

pub mod arith;
pub mod percent;
pub mod keys;
pub mod geometry;
pub mod session;
pub mod controller;
pub mod text;
pub mod discovery;
