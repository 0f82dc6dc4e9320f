//! Core logic of a fan-control daemon for a laptop embedded controller (EC):
//! the register write plan, the temperature-to-fan-speed curve, the mode
//! codec, and the per-tick control decision. All hardware I/O stays outside;
//! this crate turns readings into an ordered list of pending register writes.

pub mod control;
pub mod curve;
pub mod mode;
pub mod registers;
