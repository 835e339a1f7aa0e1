//! A desktop stand-in for a small handheld device: the colour conversion
//! used by its display, the keyboard layout of its keypad, a bounded storage
//! arena, a monotonic clock, and the capability object that gathers them.
pub mod clock;
pub mod color;
pub mod display;
pub mod input;
pub mod simulator;
pub mod storage;
