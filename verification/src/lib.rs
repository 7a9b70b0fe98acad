//! Pixel-buffer user interface core: ARGB colours and their packed form,
//! alpha compositing, rectangles with hit testing, drawing into a row-major
//! frame buffer, and the screen state machine that mouse clicks drive.
//!
//! Everything here is pure computation on plain values. Opening a window,
//! polling the mouse and presenting the buffer belong to the program that
//! uses this library.

pub mod color;
pub mod blend;
pub mod geometry;
pub mod ui;
pub mod screen;
