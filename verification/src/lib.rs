//! Verified core of a Wayland screen colour picker: colour codes, pixel
//! sampling and blending, screenshot decoding and the overlay's input state.

pub mod hex;
pub mod pixels;
pub mod picker;
pub mod capture;
pub mod palette;
pub mod portal;
