//! An HTTP request detector for raw network frames.
//!
//! The library walks one received frame at a time: link header, IPv4 header,
//! TCP header, then a short probe of the payload. Every read goes through
//! a single bounds-checked view, so no access outside the frame is possible.
//! A frame whose payload starts with a known HTTP method token counts once on
//! a shared counter; every frame, counted or not, is passed on unmodified.

pub mod classifier;
pub mod counter;
pub mod frame;
