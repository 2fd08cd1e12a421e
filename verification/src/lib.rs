//! A cross-platform screen/window/audio capture library.
//!
//! The library holds the decisions of a capture backend as verified code:
//! which content is offered for capture, how a stream reacts to the events
//! the operating system delivers, how captured planes are copied into
//! bitmaps, and how the platform encodings are read and written.

pub mod frame;
pub mod capture_stream;
pub mod capturable_content;
pub mod platform;
pub mod text;
pub mod feature;
