//! A model of a one-window desktop program: a top-level window holding a
//! push button and a text-entry field. Pressing the button echoes the
//! entered text in a modal message dialog.
//!
//! The library verifies the program's whole decision logic: UTF-16 text
//! encoding, window and control setup, the event-dispatch state machine,
//! the text read path (length query, then buffer copy), and the message
//! loop's termination. The thin layer of native windowing calls that feeds
//! real platform events into this logic lives outside the library.

pub mod text;
pub mod win;
pub mod laws;
