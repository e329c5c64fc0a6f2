//! Playback core for a device that streams raw RGB565 frames from files on a
//! removable card to a fixed-resolution display, with a push-button that
//! cycles through the playlist.
//!
//! The library holds every decision: which directory entries are playable,
//! where playback starts, how the button's level turns into edges, what a
//! read outcome means, and which file is opened next. The device glue only
//! performs the I/O that the library asks for.

pub mod config;
pub mod controller;
pub mod input;
pub mod playlist;
pub mod stream;
