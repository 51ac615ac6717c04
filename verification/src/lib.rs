//! Playback core of a desktop music player.
//!
//! The crate holds the decisions of the audio engine: the command protocol,
//! the fade envelope, the byte window of an HTTP stream, the output callback
//! and the bookkeeping round decoding, resampling and visualisation. Every
//! function states its behaviour in a contract that is machine checked.
//! Sample arithmetic, devices, codecs and sockets stay with the caller.

pub mod audio_engine;
pub mod commands;
pub mod db;
pub mod models;
pub mod text;
pub mod utils;
