//! Keeps an ordered set list of song titles and the text style of a remote
//! text element, and decides what is written to that element so that only the
//! keys this library owns are replaced.

pub mod connection;
pub mod display;
pub mod engine;
pub mod error;
pub mod json;
pub mod settings;
pub mod songs;
pub mod state;
