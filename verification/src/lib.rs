//! The logic of a terminal player for freeCodeCamp Code Radio.

pub mod cli;
pub mod id3;
pub mod mpeg;
pub mod nowplaying;
pub mod playback;
pub mod probe;
pub mod screen;
pub mod stream;
pub mod terminal;
pub mod text;
pub mod ui;
