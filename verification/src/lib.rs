//! Turns music-streaming links found in chat text into rich previews.

pub mod catalog;
pub mod commands;
pub mod conversion;
pub mod detect;
pub mod media;
pub mod models;
pub mod normalize;
pub mod pipeline;
pub mod text;
pub mod updater;
pub mod util;
