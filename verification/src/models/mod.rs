//! The shapes of the answers that the catalog and the link service give,
//! one module for each.

pub mod albums;
pub mod artists;
pub mod musicvideos;
pub mod playlists;
pub mod songlink;
pub mod songs;
pub mod stations;
