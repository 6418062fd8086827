//! The decision logic of the Tangello music player, a client for the
//! Music Player Daemon: which screen is shown, what the library search
//! finds, how the music directory is walked, what the settings window
//! stores and what the player controls ask the daemon to do.

pub mod text;
pub mod song;
pub mod search;
pub mod config;
pub mod scan;
pub mod player;
pub mod state;
pub mod laws;
