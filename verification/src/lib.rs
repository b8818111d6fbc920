//! Request handling for a small media portal: accounts, login state and a
//! per-user media store backed by a database, with media fetched by
//! `yt-dlp` or converted by `ffmpeg`.
//!
//! The library decides; the program around it talks to the database, the
//! file system and the external tools, and hands the answers back.

pub mod text;
pub mod structs;
pub mod protocol;
pub mod checks;
pub mod naming;
pub mod media;
pub mod tools;
pub mod config;
pub mod accounts;
pub mod library;
pub mod flow;
pub mod laws;
pub mod model;
