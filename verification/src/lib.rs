//! Idle-detection and auto-resume core for a Spotify-connected audio
//! endpoint: samples playback status, counts consecutive idle observations,
//! and once a threshold is crossed seizes the target device and feeds it
//! tracks from a fallback playlist until real playback resumes.

pub mod accumulator;
pub mod auth;
pub mod controller;
pub mod cursor;
pub mod probe;
pub mod resolver;
pub mod settings;
pub mod spotifyd;
