//! The verified core of a small music player: which files make a play queue,
//! what the player shows for a track, which track comes next, how the player
//! answers the user's controls, and how a decoding session treats the packets
//! of an audio stream.

pub mod media;
pub mod library;
pub mod player;
pub mod decode;
