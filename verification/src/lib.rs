use vstd::prelude::*;

pub mod duration;
pub mod text;
pub mod errors;
pub mod ids;
pub mod oscpath;
pub mod actions;
pub mod mixer;
pub mod waveform;
pub mod codec;
pub mod undo;
pub mod action_manager;
pub mod playback;
pub mod routes;
pub mod clients;
pub mod dispatch;
pub mod fade;
pub mod audio;
pub mod link;
pub mod actionview;
pub mod wire;
pub mod savefile;
pub mod session;
pub mod pending;
pub mod records;
pub mod copies;
