//! A multi-pane text dashboard for a wireless monitor: each call turns a
//! snapshot of the monitor's stores into one frame of text.

pub mod access_points;
pub mod chrome;
pub mod clients;
pub mod handshakes;
pub mod listing;
pub mod messages;
pub mod model;
pub mod order;
pub mod report;
pub mod screen;
pub mod text;
pub mod time;
