//! Discovery of live sports broadcast streams: schedule lookup, interactive
//! game and feed selection, HLS master-manifest quality resolution, and
//! playlist / program-guide generation.

pub mod client;
pub mod clock;
pub mod error;
pub mod fmt;
pub mod manifest;
pub mod playlist;
pub mod select;
pub mod stream;
pub mod text;
pub mod types;
pub mod xmltv;
