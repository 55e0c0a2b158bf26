//! PitWall: capture and analysis of F1 24 UDP telemetry.
//!
//! The library holds the verified core: the wire format of the game's
//! packets, the session state machine that merges packets into telemetry
//! samples and detects completed laps, the per-packet dispatch, the
//! `.pitraw` raw-recording format, and the snapshot sent to the live UI.

pub mod wire;
pub mod packets;
pub mod parsers;
pub mod text;
pub mod ids;
pub mod session;
pub mod storage;
pub mod tables;
pub mod live;
pub mod recorder;
pub mod receiver;
