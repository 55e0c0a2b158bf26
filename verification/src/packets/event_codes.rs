//! Event string codes carried by event packets (four ASCII bytes each).

use vstd::prelude::*;

verus! {

/// `SSTA`: session started.
pub const SESSION_STARTED: [u8; 4] = [83, 83, 84, 65];
/// `SEND`: session ended.
pub const SESSION_ENDED: [u8; 4] = [83, 69, 78, 68];
/// `FTLP`: fastest lap.
pub const FASTEST_LAP: [u8; 4] = [70, 84, 76, 80];
/// `DRSE`: DRS enabled.
pub const DRS_ENABLED: [u8; 4] = [68, 82, 83, 69];
/// `DRSD`: DRS disabled.
pub const DRS_DISABLED: [u8; 4] = [68, 82, 83, 68];
/// `CHQF`: chequered flag.
pub const CHEQUERED_FLAG: [u8; 4] = [67, 72, 81, 70];
/// `LGOT`: lights out.
pub const LIGHTS_OUT: [u8; 4] = [76, 71, 79, 84];
/// `PENA`: penalty issued.
pub const PENALTY: [u8; 4] = [80, 69, 78, 65];
/// `OVTK`: overtake.
pub const OVERTAKE: [u8; 4] = [79, 86, 84, 75];
/// `SCAR`: safety car.
pub const SAFETY_CAR: [u8; 4] = [83, 67, 65, 82];
/// `COLL`: collision.
pub const COLLISION: [u8; 4] = [67, 79, 76, 76];
/// `RDFL`: red flag.
pub const RED_FLAG: [u8; 4] = [82, 68, 70, 76];

} // verus!
