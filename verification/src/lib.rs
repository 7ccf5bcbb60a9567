//! Parameter and update logic of the autovocoder plugin: the parameter enums,
//! the set of pending parameter updates, the parameter snapshot with its
//! defaults, the settings that an update hands to the vocoder engine, and the
//! decisions the plugin takes when it is activated and when it processes audio.
use vstd::prelude::*;

pub mod enums;
pub mod flags;
pub mod params;
pub mod update;
pub mod plugin;

pub use flags::{Flag, UpdateFlags};
pub use enums::{
    CarrierMode, ChordVoicing, DriveMode, LfoTarget, PitchAlgorithm, ScaleKind, ScaleRoot,
};

verus! {

} // verus!
