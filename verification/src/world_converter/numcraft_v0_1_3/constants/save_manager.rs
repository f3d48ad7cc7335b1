//! Constants of the save file.

use vstd::prelude::*;

verus! {

/// Name of the file that holds the settings.
pub const SETTINGS_FILENAME: &'static str = "settings.ncd";

/// The version number written into the header. It changes with every
/// change of the format that breaks older worlds.
pub const WORLD_VERSION: u16 = 0;

} // verus!
