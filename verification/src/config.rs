use vstd::prelude::*;
use crate::thirdparty::wiz;

verus! {

/// The program's configuration: one section per service.
#[derive(Debug, Clone)]
pub struct Config {
    pub wiz: wiz::Config,
}

/// Where the configuration file is read from.
#[derive(Debug, Clone, Copy, PartialEq, Eq, Structural)]
pub enum ConfigLocation {
    /// At the path as it was given.
    Absolute,
    /// Below the current directory.
    CurrentDir,
    /// Beside the executable.
    ExecutableDir,
}

/// The place that a given path stands for.
pub open spec fn spec_locate(is_absolute: bool, found_in_current_dir: bool) -> ConfigLocation {
    if is_absolute {
        ConfigLocation::Absolute
    } else if found_in_current_dir {
        ConfigLocation::CurrentDir
    } else {
        ConfigLocation::ExecutableDir
    }
}

/// Picks the place of the configuration file: an absolute path is taken as
/// it is; a relative one is looked for below the current directory, and
/// beside the executable where it is not found there.
pub fn locate(is_absolute: bool, found_in_current_dir: bool) -> (place: ConfigLocation)
    ensures
        place == spec_locate(is_absolute, found_in_current_dir),
{
    if is_absolute {
        ConfigLocation::Absolute
    } else if found_in_current_dir {
        ConfigLocation::CurrentDir
    } else {
        ConfigLocation::ExecutableDir
    }
}

} // verus!
