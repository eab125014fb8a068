//! Host-facing settings. Only the values live here; reading and writing the
//! settings file is the host's concern.

use vstd::prelude::*;

verus! {

pub struct Settings {
    pub render_scale: u32,
}

impl Settings {
    /// The settings used when no settings file exists.
    pub fn default() -> (s: Settings)
        ensures
            s.render_scale == 1,
    {
        Settings { render_scale: 1 }
    }
}

} // verus!
