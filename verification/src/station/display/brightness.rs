//! Display settings: brightness and the time until the display turns off.
use vstd::prelude::*;
use crate::text::{join_dir, join_path};

verus! {

/// The persisted display settings.
pub struct InternalDisplaySettingsCache {
    /// Brightness of the display in percent, 0 to 100.
    pub brightness: u32,
    /// Seconds without touch activity before the display turns off.
    pub display_time: u32,
}

/// Why a display setting was refused.
#[derive(Clone, Copy, Debug, PartialEq, Eq, Structural)]
pub enum DisplayError {
    /// Brightness must be between 0 and 100.
    BrightnessOutOfRange,
}

/// The display settings of the station.
pub struct DisplayManager {
    internal_display_settings_cache: InternalDisplaySettingsCache,
}

impl DisplayManager {
    /// Brightness is a percentage.
    #[verifier::type_invariant]
    spec fn inv(self) -> bool {
        self.internal_display_settings_cache.brightness <= 100
    }

    pub closed spec fn brightness(&self) -> u32 {
        self.internal_display_settings_cache.brightness
    }

    pub closed spec fn display_time(&self) -> u32 {
        self.internal_display_settings_cache.display_time
    }

    /// The manager over the settings read from disk, or over the defaults
    /// (full brightness, one minute) when there were none. A stored
    /// brightness above 100 percent is taken as 100.
    pub fn new(loaded: Option<InternalDisplaySettingsCache>) -> (r: Self)
        ensures
            r.brightness() == (match loaded {
                Some(c) => if c.brightness <= 100 { c.brightness } else { 100u32 },
                None => 100u32,
            }),
            r.brightness() <= 100,
            r.display_time() == (match loaded {
                Some(c) => c.display_time,
                None => 60u32,
            }),
    {
        let internal_display_settings_cache = match loaded {
            Some(c) => InternalDisplaySettingsCache {
                brightness: if c.brightness <= 100 { c.brightness } else { 100 },
                display_time: c.display_time,
            },
            None => InternalDisplaySettingsCache { brightness: 100, display_time: 60 },
        };
        DisplayManager { internal_display_settings_cache }
    }

    /// The settings, for writing them back to disk.
    pub fn settings(&self) -> (r: &InternalDisplaySettingsCache)
        ensures
            r.brightness == self.brightness(),
            r.display_time == self.display_time(),
    {
        &self.internal_display_settings_cache
    }

    /// The brightness in percent, 0 to 100.
    pub fn get_brightness(&self) -> (r: u32)
        ensures
            r == self.brightness(),
            r <= 100,
    {
        proof {
            use_type_invariant(self);
        }
        self.internal_display_settings_cache.brightness
    }

    pub fn get_display_time(&self) -> (r: u32)
        ensures
            r == self.display_time(),
    {
        self.internal_display_settings_cache.display_time
    }

    /// Sets the brightness in percent; values above 100 are refused and change
    /// nothing.
    pub fn set_brightness(&mut self, val: u32) -> (r: Result<(), DisplayError>)
        ensures
            val > 100 ==> r == Err::<(), DisplayError>(DisplayError::BrightnessOutOfRange)
                && final(self).brightness() == old(self).brightness(),
            val <= 100 ==> r is Ok && final(self).brightness() == val,
            final(self).display_time() == old(self).display_time(),
    {
        if val > 100 {
            return Err(DisplayError::BrightnessOutOfRange);
        }
        self.internal_display_settings_cache.brightness = val;
        Ok(())
    }

    /// Sets the seconds until the display turns off.
    pub fn set_display_time(&mut self, val: u32)
        ensures
            final(self).display_time() == val,
            final(self).brightness() == old(self).brightness(),
    {
        proof {
            use_type_invariant(&*self);
        }
        self.internal_display_settings_cache.display_time = val;
    }
}

/// The display settings below the project directory `base_dir`:
/// `internal/display.json`.
pub fn setup_path(base_dir: &str) -> (r: String)
    ensures
        r@ == join_path(join_path(base_dir@, "internal"@), "display.json"@),
{
    let internal = join_dir(base_dir, "internal");
    join_dir(internal.as_str(), "display.json")
}

} // verus!
