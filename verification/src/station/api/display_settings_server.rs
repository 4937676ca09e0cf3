//! The display settings offered to the user interface.
use vstd::prelude::*;

use crate::station::display::brightness::{DisplayError, DisplayManager};

verus! {

/// The display settings service over the station's display settings.
pub struct DisplaySettingsServer {
    display_manager: DisplayManager,
}

impl DisplaySettingsServer {
    pub closed spec fn brightness(&self) -> u32 {
        self.display_manager.brightness()
    }

    pub closed spec fn display_time(&self) -> u32 {
        self.display_manager.display_time()
    }

    pub fn new(display_manager: DisplayManager) -> (r: Self)
        ensures
            r.brightness() == display_manager.brightness(),
            r.display_time() == display_manager.display_time(),
    {
        DisplaySettingsServer { display_manager }
    }

    /// The settings, for writing them back to disk.
    pub fn display_manager(&self) -> (r: &DisplayManager)
        ensures
            r.brightness() == self.brightness(),
            r.display_time() == self.display_time(),
    {
        &self.display_manager
    }

    /// The brightness in percent, 0 to 100.
    pub fn get_brightness(&self) -> (r: u32)
        ensures
            r == self.brightness(),
            r <= 100,
    {
        self.display_manager.get_brightness()
    }

    pub fn get_display_time(&self) -> (r: u32)
        ensures
            r == self.display_time(),
    {
        self.display_manager.get_display_time()
    }

    /// Sets the brightness in percent; values above 100 are refused and change
    /// nothing.
    pub fn set_brightness(&mut self, val: u32) -> (r: Result<(), DisplayError>)
        ensures
            val > 100 ==> r == Err::<(), DisplayError>(DisplayError::BrightnessOutOfRange)
                && final(self).brightness() == old(self).brightness(),
            val <= 100 ==> r is Ok && final(self).brightness() == val,
            final(self).display_time() == old(self).display_time(),
    {
        self.display_manager.set_brightness(val)
    }

    /// Sets the seconds until the display turns off.
    pub fn set_display_time(&mut self, val: u32)
        ensures
            final(self).display_time() == val,
            final(self).brightness() == old(self).brightness(),
    {
        self.display_manager.set_display_time(val)
    }
}

} // verus!
