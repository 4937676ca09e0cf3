//! The values that drive the display backlight.
use vstd::prelude::*;

verus! {

/// The controller of the display backlight.
pub struct DspCtrl {}

/// The backlight register value for a brightness in percent (0 to 32).
pub open spec fn backlight_level(display_brightness: u32) -> int {
    display_brightness * 32 / 100
}

impl DspCtrl {
    /// The sysfs file that switches the backlight.
    pub const PATH_POWER: &'static str = "/sys/class/backlight/panel_backlight@1/bl_power";

    /// The sysfs file that holds the backlight level.
    pub const PATH_BRIGHT: &'static str = "/sys/class/backlight/panel_backlight@1/brightness";

    pub fn new() -> (r: Self) {
        DspCtrl {}
    }

    /// What is written to the power file: `"1"` to switch the display on, `"0"` to switch it off.
    pub fn power_value(&self, display_state: bool) -> (r: &'static str)
        ensures
            r@ == (if display_state { "1"@ } else { "0"@ }),
    {
        if display_state {
            "1"
        } else {
            "0"
        }
    }

    /// The backlight level to write: `brightness * 32 / 100` when the display is
    /// on and the brightness is at most 100; nothing otherwise.
    pub fn brightness_value(&self, display_state: bool, display_brightness: u32) -> (r: Option<i32>)
        ensures
            match r {
                Some(v) => display_state && display_brightness < 101 && v == backlight_level(display_brightness),
                None => !display_state || display_brightness >= 101,
            },
    {
        if display_state && display_brightness < 101 {
            Some((display_brightness * 32 / 100) as i32)
        } else {
            None
        }
    }
}

/// Backlight levels stay within 0 to 32 and grow with the brightness.
pub proof fn lemma_backlight_level_range(a: u32, b: u32)
    requires
        a <= b <= 100,
    ensures
        0 <= backlight_level(a) <= backlight_level(b) <= 32,
{
    assert(a * 32 <= b * 32) by (nonlinear_arith)
        requires
            a <= b,
    ;
    assert(b * 32 <= 3200) by (nonlinear_arith)
        requires
            b <= 100,
    ;
    assert(a * 32 / 100 <= b * 32 / 100) by (nonlinear_arith)
        requires
            a * 32 <= b * 32,
            0 <= a * 32,
    ;
}

} // verus!
