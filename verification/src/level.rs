//! Brightness levels as the hardware reports and accepts them.

use vstd::prelude::*;

verus! {

/// A brightness level: the single character that the device reports in its
/// change report and accepts on its control endpoint.
pub type BrightnessLevel = char;

/// The level that stands for "backlight off".
pub const BRIGHTNESS_OFF: BrightnessLevel = '0';

/// The level that a change report holds: its first character.
pub open spec fn reported_level(report: Seq<char>) -> Option<BrightnessLevel> {
    if report.len() > 0 {
        Some(report[0])
    } else {
        None
    }
}

/// Reads the current level from the text of a change report. An empty report
/// holds no level.
pub fn parse_brightness(report: &str) -> (level: Option<BrightnessLevel>)
    ensures
        level == reported_level(report@),
{
    let mut chars = report.chars();
    chars.next()
}

} // verus!
