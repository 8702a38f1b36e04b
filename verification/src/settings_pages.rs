//! The pages of the settings that have nothing to set.

use crate::model::{Color, Label};
use vstd::prelude::*;

verus! {

/// What stands in place of the list of audio devices.
pub open spec fn no_audio_devices() -> Label {
    Label { text: "Audio devices not available", color: Color::Muted }
}

/// The list of devices to record with.
pub fn render_input_audio_device_dropdown() -> (r: Label)
    ensures
        r == no_audio_devices(),
{
    Label { text: "Audio devices not available", color: Color::Muted }
}

/// The list of devices to play on.
pub fn render_output_audio_device_dropdown() -> (r: Label)
    ensures
        r == no_audio_devices(),
{
    Label { text: "Audio devices not available", color: Color::Muted }
}

} // verus!
