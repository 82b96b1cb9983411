//! The slider's position, held inside the range of a MIDI data byte.

use vstd::prelude::*;
use crate::message::MAX_DATA_VALUE;

verus! {

/// Lowest position of the slider.
pub const MIN_SLIDER_VALUE: u8 = 0;

/// Highest position of the slider.
pub const MAX_SLIDER_VALUE: u8 = MAX_DATA_VALUE;

/// Position of the slider when the controller starts.
pub const DEFAULT_SLIDER_VALUE: u8 = 64;

/// The position nearest to `raw` that the slider can take.
pub open spec fn clamp_to_slider(raw: u8) -> u8 {
    if raw <= MAX_SLIDER_VALUE {
        raw
    } else {
        MAX_SLIDER_VALUE
    }
}

/// A slider position between [`MIN_SLIDER_VALUE`] and [`MAX_SLIDER_VALUE`].
#[derive(Debug)]
pub struct SliderValue {
    value: u8,
}

impl View for SliderValue {
    type V = u8;

    closed spec fn view(&self) -> u8 {
        self.value
    }
}

impl SliderValue {
    #[verifier::type_invariant]
    spec fn in_range(self) -> bool {
        MIN_SLIDER_VALUE <= self.value <= MAX_SLIDER_VALUE
    }

    /// The slider at the position nearest to `raw`: `raw` itself when it is
    /// in range, the highest position when it lies above.
    pub fn clamped(raw: u8) -> (slider: Self)
        ensures
            slider@ == clamp_to_slider(raw),
    {
        if raw <= MAX_SLIDER_VALUE {
            SliderValue { value: raw }
        } else {
            SliderValue { value: MAX_SLIDER_VALUE }
        }
    }

    /// The position of the slider, which is always in range.
    pub fn get(&self) -> (value: u8)
        ensures
            value == self@,
            MIN_SLIDER_VALUE <= value <= MAX_SLIDER_VALUE,
    {
        proof {
            use_type_invariant(self);
        }
        self.value
    }
}

impl Default for SliderValue {
    /// The slider at [`DEFAULT_SLIDER_VALUE`].
    fn default() -> (slider: Self)
        ensures
            slider@ == DEFAULT_SLIDER_VALUE,
    {
        SliderValue { value: DEFAULT_SLIDER_VALUE }
    }
}

} // verus!
