use vstd::prelude::*;

verus! {

/// How an image is fitted into the visible area of a display.
#[derive(Clone, Copy, Debug, PartialEq, Eq, Structural)]
pub enum ScalingMode {
    /// The image is shrunk, keeping its proportions, until all of it is
    /// visible.
    Fit,
    /// Each axis is scaled on its own until the image covers the display.
    Fill,
    /// The image is enlarged or shrunk, keeping its proportions.
    ProportionalUpOrDown,
}

impl ScalingMode {
    /// The number by which the desktop shell knows this mode.
    pub open spec fn spec_native_value(self) -> u64 {
        match self {
            ScalingMode::Fit => 0,
            ScalingMode::Fill => 1,
            ScalingMode::ProportionalUpOrDown => 3,
        }
    }

    /// The number by which the desktop shell knows this mode.
    pub fn native_value(self) -> (value: u64)
        ensures
            value == self.spec_native_value(),
    {
        match self {
            ScalingMode::Fit => 0,
            ScalingMode::Fill => 1,
            ScalingMode::ProportionalUpOrDown => 3,
        }
    }
}

/// The scaling modes have different numbers.
pub proof fn lemma_native_values_distinct(a: ScalingMode, b: ScalingMode)
    requires
        a.spec_native_value() == b.spec_native_value(),
    ensures
        a == b,
{
}

} // verus!
