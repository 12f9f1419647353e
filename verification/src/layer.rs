//! Depth buckets of the interface.

use vstd::prelude::*;

verus! {

/// A coarse depth bucket. What lies in a later bucket is drawn over what
/// lies in an earlier one.
#[derive(Clone, Copy, Debug, PartialEq, Eq, Hash, Structural)]
pub enum Layer {
    Background,
    Bottom,
    Middle,
    Foreground,
    ToolTips,
    Debug,
}

/// Number of depth buckets.
pub const LAYER_COUNT: u8 = 6;

impl Layer {
    /// Place of the bucket in the stack, from 0 for the lowest.
    pub open spec fn spec_rank(self) -> u8 {
        match self {
            Layer::Background => 0,
            Layer::Bottom => 1,
            Layer::Middle => 2,
            Layer::Foreground => 3,
            Layer::ToolTips => 4,
            Layer::Debug => 5,
        }
    }

    /// Place of the bucket in the stack, from 0 for the lowest.
    #[verifier::when_used_as_spec(spec_rank)]
    pub fn rank(self) -> (r: u8)
        ensures
            r == self.spec_rank(),
            r < LAYER_COUNT,
    {
        match self {
            Layer::Background => 0,
            Layer::Bottom => 1,
            Layer::Middle => 2,
            Layer::Foreground => 3,
            Layer::ToolTips => 4,
            Layer::Debug => 5,
        }
    }
}

} // verus!
