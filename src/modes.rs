use vstd::prelude::*;

verus! {

/// The index-pulse condition that resets an encoder's count to zero.
#[derive(Copy, Clone, Debug, PartialEq, Eq, Hash, Structural)]
pub enum IndexingType {
    ResetWhileHigh,
    ResetWhileLow,
    ResetOnFallingEdge,
    ResetOnRisingEdge,
}

impl IndexingType {
    /// The HAL's numeric code for this indexing condition.
    pub open spec fn spec_code(self) -> i32 {
        match self {
            IndexingType::ResetWhileHigh => 0,
            IndexingType::ResetWhileLow => 1,
            IndexingType::ResetOnFallingEdge => 2,
            IndexingType::ResetOnRisingEdge => 3,
        }
    }

    pub fn code(self) -> (r: i32)
        ensures
            r == self.spec_code(),
    {
        match self {
            IndexingType::ResetWhileHigh => 0,
            IndexingType::ResetWhileLow => 1,
            IndexingType::ResetOnFallingEdge => 2,
            IndexingType::ResetOnRisingEdge => 3,
        }
    }
}

/// How many counts the hardware makes per quadrature cycle.
#[derive(Copy, Clone, Debug, PartialEq, Eq, Hash, Structural)]
pub enum EncodingType {
    K1X,
    K2X,
    K4X,
}

impl EncodingType {
    /// The HAL's numeric code for this encoding.
    pub open spec fn spec_code(self) -> i32 {
        match self {
            EncodingType::K1X => 0,
            EncodingType::K2X => 1,
            EncodingType::K4X => 2,
        }
    }

    /// The nominal divisor between raw and calibrated counts.
    pub open spec fn spec_scale(self) -> i32 {
        match self {
            EncodingType::K1X => 1,
            EncodingType::K2X => 2,
            EncodingType::K4X => 4,
        }
    }

    pub fn code(self) -> (r: i32)
        ensures
            r == self.spec_code(),
    {
        match self {
            EncodingType::K1X => 0,
            EncodingType::K2X => 1,
            EncodingType::K4X => 2,
        }
    }

    pub fn scale(self) -> (r: i32)
        ensures
            r == self.spec_scale(),
    {
        match self {
            EncodingType::K1X => 1,
            EncodingType::K2X => 2,
            EncodingType::K4X => 4,
        }
    }
}

impl Default for EncodingType {
    /// Full resolution: four counts per cycle.
    fn default() -> (r: Self)
        ensures
            r == EncodingType::K4X,
    {
        EncodingType::K4X
    }
}

} // verus!
