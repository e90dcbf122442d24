use vstd::prelude::*;

verus! {

/// Prices and volumes are fixed-point integers: one whole unit of currency
/// (or of traded quantity) is this many sub-units.
pub const SUBUNITS: i64 = 10_000;

/// Largest magnitude that an opening or closing price may take.
pub const PRICE_LIMIT: i64 = 1_000_000_000_000_000;

/// Largest magnitude that a high or a low may take.
pub const EXTREME_LIMIT: i64 = 2_000_000_000_000_000;

/// Largest volume a candle may carry.
pub const VOLUME_LIMIT: u64 = 100_000_000_000_000;

/// One open/high/low/close/volume sample for a time bucket.
#[derive(Clone, Copy, Debug, PartialEq, Eq, Structural)]
pub struct Candle {
    /// Seconds since the Unix epoch.
    pub time: i64,
    pub open: i64,
    pub high: i64,
    pub low: i64,
    pub close: i64,
    pub volume: u64,
}

pub open spec fn spec_min(a: int, b: int) -> int {
    if a <= b { a } else { b }
}

pub open spec fn spec_max(a: int, b: int) -> int {
    if a >= b { a } else { b }
}

impl Candle {
    /// The wicks enclose the body, and every figure is within the limits.
    pub open spec fn wf(&self) -> bool {
        &&& self.low <= spec_min(self.open as int, self.close as int)
        &&& self.high >= spec_max(self.open as int, self.close as int)
        &&& -PRICE_LIMIT <= self.open <= PRICE_LIMIT
        &&& -PRICE_LIMIT <= self.close <= PRICE_LIMIT
        &&& -EXTREME_LIMIT <= self.low
        &&& self.high <= EXTREME_LIMIT
        &&& self.volume <= VOLUME_LIMIT
    }

    /// Tests the wicks and the limits.
    pub fn is_well_formed(&self) -> (r: bool)
        ensures
            r == self.wf(),
    {
        let top = if self.open >= self.close { self.open } else { self.close };
        let bottom = if self.open <= self.close { self.open } else { self.close };
        self.low <= bottom && self.high >= top && -PRICE_LIMIT <= self.open && self.open <= PRICE_LIMIT
            && -PRICE_LIMIT <= self.close && self.close <= PRICE_LIMIT && -EXTREME_LIMIT <= self.low
            && self.high <= EXTREME_LIMIT && self.volume <= VOLUME_LIMIT
    }
}

} // verus!
