//! Per-indicator parameter structs.
//!
//! Parameters arrive already validated and are passed through unchanged to
//! the native lookback query and compute call; the marshaling layer never
//! interprets them. Only the families whose parameters are plain integers
//! are carried here.

use vstd::prelude::*;

verus! {

/// The single look-back window length shared by most single-parameter
/// indicators.
#[derive(Clone, Copy, Debug, PartialEq, Eq, Structural)]
pub struct TimePeriodKwargs {
    pub timeperiod: i32,
}

/// Fast, slow and signal window lengths of the moving-average-convergence
/// family.
#[derive(Clone, Copy, Debug, PartialEq, Eq, Structural)]
pub struct MacdKwargs {
    pub fastperiod: i32,
    pub slowperiod: i32,
    pub signalperiod: i32,
}

/// Signal window length of the fixed-period variant of the same family.
#[derive(Clone, Copy, Debug, PartialEq, Eq, Structural)]
pub struct MacdFixKwargs {
    pub signalperiod: i32,
}

/// The three window lengths of the ultimate oscillator.
#[derive(Clone, Copy, Debug, PartialEq, Eq, Structural)]
pub struct UltOscKwargs {
    pub timeperiod1: i32,
    pub timeperiod2: i32,
    pub timeperiod3: i32,
}

/// Window length of the beta statistic.
#[derive(Clone, Copy, Debug, PartialEq, Eq, Structural)]
pub struct BetaKwargs {
    pub timeperiod: i32,
}

/// Window length of the correlation statistic.
#[derive(Clone, Copy, Debug, PartialEq, Eq, Structural)]
pub struct CorrelKwargs {
    pub timeperiod: i32,
}

/// Window length of the linear regression value.
#[derive(Clone, Copy, Debug, PartialEq, Eq, Structural)]
pub struct LinearRegKwargs {
    pub timeperiod: i32,
}

/// Window length of the linear regression angle.
#[derive(Clone, Copy, Debug, PartialEq, Eq, Structural)]
pub struct LinearRegAngleKwargs {
    pub timeperiod: i32,
}

/// Window length of the linear regression intercept.
#[derive(Clone, Copy, Debug, PartialEq, Eq, Structural)]
pub struct LinearRegInterceptKwargs {
    pub timeperiod: i32,
}

/// Window length of the linear regression slope.
#[derive(Clone, Copy, Debug, PartialEq, Eq, Structural)]
pub struct LinearRegSlopeKwargs {
    pub timeperiod: i32,
}

/// Window length of the time-series forecast.
#[derive(Clone, Copy, Debug, PartialEq, Eq, Structural)]
pub struct TsfKwargs {
    pub timeperiod: i32,
}

/// Window length of the average true range.
#[derive(Clone, Copy, Debug, PartialEq, Eq, Structural)]
pub struct ATRKwargs {
    pub timeperiod: i32,
}

/// Window length of the normalized average true range.
#[derive(Clone, Copy, Debug, PartialEq, Eq, Structural)]
pub struct NATRKwargs {
    pub timeperiod: i32,
}

/// Fast and slow window lengths of the accumulation/distribution
/// oscillator.
#[derive(Clone, Copy, Debug, PartialEq, Eq, Structural)]
pub struct ADOSCKwargs {
    pub fastperiod: i32,
    pub slowperiod: i32,
}

} // verus!
