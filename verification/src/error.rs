use vstd::prelude::*;

verus! {

/// The failures an evaluation cycle can surface. Any failure aborts the
/// whole cycle: no partial plan is ever produced.
#[derive(Clone, Copy, Debug, PartialEq, Eq, Structural)]
pub enum EngineError {
    /// Scaling a raw oracle reading into the engine's fixed-point price
    /// representation overflowed the 128-bit range.
    PriceConversion,
    /// Rate math hit a zero divisor, an overflow, or an invalid market
    /// configuration (such as an optimal utilization at a boundary).
    RateComputation,
    /// The oracle reported an insufficient number of data points.
    InsufficientData,
    /// A market snapshot held the wrong variant (a spot market where a
    /// perpetual market was needed, or the reverse).
    WrongMarketKind,
}

} // verus!
