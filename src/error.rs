use vstd::prelude::*;

verus! {

/// What can go wrong while loading the configuration or reading the battery.
#[derive(Debug, Clone, Copy, PartialEq, Eq, Structural)]
pub enum Error {
    /// A notification text holds a NUL character, which the notifier cannot carry.
    NulByte,
    /// The critical level lies above the low level.
    ThresholdOrder,
    /// The battery reports neither a complete set of energy attributes nor of charge attributes.
    NoAttributePrefix,
    /// The charge now, the full charge or the status is missing from the battery's attributes.
    MissingAttributes,
    /// The full charge is not positive, or the charge now is negative.
    InvalidCharge,
    /// The charge level does not fit in a `u32`.
    LevelOutOfRange,
}

} // verus!
