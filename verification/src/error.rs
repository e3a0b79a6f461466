use vstd::prelude::*;

verus! {

/// The three ways a driver operation can fail.
///
/// `E` is the error type of the underlying bus transport; the driver
/// treats it opaquely and propagates it verbatim.
#[derive(Debug, PartialEq, Eq)]
pub enum Error<E> {
    /// A caller-supplied value lies outside the representable range:
    /// a codec input of 100 or more, or a timestamp the device cannot
    /// store. Detected before any bus activity.
    DomainViolation,
    /// Bytes read from the device do not decode into a valid calendar
    /// timestamp: the chip is uninitialized or holds corrupted state.
    InvalidDeviceData,
    /// The underlying bus transaction failed; carries the transport's
    /// own error unchanged.
    Transport(E),
}

} // verus!
