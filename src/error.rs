use vstd::prelude::*;

verus! {

/// The ways a one-time-password operation can fail.
#[derive(Clone, Copy, Debug, PartialEq, Eq, Structural)]
pub enum TotpError {
    /// The secret is not valid unpadded base32, or the keyed hash rejected it.
    InvalidSecret,
    /// The step is zero, or the time lies before the epoch start.
    InvalidTiming,
    /// The system clock could not be read.
    ClockUnavailable,
    /// The enrollment URL does not fit in a QR symbol.
    QrEncoding,
}

} // verus!
