//! Capabilities the driver consumes: a write-only bus transport and a
//! millisecond delay. Both are supplied by the caller; the driver never
//! implements them itself.

use vstd::prelude::*;

verus! {

/// A write-only two-wire bus transport.
///
/// The driver is generic over the address type `A`, so transports with
/// seven- or ten-bit addressing can both back it.
///
/// An implementation must keep the history discipline stated on
/// [`Bus::write`]: a successful transaction appends exactly one entry to
/// the history, a failed one appends nothing. The history is a
/// specification-level view (it need not be stored at run time); the
/// driver's contracts describe every operation as a change to it.
pub trait Bus<A> {
    /// The transport's own error type, surfaced by the driver verbatim.
    type BusErr;

    /// The sequence of writes `(address, bytes)` completed so far.
    ///
    /// The default stands only so that implementations outside verified
    /// code need not supply a specification-level member; a transport
    /// whose uses are themselves verified overrides it with its real
    /// write log.
    open spec fn history(&self) -> Seq<(A, Seq<u8>)> {
        Seq::empty()
    }

    /// Issue one bus write of `bytes` to the device at `addr`.
    fn write(&mut self, addr: A, bytes: &[u8]) -> (r: Result<(), Self::BusErr>)
        ensures
            r is Ok ==> final(self).history() == old(self).history().push((addr, bytes@)),
            r is Err ==> final(self).history() == old(self).history(),
    ;
}

/// A blocking delay capability, used once during initialization to let
/// the chip settle after leaving software shutdown.
pub trait Delay {
    /// Block for at least `ms` milliseconds.
    fn delay_ms(&mut self, ms: u8);
}

} // verus!
