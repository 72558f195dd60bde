//! The bus capability the controller writes through, and a recording
//! transport for exercising the controller without hardware.
//!
//! The chip is driven by two-byte register writes. The transport is
//! injected: the platform supplies anything that can carry such a write
//! and report success or failure.

use vstd::prelude::*;

verus! {

/// A transport that carries two-byte register writes `[address, data]` to
/// the display chip.
///
/// `log` is the sequence of writes the transport has successfully carried,
/// in order; every implementation must extend it by exactly the attempted
/// write on success and leave it unchanged on failure.
pub trait SegmentBus {
    /// Transport-specific failure, propagated verbatim to the caller.
    type Error;

    /// The register writes successfully carried so far, in order, each as
    /// an (address, data) pair. Every implementation that verified code
    /// reasons about overrides this; the default stands only so that
    /// unverified platform transports need not name it.
    open spec fn log(&self) -> Seq<(u8, u8)> {
        Seq::empty()
    }

    /// Carry one register write of `data` to the register at `addr`.
    fn write(&mut self, addr: u8, data: u8) -> (r: Result<(), Self::Error>)
        ensures
            r is Ok ==> final (self).log() == old(self).log().push((addr, data)),
            r is Err ==> final (self).log() == old(self).log(),
    ;
}

/// The failure a [`RecordingBus`] produces, carrying a code so a caller
/// can see that a failure reaches it unchanged.
#[derive(Clone, Copy, PartialEq, Eq, Structural, Debug)]
pub struct BusFault {
    pub code: u8,
}

/// A transport that records every register write it carries, and can be
/// told to fail one chosen write attempt. It stands in for the platform's
/// bus when exercising the controller.
pub struct RecordingBus {
    /// The writes successfully carried, in order.
    pub writes: Vec<(u8, u8)>,
    /// Write attempts made so far, successful or not.
    pub attempts: u64,
    /// Attempt index (counting from zero) at which the bus fails, once.
    pub fail_on: Option<u64>,
    /// The code carried by the produced fault.
    pub fault_code: u8,
}

impl RecordingBus {
    /// A transport that never fails and starts with an empty record.
    pub fn new() -> (r: RecordingBus)
        ensures
            r.log() == Seq::<(u8, u8)>::empty(),
            r.fail_on is None,
    {
        RecordingBus { writes: Vec::new(), attempts: 0, fail_on: None, fault_code: 0 }
    }

    /// A transport that fails the write attempt with index `attempt`
    /// (counting from zero) with the fault code `code`, and carries every
    /// other write.
    pub fn failing_at(attempt: u64, code: u8) -> (r: RecordingBus)
        ensures
            r.log() == Seq::<(u8, u8)>::empty(),
    {
        RecordingBus { writes: Vec::new(), attempts: 0, fail_on: Some(attempt), fault_code: code }
    }
}

impl SegmentBus for RecordingBus {
    type Error = BusFault;

    open spec fn log(&self) -> Seq<(u8, u8)> {
        self.writes@
    }

    fn write(&mut self, addr: u8, data: u8) -> (r: Result<(), BusFault>) {
        let attempt = self.attempts;
        if self.attempts < u64::MAX {
            self.attempts = self.attempts + 1;
        }
        let fail = match self.fail_on {
            Some(k) => attempt == k,
            None => false,
        };
        if fail {
            Err(BusFault { code: self.fault_code })
        } else {
            self.writes.push((addr, data));
            Ok(())
        }
    }
}

} // verus!
