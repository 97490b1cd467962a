use vstd::prelude::*;

verus! {

/// Which port lifecycle operation the host rejected.
#[derive(Clone, Copy, Debug, PartialEq, Eq, Structural)]
pub enum PortOperation {
    Open,
    Close,
}

/// Why a transmission was refused.
#[derive(Clone, Copy, Debug, PartialEq, Eq, Structural)]
pub enum SendErrorReason {
    /// The port's connection is not open, so nothing was handed to the host.
    NotOpen,
    /// The payload holds no bytes. An empty payload is never released to
    /// the host: it is refused with this reason.
    EmptyMessage,
    /// The host refused a released payload (for instance, malformed MIDI
    /// data or a device that vanished mid-call).
    RejectedByHost,
}

/// Every failure the access layer can report. Host-reported failures are
/// surfaced as values of this type; no operation aborts the process.
#[derive(Debug)]
pub enum MidiError {
    /// The host refused the permission request.
    AccessDenied,
    /// The host's port enumeration failed or returned malformed data.
    EnumerationFailed,
    /// The host rejected an open or close transition on the named port.
    PortOperationFailed { port_id: String, operation: PortOperation },
    /// A transmission was refused, by this layer or by the host.
    SendFailed { reason: SendErrorReason },
}

} // verus!
