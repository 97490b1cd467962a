use vstd::prelude::*;

use crate::error::MidiError;
use crate::port::{MidiInput, MidiOutput, PortDescriptor};

verus! {

/// The options a permission request carries to the host: whether the
/// application wants system-exclusive messages, and whether software
/// synthesizers should count as ports.
#[derive(Clone, Copy, Debug, PartialEq, Eq, Structural)]
pub struct AccessRequest {
    pub sysex: bool,
    pub software: bool,
}

/// The host's answer to a permission request. The request may suspend
/// the caller while the host prompts the user; what comes back is one
/// of these.
#[derive(Clone, Copy, Debug, PartialEq, Eq, Structural)]
pub enum AccessReply {
    /// Access granted; `sysex_enabled` says whether the host granted
    /// system-exclusive support.
    Granted { sysex_enabled: bool },
    /// The host refused the request.
    Denied,
}

/// The host's answer to one port enumeration call: the ports it sees
/// right now, or a failure.
pub enum EnumerationReply {
    Ports(Vec<PortDescriptor>),
    Failed,
}

/// A live session with the host's MIDI subsystem, produced by a granted
/// permission request. It scopes port enumeration and records what the
/// negotiation yielded.
pub struct MidiAccess {
    sysex: bool,
}

impl MidiAccess {
    /// Whether this session was negotiated with system-exclusive
    /// support.
    pub closed spec fn sysex_spec(&self) -> bool {
        self.sysex
    }

    /// Turn the host's answer to a permission request into a session or
    /// a typed error. A granted session reports system-exclusive
    /// support exactly when it was both requested and granted; a denial
    /// is a value, never an abort.
    pub fn get_access(request: AccessRequest, reply: AccessReply) -> (r: Result<MidiAccess, MidiError>)
        ensures
            reply matches AccessReply::Granted { sysex_enabled } ==> (r matches Ok(a)
                && a.sysex_spec() == (request.sysex && sysex_enabled)),
            reply is Denied ==> r matches Err(MidiError::AccessDenied),
    {
        match reply {
            AccessReply::Granted { sysex_enabled } => Ok(
                MidiAccess { sysex: request.sysex && sysex_enabled },
            ),
            AccessReply::Denied => Err(MidiError::AccessDenied),
        }
    }

    /// Whether the negotiated session includes system-exclusive message
    /// support. Pure query; no side effects.
    pub fn sysex_enabled(&self) -> (r: bool)
        ensures
            r == self.sysex_spec(),
    {
        self.sysex
    }

    /// Build the snapshot of input ports from one enumeration answer.
    /// The snapshot is finite and one-shot: it mirrors the reported
    /// ports one for one, in the host's order, and later host-side
    /// changes are not reflected until the method is called again. A
    /// failed enumeration is a typed error.
    pub fn inputs(&self, reply: EnumerationReply) -> (r: Result<Vec<MidiInput>, MidiError>)
        ensures
            reply matches EnumerationReply::Ports(ds) ==> (r matches Ok(v) && v@.len()
                == ds@.len() && forall|i: int| 0 <= i < ds@.len() ==> v@[i]@ == ds@[i]@),
            reply is Failed ==> r matches Err(MidiError::EnumerationFailed),
    {
        match reply {
            EnumerationReply::Ports(ds) => {
                let ghost all = ds@;
                let mut ds = ds;
                let mut v: Vec<MidiInput> = Vec::new();
                while ds.len() > 0
                    invariant
                        v@.len() + ds@.len() == all.len(),
                        forall|i: int| 0 <= i < v@.len() ==> v@[i]@ == all[i]@,
                        forall|i: int| 0 <= i < ds@.len() ==> ds@[i] == all[v@.len() + i],
                    decreases ds@.len(),
                {
                    let d = ds.remove(0);
                    v.push(MidiInput::new(d));
                }
                Ok(v)
            },
            EnumerationReply::Failed => Err(MidiError::EnumerationFailed),
        }
    }

    /// Build the snapshot of output ports from one enumeration answer,
    /// exactly as `inputs` does.
    pub fn outputs(&self, reply: EnumerationReply) -> (r: Result<Vec<MidiOutput>, MidiError>)
        ensures
            reply matches EnumerationReply::Ports(ds) ==> (r matches Ok(v) && v@.len()
                == ds@.len() && forall|i: int| 0 <= i < ds@.len() ==> v@[i]@ == ds@[i]@),
            reply is Failed ==> r matches Err(MidiError::EnumerationFailed),
    {
        match reply {
            EnumerationReply::Ports(ds) => {
                let ghost all = ds@;
                let mut ds = ds;
                let mut v: Vec<MidiOutput> = Vec::new();
                while ds.len() > 0
                    invariant
                        v@.len() + ds@.len() == all.len(),
                        forall|i: int| 0 <= i < v@.len() ==> v@[i]@ == all[i]@,
                        forall|i: int| 0 <= i < ds@.len() ==> ds@[i] == all[v@.len() + i],
                    decreases ds@.len(),
                {
                    let d = ds.remove(0);
                    v.push(MidiOutput::new(d));
                }
                Ok(v)
            },
            EnumerationReply::Failed => Err(MidiError::EnumerationFailed),
        }
    }
}

} // verus!
