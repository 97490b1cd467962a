use vstd::prelude::*;

use crate::error::{MidiError, PortOperation, SendErrorReason};

verus! {

/// Whether the device behind a port is physically present. The host is
/// the source of truth; the value held here is what the host reported
/// when the port was enumerated.
#[derive(Clone, Copy, Debug, PartialEq, Eq, Structural)]
pub enum DeviceState {
    Connected,
    Disconnected,
}

/// The lifecycle state of a port's connection. It changes only through
/// explicit open and close calls made through this layer.
#[derive(Clone, Copy, Debug, PartialEq, Eq, Structural)]
pub enum ConnectionState {
    Open,
    Closed,
    Pending,
}

/// The host's verdict on an operation it was asked to perform.
#[derive(Clone, Copy, Debug, PartialEq, Eq, Structural)]
pub enum HostReply {
    Accepted,
    Rejected,
}

/// Everything the host reports about one port, as plain values. The
/// embedding layer reads these off the host's port object and hands
/// them in; absent metadata stays absent, never an empty-string stand-in.
pub struct PortDescriptor {
    pub id: String,
    pub manufacturer: Option<String>,
    pub name: Option<String>,
    pub version: Option<String>,
    pub state: DeviceState,
    pub connection: ConnectionState,
}

/// The mathematical view of a port: its host-assigned identity, the
/// optional metadata, and the two state attributes.
pub ghost struct PortModel {
    pub id: Seq<char>,
    pub manufacturer: Option<Seq<char>>,
    pub name: Option<Seq<char>>,
    pub version: Option<Seq<char>>,
    pub state: DeviceState,
    pub connection: ConnectionState,
}

/// The view of an optional host-reported string.
pub open spec fn opt_view(o: Option<String>) -> Option<Seq<char>> {
    match o {
        Option::Some(s) => Option::Some(s@),
        Option::None => Option::None,
    }
}

impl View for PortDescriptor {
    type V = PortModel;

    open spec fn view(&self) -> PortModel {
        PortModel {
            id: self.id@,
            manufacturer: opt_view(self.manufacturer),
            name: opt_view(self.name),
            version: opt_view(self.version),
            state: self.state,
            connection: self.connection,
        }
    }
}

/// The same port with its connection moved to `c`; identity, metadata
/// and device state are untouched.
pub open spec fn with_connection(p: PortModel, c: ConnectionState) -> PortModel {
    PortModel { connection: c, ..p }
}

/// An input port: a handle over host-reported state, able to open and
/// close its connection. Receiving messages is host-push and needs a
/// subscription surface this layer does not yet define.
pub struct MidiInput {
    port: PortDescriptor,
}

/// An output port: everything an input port has, plus transmission.
pub struct MidiOutput {
    port: PortDescriptor,
}

impl View for MidiInput {
    type V = PortModel;

    closed spec fn view(&self) -> PortModel {
        self.port@
    }
}

impl View for MidiOutput {
    type V = PortModel;

    closed spec fn view(&self) -> PortModel {
        self.port@
    }
}

impl MidiInput {
    /// Wrap one host-reported port.
    pub fn new(port: PortDescriptor) -> (p: Self)
        ensures
            p@ == port@,
    {
        MidiInput { port }
    }

    /// The host-assigned identifier, stable for the life of the session.
    pub fn id(&self) -> (r: &String)
        ensures
            r@ == self@.id,
    {
        &self.port.id
    }

    /// The manufacturer the host reported, if it reported one.
    pub fn manufacturer(&self) -> (r: &Option<String>)
        ensures
            opt_view(*r) == self@.manufacturer,
    {
        &self.port.manufacturer
    }

    /// The device name the host reported, if it reported one.
    pub fn name(&self) -> (r: &Option<String>)
        ensures
            opt_view(*r) == self@.name,
    {
        &self.port.name
    }

    /// The version string the host reported, if it reported one.
    pub fn version(&self) -> (r: &Option<String>)
        ensures
            opt_view(*r) == self@.version,
    {
        &self.port.version
    }

    /// Whether the device is present, as of the enumeration that
    /// produced this handle.
    pub fn state(&self) -> (r: DeviceState)
        ensures
            r == self@.state,
    {
        self.port.state
    }

    /// The current connection state of this handle.
    pub fn connection(&self) -> (r: ConnectionState)
        ensures
            r == self@.connection,
    {
        self.port.connection
    }

    /// Record the host's verdict on an open request for this port. On
    /// acceptance the connection is open and nothing else changed; on
    /// rejection the port is untouched and the failure is reported as a
    /// typed error naming the port and the operation.
    pub fn open(&mut self, reply: HostReply) -> (r: Result<(), MidiError>)
        ensures
            reply is Accepted ==> r is Ok && final(self)@ == with_connection(
                old(self)@,
                ConnectionState::Open,
            ),
            reply is Rejected ==> final(self)@ == old(self)@ && (r matches Err(
                MidiError::PortOperationFailed { port_id, operation },
            ) && port_id@ == old(self)@.id && operation == PortOperation::Open),
    {
        apply_transition(&mut self.port, reply, PortOperation::Open, ConnectionState::Open)
    }

    /// Record the host's verdict on a close request for this port, the
    /// same way `open` does; on acceptance the connection is closed.
    pub fn close(&mut self, reply: HostReply) -> (r: Result<(), MidiError>)
        ensures
            reply is Accepted ==> r is Ok && final(self)@ == with_connection(
                old(self)@,
                ConnectionState::Closed,
            ),
            reply is Rejected ==> final(self)@ == old(self)@ && (r matches Err(
                MidiError::PortOperationFailed { port_id, operation },
            ) && port_id@ == old(self)@.id && operation == PortOperation::Close),
    {
        apply_transition(&mut self.port, reply, PortOperation::Close, ConnectionState::Closed)
    }
}

/// Shared lifecycle step for both port kinds: accept moves the
/// connection to `target`, reject leaves the port alone and names the
/// failed operation.
fn apply_transition(
    port: &mut PortDescriptor,
    reply: HostReply,
    operation: PortOperation,
    target: ConnectionState,
) -> (r: Result<(), MidiError>)
    ensures
        reply is Accepted ==> r is Ok && final(port)@ == with_connection(old(port)@, target),
        reply is Rejected ==> final(port)@ == old(port)@ && (r matches Err(
            MidiError::PortOperationFailed { port_id, operation: op },
        ) && port_id@ == old(port)@.id && op == operation),
{
    match reply {
        HostReply::Accepted => {
            port.connection = target;
            Ok(())
        },
        HostReply::Rejected => Err(
            MidiError::PortOperationFailed { port_id: port.id.clone(), operation },
        ),
    }
}

impl MidiOutput {
    /// Wrap one host-reported port.
    pub fn new(port: PortDescriptor) -> (p: Self)
        ensures
            p@ == port@,
    {
        MidiOutput { port }
    }

    /// The host-assigned identifier, stable for the life of the session.
    pub fn id(&self) -> (r: &String)
        ensures
            r@ == self@.id,
    {
        &self.port.id
    }

    /// The manufacturer the host reported, if it reported one.
    pub fn manufacturer(&self) -> (r: &Option<String>)
        ensures
            opt_view(*r) == self@.manufacturer,
    {
        &self.port.manufacturer
    }

    /// The device name the host reported, if it reported one.
    pub fn name(&self) -> (r: &Option<String>)
        ensures
            opt_view(*r) == self@.name,
    {
        &self.port.name
    }

    /// The version string the host reported, if it reported one.
    pub fn version(&self) -> (r: &Option<String>)
        ensures
            opt_view(*r) == self@.version,
    {
        &self.port.version
    }

    /// Whether the device is present, as of the enumeration that
    /// produced this handle.
    pub fn state(&self) -> (r: DeviceState)
        ensures
            r == self@.state,
    {
        self.port.state
    }

    /// The current connection state of this handle.
    pub fn connection(&self) -> (r: ConnectionState)
        ensures
            r == self@.connection,
    {
        self.port.connection
    }

    /// Record the host's verdict on an open request for this port, as
    /// on an input port.
    pub fn open(&mut self, reply: HostReply) -> (r: Result<(), MidiError>)
        ensures
            reply is Accepted ==> r is Ok && final(self)@ == with_connection(
                old(self)@,
                ConnectionState::Open,
            ),
            reply is Rejected ==> final(self)@ == old(self)@ && (r matches Err(
                MidiError::PortOperationFailed { port_id, operation },
            ) && port_id@ == old(self)@.id && operation == PortOperation::Open),
    {
        apply_transition(&mut self.port, reply, PortOperation::Open, ConnectionState::Open)
    }

    /// Record the host's verdict on a close request for this port, as
    /// on an input port.
    pub fn close(&mut self, reply: HostReply) -> (r: Result<(), MidiError>)
        ensures
            reply is Accepted ==> r is Ok && final(self)@ == with_connection(
                old(self)@,
                ConnectionState::Closed,
            ),
            reply is Rejected ==> final(self)@ == old(self)@ && (r matches Err(
                MidiError::PortOperationFailed { port_id, operation },
            ) && port_id@ == old(self)@.id && operation == PortOperation::Close),
    {
        apply_transition(&mut self.port, reply, PortOperation::Close, ConnectionState::Closed)
    }

    /// Discard whatever the host has queued for this port but not yet
    /// delivered. The discard itself is the host's work and always
    /// succeeds; this layer has nothing to decide and no queue of its
    /// own to model.
    pub fn clear(&self) {
    }

    /// Decide whether `data` may be handed to the host for immediate
    /// transmission. A port that is not open refuses (nothing is
    /// transmitted); an empty payload refuses; any other payload is
    /// released. The host's own verdict on a released payload is folded
    /// in with `complete_send`.
    pub fn send(&self, data: &[u8]) -> (r: Result<(), MidiError>)
        ensures
            self@.connection != ConnectionState::Open ==> (r matches Err(
                MidiError::SendFailed { reason },
            ) && reason == SendErrorReason::NotOpen),
            self@.connection == ConnectionState::Open && data@.len() == 0 ==> (r matches Err(
                MidiError::SendFailed { reason },
            ) && reason == SendErrorReason::EmptyMessage),
            self@.connection == ConnectionState::Open && data@.len() > 0 ==> r is Ok,
    {
        if !matches!(self.port.connection, ConnectionState::Open) {
            Err(MidiError::SendFailed { reason: SendErrorReason::NotOpen })
        } else if data.len() == 0 {
            Err(MidiError::SendFailed { reason: SendErrorReason::EmptyMessage })
        } else {
            Ok(())
        }
    }

    /// The same admission decision as `send`, for a payload the host is
    /// to deliver at `timestamp` on its own clock. The timestamp's unit
    /// and epoch belong to the host; it is carried through unexamined
    /// and plays no part in the decision.
    pub fn send_with_timestamp(&self, data: &[u8], timestamp: u64) -> (r: Result<(), MidiError>)
        ensures
            self@.connection != ConnectionState::Open ==> (r matches Err(
                MidiError::SendFailed { reason },
            ) && reason == SendErrorReason::NotOpen),
            self@.connection == ConnectionState::Open && data@.len() == 0 ==> (r matches Err(
                MidiError::SendFailed { reason },
            ) && reason == SendErrorReason::EmptyMessage),
            self@.connection == ConnectionState::Open && data@.len() > 0 ==> r is Ok,
    {
        let _ = timestamp;
        self.send(data)
    }

    /// Fold the host's verdict on a payload this layer released into the
    /// caller's result: acceptance is success, rejection is a typed send
    /// failure.
    pub fn complete_send(&self, reply: HostReply) -> (r: Result<(), MidiError>)
        ensures
            reply is Accepted ==> r is Ok,
            reply is Rejected ==> (r matches Err(MidiError::SendFailed { reason })
                && reason == SendErrorReason::RejectedByHost),
    {
        match reply {
            HostReply::Accepted => Ok(()),
            HostReply::Rejected => Err(
                MidiError::SendFailed { reason: SendErrorReason::RejectedByHost },
            ),
        }
    }
}

} // verus!
