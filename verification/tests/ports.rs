use web_midi::access::{AccessReply, AccessRequest, EnumerationReply, MidiAccess};
use web_midi::error::{MidiError, PortOperation};
use web_midi::port::{ConnectionState, DeviceState, HostReply, PortDescriptor};

fn session() -> MidiAccess {
    let request = AccessRequest { sysex: false, software: false };
    MidiAccess::get_access(request, AccessReply::Granted { sysex_enabled: false }).unwrap()
}

fn descriptor(id: &str) -> PortDescriptor {
    PortDescriptor {
        id: id.to_string(),
        manufacturer: Some("Acme Instruments".to_string()),
        name: Some("Keys 49".to_string()),
        version: Some("1.2".to_string()),
        state: DeviceState::Connected,
        connection: ConnectionState::Closed,
    }
}

#[test]
fn failed_enumeration_is_a_typed_error() {
    let s = session();
    let r = s.inputs(EnumerationReply::Failed);
    assert!(matches!(r, Err(MidiError::EnumerationFailed)));
    let r = s.outputs(EnumerationReply::Failed);
    assert!(matches!(r, Err(MidiError::EnumerationFailed)));
}

#[test]
fn snapshot_preserves_reported_metadata() {
    let s = session();
    let outs = s.outputs(EnumerationReply::Ports(vec![descriptor("out-1")])).unwrap();
    assert_eq!(outs.len(), 1);
    let port = &outs[0];
    assert_eq!(port.id().as_str(), "out-1");
    assert_eq!(port.manufacturer(), &Some("Acme Instruments".to_string()));
    assert_eq!(port.name(), &Some("Keys 49".to_string()));
    assert_eq!(port.version(), &Some("1.2".to_string()));
    assert_eq!(port.state(), DeviceState::Connected);
    assert_eq!(port.connection(), ConnectionState::Closed);
}

#[test]
fn absent_metadata_stays_absent() {
    let s = session();
    let desc = PortDescriptor {
        id: "in-7".to_string(),
        manufacturer: None,
        name: None,
        version: None,
        state: DeviceState::Disconnected,
        connection: ConnectionState::Closed,
    };
    let ins = s.inputs(EnumerationReply::Ports(vec![desc])).unwrap();
    let port = &ins[0];
    assert_eq!(port.manufacturer(), &None);
    assert_eq!(port.name(), &None);
    assert_eq!(port.version(), &None);
    assert_eq!(port.state(), DeviceState::Disconnected);
}

#[test]
fn enumerating_twice_yields_the_same_id_set() {
    let s = session();
    let snapshot = || EnumerationReply::Ports(vec![descriptor("a"), descriptor("b")]);
    let first = s.inputs(snapshot()).unwrap();
    let second = s.inputs(snapshot()).unwrap();
    let mut ids1: Vec<String> = first.iter().map(|p| p.id().clone()).collect();
    let mut ids2: Vec<String> = second.iter().map(|p| p.id().clone()).collect();
    ids1.sort();
    ids2.sort();
    assert_eq!(ids1, ids2);
}

#[test]
fn metadata_queries_are_stable_across_the_lifecycle() {
    let s = session();
    let mut outs = s.outputs(EnumerationReply::Ports(vec![descriptor("out-1")])).unwrap();
    let port = &mut outs[0];
    let before = port.id().clone();
    assert_eq!(port.id().clone(), before);
    port.open(HostReply::Accepted).unwrap();
    assert_eq!(port.id().clone(), before);
    port.close(HostReply::Accepted).unwrap();
    assert_eq!(port.id().clone(), before);
    assert_eq!(port.manufacturer(), &Some("Acme Instruments".to_string()));
}

#[test]
fn open_then_close_leaves_the_connection_closed() {
    let s = session();
    let mut outs = s.outputs(EnumerationReply::Ports(vec![descriptor("out-1")])).unwrap();
    let port = &mut outs[0];
    port.open(HostReply::Accepted).unwrap();
    assert_eq!(port.connection(), ConnectionState::Open);
    port.close(HostReply::Accepted).unwrap();
    assert_eq!(port.connection(), ConnectionState::Closed);
}

#[test]
fn input_ports_share_the_lifecycle_contract() {
    let s = session();
    let mut ins = s.inputs(EnumerationReply::Ports(vec![descriptor("in-1")])).unwrap();
    let port = &mut ins[0];
    port.open(HostReply::Accepted).unwrap();
    assert_eq!(port.connection(), ConnectionState::Open);
    port.close(HostReply::Accepted).unwrap();
    assert_eq!(port.connection(), ConnectionState::Closed);
}

#[test]
fn rejected_open_names_the_port_and_operation() {
    let s = session();
    let mut outs = s.outputs(EnumerationReply::Ports(vec![descriptor("out-9")])).unwrap();
    let port = &mut outs[0];
    let r = port.open(HostReply::Rejected);
    match r {
        Err(MidiError::PortOperationFailed { port_id, operation }) => {
            assert_eq!(port_id.as_str(), "out-9");
            assert_eq!(operation, PortOperation::Open);
        }
        other => panic!("expected a port operation failure, got {:?}", other),
    }
    assert_eq!(port.connection(), ConnectionState::Closed);
}

#[test]
fn rejected_close_leaves_the_port_untouched() {
    let s = session();
    let mut ins = s.inputs(EnumerationReply::Ports(vec![descriptor("in-9")])).unwrap();
    let port = &mut ins[0];
    port.open(HostReply::Accepted).unwrap();
    let r = port.close(HostReply::Rejected);
    match r {
        Err(MidiError::PortOperationFailed { port_id, operation }) => {
            assert_eq!(port_id.as_str(), "in-9");
            assert_eq!(operation, PortOperation::Close);
        }
        other => panic!("expected a port operation failure, got {:?}", other),
    }
    assert_eq!(port.connection(), ConnectionState::Open);
}
