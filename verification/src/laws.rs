use vstd::prelude::*;

use crate::port::{ConnectionState, PortModel, with_connection};

verus! {

/// The set of port identifiers in a snapshot, order forgotten.
pub open spec fn id_set(ports: Seq<PortModel>) -> Set<Seq<char>> {
    Set::new(|id: Seq<char>| exists|i: int| 0 <= i < ports.len() && ports[i].id == id)
}

/// Law: no connection transition touches a port's identity or metadata.
/// A port's id, manufacturer, name, version and device state survive
/// every open and close, so repeated metadata queries within a session
/// always agree.
pub proof fn lemma_metadata_stable_under_lifecycle(p: PortModel, c: ConnectionState)
    ensures
        with_connection(p, c).id == p.id,
        with_connection(p, c).manufacturer == p.manufacturer,
        with_connection(p, c).name == p.name,
        with_connection(p, c).version == p.version,
        with_connection(p, c).state == p.state,
{
}

/// Law: opening a port and then immediately closing it leaves the
/// connection closed, with the port's identity untouched.
pub proof fn lemma_open_then_close_leaves_closed(p: PortModel)
    ensures
        with_connection(with_connection(p, ConnectionState::Open), ConnectionState::Closed)
            .connection == ConnectionState::Closed,
        with_connection(with_connection(p, ConnectionState::Open), ConnectionState::Closed).id
            == p.id,
{
}

/// Law: two snapshots built from enumeration answers that report the
/// same ports carry the same set of identifiers, whatever order the
/// host listed them in. The premises are exactly what the enumeration
/// methods ensure of their results.
pub proof fn lemma_snapshots_agree_on_ids(ds: Seq<PortModel>, v1: Seq<PortModel>, v2: Seq<PortModel>)
    requires
        v1.len() == ds.len(),
        forall|i: int| 0 <= i < ds.len() ==> v1[i] == ds[i],
        v2.len() == ds.len(),
        forall|i: int| 0 <= i < ds.len() ==> v2[i] == ds[i],
    ensures
        id_set(v1) == id_set(v2),
{
    assert(v1 =~= v2);
}

} // verus!
