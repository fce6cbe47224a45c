//! What the database holds of services and nodes.
use crate::nodes::{CpuLoad, CpuLoadModel};
use vstd::prelude::*;

verus! {

/// The last known state of a service.
#[derive(Clone, Debug, PartialEq, Eq)]
pub struct ServiceState {
    pub service: String,
    pub last_status: String,
    pub last_checked: String,
}

/// What a `ServiceState` holds.
pub struct ServiceModel {
    pub service: Seq<char>,
    pub last_status: Seq<char>,
    pub last_checked: Seq<char>,
}

impl DeepView for ServiceState {
    type V = ServiceModel;

    open spec fn deep_view(&self) -> ServiceModel {
        ServiceModel {
            service: self.service@,
            last_status: self.last_status@,
            last_checked: self.last_checked@,
        }
    }
}

/// The last known state of a node.
#[derive(Clone, Debug, PartialEq, Eq)]
pub struct NodeSnapshot {
    pub node: String,
    pub last_status: String,
    pub disk_pct: Option<u8>,
    pub cpu_load: Option<CpuLoad>,
    pub mem_pct: Option<u8>,
}

/// What a `NodeSnapshot` holds.
pub struct SnapshotModel {
    pub node: Seq<char>,
    pub last_status: Seq<char>,
    pub disk_pct: Option<u8>,
    pub cpu_load: Option<CpuLoadModel>,
    pub mem_pct: Option<u8>,
}

impl DeepView for NodeSnapshot {
    type V = SnapshotModel;

    open spec fn deep_view(&self) -> SnapshotModel {
        SnapshotModel {
            node: self.node@,
            last_status: self.last_status@,
            disk_pct: self.disk_pct,
            cpu_load: self.cpu_load.deep_view(),
            mem_pct: self.mem_pct,
        }
    }
}

/// What states hold is what their fields hold.
pub proof fn law_states_are_seen_as_they_are(service: ServiceState, node: NodeSnapshot)
    ensures
        service.deep_view().service == service.service@,
        service.deep_view().last_status == service.last_status@,
        service.deep_view().last_checked == service.last_checked@,
        node.deep_view().node == node.node@,
        node.deep_view().last_status == node.last_status@,
        node.deep_view().disk_pct == node.disk_pct,
        node.deep_view().cpu_load is Some <==> node.cpu_load is Some,
        node.cpu_load is Some ==> node.deep_view().cpu_load->0.value == node.cpu_load->0.value,
        node.cpu_load is Some ==> node.deep_view().cpu_load->0.text == node.cpu_load->0.text@,
        node.deep_view().mem_pct == node.mem_pct,
{
}

} // verus!
