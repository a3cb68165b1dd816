use vstd::prelude::*;

verus! {

/// The workload kinds that a listing aggregates.
#[derive(Debug, Clone, Copy, PartialEq, Eq, Structural)]
pub enum ResourceType {
    Pod,
    Deployment,
    ReplicaSet,
    StatefulSet,
    DaemonSet,
}

impl ResourceType {
    /// The display label of each kind.
    pub open spec fn label(self) -> Seq<char> {
        match self {
            ResourceType::Pod => "Pod"@,
            ResourceType::Deployment => "Deployment"@,
            ResourceType::ReplicaSet => "ReplicaSet"@,
            ResourceType::StatefulSet => "StatefulSet"@,
            ResourceType::DaemonSet => "DaemonSet"@,
        }
    }

    pub fn to_string(&self) -> (r: String)
        ensures
            r@ == self.label(),
    {
        match self {
            ResourceType::Pod => "Pod".to_owned(),
            ResourceType::Deployment => "Deployment".to_owned(),
            ResourceType::ReplicaSet => "ReplicaSet".to_owned(),
            ResourceType::StatefulSet => "StatefulSet".to_owned(),
            ResourceType::DaemonSet => "DaemonSet".to_owned(),
        }
    }
}

} // verus!
