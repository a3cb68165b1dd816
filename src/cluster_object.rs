use vstd::prelude::*;

use crate::resource_type::ResourceType;

verus! {

/// A workload as listed: its identity is the pair of name and kind.
#[derive(Debug, Clone)]
pub struct ClusterObject {
    pub name: String,
    pub resource_type: ResourceType,
    pub details: Option<String>,
}

/// What a listed workload holds, as plain values.
pub struct ObjectView {
    pub name: Seq<char>,
    pub resource_type: ResourceType,
    pub details: Option<Seq<char>>,
}

pub open spec fn option_string_view(o: Option<String>) -> Option<Seq<char>> {
    match o {
        Some(s) => Some(s@),
        None => None,
    }
}

impl View for ClusterObject {
    type V = ObjectView;

    open spec fn view(&self) -> ObjectView {
        ObjectView {
            name: self.name@,
            resource_type: self.resource_type,
            details: option_string_view(self.details),
        }
    }
}

impl ClusterObject {
    pub fn new(name: String, resource_type: ResourceType, details: Option<String>) -> (r:
        ClusterObject)
        ensures
            r.name@ == name@,
            r.resource_type == resource_type,
            option_string_view(r.details) == option_string_view(details),
    {
        ClusterObject { name, resource_type, details }
    }
}

} // verus!
