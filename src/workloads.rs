use vstd::prelude::*;

use crate::cluster_object::{ClusterObject, ObjectView};

verus! {

/// One complete listing of the workloads of a namespace, in listing order.
#[derive(Debug, Clone)]
pub struct Workloads {
    cluster_objects: Vec<ClusterObject>,
}

impl View for Workloads {
    type V = Seq<ObjectView>;

    closed spec fn view(&self) -> Seq<ObjectView> {
        self.cluster_objects@.map_values(|o: ClusterObject| o@)
    }
}

impl Workloads {
    pub fn new(cluster_objects: Vec<ClusterObject>) -> (r: Workloads)
        ensures
            r@ == cluster_objects@.map_values(|o: ClusterObject| o@),
    {
        Workloads { cluster_objects }
    }

    pub fn len(&self) -> (r: usize)
        ensures
            r == self@.len(),
    {
        self.cluster_objects.len()
    }

    pub fn get(&self, i: usize) -> (r: &ClusterObject)
        requires
            i < self@.len(),
        ensures
            r@ == self@[i as int],
    {
        &self.cluster_objects[i]
    }
}

} // verus!
