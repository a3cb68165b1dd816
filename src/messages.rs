use vstd::prelude::*;

use crate::cluster_object::ClusterObject;
use crate::error::Error;
use crate::kube_context::KubeContext;
use crate::resource_type::ResourceType;
use crate::workloads::Workloads;

verus! {

/// Every event that the controller accepts.
#[derive(Debug)]
pub enum Message<C> {
    /// Outcome of resolving the ambient context at start-up.
    ContextResolved(Result<KubeContext<C>, Error>),
    /// Outcome of loading (and probing) a context the user chose.
    ContextLoaded(Result<KubeContext<C>, Error>),
    ChangeContextRequested,
    AllContextsLoaded(Result<Vec<String>, Error>),
    ContextSelectorMessage(ContextSelectorMessage),
    ClusterMessage(ClusterMessage),
    CloseToast(u64),
}

/// Events addressed to the active session. Completions carry the
/// generation of the context they were issued under.
#[derive(Debug)]
pub enum ClusterMessage {
    WorkloadsLoaded(u64, Result<Workloads, Error>),
    ChangeNamespaceRequested,
    NamespaceFieldChanged(String),
    NamespaceSelected,
    NamespaceChecked(u64, Result<(), Error>),
    ReloadRequested,
    DeleteRequested(ClusterObject),
    Deleted(Result<ClusterObject, Error>),
}

/// Events addressed to the context chooser.
#[derive(Debug, Clone)]
pub enum ContextSelectorMessage {
    DropDownItemSelected(String),
    DropDownClosed,
    ContextSelected(String),
}

/// An asynchronous operation the controller asks its driver to run. Each
/// one completes with exactly one event.
#[derive(Debug, Clone)]
pub enum Effect {
    ResolveCurrentContext,
    ListContexts,
    LoadContext(String),
    CheckNamespace { generation: u64, namespace: String },
    FetchWorkloads { generation: u64 },
    Delete { generation: u64, name: String, resource_type: ResourceType },
}

pub enum EffectView {
    ResolveCurrentContext,
    ListContexts,
    LoadContext(Seq<char>),
    CheckNamespace { generation: u64, namespace: Seq<char> },
    FetchWorkloads { generation: u64 },
    Delete { generation: u64, name: Seq<char>, resource_type: ResourceType },
}

impl View for Effect {
    type V = EffectView;

    open spec fn view(&self) -> EffectView {
        match self {
            Effect::ResolveCurrentContext => EffectView::ResolveCurrentContext,
            Effect::ListContexts => EffectView::ListContexts,
            Effect::LoadContext(name) => EffectView::LoadContext(name@),
            Effect::CheckNamespace { generation, namespace } => EffectView::CheckNamespace {
                generation: *generation,
                namespace: namespace@,
            },
            Effect::FetchWorkloads { generation } => EffectView::FetchWorkloads {
                generation: *generation,
            },
            Effect::Delete { generation, name, resource_type } => EffectView::Delete {
                generation: *generation,
                name: name@,
                resource_type: *resource_type,
            },
        }
    }
}

pub open spec fn effects_view(v: Seq<Effect>) -> Seq<EffectView> {
    v.map_values(|e: Effect| e@)
}

/// The generation that follows `g`; it stays at the largest value once there.
pub open spec fn next_generation(g: u64) -> u64 {
    if g < u64::MAX {
        (g + 1) as u64
    } else {
        g
    }
}

pub fn advance_generation(g: u64) -> (r: u64)
    ensures
        r == next_generation(g),
{
    if g < u64::MAX {
        g + 1
    } else {
        g
    }
}

/// Notification texts.
pub const LOAD_CONTEXT_FAILED: &'static str =
    "Unable to load given context. Please select a different context.";

pub const LIST_CONTEXTS_FAILED: &'static str =
    "Unable to list the available contexts. Check the cluster configuration.";

pub const LOAD_WORKLOADS_FAILED: &'static str =
    "Unable to load workloads for this namespace. Please select a different namespace or context";

pub const DELETE_FAILED: &'static str = "Failed to delete resource";

pub const NAMESPACE_INACCESSIBLE: &'static str =
    "The given namespace couldn't be accessed. Make sure it exists and you have permission to access it.";

} // verus!
