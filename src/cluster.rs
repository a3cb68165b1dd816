use vstd::prelude::*;

use crate::cluster_object::ObjectView;
use crate::kube_context::{ContextView, KubeContext};
use crate::messages::{
    advance_generation, effects_view, next_generation, ClusterMessage, Effect, EffectView,
    DELETE_FAILED, LOAD_WORKLOADS_FAILED, NAMESPACE_INACCESSIBLE,
};
use crate::toast::{Severity, ToastQueue, ToastsView};
use crate::workloads::Workloads;

verus! {

/// Where the session stands in switching namespace.
#[derive(Debug, Clone)]
pub enum NamespaceMode {
    /// The workload listing is shown.
    Viewing,
    /// The user edits the namespace field.
    Editing,
    /// The namespace held here is being checked for access.
    Validating(String),
}

pub enum ModeView {
    Viewing,
    Editing,
    Validating(Seq<char>),
}

impl View for NamespaceMode {
    type V = ModeView;

    open spec fn view(&self) -> ModeView {
        match self {
            NamespaceMode::Viewing => ModeView::Viewing,
            NamespaceMode::Editing => ModeView::Editing,
            NamespaceMode::Validating(ns) => ModeView::Validating(ns@),
        }
    }
}

/// An active session: the context in use, its cached listing (absent while
/// the first fetch is outstanding), the namespace switch in progress, and
/// the generation under which its operations are issued.
#[derive(Debug, Clone)]
pub struct Cluster<C> {
    context: KubeContext<C>,
    workloads: Option<Workloads>,
    mode: NamespaceMode,
    namespace_field_value: String,
    generation: u64,
}

pub struct SessionView<C> {
    pub context: ContextView<C>,
    pub workloads: Option<Seq<ObjectView>>,
    pub mode: ModeView,
    pub field: Seq<char>,
    pub generation: u64,
}

pub open spec fn workloads_view(w: Option<Workloads>) -> Option<Seq<ObjectView>> {
    match w {
        Some(w) => Some(w@),
        None => None,
    }
}

impl<C> View for Cluster<C> {
    type V = SessionView<C>;

    closed spec fn view(&self) -> SessionView<C> {
        SessionView {
            context: self.context@,
            workloads: workloads_view(self.workloads),
            mode: self.mode@,
            field: self.namespace_field_value@,
            generation: self.generation,
        }
    }
}

/// A fresh session on `context`, viewing, with nothing fetched yet.
pub open spec fn fresh_session<C>(context: ContextView<C>, generation: u64) -> SessionView<C> {
    SessionView {
        context,
        workloads: None,
        mode: ModeView::Viewing,
        field: Seq::empty(),
        generation,
    }
}

/// How a session reacts to an event: its next state, the notification queue
/// after it, and the operations it asks to run.
///
/// Completions issued under another generation than the session's are
/// dropped. Fetches are not coalesced: each refresh while viewing issues one,
/// and the last completion of the current generation wins. A deletion never
/// touches the listing; only the next fetch shows its effect.
pub open spec fn cluster_step<C>(c: SessionView<C>, t: ToastsView, m: ClusterMessage) -> (
    SessionView<C>,
    ToastsView,
    Seq<EffectView>,
) {
    match m {
        ClusterMessage::WorkloadsLoaded(g, result) => {
            if g != c.generation {
                (c, t, Seq::empty())
            } else {
                match result {
                    Ok(w) => (SessionView { workloads: Some(w@), ..c }, t, Seq::empty()),
                    Err(_) => (
                        SessionView {
                            mode: match c.mode {
                                ModeView::Viewing => ModeView::Editing,
                                _ => c.mode,
                            },
                            ..c
                        },
                        t.pushed(LOAD_WORKLOADS_FAILED@, Severity::Danger),
                        Seq::empty(),
                    ),
                }
            }
        },
        ClusterMessage::ChangeNamespaceRequested => match c.mode {
            ModeView::Viewing => (SessionView { mode: ModeView::Editing, ..c }, t, Seq::empty()),
            _ => (c, t, Seq::empty()),
        },
        ClusterMessage::NamespaceFieldChanged(text) => match c.mode {
            ModeView::Viewing => (c, t, Seq::empty()),
            _ => (SessionView { field: text@, ..c }, t, Seq::empty()),
        },
        ClusterMessage::NamespaceSelected => match c.mode {
            ModeView::Editing => {
                if c.field.len() > 0 {
                    (
                        SessionView { mode: ModeView::Validating(c.field), ..c },
                        t,
                        seq![
                            EffectView::CheckNamespace {
                                generation: c.generation,
                                namespace: c.field,
                            },
                        ],
                    )
                } else {
                    (c, t, Seq::empty())
                }
            },
            _ => (c, t, Seq::empty()),
        },
        ClusterMessage::NamespaceChecked(g, result) => match c.mode {
            ModeView::Validating(candidate) => {
                if g != c.generation {
                    (c, t, Seq::empty())
                } else {
                    match result {
                        Ok(_) => {
                            let ng = next_generation(c.generation);
                            (
                                SessionView {
                                    context: ContextView {
                                        config: c.context.config,
                                        namespace: candidate,
                                    },
                                    workloads: c.workloads,
                                    mode: ModeView::Viewing,
                                    field: Seq::empty(),
                                    generation: ng,
                                },
                                t,
                                seq![EffectView::FetchWorkloads { generation: ng }],
                            )
                        },
                        Err(_) => (
                            SessionView { mode: ModeView::Editing, field: Seq::empty(), ..c },
                            t.pushed(NAMESPACE_INACCESSIBLE@, Severity::Danger),
                            Seq::empty(),
                        ),
                    }
                }
            },
            _ => (c, t, Seq::empty()),
        },
        ClusterMessage::ReloadRequested => match c.mode {
            ModeView::Viewing => (
                c,
                t,
                seq![EffectView::FetchWorkloads { generation: c.generation }],
            ),
            _ => (c, t, Seq::empty()),
        },
        ClusterMessage::DeleteRequested(object) => (
            c,
            t,
            seq![
                EffectView::Delete {
                    generation: c.generation,
                    name: object.name@,
                    resource_type: object.resource_type,
                },
            ],
        ),
        ClusterMessage::Deleted(result) => match result {
            Ok(_) => (c, t, Seq::empty()),
            Err(_) => (c, t.pushed(DELETE_FAILED@, Severity::Danger), Seq::empty()),
        },
    }
}

fn no_effects() -> (r: Vec<Effect>)
    ensures
        effects_view(r@) == Seq::<EffectView>::empty(),
{
    let r: Vec<Effect> = Vec::new();
    assert(effects_view(r@) =~= Seq::<EffectView>::empty());
    r
}

fn one_effect(e: Effect) -> (r: Vec<Effect>)
    ensures
        effects_view(r@) == seq![e@],
{
    let r = vec![e];
    assert(effects_view(r@) =~= seq![e@]);
    r
}

impl<C> Cluster<C> {
    /// A session on `context` with the given listing, in generation 0.
    pub fn new(context: KubeContext<C>, workloads: Option<Workloads>) -> (r: Cluster<C>)
        ensures
            r@ == (SessionView {
                context: context@,
                workloads: workloads_view(workloads),
                mode: ModeView::Viewing,
                field: Seq::empty(),
                generation: 0,
            }),
    {
        Cluster {
            context,
            workloads,
            mode: NamespaceMode::Viewing,
            namespace_field_value: String::new(),
            generation: 0,
        }
    }

    /// A session on `context` whose operations are issued under `generation`.
    pub fn start(context: KubeContext<C>, generation: u64) -> (r: Cluster<C>)
        ensures
            r@ == fresh_session(context@, generation),
    {
        Cluster {
            context,
            workloads: None,
            mode: NamespaceMode::Viewing,
            namespace_field_value: String::new(),
            generation,
        }
    }

    pub fn context(&self) -> (r: &KubeContext<C>)
        ensures
            r@ == self@.context,
    {
        &self.context
    }

    pub fn workloads(&self) -> (r: &Option<Workloads>)
        ensures
            workloads_view(*r) == self@.workloads,
    {
        &self.workloads
    }

    pub fn mode(&self) -> (r: &NamespaceMode)
        ensures
            r@ == self@.mode,
    {
        &self.mode
    }

    pub fn namespace_field_value(&self) -> (r: String)
        ensures
            r@ == self@.field,
    {
        self.namespace_field_value.clone()
    }

    pub fn generation(&self) -> (r: u64)
        ensures
            r == self@.generation,
    {
        self.generation
    }

    pub fn update(&mut self, message: ClusterMessage, toasts: &mut ToastQueue) -> (effects: Vec<
        Effect,
    >)
        ensures
            (final(self)@, final(toasts)@, effects_view(effects@)) == cluster_step(
                old(self)@,
                old(toasts)@,
                message,
            ),
            old(toasts)@.wf() ==> final(toasts)@.wf(),
    {
        match message {
            ClusterMessage::WorkloadsLoaded(g, result) => {
                if g != self.generation {
                    return no_effects();
                }
                match result {
                    Ok(w) => {
                        self.workloads = Some(w);
                    },
                    Err(_) => {
                        if let NamespaceMode::Viewing = self.mode {
                            self.mode = NamespaceMode::Editing;
                        }
                        toasts.push(LOAD_WORKLOADS_FAILED.to_owned(), Severity::Danger);
                    },
                }
                no_effects()
            },
            ClusterMessage::ChangeNamespaceRequested => {
                if let NamespaceMode::Viewing = self.mode {
                    self.mode = NamespaceMode::Editing;
                }
                no_effects()
            },
            ClusterMessage::NamespaceFieldChanged(text) => {
                if let NamespaceMode::Viewing = self.mode {
                } else {
                    self.namespace_field_value = text;
                }
                no_effects()
            },
            ClusterMessage::NamespaceSelected => {
                if let NamespaceMode::Editing = self.mode {
                    if !self.namespace_field_value.as_str().is_empty() {
                        self.mode = NamespaceMode::Validating(self.namespace_field_value.clone());
                        return one_effect(
                            Effect::CheckNamespace {
                                generation: self.generation,
                                namespace: self.namespace_field_value.clone(),
                            },
                        );
                    }
                }
                no_effects()
            },
            ClusterMessage::NamespaceChecked(g, result) => {
                let candidate = match &self.mode {
                    NamespaceMode::Validating(candidate) => candidate.clone(),
                    _ => {
                        return no_effects();
                    },
                };
                if g != self.generation {
                    return no_effects();
                }
                match result {
                    Ok(_) => {
                        self.context.set_namespace(candidate);
                        self.generation = advance_generation(self.generation);
                        self.mode = NamespaceMode::Viewing;
                        self.namespace_field_value = String::new();
                        one_effect(Effect::FetchWorkloads { generation: self.generation })
                    },
                    Err(_) => {
                        self.mode = NamespaceMode::Editing;
                        self.namespace_field_value = String::new();
                        toasts.push(NAMESPACE_INACCESSIBLE.to_owned(), Severity::Danger);
                        no_effects()
                    },
                }
            },
            ClusterMessage::ReloadRequested => {
                if let NamespaceMode::Viewing = self.mode {
                    one_effect(Effect::FetchWorkloads { generation: self.generation })
                } else {
                    no_effects()
                }
            },
            ClusterMessage::DeleteRequested(object) => {
                one_effect(
                    Effect::Delete {
                        generation: self.generation,
                        name: object.name,
                        resource_type: object.resource_type,
                    },
                )
            },
            ClusterMessage::Deleted(result) => {
                if result.is_err() {
                    toasts.push(DELETE_FAILED.to_owned(), Severity::Danger);
                }
                no_effects()
            },
        }
    }
}

} // verus!
