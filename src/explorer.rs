use vstd::prelude::*;

use crate::cluster::{cluster_step, fresh_session, Cluster, ModeView, SessionView};
use crate::context_selector::{selector_step, strings_view, ContextSelector, SelectorView};
use crate::error::Error;
use crate::kube_context::{ContextView, KubeContext};
use crate::messages::{
    advance_generation, effects_view, next_generation, ClusterMessage, Effect, EffectView, Message,
    LIST_CONTEXTS_FAILED, LOAD_CONTEXT_FAILED, NAMESPACE_INACCESSIBLE,
};
use crate::toast::{Severity, ToastQueue, ToastsView};
use crate::workloads::Workloads;

verus! {

/// The primary view state: exactly one of these at a time.
#[derive(Debug, Clone)]
pub enum Screen<C> {
    /// No session and no chooser: a context is being resolved or the
    /// candidates are being listed.
    Bootstrapping,
    SessionActive(Cluster<C>),
    SelectingContext(ContextSelector),
    /// No context can be used.
    Errored(Error),
}

pub enum ScreenView<C> {
    Bootstrapping,
    SessionActive(SessionView<C>),
    SelectingContext(SelectorView),
    Errored(Seq<char>),
}

impl<C> View for Screen<C> {
    type V = ScreenView<C>;

    open spec fn view(&self) -> ScreenView<C> {
        match self {
            Screen::Bootstrapping => ScreenView::Bootstrapping,
            Screen::SessionActive(c) => ScreenView::SessionActive(c@),
            Screen::SelectingContext(s) => ScreenView::SelectingContext(s@),
            Screen::Errored(e) => ScreenView::Errored(e@),
        }
    }
}

/// The whole application state: the primary view, the notification queue
/// beside it, and the generation of the latest session.
#[derive(Debug, Clone)]
pub struct WorkloadExplorer<C> {
    screen: Screen<C>,
    toasts: ToastQueue,
    generation: u64,
}

pub struct AppView<C> {
    pub screen: ScreenView<C>,
    pub toasts: ToastsView,
    pub generation: u64,
}

impl<C> View for WorkloadExplorer<C> {
    type V = AppView<C>;

    closed spec fn view(&self) -> AppView<C> {
        AppView { screen: self.screen@, toasts: self.toasts@, generation: self.generation }
    }
}

/// The state before any event: resolving the ambient context.
pub open spec fn initial_view<C>() -> AppView<C> {
    AppView {
        screen: ScreenView::Bootstrapping,
        toasts: ToastsView { entries: Seq::empty(), next_id: 0 },
        generation: 0,
    }
}

/// A new session on `context` under the next generation, with a fetch issued.
pub open spec fn start_session<C>(s: AppView<C>, context: ContextView<C>) -> (
    AppView<C>,
    Seq<EffectView>,
) {
    let g = next_generation(s.generation);
    (
        AppView {
            screen: ScreenView::SessionActive(fresh_session(context, g)),
            toasts: s.toasts,
            generation: g,
        },
        seq![EffectView::FetchWorkloads { generation: g }],
    )
}

/// How the application reacts to an event: its next state and the operations
/// it asks to run. Events that do not fit the current state change nothing.
pub open spec fn step<C>(s: AppView<C>, m: Message<C>) -> (AppView<C>, Seq<EffectView>) {
    match m {
        Message::ContextResolved(result) => match s.screen {
            ScreenView::Bootstrapping => match result {
                Ok(context) => start_session(s, context@),
                Err(_) => (
                    AppView {
                        toasts: s.toasts.pushed(LOAD_CONTEXT_FAILED@, Severity::Danger),
                        ..s
                    },
                    seq![EffectView::ListContexts],
                ),
            },
            _ => (s, Seq::empty()),
        },
        Message::ContextLoaded(result) => match s.screen {
            ScreenView::SelectingContext(sel) => {
                if sel.loading {
                    match result {
                        Ok(context) => start_session(s, context@),
                        Err(_) => (
                            AppView {
                                screen: ScreenView::SelectingContext(
                                    SelectorView { loading: false, ..sel },
                                ),
                                toasts: s.toasts.pushed(LOAD_CONTEXT_FAILED@, Severity::Danger),
                                generation: s.generation,
                            },
                            Seq::empty(),
                        ),
                    }
                } else {
                    (s, Seq::empty())
                }
            },
            _ => (s, Seq::empty()),
        },
        Message::ChangeContextRequested => match s.screen {
            ScreenView::SessionActive(c) => (
                AppView {
                    screen: ScreenView::Bootstrapping,
                    toasts: s.toasts,
                    generation: c.generation,
                },
                seq![EffectView::ListContexts],
            ),
            _ => (s, Seq::empty()),
        },
        Message::AllContextsLoaded(result) => match s.screen {
            ScreenView::Bootstrapping => match result {
                Ok(names) => (
                    AppView {
                        screen: ScreenView::SelectingContext(
                            SelectorView {
                                candidates: strings_view(names@),
                                selection: None,
                                loading: false,
                            },
                        ),
                        ..s
                    },
                    Seq::empty(),
                ),
                Err(e) => (
                    AppView {
                        screen: ScreenView::Errored(e@),
                        toasts: s.toasts.pushed(LIST_CONTEXTS_FAILED@, Severity::Danger),
                        generation: s.generation,
                    },
                    Seq::empty(),
                ),
            },
            _ => (s, Seq::empty()),
        },
        Message::ContextSelectorMessage(sm) => match s.screen {
            ScreenView::SelectingContext(sel) => {
                let (sel2, effects) = selector_step(sel, sm);
                (AppView { screen: ScreenView::SelectingContext(sel2), ..s }, effects)
            },
            _ => (s, Seq::empty()),
        },
        Message::ClusterMessage(cm) => match s.screen {
            ScreenView::SessionActive(c) => {
                let (c2, t2, effects) = cluster_step(c, s.toasts, cm);
                (
                    AppView {
                        screen: ScreenView::SessionActive(c2),
                        toasts: t2,
                        generation: s.generation,
                    },
                    effects,
                )
            },
            _ => (s, Seq::empty()),
        },
        Message::CloseToast(id) => (AppView { toasts: s.toasts.dismissed(id), ..s }, Seq::empty()),
    }
}

/// A successfully resolved ambient context starts a session on exactly that
/// context, with no listing yet, and asks for exactly one fetch, issued under
/// the new session's generation.
pub proof fn lemma_resolved_context_starts_session<C>(s: AppView<C>, context: KubeContext<C>)
    requires
        s.screen is Bootstrapping,
    ensures
        ({
            let (s2, effects) = step(s, Message::ContextResolved(Ok(context)));
            match s2.screen {
                ScreenView::SessionActive(c) => {
                    &&& c.context == context@
                    &&& c.workloads is None
                    &&& c.mode is Viewing
                    &&& effects == seq![EffectView::FetchWorkloads { generation: c.generation }]
                    &&& s2.toasts == s.toasts
                },
                _ => false,
            }
        }),
{
}

/// A deletion request and a deletion outcome leave the primary state, and so
/// the cached listing, exactly as it was.
pub proof fn lemma_deletion_keeps_listing<C>(s: AppView<C>, m: ClusterMessage)
    requires
        m is DeleteRequested || m is Deleted,
    ensures
        step(s, Message::ClusterMessage(m)).0.screen == s.screen,
{
}

/// Within a session, only a successful fetch issued under the session's
/// current generation changes the cached listing, and it installs exactly the
/// listing fetched.
pub proof fn lemma_listing_changes_only_by_fetch<C>(s: AppView<C>, m: Message<C>)
    ensures
        ({
            let s2 = step(s, m).0;
            match (s.screen, s2.screen) {
                (ScreenView::SessionActive(c), ScreenView::SessionActive(c2)) => {
                    c2.workloads != c.workloads ==> match m {
                        Message::ClusterMessage(
                            ClusterMessage::WorkloadsLoaded(g, Ok(w)),
                        ) => g == c.generation && c2.workloads == Some(w@),
                        _ => false,
                    }
                },
                _ => true,
            }
        }),
{
}

/// Within a session, the context changes only when the access check of a
/// pending namespace succeeds under the session's current generation; it
/// then views the checked namespace with the same descriptor.
pub proof fn lemma_context_changes_only_after_check<C>(s: AppView<C>, m: Message<C>)
    ensures
        ({
            let s2 = step(s, m).0;
            match (s.screen, s2.screen) {
                (ScreenView::SessionActive(c), ScreenView::SessionActive(c2)) => {
                    c2.context != c.context ==> match (m, c.mode) {
                        (
                            Message::ClusterMessage(ClusterMessage::NamespaceChecked(g, Ok(_))),
                            ModeView::Validating(ns),
                        ) => g == c.generation && c2.context == (ContextView {
                            config: c.context.config,
                            namespace: ns,
                        }),
                        _ => false,
                    }
                },
                _ => true,
            }
        }),
{
}

/// Committing a non-empty namespace keeps the context and asks for an access
/// check of that namespace. If the check fails, the field is emptied and the
/// context and listing stay; if it succeeds, the session views the new
/// namespace and asks for a fetch under its next generation.
pub proof fn lemma_namespace_commit<C>(s: AppView<C>, e: Error)
    requires
        s.screen is SessionActive,
        s.screen->SessionActive_0.mode is Editing,
        s.screen->SessionActive_0.field.len() > 0,
    ensures
        ({
            let c = s.screen->SessionActive_0;
            let (s1, effects1) = step(s, Message::ClusterMessage(ClusterMessage::NamespaceSelected));
            let checked = |r: Result<(), Error>|
                step(s1, Message::ClusterMessage(ClusterMessage::NamespaceChecked(c.generation, r)));
            let (s_fail, effects_fail) = checked(Err(e));
            let (s_ok, effects_ok) = checked(Ok(()));
            &&& s1.screen is SessionActive
            &&& s1.screen->SessionActive_0.context == c.context
            &&& effects1 == seq![
                EffectView::CheckNamespace { generation: c.generation, namespace: c.field },
            ]
            &&& s_fail.screen is SessionActive
            &&& s_fail.screen->SessionActive_0.field.len() == 0
            &&& s_fail.screen->SessionActive_0.context == c.context
            &&& s_fail.screen->SessionActive_0.workloads == c.workloads
            &&& s_fail.toasts == s.toasts.pushed(NAMESPACE_INACCESSIBLE@, Severity::Danger)
            &&& effects_fail.len() == 0
            &&& s_ok.screen is SessionActive
            &&& s_ok.screen->SessionActive_0.context == (ContextView {
                config: c.context.config,
                namespace: c.field,
            })
            &&& effects_ok == seq![
                EffectView::FetchWorkloads { generation: next_generation(c.generation) },
            ]
        }),
{
}

/// A completion issued under another generation than the session's changes
/// nothing and asks for nothing.
pub proof fn lemma_stale_fetch_ignored<C>(s: AppView<C>, g: u64, result: Result<Workloads, Error>)
    requires
        s.screen is SessionActive,
        g != s.screen->SessionActive_0.generation,
    ensures
        step(s, Message::ClusterMessage(ClusterMessage::WorkloadsLoaded(g, result))) == (
            s,
            Seq::<EffectView>::empty(),
        ),
{
}


fn no_effects() -> (r: Vec<Effect>)
    ensures
        effects_view(r@) == Seq::<EffectView>::empty(),
{
    let r: Vec<Effect> = Vec::new();
    assert(effects_view(r@) =~= Seq::<EffectView>::empty());
    r
}

impl<C> WorkloadExplorer<C> {
    /// The initial state, and the resolution of the ambient context to run.
    pub fn new() -> (r: (WorkloadExplorer<C>, Vec<Effect>))
        ensures
            r.0@ == initial_view::<C>(),
            r.0.wf(),
            effects_view(r.1@) == seq![EffectView::ResolveCurrentContext],
    {
        let app = WorkloadExplorer {
            screen: Screen::Bootstrapping,
            toasts: ToastQueue::new(),
            generation: 0,
        };
        let effects = vec![Effect::ResolveCurrentContext];
        assert(app@.toasts.entries =~= Seq::empty());
        assert(effects_view(effects@) =~= seq![EffectView::ResolveCurrentContext]);
        (app, effects)
    }

    /// The notification queue is well formed.
    pub closed spec fn wf(&self) -> bool {
        self.toasts@.wf()
    }

    pub fn title(&self) -> (r: String)
        ensures
            r@ == "Workload Explorer"@,
    {
        "Workload Explorer".to_owned()
    }

    pub fn screen(&self) -> (r: &Screen<C>)
        ensures
            r@ == self@.screen,
    {
        &self.screen
    }

    pub fn toasts(&self) -> (r: &ToastQueue)
        ensures
            r@ == self@.toasts,
    {
        &self.toasts
    }

    /// Whether a session is active; the refresh timer runs only then.
    pub fn polls(&self) -> (r: bool)
        ensures
            r == self@.screen is SessionActive,
    {
        match &self.screen {
            Screen::SessionActive(_) => true,
            _ => false,
        }
    }

    fn start_session(&mut self, context: KubeContext<C>) -> (effects: Vec<Effect>)
        ensures
            (final(self)@, effects_view(effects@)) == start_session(old(self)@, context@),
            final(self).wf() == old(self).wf(),
    {
        let g: u64 = advance_generation(self.generation);
        self.generation = g;
        self.screen = Screen::SessionActive(Cluster::start(context, g));
        let effects = vec![Effect::FetchWorkloads { generation: g }];
        assert(effects_view(effects@) =~= seq![EffectView::FetchWorkloads { generation: g }]);
        effects
    }

    /// Applies one event to the state and returns the operations to run.
    pub fn update(&mut self, message: Message<C>) -> (effects: Vec<Effect>)
        requires
            old(self).wf(),
        ensures
            final(self).wf(),
            (final(self)@, effects_view(effects@)) == step(old(self)@, message),
    {
        let mut screen = Screen::Bootstrapping;
        std::mem::swap(&mut screen, &mut self.screen);
        match message {
            Message::ContextResolved(result) => {
                if let Screen::Bootstrapping = screen {
                    match result {
                        Ok(context) => self.start_session(context),
                        Err(_) => {
                            self.toasts.push(LOAD_CONTEXT_FAILED.to_owned(), Severity::Danger);
                            let effects = vec![Effect::ListContexts];
                            assert(effects_view(effects@) =~= seq![EffectView::ListContexts]);
                            effects
                        },
                    }
                } else {
                    self.screen = screen;
                    no_effects()
                }
            },
            Message::ContextLoaded(result) => {
                match screen {
                    Screen::SelectingContext(mut selector) => {
                        if selector.is_loading() {
                            match result {
                                Ok(context) => self.start_session(context),
                                Err(_) => {
                                    selector.stop_loading();
                                    self.screen = Screen::SelectingContext(selector);
                                    self.toasts.push(
                                        LOAD_CONTEXT_FAILED.to_owned(),
                                        Severity::Danger,
                                    );
                                    no_effects()
                                },
                            }
                        } else {
                            self.screen = Screen::SelectingContext(selector);
                            no_effects()
                        }
                    },
                    other => {
                        self.screen = other;
                        no_effects()
                    },
                }
            },
            Message::ChangeContextRequested => {
                match screen {
                    Screen::SessionActive(cluster) => {
                        self.generation = cluster.generation();
                        let effects = vec![Effect::ListContexts];
                        assert(effects_view(effects@) =~= seq![EffectView::ListContexts]);
                        effects
                    },
                    other => {
                        self.screen = other;
                        no_effects()
                    },
                }
            },
            Message::AllContextsLoaded(result) => {
                if let Screen::Bootstrapping = screen {
                    match result {
                        Ok(names) => {
                            self.screen = Screen::SelectingContext(ContextSelector::new(names));
                        },
                        Err(e) => {
                            self.screen = Screen::Errored(e);
                            self.toasts.push(LIST_CONTEXTS_FAILED.to_owned(), Severity::Danger);
                        },
                    }
                } else {
                    self.screen = screen;
                }
                no_effects()
            },
            Message::ContextSelectorMessage(sm) => {
                match screen {
                    Screen::SelectingContext(mut selector) => {
                        let effects = selector.update(sm);
                        self.screen = Screen::SelectingContext(selector);
                        effects
                    },
                    other => {
                        self.screen = other;
                        no_effects()
                    },
                }
            },
            Message::ClusterMessage(cm) => {
                match screen {
                    Screen::SessionActive(mut cluster) => {
                        let effects = cluster.update(cm, &mut self.toasts);
                        self.screen = Screen::SessionActive(cluster);
                        effects
                    },
                    other => {
                        self.screen = other;
                        no_effects()
                    },
                }
            },
            Message::CloseToast(id) => {
                self.screen = screen;
                self.toasts.dismiss(id);
                no_effects()
            },
        }
    }
}

} // verus!
