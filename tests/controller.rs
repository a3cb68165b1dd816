use workload_explorer::cluster::{Cluster, NamespaceMode};
use workload_explorer::cluster_object::ClusterObject;
use workload_explorer::error::Error;
use workload_explorer::explorer::{Screen, WorkloadExplorer};
use workload_explorer::kube_context::KubeContext;
use workload_explorer::messages::{
    ClusterMessage, ContextSelectorMessage, Effect, Message, DELETE_FAILED, LIST_CONTEXTS_FAILED,
    LOAD_CONTEXT_FAILED, LOAD_WORKLOADS_FAILED, NAMESPACE_INACCESSIBLE,
};
use workload_explorer::resource_type::ResourceType;
use workload_explorer::workloads::Workloads;

type App = WorkloadExplorer<String>;

fn context(config: &str, namespace: &str) -> KubeContext<String> {
    KubeContext::new(config.to_string(), namespace.to_string())
}

fn object(name: &str, kind: ResourceType) -> ClusterObject {
    ClusterObject::new(name.to_string(), kind, None)
}

fn listing(objects: Vec<ClusterObject>) -> Workloads {
    Workloads::new(objects)
}

fn session(app: &App) -> &Cluster<String> {
    match app.screen() {
        Screen::SessionActive(c) => c,
        other => panic!("expected an active session, found {:?}", other),
    }
}

fn names(w: &Workloads) -> Vec<String> {
    let mut v = vec![];
    for i in 0..w.len() {
        v.push(w.get(i).name.clone());
    }
    v
}

fn toast_bodies(app: &App) -> Vec<String> {
    let q = app.toasts();
    let mut v = vec![];
    for i in 0..q.len() {
        v.push(q.get(i).body.clone());
    }
    v
}

/// An app with an active session on `ns`, its first fetch answered with `objects`.
fn app_with_session(ns: &str, objects: Vec<ClusterObject>) -> App {
    let (mut app, _) = App::new();
    let effects = app.update(Message::ContextResolved(Ok(context("cfg", ns))));
    let g = match effects.as_slice() {
        [Effect::FetchWorkloads { generation }] => *generation,
        other => panic!("unexpected effects {:?}", other),
    };
    app.update(Message::ClusterMessage(ClusterMessage::WorkloadsLoaded(g, Ok(listing(objects)))));
    app
}

fn cluster(app: &mut App, m: ClusterMessage) -> Vec<Effect> {
    app.update(Message::ClusterMessage(m))
}

#[test]
fn start_resolves_current_context() {
    let (app, effects) = App::new();
    assert!(matches!(app.screen(), Screen::Bootstrapping));
    assert!(matches!(effects.as_slice(), [Effect::ResolveCurrentContext]));
    assert_eq!(app.toasts().len(), 0);
    assert!(!app.polls());
    assert_eq!(app.title(), "Workload Explorer");
}

#[test]
fn resolved_context_starts_session_with_one_fetch() {
    let (mut app, _) = App::new();
    let effects = app.update(Message::ContextResolved(Ok(context("cfg", "team-a"))));
    let c = session(&app);
    assert_eq!(c.context().get_namespace(), "team-a");
    assert_eq!(c.context().get_config(), "cfg");
    assert!(c.workloads().is_none());
    assert!(matches!(c.mode(), NamespaceMode::Viewing));
    assert_eq!(effects.len(), 1);
    match &effects[0] {
        Effect::FetchWorkloads { generation } => assert_eq!(*generation, c.generation()),
        other => panic!("unexpected effect {:?}", other),
    }
    assert!(app.polls());
}

#[test]
fn scenario_resolve_fails_lists_contexts() {
    let (mut app, _) = App::new();
    let effects = app.update(Message::ContextResolved(Err(Error::new(
        "connection refused".to_string(),
    ))));
    assert!(matches!(effects.as_slice(), [Effect::ListContexts]));
    assert_eq!(toast_bodies(&app), vec![LOAD_CONTEXT_FAILED.to_string()]);
    assert!(matches!(app.screen(), Screen::Bootstrapping));
    let effects = app.update(Message::AllContextsLoaded(Ok(vec![
        "dev".to_string(),
        "prod".to_string(),
    ])));
    assert!(effects.is_empty());
    match app.screen() {
        Screen::SelectingContext(s) => {
            assert_eq!(s.contexts(), &vec!["dev".to_string(), "prod".to_string()]);
            assert_eq!(s.selection(), None);
            assert!(!s.is_loading());
        },
        other => panic!("expected the chooser, found {:?}", other),
    }
}

fn app_choosing() -> App {
    let (mut app, _) = App::new();
    app.update(Message::ContextResolved(Err(Error::new("no config".to_string()))));
    app.update(Message::AllContextsLoaded(Ok(vec!["dev".to_string(), "prod".to_string()])));
    app
}

#[test]
fn scenario_choose_prod_starts_session() {
    let mut app = app_choosing();
    let effects = app.update(Message::ContextSelectorMessage(
        ContextSelectorMessage::DropDownItemSelected("prod".to_string()),
    ));
    assert!(effects.is_empty());
    let effects = app.update(Message::ContextSelectorMessage(
        ContextSelectorMessage::ContextSelected("prod".to_string()),
    ));
    match effects.as_slice() {
        [Effect::LoadContext(name)] => assert_eq!(name, "prod"),
        other => panic!("unexpected effects {:?}", other),
    }
    match app.screen() {
        Screen::SelectingContext(s) => {
            assert!(s.is_loading());
            assert_eq!(s.selection(), Some("prod".to_string()));
        },
        other => panic!("expected the chooser, found {:?}", other),
    }
    let effects = app.update(Message::ContextLoaded(Ok(context("prod", "default"))));
    let c = session(&app);
    assert_eq!(c.context().get_config(), "prod");
    assert_eq!(c.context().get_namespace(), "default");
    assert!(c.workloads().is_none());
    match effects.as_slice() {
        [Effect::FetchWorkloads { generation }] => assert_eq!(*generation, c.generation()),
        other => panic!("unexpected effects {:?}", other),
    }
}

#[test]
fn load_failure_keeps_candidates() {
    let mut app = app_choosing();
    app.update(Message::ContextSelectorMessage(ContextSelectorMessage::ContextSelected(
        "prod".to_string(),
    )));
    let effects = app.update(Message::ContextLoaded(Err(Error::new("unreachable".to_string()))));
    assert!(effects.is_empty());
    assert_eq!(toast_bodies(&app).len(), 2);
    assert_eq!(toast_bodies(&app)[1], LOAD_CONTEXT_FAILED);
    match app.screen() {
        Screen::SelectingContext(s) => {
            assert!(!s.is_loading());
            assert_eq!(s.contexts().len(), 2);
        },
        other => panic!("expected the chooser, found {:?}", other),
    }
}

#[test]
fn list_failure_is_errored() {
    let (mut app, _) = App::new();
    app.update(Message::ContextResolved(Err(Error::new("no config".to_string()))));
    let effects = app.update(Message::AllContextsLoaded(Err(Error::new(
        "kubeconfig missing".to_string(),
    ))));
    assert!(effects.is_empty());
    match app.screen() {
        Screen::Errored(e) => assert_eq!(e.get_message(), "kubeconfig missing"),
        other => panic!("expected an error, found {:?}", other),
    }
    assert_eq!(toast_bodies(&app)[1], LIST_CONTEXTS_FAILED);
    assert!(!app.polls());
}

#[test]
fn scenario_delete_then_poll() {
    let mut app = app_with_session(
        "default",
        vec![object("web-1", ResourceType::Pod), object("api", ResourceType::Deployment)],
    );
    let g = session(&app).generation();
    let effects = cluster(&mut app, ClusterMessage::DeleteRequested(object("web-1", ResourceType::Pod)));
    match effects.as_slice() {
        [Effect::Delete { generation, name, resource_type }] => {
            assert_eq!(*generation, g);
            assert_eq!(name, "web-1");
            assert_eq!(*resource_type, ResourceType::Pod);
        },
        other => panic!("unexpected effects {:?}", other),
    }
    assert_eq!(names(session(&app).workloads().as_ref().unwrap()), vec!["web-1", "api"]);
    let effects = cluster(&mut app, ClusterMessage::Deleted(Ok(object("web-1", ResourceType::Pod))));
    assert!(effects.is_empty());
    assert_eq!(toast_bodies(&app).len(), 0);
    assert_eq!(names(session(&app).workloads().as_ref().unwrap()), vec!["web-1", "api"]);
    let effects = cluster(&mut app, ClusterMessage::ReloadRequested);
    assert!(matches!(effects.as_slice(), [Effect::FetchWorkloads { generation }] if *generation == g));
    cluster(
        &mut app,
        ClusterMessage::WorkloadsLoaded(g, Ok(listing(vec![object("api", ResourceType::Deployment)]))),
    );
    assert_eq!(names(session(&app).workloads().as_ref().unwrap()), vec!["api"]);
}

#[test]
fn failed_delete_toasts_and_keeps_listing() {
    let mut app = app_with_session("default", vec![object("web-1", ResourceType::Pod)]);
    let effects = cluster(&mut app, ClusterMessage::Deleted(Err(Error::new("forbidden".to_string()))));
    assert!(effects.is_empty());
    assert_eq!(toast_bodies(&app), vec![DELETE_FAILED.to_string()]);
    assert_eq!(names(session(&app).workloads().as_ref().unwrap()), vec!["web-1"]);
}

#[test]
fn scenario_inaccessible_namespace() {
    let mut app = app_with_session("default", vec![object("web-1", ResourceType::Pod)]);
    let g = session(&app).generation();
    cluster(&mut app, ClusterMessage::ChangeNamespaceRequested);
    assert!(matches!(session(&app).mode(), NamespaceMode::Editing));
    cluster(&mut app, ClusterMessage::NamespaceFieldChanged("does-not-exist".to_string()));
    let effects = cluster(&mut app, ClusterMessage::NamespaceSelected);
    match effects.as_slice() {
        [Effect::CheckNamespace { generation, namespace }] => {
            assert_eq!(*generation, g);
            assert_eq!(namespace, "does-not-exist");
        },
        other => panic!("unexpected effects {:?}", other),
    }
    assert_eq!(session(&app).context().get_namespace(), "default");
    let effects = cluster(
        &mut app,
        ClusterMessage::NamespaceChecked(g, Err(Error::new("not found".to_string()))),
    );
    assert!(effects.is_empty());
    let c = session(&app);
    assert_eq!(toast_bodies(&app), vec![NAMESPACE_INACCESSIBLE.to_string()]);
    assert_eq!(c.namespace_field_value(), "");
    assert_eq!(c.context().get_namespace(), "default");
    assert_eq!(c.generation(), g);
    assert!(matches!(c.mode(), NamespaceMode::Editing));
    assert_eq!(names(c.workloads().as_ref().unwrap()), vec!["web-1"]);
}

#[test]
fn accessible_namespace_switches_and_fetches() {
    let mut app = app_with_session("default", vec![object("web-1", ResourceType::Pod)]);
    let g = session(&app).generation();
    cluster(&mut app, ClusterMessage::ChangeNamespaceRequested);
    cluster(&mut app, ClusterMessage::NamespaceFieldChanged("team-b".to_string()));
    cluster(&mut app, ClusterMessage::NamespaceSelected);
    let effects = cluster(&mut app, ClusterMessage::NamespaceChecked(g, Ok(())));
    let c = session(&app);
    assert_eq!(c.context().get_namespace(), "team-b");
    assert_eq!(c.context().get_config(), "cfg");
    assert_eq!(c.namespace_field_value(), "");
    assert!(matches!(c.mode(), NamespaceMode::Viewing));
    assert_eq!(c.generation(), g + 1);
    assert!(matches!(effects.as_slice(), [Effect::FetchWorkloads { generation }] if *generation == g + 1));
    assert_eq!(toast_bodies(&app).len(), 0);
}

#[test]
fn empty_namespace_is_not_committed() {
    let mut app = app_with_session("default", vec![]);
    cluster(&mut app, ClusterMessage::ChangeNamespaceRequested);
    let effects = cluster(&mut app, ClusterMessage::NamespaceSelected);
    assert!(effects.is_empty());
    assert!(matches!(session(&app).mode(), NamespaceMode::Editing));
}

#[test]
fn stale_fetch_after_namespace_switch_is_ignored() {
    let mut app = app_with_session("default", vec![object("old", ResourceType::Pod)]);
    let g = session(&app).generation();
    cluster(&mut app, ClusterMessage::ChangeNamespaceRequested);
    cluster(&mut app, ClusterMessage::NamespaceFieldChanged("team-b".to_string()));
    cluster(&mut app, ClusterMessage::NamespaceSelected);
    cluster(&mut app, ClusterMessage::NamespaceChecked(g, Ok(())));
    let effects = cluster(
        &mut app,
        ClusterMessage::WorkloadsLoaded(g, Ok(listing(vec![object("stale", ResourceType::Pod)]))),
    );
    assert!(effects.is_empty());
    assert_eq!(names(session(&app).workloads().as_ref().unwrap()), vec!["old"]);
    cluster(
        &mut app,
        ClusterMessage::WorkloadsLoaded(g + 1, Ok(listing(vec![object("fresh", ResourceType::Pod)]))),
    );
    assert_eq!(names(session(&app).workloads().as_ref().unwrap()), vec!["fresh"]);
}

#[test]
fn fetch_failure_toasts_and_opens_namespace_edit() {
    let mut app = app_with_session("default", vec![object("web-1", ResourceType::Pod)]);
    let g = session(&app).generation();
    let effects = cluster(&mut app, ClusterMessage::WorkloadsLoaded(g, Err(Error::new("denied".to_string()))));
    assert!(effects.is_empty());
    assert_eq!(toast_bodies(&app), vec![LOAD_WORKLOADS_FAILED.to_string()]);
    assert!(matches!(session(&app).mode(), NamespaceMode::Editing));
    assert_eq!(names(session(&app).workloads().as_ref().unwrap()), vec!["web-1"]);
}

#[test]
fn no_poll_while_editing_namespace() {
    let mut app = app_with_session("default", vec![]);
    cluster(&mut app, ClusterMessage::ChangeNamespaceRequested);
    assert!(cluster(&mut app, ClusterMessage::ReloadRequested).is_empty());
}

#[test]
fn change_context_discards_session() {
    let mut app = app_with_session("default", vec![object("web-1", ResourceType::Pod)]);
    let g = session(&app).generation();
    let effects = app.update(Message::ChangeContextRequested);
    assert!(matches!(effects.as_slice(), [Effect::ListContexts]));
    assert!(matches!(app.screen(), Screen::Bootstrapping));
    assert!(!app.polls());
    assert!(cluster(&mut app, ClusterMessage::ReloadRequested).is_empty());
    app.update(Message::AllContextsLoaded(Ok(vec!["prod".to_string()])));
    app.update(Message::ContextSelectorMessage(ContextSelectorMessage::ContextSelected(
        "prod".to_string(),
    )));
    app.update(Message::ContextLoaded(Ok(context("prod", "default"))));
    assert_ne!(session(&app).generation(), g);
    cluster(
        &mut app,
        ClusterMessage::WorkloadsLoaded(g, Ok(listing(vec![object("stale", ResourceType::Pod)]))),
    );
    assert!(session(&app).workloads().is_none());
}

#[test]
fn events_outside_their_state_are_ignored() {
    let (mut app, _) = App::new();
    assert!(cluster(&mut app, ClusterMessage::ReloadRequested).is_empty());
    assert!(app
        .update(Message::ContextLoaded(Ok(context("x", "y"))))
        .is_empty());
    assert!(app.update(Message::ChangeContextRequested).is_empty());
    assert!(matches!(app.screen(), Screen::Bootstrapping));
}

#[test]
fn toast_dismissal_keeps_others_in_order() {
    let mut app = app_with_session("default", vec![]);
    for _ in 0..3 {
        cluster(&mut app, ClusterMessage::Deleted(Err(Error::new("x".to_string()))));
    }
    let ids: Vec<u64> = (0..3).map(|i| app.toasts().get(i).id).collect();
    assert_eq!(ids, vec![0, 1, 2]);
    app.update(Message::CloseToast(1));
    let left: Vec<u64> = (0..app.toasts().len()).map(|i| app.toasts().get(i).id).collect();
    assert_eq!(left, vec![0, 2]);
    app.update(Message::CloseToast(7));
    assert_eq!(app.toasts().len(), 2);
    app.update(Message::CloseToast(0));
    assert_eq!(app.toasts().get(0).id, 2);
}
