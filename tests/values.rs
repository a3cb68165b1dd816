use workload_explorer::button_theme::{as_button_theme, ButtonTheme};
use workload_explorer::circular_loading_theme::{as_circular_theme, CircularLoadingTheme};
use workload_explorer::cluster_object::ClusterObject;
use workload_explorer::colours::Colour;
use workload_explorer::container_theme::{as_container_theme, ContainerTheme};
use workload_explorer::error::Error;
use workload_explorer::listing::{assemble_workloads, replica_details};
use workload_explorer::resource_type::ResourceType;
use workload_explorer::toast::{Severity, ToastQueue};
use workload_explorer::workloads::Workloads;

fn object(name: &str, kind: ResourceType) -> ClusterObject {
    ClusterObject::new(name.to_string(), kind, None)
}

#[test]
fn replica_details_formats_counts() {
    assert_eq!(replica_details(Some(Some(2)), Some(Some(3))), Some("2/3".to_string()));
    assert_eq!(replica_details(Some(Some(10)), Some(Some(120))), Some("10/120".to_string()));
    assert_eq!(replica_details(Some(None), Some(Some(0))), Some("0/0".to_string()));
    assert_eq!(replica_details(Some(Some(-4)), Some(None)), Some("-4/0".to_string()));
    assert_eq!(
        replica_details(Some(Some(i32::MIN)), Some(Some(i32::MAX))),
        Some("-2147483648/2147483647".to_string())
    );
}

#[test]
fn replica_details_needs_status_and_spec() {
    assert_eq!(replica_details(None, Some(Some(3))), None);
    assert_eq!(replica_details(Some(Some(1)), None), None);
    assert_eq!(replica_details(None, None), None);
}

#[test]
fn assembled_listing_orders_kinds() {
    let w = assemble_workloads(
        vec![object("d", ResourceType::Deployment)],
        vec![object("ds", ResourceType::DaemonSet)],
        vec![object("rs1", ResourceType::ReplicaSet), object("rs2", ResourceType::ReplicaSet)],
        vec![],
        vec![object("p", ResourceType::Pod)],
    );
    let names: Vec<String> = (0..w.len()).map(|i| w.get(i).name.clone()).collect();
    assert_eq!(names, vec!["d", "ds", "rs1", "rs2", "p"]);
    assert_eq!(w.get(4).resource_type, ResourceType::Pod);
}

#[test]
fn empty_listing() {
    let w = Workloads::new(vec![]);
    assert_eq!(w.len(), 0);
}

#[test]
fn object_keeps_its_fields() {
    let o = ClusterObject::new("web".to_string(), ResourceType::StatefulSet, Some("Running".to_string()));
    assert_eq!(o.name, "web");
    assert_eq!(o.resource_type, ResourceType::StatefulSet);
    assert_eq!(o.details, Some("Running".to_string()));
}

#[test]
fn kind_labels() {
    assert_eq!(ResourceType::Pod.to_string(), "Pod");
    assert_eq!(ResourceType::Deployment.to_string(), "Deployment");
    assert_eq!(ResourceType::ReplicaSet.to_string(), "ReplicaSet");
    assert_eq!(ResourceType::StatefulSet.to_string(), "StatefulSet");
    assert_eq!(ResourceType::DaemonSet.to_string(), "DaemonSet");
}

#[test]
fn error_message_round_trip() {
    assert_eq!(Error::new("boom".to_string()).get_message(), "boom");
}

#[test]
fn theme_colours() {
    let p = as_button_theme(ButtonTheme::Primary);
    assert_eq!((p.background, p.text), (Colour::Blue, Colour::White));
    let s = as_button_theme(ButtonTheme::Secondary);
    assert_eq!((s.background, s.text), (Colour::Lilac, Colour::Black));
    assert_eq!(as_container_theme(ContainerTheme::Light), Colour::White);
    assert_eq!(as_container_theme(ContainerTheme::Dark), Colour::Blue);
    let c = as_circular_theme(CircularLoadingTheme::Secondary);
    assert_eq!((c.bar, c.track), (Colour::Lilac, Colour::White));
    assert_eq!(as_circular_theme(CircularLoadingTheme::Primary).bar, Colour::Blue);
}

#[test]
fn toast_queue_assigns_increasing_ids() {
    let mut q = ToastQueue::new();
    assert_eq!(q.push("a".to_string(), Severity::Info), Some(0));
    assert_eq!(q.push("a".to_string(), Severity::Danger), Some(1));
    assert_eq!(q.len(), 2);
    assert_eq!(q.get(1).body, "a");
    assert_eq!(q.get(1).severity, Severity::Danger);
    q.dismiss(0);
    assert_eq!(q.len(), 1);
    assert_eq!(q.get(0).id, 1);
    q.dismiss(0);
    assert_eq!(q.len(), 1);
}
