//! The controller of a desktop viewer for the workloads of a cluster: a
//! reducer from application state and event to next state and the
//! asynchronous operations to run, together with the values it works on.
//! Rendering and the cluster API itself are left to the embedding program.

pub mod button_theme;
pub mod circular_loading_theme;
pub mod cluster;
pub mod cluster_object;
pub mod colours;
pub mod container_theme;
pub mod context_selector;
pub mod error;
pub mod explorer;
pub mod kube_context;
pub mod listing;
pub mod messages;
pub mod resource_type;
pub mod toast;
pub mod workloads;
