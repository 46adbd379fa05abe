//! Builders of single Kubernetes objects.

pub mod config_files;
pub mod config_map;
pub mod listener;
pub mod node_pod;
pub mod pdb;
pub mod pod_contents;
pub mod pod_scripts;
pub mod probes;
pub mod rbac;
pub mod reporting_task;
pub mod role_group;
pub mod secret;
pub mod service;
pub mod statefulset;
pub mod volumes;
