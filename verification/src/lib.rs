//! The decisions of a Kubernetes operator for Apache NiFi.

pub mod contents;
pub mod controller;
pub mod crd;
pub mod framework;
pub mod kubernetes;
pub mod list;
pub mod ordered_map;
pub mod ordered_set;
pub mod pod_cluster;
pub mod security;
pub mod text;
pub mod wording;
pub mod zookeeper_cluster;
