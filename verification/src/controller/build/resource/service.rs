//! The Services of a role group.

use crate::controller;
use crate::controller::{ValidatedCluster, ValidatedClusterView};
use crate::crd::{HTTPS_PORT, HTTPS_PORT_NAME};
use crate::kubernetes::{ObjectMetaView, Service, ServicePort, ServicePortView, ServiceView};
use crate::list::list_of;
use crate::ordered_map::{OrderedMap, StringMap};
use crate::text;
use crate::text::number_text;
use vstd::prelude::*;

verus! {

/// The path under which NiFi offers its metrics.
pub const METRICS_PATH: &'static str = "/nifi-api/flow/metrics/prometheus";

/// The port of the user interface.
pub open spec fn https_service_port() -> ServicePortView {
    ServicePortView {
        name: Some(HTTPS_PORT_NAME@),
        port: HTTPS_PORT as i32,
        protocol: Some("TCP"@),
    }
}

/// The labels that make Prometheus scrape a Service.
pub open spec fn prometheus_label_set() -> Map<Seq<char>, Seq<char>> {
    Map::empty().insert("prometheus.io/scrape"@, "true"@)
}

/// The annotations that tell Prometheus how to scrape a Service.
pub open spec fn prometheus_annotation_set() -> Map<Seq<char>, Seq<char>> {
    Map::empty().insert("prometheus.io/path"@, METRICS_PATH@).insert(
        "prometheus.io/port"@,
        text::decimal(HTTPS_PORT as nat),
    ).insert("prometheus.io/scheme"@, "https"@).insert("prometheus.io/scrape"@, "true"@)
}

/// A Service without an address of its own, for the pods of a role group.
pub open spec fn headless_service(
    cluster: ValidatedClusterView,
    role_group: Seq<char>,
    metadata: ObjectMetaView,
) -> ServiceView {
    ServiceView {
        metadata,
        type_: Some("ClusterIP"@),
        cluster_ip: Some("None"@),
        ports: seq![https_service_port()],
        selector: cluster.selector_of(role_group),
        publish_not_ready_addresses: Some(true),
    }
}

/// The Service that gives the pods of a role group their names.
pub open spec fn rolegroup_headless_service(
    cluster: ValidatedClusterView,
    role_group: Seq<char>,
) -> ServiceView {
    headless_service(
        cluster,
        role_group,
        controller::owned_metadata(
            cluster,
            cluster.object_name_of(role_group) + "-headless"@,
            cluster.labels_of(role_group),
        ),
    )
}

/// The Service through which metrics are scraped.
pub open spec fn rolegroup_metrics_service(
    cluster: ValidatedClusterView,
    role_group: Seq<char>,
) -> ServiceView {
    headless_service(
        cluster,
        role_group,
        ObjectMetaView {
            annotations: prometheus_annotation_set(),
            ..controller::owned_metadata(
                cluster,
                cluster.object_name_of(role_group) + "-metrics"@,
                cluster.labels_of(role_group).union_prefer_right(prometheus_label_set()),
            )
        },
    )
}

/// Builds the Service that gives direct access to the pods of a role group: for the nodes
/// themselves, and for clients that balance load on their own.
pub fn build_rolegroup_headless_service(
    cluster: &ValidatedCluster,
    role_group_name: &str,
) -> (service: Service)
    ensures
        service.deep_view() == rolegroup_headless_service(
            cluster.deep_view(),
            role_group_name@,
        ),
{
    let name = cluster.resource_names(role_group_name).headless_service_name();
    Service {
        metadata: cluster.object_meta(name, role_group_name),
        type_: Some("ClusterIP".to_owned()),
        cluster_ip: Some("None".to_owned()),
        ports: list_of(headless_service_port()),
        selector: cluster.role_group_selector(role_group_name),
        publish_not_ready_addresses: Some(true),
    }
}

/// Builds the Service through which the metrics of a role group are scraped.
pub fn build_rolegroup_metrics_service(
    cluster: &ValidatedCluster,
    role_group_name: &str,
) -> (service: Service)
    ensures
        service.deep_view() == rolegroup_metrics_service(cluster.deep_view(), role_group_name@),
{
    let name = cluster.resource_names(role_group_name).metrics_service_name();
    let mut metadata = cluster.object_meta(name, role_group_name);
    let mut labels = metadata.labels.clone();
    labels.extend(&prometheus_labels());
    metadata.labels = labels;
    metadata.annotations = prometheus_annotations();
    Service {
        metadata,
        type_: Some("ClusterIP".to_owned()),
        cluster_ip: Some("None".to_owned()),
        ports: list_of(metrics_service_port()),
        selector: cluster.role_group_selector(role_group_name),
        publish_not_ready_addresses: Some(true),
    }
}

/// The port of the headless Service: the one of the user interface.
pub fn headless_service_port() -> (port: ServicePort)
    ensures
        port.deep_view() == https_service_port(),
{
    ServicePort {
        name: Some(HTTPS_PORT_NAME.to_owned()),
        port: HTTPS_PORT as i32,
        protocol: Some("TCP".to_owned()),
    }
}

/// The port of the metrics, which is the one of the user interface.
pub fn metrics_service_port() -> (port: ServicePort)
    ensures
        port.deep_view() == https_service_port(),
{
    headless_service_port()
}

/// The labels that make Prometheus scrape a Service.
pub fn prometheus_labels() -> (labels: StringMap)
    ensures
        labels@ == prometheus_label_set(),
{
    let mut labels: StringMap = OrderedMap::new();
    labels.put("prometheus.io/scrape", "true");
    labels
}

/// The annotations that tell Prometheus how to scrape a Service.
pub fn prometheus_annotations() -> (annotations: StringMap)
    ensures
        annotations@ == prometheus_annotation_set(),
{
    let mut annotations: StringMap = OrderedMap::new();
    annotations.put("prometheus.io/path", METRICS_PATH);
    annotations.put("prometheus.io/port", number_text(HTTPS_PORT as u64).as_str());
    annotations.put("prometheus.io/scheme", "https");
    annotations.put("prometheus.io/scrape", "true");
    annotations
}

} // verus!
