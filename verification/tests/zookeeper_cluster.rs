//! Tests of clusters that ZooKeeper manages.

use nifi_operator::controller::build::properties::nifi_properties::StorageQuotas;
use nifi_operator::crd::{
    ClientAuthenticationDetails, LoggingFragment, NifiConfigFragment, NifiRole,
};
use nifi_operator::kubernetes::{
    LabelSelector, LabelSelectorRequirement, NodeAffinity, ObjectMeta, PodAntiAffinity,
    StackableAffinity, WeightedPodAffinityTerm,
};
use nifi_operator::ordered_map::{OrderedMap, StringMap};
use nifi_operator::zookeeper_cluster::files::{
    build_bootstrap_conf, build_nifi_properties, build_state_management_xml,
    required_property_kinds, Error as FileError, PropertyNameKind,
};
use nifi_operator::zookeeper_cluster::{
    default_config, default_nifi_tls, http_tls_default, CurrentlySupportedListenerClasses, Error,
    NifiCluster, NifiClusterConfig, NifiSensitiveKeyAlgorithm, NifiSensitivePropertiesConfig,
    NifiSpec, Role, RoleGroup,
};

fn map(pairs: &[(&str, &str)]) -> StringMap {
    let mut map: StringMap = OrderedMap::new();
    for (key, value) in pairs {
        map.put(key, value);
    }
    map
}

fn cluster(selector: Option<LabelSelector>) -> NifiCluster {
    let mut role_groups: OrderedMap<RoleGroup> = OrderedMap::new();
    role_groups.insert(
        "default",
        RoleGroup { replicas: Some(1), config: NifiConfigFragment::default(), selector },
    );
    NifiCluster {
        metadata: ObjectMeta {
            name: Some("simple-nifi".to_owned()),
            namespace: None,
            uid: None,
            labels: OrderedMap::new(),
            annotations: OrderedMap::new(),
            owner_references: vec![],
        },
        spec: NifiSpec {
            cluster_config: NifiClusterConfig {
                authentication: vec![ClientAuthenticationDetails {
                    authentication_class: "nifi-admin-credentials-simple".to_owned(),
                    oidc_client_credentials_secret: None,
                }],
                sensitive_properties: NifiSensitivePropertiesConfig {
                    key_secret: "simple-nifi-sensitive-property-key".to_owned(),
                    algorithm: None,
                    auto_generate: true,
                },
                vector_aggregator_config_map_name: None,
                zookeeper_config_map_name: "simple-nifi-znode".to_owned(),
                extra_volumes: vec![],
                listener_class: CurrentlySupportedListenerClasses::default(),
            },
            nodes: Some(Role { config: NifiConfigFragment::default(), role_groups }),
        },
    }
}

fn logging() -> LoggingFragment {
    LoggingFragment { enable_vector_agent: Some(false), containers: OrderedMap::new() }
}

fn anti_affinity() -> Option<PodAntiAffinity> {
    Some(PodAntiAffinity {
        preferred_during_scheduling_ignored_during_execution: Some(vec![
            WeightedPodAffinityTerm {
                weight: 70,
                match_labels: map(&[
                    ("app.kubernetes.io/name", "nifi"),
                    ("app.kubernetes.io/instance", "simple-nifi"),
                    ("app.kubernetes.io/component", "node"),
                ]),
                topology_key: "kubernetes.io/hostname".to_owned(),
            },
        ]),
    })
}

#[test]
fn test_affinity_defaults() {
    let nifi = cluster(None);
    let merged_config = nifi.merged_config(&NifiRole::Node, "default", &logging()).unwrap();

    assert_eq!(
        merged_config.affinity,
        StackableAffinity {
            pod_affinity: None,
            pod_anti_affinity: anti_affinity(),
            node_affinity: None,
            node_selector: None,
        }
    );
}

#[test]
fn test_affinity_legacy_node_selector() {
    let requirement = || LabelSelectorRequirement {
        key: "topology.kubernetes.io/zone".to_owned(),
        operator: "In".to_owned(),
        values: Some(vec!["antarctica-east1".to_owned(), "antarctica-west1".to_owned()]),
    };
    let nifi = cluster(Some(LabelSelector {
        match_labels: Some(map(&[("disktype", "ssd")])),
        match_expressions: Some(vec![requirement()]),
    }));
    let merged_config = nifi.merged_config(&NifiRole::Node, "default", &logging()).unwrap();

    assert_eq!(
        merged_config.affinity,
        StackableAffinity {
            pod_affinity: None,
            pod_anti_affinity: anti_affinity(),
            node_affinity: Some(NodeAffinity {
                required_during_scheduling_ignored_during_execution: Some(vec![requirement()]),
            }),
            node_selector: Some(map(&[("disktype", "ssd")])),
        }
    );
}

#[test]
fn merged_settings_need_the_role_and_all_settings() {
    let mut nifi = cluster(None);
    let incomplete = LoggingFragment { enable_vector_agent: None, containers: OrderedMap::new() };
    assert_eq!(
        nifi.merged_config(&NifiRole::Node, "default", &incomplete).unwrap_err(),
        Error::FragmentValidationFailure
    );
    nifi.spec.nodes = None;
    assert_eq!(
        nifi.merged_config(&NifiRole::Node, "default", &logging()).unwrap_err(),
        Error::MissingNifiRole { role: "node".to_owned() }
    );
}

#[test]
fn pods_have_names_of_their_own() {
    let mut nifi = cluster(None);
    assert_eq!(nifi.pods().unwrap_err(), Error::NoNamespace);
    nifi.metadata.namespace = Some("default".to_owned());
    nifi.spec.nodes.as_mut().unwrap().role_groups.insert(
        "more",
        RoleGroup { replicas: Some(2), config: NifiConfigFragment::default(), selector: None },
    );
    let pods = nifi.pods().unwrap();
    let names: Vec<&str> = pods.iter().map(|pod| pod.pod_name.as_str()).collect();
    assert_eq!(
        names,
        ["simple-nifi-node-default-0", "simple-nifi-node-more-0", "simple-nifi-node-more-1"]
    );
    assert_eq!(
        pods[0].fqdn(),
        "simple-nifi-node-default-0.simple-nifi-node-default.default.svc.cluster.local"
    );
    assert_eq!(
        nifi.node_role_service_fqdn(),
        Some("simple-nifi.default.svc.cluster.local".to_owned())
    );
}

#[test]
fn listener_classes_have_a_service_type() {
    let service_type = |class: CurrentlySupportedListenerClasses| class.k8s_service_type();
    assert_eq!(service_type(CurrentlySupportedListenerClasses::ClusterInternal), "ClusterIP");
    assert_eq!(service_type(CurrentlySupportedListenerClasses::ExternalUnstable), "NodePort");
    assert_eq!(service_type(CurrentlySupportedListenerClasses::ExternalStable), "LoadBalancer");
}

#[test]
fn defaults_of_the_cluster() {
    assert_eq!(http_tls_default(), "tls");
    assert_eq!(default_nifi_tls().http_secret_class, "tls");
    assert_eq!(
        NifiSensitiveKeyAlgorithm::default().as_str(),
        "NIFI_ARGON2_AES_GCM_256"
    );
    let config = default_config("simple-nifi", &NifiRole::Node);
    assert_eq!(config.resources.memory_limit, Some("2Gi".to_owned()));
}

#[test]
fn files_of_the_cluster() {
    let nifi = cluster(None);
    let config = nifi.merged_config(&NifiRole::Node, "default", &logging()).unwrap();
    let bootstrap =
        build_bootstrap_conf(&config, &Some("3276m".to_owned()), &map(&[("run.as", "nifi")]))
            .unwrap();
    assert!(bootstrap.contains("-Xmx3276m\n"));
    assert!(bootstrap.contains("run.as=nifi\n"));
    assert_eq!(
        build_bootstrap_conf(&config, &None, &OrderedMap::new()).unwrap_err(),
        FileError::InvalidMemoryConfig
    );
    let quotas = StorageQuotas {
        flow_archive: Some("921 MB".to_owned()),
        provenance: Some("1843 MB".to_owned()),
    };
    let properties =
        build_nifi_properties(&nifi.spec, &config.resources, "host:1", &OrderedMap::new(), &quotas)
            .unwrap();
    assert!(properties.contains("nifi.web.proxy.host=host:1\n"));
    assert!(properties.contains("nifi.state.management.provider.cluster=zk-provider\n"));
    let missing = StorageQuotas { flow_archive: None, provenance: None };
    assert!(matches!(
        build_nifi_properties(&nifi.spec, &config.resources, "", &OrderedMap::new(), &missing),
        Err(FileError::CalculateStorageQuota { .. })
    ));
    let xml = build_state_management_xml();
    for (name, provider) in [("local", "local-provider"), ("cluster", "zk-provider")] {
        let property = format!("nifi.state.management.provider.{name}={provider}\n");
        assert!(properties.contains(&property), "{property}");
        assert!(xml.contains(&format!("<id>{provider}</id>")));
    }
    for setting in [
        "<property name=\"Directory\">/stackable/data/state</property>",
        "<property name=\"Connect String\">${env:ZOOKEEPER_HOSTS}</property>",
        "<property name=\"Root Node\">${env:ZOOKEEPER_CHROOT}</property>",
    ] {
        assert!(xml.contains(setting), "{setting}");
    }
    assert!(required_property_kinds().contains(&PropertyNameKind::Env));
}
