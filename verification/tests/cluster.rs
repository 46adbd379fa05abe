//! Tests on a small cluster of one role group.

use nifi_operator::contents::Copied;
use nifi_operator::controller::build::graceful_shutdown::{
    add_graceful_shutdown_config, graceful_shutdown_config_properties,
};
use nifi_operator::controller::build::jvm::build_merged_jvm_config;
use nifi_operator::controller::build::properties::nifi_properties::StorageQuotas;
use nifi_operator::controller::build::properties::product_logging::build_vector_config;
use nifi_operator::controller::build::properties::{
    authorizers, bootstrap_conf, login_identity_providers, nifi_properties, security_properties,
    ConfigFileName,
};
use nifi_operator::controller::build::proxy_hosts::compute_proxy_hosts;
use nifi_operator::controller::build::resource::config_map;
use nifi_operator::controller::build::resource::config_map::{
    build_rolegroup_config_map, build_rolegroup_config_map_with, build_security_file,
    RoleGroupFiles,
};
use nifi_operator::controller::build::resource::listener::{
    build_group_listener, group_listener_name, LISTENER_PVC_NAME,
};
use nifi_operator::controller::build::resource::node_pod;
use nifi_operator::controller::build::resource::node_pod::ShellSnippets;
use nifi_operator::controller::build::resource::pdb::build_pdb;
use nifi_operator::controller::build::resource::reporting_task::{
    build_maybe_reporting_task, build_reporting_task_service,
};
use nifi_operator::controller::build::resource::secret::{
    build_oidc_admin_password_secret_name, build_secrets, build_secrets_with,
    GENERATED_PASSWORD_LENGTH, SENSITIVE_PROPERTY_KEY_NAME,
};
use nifi_operator::controller::build::resource::service::{
    build_rolegroup_headless_service, build_rolegroup_metrics_service,
};
use nifi_operator::controller::build::resource::statefulset::{
    build_node_rolegroup_statefulset, get_volume_claim_templates,
};
use nifi_operator::controller::build::{build, build_security_files, build_with, properties};
use nifi_operator::controller::dereference::{dereference, Request, Stage};
use nifi_operator::controller::rolegroup;
use nifi_operator::controller::validate::{
    build_role_group_configs, secret_contains_key, validate, validate_existing_secrets,
    validate_logging, ClusterInputs, ContainerLogChoices, Error, RoleGroupInputs,
};
use nifi_operator::controller::{
    ExistingSecrets, GitSyncResources, NifiConfigOverrides, NifiRoleGroupConfig,
    ResolvedProductImage, ValidatedCluster, ValidatedClusterConfig,
    ValidatedContainerLogConfigChoice, ValidatedRoleConfig, ValidatedSensitiveProperties,
};
use nifi_operator::crd::authorization::{NifiAccessPolicyProvider, NifiAuthorization};
use nifi_operator::crd::sensitive_properties::{
    NifiSensitiveKeyAlgorithm, NifiSensitivePropertiesConfig,
};
use nifi_operator::crd::tls::NifiTls;
use nifi_operator::crd::{
    ClientAuthenticationDetails, Container, ContainerLogConfig, ContainerLogConfigChoice,
    CreateReportingTaskJob, HostHeaderCheckConfig, LoggingFragment, NifiCluster,
    NifiClusterConfig, NifiClusterSpec, NifiClusteringBackend, NifiConfig, NifiConfigFragment,
    NifiNodeRoleConfig, NifiRole, NodeRole, PdbConfig, RoleGroup, HTTPS_PORT, HTTPS_PORT_NAME,
};
use nifi_operator::framework::writer::PropertiesWriterError;
use nifi_operator::kubernetes::{
    ObjectMeta, PodContainer, Secret, Volume, VolumeClaimTemplate, VolumeMount, VolumeSource,
};
use nifi_operator::ordered_map::{OrderedMap, StringMap};
use nifi_operator::security::authentication::{
    NifiAuthenticationConfig, OidcAuthenticationProvider, StaticAuthenticationProvider,
    STACKABLE_ADMIN_USERNAME,
};
use nifi_operator::security::authorization::{AuthorizerSettings, ResolvedNifiAuthorizationConfig};

const UID: &str = "e6ac237d-a6d4-43a1-8135-f36506110912";

const SENSITIVE_KEY_SECRET_NAME: &str = "simple-nifi-sensitive-property-key";

fn map(pairs: &[(&str, &str)]) -> StringMap {
    let mut map: StringMap = OrderedMap::new();
    for (key, value) in pairs {
        map.put(key, value);
    }
    map
}

fn metadata(name: &str) -> ObjectMeta {
    ObjectMeta {
        name: Some(name.to_owned()),
        namespace: Some("default".to_owned()),
        uid: None,
        labels: OrderedMap::new(),
        annotations: OrderedMap::new(),
        owner_references: vec![],
    }
}

fn no_overrides() -> NifiConfigOverrides {
    NifiConfigOverrides {
        bootstrap_conf: OrderedMap::new(),
        nifi_properties: OrderedMap::new(),
        security_properties: OrderedMap::new(),
    }
}

fn no_git_sync() -> GitSyncResources {
    GitSyncResources {
        git_content_folders: vec![],
        git_sync_containers: vec![],
        git_sync_init_containers: vec![],
        git_content_volume_mounts: vec![],
        git_content_volumes: vec![],
        git_ca_cert_volumes: vec![],
    }
}

fn automatic() -> Option<ValidatedContainerLogConfigChoice> {
    Some(ValidatedContainerLogConfigChoice::Automatic { config: String::new() })
}

fn log_choices() -> ContainerLogChoices {
    ContainerLogChoices { nifi: automatic(), prepare: automatic(), vector: automatic() }
}

fn role_group_inputs(enable_vector_agent: bool) -> RoleGroupInputs {
    RoleGroupInputs {
        name_is_valid: true,
        logging: LoggingFragment {
            enable_vector_agent: Some(enable_vector_agent),
            containers: OrderedMap::new(),
        },
        log_choices: log_choices(),
        env_overrides: OrderedMap::new(),
        invalid_env_var_name: None,
        config_overrides: no_overrides(),
        pod_overrides: String::new(),
        git_sync_resources: Some(no_git_sync()),
    }
}

fn inputs_of_default(inputs: RoleGroupInputs) -> OrderedMap<RoleGroupInputs> {
    let mut all: OrderedMap<RoleGroupInputs> = OrderedMap::new();
    all.insert("default", inputs);
    all
}

fn minimal_nifi() -> NifiCluster {
    let mut role_groups: OrderedMap<RoleGroup> = OrderedMap::new();
    role_groups.insert(
        "default",
        RoleGroup {
            replicas: Some(1),
            config: NifiConfigFragment::default(),
            pod_overrides: String::new(),
        },
    );
    let mut metadata = metadata("simple-nifi");
    metadata.uid = Some(UID.to_owned());
    NifiCluster {
        metadata,
        spec: NifiClusterSpec {
            cluster_config: NifiClusterConfig {
                authentication: vec![ClientAuthenticationDetails {
                    authentication_class: "nifi-admin-credentials-simple".to_owned(),
                    oidc_client_credentials_secret: None,
                }],
                authorization: NifiAuthorization::default(),
                host_header_check: HostHeaderCheckConfig::default(),
                tls: NifiTls::default(),
                sensitive_properties: sensitive_properties(true),
                vector_aggregator_config_map_name: None,
                clustering_backend: NifiClusteringBackend::Kubernetes,
                extra_volumes: vec![],
                create_reporting_task_job: CreateReportingTaskJob::default(),
            },
            nodes: Some(NodeRole {
                config: NifiConfigFragment::default(),
                pod_overrides: String::new(),
                role_config: NifiNodeRoleConfig::default(),
                role_groups,
            }),
        },
        status: None,
    }
}

fn image() -> ResolvedProductImage {
    ResolvedProductImage {
        product_version: "2.9.0".to_owned(),
        app_version_label_value: "2.9.0".to_owned(),
        image: "oci.stackable.tech/sdp/nifi:2.9.0-stackable0.0.0-dev".to_owned(),
        image_pull_policy: "IfNotPresent".to_owned(),
        pull_secrets: vec![],
    }
}

fn single_user_authentication() -> NifiAuthenticationConfig {
    NifiAuthenticationConfig::SingleUser {
        provider: StaticAuthenticationProvider {
            user_credentials_secret: "nifi-admin-credentials-simple".to_owned(),
        },
    }
}

fn oidc_authentication_config(cluster_name: &str) -> NifiAuthenticationConfig {
    NifiAuthenticationConfig::Oidc {
        provider: OidcAuthenticationProvider {
            properties: Some(map(&[("nifi.security.user.oidc.client.id", "nifi")])),
            client_credentials_secret: "nifi-oidc-client".to_owned(),
            client_credentials_env_vars: vec![],
            cluster_name: cluster_name.to_owned(),
        },
    }
}

fn minimal_validated_cluster() -> ValidatedCluster {
    let nifi = minimal_nifi();
    let role_group_configs =
        build_role_group_configs(&nifi, &inputs_of_default(role_group_inputs(false)))
            .expect("role group configs should merge for the minimal fixture");
    let role_config = nifi.role_config(&NifiRole::Node).expect("the nodes role is defined");
    ValidatedCluster::new(
        "simple-nifi".to_owned(),
        "default".to_owned(),
        "cluster.local".to_owned(),
        UID.to_owned(),
        image(),
        "2.9.0".to_owned(),
        "2.9.0".to_owned(),
        ValidatedRoleConfig {
            pdb: role_config.pod_disruption_budget,
            listener_class: role_config.listener_class,
        },
        role_group_configs,
        ValidatedClusterConfig {
            authentication: single_user_authentication(),
            authorization: ResolvedNifiAuthorizationConfig::SingleUser,
            clustering_backend: NifiClusteringBackend::Kubernetes,
            host_header_check: HostHeaderCheckConfig::default(),
            sensitive_properties: ValidatedSensitiveProperties {
                algorithm: NifiSensitiveKeyAlgorithm::default(),
                key_secret: SENSITIVE_KEY_SECRET_NAME.to_owned(),
                auto_generate: true,
            },
            server_tls_secret_class: nifi.server_tls_secret_class().to_owned(),
            extra_volumes: vec![],
            reporting_task: CreateReportingTaskJob::default(),
        },
        ExistingSecrets { sensitive_key: None, oidc_admin_password: None },
    )
}

fn default_rg(cluster: &ValidatedCluster) -> &NifiRoleGroupConfig {
    cluster.role_group_configs.get("default").expect("the default role group exists")
}

fn quotas() -> StorageQuotas {
    StorageQuotas {
        flow_archive: Some("921 MB".to_owned()),
        provenance: Some("1843 MB".to_owned()),
    }
}

fn role_group_files() -> RoleGroupFiles {
    RoleGroupFiles {
        jvm_arguments: Some(
            build_merged_jvm_config(&Some("4096Mi".to_owned()), &Some("3276m".to_owned()))
                .expect("the arguments of the JVM"),
        ),
        quotas: quotas(),
        logback_config: "<configuration/>".to_owned(),
    }
}

fn files_of_default() -> OrderedMap<RoleGroupFiles> {
    let mut files: OrderedMap<RoleGroupFiles> = OrderedMap::new();
    files.insert("default", role_group_files());
    files
}

fn snippets() -> ShellSnippets {
    ShellSnippets {
        capture_prepare_output: "capture".to_owned(),
        bash_trap_functions: "trap".to_owned(),
        remove_vector_shutdown_file_command: "rm -f shutdown".to_owned(),
        create_vector_shutdown_file_command: "touch shutdown".to_owned(),
    }
}

fn snippets_of_default() -> OrderedMap<ShellSnippets> {
    let mut all: OrderedMap<ShellSnippets> = OrderedMap::new();
    all.insert("default", snippets());
    all
}

fn sensitive_properties(auto_generate: bool) -> NifiSensitivePropertiesConfig {
    NifiSensitivePropertiesConfig {
        key_secret: SENSITIVE_KEY_SECRET_NAME.to_owned(),
        auto_generate,
        algorithm: None,
    }
}

fn fetched_secret(name: &str, keys: &[&str]) -> Secret {
    Secret {
        metadata: metadata(name),
        data: Some(
            keys.iter().map(|key| ((*key).to_owned(), b"irrelevant".to_vec())).collect(),
        ),
        string_data: None,
    }
}

fn names(metadata: Vec<&ObjectMeta>) -> Vec<String> {
    let mut names: Vec<String> =
        metadata.iter().filter_map(|metadata| metadata.name.clone()).collect();
    names.sort();
    names
}

fn names_of_secrets(secrets: &[Secret]) -> Vec<String> {
    secrets.iter().filter_map(|secret| secret.metadata.name.clone()).collect()
}

// The whole cluster.

#[test]
fn build_produces_expected_resources() {
    let cluster = minimal_validated_cluster();
    let resources = build(&cluster, &files_of_default(), &snippets_of_default()).expect("build succeeds");

    assert_eq!(
        names(resources.stateful_sets.iter().map(|x| &x.metadata).collect()),
        ["simple-nifi-node-default"]
    );
    assert_eq!(
        names(resources.config_maps.iter().map(|x| &x.metadata).collect()),
        ["simple-nifi-node-default"]
    );
    assert_eq!(resources.services.len(), 2);
    assert_eq!(
        names(resources.listeners.iter().map(|x| &x.metadata).collect()),
        ["simple-nifi-node"]
    );
    assert_eq!(
        names(resources.pod_disruption_budgets.iter().map(|x| &x.metadata).collect()),
        ["simple-nifi-node"]
    );
    assert_eq!(
        names(resources.secrets.iter().map(|x| &x.metadata).collect()),
        ["simple-nifi-sensitive-property-key"]
    );
    assert_eq!(
        names(resources.service_accounts.iter().map(|x| &x.metadata).collect()),
        ["simple-nifi-serviceaccount"]
    );
    assert_eq!(
        names(resources.role_bindings.iter().map(|x| &x.metadata).collect()),
        ["simple-nifi-rolebinding"]
    );
}

#[test]
fn all_objects_but_the_secrets_belong_to_the_cluster() {
    let cluster = minimal_validated_cluster();
    let resources =
        build_with(
            &cluster,
            &files_of_default(),
            &snippets_of_default(),
            &build_security_files(&cluster),
            "key",
            "password",
        )
        .unwrap();
    assert_eq!(resources.stateful_sets[0].metadata.owner_references[0].uid, UID);
    assert_eq!(resources.config_maps[0].metadata.owner_references[0].name, "simple-nifi");
    assert_eq!(resources.services[0].metadata.owner_references.len(), 1);
    assert_eq!(resources.secrets[0].metadata.owner_references.len(), 0);
    assert_eq!(
        resources.secrets[0].string_data.as_ref().unwrap().get(SENSITIVE_PROPERTY_KEY_NAME),
        Some(&"key".to_owned())
    );
}

#[test]
fn stateful_set_and_headless_service_find_the_same_pods() {
    let cluster = minimal_validated_cluster();
    let resources =
        build_with(
            &cluster,
            &files_of_default(),
            &snippets_of_default(),
            &build_security_files(&cluster),
            "key",
            "password",
        )
        .unwrap();
    let stateful_set = &resources.stateful_sets[0];
    let headless = &resources.services[0];
    assert_eq!(stateful_set.service_name, headless.metadata.name);
    assert_eq!(stateful_set.service_name, Some("simple-nifi-node-default-headless".to_owned()));
    assert_eq!(stateful_set.selector, headless.selector);
    for i in 0..stateful_set.selector.len() {
        let (key, value) = stateful_set.selector.entry(i);
        assert_eq!(stateful_set.template.metadata.labels.get(key), Some(value));
    }
}

#[test]
fn failures_name_the_role_group() {
    let cluster = minimal_validated_cluster();
    let mut files: OrderedMap<RoleGroupFiles> = OrderedMap::new();
    files.insert(
        "default",
        RoleGroupFiles {
            jvm_arguments: None,
            quotas: quotas(),
            logback_config: String::new(),
        },
    );
    let security = build_security_files(&cluster);
    let error =
        build_with(&cluster, &files, &snippets_of_default(), &security, "key", "password")
            .unwrap_err();
    assert_eq!(
        error,
        nifi_operator::controller::build::Error::ConfigMap {
            source: config_map::Error::BootstrapConfig {
                source: properties::Error::InvalidJVMConfig,
            },
            role_group: "default".to_owned(),
        }
    );
    let mut unwritten: OrderedMap<Option<String>> = OrderedMap::new();
    unwritten.insert("default", None);
    let error = build_with(
        &cluster,
        &files_of_default(),
        &snippets_of_default(),
        &unwritten,
        "key",
        "password",
    )
    .unwrap_err();
    assert_eq!(
        error,
        nifi_operator::controller::build::Error::ConfigMap {
            source: config_map::Error::JvmSecurityProperties {
                source: PropertiesWriterError::FromUtf8,
                rolegroup: "default".to_owned(),
            },
            role_group: "default".to_owned(),
        }
    );
}

// The files.

#[test]
fn default_config_sets_graceful_shutdown_seconds() {
    let cluster = minimal_validated_cluster();
    let properties = graceful_shutdown_config_properties(&default_rg(&cluster).config);
    assert!(properties.contains_key("graceful.shutdown.seconds"));
    assert_eq!(properties.get("graceful.shutdown.seconds"), Some(&"300".to_owned()));
}

#[test]
fn test_build_returns_non_empty_xml_with_authorizers_root() {
    let cluster = minimal_validated_cluster();

    let xml = authorizers::build(&cluster);

    assert!(!xml.is_empty(), "authorizers.xml should not be empty");
    assert!(
        xml.contains("<authorizers>"),
        "output must contain <authorizers> root element"
    );
    assert!(
        xml.contains("</authorizers>"),
        "output must contain closing </authorizers> tag"
    );
    assert!(
        xml.contains("SingleUserAuthorizer"),
        "expected SingleUserAuthorizer for SingleUser authorization"
    );
}

#[test]
fn test_build_returns_ok_with_expected_structure() {
    let cluster = minimal_validated_cluster();
    let xml = login_identity_providers::build(&cluster)
        .expect("build should succeed for SingleUser auth");

    assert!(
        xml.contains("<loginIdentityProviders>"),
        "output must contain <loginIdentityProviders> root element"
    );
    assert!(
        xml.contains("SingleUserLoginIdentityProvider"),
        "expected SingleUserLoginIdentityProvider class for SingleUser auth"
    );
    assert!(
        xml.contains("</loginIdentityProviders>"),
        "output must contain closing </loginIdentityProviders> tag"
    );
}

#[test]
fn test_stable_keys_present() {
    let cluster = minimal_validated_cluster();
    let rg = default_rg(&cluster);

    let props =
        nifi_properties::build(&cluster, rg, "*", &quotas()).expect("build should succeed");

    assert!(
        props.contains(&format!("nifi.web.https.port={HTTPS_PORT}")),
        "expected nifi.web.https.port={HTTPS_PORT} in output, got:\n{props}"
    );
    assert!(
        props.contains("nifi.cluster.is.node=true"),
        "expected nifi.cluster.is.node=true in output"
    );
    assert!(
        props.contains(
            "nifi.cluster.leader.election.implementation=KubernetesLeaderElectionManager"
        ),
        "expected KubernetesLeaderElectionManager in output"
    );
    assert!(
        props.contains("nifi.sensitive.props.algorithm=NIFI_ARGON2_AES_GCM_256"),
        "expected default algorithm NIFI_ARGON2_AES_GCM_256 in output"
    );
    assert!(
        props.contains("nifi.web.proxy.host=*"),
        "expected nifi.web.proxy.host=* in output"
    );
}

#[test]
fn test_config_override_wins() {
    let nifi = minimal_nifi();
    let mut inputs = role_group_inputs(false);
    inputs.config_overrides.nifi_properties = map(&[("some.custom.key", "some-custom-value")]);
    let configs = build_role_group_configs(&nifi, &inputs_of_default(inputs))
        .expect("failed to build role group configs");
    let mut cluster = minimal_validated_cluster();
    cluster.role_group_configs = configs;
    let rg = default_rg(&cluster);

    let props = nifi_properties::build(&cluster, rg, "*", &quotas())
        .expect("build with override should succeed");

    assert!(
        props.contains("some.custom.key=some-custom-value"),
        "expected user override some.custom.key=some-custom-value to appear in output"
    );
    assert!(props.contains(&format!("nifi.web.https.port={HTTPS_PORT}")));
}

#[test]
fn nifi_properties_override_replaces_the_value_of_the_operator() {
    let mut cluster = minimal_validated_cluster();
    let mut rg = default_rg(&cluster).copied();
    rg.config_overrides.nifi_properties = map(&[("nifi.cluster.is.node", "false")]);
    cluster.role_group_configs.insert("default", rg);
    let props =
        nifi_properties::build(&cluster, default_rg(&cluster), "*", &quotas()).unwrap();
    assert!(props.contains("nifi.cluster.is.node=false\n"));
    assert!(!props.contains("nifi.cluster.is.node=true"));
}

#[test]
fn nifi_properties_name_the_mounted_key_and_the_state_provider() {
    let mut cluster = minimal_validated_cluster();
    let props =
        nifi_properties::build(&cluster, default_rg(&cluster), "*", &quotas()).unwrap();
    assert!(props.contains(
        "nifi.sensitive.props.key=${file:UTF-8:/stackable/sensitiveproperty/nifiSensitivePropsKey}\n"
    ));
    assert!(props.contains("nifi.state.management.provider.cluster=kubernetes-provider\n"));
    assert!(props.contains("nifi.flow.configuration.archive.max.storage=921 MB\n"));
    assert!(props.contains("nifi.provenance.repository.max.storage.size=1843 MB\n"));

    cluster.cluster_config.clustering_backend = NifiClusteringBackend::ZooKeeper {
        zookeeper_config_map_name: "my-zk".to_owned(),
    };
    let props =
        nifi_properties::build(&cluster, default_rg(&cluster), "*", &quotas()).unwrap();
    assert!(props.contains("nifi.state.management.provider.cluster=zk-provider\n"));
    assert!(props.contains("nifi.zookeeper.connect.string=${env:ZOOKEEPER_HOSTS}\n"));
}

#[test]
fn nifi_properties_of_nifi_1_need_zookeeper() {
    let mut cluster = minimal_validated_cluster();
    cluster.image.product_version = "1.28.1".to_owned();
    assert_eq!(
        nifi_properties::build(&cluster, default_rg(&cluster), "*", &quotas()),
        Err(properties::Error::Nifi1RequiresZookeeper)
    );
    cluster.cluster_config.clustering_backend = NifiClusteringBackend::ZooKeeper {
        zookeeper_config_map_name: "my-zk".to_owned(),
    };
    let props =
        nifi_properties::build(&cluster, default_rg(&cluster), "*", &quotas()).unwrap();
    assert!(props.contains("/flow.xml.gz\n"));
}

#[test]
fn nifi_properties_fail_without_a_quota_or_oidc_properties() {
    let mut cluster = minimal_validated_cluster();
    let none = StorageQuotas { flow_archive: None, provenance: Some("1 MB".to_owned()) };
    assert_eq!(
        nifi_properties::build(&cluster, default_rg(&cluster), "*", &none),
        Err(properties::Error::CalculateStorageQuota {
            repo: nifi_operator::crd::storage::NifiRepository::Flowfile,
        })
    );
    cluster.cluster_config.authentication = NifiAuthenticationConfig::Oidc {
        provider: OidcAuthenticationProvider {
            properties: None,
            client_credentials_secret: String::new(),
            client_credentials_env_vars: vec![],
            cluster_name: "simple-nifi".to_owned(),
        },
    };
    assert_eq!(
        nifi_properties::build(&cluster, default_rg(&cluster), "*", &quotas()),
        Err(properties::Error::GenerateOidcConfig)
    );
}

#[test]
fn test_build_bootstrap_conf_defaults() {
    let cluster = minimal_validated_cluster();
    let rg = default_rg(&cluster);
    let arguments = build_merged_jvm_config(
        &rg.config.resources.memory_limit,
        &Some("3276m".to_owned()),
    )
    .unwrap();
    let bootstrap_conf = bootstrap_conf::build(rg, &Some(arguments)).unwrap();
    assert_eq!(
        bootstrap_conf,
        "conf.dir=./conf\n\
         graceful.shutdown.seconds=300\n\
         java=java\n\
         java.arg.1=-Xmx3276m\n\
         java.arg.10=-Djavax.security.auth.useSubjectCredsOnly=true\n\
         java.arg.11=-Dzookeeper.admin.enableServer=false\n\
         java.arg.12=-Djava.security.properties=/stackable/nifi/conf/security.properties\n\
         java.arg.2=-Xms3276m\n\
         java.arg.3=-XX:+UseG1GC\n\
         java.arg.4=-Djava.awt.headless=true\n\
         java.arg.5=-Dorg.apache.jasper.compiler.disablejsr199=true\n\
         java.arg.6=-Djava.net.preferIPv4Stack=true\n\
         java.arg.7=-Dsun.net.http.allowRestrictedHeaders=true\n\
         java.arg.8=-Djava.protocol.handler.pkgs=sun.net.www.protocol\n\
         java.arg.9=-Djava.security.egd=file:/dev/urandom\n\
         lib.dir=./lib\n\
         preserve.environment=false\n\
         run.as=\n"
    );
}

#[test]
fn test_build_bootstrap_conf_jvm_argument_overrides() {
    let cluster = minimal_validated_cluster();
    let rg = default_rg(&cluster);
    let arguments = build_merged_jvm_config(&Some("42Gi".to_owned()), &Some("34406m".to_owned()))
        .unwrap();
    let removed =
        ["-XX:+UseG1GC", "-Djava.net.preferIPv4Stack=true", "-Xmx34406m"];
    let kept = arguments.iter().filter(|argument| {
        !["-XX:+UseG1GC", "-Xmx34406m"].contains(&argument.as_str())
    });
    assert!(removed.iter().all(|argument| arguments.contains(&argument.to_string())));
    let mut merged: Vec<String> = kept.cloned().collect();
    for added in [
        "-Dhttps.proxyHost=proxy.my.corp",
        "-Djava.net.preferIPv4Stack=true",
        "-Xmx40000m",
        "-Dhttps.proxyPort=1234",
    ] {
        merged.push(added.to_owned());
    }
    let bootstrap_conf = bootstrap_conf::build(rg, &Some(merged)).unwrap();
    assert_eq!(
        bootstrap_conf,
        "conf.dir=./conf\n\
         graceful.shutdown.seconds=300\n\
         java=java\n\
         java.arg.1=-Xms34406m\n\
         java.arg.10=-Djava.security.properties=/stackable/nifi/conf/security.properties\n\
         java.arg.11=-Dhttps.proxyHost=proxy.my.corp\n\
         java.arg.12=-Djava.net.preferIPv4Stack=true\n\
         java.arg.13=-Xmx40000m\n\
         java.arg.14=-Dhttps.proxyPort=1234\n\
         java.arg.2=-Djava.awt.headless=true\n\
         java.arg.3=-Dorg.apache.jasper.compiler.disablejsr199=true\n\
         java.arg.4=-Djava.net.preferIPv4Stack=true\n\
         java.arg.5=-Dsun.net.http.allowRestrictedHeaders=true\n\
         java.arg.6=-Djava.protocol.handler.pkgs=sun.net.www.protocol\n\
         java.arg.7=-Djava.security.egd=file:/dev/urandom\n\
         java.arg.8=-Djavax.security.auth.useSubjectCredsOnly=true\n\
         java.arg.9=-Dzookeeper.admin.enableServer=false\n\
         lib.dir=./lib\n\
         preserve.environment=false\n\
         run.as=\n"
    );
}

#[test]
fn bootstrap_override_replaces_the_value_of_the_operator() {
    let cluster = minimal_validated_cluster();
    let mut rg = default_rg(&cluster).copied();
    rg.config_overrides.bootstrap_conf = map(&[("run.as", "nifi")]);
    let text = bootstrap_conf::build(&rg, &Some(vec![])).unwrap();
    assert!(text.contains("run.as=nifi\n"));
    assert_eq!(bootstrap_conf::build(&rg, &None), Err(properties::Error::InvalidJVMConfig));
}

fn make_rg(overrides: Option<StringMap>) -> NifiRoleGroupConfig {
    let cluster = minimal_validated_cluster();
    let mut rg = default_rg(&cluster).copied();
    rg.config_overrides.security_properties = overrides.unwrap_or_default();
    rg
}

#[test]
fn launch_properties_are_added_to_others() {
    let mut properties = map(&[("a", "1"), ("java", "other")]);
    bootstrap_conf::add_launch_properties(&mut properties);
    assert_eq!(
        properties,
        map(&[
            ("a", "1"),
            ("conf.dir", "./conf"),
            ("java", "java"),
            ("lib.dir", "./lib"),
            ("preserve.environment", "false"),
            ("run.as", ""),
        ])
    );
}

#[test]
fn test_default_keys_present() {
    let rg = make_rg(None);
    let result = security_properties::build(&rg).unwrap();
    assert!(result.contains("networkaddress.cache.ttl=30"));
    assert!(result.contains("networkaddress.cache.negative.ttl=0"));
}

#[test]
fn test_user_override_wins() {
    let rg = make_rg(Some(map(&[("networkaddress.cache.ttl", "60")])));
    let result = security_properties::build(&rg).unwrap();
    assert!(result.contains("networkaddress.cache.ttl=60"));
    assert!(!result.contains("networkaddress.cache.ttl=30"));
}

#[test]
fn security_properties_in_another_encoding_are_refused() {
    let rg = make_rg(Some(map(&[("name", "\u{e4}")])));
    assert_eq!(security_properties::build(&rg), Err(PropertiesWriterError::FromUtf8));
}

#[test]
fn config_map_holds_every_file() {
    let cluster = minimal_validated_cluster();
    let config_map =
        build_rolegroup_config_map(&cluster, "default", &role_group_files(), None).unwrap();
    for file in [
        ConfigFileName::BootstrapConf,
        ConfigFileName::NifiProperties,
        ConfigFileName::StateManagementXml,
        ConfigFileName::SecurityProperties,
        ConfigFileName::LoginIdentityProviders,
        ConfigFileName::Authorizers,
        ConfigFileName::Logback,
    ] {
        assert!(config_map.data.contains_key(file.as_str()), "{}", file.as_str());
    }
    assert_eq!(config_map.data.len(), 7);
    let with_vector = build_rolegroup_config_map(
        &cluster,
        "default",
        &role_group_files(),
        Some("sources: {}".to_owned()),
    )
    .unwrap();
    assert_eq!(with_vector.data.get("vector.yaml"), Some(&"sources: {}".to_owned()));
}

#[test]
fn config_map_takes_the_file_of_security_properties() {
    let mut cluster = minimal_validated_cluster();
    assert_eq!(
        build_security_file(&cluster, "default"),
        Some("networkaddress.cache.negative.ttl=0\nnetworkaddress.cache.ttl=30\n".to_owned())
    );
    assert_eq!(build_security_file(&cluster, "other"), None);
    let config_map = build_rolegroup_config_map_with(
        &cluster,
        "default",
        &role_group_files(),
        None,
        &Some("a=1\n".to_owned()),
    )
    .unwrap();
    assert_eq!(config_map.data.get("security.properties"), Some(&"a=1\n".to_owned()));

    let refused = config_map::Error::JvmSecurityProperties {
        source: PropertiesWriterError::FromUtf8,
        rolegroup: "default".to_owned(),
    };
    assert_eq!(
        build_rolegroup_config_map_with(&cluster, "default", &role_group_files(), None, &None)
            .unwrap_err(),
        refused
    );
    cluster.role_group_configs.insert("default", make_rg(Some(map(&[("name", "\u{e4}")]))));
    assert_eq!(build_security_file(&cluster, "default"), None);
    assert_eq!(
        build_rolegroup_config_map(&cluster, "default", &role_group_files(), None).unwrap_err(),
        refused
    );
}

#[test]
fn config_map_of_an_unknown_role_group_is_refused() {
    let cluster = minimal_validated_cluster();
    assert_eq!(
        build_rolegroup_config_map(&cluster, "other", &role_group_files(), None).unwrap_err(),
        config_map::Error::MissingRoleGroup {
            role: "node".to_owned(),
            role_group: "other".to_owned(),
        }
    );
}

// Network.

#[test]
fn allow_all_returns_wildcard_and_ignores_additional_hosts() {
    let mut cluster = minimal_validated_cluster();
    cluster.cluster_config.host_header_check.allow_all = true;
    cluster.cluster_config.host_header_check.additional_allowed_hosts =
        vec!["ignored.example.com".to_string()];

    assert_eq!(compute_proxy_hosts(&cluster), "*");
}

#[test]
fn explicit_hosts_include_listener_placeholder() {
    let mut cluster = minimal_validated_cluster();
    cluster.cluster_config.host_header_check.allow_all = false;
    cluster.cluster_config.host_header_check.additional_allowed_hosts =
        vec!["extra.example.com".to_string()];

    let hosts = compute_proxy_hosts(&cluster);

    assert!(
        hosts.contains("${env:LISTENER_DEFAULT_ADDRESS}:${env:LISTENER_DEFAULT_PORT_HTTPS}"),
        "expected the listener placeholder in {hosts}"
    );
    assert!(
        hosts.contains("extra.example.com"),
        "expected the additional host in {hosts}"
    );
    assert_eq!(
        hosts,
        "${env:LISTENER_DEFAULT_ADDRESS}:${env:LISTENER_DEFAULT_PORT_HTTPS},extra.example.com"
    );
}

#[test]
fn headless_service_is_cluster_ip_none_with_https_port() {
    let cluster = minimal_validated_cluster();
    let service = build_rolegroup_headless_service(&cluster, "default");

    assert_eq!(Some("ClusterIP".to_string()), service.type_);
    assert_eq!(Some("None".to_string()), service.cluster_ip);
    assert_eq!(1, service.ports.len());
    assert_eq!(Some(HTTPS_PORT_NAME.to_string()), service.ports[0].name);
    assert_eq!(i32::from(HTTPS_PORT), service.ports[0].port);
}

#[test]
fn metrics_service_is_scraped() {
    let cluster = minimal_validated_cluster();
    let service = build_rolegroup_metrics_service(&cluster, "default");
    assert_eq!(service.metadata.name, Some("simple-nifi-node-default-metrics".to_owned()));
    assert_eq!(
        service.metadata.annotations.get("prometheus.io/path"),
        Some(&"/nifi-api/flow/metrics/prometheus".to_owned())
    );
}

#[test]
fn listener_test_constants() {
    assert_eq!(LISTENER_PVC_NAME, "listener");
}

#[test]
fn group_listener_is_named_after_the_role() {
    let cluster = minimal_validated_cluster();
    let name = group_listener_name(&cluster, "node");
    assert_eq!(name, "simple-nifi-node");
    let listener = build_group_listener(&cluster, "external-stable", &name);
    assert_eq!(listener.class_name, Some("external-stable".to_owned()));
    assert_eq!(listener.ports[0].port, 8443);
}

// Pods.

#[test]
fn build_pdb_returns_none_when_disabled() {
    let cluster = minimal_validated_cluster();
    let pdb = PdbConfig { enabled: false, max_unavailable: None };
    assert!(build_pdb(&pdb, &cluster, &NifiRole::Node).is_none());
}

#[test]
fn build_pdb_uses_explicit_max_unavailable() {
    let cluster = minimal_validated_cluster();
    let pdb = PdbConfig { enabled: true, max_unavailable: Some(2) };

    let budget = build_pdb(&pdb, &cluster, &NifiRole::Node).expect("an enabled PDB must be built");
    assert_eq!(Some(2), budget.max_unavailable);
}

#[test]
fn build_pdb_defaults_max_unavailable_to_one() {
    let cluster = minimal_validated_cluster();
    let pdb = PdbConfig { enabled: true, max_unavailable: None };

    let budget = build_pdb(&pdb, &cluster, &NifiRole::Node).expect("an enabled PDB must be built");
    assert_eq!(Some(1), budget.max_unavailable);
}

#[test]
fn volume_claims_cover_the_repositories() {
    let mut cluster = minimal_validated_cluster();
    let names_of = |cluster: &ValidatedCluster| -> Vec<String> {
        get_volume_claim_templates(cluster, "default", default_rg(cluster))
            .into_iter()
            .map(|claim| match claim {
                VolumeClaimTemplate::Repository { name, .. } => name,
                VolumeClaimTemplate::Listener { name, .. } => name,
            })
            .collect()
    };
    assert_eq!(
        names_of(&cluster),
        [
            "content-repository",
            "database-repository",
            "flowfile-repository",
            "provenance-repository",
            "state-repository",
            "listener"
        ]
    );
    cluster.cluster_config.authorization = ResolvedNifiAuthorizationConfig::Standard {
        access_policy_provider: NifiAccessPolicyProvider::FileBased {
            initia_admin_user: "admin".to_owned(),
        },
        settings: AuthorizerSettings {
            authorizers_xml: String::new(),
            env_vars: vec![],
            volumes: vec![],
            volume_mounts: vec![],
        },
    };
    assert_eq!(names_of(&cluster)[6], "filebased-repository");
}

#[test]
fn pods_mount_the_sensitive_key() {
    let cluster = minimal_validated_cluster();
    let stateful_set = build_node_rolegroup_statefulset(
        &cluster,
        "default",
        default_rg(&cluster),
        true,
        Some(3),
        "account",
        &snippets(),
    )
    .unwrap();
    assert_eq!(stateful_set.replicas, Some(3));
    assert_eq!(stateful_set.update_strategy, Some("RollingUpdate".to_owned()));
    let template = &stateful_set.template;
    assert_eq!(template.service_account_name, Some("account".to_owned()));
    assert_eq!(template.termination_grace_period_seconds, Some(300));
    assert!(template.volumes.contains(&Volume {
        name: "sensitiveproperty".to_owned(),
        source: VolumeSource::Secret {
            secret_name: SENSITIVE_KEY_SECRET_NAME.to_owned(),
            optional: None,
            items: vec![],
        },
    }));
    let prepare = match template.init_containers.last().unwrap() {
        PodContainer::Own { container } => container,
        _ => panic!("the prepare container comes last"),
    };
    assert!(prepare.volume_mounts.iter().any(
        |mount| mount.name == "sensitiveproperty"
            && mount.mount_path == "/stackable/sensitiveproperty"
    ));
    let nifi = match &template.containers[0] {
        PodContainer::Own { container } => container,
        _ => panic!("the nifi container comes first"),
    };
    assert_eq!(nifi.name, "nifi");
    assert_eq!(nifi.image, Some(image().image));
}

#[test]
fn every_container_mounts_the_extra_volumes() {
    let mut cluster = minimal_validated_cluster();
    cluster.cluster_config.extra_volumes = vec![Volume {
        name: "certs".to_owned(),
        source: VolumeSource::ConfigMap { name: "client-certs".to_owned() },
    }];
    let git_sync = || PodContainer::Manifest {
        name: "git-sync".to_owned(),
        json: "{}".to_owned(),
        extra_mounts: vec![],
    };
    let mut rg = default_rg(&cluster).copied();
    rg.config.git_sync_resources.git_sync_containers = vec![git_sync()];
    rg.config.git_sync_resources.git_sync_init_containers = vec![git_sync()];
    let build_set = |cluster: &ValidatedCluster, rg: &NifiRoleGroupConfig| {
        build_node_rolegroup_statefulset(cluster, "default", rg, true, None, "sa", &snippets())
    };
    let template = build_set(&cluster, &rg).unwrap().template;
    assert!(template.volumes.contains(&cluster.cluster_config.extra_volumes[0]));
    assert_eq!((template.init_containers.len(), template.containers.len()), (2, 2));
    for container in template.init_containers.iter().chain(&template.containers) {
        let mounts = match container {
            PodContainer::Own { container } => &container.volume_mounts,
            PodContainer::Vector { sidecar } => &sidecar.extra_mounts,
            PodContainer::Manifest { extra_mounts, .. } => extra_mounts,
        };
        assert!(mounts.contains(&VolumeMount {
            name: "certs".to_owned(),
            mount_path: "/stackable/userdata/certs".to_owned(),
            sub_path: None,
        }));
    }
    rg.config.git_sync_resources.git_sync_containers = vec![PodContainer::Manifest {
        name: "git-sync".to_owned(),
        json: "{}".to_owned(),
        extra_mounts: vec![VolumeMount {
            name: "other".to_owned(),
            mount_path: "/stackable/userdata/certs".to_owned(),
            sub_path: None,
        }],
    }];
    assert_eq!(build_set(&cluster, &rg).unwrap_err(), node_pod::Error::AddVolumeMount);
}

#[test]
fn pods_need_a_secret_lifetime_and_different_volumes() {
    let mut cluster = minimal_validated_cluster();
    let mut rg = default_rg(&cluster).copied();
    rg.config.requested_secret_lifetime_seconds = None;
    let build_set = |cluster: &ValidatedCluster, rg: &NifiRoleGroupConfig| {
        build_node_rolegroup_statefulset(cluster, "default", rg, true, None, "sa", &snippets())
    };
    assert_eq!(
        build_set(&cluster, &rg).unwrap_err(),
        node_pod::Error::MissingSecretLifetime
    );
    let mut long = default_rg(&cluster).copied();
    long.config.graceful_shutdown_timeout_seconds = Some(u64::MAX);
    assert_eq!(build_set(&cluster, &long).unwrap_err(), node_pod::Error::GracefulShutdown);
    cluster.cluster_config.extra_volumes = vec![
        Volume {
            name: "data".to_owned(),
            source: VolumeSource::ConfigMap { name: "a".to_owned() },
        },
        Volume {
            name: "data".to_owned(),
            source: VolumeSource::ConfigMap { name: "b".to_owned() },
        },
    ];
    let rg = default_rg(&cluster);
    assert_eq!(build_set(&cluster, rg).unwrap_err(), node_pod::Error::AddVolume);
}

#[test]
fn reporting_task_runs_on_the_first_node() {
    let mut cluster = minimal_validated_cluster();
    assert!(build_maybe_reporting_task(&cluster, "account").unwrap().is_none());
    cluster.image.product_version = "1.28.1".to_owned();
    let (job, service) = build_maybe_reporting_task(&cluster, "account").unwrap().unwrap();
    assert!(job.metadata.name.unwrap().starts_with("simple-nifi-create-reporting-task-"));
    assert_eq!(
        service.selector.get("statefulset.kubernetes.io/pod-name"),
        Some(&"simple-nifi-node-default-0".to_owned())
    );
    cluster.role_group_configs = OrderedMap::new();
    assert_eq!(
        build_reporting_task_service(&cluster).unwrap_err(),
        nifi_operator::controller::build::resource::reporting_task::Error::FailedBuildReportingTaskService
    );
}

// Secrets.

fn oidc_cluster() -> ValidatedCluster {
    let mut cluster = minimal_validated_cluster();
    let authentication = oidc_authentication_config(&cluster.name);
    cluster.cluster_config.authentication = authentication;
    cluster
}

fn existing_secret(name: &str) -> Secret {
    Secret { metadata: metadata(name), data: None, string_data: None }
}

fn secret_named<'a>(secrets: &'a [Secret], name: &str) -> &'a Secret {
    secrets
        .iter()
        .find(|secret| secret.metadata.name.as_deref() == Some(name))
        .unwrap_or_else(|| panic!("no Secret named {name:?}"))
}

#[test]
fn generates_the_sensitive_key_secret_when_it_is_missing() {
    let cluster = minimal_validated_cluster();

    let secrets = build_secrets(&cluster);

    assert_eq!(names_of_secrets(&secrets), [SENSITIVE_KEY_SECRET_NAME]);
    let password = secrets[0]
        .string_data
        .as_ref()
        .expect("a generated Secret carries its contents in string_data")
        .get(SENSITIVE_PROPERTY_KEY_NAME);
    assert_eq!(password.map(String::len), Some(GENERATED_PASSWORD_LENGTH));
    assert!(password.unwrap().chars().all(|c| c.is_ascii_alphanumeric()));
}

#[test]
fn two_generated_keys_differ() {
    let cluster = minimal_validated_cluster();
    let key = |secrets: Vec<Secret>| -> String {
        secrets[0].string_data.as_ref().unwrap().get(SENSITIVE_PROPERTY_KEY_NAME).unwrap().clone()
    };
    assert_ne!(key(build_secrets(&cluster)), key(build_secrets(&cluster)));
}

#[test]
fn does_not_emit_an_existing_sensitive_key_secret() {
    let mut cluster = minimal_validated_cluster();
    cluster.existing_secrets.sensitive_key = Some(existing_secret(SENSITIVE_KEY_SECRET_NAME));

    let secrets = build_secrets(&cluster);

    assert_eq!(names_of_secrets(&secrets), [] as [String; 0]);
}

#[test]
fn never_generates_a_user_provided_sensitive_key_secret() {
    let mut cluster = minimal_validated_cluster();
    cluster.cluster_config.sensitive_properties.auto_generate = false;

    let secrets = build_secrets(&cluster);

    assert_eq!(names_of_secrets(&secrets), [] as [String; 0]);
}

#[test]
fn generates_the_oidc_admin_password_secret_when_it_is_missing() {
    let cluster = oidc_cluster();
    let name = build_oidc_admin_password_secret_name(&cluster.name);

    let secrets = build_secrets(&cluster);

    assert!(secret_named(&secrets, &name)
        .string_data
        .as_ref()
        .expect("a generated Secret carries its contents in string_data")
        .contains_key(STACKABLE_ADMIN_USERNAME));
}

#[test]
fn does_not_emit_an_existing_oidc_admin_password_secret() {
    let mut cluster = oidc_cluster();
    let name = build_oidc_admin_password_secret_name(&cluster.name);
    cluster.existing_secrets.oidc_admin_password = Some(existing_secret(&name));

    let secrets = build_secrets(&cluster);

    assert_eq!(
        names_of_secrets(&secrets),
        [SENSITIVE_KEY_SECRET_NAME],
        "only the still missing sensitive key Secret may be emitted"
    );
}

#[test]
fn omits_the_oidc_admin_password_secret_for_other_authentication_methods() {
    let cluster = minimal_validated_cluster();

    let secrets = build_secrets(&cluster);

    assert!(!names_of_secrets(&secrets)
        .contains(&build_oidc_admin_password_secret_name(&cluster.name)));
}

#[test]
fn secret_metadata_is_labelled_but_not_owned_by_the_cluster() {
    let cluster = oidc_cluster();

    let secrets = build_secrets_with(&cluster, "key", "password");

    let mut emitted = names_of_secrets(&secrets);
    emitted.sort();
    assert_eq!(
        emitted,
        [
            build_oidc_admin_password_secret_name(&cluster.name),
            SENSITIVE_KEY_SECRET_NAME.to_owned(),
        ],
        "both Secrets must be checked, not an empty list"
    );
    for secret in &secrets {
        assert_eq!(
            secret.metadata,
            ObjectMeta {
                name: secret.metadata.name.clone(),
                namespace: Some("default".to_owned()),
                uid: None,
                labels: map(&[
                    ("app.kubernetes.io/component", "none"),
                    ("app.kubernetes.io/instance", "simple-nifi"),
                    ("app.kubernetes.io/managed-by", "nifi.stackable.tech_nificluster"),
                    ("app.kubernetes.io/name", "nifi"),
                    ("app.kubernetes.io/role-group", "none"),
                    ("app.kubernetes.io/version", "2.9.0"),
                    ("stackable.tech/vendor", "Stackable"),
                ]),
                annotations: OrderedMap::new(),
                owner_references: vec![],
            }
        );
    }
}

// Validation.

fn no_secrets() -> ExistingSecrets {
    ExistingSecrets { sensitive_key: None, oidc_admin_password: None }
}

#[test]
fn accepts_a_missing_sensitive_key_secret_when_auto_generation_is_enabled() {
    validate_existing_secrets(
        &no_secrets(),
        &sensitive_properties(true),
        &single_user_authentication(),
        "default",
    )
    .expect("a missing Secret is generated by the build step");
}

#[test]
fn rejects_a_missing_sensitive_key_secret_when_auto_generation_is_disabled() {
    let error = validate_existing_secrets(
        &no_secrets(),
        &sensitive_properties(false),
        &single_user_authentication(),
        "default",
    )
    .expect_err("the missing Secret must be reported");

    assert!(
        matches!(error, Error::SensitiveKeySecretMissing { .. }),
        "unexpected error: {error:?}"
    );
}

#[test]
fn rejects_an_existing_sensitive_key_secret_without_its_key() {
    for auto_generate in [true, false] {
        let existing_secrets = ExistingSecrets {
            sensitive_key: Some(fetched_secret(SENSITIVE_KEY_SECRET_NAME, &["some-other-key"])),
            oidc_admin_password: None,
        };

        let error = validate_existing_secrets(
            &existing_secrets,
            &sensitive_properties(auto_generate),
            &single_user_authentication(),
            "default",
        )
        .expect_err("the incomplete Secret must be reported");

        assert!(
            matches!(error, Error::SensitiveKeySecretIncomplete { .. }),
            "unexpected error for autoGenerate={auto_generate}: {error:?}"
        );
    }
}

#[test]
fn rejects_an_existing_admin_password_secret_without_its_key() {
    let existing_secrets = ExistingSecrets {
        sensitive_key: Some(fetched_secret(
            SENSITIVE_KEY_SECRET_NAME,
            &[SENSITIVE_PROPERTY_KEY_NAME],
        )),
        oidc_admin_password: Some(fetched_secret(
            "simple-nifi-oidc-admin-password",
            &["some-other-user"],
        )),
    };

    let error = validate_existing_secrets(
        &existing_secrets,
        &sensitive_properties(true),
        &oidc_authentication_config("simple-nifi"),
        "default",
    )
    .expect_err("the incomplete Secret must be reported");

    assert!(
        matches!(error, Error::AdminPasswordSecretIncomplete { .. }),
        "unexpected error: {error:?}"
    );
}

#[test]
fn ignores_the_admin_password_secret_for_other_authentication_methods() {
    let existing_secrets = ExistingSecrets {
        sensitive_key: Some(fetched_secret(
            SENSITIVE_KEY_SECRET_NAME,
            &[SENSITIVE_PROPERTY_KEY_NAME],
        )),
        oidc_admin_password: Some(fetched_secret(
            "simple-nifi-oidc-admin-password",
            &["some-other-user"],
        )),
    };

    validate_existing_secrets(
        &existing_secrets,
        &sensitive_properties(true),
        &single_user_authentication(),
        "default",
    )
    .expect("the unused Secret must be ignored");
}

#[test]
fn keys_are_found_in_the_fetched_part_of_a_secret_only() {
    let fetched = fetched_secret("a", &["key"]);
    assert!(secret_contains_key(&fetched, "key"));
    assert!(!secret_contains_key(&fetched, "other"));
    let written = Secret {
        metadata: metadata("a"),
        data: None,
        string_data: Some(map(&[("key", "value")])),
    };
    assert_eq!(secret_contains_key(&written, "key"), false);
}

fn cluster_inputs() -> ClusterInputs {
    ClusterInputs {
        image: Some(ResolvedProductImage {
            product_version: "2.9.0".to_owned(),
            app_version_label_value: "2.9.0-stackable0.0.0-dev".to_owned(),
            image: "oci.example.org/nifi:2.9.0-stackable0.0.0-dev".to_owned(),
            image_pull_policy: "Always".to_owned(),
            pull_secrets: vec![],
        }),
        cluster_name: Some("simple-nifi".to_owned()),
        uid: Some(UID.to_owned()),
        product_version_is_valid: true,
        namespace: "default".to_owned(),
        cluster_domain: "cluster.local".to_owned(),
        authentication: Some(single_user_authentication()),
        authorization: ResolvedNifiAuthorizationConfig::SingleUser,
        existing_secrets: no_secrets(),
        role_groups: inputs_of_default(role_group_inputs(false)),
    }
}

#[test]
fn validate_ok_derives_expected_values() {
    let cluster =
        validate(&minimal_nifi(), &cluster_inputs()).expect("the minimal fixture validates");

    assert_eq!(cluster.name, "simple-nifi");
    assert_eq!(cluster.namespace, "default");
    assert_eq!(cluster.uid, "e6ac237d-a6d4-43a1-8135-f36506110912");
    assert_eq!(cluster.cluster_domain, "cluster.local");
    assert_eq!(cluster.image.image, "oci.example.org/nifi:2.9.0-stackable0.0.0-dev");
    assert_eq!(cluster.image.product_version, "2.9.0");
    assert_eq!(cluster.product_version, "2.9.0-stackable0.0.0-dev");
    assert_eq!(cluster.deployed_product_version, "2.9.0");

    assert!(cluster.role_config.pdb.enabled);
    assert_eq!(cluster.role_config.pdb.max_unavailable, None);
    assert_eq!(cluster.role_config.listener_class, "cluster-internal");

    let cluster_config = &cluster.cluster_config;
    assert!(matches!(
        &cluster_config.authentication,
        NifiAuthenticationConfig::SingleUser { provider }
            if provider.user_credentials_secret == "nifi-admin-credentials-simple"
    ));
    assert!(matches!(
        cluster_config.authorization,
        ResolvedNifiAuthorizationConfig::SingleUser
    ));
    assert!(matches!(cluster_config.clustering_backend, NifiClusteringBackend::Kubernetes));
    assert_eq!(cluster_config.server_tls_secret_class, "tls");
    assert_eq!(
        cluster_config.sensitive_properties.key_secret,
        "simple-nifi-sensitive-property-key"
    );
    assert!(cluster_config.sensitive_properties.auto_generate);
    assert!(cluster_config.extra_volumes.is_empty());

    assert_eq!(cluster.role_group_configs.len(), 1);
    let (name, role_group) = cluster.role_group_configs.entry(0);
    assert_eq!(name, "default");
    assert_eq!(role_group.replicas, Some(1));
    assert!(!role_group.config.logging.enable_vector_agent);
    assert_eq!(role_group.config.logging.vector_container, None);
}

#[test]
fn validation_reports_what_is_missing() {
    let nifi = minimal_nifi();
    let mut inputs = cluster_inputs();
    inputs.image = None;
    assert_eq!(validate(&nifi, &inputs).unwrap_err(), Error::ResolveProductImage);
    let mut inputs = cluster_inputs();
    inputs.cluster_name = None;
    assert_eq!(validate(&nifi, &inputs).unwrap_err(), Error::GetClusterName);
    let mut inputs = cluster_inputs();
    inputs.uid = None;
    assert_eq!(validate(&nifi, &inputs).unwrap_err(), Error::GetUid);
    let mut inputs = cluster_inputs();
    inputs.authentication = None;
    assert_eq!(validate(&nifi, &inputs).unwrap_err(), Error::InvalidAuthenticationConfig);
    let mut inputs = cluster_inputs();
    inputs.product_version_is_valid = false;
    assert_eq!(
        validate(&nifi, &inputs).unwrap_err(),
        Error::ParseProductVersion { product_version: "2.9.0".to_owned() }
    );
}

#[test]
fn validation_reports_invalid_role_groups() {
    let nifi = minimal_nifi();
    let fail = |inputs: RoleGroupInputs| {
        build_role_group_configs(&nifi, &inputs_of_default(inputs)).unwrap_err()
    };
    let mut inputs = role_group_inputs(false);
    inputs.name_is_valid = false;
    assert_eq!(fail(inputs), Error::ParseRoleGroupName { role_group: "default".to_owned() });
    let mut inputs = role_group_inputs(false);
    inputs.logging.enable_vector_agent = None;
    assert_eq!(fail(inputs), Error::ValidateRoleGroupConfig);
    let mut inputs = role_group_inputs(false);
    inputs.invalid_env_var_name = Some("a=b".to_owned());
    assert_eq!(fail(inputs), Error::ParseEnvVarName { name: "a=b".to_owned() });
    let mut inputs = role_group_inputs(false);
    inputs.git_sync_resources = None;
    assert_eq!(fail(inputs), Error::BuildGitSyncResources);
    let mut inputs = role_group_inputs(false);
    inputs.log_choices.nifi = None;
    assert_eq!(fail(inputs), Error::ValidateLoggingConfig);
}

#[test]
fn vector_container_is_validated_when_agent_enabled() {
    let mut nifi = minimal_nifi();
    nifi.spec.cluster_config.vector_aggregator_config_map_name =
        Some("nifi-vector-aggregator-discovery".to_owned());

    let configs = build_role_group_configs(&nifi, &inputs_of_default(role_group_inputs(true)))
        .expect("role group configs should validate");

    let vector = configs
        .get("default")
        .unwrap()
        .config
        .logging
        .vector_container
        .as_ref()
        .expect("the Vector container config should be present when the agent is enabled");
    assert_eq!("nifi-vector-aggregator-discovery", vector.vector_aggregator_config_map_name);
}

#[test]
fn vector_agent_enabled_without_aggregator_name_fails() {
    let nifi = minimal_nifi();

    let result = build_role_group_configs(&nifi, &inputs_of_default(role_group_inputs(true)));
    assert!(matches!(result, Err(Error::MissingVectorAggregatorConfigMapName)));
}

#[test]
fn no_vector_container_when_agent_disabled() {
    let nifi = minimal_nifi();

    let configs = build_role_group_configs(&nifi, &inputs_of_default(role_group_inputs(false)))
        .expect("role group configs should validate");

    assert!(configs.get("default").unwrap().config.logging.vector_container.is_none());
}

#[test]
fn logging_needs_the_choice_of_every_container_that_runs() {
    let mut choices = log_choices();
    choices.vector = None;
    let without_agent = validate_logging(false, &choices, &None).unwrap();
    assert!(without_agent.vector_container.is_none());
    assert_eq!(
        validate_logging(true, &choices, &Some("discovery".to_owned())).unwrap_err(),
        Error::ValidateLoggingConfig
    );
}

#[test]
fn merged_settings_prefer_the_role_group() {
    let mut nifi = minimal_nifi();
    let logging = LoggingFragment {
        enable_vector_agent: Some(false),
        containers: OrderedMap::new(),
    };
    let nodes = nifi.spec.nodes.as_mut().unwrap();
    nodes.config.resources.cpu_min = Some("1".to_owned());
    nodes.config.resources.cpu_max = Some("3".to_owned());
    let mut group = RoleGroup {
        replicas: None,
        config: NifiConfigFragment::default(),
        pod_overrides: String::new(),
    };
    group.config.resources.cpu_max = Some("4".to_owned());
    nodes.role_groups.insert("default", group);
    let config = nifi.merged_config(&NifiRole::Node, "default", &logging).unwrap();
    assert_eq!(config.resources.cpu_min, Some("1".to_owned()));
    assert_eq!(config.resources.cpu_max, Some("4".to_owned()));
    assert_eq!(config.resources.memory_limit, Some("4096Mi".to_owned()));
    nifi.spec.nodes = None;
    assert_eq!(
        nifi.merged_config(&NifiRole::Node, "default", &logging).unwrap_err(),
        nifi_operator::crd::Error::MissingNifiRole { role: "node".to_owned() }
    );
}

#[test]
fn secrets_are_fetched_from_the_namespace_of_the_cluster() {
    let nifi = minimal_nifi();
    let some = |text: &str| Some(text.to_owned());
    assert_eq!(
        dereference(&nifi, &some("default"), &some("simple-nifi"), Stage::AdminPassword).unwrap(),
        Request::Secret {
            name: "simple-nifi-oidc-admin-password".to_owned(),
            namespace: "default".to_owned(),
        }
    );
    assert_eq!(
        dereference(&nifi, &some("default"), &some("simple-nifi"), Stage::SensitiveKey).unwrap(),
        Request::Secret {
            name: SENSITIVE_KEY_SECRET_NAME.to_owned(),
            namespace: "default".to_owned(),
        }
    );
    assert_eq!(
        dereference(&nifi, &None, &None, Stage::AuthenticationClasses).unwrap_err(),
        nifi_operator::controller::dereference::Error::GetNamespace
    );
    assert_eq!(
        dereference(&nifi, &some("default"), &None, Stage::SensitiveKey).unwrap_err(),
        nifi_operator::controller::dereference::Error::GetClusterName
    );
}

// A role group, straight from the definition of its cluster.

fn merged(nifi: &NifiCluster, enable_vector_agent: bool) -> NifiConfig {
    let mut containers: OrderedMap<ContainerLogConfig> = OrderedMap::new();
    for container in [Container::Nifi, Container::Prepare, Container::Vector] {
        let choice = Some(ContainerLogConfigChoice::Automatic { config: "{}".to_owned() });
        containers.insert(container.as_str(), ContainerLogConfig { choice });
    }
    let logging = LoggingFragment { enable_vector_agent: Some(enable_vector_agent), containers };
    nifi.merged_config(&NifiRole::Node, "default", &logging).unwrap()
}

fn role_group_properties() -> rolegroup::RoleGroupProperties {
    let mut files: OrderedMap<StringMap> = OrderedMap::new();
    files.insert("bootstrap.conf", OrderedMap::new());
    files.insert("nifi.properties", map(&[("nifi.ui.banner.text", "Hello")]));
    files.insert("security.properties", map(&[("networkaddress.cache.ttl", "30")]));
    rolegroup::RoleGroupProperties { env: Some(map(&[("MY_ENV", "1")])), files }
}

fn rendered_files() -> rolegroup::RenderedFiles {
    let files = role_group_files();
    rolegroup::RenderedFiles {
        jvm_arguments: files.jvm_arguments,
        quotas: files.quotas,
        authorizers_xml: Some("<authorizers/>".to_owned()),
        logback_config: "<configuration/>".to_owned(),
        vector_config: "sources:".to_owned(),
    }
}

#[test]
fn hosts_of_the_reporting_task_are_allowed_for_nifi_1() {
    let mut nifi = minimal_nifi();
    assert_eq!(rolegroup::get_proxy_hosts(&nifi, "1.28.1", "cluster.local").unwrap(), "*");
    nifi.spec.cluster_config.host_header_check.allow_all = false;
    let hosts = rolegroup::get_proxy_hosts(&nifi, "1.28.1", "cluster.local").unwrap();
    let host = "simple-nifi-reporting-task.default.svc.cluster.local:8443";
    assert!(hosts.split(',').any(|allowed| allowed == host), "{hosts}");
    let hosts = rolegroup::get_proxy_hosts(&nifi, "2.9.0", "cluster.local").unwrap();
    assert!(!hosts.contains("reporting-task"), "{hosts}");
    nifi.metadata.namespace = None;
    assert_eq!(
        rolegroup::get_proxy_hosts(&nifi, "1.28.1", "cluster.local").unwrap_err(),
        rolegroup::Error::ReportingTask
    );
}

#[test]
fn config_map_of_a_role_group_holds_its_files() {
    let nifi = minimal_nifi();
    let reference = nifi.node_rolegroup_ref("default");
    let build_map = |properties: &rolegroup::RoleGroupProperties,
                     config: &NifiConfig,
                     files: &rolegroup::RenderedFiles| {
        rolegroup::build_node_rolegroup_config_map(
            &nifi,
            &image(),
            &single_user_authentication(),
            &reference,
            properties,
            config,
            "*",
            &no_git_sync(),
            files,
        )
    };
    let properties = role_group_properties();
    let config_map = build_map(&properties, &merged(&nifi, true), &rendered_files()).unwrap();
    assert_eq!(config_map.metadata.name, Some("simple-nifi-node-default".to_owned()));
    let names: Vec<&String> =
        (0..config_map.data.len()).map(|at| config_map.data.entry(at).0).collect();
    assert_eq!(
        names,
        [
            "authorizers.xml",
            "bootstrap.conf",
            "logback.xml",
            "login-identity-providers.xml",
            "nifi.properties",
            "security.properties",
            "state-management.xml",
            "vector.yaml"
        ]
    );
    assert_eq!(
        config_map.data.get("security.properties"),
        Some(&"networkaddress.cache.ttl=30\n".to_owned())
    );
    assert!(config_map
        .data
        .get("nifi.properties")
        .unwrap()
        .contains("nifi.ui.banner.text=Hello\n"));
    let without_agent = build_map(&properties, &merged(&nifi, false), &rendered_files()).unwrap();
    assert!(!without_agent.data.contains_key("vector.yaml"));

    let mut unauthorized = rendered_files();
    unauthorized.authorizers_xml = None;
    assert_eq!(
        build_map(&properties, &merged(&nifi, true), &unauthorized).unwrap_err(),
        rolegroup::Error::InvalidNifiAuthorizationConfig
    );
    let mut incomplete = role_group_properties();
    incomplete.files = OrderedMap::new();
    assert_eq!(
        build_map(&incomplete, &merged(&nifi, true), &rendered_files()).unwrap_err(),
        rolegroup::Error::ProductConfigKindNotSpecified { kind: "bootstrap.conf".to_owned() }
    );
}

#[test]
fn config_map_of_a_role_group_takes_the_file_of_security_properties() {
    let nifi = minimal_nifi();
    let reference = nifi.node_rolegroup_ref("default");
    let properties = role_group_properties();
    let build_map = |security: Option<String>| {
        rolegroup::build_node_rolegroup_config_map_with(
            &nifi,
            &image(),
            &single_user_authentication(),
            &reference,
            &properties,
            &merged(&nifi, false),
            "*",
            &no_git_sync(),
            &rendered_files(),
            &security,
        )
    };
    let config_map = build_map(Some("a=1\n".to_owned())).unwrap();
    assert_eq!(config_map.data.get("security.properties"), Some(&"a=1\n".to_owned()));
    assert_eq!(
        build_map(None).unwrap_err(),
        rolegroup::Error::JvmSecurityProperties {
            source: PropertiesWriterError::FromUtf8,
            rolegroup: "default".to_owned(),
        }
    );
    assert_eq!(
        rolegroup::build_security_file(&properties),
        Some("networkaddress.cache.ttl=30\n".to_owned())
    );
    let mut none = role_group_properties();
    none.files = OrderedMap::new();
    assert_eq!(rolegroup::build_security_file(&none), Some(String::new()));
}

#[test]
fn stateful_set_of_a_role_group_runs_its_nodes() {
    let mut nifi = minimal_nifi();
    nifi.spec.cluster_config.vector_aggregator_config_map_name = Some("aggregator".to_owned());
    nifi.spec.cluster_config.extra_volumes = vec![Volume {
        name: "certs".to_owned(),
        source: VolumeSource::ConfigMap { name: "client-certs".to_owned() },
    }];
    let build_set = |nifi: &NifiCluster,
                     properties: &rolegroup::RoleGroupProperties,
                     log_agent_is_valid: bool| {
        rolegroup::build_node_rolegroup_statefulset(
            nifi,
            &image(),
            "cluster.local",
            &nifi.node_rolegroup_ref("default"),
            nifi.spec.nodes.as_ref().unwrap(),
            properties,
            &merged(nifi, true),
            &single_user_authentication(),
            &vec![],
            false,
            Some(2),
            "account",
            &no_git_sync(),
            &snippets(),
            log_agent_is_valid,
        )
    };
    let set = build_set(&nifi, &role_group_properties(), true).unwrap();
    assert_eq!(set.metadata.name, Some("simple-nifi-node-default".to_owned()));
    assert_eq!(set.update_strategy, Some("OnDelete".to_owned()));
    assert_eq!(set.service_name, Some("simple-nifi-node-default-headless".to_owned()));
    let nifi_container = match &set.template.containers[0] {
        PodContainer::Own { container } => container,
        _ => panic!("the nifi container comes first"),
    };
    assert_eq!(nifi_container.env[0].name, "MY_ENV");
    let agent = set
        .template
        .containers
        .iter()
        .find_map(|container| match container {
            PodContainer::Vector { sidecar } => Some(sidecar),
            _ => None,
        })
        .expect("the log agent");
    assert_eq!(agent.image, image().image);
    assert_eq!(agent.image_pull_policy, "IfNotPresent");
    assert_eq!(agent.aggregator_config_map_name, "aggregator");
    assert_eq!(agent.extra_mounts[0].mount_path, "/stackable/userdata/certs");

    assert_eq!(
        build_set(&nifi, &role_group_properties(), false).unwrap_err(),
        rolegroup::Error::Pod { source: node_pod::Error::ConfigureLogging }
    );
    let mut without_env = role_group_properties();
    without_env.env = None;
    assert_eq!(
        build_set(&nifi, &without_env, true).unwrap_err(),
        rolegroup::Error::ProductConfigKindNotSpecified { kind: "ENV".to_owned() }
    );
    nifi.spec.cluster_config.vector_aggregator_config_map_name = None;
    assert_eq!(
        build_set(&nifi, &role_group_properties(), true).unwrap_err(),
        rolegroup::Error::Pod { source: node_pod::Error::VectorAggregatorConfigMapMissing }
    );
    nifi.metadata.namespace = None;
    assert_eq!(
        build_set(&nifi, &role_group_properties(), true).unwrap_err(),
        rolegroup::Error::ObjectHasNoNamespace
    );
}

#[test]
fn listener_of_a_role_is_named_after_it() {
    let nifi = minimal_nifi();
    assert_eq!(rolegroup::group_listener_name(&nifi, "node"), "simple-nifi-node");
}

#[test]
fn log_agent_is_configured_where_it_is_enabled() {
    let nifi = minimal_nifi();
    let reference = nifi.node_rolegroup_ref("default");
    assert!(build_vector_config(&reference, &merged(&nifi, false).logging).is_none());
    let request = build_vector_config(&reference, &merged(&nifi, true).logging).unwrap();
    assert_eq!(request.role_group, reference);
    assert_eq!(request.log_config, Some("{}".to_owned()));
}

#[test]
fn pods_get_their_time_to_shut_down() {
    let cluster = minimal_validated_cluster();
    let rg = default_rg(&cluster);
    let mut set =
        build_node_rolegroup_statefulset(&cluster, "default", rg, true, None, "sa", &snippets())
            .unwrap();
    let mut config = rg.config.copied();
    config.graceful_shutdown_timeout_seconds = Some(7);
    assert!(add_graceful_shutdown_config(&config, &mut set.template).is_ok());
    assert_eq!(set.template.termination_grace_period_seconds, Some(7));
    config.graceful_shutdown_timeout_seconds = None;
    assert!(add_graceful_shutdown_config(&config, &mut set.template).is_ok());
    assert_eq!(set.template.termination_grace_period_seconds, Some(7));
    config.graceful_shutdown_timeout_seconds = Some(u64::MAX);
    assert!(add_graceful_shutdown_config(&config, &mut set.template).is_err());
}
