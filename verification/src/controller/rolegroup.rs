//! The objects of a role group whose settings are checked against the product configuration.
//!
//! The product configuration hands back, for each role group, its environment variables and the
//! properties of its files.

use crate::contents::Copied;
use crate::controller;
use crate::controller::build::properties;
use crate::controller::build::properties::bootstrap_conf;
use crate::controller::build::properties::nifi_properties;
use crate::controller::build::properties::nifi_properties::{
    NifiSettings, NifiSettingsView, StorageQuotas, StorageQuotasView,
};
use crate::controller::build::properties::security_properties;
use crate::controller::build::properties::security_properties::list_properties;
use crate::controller::build::properties::state_management_xml;
use crate::controller::build::properties::ConfigFileName;
use crate::controller::build::proxy_hosts;
use crate::controller::build::proxy_hosts::allow_list_of_hosts;
use crate::controller::build::resource::config_map::VECTOR_CONFIG_FILE;
use crate::controller::build::resource::listener;
use crate::controller::build::resource::listener::build_group_listener_pvc;
use crate::controller::build::resource::node_pod;
use crate::controller::build::resource::node_pod::{
    NodePod, NodePodView, ShellSnippets, ShellSnippetsView, LOG_VOLUME_NAME,
};
use crate::controller::build::resource::reporting_task;
use crate::controller::build::resource::reporting_task::{
    build_reporting_task_fqdn_service_name, build_reporting_task_service_name,
};
use crate::controller::build::resource::statefulset;
use crate::controller::build::resource::statefulset::{
    build_repository_claim, VECTOR_LOG_CONFIG_VOLUME_NAME,
};
use crate::controller::build::resource::volumes;
use crate::controller::{
    build_recommended_labels, role_group_selector, GitSyncResources, GitSyncResourcesView,
    ResolvedProductImage, ResolvedProductImageView, UNVERSIONED_PRODUCT_VERSION,
};
use crate::crd::sensitive_properties::NifiSensitiveKeyAlgorithm;
use crate::crd::storage::NifiRepository;
use crate::crd::{
    Container, NifiCluster, NifiClusterView, NifiConfig, NifiConfigView, NodeRole, NodeRoleView,
    RoleGroupRef, RoleGroupRefView, HTTPS_PORT, HTTPS_PORT_NAME,
};
use crate::framework::writer;
use crate::framework::writer::{to_java_properties_string, PropertiesWriterError};
use crate::kubernetes::{
    ConfigMap, ConfigMapView, EnvVar, EnvVarView, Listener, ListenerPort, ListenerPortView,
    ListenerView, ObjectMeta, ObjectMetaView, OwnerReference, OwnerReferenceView, PodContainerView,
    ResourceRequirements, ResourceRequirementsView, StatefulSet, StatefulSetView, VectorSidecar,
    VectorSidecarView, VolumeClaimTemplate, VolumeClaimTemplateView, VolumeMountView, VolumeView,
};
use crate::list::{add_item, empty_list, list_of};
use crate::ordered_map::{OrderedMap, StringMap};
use crate::security::authentication::{NifiAuthenticationConfig, NifiAuthenticationConfigView};
use crate::text;
use crate::text::{concat2, concat3, has_prefix, number_text};
use vstd::prelude::*;

verus! {

/// How the environment variables are called among the kinds of the product configuration.
pub const ENV_KIND: &'static str = "ENV";

/// What the product configuration makes of a role group.
#[derive(Debug, PartialEq, Eq)]
pub struct RoleGroupProperties {
    /// The environment variables.
    pub env: Option<StringMap>,
    /// The properties of each file.
    pub files: OrderedMap<StringMap>,
}

/// The contents of a [`RoleGroupProperties`].
#[verifier::ext_equal]
pub struct RoleGroupPropertiesView {
    pub env: Option<Map<Seq<char>, Seq<char>>>,
    pub files: Map<Seq<char>, Map<Seq<char>, Seq<char>>>,
}

impl DeepView for RoleGroupProperties {
    type V = RoleGroupPropertiesView;

    open spec fn deep_view(&self) -> RoleGroupPropertiesView {
        RoleGroupPropertiesView {
            env: self.env.deep_view(),
            files: self.files.deep_view(),
        }
    }
}

/// Why an object of a role group cannot be built.
#[allow(inconsistent_fields)]
#[derive(Debug, PartialEq, Eq)]
pub enum Error {
    /// The cluster has no namespace.
    ObjectHasNoNamespace,
    /// The cluster has no name or no UID, so nothing can refer to it as its owner.
    ObjectMissingMetadataForOwnerRef,
    /// The product configuration has nothing to say of a file.
    ProductConfigKindNotSpecified {
        kind: String,
    },
    /// `bootstrap.conf` cannot be built.
    BootstrapConfig {
        source: properties::Error,
    },
    /// `nifi.properties` cannot be built.
    BuildProductConfig {
        source: properties::Error,
        rolegroup: String,
    },
    /// The authorization is invalid.
    InvalidNifiAuthorizationConfig,
    /// The authentication is invalid.
    InvalidNifiAuthenticationConfig,
    /// The security properties cannot be written.
    JvmSecurityProperties {
        source: PropertiesWriterError,
        rolegroup: String,
    },
    /// The reporting task has no address.
    ReportingTask,
    /// The pods cannot be built.
    Pod {
        source: node_pod::Error,
    },
}

/// The contents of a [`Error`].
#[allow(inconsistent_fields)]
#[verifier::ext_equal]
pub enum ErrorView {
    ObjectHasNoNamespace,
    ObjectMissingMetadataForOwnerRef,
    ProductConfigKindNotSpecified { kind: Seq<char> },
    BootstrapConfig { source: properties::Error },
    BuildProductConfig { source: properties::Error, rolegroup: Seq<char> },
    InvalidNifiAuthorizationConfig,
    InvalidNifiAuthenticationConfig,
    JvmSecurityProperties { source: PropertiesWriterError, rolegroup: Seq<char> },
    ReportingTask,
    Pod { source: node_pod::Error },
}

impl DeepView for Error {
    type V = ErrorView;

    open spec fn deep_view(&self) -> ErrorView {
        match self {
            Error::ObjectHasNoNamespace => ErrorView::ObjectHasNoNamespace,
            Error::ObjectMissingMetadataForOwnerRef => ErrorView::ObjectMissingMetadataForOwnerRef,
            Error::ProductConfigKindNotSpecified { kind } =>
                ErrorView::ProductConfigKindNotSpecified {
                    kind: kind.deep_view(),
                },
            Error::BootstrapConfig { source } => ErrorView::BootstrapConfig {
                source: source.deep_view(),
            },
            Error::BuildProductConfig { source, rolegroup } => ErrorView::BuildProductConfig {
                source: source.deep_view(),
                rolegroup: rolegroup.deep_view(),
            },
            Error::InvalidNifiAuthorizationConfig => ErrorView::InvalidNifiAuthorizationConfig,
            Error::InvalidNifiAuthenticationConfig => ErrorView::InvalidNifiAuthenticationConfig,
            Error::JvmSecurityProperties { source, rolegroup } => ErrorView::JvmSecurityProperties {
                source: source.deep_view(),
                rolegroup: rolegroup.deep_view(),
            },
            Error::ReportingTask => ErrorView::ReportingTask,
            Error::Pod { source } => ErrorView::Pod {
                source: source.deep_view(),
            },
        }
    }
}

/// What the files of a role group take from the frameworks that the operator uses.
#[derive(Debug, PartialEq, Eq)]
pub struct RenderedFiles {
    /// The merged arguments of the JVM; none where they cannot be merged.
    pub jvm_arguments: Option<Vec<String>>,
    /// The quotas of the repositories.
    pub quotas: StorageQuotas,
    /// The authorizers; none where they are invalid.
    pub authorizers_xml: Option<String>,
    /// The log configuration of NiFi, for an automatic one.
    pub logback_config: String,
    /// The configuration of the log agent.
    pub vector_config: String,
}

/// The contents of a [`RenderedFiles`].
#[verifier::ext_equal]
pub struct RenderedFilesView {
    pub jvm_arguments: Option<Seq<Seq<char>>>,
    pub quotas: StorageQuotasView,
    pub authorizers_xml: Option<Seq<char>>,
    pub logback_config: Seq<char>,
    pub vector_config: Seq<char>,
}

impl DeepView for RenderedFiles {
    type V = RenderedFilesView;

    open spec fn deep_view(&self) -> RenderedFilesView {
        RenderedFilesView {
            jvm_arguments: self.jvm_arguments.deep_view(),
            quotas: self.quotas.deep_view(),
            authorizers_xml: self.authorizers_xml.deep_view(),
            logback_config: self.logback_config.deep_view(),
            vector_config: self.vector_config.deep_view(),
        }
    }
}

/// The reference to a cluster that its objects carry, where its metadata allow one.
pub open spec fn owner_of(nifi: NifiClusterView) -> Option<OwnerReferenceView> {
    match (nifi.metadata.name, nifi.metadata.uid) {
        (Some(name), Some(uid)) => Some(controller::owner_reference(name, uid)),
        _ => None,
    }
}

/// The metadata of an object that a cluster owns.
pub open spec fn owned_metadata(
    nifi: NifiClusterView,
    name: Seq<char>,
    labels: Map<Seq<char>, Seq<char>>,
) -> ObjectMetaView {
    ObjectMetaView {
        name: Some(name),
        namespace: nifi.metadata.namespace,
        uid: None,
        labels,
        annotations: Map::empty(),
        owner_references: seq![owner_of(nifi).unwrap()],
    }
}

/// The metadata of an object that a cluster owns.
fn object_meta(nifi: &NifiCluster, name: String, labels: StringMap) -> (result: Result<
    ObjectMeta,
    Error,
>)
    ensures
        match result {
            Ok(metadata) => owner_of(nifi.deep_view()).is_some() && metadata.deep_view()
                == owned_metadata(nifi.deep_view(), name@, labels@),
            Err(error) => owner_of(nifi.deep_view()).is_none() && error.deep_view()
                == ErrorView::ObjectMissingMetadataForOwnerRef,
        },
{
    let (owner_name, owner_uid) = match (&nifi.metadata.name, &nifi.metadata.uid) {
        (Some(owner_name), Some(owner_uid)) => (owner_name.copied(), owner_uid.copied()),
        _ => {
            return Err(Error::ObjectMissingMetadataForOwnerRef);
        },
    };
    let owner = OwnerReference {
        api_version: "nifi.stackable.tech/v1alpha1".to_owned(),
        kind: "NifiCluster".to_owned(),
        name: owner_name,
        uid: owner_uid,
        block_owner_deletion: None,
        controller: Some(true),
    };
    Ok(
        ObjectMeta {
            name: Some(name),
            namespace: nifi.metadata.namespace.copied(),
            uid: None,
            labels,
            annotations: OrderedMap::new(),
            owner_references: list_of(owner),
        },
    )
}

/// The listener of a role.
pub open spec fn role_listener(
    nifi: NifiClusterView,
    labels: Map<Seq<char>, Seq<char>>,
    listener_class: Seq<char>,
    listener_group_name: Seq<char>,
) -> ListenerView {
    ListenerView {
        metadata: owned_metadata(nifi, listener_group_name, labels),
        class_name: Some(listener_class),
        ports: seq![
            ListenerPortView {
                name: HTTPS_PORT_NAME@,
                port: HTTPS_PORT as i32,
                protocol: Some("TCP"@),
            },
        ],
    }
}

/// Builds the listener of a role.
pub fn build_group_listener(
    nifi: &NifiCluster,
    object_labels: StringMap,
    listener_class: String,
    listener_group_name: String,
) -> (result: Result<Listener, Error>)
    ensures
        match result {
            Ok(listener) => owner_of(nifi.deep_view()).is_some() && listener.deep_view()
                == role_listener(
                nifi.deep_view(),
                object_labels@,
                listener_class@,
                listener_group_name@,
            ),
            Err(error) => owner_of(nifi.deep_view()).is_none() && error.deep_view()
                == ErrorView::ObjectMissingMetadataForOwnerRef,
        },
{
    let metadata = match object_meta(nifi, listener_group_name, object_labels) {
        Ok(metadata) => metadata,
        Err(error) => {
            return Err(error);
        },
    };
    Ok(
        Listener {
            metadata,
            class_name: Some(listener_class),
            ports: list_of(
                ListenerPort {
                    name: HTTPS_PORT_NAME.to_owned(),
                    port: HTTPS_PORT as i32,
                    protocol: Some("TCP".to_owned()),
                },
            ),
        },
    )
}

/// The name of the listener of a role.
pub fn group_listener_name(nifi: &NifiCluster, role_name: &str) -> (name: String)
    ensures
        name@ == listener::listener_name(nifi.deep_view().name_or_empty(), role_name@),
{
    concat3(nifi.name_any().as_str(), "-", role_name)
}

/// The hosts beside those of the user under which NiFi 1.x is called: the reporting task.
pub open spec fn reporting_task_hosts(
    nifi: NifiClusterView,
    product_version: Seq<char>,
    cluster_domain: Seq<char>,
) -> Seq<Seq<char>> {
    if "1."@.is_prefix_of(product_version) {
        seq![
            reporting_task::fqdn_service_name(
                nifi.name_or_empty(),
                nifi.metadata.namespace.unwrap(),
                cluster_domain,
            ) + ":"@ + text::decimal(HTTPS_PORT as nat),
        ]
    } else {
        Seq::empty()
    }
}

/// Whether the reporting task is needed among the hosts, and has no address.
pub open spec fn reporting_task_has_no_address(
    nifi: NifiClusterView,
    product_version: Seq<char>,
) -> bool {
    !nifi.spec.cluster_config.host_header_check.allow_all && "1."@.is_prefix_of(product_version)
        && nifi.metadata.namespace.is_none()
}

/// The hosts under which NiFi may be called.
pub fn get_proxy_hosts(nifi: &NifiCluster, product_version: &str, cluster_domain: &str) -> (result:
    Result<String, Error>)
    ensures
        match result {
            Ok(hosts) => !reporting_task_has_no_address(nifi.deep_view(), product_version@)
                && hosts@ == proxy_hosts::allow_list(
                nifi.deep_view().spec.cluster_config.host_header_check,
                reporting_task_hosts(nifi.deep_view(), product_version@, cluster_domain@),
            ),
            Err(error) => reporting_task_has_no_address(nifi.deep_view(), product_version@)
                && error.deep_view() == ErrorView::ReportingTask,
        },
{
    let host_header_check = &nifi.spec.cluster_config.host_header_check;
    let mut further: Vec<String> = empty_list();
    if !host_header_check.allow_all && has_prefix(product_version, "1.") {
        let namespace = match &nifi.metadata.namespace {
            Some(namespace) => namespace,
            None => {
                return Err(Error::ReportingTask);
            },
        };
        let host = build_reporting_task_fqdn_service_name(
            nifi.name_any().as_str(),
            namespace.as_str(),
            cluster_domain,
        );
        add_item(
            &mut further,
            host.concat(":").concat(number_text(HTTPS_PORT as u64).as_str()),
        );
    }
    Ok(allow_list_of_hosts(host_header_check, further))
}

/// The properties of a file, where the product configuration has any.
pub open spec fn properties_of(
    properties: RoleGroupPropertiesView,
    file: Seq<char>,
) -> Option<Map<Seq<char>, Seq<char>>> {
    if properties.files.dom().contains(file) {
        Some(properties.files[file])
    } else {
        None
    }
}

/// What `nifi.properties` is made from.
pub open spec fn nifi_settings(
    nifi: NifiClusterView,
    image: ResolvedProductImageView,
    authentication: NifiAuthenticationConfigView,
    config: NifiConfigView,
    overrides: Map<Seq<char>, Seq<char>>,
    git_sync: GitSyncResourcesView,
) -> NifiSettingsView {
    NifiSettingsView {
        product_version: image.product_version,
        storage: config.resources.storage,
        clustering_backend: nifi.spec.cluster_config.clustering_backend,
        sensitive_properties_algorithm:
            match nifi.spec.cluster_config.sensitive_properties.algorithm {
                Some(algorithm) => algorithm,
                None => NifiSensitiveKeyAlgorithm::NifiArgon2AesGcm256,
            },
        authentication,
        git_content_folders: git_sync.git_content_folders,
        overrides,
    }
}

/// The security properties. The product configuration may have none.
pub open spec fn security_settings(properties: RoleGroupPropertiesView) -> Map<
    Seq<char>,
    Seq<char>,
> {
    match properties_of(properties, ConfigFileName::SecurityProperties.text()) {
        Some(settings) => settings,
        None => Map::empty(),
    }
}

/// Whether a text may be the file with the security properties; none stands for bytes that are
/// no text.
pub open spec fn may_be_security_file(
    properties: RoleGroupPropertiesView,
    security: Option<Seq<char>>,
) -> bool {
    writer::may_be_file(
        security_properties::properties_in_order(security_settings(properties)),
        security,
    )
}

/// The first reason for which the ConfigMap cannot be built.
pub open spec fn config_map_failure(
    nifi: NifiClusterView,
    settings: NifiSettingsView,
    rolegroup: RoleGroupRefView,
    properties: RoleGroupPropertiesView,
    files: RenderedFilesView,
    security: Option<Seq<char>>,
) -> Option<ErrorView> {
    let bootstrap = ConfigFileName::BootstrapConf.text();
    let nifi_properties = ConfigFileName::NifiProperties.text();
    if files.authorizers_xml.is_none() {
        Some(ErrorView::InvalidNifiAuthorizationConfig)
    } else if owner_of(nifi).is_none() {
        Some(ErrorView::ObjectMissingMetadataForOwnerRef)
    } else if properties_of(properties, bootstrap).is_none() {
        Some(ErrorView::ProductConfigKindNotSpecified { kind: bootstrap })
    } else if files.jvm_arguments.is_none() {
        Some(ErrorView::BootstrapConfig { source: properties::Error::InvalidJVMConfig })
    } else if properties_of(properties, nifi_properties).is_none() {
        Some(ErrorView::ProductConfigKindNotSpecified { kind: nifi_properties })
    } else {
        match nifi_properties::failure(settings, files.quotas) {
            Some(source) => Some(
                ErrorView::BuildProductConfig { source, rolegroup: rolegroup.role_group },
            ),
            None => if security.is_none() {
                Some(
                    ErrorView::JvmSecurityProperties {
                        source: PropertiesWriterError::FromUtf8,
                        rolegroup: rolegroup.role_group,
                    },
                )
            } else {
                None
            },
        }
    }
}

/// The files of a role group.
pub open spec fn config_map_data(
    settings: NifiSettingsView,
    config: NifiConfigView,
    properties: RoleGroupPropertiesView,
    files: RenderedFilesView,
    proxy_hosts: Seq<char>,
    security: Seq<char>,
) -> Map<Seq<char>, Seq<char>> {
    let data = Map::empty().insert(
        ConfigFileName::BootstrapConf.text(),
        properties::properties_text(
            bootstrap_conf::bootstrap_properties(
                config.graceful_shutdown_timeout_seconds,
                files.jvm_arguments.unwrap(),
                properties.files[ConfigFileName::BootstrapConf.text()],
            ),
        ),
    ).insert(
        ConfigFileName::NifiProperties.text(),
        properties::properties_text(
            nifi_properties::nifi_properties(settings, proxy_hosts, files.quotas),
        ),
    ).insert(
        ConfigFileName::StateManagementXml.text(),
        state_management_xml::state_management_file(settings.clustering_backend),
    ).insert(
        ConfigFileName::LoginIdentityProviders.text(),
        settings.authentication.login_identity_providers(),
    ).insert(ConfigFileName::Authorizers.text(), files.authorizers_xml.unwrap()).insert(
        ConfigFileName::SecurityProperties.text(),
        security,
    );
    let with_logback = match config.logging.automatic_config(Container::Nifi) {
        Some(_) => data.insert(ConfigFileName::Logback.text(), files.logback_config),
        None => data,
    };
    if config.logging.enable_vector_agent {
        with_logback.insert(VECTOR_CONFIG_FILE@, files.vector_config)
    } else {
        with_logback
    }
}

/// The ConfigMap of a role group with a given file of security properties, or why there is none.
pub open spec fn config_map_outcome(
    nifi: NifiClusterView,
    image: ResolvedProductImageView,
    authentication: NifiAuthenticationConfigView,
    rolegroup: RoleGroupRefView,
    properties: RoleGroupPropertiesView,
    config: NifiConfigView,
    proxy_hosts: Seq<char>,
    git_sync: GitSyncResourcesView,
    files: RenderedFilesView,
    security: Option<Seq<char>>,
) -> Result<ConfigMapView, ErrorView> {
    let settings = nifi_settings(
        nifi,
        image,
        authentication,
        config,
        properties.files[ConfigFileName::NifiProperties.text()],
        git_sync,
    );
    match config_map_failure(nifi, settings, rolegroup, properties, files, security) {
        Some(error) => Err(error),
        None => Ok(
            ConfigMapView {
                metadata: owned_metadata(
                    nifi,
                    rolegroup.name(),
                    controller::recommended_label_set(
                        nifi.name_or_empty(),
                        image.app_version_label_value,
                        rolegroup.role,
                        rolegroup.role_group,
                    ),
                ),
                data: config_map_data(
                    settings,
                    config,
                    properties,
                    files,
                    proxy_hosts,
                    security.unwrap(),
                ),
            },
        ),
    }
}

/// What `nifi.properties` is made from.
fn build_nifi_settings(
    nifi: &NifiCluster,
    image: &ResolvedProductImage,
    authentication: &NifiAuthenticationConfig,
    config: &NifiConfig,
    overrides: &StringMap,
    git_sync: &GitSyncResources,
) -> (settings: NifiSettings)
    ensures
        settings.deep_view() == nifi_settings(
            nifi.deep_view(),
            image.deep_view(),
            authentication.deep_view(),
            config.deep_view(),
            overrides@,
            git_sync.deep_view(),
        ),
{
    let algorithm: NifiSensitiveKeyAlgorithm =
        match nifi.spec.cluster_config.sensitive_properties.algorithm {
        Some(algorithm) => algorithm,
        None => NifiSensitiveKeyAlgorithm::default(),
    };
    NifiSettings {
        product_version: image.product_version.copied(),
        storage: config.resources.storage.copied(),
        clustering_backend: nifi.spec.cluster_config.clustering_backend.copied(),
        sensitive_properties_algorithm: algorithm,
        authentication: authentication.copied(),
        git_content_folders: git_sync.git_content_folders.copied(),
        overrides: overrides.copied(),
    }
}

/// Builds the ConfigMap of a role group with a given file of security properties; there is none
/// where it could not be written.
pub fn build_node_rolegroup_config_map_with(
    nifi: &NifiCluster,
    resolved_product_image: &ResolvedProductImage,
    authentication_config: &NifiAuthenticationConfig,
    rolegroup: &RoleGroupRef,
    rolegroup_config: &RoleGroupProperties,
    merged_config: &NifiConfig,
    proxy_hosts: &str,
    git_sync_resources: &GitSyncResources,
    files: &RenderedFiles,
    security: &Option<String>,
) -> (result: Result<ConfigMap, Error>)
    ensures
        match result {
            Ok(config_map) => config_map_outcome(
                nifi.deep_view(),
                resolved_product_image.deep_view(),
                authentication_config.deep_view(),
                rolegroup.deep_view(),
                rolegroup_config.deep_view(),
                merged_config.deep_view(),
                proxy_hosts@,
                git_sync_resources.deep_view(),
                files.deep_view(),
                security.deep_view(),
            ) == Ok::<ConfigMapView, ErrorView>(config_map.deep_view()),
            Err(error) => config_map_outcome(
                nifi.deep_view(),
                resolved_product_image.deep_view(),
                authentication_config.deep_view(),
                rolegroup.deep_view(),
                rolegroup_config.deep_view(),
                merged_config.deep_view(),
                proxy_hosts@,
                git_sync_resources.deep_view(),
                files.deep_view(),
                security.deep_view(),
            ) == Err::<ConfigMapView, ErrorView>(error.deep_view()),
        },
{
    let login_identity_providers_xml = match authentication_config.get_authentication_config() {
        Ok(xml) => xml,
        Err(_) => {
            return Err(Error::InvalidNifiAuthenticationConfig);
        },
    };
    let authorizers_xml = match &files.authorizers_xml {
        Some(xml) => xml,
        None => {
            return Err(Error::InvalidNifiAuthorizationConfig);
        },
    };
    let labels = build_recommended_labels(
        nifi.name_any().as_str(),
        resolved_product_image.app_version_label_value.as_str(),
        rolegroup.role.as_str(),
        rolegroup.role_group.as_str(),
    );
    let metadata = match object_meta(nifi, rolegroup.object_name(), labels) {
        Ok(metadata) => metadata,
        Err(error) => {
            return Err(error);
        },
    };
    let mut data: StringMap = OrderedMap::new();

    let bootstrap_overrides = match rolegroup_config.files.get(
        ConfigFileName::BootstrapConf.as_str(),
    ) {
        Some(overrides) => overrides,
        None => {
            return Err(
                Error::ProductConfigKindNotSpecified {
                    kind: ConfigFileName::BootstrapConf.as_str().to_owned(),
                },
            );
        },
    };
    match bootstrap_conf::build_file(
        merged_config.graceful_shutdown_timeout_seconds,
        &files.jvm_arguments,
        bootstrap_overrides,
    ) {
        Ok(file) => {
            data.put(ConfigFileName::BootstrapConf.as_str(), file.as_str());
        },
        Err(source) => {
            return Err(Error::BootstrapConfig { source });
        },
    }

    let nifi_overrides = match rolegroup_config.files.get(
        ConfigFileName::NifiProperties.as_str(),
    ) {
        Some(overrides) => overrides,
        None => {
            return Err(
                Error::ProductConfigKindNotSpecified {
                    kind: ConfigFileName::NifiProperties.as_str().to_owned(),
                },
            );
        },
    };
    let settings = build_nifi_settings(
        nifi,
        resolved_product_image,
        authentication_config,
        merged_config,
        nifi_overrides,
        git_sync_resources,
    );
    match nifi_properties::build_file(&settings, proxy_hosts, &files.quotas) {
        Ok(file) => {
            data.put(ConfigFileName::NifiProperties.as_str(), file.as_str());
        },
        Err(source) => {
            return Err(
                Error::BuildProductConfig { source, rolegroup: rolegroup.role_group.copied() },
            );
        },
    }
    let state_management = state_management_xml::build(
        &nifi.spec.cluster_config.clustering_backend,
    );
    data.put(ConfigFileName::StateManagementXml.as_str(), state_management.as_str());
    data.put(
        ConfigFileName::LoginIdentityProviders.as_str(),
        login_identity_providers_xml.as_str(),
    );
    data.put(ConfigFileName::Authorizers.as_str(), authorizers_xml.as_str());

    match security {
        Some(file) => {
            data.put(ConfigFileName::SecurityProperties.as_str(), file.as_str());
        },
        None => {
            return Err(
                Error::JvmSecurityProperties {
                    source: PropertiesWriterError::FromUtf8,
                    rolegroup: rolegroup.role_group.copied(),
                },
            );
        },
    }
    if merged_config.logging.automatic(&Container::Nifi).is_some() {
        data.put(ConfigFileName::Logback.as_str(), files.logback_config.as_str());
    }
    if merged_config.logging.enable_vector_agent {
        data.put(VECTOR_CONFIG_FILE, files.vector_config.as_str());
    }
    Ok(ConfigMap { metadata, data })
}

/// Writes the security properties; there is no text where the bytes are none.
pub fn build_security_file(rolegroup_config: &RoleGroupProperties) -> (security: Option<String>)
    ensures
        may_be_security_file(rolegroup_config.deep_view(), security.deep_view()),
{
    let settings = match rolegroup_config.files.get(ConfigFileName::SecurityProperties.as_str()) {
        Some(settings) => list_properties(settings),
        None => list_properties(&OrderedMap::new()),
    };
    match to_java_properties_string(&settings) {
        Ok(file) => Some(file),
        Err(_) => None,
    }
}

/// Builds the ConfigMap of a role group.
pub fn build_node_rolegroup_config_map(
    nifi: &NifiCluster,
    resolved_product_image: &ResolvedProductImage,
    authentication_config: &NifiAuthenticationConfig,
    rolegroup: &RoleGroupRef,
    rolegroup_config: &RoleGroupProperties,
    merged_config: &NifiConfig,
    proxy_hosts: &str,
    git_sync_resources: &GitSyncResources,
    files: &RenderedFiles,
) -> (result: Result<ConfigMap, Error>)
    ensures
        exists|security: Option<Seq<char>>|
            may_be_security_file(rolegroup_config.deep_view(), security) && match result {
                Ok(config_map) => #[trigger] config_map_outcome(
                    nifi.deep_view(),
                    resolved_product_image.deep_view(),
                    authentication_config.deep_view(),
                    rolegroup.deep_view(),
                    rolegroup_config.deep_view(),
                    merged_config.deep_view(),
                    proxy_hosts@,
                    git_sync_resources.deep_view(),
                    files.deep_view(),
                    security,
                ) == Ok::<ConfigMapView, ErrorView>(config_map.deep_view()),
                Err(error) => config_map_outcome(
                    nifi.deep_view(),
                    resolved_product_image.deep_view(),
                    authentication_config.deep_view(),
                    rolegroup.deep_view(),
                    rolegroup_config.deep_view(),
                    merged_config.deep_view(),
                    proxy_hosts@,
                    git_sync_resources.deep_view(),
                    files.deep_view(),
                    security,
                ) == Err::<ConfigMapView, ErrorView>(error.deep_view()),
            },
{
    let security = build_security_file(rolegroup_config);
    build_node_rolegroup_config_map_with(
        nifi,
        resolved_product_image,
        authentication_config,
        rolegroup,
        rolegroup_config,
        merged_config,
        proxy_hosts,
        git_sync_resources,
        files,
        &security,
    )
}

/// The log agent of a pod.
pub open spec fn log_agent(
    image: ResolvedProductImageView,
    config: NifiConfigView,
    aggregator: Seq<char>,
) -> VectorSidecarView {
    VectorSidecarView {
        container_name: Container::Vector.text(),
        image: image.image,
        image_pull_policy: image.image_pull_policy,
        aggregator_config_map_name: aggregator,
        custom_log_config_map: config.logging.custom_config_map(Container::Vector),
        log_config_volume: VECTOR_LOG_CONFIG_VOLUME_NAME@,
        log_volume: LOG_VOLUME_NAME@,
        resources: Some(
            ResourceRequirementsView {
                cpu_request: Some("250m"@),
                cpu_limit: Some("500m"@),
                memory_request: Some("128Mi"@),
                memory_limit: Some("128Mi"@),
            },
        ),
        extra_mounts: Seq::empty(),
    }
}

/// Why the log agent, where it is enabled, cannot be added.
pub open spec fn log_agent_failure(
    nifi: NifiClusterView,
    config: NifiConfigView,
    log_agent_is_valid: bool,
) -> Option<node_pod::Error> {
    if !config.logging.enable_vector_agent {
        None
    } else if nifi.spec.cluster_config.vector_aggregator_config_map_name.is_none() {
        Some(node_pod::Error::VectorAggregatorConfigMapMissing)
    } else if !log_agent_is_valid {
        Some(node_pod::Error::ConfigureLogging)
    } else {
        None
    }
}

/// The overrides of the pods: those of the role, and over them those of the role group.
pub open spec fn pod_overrides(role: NodeRoleView, role_group: Seq<char>) -> Seq<Seq<char>> {
    if role.role_groups.dom().contains(role_group) {
        seq![role.pod_overrides, role.role_groups[role_group].pod_overrides]
    } else {
        seq![role.pod_overrides]
    }
}

/// What the pods of a role group are made from.
pub open spec fn rolegroup_pod(
    nifi: NifiClusterView,
    image: ResolvedProductImageView,
    cluster_domain: Seq<char>,
    rolegroup: RoleGroupRefView,
    role: NodeRoleView,
    env: Map<Seq<char>, Seq<char>>,
    config: NifiConfigView,
    authentication: NifiAuthenticationConfigView,
    authorization_env_vars: Seq<EnvVarView>,
    service_account_name: Seq<char>,
    git_sync: GitSyncResourcesView,
    snippets: ShellSnippetsView,
    log_agent_is_valid: bool,
) -> NodePodView {
    NodePodView {
        cluster_name: nifi.name_or_empty(),
        namespace: nifi.metadata.namespace.unwrap(),
        cluster_domain,
        headless_service: rolegroup.name() + "-headless"@,
        config_map: rolegroup.name(),
        image,
        env_overrides: env,
        clustering_backend: nifi.spec.cluster_config.clustering_backend,
        authentication,
        authentication_mounts_in_nifi: true,
        authorization_env_vars,
        authorization_volumes: Seq::empty(),
        authorization_mounts: Seq::empty(),
        trust_opa_certificate: false,
        capture_prepare_output: match config.logging.automatic_config(Container::Prepare) {
            Some(_) => Some(snippets.capture_prepare_output),
            None => None,
        },
        snippets,
        resources: config.resources,
        extra_volumes: nifi.spec.cluster_config.extra_volumes,
        git_sync: GitSyncResourcesView { git_ca_cert_volumes: Seq::empty(), ..git_sync },
        custom_log_config_map: config.logging.custom_config_map(Container::Nifi),
        vector: if config.logging.enable_vector_agent {
            match nifi.spec.cluster_config.vector_aggregator_config_map_name {
                Some(aggregator) => Some(log_agent(image, config, aggregator)),
                None => None,
            }
        } else {
            None
        },
        vector_failure: log_agent_failure(nifi, config, log_agent_is_valid),
        server_tls_secret_class: nifi.spec.cluster_config.tls.server_secret_class,
        tls_service_scopes: seq![reporting_task::service_name(nifi.name_or_empty())],
        requested_secret_lifetime_seconds: config.requested_secret_lifetime_seconds,
        affinity: config.affinity,
        sensitive_key_secret: nifi.spec.cluster_config.sensitive_properties.key_secret,
        service_account_name,
        graceful_shutdown_timeout_seconds: config.graceful_shutdown_timeout_seconds,
        labels: controller::recommended_label_set(
            nifi.name_or_empty(),
            image.app_version_label_value,
            rolegroup.role,
            rolegroup.role_group,
        ),
        overrides: pod_overrides(role, rolegroup.role_group),
    }
}

/// The claims of the volumes of a node.
pub open spec fn volume_claims(
    nifi: NifiClusterView,
    rolegroup: RoleGroupRefView,
    config: NifiConfigView,
) -> Seq<VolumeClaimTemplateView> {
    let storage = config.resources.storage;
    seq![
        statefulset::repository_claim(NifiRepository::Content, storage.content_repo),
        statefulset::repository_claim(NifiRepository::Database, storage.database_repo),
        statefulset::repository_claim(NifiRepository::Flowfile, storage.flowfile_repo),
        statefulset::repository_claim(NifiRepository::Provenance, storage.provenance_repo),
        statefulset::repository_claim(NifiRepository::State, storage.state_repo),
        VolumeClaimTemplateView::Listener {
            name: listener::LISTENER_PVC_NAME@,
            listener_name: listener::listener_name(nifi.name_or_empty(), rolegroup.role),
            labels: controller::recommended_label_set(
                nifi.name_or_empty(),
                UNVERSIONED_PRODUCT_VERSION@,
                rolegroup.role,
                rolegroup.role_group,
            ),
        },
    ]
}

/// The StatefulSet of a role group, or why there is none.
pub open spec fn stateful_set_outcome(
    nifi: NifiClusterView,
    rolegroup: RoleGroupRefView,
    properties: RoleGroupPropertiesView,
    config: NifiConfigView,
    rolling_update_supported: bool,
    replicas: Option<i32>,
    pod: NodePodView,
) -> Result<StatefulSetView, ErrorView> {
    if properties.env.is_none() {
        Err(ErrorView::ProductConfigKindNotSpecified { kind: ENV_KIND@ })
    } else if nifi.metadata.namespace.is_none() {
        Err(ErrorView::ObjectHasNoNamespace)
    } else {
        match pod.outcome() {
            Err(source) => Err(ErrorView::Pod { source }),
            Ok(template) => if owner_of(nifi).is_none() {
                Err(ErrorView::ObjectMissingMetadataForOwnerRef)
            } else {
                Ok(
                    StatefulSetView {
                        metadata: owned_metadata(nifi, rolegroup.name(), pod.labels),
                        pod_management_policy: Some("Parallel"@),
                        replicas,
                        selector: controller::role_group_selector_labels(
                            nifi.name_or_empty(),
                            rolegroup.role,
                            rolegroup.role_group,
                        ),
                        service_name: Some(rolegroup.name() + "-headless"@),
                        template,
                        update_strategy: Some(
                            if rolling_update_supported {
                                "RollingUpdate"@
                            } else {
                                "OnDelete"@
                            },
                        ),
                        volume_claim_templates: volume_claims(nifi, rolegroup, config),
                    },
                )
            },
        }
    }
}

/// The log agent of a pod, where it is enabled and its aggregator is named.
fn build_log_agent(
    nifi: &NifiCluster,
    image: &ResolvedProductImage,
    config: &NifiConfig,
) -> (agent: Option<VectorSidecar>)
    ensures
        agent.deep_view() == (if config.deep_view().logging.enable_vector_agent {
            match nifi.deep_view().spec.cluster_config.vector_aggregator_config_map_name {
                Some(aggregator) => Some(
                    log_agent(image.deep_view(), config.deep_view(), aggregator),
                ),
                None => None,
            }
        } else {
            None
        }),
{
    if !config.logging.enable_vector_agent {
        return None;
    }
    match &nifi.spec.cluster_config.vector_aggregator_config_map_name {
        Some(aggregator) => Some(
            VectorSidecar {
                container_name: Container::Vector.as_str().to_owned(),
                image: image.image.copied(),
                image_pull_policy: image.image_pull_policy.copied(),
                aggregator_config_map_name: aggregator.copied(),
                custom_log_config_map: config.logging.custom(&Container::Vector),
                log_config_volume: VECTOR_LOG_CONFIG_VOLUME_NAME.to_owned(),
                log_volume: LOG_VOLUME_NAME.to_owned(),
                resources: Some(
                    ResourceRequirements {
                        cpu_request: Some("250m".to_owned()),
                        cpu_limit: Some("500m".to_owned()),
                        memory_request: Some("128Mi".to_owned()),
                        memory_limit: Some("128Mi".to_owned()),
                    },
                ),
                extra_mounts: empty_list(),
            },
        ),
        None => None,
    }
}

/// The overrides of the pods.
fn build_pod_overrides(role: &NodeRole, role_group: &str) -> (overrides: Vec<String>)
    ensures
        overrides.deep_view() == pod_overrides(role.deep_view(), role_group@),
{
    let mut overrides: Vec<String> = list_of(role.pod_overrides.copied());
    if let Some(group) = role.role_groups.get(role_group) {
        add_item(&mut overrides, group.pod_overrides.copied());
    }
    overrides
}

/// Why the log agent, where it is enabled, cannot be added.
fn find_log_agent_failure(nifi: &NifiCluster, config: &NifiConfig, log_agent_is_valid: bool) -> (
    failure: Option<node_pod::Error>)
    ensures
        failure == log_agent_failure(nifi.deep_view(), config.deep_view(), log_agent_is_valid),
{
    if !config.logging.enable_vector_agent {
        return None;
    }
    match &nifi.spec.cluster_config.vector_aggregator_config_map_name {
        None => Some(node_pod::Error::VectorAggregatorConfigMapMissing),
        Some(_) => if log_agent_is_valid {
            None
        } else {
            Some(node_pod::Error::ConfigureLogging)
        },
    }
}

/// The claims of the volumes of a node.
fn build_volume_claims(nifi: &NifiCluster, rolegroup: &RoleGroupRef, config: &NifiConfig) -> (
    claims: Vec<VolumeClaimTemplate>)
    ensures
        claims.deep_view() == volume_claims(
            nifi.deep_view(),
            rolegroup.deep_view(),
            config.deep_view(),
        ),
{
    let storage = &config.resources.storage;
    let mut claims: Vec<VolumeClaimTemplate> = empty_list();
    add_item(&mut claims, build_repository_claim(NifiRepository::Content, &storage.content_repo));
    add_item(&mut claims, build_repository_claim(NifiRepository::Database, &storage.database_repo));
    add_item(&mut claims, build_repository_claim(NifiRepository::Flowfile, &storage.flowfile_repo));
    add_item(
        &mut claims,
        build_repository_claim(NifiRepository::Provenance, &storage.provenance_repo),
    );
    add_item(&mut claims, build_repository_claim(NifiRepository::State, &storage.state_repo));
    let labels = build_recommended_labels(
        nifi.name_any().as_str(),
        UNVERSIONED_PRODUCT_VERSION,
        rolegroup.role.as_str(),
        rolegroup.role_group.as_str(),
    );
    let listener_name = group_listener_name(nifi, rolegroup.role.as_str());
    add_item(&mut claims, build_group_listener_pvc(listener_name.as_str(), &labels));
    claims
}

/// Builds the StatefulSet that runs the nodes of a role group.
///
/// The log agent is valid where its container can be built.
pub fn build_node_rolegroup_statefulset(
    nifi: &NifiCluster,
    resolved_product_image: &ResolvedProductImage,
    cluster_domain: &str,
    rolegroup_ref: &RoleGroupRef,
    role: &NodeRole,
    rolegroup_config: &RoleGroupProperties,
    merged_config: &NifiConfig,
    authentication_config: &NifiAuthenticationConfig,
    authorization_env_vars: &Vec<EnvVar>,
    rolling_update_supported: bool,
    replicas: Option<i32>,
    service_account_name: &str,
    git_sync_resources: &GitSyncResources,
    snippets: &ShellSnippets,
    log_agent_is_valid: bool,
) -> (result: Result<StatefulSet, Error>)
    requires
        nifi.deep_view().metadata.name.is_some(),
    ensures
        match result {
            Ok(stateful_set) => stateful_set_outcome(
                nifi.deep_view(),
                rolegroup_ref.deep_view(),
                rolegroup_config.deep_view(),
                merged_config.deep_view(),
                rolling_update_supported,
                replicas,
                rolegroup_pod(
                    nifi.deep_view(),
                    resolved_product_image.deep_view(),
                    cluster_domain@,
                    rolegroup_ref.deep_view(),
                    role.deep_view(),
                    rolegroup_config.deep_view().env.unwrap(),
                    merged_config.deep_view(),
                    authentication_config.deep_view(),
                    authorization_env_vars.deep_view(),
                    service_account_name@,
                    git_sync_resources.deep_view(),
                    snippets.deep_view(),
                    log_agent_is_valid,
                ),
            ) == Ok::<StatefulSetView, ErrorView>(stateful_set.deep_view()),
            Err(error) => stateful_set_outcome(
                nifi.deep_view(),
                rolegroup_ref.deep_view(),
                rolegroup_config.deep_view(),
                merged_config.deep_view(),
                rolling_update_supported,
                replicas,
                rolegroup_pod(
                    nifi.deep_view(),
                    resolved_product_image.deep_view(),
                    cluster_domain@,
                    rolegroup_ref.deep_view(),
                    role.deep_view(),
                    rolegroup_config.deep_view().env.unwrap(),
                    merged_config.deep_view(),
                    authentication_config.deep_view(),
                    authorization_env_vars.deep_view(),
                    service_account_name@,
                    git_sync_resources.deep_view(),
                    snippets.deep_view(),
                    log_agent_is_valid,
                ),
            ) == Err::<StatefulSetView, ErrorView>(error.deep_view()),
        },
{
    let env = match &rolegroup_config.env {
        Some(env) => env,
        None => {
            return Err(Error::ProductConfigKindNotSpecified { kind: ENV_KIND.to_owned() });
        },
    };
    let namespace = match &nifi.metadata.namespace {
        Some(namespace) => namespace,
        None => {
            return Err(Error::ObjectHasNoNamespace);
        },
    };
    let object_name = rolegroup_ref.object_name();
    let headless_service = concat2(object_name.as_str(), "-headless");
    let name = nifi.name_any();
    let cluster_config = &nifi.spec.cluster_config;
    let pod = NodePod {
        cluster_name: name.copied(),
        namespace: namespace.copied(),
        cluster_domain: cluster_domain.to_owned(),
        headless_service: headless_service.copied(),
        config_map: object_name.copied(),
        image: resolved_product_image.copied(),
        env_overrides: env.copied(),
        clustering_backend: cluster_config.clustering_backend.copied(),
        authentication: authentication_config.copied(),
        authentication_mounts_in_nifi: true,
        authorization_env_vars: authorization_env_vars.copied(),
        authorization_volumes: empty_list(),
        authorization_mounts: empty_list(),
        trust_opa_certificate: false,
        capture_prepare_output: match merged_config.logging.automatic(&Container::Prepare) {
            Some(_) => Some(snippets.capture_prepare_output.copied()),
            None => None,
        },
        snippets: snippets.copied(),
        resources: merged_config.resources.copied(),
        extra_volumes: cluster_config.extra_volumes.copied(),
        git_sync: GitSyncResources {
            git_content_folders: git_sync_resources.git_content_folders.copied(),
            git_sync_containers: git_sync_resources.git_sync_containers.copied(),
            git_sync_init_containers: git_sync_resources.git_sync_init_containers.copied(),
            git_content_volume_mounts: git_sync_resources.git_content_volume_mounts.copied(),
            git_content_volumes: git_sync_resources.git_content_volumes.copied(),
            git_ca_cert_volumes: empty_list(),
        },
        custom_log_config_map: merged_config.logging.custom(&Container::Nifi),
        vector: build_log_agent(nifi, resolved_product_image, merged_config),
        vector_failure: find_log_agent_failure(nifi, merged_config, log_agent_is_valid),
        server_tls_secret_class: nifi.server_tls_secret_class().to_owned(),
        tls_service_scopes: list_of(build_reporting_task_service_name(name.as_str())),
        requested_secret_lifetime_seconds: merged_config.requested_secret_lifetime_seconds,
        affinity: merged_config.affinity.copied(),
        sensitive_key_secret: cluster_config.sensitive_properties.key_secret.copied(),
        service_account_name: service_account_name.to_owned(),
        graceful_shutdown_timeout_seconds: merged_config.graceful_shutdown_timeout_seconds,
        labels: build_recommended_labels(
            name.as_str(),
            resolved_product_image.app_version_label_value.as_str(),
            rolegroup_ref.role.as_str(),
            rolegroup_ref.role_group.as_str(),
        ),
        overrides: build_pod_overrides(role, rolegroup_ref.role_group.as_str()),
    };
    let template = match pod.build() {
        Ok(template) => template,
        Err(source) => {
            return Err(Error::Pod { source });
        },
    };
    let metadata = match object_meta(nifi, object_name, pod.labels) {
        Ok(metadata) => metadata,
        Err(error) => {
            return Err(error);
        },
    };
    let strategy: &str = if rolling_update_supported {
        "RollingUpdate"
    } else {
        "OnDelete"
    };
    Ok(
        StatefulSet {
            metadata,
            pod_management_policy: Some("Parallel".to_owned()),
            replicas,
            selector: role_group_selector(
                name.as_str(),
                rolegroup_ref.role.as_str(),
                rolegroup_ref.role_group.as_str(),
            ),
            service_name: Some(headless_service),
            template,
            update_strategy: Some(strategy.to_owned()),
            volume_claim_templates: build_volume_claims(nifi, rolegroup_ref, merged_config),
        },
    )
}

/// The extra volumes of a cluster are in the pods of every role group, and every container of these
/// pods mounts them under `/stackable/userdata/`.
///
/// This is said of the template before the overrides of the user are merged into it.
pub proof fn law_extra_volumes_reach_every_container(
    nifi: NifiClusterView,
    image: ResolvedProductImageView,
    cluster_domain: Seq<char>,
    rolegroup: RoleGroupRefView,
    role: NodeRoleView,
    properties: RoleGroupPropertiesView,
    config: NifiConfigView,
    authentication: NifiAuthenticationConfigView,
    authorization_env_vars: Seq<EnvVarView>,
    rolling_update_supported: bool,
    replicas: Option<i32>,
    service_account_name: Seq<char>,
    git_sync: GitSyncResourcesView,
    snippets: ShellSnippetsView,
    log_agent_is_valid: bool,
    stateful_set: StatefulSetView,
    volume: VolumeView,
    container: PodContainerView,
)
    requires
        stateful_set_outcome(
            nifi,
            rolegroup,
            properties,
            config,
            rolling_update_supported,
            replicas,
            rolegroup_pod(
                nifi,
                image,
                cluster_domain,
                rolegroup,
                role,
                properties.env.unwrap(),
                config,
                authentication,
                authorization_env_vars,
                service_account_name,
                git_sync,
                snippets,
                log_agent_is_valid,
            ),
        ) == Ok::<StatefulSetView, ErrorView>(stateful_set),
        nifi.spec.cluster_config.extra_volumes.contains(volume),
        stateful_set.template.containers.contains(container)
            || stateful_set.template.init_containers.contains(container),
    ensures
        stateful_set.template.volumes.contains(volume),
        volumes::mounts_of(container).contains(
            VolumeMountView {
                name: volume.name,
                mount_path: "/stackable/userdata"@ + "/"@ + volume.name,
                sub_path: None,
            },
        ),
{
    node_pod::law_extra_volumes_are_mounted(
        rolegroup_pod(
            nifi,
            image,
            cluster_domain,
            rolegroup,
            role,
            properties.env.unwrap(),
            config,
            authentication,
            authorization_env_vars,
            service_account_name,
            git_sync,
            snippets,
            log_agent_is_valid,
        ),
        volume,
        container,
    );
}

} // verus!
