//! The ConfigMap of a role group.

use crate::controller;
use crate::controller::build::properties;
use crate::controller::build::properties::bootstrap_conf;
use crate::controller::build::properties::nifi_properties;
use crate::controller::build::properties::nifi_properties::{StorageQuotas, StorageQuotasView};
use crate::controller::build::properties::security_properties;
use crate::controller::build::properties::state_management_xml;
use crate::controller::build::properties::{authorizers, login_identity_providers};
use crate::controller::build::properties::ConfigFileName;
use crate::controller::build::proxy_hosts;
use crate::controller::build::proxy_hosts::compute_proxy_hosts;
use crate::controller::{
    NifiRoleGroupConfigView, ValidatedCluster, ValidatedClusterView,
    ValidatedContainerLogConfigChoice, ValidatedContainerLogConfigChoiceView,
};
use crate::crd::NifiRole;
use crate::framework::writer::PropertiesWriterError;
use crate::kubernetes::{ConfigMap, ConfigMapView};
use crate::ordered_map::{OrderedMap, StringMap};
use crate::security::authentication;
use vstd::prelude::*;

verus! {

/// The file of the log agent.
pub const VECTOR_CONFIG_FILE: &'static str = "vector.yaml";

/// What the files of a role group take from the frameworks that the operator uses.
#[derive(Debug, PartialEq, Eq)]
pub struct RoleGroupFiles {
    /// The arguments of the JVM once those of the user are merged; none where they cannot be.
    pub jvm_arguments: Option<Vec<String>>,
    /// The quotas of the repositories.
    pub quotas: StorageQuotas,
    /// The log configuration of NiFi, for an automatic one.
    pub logback_config: String,
}

/// The contents of a [`RoleGroupFiles`].
#[verifier::ext_equal]
pub struct RoleGroupFilesView {
    pub jvm_arguments: Option<Seq<Seq<char>>>,
    pub quotas: StorageQuotasView,
    pub logback_config: Seq<char>,
}

impl DeepView for RoleGroupFiles {
    type V = RoleGroupFilesView;

    open spec fn deep_view(&self) -> RoleGroupFilesView {
        RoleGroupFilesView {
            jvm_arguments: self.jvm_arguments.deep_view(),
            quotas: self.quotas.deep_view(),
            logback_config: self.logback_config.deep_view(),
        }
    }
}

/// Why the ConfigMap cannot be built.
#[allow(inconsistent_fields)]
#[derive(Debug, PartialEq, Eq)]
pub enum Error {
    /// The cluster has no such role group.
    MissingRoleGroup {
        role: String,
        role_group: String,
    },
    /// `bootstrap.conf` cannot be built.
    BootstrapConfig {
        source: properties::Error,
    },
    /// `nifi.properties` cannot be built.
    BuildNifiProperties {
        source: properties::Error,
        rolegroup: String,
    },
    /// The file with the logins cannot be built.
    InvalidNifiAuthenticationConfig,
    /// The security properties cannot be written.
    JvmSecurityProperties {
        source: PropertiesWriterError,
        rolegroup: String,
    },
}

/// The contents of a [`Error`].
#[allow(inconsistent_fields)]
#[verifier::ext_equal]
pub enum ErrorView {
    MissingRoleGroup { role: Seq<char>, role_group: Seq<char> },
    BootstrapConfig { source: properties::Error },
    BuildNifiProperties { source: properties::Error, rolegroup: Seq<char> },
    InvalidNifiAuthenticationConfig,
    JvmSecurityProperties { source: PropertiesWriterError, rolegroup: Seq<char> },
}

impl DeepView for Error {
    type V = ErrorView;

    open spec fn deep_view(&self) -> ErrorView {
        match self {
            Error::MissingRoleGroup { role, role_group } => ErrorView::MissingRoleGroup {
                role: role.deep_view(),
                role_group: role_group.deep_view(),
            },
            Error::BootstrapConfig { source } => ErrorView::BootstrapConfig {
                source: source.deep_view(),
            },
            Error::BuildNifiProperties { source, rolegroup } => ErrorView::BuildNifiProperties {
                source: source.deep_view(),
                rolegroup: rolegroup.deep_view(),
            },
            Error::InvalidNifiAuthenticationConfig => ErrorView::InvalidNifiAuthenticationConfig,
            Error::JvmSecurityProperties { source, rolegroup } => ErrorView::JvmSecurityProperties {
                source: source.deep_view(),
                rolegroup: rolegroup.deep_view(),
            },
        }
    }
}

/// The text of `nifi.properties`.
pub open spec fn nifi_properties_file(
    cluster: ValidatedClusterView,
    rg: NifiRoleGroupConfigView,
    files: RoleGroupFilesView,
) -> Seq<char> {
    properties::properties_text(
        nifi_properties::nifi_properties(
            nifi_properties::settings_of(cluster, rg),
            proxy_hosts::allow_list(cluster.cluster_config.host_header_check, Seq::empty()),
            files.quotas,
        ),
    )
}

/// Whether a text may be the file with the security properties of a role group. Of a role group
/// that the cluster does not have nothing is written.
pub open spec fn may_be_security_file(
    cluster: ValidatedClusterView,
    role_group: Seq<char>,
    security: Option<Seq<char>>,
) -> bool {
    cluster.role_group_configs.dom().contains(role_group) ==> security_properties::may_be_file(
        cluster.role_group_configs[role_group],
        security,
    )
}

/// The files that NiFi itself reads.
pub open spec fn nifi_files(
    cluster: ValidatedClusterView,
    rg: NifiRoleGroupConfigView,
    files: RoleGroupFilesView,
    security: Seq<char>,
) -> Map<Seq<char>, Seq<char>> {
    Map::empty().insert(
        ConfigFileName::BootstrapConf.text(),
        properties::properties_text(
            bootstrap_conf::bootstrap_properties(
                rg.config.graceful_shutdown_timeout_seconds,
                files.jvm_arguments.unwrap(),
                rg.config_overrides.bootstrap_conf,
            ),
        ),
    ).insert(
        ConfigFileName::NifiProperties.text(),
        nifi_properties_file(cluster, rg, files),
    ).insert(
        ConfigFileName::StateManagementXml.text(),
        state_management_xml::state_management_file(cluster.cluster_config.clustering_backend),
    ).insert(
        ConfigFileName::LoginIdentityProviders.text(),
        cluster.cluster_config.authentication.login_identity_providers(),
    ).insert(
        ConfigFileName::Authorizers.text(),
        cluster.cluster_config.authorization.authorizers(),
    ).insert(ConfigFileName::SecurityProperties.text(), security)
}

/// With the log configuration, unless the user brings their own.
pub open spec fn with_logback(
    data: Map<Seq<char>, Seq<char>>,
    rg: NifiRoleGroupConfigView,
    files: RoleGroupFilesView,
) -> Map<Seq<char>, Seq<char>> {
    match rg.config.logging.nifi_container {
        ValidatedContainerLogConfigChoiceView::Automatic { .. } => data.insert(
            ConfigFileName::Logback.text(),
            files.logback_config,
        ),
        ValidatedContainerLogConfigChoiceView::Custom { .. } => data,
    }
}

/// With the configuration of the log agent, where there is one.
pub open spec fn with_vector(
    data: Map<Seq<char>, Seq<char>>,
    vector_config: Option<Seq<char>>,
) -> Map<Seq<char>, Seq<char>> {
    match vector_config {
        Some(config) => data.insert(VECTOR_CONFIG_FILE@, config),
        None => data,
    }
}

/// The first reason for which the files cannot be built.
pub open spec fn failure(
    cluster: ValidatedClusterView,
    role_group: Seq<char>,
    rg: NifiRoleGroupConfigView,
    files: RoleGroupFilesView,
    security: Option<Seq<char>>,
) -> Option<ErrorView> {
    if files.jvm_arguments.is_none() {
        Some(ErrorView::BootstrapConfig { source: properties::Error::InvalidJVMConfig })
    } else {
        match nifi_properties::failure(nifi_properties::settings_of(cluster, rg), files.quotas) {
            Some(source) => Some(
                ErrorView::BuildNifiProperties { source, rolegroup: role_group },
            ),
            None => if security.is_none() {
                Some(
                    ErrorView::JvmSecurityProperties {
                        source: PropertiesWriterError::FromUtf8,
                        rolegroup: role_group,
                    },
                )
            } else {
                None
            },
        }
    }
}

/// The ConfigMap of a role group with a given file of security properties, or why there is none.
pub open spec fn config_map_outcome(
    cluster: ValidatedClusterView,
    role_group: Seq<char>,
    files: RoleGroupFilesView,
    vector_config: Option<Seq<char>>,
    security: Option<Seq<char>>,
) -> Result<ConfigMapView, ErrorView> {
    if !cluster.role_group_configs.dom().contains(role_group) {
        Err(ErrorView::MissingRoleGroup { role: NifiRole::Node.text(), role_group })
    } else {
        let rg = cluster.role_group_configs[role_group];
        match failure(cluster, role_group, rg, files, security) {
            Some(error) => Err(error),
            None => Ok(
                ConfigMapView {
                    metadata: controller::owned_metadata(
                        cluster,
                        cluster.object_name_of(role_group),
                        cluster.labels_of(role_group),
                    ),
                    data: with_vector(
                        with_logback(
                            nifi_files(cluster, rg, files, security.unwrap()),
                            rg,
                            files,
                        ),
                        vector_config,
                    ),
                },
            ),
        }
    }
}

/// Builds the ConfigMap of a role group with a given file of security properties; there is none
/// where it could not be written.
///
/// The configuration of the log agent is given where the agent is enabled.
pub fn build_rolegroup_config_map_with(
    cluster: &ValidatedCluster,
    role_group_name: &str,
    files: &RoleGroupFiles,
    vector_config: Option<String>,
    security: &Option<String>,
) -> (result: Result<ConfigMap, Error>)
    ensures
        match result {
            Ok(config_map) => config_map_outcome(
                cluster.deep_view(),
                role_group_name@,
                files.deep_view(),
                vector_config.deep_view(),
                security.deep_view(),
            ) == Ok::<ConfigMapView, ErrorView>(config_map.deep_view()),
            Err(error) => config_map_outcome(
                cluster.deep_view(),
                role_group_name@,
                files.deep_view(),
                vector_config.deep_view(),
                security.deep_view(),
            ) == Err::<ConfigMapView, ErrorView>(error.deep_view()),
        },
{
    let rg = match cluster.role_group_configs.get(role_group_name) {
        Some(rg) => rg,
        None => {
            return Err(
                Error::MissingRoleGroup {
                    role: NifiRole::Node.as_str().to_owned(),
                    role_group: role_group_name.to_owned(),
                },
            );
        },
    };
    let hosts = compute_proxy_hosts(cluster);

    let mut data: StringMap = OrderedMap::new();
    match bootstrap_conf::build(rg, &files.jvm_arguments) {
        Ok(file) => {
            data.put(ConfigFileName::BootstrapConf.as_str(), file.as_str());
        },
        Err(source) => {
            return Err(Error::BootstrapConfig { source });
        },
    }
    match nifi_properties::build(cluster, rg, hosts.as_str(), &files.quotas) {
        Ok(file) => {
            data.put(ConfigFileName::NifiProperties.as_str(), file.as_str());
        },
        Err(source) => {
            return Err(
                Error::BuildNifiProperties { source, rolegroup: role_group_name.to_owned() },
            );
        },
    }
    let state_management = state_management_xml::build(&cluster.cluster_config.clustering_backend);
    data.put(ConfigFileName::StateManagementXml.as_str(), state_management.as_str());
    match login_identity_providers::build(cluster) {
        Ok(file) => {
            data.put(ConfigFileName::LoginIdentityProviders.as_str(), file.as_str());
        },
        Err(_) => {
            return Err(Error::InvalidNifiAuthenticationConfig);
        },
    }
    data.put(ConfigFileName::Authorizers.as_str(), authorizers::build(cluster).as_str());
    match security {
        Some(file) => {
            data.put(ConfigFileName::SecurityProperties.as_str(), file.as_str());
        },
        None => {
            return Err(
                Error::JvmSecurityProperties {
                    source: PropertiesWriterError::FromUtf8,
                    rolegroup: role_group_name.to_owned(),
                },
            );
        },
    }
    match &rg.config.logging.nifi_container {
        ValidatedContainerLogConfigChoice::Automatic { .. } => {
            data.put(ConfigFileName::Logback.as_str(), files.logback_config.as_str());
        },
        ValidatedContainerLogConfigChoice::Custom { .. } => {},
    }
    match &vector_config {
        Some(config) => {
            data.put(VECTOR_CONFIG_FILE, config.as_str());
        },
        None => {},
    }
    let names = cluster.resource_names(role_group_name);
    Ok(
        ConfigMap {
            metadata: cluster.object_meta(names.role_group_config_map(), role_group_name),
            data,
        },
    )
}

/// Writes the security properties of a role group; there is no text where the bytes are none.
pub fn build_security_file(cluster: &ValidatedCluster, role_group_name: &str) -> (security: Option<
    String,
>)
    ensures
        may_be_security_file(cluster.deep_view(), role_group_name@, security.deep_view()),
{
    match cluster.role_group_configs.get(role_group_name) {
        Some(rg) => match security_properties::build(rg) {
            Ok(file) => Some(file),
            Err(_) => None,
        },
        None => None,
    }
}

/// Builds the ConfigMap of a role group.
///
/// The configuration of the log agent is given where the agent is enabled.
pub fn build_rolegroup_config_map(
    cluster: &ValidatedCluster,
    role_group_name: &str,
    files: &RoleGroupFiles,
    vector_config: Option<String>,
) -> (result: Result<ConfigMap, Error>)
    ensures
        exists|security: Option<Seq<char>>|
            may_be_security_file(cluster.deep_view(), role_group_name@, security) && match result {
                Ok(config_map) => #[trigger] config_map_outcome(
                    cluster.deep_view(),
                    role_group_name@,
                    files.deep_view(),
                    vector_config.deep_view(),
                    security,
                ) == Ok::<ConfigMapView, ErrorView>(config_map.deep_view()),
                Err(error) => config_map_outcome(
                    cluster.deep_view(),
                    role_group_name@,
                    files.deep_view(),
                    vector_config.deep_view(),
                    security,
                ) == Err::<ConfigMapView, ErrorView>(error.deep_view()),
            },
{
    let security = build_security_file(cluster, role_group_name);
    build_rolegroup_config_map_with(cluster, role_group_name, files, vector_config, &security)
}

/// A ConfigMap that is built holds every file that NiFi reads, and the log configuration exactly
/// where the user does not bring their own.
pub proof fn law_config_map_is_complete(
    cluster: ValidatedClusterView,
    role_group: Seq<char>,
    files: RoleGroupFilesView,
    vector_config: Option<Seq<char>>,
    security: Option<Seq<char>>,
)
    requires
        config_map_outcome(cluster, role_group, files, vector_config, security).is_ok(),
    ensures
        ({
            let names = config_map_outcome(
                cluster,
                role_group,
                files,
                vector_config,
                security,
            )->Ok_0.data.dom();
            let logging = cluster.role_group_configs[role_group].config.logging;
            &&& names.contains(ConfigFileName::BootstrapConf.text())
            &&& names.contains(ConfigFileName::NifiProperties.text())
            &&& names.contains(ConfigFileName::StateManagementXml.text())
            &&& names.contains(ConfigFileName::LoginIdentityProviders.text())
            &&& names.contains(ConfigFileName::Authorizers.text())
            &&& names.contains(ConfigFileName::SecurityProperties.text())
            &&& names.contains(ConfigFileName::Logback.text())
                <==> logging.nifi_container is Automatic
            &&& names.contains(VECTOR_CONFIG_FILE@) <==> vector_config.is_some()
        }),
{
    reveal_strlit("bootstrap.conf");
    reveal_strlit("nifi.properties");
    reveal_strlit("state-management.xml");
    reveal_strlit("login-identity-providers.xml");
    reveal_strlit("authorizers.xml");
    reveal_strlit("security.properties");
    reveal_strlit("logback.xml");
    reveal_strlit("vector.yaml");
    assert("logback.xml"@[0] == 'l');
    assert("vector.yaml"@[0] == 'v');
}

} // verus!
