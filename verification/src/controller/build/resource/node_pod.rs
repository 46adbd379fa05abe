//! The pods of a node role group.

use crate::contents::Copied;
use crate::controller::build::properties::ConfigFileName;
use crate::controller::build::resource::listener::{LISTENER_PVC_NAME, LISTENER_VOLUME_DIR};
use crate::controller::build::resource::volumes;
use crate::controller::build::resource::volumes::{
    add_mount, add_mounts, add_volume, add_volumes, empty_dir_volume, mount, mount_in_all,
    volume_of_config_map,
};
use crate::controller::build::{
    NIFI_CONFIG_DIRECTORY, NIFI_PYTHON_WORKING_DIRECTORY, SENSITIVE_PROPERTY_VOLUME_MOUNT,
};
use crate::controller::{
    GitSyncResources, GitSyncResourcesView, ResolvedProductImage, ResolvedProductImageView,
};
use crate::crd::storage::NifiRepository;
use crate::crd::{
    Container, NifiClusteringBackend, NifiClusteringBackendView, Resources, ResourcesView,
    BALANCE_PORT, BALANCE_PORT_NAME, HTTPS_PORT, HTTPS_PORT_NAME, METRICS_PORT, METRICS_PORT_NAME,
    PROTOCOL_PORT, PROTOCOL_PORT_NAME, STACKABLE_LOG_CONFIG_DIR, STACKABLE_LOG_DIR,
};
use crate::kubernetes;
use crate::kubernetes::{
    ContainerPort, ContainerPortView, ContainerView, EnvVar, EnvVarSource, EnvVarSourceView,
    EnvVarView, ObjectMeta, ObjectMetaView, PodContainer, PodContainerView, PodTemplate,
    PodTemplateView, Probe, ProbeView, ResourceRequirements, ResourceRequirementsView, SecretFormat,
    StackableAffinity, StackableAffinityView, TcpSocketAction, TcpSocketActionView, VectorSidecar,
    VectorSidecarView, Volume, VolumeMount, VolumeMountView, VolumeSource, VolumeSourceView,
    VolumeView,
};
use crate::list::{add_item, add_items, add_text, empty_list, list_of};
use crate::ordered_map;
use crate::ordered_map::{OrderedMap, StringMap};
use crate::security::authentication::{
    NifiAuthenticationConfig, NifiAuthenticationConfigView, STACKABLE_SERVER_TLS_DIR,
    STACKABLE_TLS_STORE_PASSWORD,
};
use crate::security::authorization::OPA_TLS_MOUNT_PATH;
use crate::security::{KEYSTORE_NIFI_CONTAINER_MOUNT, KEYSTORE_VOLUME_NAME, TRUSTSTORE_VOLUME_NAME};
use crate::text;
use crate::text::{concat2, concat3, has_prefix, join};
use vstd::prelude::*;

verus! {

/// Under which directory the volumes of the user are mounted.
pub const USERDATA_MOUNTPOINT: &'static str = "/stackable/userdata";

/// The volume with the configuration as it is built.
pub const CONFIG_VOLUME_NAME: &'static str = "conf";

pub const CONFIG_VOLUME_MOUNT: &'static str = "/conf";

/// The volume with the live configuration, which the prepare container makes from the built one.
pub const ACTIVE_CONFIG_VOLUME_NAME: &'static str = "activeconf";

/// The volume with the key of the sensitive properties.
pub const SENSITIVE_PROPERTY_VOLUME_NAME: &'static str = "sensitiveproperty";

/// The volume with the log configuration.
pub const LOG_CONFIG_VOLUME_NAME: &'static str = "log-config";

/// The volume with the logs.
pub const LOG_VOLUME_NAME: &'static str = "log";

/// The volume in which NiFi keeps the environments of Python components.
pub const PYTHON_WORKING_VOLUME_NAME: &'static str = "nifi-python-working-directory";

pub const STACKLET_NAME_ENV: &'static str = "STACKLET_NAME";

pub const ZOOKEEPER_HOSTS_ENV: &'static str = "ZOOKEEPER_HOSTS";

pub const ZOOKEEPER_CHROOT_ENV: &'static str = "ZOOKEEPER_CHROOT";

/// Why the pods cannot be built.
#[derive(Clone, Copy, Debug, PartialEq, Eq, Structural)]
pub enum Error {
    /// Certificates are needed, and their lifetime is not set.
    MissingSecretLifetime,
    /// The volumes of the authentication clash with others.
    AddAuthVolumes,
    /// Two different volumes have one name.
    AddVolume,
    /// Two different mounts have one path.
    AddVolumeMount,
    /// The time to shut down cannot be set.
    GracefulShutdown,
    /// The log agent is enabled, and its aggregator is not named.
    VectorAggregatorConfigMapMissing,
    /// The log agent cannot be configured.
    ConfigureLogging,
}

impl DeepView for Error {
    type V = Error;

    open spec fn deep_view(&self) -> Error {
        *self
    }
}

/// Parts of the script that runs NiFi.
#[derive(Debug, PartialEq, Eq)]
pub struct ShellSnippets {
    /// Writes what the prepare container says into the logs.
    pub capture_prepare_output: String,
    /// Functions that pass signals on to NiFi.
    pub bash_trap_functions: String,
    /// Tells the log agent that NiFi runs.
    pub remove_vector_shutdown_file_command: String,
    /// Tells the log agent that NiFi has ended.
    pub create_vector_shutdown_file_command: String,
}

/// The contents of a [`ShellSnippets`].
#[verifier::ext_equal]
pub struct ShellSnippetsView {
    pub capture_prepare_output: Seq<char>,
    pub bash_trap_functions: Seq<char>,
    pub remove_vector_shutdown_file_command: Seq<char>,
    pub create_vector_shutdown_file_command: Seq<char>,
}

impl DeepView for ShellSnippets {
    type V = ShellSnippetsView;

    open spec fn deep_view(&self) -> ShellSnippetsView {
        ShellSnippetsView {
            capture_prepare_output: self.capture_prepare_output.deep_view(),
            bash_trap_functions: self.bash_trap_functions.deep_view(),
            remove_vector_shutdown_file_command: self.remove_vector_shutdown_file_command.deep_view(),
            create_vector_shutdown_file_command: self.create_vector_shutdown_file_command.deep_view(),
        }
    }
}

impl Copied for ShellSnippets {
    fn copied(&self) -> (copy: ShellSnippets) {
        ShellSnippets {
            capture_prepare_output: self.capture_prepare_output.copied(),
            bash_trap_functions: self.bash_trap_functions.copied(),
            remove_vector_shutdown_file_command: self.remove_vector_shutdown_file_command.copied(),
            create_vector_shutdown_file_command: self.create_vector_shutdown_file_command.copied(),
        }
    }
}

/// What the pods of a node role group are made from.
#[derive(Debug, PartialEq, Eq)]
pub struct NodePod {
    pub cluster_name: String,
    pub namespace: String,
    pub cluster_domain: String,
    /// The Service that gives the pods their names.
    pub headless_service: String,
    /// The ConfigMap with the configuration.
    pub config_map: String,
    pub image: ResolvedProductImage,
    pub env_overrides: StringMap,
    pub clustering_backend: NifiClusteringBackend,
    pub authentication: NifiAuthenticationConfig,
    /// Whether the mounts of the authentication have to fit into the nifi container too.
    pub authentication_mounts_in_nifi: bool,
    pub authorization_env_vars: Vec<EnvVar>,
    pub authorization_volumes: Vec<Volume>,
    pub authorization_mounts: Vec<VolumeMount>,
    /// Whether NiFi has to trust the certificate of an OPA.
    pub trust_opa_certificate: bool,
    /// The command that writes what the prepare container says into the logs.
    pub capture_prepare_output: Option<String>,
    pub snippets: ShellSnippets,
    pub resources: Resources,
    /// The volumes of the user, which every container mounts.
    pub extra_volumes: Vec<Volume>,
    pub git_sync: GitSyncResources,
    /// The ConfigMap of the user with the log configuration.
    pub custom_log_config_map: Option<String>,
    pub vector: Option<VectorSidecar>,
    /// Why the log agent cannot be added, where it has to be.
    pub vector_failure: Option<Error>,
    pub server_tls_secret_class: String,
    pub tls_service_scopes: Vec<String>,
    pub requested_secret_lifetime_seconds: Option<u64>,
    pub affinity: StackableAffinity,
    pub sensitive_key_secret: String,
    pub service_account_name: String,
    pub graceful_shutdown_timeout_seconds: Option<u64>,
    pub labels: StringMap,
    pub overrides: Vec<String>,
}

/// The contents of a [`NodePod`].
#[verifier::ext_equal]
pub struct NodePodView {
    pub cluster_name: Seq<char>,
    pub namespace: Seq<char>,
    pub cluster_domain: Seq<char>,
    pub headless_service: Seq<char>,
    pub config_map: Seq<char>,
    pub image: ResolvedProductImageView,
    pub env_overrides: Map<Seq<char>, Seq<char>>,
    pub clustering_backend: NifiClusteringBackendView,
    pub authentication: NifiAuthenticationConfigView,
    pub authentication_mounts_in_nifi: bool,
    pub authorization_env_vars: Seq<EnvVarView>,
    pub authorization_volumes: Seq<VolumeView>,
    pub authorization_mounts: Seq<VolumeMountView>,
    pub trust_opa_certificate: bool,
    pub capture_prepare_output: Option<Seq<char>>,
    pub snippets: ShellSnippetsView,
    pub resources: ResourcesView,
    pub extra_volumes: Seq<VolumeView>,
    pub git_sync: GitSyncResourcesView,
    pub custom_log_config_map: Option<Seq<char>>,
    pub vector: Option<VectorSidecarView>,
    pub vector_failure: Option<Error>,
    pub server_tls_secret_class: Seq<char>,
    pub tls_service_scopes: Seq<Seq<char>>,
    pub requested_secret_lifetime_seconds: Option<u64>,
    pub affinity: StackableAffinityView,
    pub sensitive_key_secret: Seq<char>,
    pub service_account_name: Seq<char>,
    pub graceful_shutdown_timeout_seconds: Option<u64>,
    pub labels: Map<Seq<char>, Seq<char>>,
    pub overrides: Seq<Seq<char>>,
}

impl DeepView for NodePod {
    type V = NodePodView;

    open spec fn deep_view(&self) -> NodePodView {
        NodePodView {
            cluster_name: self.cluster_name.deep_view(),
            namespace: self.namespace.deep_view(),
            cluster_domain: self.cluster_domain.deep_view(),
            headless_service: self.headless_service.deep_view(),
            config_map: self.config_map.deep_view(),
            image: self.image.deep_view(),
            env_overrides: self.env_overrides.deep_view(),
            clustering_backend: self.clustering_backend.deep_view(),
            authentication: self.authentication.deep_view(),
            authentication_mounts_in_nifi: self.authentication_mounts_in_nifi.deep_view(),
            authorization_env_vars: self.authorization_env_vars.deep_view(),
            authorization_volumes: self.authorization_volumes.deep_view(),
            authorization_mounts: self.authorization_mounts.deep_view(),
            trust_opa_certificate: self.trust_opa_certificate.deep_view(),
            capture_prepare_output: self.capture_prepare_output.deep_view(),
            snippets: self.snippets.deep_view(),
            resources: self.resources.deep_view(),
            extra_volumes: self.extra_volumes.deep_view(),
            git_sync: self.git_sync.deep_view(),
            custom_log_config_map: self.custom_log_config_map.deep_view(),
            vector: self.vector.deep_view(),
            vector_failure: self.vector_failure.deep_view(),
            server_tls_secret_class: self.server_tls_secret_class.deep_view(),
            tls_service_scopes: self.tls_service_scopes.deep_view(),
            requested_secret_lifetime_seconds: self.requested_secret_lifetime_seconds.deep_view(),
            affinity: self.affinity.deep_view(),
            sensitive_key_secret: self.sensitive_key_secret.deep_view(),
            service_account_name: self.service_account_name.deep_view(),
            graceful_shutdown_timeout_seconds: self.graceful_shutdown_timeout_seconds.deep_view(),
            labels: self.labels.deep_view(),
            overrides: self.overrides.deep_view(),
        }
    }
}

/// An environment variable with a given value.
pub open spec fn literal_env_var(name: Seq<char>, value: Seq<char>) -> EnvVarView {
    EnvVarView { name, source: EnvVarSourceView::Literal { value } }
}

/// An environment variable that is a key of a ConfigMap with the same name.
pub open spec fn discovered_env_var(config_map: Seq<char>, name: Seq<char>) -> EnvVarView {
    EnvVarView { name, source: EnvVarSourceView::ConfigMapKey { name: config_map, key: name } }
}

/// Environment variables with given values, in the order of their names.
pub open spec fn literal_env_vars(values: Map<Seq<char>, Seq<char>>) -> Seq<EnvVarView> {
    ordered_map::ordered_entries(values).map_values(
        |entry: (Seq<char>, Seq<char>)| literal_env_var(entry.0, entry.1),
    )
}

/// An environment variable with a given value.
fn env_var(name: &str, value: &str) -> (env_var: EnvVar)
    ensures
        env_var.deep_view() == literal_env_var(name@, value@),
{
    EnvVar { name: name.to_owned(), source: EnvVarSource::Literal { value: value.to_owned() } }
}

/// An environment variable that is a key of a ConfigMap with the same name.
fn env_var_from_discovery(config_map: &str, name: &str) -> (env_var: EnvVar)
    ensures
        env_var.deep_view() == discovered_env_var(config_map@, name@),
{
    EnvVar {
        name: name.to_owned(),
        source: EnvVarSource::ConfigMapKey { name: config_map.to_owned(), key: name.to_owned() },
    }
}

/// Environment variables with given values, in the order of their names.
pub fn env_vars_of(values: &StringMap) -> (env_vars: Vec<EnvVar>)
    ensures
        env_vars.deep_view() == literal_env_vars(values@),
{
    let ghost entries = ordered_map::ordered_entries(values@);
    let ghost all = literal_env_vars(values@);
    let mut env_vars: Vec<EnvVar> = empty_list();
    let count: usize = values.len();
    let mut i: usize = 0;
    proof {
        assert(all.take(0) =~= Seq::empty());
    }
    while i < count
        invariant
            i <= count,
            count == entries.len(),
            entries == ordered_map::ordered_entries(values@),
            all == literal_env_vars(values@),
            env_vars.deep_view() == all.take(i as int),
        decreases count - i,
    {
        let (name, value) = values.entry(i);
        add_item(&mut env_vars, env_var(name.as_str(), value.as_str()));
        proof {
            assert(all.take(i as int).push(all[i as int]) =~= all.take(i + 1));
        }
        i = i + 1;
    }
    proof {
        assert(all.take(i as int) =~= all);
    }
    env_vars
}

impl NodePodView {
    /// The environment variables with which nodes find ZooKeeper.
    pub open spec fn zookeeper_env_vars(self) -> Seq<EnvVarView> {
        match self.clustering_backend {
            NifiClusteringBackendView::ZooKeeper { zookeeper_config_map_name } => seq![
                discovered_env_var(zookeeper_config_map_name, ZOOKEEPER_HOSTS_ENV@),
                discovered_env_var(zookeeper_config_map_name, ZOOKEEPER_CHROOT_ENV@),
            ],
            NifiClusteringBackendView::Kubernetes => Seq::empty(),
        }
    }

    /// The environment variables that every pod has.
    pub open spec fn common_env_vars(self) -> Seq<EnvVarView> {
        seq![
            EnvVarView {
                name: "POD_NAME"@,
                source: EnvVarSourceView::PodField {
                    api_version: "v1"@,
                    field_path: "metadata.name"@,
                },
            },
            literal_env_var(
                "CONTAINERDEBUG_LOG_DIRECTORY"@,
                STACKABLE_LOG_DIR@ + "/containerdebug"@,
            ),
            literal_env_var(STACKLET_NAME_ENV@, self.cluster_name),
        ]
    }

    /// The environment variables of the containers.
    pub open spec fn env_vars(self) -> Seq<EnvVarView> {
        literal_env_vars(self.env_overrides) + self.common_env_vars() + self.zookeeper_env_vars()
            + self.authentication.env_vars() + self.authorization_env_vars
    }

    /// The name under which the other nodes reach a node.
    pub open spec fn node_address(self) -> Seq<char> {
        "$POD_NAME."@ + self.headless_service + "."@ + self.namespace + ".svc."@
            + self.cluster_domain
    }

    /// The commands that make the key and the trust store that NiFi can read.
    pub open spec fn store_commands(self) -> Seq<Seq<char>> {
        let source = KEYSTORE_NIFI_CONTAINER_MOUNT@;
        let target = STACKABLE_SERVER_TLS_DIR@;
        seq![
            "echo Importing "@ + source + "/keystore.p12 to "@ + target + "/keystore.p12"@,
            "cp "@ + source + "/keystore.p12 "@ + target + "/keystore.p12"@,
            "echo Importing "@ + source + "/truststore.p12 to "@ + target + "/truststore.p12"@,
            "test ! -e "@ + target + "/truststore.p12 || rm "@ + target + "/truststore.p12"@,
            "keytool -importkeystore -srckeystore "@ + source + "/truststore.p12 -destkeystore "@
                + target + "/truststore.p12 -srcstorepass "@ + STACKABLE_TLS_STORE_PASSWORD@
                + " -deststorepass "@ + STACKABLE_TLS_STORE_PASSWORD@,
        ]
    }

    /// The commands that put the configuration in its place.
    pub open spec fn config_commands(self) -> Seq<Seq<char>> {
        let logback = ConfigFileName::Logback.text();
        seq![
            "echo Replacing config directory"@,
            "cp "@ + CONFIG_VOLUME_MOUNT@ + "/* "@ + NIFI_CONFIG_DIRECTORY@,
            "test -L "@ + NIFI_CONFIG_DIRECTORY@ + "/"@ + logback + " || ln -sf "@
                + STACKABLE_LOG_CONFIG_DIR@ + "/"@ + logback + " "@ + NIFI_CONFIG_DIRECTORY@ + "/"@
                + logback,
            "export NODE_ADDRESS=\""@ + self.node_address() + "\""@,
        ]
    }

    /// The commands that make NiFi trust the certificate of an OPA, where one is used by TLS.
    pub open spec fn opa_commands(self) -> Seq<Seq<char>> {
        if self.trust_opa_certificate {
            seq![
                "echo Importing OPA CA certificate to truststore"@,
                "keytool -importcert -file "@ + OPA_TLS_MOUNT_PATH@ + "/ca.crt -keystore "@
                    + STACKABLE_SERVER_TLS_DIR@ + "/truststore.p12 -storepass "@
                    + STACKABLE_TLS_STORE_PASSWORD@ + " -alias opa-ca -noprompt"@,
            ]
        } else {
            Seq::empty()
        }
    }

    /// The commands that resolve the references in the configuration, in a fixed order. The files
    /// that hold no references are left out.
    pub open spec fn template_commands(self) -> Seq<Seq<char>> {
        let prefix = "config-utils template "@ + NIFI_CONFIG_DIRECTORY@ + "/"@;
        seq![
            "export LISTENER_DEFAULT_ADDRESS=$(cat "@ + LISTENER_VOLUME_DIR@
                + "/default-address/address)"@,
            "export LISTENER_DEFAULT_PORT_HTTPS=$(cat "@ + LISTENER_VOLUME_DIR@
                + "/default-address/ports/https)"@,
            "echo Templating config files"@,
            prefix + ConfigFileName::NifiProperties.text(),
            prefix + ConfigFileName::StateManagementXml.text(),
            prefix + ConfigFileName::LoginIdentityProviders.text(),
            prefix + ConfigFileName::Authorizers.text(),
            prefix + ConfigFileName::SecurityProperties.text(),
        ]
    }

    /// The commands of the prepare container. Those of the authentication come before the
    /// references are resolved, as they may set environment variables for it.
    pub open spec fn prepare_commands(self) -> Seq<Seq<char>> {
        (match self.capture_prepare_output {
            Some(command) => seq![command],
            None => Seq::empty(),
        }) + self.store_commands() + self.config_commands()
            + self.authentication.additional_container_args() + self.opa_commands()
            + self.template_commands()
    }

    /// The script that runs NiFi.
    pub open spec fn run_script(self) -> Seq<char> {
        self.snippets.bash_trap_functions + "\n"@
            + self.snippets.remove_vector_shutdown_file_command
            + "\nprepare_signal_handlers\ncontainerdebug --output="@ + STACKABLE_LOG_DIR@
            + "/containerdebug-state.json --loop &\nbin/nifi.sh run &\nwait_for_termination $!\n"@
            + self.snippets.create_vector_shutdown_file_command + "\n"@
    }
}

/// The mounts of the repositories.
pub open spec fn repository_mounts() -> Seq<VolumeMountView> {
    seq![
        NifiRepository::Flowfile.mount(),
        NifiRepository::Database.mount(),
        NifiRepository::Content.mount(),
        NifiRepository::Provenance.mount(),
        NifiRepository::State.mount(),
    ]
}

impl NodePodView {
    /// The mounts of the prepare container, before those of the authentication.
    pub open spec fn prepare_mounts(self) -> Seq<VolumeMountView> {
        repository_mounts() + seq![
            volumes::whole_mount(CONFIG_VOLUME_NAME@, CONFIG_VOLUME_MOUNT@),
            volumes::whole_mount(KEYSTORE_VOLUME_NAME@, KEYSTORE_NIFI_CONTAINER_MOUNT@),
            volumes::whole_mount(ACTIVE_CONFIG_VOLUME_NAME@, NIFI_CONFIG_DIRECTORY@),
            volumes::whole_mount(
                SENSITIVE_PROPERTY_VOLUME_NAME@,
                SENSITIVE_PROPERTY_VOLUME_MOUNT@,
            ),
            volumes::whole_mount(LOG_VOLUME_NAME@, STACKABLE_LOG_DIR@),
            volumes::whole_mount(TRUSTSTORE_VOLUME_NAME@, STACKABLE_SERVER_TLS_DIR@),
            volumes::whole_mount(LISTENER_PVC_NAME@, LISTENER_VOLUME_DIR@),
        ] + self.authorization_mounts
    }

    /// The mounts of the nifi container, before those of the user and of custom components.
    pub open spec fn nifi_mounts(self) -> Seq<VolumeMountView> {
        seq![volumes::whole_mount(KEYSTORE_VOLUME_NAME@, KEYSTORE_NIFI_CONTAINER_MOUNT@)]
            + repository_mounts() + seq![
            volumes::whole_mount(ACTIVE_CONFIG_VOLUME_NAME@, NIFI_CONFIG_DIRECTORY@),
            volumes::whole_mount(LOG_CONFIG_VOLUME_NAME@, STACKABLE_LOG_CONFIG_DIR@),
            volumes::whole_mount(LOG_VOLUME_NAME@, STACKABLE_LOG_DIR@),
            volumes::whole_mount(TRUSTSTORE_VOLUME_NAME@, STACKABLE_SERVER_TLS_DIR@),
            volumes::whole_mount(LISTENER_PVC_NAME@, LISTENER_VOLUME_DIR@),
        ] + self.authorization_mounts
    }

    /// The ports of the nifi container. Newer versions offer their metrics at the port of the user
    /// interface, so only NiFi 1.x has a port for metrics.
    pub open spec fn ports(self) -> Seq<ContainerPortView> {
        let common = seq![
            ContainerPortView {
                name: Some(HTTPS_PORT_NAME@),
                container_port: HTTPS_PORT as i32,
            },
            ContainerPortView {
                name: Some(PROTOCOL_PORT_NAME@),
                container_port: PROTOCOL_PORT as i32,
            },
            ContainerPortView {
                name: Some(BALANCE_PORT_NAME@),
                container_port: BALANCE_PORT as i32,
            },
        ];
        if "1."@.is_prefix_of(self.image.product_version) {
            common.push(
                ContainerPortView {
                    name: Some(METRICS_PORT_NAME@),
                    container_port: METRICS_PORT as i32,
                },
            )
        } else {
            common
        }
    }

    /// The prepare container, with its mounts.
    pub open spec fn prepare_container(self, mounts: Seq<VolumeMountView>) -> ContainerView {
        ContainerView {
            name: Container::Prepare.text(),
            image: Some(self.image.image),
            image_pull_policy: Some(self.image.image_pull_policy),
            command: seq!["/bin/bash"@, "-c"@, "-euo"@, "pipefail"@],
            args: seq![text::joined(self.prepare_commands(), " && "@)],
            env: self.env_vars(),
            ports: Seq::empty(),
            volume_mounts: mounts,
            resources: Some(
                ResourceRequirementsView {
                    cpu_request: Some("500m"@),
                    cpu_limit: Some("2000m"@),
                    memory_request: Some("4096Mi"@),
                    memory_limit: Some("4096Mi"@),
                },
            ),
            liveness_probe: None,
            readiness_probe: None,
            startup_probe: None,
        }
    }

    /// The nifi container, with its mounts.
    pub open spec fn nifi_container(self, mounts: Seq<VolumeMountView>) -> ContainerView {
        ContainerView {
            name: Container::Nifi.text(),
            image: Some(self.image.image),
            image_pull_policy: Some(self.image.image_pull_policy),
            command: seq!["/bin/bash"@, "-x"@, "-euo"@, "pipefail"@, "-c"@],
            args: seq![self.run_script()],
            env: self.env_vars(),
            ports: self.ports(),
            volume_mounts: mounts,
            resources: Some(compute_resources(self.resources)),
            liveness_probe: Some(port_probe(None)),
            readiness_probe: None,
            startup_probe: Some(port_probe(Some(120))),
        }
    }

    /// The volume with the log configuration: the ConfigMap of the user, or else the one of the
    /// role group.
    pub open spec fn log_config_volume(self) -> VolumeView {
        volumes::config_map_volume(
            LOG_CONFIG_VOLUME_NAME@,
            match self.custom_log_config_map {
                Some(config_map) => config_map,
                None => self.config_map,
            },
        )
    }

    /// The volume with the certificate of a pod.
    pub open spec fn tls_volume(self, lifetime_seconds: u64) -> VolumeView {
        VolumeView {
            name: KEYSTORE_VOLUME_NAME@,
            source: VolumeSourceView::Tls {
                secret_class: self.server_tls_secret_class,
                service_scopes: self.tls_service_scopes,
                format: SecretFormat::TlsPkcs12,
                requested_lifetime_seconds: lifetime_seconds,
                listener_scope: Some(LISTENER_PVC_NAME@),
            },
        }
    }

    /// The volumes that every pod has.
    pub open spec fn common_volumes(self, lifetime_seconds: u64) -> Seq<VolumeView> {
        seq![
            volumes::config_map_volume("config"@, self.config_map),
            volumes::config_map_volume(CONFIG_VOLUME_NAME@, self.config_map),
            volumes::empty_volume(LOG_VOLUME_NAME@, Some("500Mi"@)),
            self.tls_volume(lifetime_seconds),
            volumes::empty_volume(TRUSTSTORE_VOLUME_NAME@, None),
        ] + self.authorization_volumes + seq![
            VolumeView {
                name: SENSITIVE_PROPERTY_VOLUME_NAME@,
                source: VolumeSourceView::Secret {
                    secret_name: self.sensitive_key_secret,
                    optional: None,
                    items: Seq::empty(),
                },
            },
            volumes::empty_volume(ACTIVE_CONFIG_VOLUME_NAME@, None),
        ]
    }

    /// The containers beside the nifi container, before the volumes of the user are mounted.
    pub open spec fn sidecars(self) -> Seq<PodContainerView> {
        self.git_sync.git_sync_containers + (match self.vector {
            Some(sidecar) => seq![PodContainerView::Vector { sidecar }],
            None => Seq::empty(),
        })
    }

    /// The containers of a pod. The nifi container comes first, so that tools choose it.
    pub open spec fn containers(
        self,
        nifi_mounts: Seq<VolumeMountView>,
        sidecars: Seq<PodContainerView>,
    ) -> Seq<PodContainerView> {
        seq![PodContainerView::Own { container: self.nifi_container(nifi_mounts) }] + sidecars
    }

    /// The containers that run before the others. The prepare container is the last one.
    pub open spec fn init_containers(
        self,
        prepare_mounts: Seq<VolumeMountView>,
        git_sync: Seq<PodContainerView>,
    ) -> Seq<PodContainerView> {
        git_sync.push(PodContainerView::Own { container: self.prepare_container(prepare_mounts) })
    }

    /// The template, with the volumes of the pod and the mounts of its containers.
    pub open spec fn template(
        self,
        all_volumes: Seq<VolumeView>,
        prepare_mounts: Seq<VolumeMountView>,
        nifi_mounts: Seq<VolumeMountView>,
        others: OtherContainersView,
    ) -> PodTemplateView {
        PodTemplateView {
            metadata: ObjectMetaView {
                name: None,
                namespace: None,
                uid: None,
                labels: self.labels,
                annotations: Map::empty(),
                owner_references: Seq::empty(),
            },
            containers: self.containers(nifi_mounts, others.sidecars),
            init_containers: self.init_containers(prepare_mounts, others.git_sync_init),
            volumes: all_volumes,
            affinity: Some(self.affinity),
            service_account_name: Some(self.service_account_name),
            fs_group: Some(1000),
            image_pull_secrets: self.image.pull_secrets,
            restart_policy: None,
            termination_grace_period_seconds: match self.graceful_shutdown_timeout_seconds {
                Some(seconds) => Some(seconds as i64),
                None => None,
            },
            overrides: self.overrides,
        }
    }
}

/// The containers of a pod besides the nifi and the prepare container.
#[derive(Debug, PartialEq, Eq)]
pub struct OtherContainers {
    /// Those that fetch custom components before the others run.
    pub git_sync_init: Vec<PodContainer>,
    /// Those that keep custom components up to date, and the log agent.
    pub sidecars: Vec<PodContainer>,
}

/// The contents of a [`OtherContainers`].
#[verifier::ext_equal]
pub struct OtherContainersView {
    pub git_sync_init: Seq<PodContainerView>,
    pub sidecars: Seq<PodContainerView>,
}

impl DeepView for OtherContainers {
    type V = OtherContainersView;

    open spec fn deep_view(&self) -> OtherContainersView {
        OtherContainersView {
            git_sync_init: self.git_sync_init.deep_view(),
            sidecars: self.sidecars.deep_view(),
        }
    }
}

/// The resources of the nifi container: memory is never shared with others.
pub open spec fn compute_resources(resources: ResourcesView) -> ResourceRequirementsView {
    ResourceRequirementsView {
        cpu_request: resources.cpu_min,
        cpu_limit: resources.cpu_max,
        memory_request: resources.memory_limit,
        memory_limit: resources.memory_limit,
    }
}

/// A check that the port of the user interface answers.
pub open spec fn port_probe(failure_threshold: Option<i32>) -> ProbeView {
    ProbeView {
        exec_action: None,
        tcp_socket: Some(TcpSocketActionView { port: HTTPS_PORT_NAME@ }),
        initial_delay_seconds: Some(10),
        period_seconds: Some(10),
        timeout_seconds: None,
        success_threshold: None,
        failure_threshold,
    }
}

/// The mount of a volume of the user.
pub open spec fn user_mount(volume: VolumeView) -> VolumeMountView {
    VolumeMountView {
        name: volume.name,
        mount_path: USERDATA_MOUNTPOINT@ + "/"@ + volume.name,
        sub_path: None,
    }
}

/// The mounts of the volumes of the user.
pub open spec fn user_mounts(extra: Seq<VolumeView>) -> Seq<VolumeMountView> {
    extra.map_values(|volume: VolumeView| user_mount(volume))
}

/// The volumes of a pod and the mounts of the nifi container, with the volumes of the user.
pub open spec fn with_extra_volumes(
    all_volumes: Seq<VolumeView>,
    mounts: Seq<VolumeMountView>,
    extra: Seq<VolumeView>,
) -> Result<(Seq<VolumeView>, Seq<VolumeMountView>), Error>
    decreases extra.len(),
{
    if extra.len() == 0 {
        Ok((all_volumes, mounts))
    } else {
        match with_extra_volumes(all_volumes, mounts, extra.drop_last()) {
            Err(error) => Err(error),
            Ok((some_volumes, some_mounts)) => match volumes::put_volume(
                some_volumes,
                extra.last(),
            ) {
                None => Err(Error::AddVolume),
                Some(next_volumes) => match volumes::put_mount(
                    some_mounts,
                    user_mount(extra.last()),
                ) {
                    None => Err(Error::AddVolumeMount),
                    Some(next_mounts) => Ok((next_volumes, next_mounts)),
                },
            },
        }
    }
}

impl NodePodView {
    /// The mounts of the prepare container and the containers besides it and the nifi container,
    /// once the volumes of the user are mounted.
    pub open spec fn with_user_mounts(self, prepare_mounts: Seq<VolumeMountView>) -> Option<
        (Seq<VolumeMountView>, OtherContainersView),
    > {
        let mounts = user_mounts(self.extra_volumes);
        match (
            volumes::put_mounts(prepare_mounts, mounts),
            volumes::mounted_in_all(self.git_sync.git_sync_init_containers, mounts),
            volumes::mounted_in_all(self.sidecars(), mounts),
        ) {
            (Some(all_prepare_mounts), Some(git_sync_init), Some(sidecars)) => Some(
                (all_prepare_mounts, OtherContainersView { git_sync_init, sidecars }),
            ),
            _ => None,
        }
    }

    /// The volumes and the mounts of the nifi container once custom components are added.
    pub open spec fn with_custom_components(
        self,
        all_volumes: Seq<VolumeView>,
        mounts: Seq<VolumeMountView>,
    ) -> Result<(Seq<VolumeView>, Seq<VolumeMountView>), Error> {
        match volumes::put_volume(
            all_volumes,
            volumes::empty_volume(PYTHON_WORKING_VOLUME_NAME@, None),
        ) {
            None => Err(Error::AddVolume),
            Some(with_python) => match volumes::put_mounts(
                mounts,
                seq![
                    volumes::whole_mount(PYTHON_WORKING_VOLUME_NAME@, NIFI_PYTHON_WORKING_DIRECTORY@),
                ] + self.git_sync.git_content_volume_mounts,
            ) {
                None => Err(Error::AddVolumeMount),
                Some(all_mounts) => match volumes::put_volumes(
                    with_python,
                    self.git_sync.git_content_volumes + self.git_sync.git_ca_cert_volumes + seq![
                        self.log_config_volume(),
                    ],
                ) {
                    None => Err(Error::AddVolume),
                    Some(with_components) => Ok((with_components, all_mounts)),
                },
            },
        }
    }

    /// Whether the mounts of the authentication fit into the nifi container, where they have to.
    pub open spec fn fits_into_nifi(self, nifi_mounts: Seq<VolumeMountView>) -> bool {
        !self.authentication_mounts_in_nifi || volumes::put_mounts(
            nifi_mounts,
            self.authentication.volume_mounts(),
        ).is_some()
    }

    /// The template once the volumes of the authentication and the common ones are added.
    pub open spec fn completed(
        self,
        all_volumes: Seq<VolumeView>,
        prepare_mounts: Seq<VolumeMountView>,
        nifi_mounts: Seq<VolumeMountView>,
        others: OtherContainersView,
    ) -> Result<PodTemplateView, Error> {
        match (
            volumes::put_volumes(all_volumes, self.authentication.volumes()),
            volumes::put_mounts(prepare_mounts, self.authentication.volume_mounts()),
            self.fits_into_nifi(nifi_mounts),
        ) {
            (Some(with_auth), Some(auth_mounts), true) => match
                self.requested_secret_lifetime_seconds {
                None => Err(Error::MissingSecretLifetime),
                Some(lifetime) => match volumes::put_volumes(
                    with_auth,
                    self.common_volumes(lifetime),
                ) {
                    None => Err(Error::AddVolume),
                    Some(with_common) => Ok(
                        self.template(with_common, auth_mounts, nifi_mounts, others),
                    ),
                },
            },
            _ => Err(Error::AddAuthVolumes),
        }
    }

    /// The template of the pods, or the first reason for which there is none.
    pub open spec fn outcome(self) -> Result<PodTemplateView, Error> {
        match (
            volumes::put_mounts(Seq::empty(), self.prepare_mounts()),
            volumes::put_mounts(Seq::empty(), self.nifi_mounts()),
        ) {
            (Some(prepare_mounts), Some(nifi_mounts)) => if self.grace_period_too_long() {
                Err(Error::GracefulShutdown)
            } else {
                match with_extra_volumes(Seq::empty(), nifi_mounts, self.extra_volumes) {
                    Err(error) => Err(error),
                    Ok((extra_volumes, extra_mounts)) => match self.with_user_mounts(
                        prepare_mounts,
                    ) {
                        None => Err(Error::AddVolumeMount),
                        Some((all_prepare_mounts, others)) => match self.with_custom_components(
                            extra_volumes,
                            extra_mounts,
                        ) {
                            Err(error) => Err(error),
                            Ok((all_volumes, all_mounts)) => match self.vector_failure {
                                Some(error) => Err(error),
                                None => self.completed(
                                    all_volumes,
                                    all_prepare_mounts,
                                    all_mounts,
                                    others,
                                ),
                            },
                        },
                    },
                }
            },
            _ => Err(Error::AddVolumeMount),
        }
    }

    /// Whether the time to shut down is longer than a pod can be given.
    pub open spec fn grace_period_too_long(self) -> bool {
        match self.graceful_shutdown_timeout_seconds {
            Some(seconds) => seconds > i64::MAX,
            None => false,
        }
    }
}

/// The mounts of the repositories.
fn build_repository_mounts() -> (mounts: Vec<VolumeMount>)
    ensures
        mounts.deep_view() == repository_mounts(),
{
    let mut mounts: Vec<VolumeMount> = empty_list();
    add_item(&mut mounts, NifiRepository::Flowfile.volume_mount());
    add_item(&mut mounts, NifiRepository::Database.volume_mount());
    add_item(&mut mounts, NifiRepository::Content.volume_mount());
    add_item(&mut mounts, NifiRepository::Provenance.volume_mount());
    add_item(&mut mounts, NifiRepository::State.volume_mount());
    mounts
}

/// A check that the port of the user interface answers.
fn build_port_probe(failure_threshold: Option<i32>) -> (probe: Probe)
    ensures
        probe.deep_view() == port_probe(failure_threshold),
{
    Probe {
        exec_action: None,
        tcp_socket: Some(TcpSocketAction { port: HTTPS_PORT_NAME.to_owned() }),
        initial_delay_seconds: Some(10),
        period_seconds: Some(10),
        timeout_seconds: None,
        success_threshold: None,
        failure_threshold,
    }
}

/// A port of a container.
fn container_port(name: &str, port: u16) -> (container_port: ContainerPort)
    ensures
        container_port.deep_view() == (ContainerPortView {
            name: Some(name@),
            container_port: port as i32,
        }),
{
    ContainerPort { name: Some(name.to_owned()), container_port: port as i32 }
}

impl NodePod {
    /// The environment variables of the containers.
    fn build_env_vars(&self) -> (env_vars: Vec<EnvVar>)
        ensures
            env_vars.deep_view() == self.deep_view().env_vars(),
    {
        let mut env_vars = env_vars_of(&self.env_overrides);
        let mut common: Vec<EnvVar> = empty_list();
        // The node makes its address out of this.
        add_item(
            &mut common,
            EnvVar {
                name: "POD_NAME".to_owned(),
                source: EnvVarSource::PodField {
                    api_version: "v1".to_owned(),
                    field_path: "metadata.name".to_owned(),
                },
            },
        );
        add_item(
            &mut common,
            env_var(
                "CONTAINERDEBUG_LOG_DIRECTORY",
                concat2(STACKABLE_LOG_DIR, "/containerdebug").as_str(),
            ),
        );
        add_item(&mut common, env_var(STACKLET_NAME_ENV, self.cluster_name.as_str()));
        add_items(&mut env_vars, common);
        let mut zookeeper: Vec<EnvVar> = empty_list();
        if let NifiClusteringBackend::ZooKeeper { zookeeper_config_map_name } =
            &self.clustering_backend {
            let config_map: &str = zookeeper_config_map_name.as_str();
            add_item(&mut zookeeper, env_var_from_discovery(config_map, ZOOKEEPER_HOSTS_ENV));
            add_item(&mut zookeeper, env_var_from_discovery(config_map, ZOOKEEPER_CHROOT_ENV));
        }
        add_items(&mut env_vars, zookeeper);
        add_items(&mut env_vars, self.authentication.get_env_vars());
        add_items(&mut env_vars, self.authorization_env_vars.copied());
        env_vars
    }

    /// The commands that make the key and the trust store that NiFi can read.
    ///
    /// The source is mounted read-only. Its trust store is encrypted in a way that NiFi cannot
    /// read, so it is encrypted anew, after an earlier result was deleted.
    fn build_store_commands(&self) -> (commands: Vec<String>)
        ensures
            commands.deep_view() == self.deep_view().store_commands(),
    {
        let source: &str = KEYSTORE_NIFI_CONTAINER_MOUNT;
        let target: &str = STACKABLE_SERVER_TLS_DIR;
        let mut commands: Vec<String> = empty_list();
        add_item(
            &mut commands,
            "echo Importing ".to_owned().concat(source).concat("/keystore.p12 to ").concat(
                target,
            ).concat("/keystore.p12"),
        );
        add_item(
            &mut commands,
            "cp ".to_owned().concat(source).concat("/keystore.p12 ").concat(target).concat(
                "/keystore.p12",
            ),
        );
        add_item(
            &mut commands,
            "echo Importing ".to_owned().concat(source).concat("/truststore.p12 to ").concat(
                target,
            ).concat("/truststore.p12"),
        );
        add_item(
            &mut commands,
            "test ! -e ".to_owned().concat(target).concat("/truststore.p12 || rm ").concat(
                target,
            ).concat("/truststore.p12"),
        );
        add_item(
            &mut commands,
            "keytool -importkeystore -srckeystore ".to_owned().concat(source).concat(
                "/truststore.p12 -destkeystore ",
            ).concat(target).concat("/truststore.p12 -srcstorepass ").concat(
                STACKABLE_TLS_STORE_PASSWORD,
            ).concat(" -deststorepass ").concat(STACKABLE_TLS_STORE_PASSWORD),
        );
        commands
    }

    /// The commands that put the configuration in its place.
    fn build_config_commands(&self) -> (commands: Vec<String>)
        ensures
            commands.deep_view() == self.deep_view().config_commands(),
    {
        let logback: &str = ConfigFileName::Logback.as_str();
        let node_address = "$POD_NAME.".to_owned().concat(self.headless_service.as_str()).concat(
            ".",
        ).concat(self.namespace.as_str()).concat(".svc.").concat(self.cluster_domain.as_str());
        let mut commands: Vec<String> = empty_list();
        add_text(&mut commands, "echo Replacing config directory");
        add_item(
            &mut commands,
            "cp ".to_owned().concat(CONFIG_VOLUME_MOUNT).concat("/* ").concat(
                NIFI_CONFIG_DIRECTORY,
            ),
        );
        add_item(
            &mut commands,
            "test -L ".to_owned().concat(NIFI_CONFIG_DIRECTORY).concat("/").concat(logback).concat(
                " || ln -sf ",
            ).concat(STACKABLE_LOG_CONFIG_DIR).concat("/").concat(logback).concat(" ").concat(
                NIFI_CONFIG_DIRECTORY,
            ).concat("/").concat(logback),
        );
        add_item(
            &mut commands,
            concat3("export NODE_ADDRESS=\"", node_address.as_str(), "\""),
        );
        commands
    }

    /// The commands that make NiFi trust the certificate of an OPA, where one is used by TLS.
    fn build_opa_commands(&self) -> (commands: Vec<String>)
        ensures
            commands.deep_view() == self.deep_view().opa_commands(),
    {
        let mut commands: Vec<String> = empty_list();
        if self.trust_opa_certificate {
            add_text(&mut commands, "echo Importing OPA CA certificate to truststore");
            add_item(
                &mut commands,
                "keytool -importcert -file ".to_owned().concat(OPA_TLS_MOUNT_PATH).concat(
                    "/ca.crt -keystore ",
                ).concat(STACKABLE_SERVER_TLS_DIR).concat("/truststore.p12 -storepass ").concat(
                    STACKABLE_TLS_STORE_PASSWORD,
                ).concat(" -alias opa-ca -noprompt"),
            );
        }
        commands
    }

    /// The commands that resolve the references in the configuration.
    fn build_template_commands(&self) -> (commands: Vec<String>)
        ensures
            commands.deep_view() == self.deep_view().template_commands(),
    {
        let prefix = concat3("config-utils template ", NIFI_CONFIG_DIRECTORY, "/");
        let mut commands: Vec<String> = empty_list();
        add_item(
            &mut commands,
            concat3(
                "export LISTENER_DEFAULT_ADDRESS=$(cat ",
                LISTENER_VOLUME_DIR,
                "/default-address/address)",
            ),
        );
        add_item(
            &mut commands,
            concat3(
                "export LISTENER_DEFAULT_PORT_HTTPS=$(cat ",
                LISTENER_VOLUME_DIR,
                "/default-address/ports/https)",
            ),
        );
        add_text(&mut commands, "echo Templating config files");
        add_item(&mut commands, concat2(prefix.as_str(), ConfigFileName::NifiProperties.as_str()));
        add_item(
            &mut commands,
            concat2(prefix.as_str(), ConfigFileName::StateManagementXml.as_str()),
        );
        add_item(
            &mut commands,
            concat2(prefix.as_str(), ConfigFileName::LoginIdentityProviders.as_str()),
        );
        add_item(&mut commands, concat2(prefix.as_str(), ConfigFileName::Authorizers.as_str()));
        add_item(
            &mut commands,
            concat2(prefix.as_str(), ConfigFileName::SecurityProperties.as_str()),
        );
        commands
    }

    /// The commands of the prepare container.
    fn build_prepare_commands(&self) -> (commands: Vec<String>)
        ensures
            commands.deep_view() == self.deep_view().prepare_commands(),
    {
        let mut commands: Vec<String> = match &self.capture_prepare_output {
            Some(command) => list_of(command.copied()),
            None => empty_list(),
        };
        add_items(&mut commands, self.build_store_commands());
        add_items(&mut commands, self.build_config_commands());
        add_items(&mut commands, self.authentication.get_additional_container_args());
        add_items(&mut commands, self.build_opa_commands());
        add_items(&mut commands, self.build_template_commands());
        commands
    }

    /// The script that runs NiFi.
    fn build_run_script(&self) -> (script: String)
        ensures
            script@ == self.deep_view().run_script(),
    {
        let snippets = &self.snippets;
        snippets.bash_trap_functions.clone().concat("\n").concat(
            snippets.remove_vector_shutdown_file_command.as_str(),
        ).concat("\nprepare_signal_handlers\ncontainerdebug --output=").concat(
            STACKABLE_LOG_DIR,
        ).concat(
            "/containerdebug-state.json --loop &\nbin/nifi.sh run &\nwait_for_termination $!\n",
        ).concat(snippets.create_vector_shutdown_file_command.as_str()).concat("\n")
    }

    /// The mounts of the prepare container, before those of the authentication.
    fn build_prepare_mounts(&self) -> (mounts: Vec<VolumeMount>)
        ensures
            mounts.deep_view() == self.deep_view().prepare_mounts(),
    {
        let mut mounts = build_repository_mounts();
        let mut common: Vec<VolumeMount> = empty_list();
        add_item(&mut common, mount(CONFIG_VOLUME_NAME, CONFIG_VOLUME_MOUNT));
        add_item(&mut common, mount(KEYSTORE_VOLUME_NAME, KEYSTORE_NIFI_CONTAINER_MOUNT));
        add_item(&mut common, mount(ACTIVE_CONFIG_VOLUME_NAME, NIFI_CONFIG_DIRECTORY));
        add_item(
            &mut common,
            mount(SENSITIVE_PROPERTY_VOLUME_NAME, SENSITIVE_PROPERTY_VOLUME_MOUNT),
        );
        add_item(&mut common, mount(LOG_VOLUME_NAME, STACKABLE_LOG_DIR));
        add_item(&mut common, mount(TRUSTSTORE_VOLUME_NAME, STACKABLE_SERVER_TLS_DIR));
        add_item(&mut common, mount(LISTENER_PVC_NAME, LISTENER_VOLUME_DIR));
        add_items(&mut mounts, common);
        add_items(&mut mounts, self.authorization_mounts.copied());
        mounts
    }

    /// The mounts of the nifi container, before those of the user and of custom components.
    fn build_nifi_mounts(&self) -> (mounts: Vec<VolumeMount>)
        ensures
            mounts.deep_view() == self.deep_view().nifi_mounts(),
    {
        let mut mounts = list_of(mount(KEYSTORE_VOLUME_NAME, KEYSTORE_NIFI_CONTAINER_MOUNT));
        add_items(&mut mounts, build_repository_mounts());
        let mut common: Vec<VolumeMount> = empty_list();
        add_item(&mut common, mount(ACTIVE_CONFIG_VOLUME_NAME, NIFI_CONFIG_DIRECTORY));
        add_item(&mut common, mount(LOG_CONFIG_VOLUME_NAME, STACKABLE_LOG_CONFIG_DIR));
        add_item(&mut common, mount(LOG_VOLUME_NAME, STACKABLE_LOG_DIR));
        add_item(&mut common, mount(TRUSTSTORE_VOLUME_NAME, STACKABLE_SERVER_TLS_DIR));
        add_item(&mut common, mount(LISTENER_PVC_NAME, LISTENER_VOLUME_DIR));
        add_items(&mut mounts, common);
        add_items(&mut mounts, self.authorization_mounts.copied());
        mounts
    }

    /// The ports of the nifi container.
    fn build_ports(&self) -> (ports: Vec<ContainerPort>)
        ensures
            ports.deep_view() == self.deep_view().ports(),
    {
        let mut ports: Vec<ContainerPort> = empty_list();
        add_item(&mut ports, container_port(HTTPS_PORT_NAME, HTTPS_PORT));
        add_item(&mut ports, container_port(PROTOCOL_PORT_NAME, PROTOCOL_PORT));
        add_item(&mut ports, container_port(BALANCE_PORT_NAME, BALANCE_PORT));
        if has_prefix(self.image.product_version.as_str(), "1.") {
            add_item(&mut ports, container_port(METRICS_PORT_NAME, METRICS_PORT));
        }
        ports
    }

    /// The prepare container, with its mounts.
    fn build_prepare_container(&self, mounts: Vec<VolumeMount>) -> (container:
        kubernetes::Container)
        ensures
            container.deep_view() == self.deep_view().prepare_container(mounts.deep_view()),
    {
        let mut command: Vec<String> = empty_list();
        add_text(&mut command, "/bin/bash");
        add_text(&mut command, "-c");
        add_text(&mut command, "-euo");
        add_text(&mut command, "pipefail");
        kubernetes::Container {
            name: Container::Prepare.as_str().to_owned(),
            image: Some(self.image.image.copied()),
            image_pull_policy: Some(self.image.image_pull_policy.copied()),
            command,
            args: list_of(join(&self.build_prepare_commands(), " && ")),
            env: self.build_env_vars(),
            ports: empty_list(),
            volume_mounts: mounts,
            resources: Some(
                ResourceRequirements {
                    cpu_request: Some("500m".to_owned()),
                    cpu_limit: Some("2000m".to_owned()),
                    memory_request: Some("4096Mi".to_owned()),
                    memory_limit: Some("4096Mi".to_owned()),
                },
            ),
            liveness_probe: None,
            readiness_probe: None,
            startup_probe: None,
        }
    }

    /// The nifi container, with its mounts.
    fn build_nifi_container(&self, mounts: Vec<VolumeMount>) -> (container: kubernetes::Container)
        ensures
            container.deep_view() == self.deep_view().nifi_container(mounts.deep_view()),
    {
        let mut command: Vec<String> = empty_list();
        add_text(&mut command, "/bin/bash");
        add_text(&mut command, "-x");
        add_text(&mut command, "-euo");
        add_text(&mut command, "pipefail");
        add_text(&mut command, "-c");
        kubernetes::Container {
            name: Container::Nifi.as_str().to_owned(),
            image: Some(self.image.image.copied()),
            image_pull_policy: Some(self.image.image_pull_policy.copied()),
            command,
            args: list_of(self.build_run_script()),
            env: self.build_env_vars(),
            ports: self.build_ports(),
            volume_mounts: mounts,
            resources: Some(
                ResourceRequirements {
                    cpu_request: self.resources.cpu_min.copied(),
                    cpu_limit: self.resources.cpu_max.copied(),
                    memory_request: self.resources.memory_limit.copied(),
                    memory_limit: self.resources.memory_limit.copied(),
                },
            ),
            liveness_probe: Some(build_port_probe(None)),
            readiness_probe: None,
            // The start fails after about twenty minutes.
            startup_probe: Some(build_port_probe(Some(120))),
        }
    }

    /// Adds the volumes of the user to the pod and mounts them into the nifi container.
    fn add_extra_volumes(
        &self,
        all_volumes: &mut Vec<Volume>,
        mounts: &mut Vec<VolumeMount>,
    ) -> (result: Result<(), Error>)
        ensures
            match with_extra_volumes(
                old(all_volumes).deep_view(),
                old(mounts).deep_view(),
                self.extra_volumes.deep_view(),
            ) {
                Ok((extra_volumes, extra_mounts)) => result.is_ok()
                    && final(all_volumes).deep_view() == extra_volumes
                    && final(mounts).deep_view() == extra_mounts,
                Err(error) => result == Err::<(), Error>(error),
            },
    {
        let ghost volumes_before = all_volumes.deep_view();
        let ghost mounts_before = mounts.deep_view();
        let ghost extra = self.extra_volumes.deep_view();
        let mut i: usize = 0;
        proof {
            assert(extra.take(0) =~= Seq::empty());
        }
        while i < self.extra_volumes.len()
            invariant
                i <= self.extra_volumes.len(),
                extra == self.extra_volumes.deep_view(),
                volumes_before == old(all_volumes).deep_view(),
                mounts_before == old(mounts).deep_view(),
                with_extra_volumes(volumes_before, mounts_before, extra.take(i as int)) == Ok::<
                    (Seq<VolumeView>, Seq<VolumeMountView>),
                    Error,
                >((all_volumes.deep_view(), mounts.deep_view())),
            decreases self.extra_volumes.len() - i,
        {
            let volume = &self.extra_volumes[i];
            let mount_point = concat3(USERDATA_MOUNTPOINT, "/", volume.name.as_str());
            proof {
                let next = extra.take(i + 1);
                assert(next.drop_last() =~= extra.take(i as int));
                assert(next.last() == volume.deep_view());
            }
            if !add_volume(all_volumes, volume.copied()) {
                proof {
                    lemma_extra_volume_clash(volumes_before, mounts_before, extra, i + 1);
                }
                return Err(Error::AddVolume);
            }
            if !add_mount(mounts, mount(volume.name.as_str(), mount_point.as_str())) {
                proof {
                    lemma_extra_volume_clash(volumes_before, mounts_before, extra, i + 1);
                }
                return Err(Error::AddVolumeMount);
            }
            i = i + 1;
        }
        proof {
            assert(extra.take(i as int) =~= extra);
        }
        Ok(())
    }

    /// The mounts of the volumes of the user.
    fn build_user_mounts(&self) -> (mounts: Vec<VolumeMount>)
        ensures
            mounts.deep_view() == user_mounts(self.extra_volumes.deep_view()),
    {
        let ghost extra = self.extra_volumes.deep_view();
        let mut mounts: Vec<VolumeMount> = empty_list();
        let mut i: usize = 0;
        while i < self.extra_volumes.len()
            invariant
                i <= self.extra_volumes.len(),
                extra == self.extra_volumes.deep_view(),
                mounts.deep_view() == user_mounts(extra.take(i as int)),
            decreases self.extra_volumes.len() - i,
        {
            let name = self.extra_volumes[i].name.as_str();
            add_item(
                &mut mounts,
                mount(name, concat3(USERDATA_MOUNTPOINT, "/", name).as_str()),
            );
            proof {
                assert(extra[i as int] == self.extra_volumes[i as int].deep_view());
                assert(user_mounts(extra.take(i + 1)) =~= user_mounts(extra.take(i as int)).push(
                    user_mount(extra[i as int]),
                ));
            }
            i = i + 1;
        }
        proof {
            assert(extra.take(i as int) =~= extra);
        }
        mounts
    }

    /// Mounts the volumes of the user into the prepare container and into the containers besides
    /// it and the nifi container; nothing where that is not possible.
    fn mount_user_volumes(&self, prepare_mounts: &mut Vec<VolumeMount>) -> (others: Option<
        OtherContainers,
    >)
        ensures
            match self.deep_view().with_user_mounts(old(prepare_mounts).deep_view()) {
                Some((all_prepare_mounts, all_others)) => others.is_some()
                    && others.unwrap().deep_view() == all_others
                    && final(prepare_mounts).deep_view() == all_prepare_mounts,
                None => others.is_none(),
            },
    {
        let mounts = self.build_user_mounts();
        let mut sidecars: Vec<PodContainer> = self.git_sync.git_sync_containers.copied();
        let log_agent: Vec<PodContainer> = match &self.vector {
            Some(sidecar) => list_of(PodContainer::Vector { sidecar: sidecar.copied() }),
            None => empty_list(),
        };
        add_items(&mut sidecars, log_agent);
        if !add_mounts(prepare_mounts, &mounts) {
            return None;
        }
        let git_sync_init = match mount_in_all(&self.git_sync.git_sync_init_containers, &mounts) {
            Some(containers) => containers,
            None => {
                return None;
            },
        };
        match mount_in_all(&sidecars, &mounts) {
            Some(sidecars) => Some(OtherContainers { git_sync_init, sidecars }),
            None => None,
        }
    }

    /// Adds what custom components need, and the log configuration.
    fn add_custom_components(
        &self,
        all_volumes: &mut Vec<Volume>,
        mounts: &mut Vec<VolumeMount>,
    ) -> (result: Result<(), Error>)
        ensures
            match self.deep_view().with_custom_components(
                old(all_volumes).deep_view(),
                old(mounts).deep_view(),
            ) {
                Ok((component_volumes, component_mounts)) => result.is_ok()
                    && final(all_volumes).deep_view() == component_volumes
                    && final(mounts).deep_view() == component_mounts,
                Err(error) => result == Err::<(), Error>(error),
            },
    {
        if !add_volume(all_volumes, empty_dir_volume(PYTHON_WORKING_VOLUME_NAME, None)) {
            return Err(Error::AddVolume);
        }
        let mut component_mounts = list_of(
            mount(PYTHON_WORKING_VOLUME_NAME, NIFI_PYTHON_WORKING_DIRECTORY),
        );
        add_items(&mut component_mounts, self.git_sync.git_content_volume_mounts.copied());
        if !add_mounts(mounts, &component_mounts) {
            return Err(Error::AddVolumeMount);
        }
        let mut component_volumes = self.git_sync.git_content_volumes.copied();
        add_items(&mut component_volumes, self.git_sync.git_ca_cert_volumes.copied());
        let log_config_map: &str = match &self.custom_log_config_map {
            Some(config_map) => config_map.as_str(),
            None => self.config_map.as_str(),
        };
        let log_config_volume = volume_of_config_map(LOG_CONFIG_VOLUME_NAME, log_config_map);
        add_items(&mut component_volumes, list_of(log_config_volume));
        if !add_volumes(all_volumes, &component_volumes) {
            return Err(Error::AddVolume);
        }
        Ok(())
    }

    /// The volumes that every pod has.
    fn build_common_volumes(&self, lifetime_seconds: u64) -> (common: Vec<Volume>)
        ensures
            common.deep_view() == self.deep_view().common_volumes(lifetime_seconds),
    {
        let mut common: Vec<Volume> = empty_list();
        // The log agent reads its configuration from here.
        add_item(&mut common, volume_of_config_map("config", self.config_map.as_str()));
        add_item(&mut common, volume_of_config_map(CONFIG_VOLUME_NAME, self.config_map.as_str()));
        // Larger than the logs can get: their size is checked every few seconds only.
        add_item(&mut common, empty_dir_volume(LOG_VOLUME_NAME, Some("500Mi".to_owned())));
        add_item(
            &mut common,
            Volume {
                name: KEYSTORE_VOLUME_NAME.to_owned(),
                source: VolumeSource::Tls {
                    secret_class: self.server_tls_secret_class.copied(),
                    service_scopes: self.tls_service_scopes.copied(),
                    format: SecretFormat::TlsPkcs12,
                    requested_lifetime_seconds: lifetime_seconds,
                    listener_scope: Some(LISTENER_PVC_NAME.to_owned()),
                },
            },
        );
        add_item(&mut common, empty_dir_volume(TRUSTSTORE_VOLUME_NAME, None));
        add_items(&mut common, self.authorization_volumes.copied());
        let mut last: Vec<Volume> = empty_list();
        add_item(
            &mut last,
            Volume {
                name: SENSITIVE_PROPERTY_VOLUME_NAME.to_owned(),
                source: VolumeSource::Secret {
                    secret_name: self.sensitive_key_secret.copied(),
                    optional: None,
                    items: empty_list(),
                },
            },
        );
        add_item(&mut last, empty_dir_volume(ACTIVE_CONFIG_VOLUME_NAME, None));
        add_items(&mut common, last);
        common
    }

    /// The template, with the volumes of the pod and the mounts of its containers.
    fn build_template(
        &self,
        all_volumes: Vec<Volume>,
        prepare_mounts: Vec<VolumeMount>,
        nifi_mounts: Vec<VolumeMount>,
        others: OtherContainers,
    ) -> (template: PodTemplate)
        requires
            !self.deep_view().grace_period_too_long(),
        ensures
            template.deep_view() == self.deep_view().template(
                all_volumes.deep_view(),
                prepare_mounts.deep_view(),
                nifi_mounts.deep_view(),
                others.deep_view(),
            ),
    {
        let mut containers: Vec<PodContainer> = list_of(
            PodContainer::Own { container: self.build_nifi_container(nifi_mounts) },
        );
        add_items(&mut containers, others.sidecars);
        let mut init_containers = others.git_sync_init;
        add_item(
            &mut init_containers,
            PodContainer::Own { container: self.build_prepare_container(prepare_mounts) },
        );
        PodTemplate {
            metadata: ObjectMeta {
                name: None,
                namespace: None,
                uid: None,
                labels: self.labels.copied(),
                annotations: OrderedMap::new(),
                owner_references: empty_list(),
            },
            containers,
            init_containers,
            volumes: all_volumes,
            affinity: Some(self.affinity.copied()),
            service_account_name: Some(self.service_account_name.copied()),
            fs_group: Some(1000),
            image_pull_secrets: self.image.pull_secrets.copied(),
            restart_policy: None,
            termination_grace_period_seconds: match self.graceful_shutdown_timeout_seconds {
                Some(seconds) => Some(seconds as i64),
                None => None,
            },
            overrides: self.overrides.copied(),
        }
    }

    /// Builds the template of the pods.
    pub fn build(&self) -> (result: Result<PodTemplate, Error>)
        ensures
            match result {
                Ok(template) => self.deep_view().outcome() == Ok::<PodTemplateView, Error>(
                    template.deep_view(),
                ),
                Err(error) => self.deep_view().outcome() == Err::<PodTemplateView, Error>(error),
            },
    {
        let mut prepare_mounts: Vec<VolumeMount> = empty_list();
        if !add_mounts(&mut prepare_mounts, &self.build_prepare_mounts()) {
            return Err(Error::AddVolumeMount);
        }
        let mut nifi_mounts: Vec<VolumeMount> = empty_list();
        if !add_mounts(&mut nifi_mounts, &self.build_nifi_mounts()) {
            return Err(Error::AddVolumeMount);
        }
        if let Some(seconds) = self.graceful_shutdown_timeout_seconds {
            if seconds > i64::MAX as u64 {
                return Err(Error::GracefulShutdown);
            }
        }
        let mut all_volumes: Vec<Volume> = empty_list();
        if let Err(error) = self.add_extra_volumes(&mut all_volumes, &mut nifi_mounts) {
            return Err(error);
        }
        let others = match self.mount_user_volumes(&mut prepare_mounts) {
            Some(others) => others,
            None => {
                return Err(Error::AddVolumeMount);
            },
        };
        if let Err(error) = self.add_custom_components(&mut all_volumes, &mut nifi_mounts) {
            return Err(error);
        }
        if let Some(error) = self.vector_failure {
            return Err(error);
        }
        let (auth_volumes, auth_mounts) = self.authentication.volumes_and_mounts();
        if !add_volumes(&mut all_volumes, &auth_volumes) {
            return Err(Error::AddAuthVolumes);
        }
        if !add_mounts(&mut prepare_mounts, &auth_mounts) {
            return Err(Error::AddAuthVolumes);
        }
        if self.authentication_mounts_in_nifi {
            let mut mounts = nifi_mounts.copied();
            if !add_mounts(&mut mounts, &auth_mounts) {
                return Err(Error::AddAuthVolumes);
            }
        }
        let lifetime_seconds: u64 = match self.requested_secret_lifetime_seconds {
            Some(seconds) => seconds,
            None => {
                return Err(Error::MissingSecretLifetime);
            },
        };
        if !add_volumes(&mut all_volumes, &self.build_common_volumes(lifetime_seconds)) {
            return Err(Error::AddVolume);
        }
        Ok(self.build_template(all_volumes, prepare_mounts, nifi_mounts, others))
    }
}

/// Once a volume of the user clashes, no further one mends it.
proof fn lemma_extra_volume_clash(
    all_volumes: Seq<VolumeView>,
    mounts: Seq<VolumeMountView>,
    extra: Seq<VolumeView>,
    at: int,
)
    requires
        0 <= at <= extra.len(),
        with_extra_volumes(all_volumes, mounts, extra.take(at)).is_err(),
    ensures
        with_extra_volumes(all_volumes, mounts, extra) == with_extra_volumes(
            all_volumes,
            mounts,
            extra.take(at),
        ),
    decreases extra.len() - at,
{
    if at == extra.len() {
        assert(extra.take(at) =~= extra);
    } else {
        assert(extra.take(at + 1).drop_last() =~= extra.take(at));
        lemma_extra_volume_clash(all_volumes, mounts, extra, at + 1);
    }
}

/// The volumes of the user are among the volumes of the pod and the mounts of the nifi container.
proof fn lemma_extra_volumes(
    all_volumes: Seq<VolumeView>,
    mounts: Seq<VolumeMountView>,
    extra: Seq<VolumeView>,
    volume: VolumeView,
)
    requires
        with_extra_volumes(all_volumes, mounts, extra).is_ok(),
        extra.contains(volume),
    ensures
        with_extra_volumes(all_volumes, mounts, extra)->Ok_0.0.contains(volume),
        with_extra_volumes(all_volumes, mounts, extra)->Ok_0.1.contains(user_mount(volume)),
    decreases extra.len(),
{
    let front = with_extra_volumes(all_volumes, mounts, extra.drop_last())->Ok_0;
    let last = extra.last();
    let more_volumes = seq![last];
    let more_mounts = seq![user_mount(last)];
    reveal_with_fuel(volumes::put_volumes, 2);
    reveal_with_fuel(volumes::put_mounts, 2);
    assert(more_volumes.drop_last() =~= Seq::empty());
    assert(more_mounts.drop_last() =~= Seq::empty());
    if extra.drop_last().contains(volume) {
        lemma_extra_volumes(all_volumes, mounts, extra.drop_last(), volume);
    } else {
        let i = choose|i: int| 0 <= i < extra.len() && extra[i] == volume;
        if i < extra.len() - 1 {
            assert(extra.drop_last()[i] == volume);
        }
        assert(more_volumes[0] == volume);
        assert(more_mounts[0] == user_mount(volume));
    }
    volumes::lemma_put_volumes(front.0, more_volumes, volume);
    volumes::lemma_put_mounts(front.1, more_mounts, user_mount(volume));
}

/// The volumes of the user are in every pod, and every container mounts them under
/// `/stackable/userdata/`: the nifi and the prepare container, those that fetch custom components,
/// and the log agent.
///
/// This is said of the template before the overrides of the user are merged into it.
pub proof fn law_extra_volumes_are_mounted(
    pod: NodePodView,
    volume: VolumeView,
    container: PodContainerView,
)
    requires
        pod.outcome().is_ok(),
        pod.extra_volumes.contains(volume),
        pod.outcome()->Ok_0.containers.contains(container)
            || pod.outcome()->Ok_0.init_containers.contains(container),
    ensures
        pod.outcome()->Ok_0.volumes.contains(volume),
        volumes::mounts_of(container).contains(
            VolumeMountView {
                name: volume.name,
                mount_path: "/stackable/userdata"@ + "/"@ + volume.name,
                sub_path: None,
            },
        ),
{
    let mount = user_mount(volume);
    let mounts = user_mounts(pod.extra_volumes);
    let at = choose|at: int| 0 <= at < pod.extra_volumes.len() && pod.extra_volumes[at] == volume;
    assert(mounts[at] == mount);
    let prepare = volumes::put_mounts(Seq::empty(), pod.prepare_mounts()).unwrap();
    let nifi = volumes::put_mounts(Seq::empty(), pod.nifi_mounts()).unwrap();
    let extra = with_extra_volumes(Seq::empty(), nifi, pod.extra_volumes)->Ok_0;
    lemma_extra_volumes(Seq::empty(), nifi, pod.extra_volumes, volume);
    let (user_prepare, others) = pod.with_user_mounts(prepare).unwrap();
    volumes::lemma_put_mounts(prepare, mounts, mount);
    // What is added later keeps what is there.
    let custom = pod.with_custom_components(extra.0, extra.1)->Ok_0;
    let python = volumes::empty_volume(PYTHON_WORKING_VOLUME_NAME@, None);
    let with_python = volumes::put_volume(extra.0, python).unwrap();
    reveal_with_fuel(volumes::put_volumes, 2);
    assert(seq![python].drop_last() =~= Seq::empty());
    volumes::lemma_put_volumes(extra.0, seq![python], volume);
    volumes::lemma_put_volumes(
        with_python,
        pod.git_sync.git_content_volumes + pod.git_sync.git_ca_cert_volumes + seq![
            pod.log_config_volume(),
        ],
        volume,
    );
    volumes::lemma_put_mounts(
        extra.1,
        seq![
            volumes::whole_mount(PYTHON_WORKING_VOLUME_NAME@, NIFI_PYTHON_WORKING_DIRECTORY@),
        ] + pod.git_sync.git_content_volume_mounts,
        mount,
    );
    let with_auth = volumes::put_volumes(custom.0, pod.authentication.volumes()).unwrap();
    volumes::lemma_put_volumes(custom.0, pod.authentication.volumes(), volume);
    volumes::lemma_put_volumes(
        with_auth,
        pod.common_volumes(pod.requested_secret_lifetime_seconds.unwrap()),
        volume,
    );
    volumes::lemma_put_mounts(user_prepare, pod.authentication.volume_mounts(), mount);
    let template = pod.outcome()->Ok_0;
    if template.containers.contains(container) {
        let i = choose|i: int| 0 <= i < template.containers.len() && template.containers[i]
            == container;
        if i > 0 {
            assert(others.sidecars[i - 1] == container);
            volumes::lemma_mounted_in_all(pod.sidecars(), mounts, container, mount);
        }
    } else {
        let i = choose|i: int|
            0 <= i < template.init_containers.len() && template.init_containers[i] == container;
        if i < others.git_sync_init.len() {
            assert(others.git_sync_init[i] == container);
            volumes::lemma_mounted_in_all(
                pod.git_sync.git_sync_init_containers,
                mounts,
                container,
                mount,
            );
        }
    }
}

} // verus!
