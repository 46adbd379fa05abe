//! The Kubernetes objects that the operator builds, as plain values.
//!
//! Each type has a view, the mathematical value of its contents, that the contracts speak of.

use crate::contents::{Copied, SameContents};
use crate::ordered_map::StringMap;
use vstd::prelude::*;

verus! {

/// A reference from an object to the object that owns it.
#[derive(Debug, PartialEq, Eq)]
pub struct OwnerReference {
    pub api_version: String,
    pub kind: String,
    pub name: String,
    pub uid: String,
    pub block_owner_deletion: Option<bool>,
    pub controller: Option<bool>,
}

/// The contents of a [`OwnerReference`].
#[verifier::ext_equal]
pub struct OwnerReferenceView {
    pub api_version: Seq<char>,
    pub kind: Seq<char>,
    pub name: Seq<char>,
    pub uid: Seq<char>,
    pub block_owner_deletion: Option<bool>,
    pub controller: Option<bool>,
}

impl DeepView for OwnerReference {
    type V = OwnerReferenceView;

    open spec fn deep_view(&self) -> OwnerReferenceView {
        OwnerReferenceView {
            api_version: self.api_version.deep_view(),
            kind: self.kind.deep_view(),
            name: self.name.deep_view(),
            uid: self.uid.deep_view(),
            block_owner_deletion: self.block_owner_deletion.deep_view(),
            controller: self.controller.deep_view(),
        }
    }
}

impl Copied for OwnerReference {
    fn copied(&self) -> (copy: OwnerReference) {
        OwnerReference {
            api_version: self.api_version.copied(),
            kind: self.kind.copied(),
            name: self.name.copied(),
            uid: self.uid.copied(),
            block_owner_deletion: self.block_owner_deletion.copied(),
            controller: self.controller.copied(),
        }
    }
}

/// The metadata that every object carries.
#[derive(Debug, PartialEq, Eq)]
pub struct ObjectMeta {
    pub name: Option<String>,
    pub namespace: Option<String>,
    pub uid: Option<String>,
    pub labels: StringMap,
    pub annotations: StringMap,
    pub owner_references: Vec<OwnerReference>,
}

/// The contents of a [`ObjectMeta`].
#[verifier::ext_equal]
pub struct ObjectMetaView {
    pub name: Option<Seq<char>>,
    pub namespace: Option<Seq<char>>,
    pub uid: Option<Seq<char>>,
    pub labels: Map<Seq<char>, Seq<char>>,
    pub annotations: Map<Seq<char>, Seq<char>>,
    pub owner_references: Seq<OwnerReferenceView>,
}

impl DeepView for ObjectMeta {
    type V = ObjectMetaView;

    open spec fn deep_view(&self) -> ObjectMetaView {
        ObjectMetaView {
            name: self.name.deep_view(),
            namespace: self.namespace.deep_view(),
            uid: self.uid.deep_view(),
            labels: self.labels.deep_view(),
            annotations: self.annotations.deep_view(),
            owner_references: self.owner_references.deep_view(),
        }
    }
}

impl Copied for ObjectMeta {
    fn copied(&self) -> (copy: ObjectMeta) {
        ObjectMeta {
            name: self.name.copied(),
            namespace: self.namespace.copied(),
            uid: self.uid.copied(),
            labels: self.labels.copied(),
            annotations: self.annotations.copied(),
            owner_references: self.owner_references.copied(),
        }
    }
}

/// Where the value of an environment variable comes from.
#[derive(Debug, PartialEq, Eq)]
pub enum EnvVarSource {
    /// The value itself.
    Literal {
        value: String,
    },
    /// A field of the pod.
    PodField {
        api_version: String,
        field_path: String,
    },
    /// A key of a ConfigMap.
    ConfigMapKey {
        name: String,
        key: String,
    },
    /// A key of a Secret.
    SecretKey {
        name: String,
        key: String,
    },
}

/// The contents of a [`EnvVarSource`].
#[verifier::ext_equal]
pub enum EnvVarSourceView {
    Literal { value: Seq<char> },
    PodField { api_version: Seq<char>, field_path: Seq<char> },
    ConfigMapKey { name: Seq<char>, key: Seq<char> },
    SecretKey { name: Seq<char>, key: Seq<char> },
}

impl DeepView for EnvVarSource {
    type V = EnvVarSourceView;

    open spec fn deep_view(&self) -> EnvVarSourceView {
        match self {
            EnvVarSource::Literal { value } => EnvVarSourceView::Literal {
                value: value.deep_view(),
            },
            EnvVarSource::PodField { api_version, field_path } => EnvVarSourceView::PodField {
                api_version: api_version.deep_view(),
                field_path: field_path.deep_view(),
            },
            EnvVarSource::ConfigMapKey { name, key } => EnvVarSourceView::ConfigMapKey {
                name: name.deep_view(),
                key: key.deep_view(),
            },
            EnvVarSource::SecretKey { name, key } => EnvVarSourceView::SecretKey {
                name: name.deep_view(),
                key: key.deep_view(),
            },
        }
    }
}

impl Copied for EnvVarSource {
    fn copied(&self) -> (copy: EnvVarSource) {
        match self {
            EnvVarSource::Literal { value } => EnvVarSource::Literal {
                value: value.copied(),
            },
            EnvVarSource::PodField { api_version, field_path } => EnvVarSource::PodField {
                api_version: api_version.copied(),
                field_path: field_path.copied(),
            },
            EnvVarSource::ConfigMapKey { name, key } => EnvVarSource::ConfigMapKey {
                name: name.copied(),
                key: key.copied(),
            },
            EnvVarSource::SecretKey { name, key } => EnvVarSource::SecretKey {
                name: name.copied(),
                key: key.copied(),
            },
        }
    }
}

/// An environment variable of a container.
#[derive(Debug, PartialEq, Eq)]
pub struct EnvVar {
    pub name: String,
    pub source: EnvVarSource,
}

/// The contents of a [`EnvVar`].
#[verifier::ext_equal]
pub struct EnvVarView {
    pub name: Seq<char>,
    pub source: EnvVarSourceView,
}

impl DeepView for EnvVar {
    type V = EnvVarView;

    open spec fn deep_view(&self) -> EnvVarView {
        EnvVarView {
            name: self.name.deep_view(),
            source: self.source.deep_view(),
        }
    }
}

impl Copied for EnvVar {
    fn copied(&self) -> (copy: EnvVar) {
        EnvVar {
            name: self.name.copied(),
            source: self.source.copied(),
        }
    }
}

/// A volume at a path inside a container.
#[derive(Debug, PartialEq, Eq)]
pub struct VolumeMount {
    /// The volume that is mounted.
    pub name: String,
    pub mount_path: String,
    pub sub_path: Option<String>,
}

/// The contents of a [`VolumeMount`].
#[verifier::ext_equal]
pub struct VolumeMountView {
    pub name: Seq<char>,
    pub mount_path: Seq<char>,
    pub sub_path: Option<Seq<char>>,
}

impl DeepView for VolumeMount {
    type V = VolumeMountView;

    open spec fn deep_view(&self) -> VolumeMountView {
        VolumeMountView {
            name: self.name.deep_view(),
            mount_path: self.mount_path.deep_view(),
            sub_path: self.sub_path.deep_view(),
        }
    }
}

impl Copied for VolumeMount {
    fn copied(&self) -> (copy: VolumeMount) {
        VolumeMount {
            name: self.name.copied(),
            mount_path: self.mount_path.copied(),
            sub_path: self.sub_path.copied(),
        }
    }
}

impl SameContents for VolumeMount {
    fn same(&self, other: &VolumeMount) -> (same: bool) {
        self.name.same(&other.name)
            && self.mount_path.same(&other.mount_path)
            && self.sub_path.same(&other.sub_path)
    }
}

/// The file that a key of a Secret becomes.
#[derive(Debug, PartialEq, Eq)]
pub struct KeyToPath {
    pub key: String,
    pub path: String,
}

/// The contents of a [`KeyToPath`].
#[verifier::ext_equal]
pub struct KeyToPathView {
    pub key: Seq<char>,
    pub path: Seq<char>,
}

impl DeepView for KeyToPath {
    type V = KeyToPathView;

    open spec fn deep_view(&self) -> KeyToPathView {
        KeyToPathView {
            key: self.key.deep_view(),
            path: self.path.deep_view(),
        }
    }
}

impl Copied for KeyToPath {
    fn copied(&self) -> (copy: KeyToPath) {
        KeyToPath {
            key: self.key.copied(),
            path: self.path.copied(),
        }
    }
}

impl SameContents for KeyToPath {
    fn same(&self, other: &KeyToPath) -> (same: bool) {
        self.key.same(&other.key)
            && self.path.same(&other.path)
    }
}

/// The format in which certificates are written into a volume.
#[derive(Clone, Copy, Debug, PartialEq, Eq, Structural)]
pub enum SecretFormat {
    TlsPem,
    TlsPkcs12,
}

impl DeepView for SecretFormat {
    type V = SecretFormat;

    open spec fn deep_view(&self) -> SecretFormat {
        *self
    }
}

impl Copied for SecretFormat {
    fn copied(&self) -> (copy: SecretFormat) {
        *self
    }
}

impl SameContents for SecretFormat {
    fn same(&self, other: &SecretFormat) -> (same: bool) {
        *self == *other
    }
}

/// What a volume is made of.
#[derive(Debug, PartialEq, Eq)]
pub enum VolumeSource {
    ConfigMap {
        name: String,
    },
    Secret {
        secret_name: String,
        optional: Option<bool>,
        items: Vec<KeyToPath>,
    },
    EmptyDir {
        size_limit: Option<String>,
    },
    /// A certificate that is issued for the pod.
    Tls {
        /// The SecretClass that issues the certificate.
        secret_class: String,
        /// The Services the certificate is valid for, besides the pod and its node.
        service_scopes: Vec<String>,
        format: SecretFormat,
        requested_lifetime_seconds: u64,
        /// The listener volume whose addresses the certificate is valid for.
        listener_scope: Option<String>,
    },
    /// Any other source, as written in a manifest.
    Manifest {
        json: String,
    },
}

/// The contents of a [`VolumeSource`].
#[verifier::ext_equal]
pub enum VolumeSourceView {
    ConfigMap { name: Seq<char> },
    Secret { secret_name: Seq<char>, optional: Option<bool>, items: Seq<KeyToPathView> },
    EmptyDir { size_limit: Option<Seq<char>> },
    Tls {
        secret_class: Seq<char>,
        service_scopes: Seq<Seq<char>>,
        format: SecretFormat,
        requested_lifetime_seconds: u64,
        listener_scope: Option<Seq<char>>,
    },
    Manifest { json: Seq<char> },
}

impl DeepView for VolumeSource {
    type V = VolumeSourceView;

    open spec fn deep_view(&self) -> VolumeSourceView {
        match self {
            VolumeSource::ConfigMap { name } => VolumeSourceView::ConfigMap {
                name: name.deep_view(),
            },
            VolumeSource::Secret { secret_name, optional, items } => VolumeSourceView::Secret {
                secret_name: secret_name.deep_view(),
                optional: optional.deep_view(),
                items: items.deep_view(),
            },
            VolumeSource::EmptyDir { size_limit } => VolumeSourceView::EmptyDir {
                size_limit: size_limit.deep_view(),
            },
            VolumeSource::Tls {
                secret_class,
                service_scopes,
                format,
                requested_lifetime_seconds,
                listener_scope,
            } => VolumeSourceView::Tls {
                secret_class: secret_class.deep_view(),
                service_scopes: service_scopes.deep_view(),
                format: format.deep_view(),
                requested_lifetime_seconds: requested_lifetime_seconds.deep_view(),
                listener_scope: listener_scope.deep_view(),
            },
            VolumeSource::Manifest { json } => VolumeSourceView::Manifest {
                json: json.deep_view(),
            },
        }
    }
}

impl Copied for VolumeSource {
    fn copied(&self) -> (copy: VolumeSource) {
        match self {
            VolumeSource::ConfigMap { name } => VolumeSource::ConfigMap {
                name: name.copied(),
            },
            VolumeSource::Secret { secret_name, optional, items } => VolumeSource::Secret {
                secret_name: secret_name.copied(),
                optional: optional.copied(),
                items: items.copied(),
            },
            VolumeSource::EmptyDir { size_limit } => VolumeSource::EmptyDir {
                size_limit: size_limit.copied(),
            },
            VolumeSource::Tls {
                secret_class,
                service_scopes,
                format,
                requested_lifetime_seconds,
                listener_scope,
            } => VolumeSource::Tls {
                secret_class: secret_class.copied(),
                service_scopes: service_scopes.copied(),
                format: format.copied(),
                requested_lifetime_seconds: *requested_lifetime_seconds,
                listener_scope: listener_scope.copied(),
            },
            VolumeSource::Manifest { json } => VolumeSource::Manifest {
                json: json.copied(),
            },
        }
    }
}

impl SameContents for VolumeSource {
    fn same(&self, other: &VolumeSource) -> (same: bool) {
        match (self, other) {
            (
                VolumeSource::ConfigMap { name },
                VolumeSource::ConfigMap { name: other_name },
            ) => name.same(other_name),
            (
                VolumeSource::Secret { secret_name, optional, items },
                VolumeSource::Secret {
                    secret_name: other_secret_name,
                    optional: other_optional,
                    items: other_items,
                },
            ) => secret_name.same(other_secret_name)
                && optional.same(other_optional)
                && items.same(other_items),
            (
                VolumeSource::EmptyDir { size_limit },
                VolumeSource::EmptyDir { size_limit: other_size_limit },
            ) => size_limit.same(other_size_limit),
            (
                VolumeSource::Tls {
                    secret_class,
                    service_scopes,
                    format,
                    requested_lifetime_seconds,
                    listener_scope,
                },
                VolumeSource::Tls {
                    secret_class: other_secret_class,
                    service_scopes: other_service_scopes,
                    format: other_format,
                    requested_lifetime_seconds: other_requested_lifetime_seconds,
                    listener_scope: other_listener_scope,
                },
            ) => secret_class.same(other_secret_class)
                && service_scopes.same(other_service_scopes)
                && format.same(other_format)
                && *requested_lifetime_seconds == *other_requested_lifetime_seconds
                && listener_scope.same(other_listener_scope),
            (
                VolumeSource::Manifest { json },
                VolumeSource::Manifest { json: other_json },
            ) => json.same(other_json),
            _ => false,
        }
    }
}

/// A volume of a pod.
#[derive(Debug, PartialEq, Eq)]
pub struct Volume {
    pub name: String,
    pub source: VolumeSource,
}

/// The contents of a [`Volume`].
#[verifier::ext_equal]
pub struct VolumeView {
    pub name: Seq<char>,
    pub source: VolumeSourceView,
}

impl DeepView for Volume {
    type V = VolumeView;

    open spec fn deep_view(&self) -> VolumeView {
        VolumeView {
            name: self.name.deep_view(),
            source: self.source.deep_view(),
        }
    }
}

impl Copied for Volume {
    fn copied(&self) -> (copy: Volume) {
        Volume {
            name: self.name.copied(),
            source: self.source.copied(),
        }
    }
}

impl SameContents for Volume {
    fn same(&self, other: &Volume) -> (same: bool) {
        self.name.same(&other.name)
            && self.source.same(&other.source)
    }
}

/// A port that a container exposes.
#[derive(Debug, PartialEq, Eq)]
pub struct ContainerPort {
    pub name: Option<String>,
    pub container_port: i32,
}

/// The contents of a [`ContainerPort`].
#[verifier::ext_equal]
pub struct ContainerPortView {
    pub name: Option<Seq<char>>,
    pub container_port: i32,
}

impl DeepView for ContainerPort {
    type V = ContainerPortView;

    open spec fn deep_view(&self) -> ContainerPortView {
        ContainerPortView {
            name: self.name.deep_view(),
            container_port: self.container_port.deep_view(),
        }
    }
}

impl Copied for ContainerPort {
    fn copied(&self) -> (copy: ContainerPort) {
        ContainerPort {
            name: self.name.copied(),
            container_port: self.container_port,
        }
    }
}

/// The compute resources of a container.
#[derive(Debug, PartialEq, Eq)]
pub struct ResourceRequirements {
    pub cpu_request: Option<String>,
    pub cpu_limit: Option<String>,
    pub memory_request: Option<String>,
    pub memory_limit: Option<String>,
}

/// The contents of a [`ResourceRequirements`].
#[verifier::ext_equal]
pub struct ResourceRequirementsView {
    pub cpu_request: Option<Seq<char>>,
    pub cpu_limit: Option<Seq<char>>,
    pub memory_request: Option<Seq<char>>,
    pub memory_limit: Option<Seq<char>>,
}

impl DeepView for ResourceRequirements {
    type V = ResourceRequirementsView;

    open spec fn deep_view(&self) -> ResourceRequirementsView {
        ResourceRequirementsView {
            cpu_request: self.cpu_request.deep_view(),
            cpu_limit: self.cpu_limit.deep_view(),
            memory_request: self.memory_request.deep_view(),
            memory_limit: self.memory_limit.deep_view(),
        }
    }
}

impl Copied for ResourceRequirements {
    fn copied(&self) -> (copy: ResourceRequirements) {
        ResourceRequirements {
            cpu_request: self.cpu_request.copied(),
            cpu_limit: self.cpu_limit.copied(),
            memory_request: self.memory_request.copied(),
            memory_limit: self.memory_limit.copied(),
        }
    }
}

/// A command that a probe runs inside the container.
#[derive(Debug, PartialEq, Eq)]
pub struct ExecAction {
    pub command: Vec<String>,
}

/// The contents of a [`ExecAction`].
#[verifier::ext_equal]
pub struct ExecActionView {
    pub command: Seq<Seq<char>>,
}

impl DeepView for ExecAction {
    type V = ExecActionView;

    open spec fn deep_view(&self) -> ExecActionView {
        ExecActionView {
            command: self.command.deep_view(),
        }
    }
}

impl Copied for ExecAction {
    fn copied(&self) -> (copy: ExecAction) {
        ExecAction {
            command: self.command.copied(),
        }
    }
}

/// A connection that a probe opens.
#[derive(Debug, PartialEq, Eq)]
pub struct TcpSocketAction {
    /// The name of the port.
    pub port: String,
}

/// The contents of a [`TcpSocketAction`].
#[verifier::ext_equal]
pub struct TcpSocketActionView {
    pub port: Seq<char>,
}

impl DeepView for TcpSocketAction {
    type V = TcpSocketActionView;

    open spec fn deep_view(&self) -> TcpSocketActionView {
        TcpSocketActionView {
            port: self.port.deep_view(),
        }
    }
}

impl Copied for TcpSocketAction {
    fn copied(&self) -> (copy: TcpSocketAction) {
        TcpSocketAction {
            port: self.port.copied(),
        }
    }
}

/// A health check of a container.
#[derive(Debug, PartialEq, Eq)]
pub struct Probe {
    pub exec_action: Option<ExecAction>,
    pub tcp_socket: Option<TcpSocketAction>,
    pub initial_delay_seconds: Option<i32>,
    pub period_seconds: Option<i32>,
    pub timeout_seconds: Option<i32>,
    pub success_threshold: Option<i32>,
    pub failure_threshold: Option<i32>,
}

/// The contents of a [`Probe`].
#[verifier::ext_equal]
pub struct ProbeView {
    pub exec_action: Option<ExecActionView>,
    pub tcp_socket: Option<TcpSocketActionView>,
    pub initial_delay_seconds: Option<i32>,
    pub period_seconds: Option<i32>,
    pub timeout_seconds: Option<i32>,
    pub success_threshold: Option<i32>,
    pub failure_threshold: Option<i32>,
}

impl DeepView for Probe {
    type V = ProbeView;

    open spec fn deep_view(&self) -> ProbeView {
        ProbeView {
            exec_action: self.exec_action.deep_view(),
            tcp_socket: self.tcp_socket.deep_view(),
            initial_delay_seconds: self.initial_delay_seconds.deep_view(),
            period_seconds: self.period_seconds.deep_view(),
            timeout_seconds: self.timeout_seconds.deep_view(),
            success_threshold: self.success_threshold.deep_view(),
            failure_threshold: self.failure_threshold.deep_view(),
        }
    }
}

impl Copied for Probe {
    fn copied(&self) -> (copy: Probe) {
        Probe {
            exec_action: self.exec_action.copied(),
            tcp_socket: self.tcp_socket.copied(),
            initial_delay_seconds: self.initial_delay_seconds.copied(),
            period_seconds: self.period_seconds.copied(),
            timeout_seconds: self.timeout_seconds.copied(),
            success_threshold: self.success_threshold.copied(),
            failure_threshold: self.failure_threshold.copied(),
        }
    }
}

/// A container of a pod.
#[derive(Debug, PartialEq, Eq)]
pub struct Container {
    pub name: String,
    pub image: Option<String>,
    pub image_pull_policy: Option<String>,
    pub command: Vec<String>,
    pub args: Vec<String>,
    pub env: Vec<EnvVar>,
    pub ports: Vec<ContainerPort>,
    pub volume_mounts: Vec<VolumeMount>,
    pub resources: Option<ResourceRequirements>,
    pub liveness_probe: Option<Probe>,
    pub readiness_probe: Option<Probe>,
    pub startup_probe: Option<Probe>,
}

/// The contents of a [`Container`].
#[verifier::ext_equal]
pub struct ContainerView {
    pub name: Seq<char>,
    pub image: Option<Seq<char>>,
    pub image_pull_policy: Option<Seq<char>>,
    pub command: Seq<Seq<char>>,
    pub args: Seq<Seq<char>>,
    pub env: Seq<EnvVarView>,
    pub ports: Seq<ContainerPortView>,
    pub volume_mounts: Seq<VolumeMountView>,
    pub resources: Option<ResourceRequirementsView>,
    pub liveness_probe: Option<ProbeView>,
    pub readiness_probe: Option<ProbeView>,
    pub startup_probe: Option<ProbeView>,
}

impl DeepView for Container {
    type V = ContainerView;

    open spec fn deep_view(&self) -> ContainerView {
        ContainerView {
            name: self.name.deep_view(),
            image: self.image.deep_view(),
            image_pull_policy: self.image_pull_policy.deep_view(),
            command: self.command.deep_view(),
            args: self.args.deep_view(),
            env: self.env.deep_view(),
            ports: self.ports.deep_view(),
            volume_mounts: self.volume_mounts.deep_view(),
            resources: self.resources.deep_view(),
            liveness_probe: self.liveness_probe.deep_view(),
            readiness_probe: self.readiness_probe.deep_view(),
            startup_probe: self.startup_probe.deep_view(),
        }
    }
}

impl Copied for Container {
    fn copied(&self) -> (copy: Container) {
        Container {
            name: self.name.copied(),
            image: self.image.copied(),
            image_pull_policy: self.image_pull_policy.copied(),
            command: self.command.copied(),
            args: self.args.copied(),
            env: self.env.copied(),
            ports: self.ports.copied(),
            volume_mounts: self.volume_mounts.copied(),
            resources: self.resources.copied(),
            liveness_probe: self.liveness_probe.copied(),
            readiness_probe: self.readiness_probe.copied(),
            startup_probe: self.startup_probe.copied(),
        }
    }
}

/// What the container of the Vector agent is made from.
#[derive(Debug, PartialEq, Eq)]
pub struct VectorSidecar {
    pub container_name: String,
    pub image: String,
    pub image_pull_policy: String,
    /// The discovery ConfigMap of the Vector aggregator.
    pub aggregator_config_map_name: String,
    /// The ConfigMap with the log configuration, where it is not an automatic one.
    pub custom_log_config_map: Option<String>,
    pub log_config_volume: String,
    pub log_volume: String,
    pub resources: Option<ResourceRequirements>,
    /// Mounts besides those of the agent itself.
    pub extra_mounts: Vec<VolumeMount>,
}

/// The contents of a [`VectorSidecar`].
#[verifier::ext_equal]
pub struct VectorSidecarView {
    pub container_name: Seq<char>,
    pub image: Seq<char>,
    pub image_pull_policy: Seq<char>,
    pub aggregator_config_map_name: Seq<char>,
    pub custom_log_config_map: Option<Seq<char>>,
    pub log_config_volume: Seq<char>,
    pub log_volume: Seq<char>,
    pub resources: Option<ResourceRequirementsView>,
    pub extra_mounts: Seq<VolumeMountView>,
}

impl DeepView for VectorSidecar {
    type V = VectorSidecarView;

    open spec fn deep_view(&self) -> VectorSidecarView {
        VectorSidecarView {
            container_name: self.container_name.deep_view(),
            image: self.image.deep_view(),
            image_pull_policy: self.image_pull_policy.deep_view(),
            aggregator_config_map_name: self.aggregator_config_map_name.deep_view(),
            custom_log_config_map: self.custom_log_config_map.deep_view(),
            log_config_volume: self.log_config_volume.deep_view(),
            log_volume: self.log_volume.deep_view(),
            resources: self.resources.deep_view(),
            extra_mounts: self.extra_mounts.deep_view(),
        }
    }
}

impl Copied for VectorSidecar {
    fn copied(&self) -> (copy: VectorSidecar) {
        VectorSidecar {
            container_name: self.container_name.copied(),
            image: self.image.copied(),
            image_pull_policy: self.image_pull_policy.copied(),
            aggregator_config_map_name: self.aggregator_config_map_name.copied(),
            custom_log_config_map: self.custom_log_config_map.copied(),
            log_config_volume: self.log_config_volume.copied(),
            log_volume: self.log_volume.copied(),
            resources: self.resources.copied(),
            extra_mounts: self.extra_mounts.copied(),
        }
    }
}

/// A container in the order of a pod.
#[derive(Debug, PartialEq, Eq)]
pub enum PodContainer {
    /// A container that is fully described here.
    Own {
        container: Container,
    },
    /// The log agent.
    Vector {
        sidecar: VectorSidecar,
    },
    /// A container as written in a manifest.
    Manifest {
        name: String,
        json: String,
        /// Mounts besides those in the manifest.
        extra_mounts: Vec<VolumeMount>,
    },
}

/// The contents of a [`PodContainer`].
#[verifier::ext_equal]
pub enum PodContainerView {
    Own { container: ContainerView },
    Vector { sidecar: VectorSidecarView },
    Manifest { name: Seq<char>, json: Seq<char>, extra_mounts: Seq<VolumeMountView> },
}

impl DeepView for PodContainer {
    type V = PodContainerView;

    open spec fn deep_view(&self) -> PodContainerView {
        match self {
            PodContainer::Own { container } => PodContainerView::Own {
                container: container.deep_view(),
            },
            PodContainer::Vector { sidecar } => PodContainerView::Vector {
                sidecar: sidecar.deep_view(),
            },
            PodContainer::Manifest { name, json, extra_mounts } => PodContainerView::Manifest {
                name: name.deep_view(),
                json: json.deep_view(),
                extra_mounts: extra_mounts.deep_view(),
            },
        }
    }
}

impl Copied for PodContainer {
    fn copied(&self) -> (copy: PodContainer) {
        match self {
            PodContainer::Own { container } => PodContainer::Own {
                container: container.copied(),
            },
            PodContainer::Vector { sidecar } => PodContainer::Vector {
                sidecar: sidecar.copied(),
            },
            PodContainer::Manifest { name, json, extra_mounts } => PodContainer::Manifest {
                name: name.copied(),
                json: json.copied(),
                extra_mounts: extra_mounts.copied(),
            },
        }
    }
}

/// A condition on one label.
#[derive(Debug, PartialEq, Eq)]
pub struct LabelSelectorRequirement {
    pub key: String,
    pub operator: String,
    pub values: Option<Vec<String>>,
}

/// The contents of a [`LabelSelectorRequirement`].
#[verifier::ext_equal]
pub struct LabelSelectorRequirementView {
    pub key: Seq<char>,
    pub operator: Seq<char>,
    pub values: Option<Seq<Seq<char>>>,
}

impl DeepView for LabelSelectorRequirement {
    type V = LabelSelectorRequirementView;

    open spec fn deep_view(&self) -> LabelSelectorRequirementView {
        LabelSelectorRequirementView {
            key: self.key.deep_view(),
            operator: self.operator.deep_view(),
            values: self.values.deep_view(),
        }
    }
}

impl Copied for LabelSelectorRequirement {
    fn copied(&self) -> (copy: LabelSelectorRequirement) {
        LabelSelectorRequirement {
            key: self.key.copied(),
            operator: self.operator.copied(),
            values: self.values.copied(),
        }
    }
}

/// A choice of objects by their labels.
#[derive(Debug, PartialEq, Eq)]
pub struct LabelSelector {
    pub match_labels: Option<StringMap>,
    pub match_expressions: Option<Vec<LabelSelectorRequirement>>,
}

/// The contents of a [`LabelSelector`].
#[verifier::ext_equal]
pub struct LabelSelectorView {
    pub match_labels: Option<Map<Seq<char>, Seq<char>>>,
    pub match_expressions: Option<Seq<LabelSelectorRequirementView>>,
}

impl DeepView for LabelSelector {
    type V = LabelSelectorView;

    open spec fn deep_view(&self) -> LabelSelectorView {
        LabelSelectorView {
            match_labels: self.match_labels.deep_view(),
            match_expressions: self.match_expressions.deep_view(),
        }
    }
}

impl Copied for LabelSelector {
    fn copied(&self) -> (copy: LabelSelector) {
        LabelSelector {
            match_labels: self.match_labels.copied(),
            match_expressions: self.match_expressions.copied(),
        }
    }
}

/// A preference for (or against) nodes next to pods with given labels.
#[derive(Debug, PartialEq, Eq)]
pub struct WeightedPodAffinityTerm {
    pub weight: i32,
    pub match_labels: StringMap,
    pub topology_key: String,
}

/// The contents of a [`WeightedPodAffinityTerm`].
#[verifier::ext_equal]
pub struct WeightedPodAffinityTermView {
    pub weight: i32,
    pub match_labels: Map<Seq<char>, Seq<char>>,
    pub topology_key: Seq<char>,
}

impl DeepView for WeightedPodAffinityTerm {
    type V = WeightedPodAffinityTermView;

    open spec fn deep_view(&self) -> WeightedPodAffinityTermView {
        WeightedPodAffinityTermView {
            weight: self.weight.deep_view(),
            match_labels: self.match_labels.deep_view(),
            topology_key: self.topology_key.deep_view(),
        }
    }
}

impl Copied for WeightedPodAffinityTerm {
    fn copied(&self) -> (copy: WeightedPodAffinityTerm) {
        WeightedPodAffinityTerm {
            weight: self.weight,
            match_labels: self.match_labels.copied(),
            topology_key: self.topology_key.copied(),
        }
    }
}

/// Which pods a pod should keep away from.
#[derive(Debug, PartialEq, Eq)]
pub struct PodAntiAffinity {
    pub preferred_during_scheduling_ignored_during_execution: Option<Vec<WeightedPodAffinityTerm>>,
}

/// The contents of a [`PodAntiAffinity`].
#[verifier::ext_equal]
pub struct PodAntiAffinityView {
    pub preferred_during_scheduling_ignored_during_execution: Option<Seq<WeightedPodAffinityTermView>>,
}

impl DeepView for PodAntiAffinity {
    type V = PodAntiAffinityView;

    open spec fn deep_view(&self) -> PodAntiAffinityView {
        PodAntiAffinityView {
            preferred_during_scheduling_ignored_during_execution: self
                .preferred_during_scheduling_ignored_during_execution
                .deep_view(),
        }
    }
}

impl Copied for PodAntiAffinity {
    fn copied(&self) -> (copy: PodAntiAffinity) {
        PodAntiAffinity {
            preferred_during_scheduling_ignored_during_execution: self
                .preferred_during_scheduling_ignored_during_execution
                .copied(),
        }
    }
}

/// Which nodes a pod may run on.
#[derive(Debug, PartialEq, Eq)]
pub struct NodeAffinity {
    /// The conditions of the one term that a node has to meet.
    pub required_during_scheduling_ignored_during_execution: Option<Vec<LabelSelectorRequirement>>,
}

/// The contents of a [`NodeAffinity`].
#[verifier::ext_equal]
pub struct NodeAffinityView {
    pub required_during_scheduling_ignored_during_execution: Option<Seq<LabelSelectorRequirementView>>,
}

impl DeepView for NodeAffinity {
    type V = NodeAffinityView;

    open spec fn deep_view(&self) -> NodeAffinityView {
        NodeAffinityView {
            required_during_scheduling_ignored_during_execution: self
                .required_during_scheduling_ignored_during_execution
                .deep_view(),
        }
    }
}

impl Copied for NodeAffinity {
    fn copied(&self) -> (copy: NodeAffinity) {
        NodeAffinity {
            required_during_scheduling_ignored_during_execution: self
                .required_during_scheduling_ignored_during_execution
                .copied(),
        }
    }
}

/// Where the pods of a role group are scheduled.
#[derive(Debug, PartialEq, Eq)]
pub struct StackableAffinity {
    /// As written in a manifest.
    pub pod_affinity: Option<String>,
    pub pod_anti_affinity: Option<PodAntiAffinity>,
    pub node_affinity: Option<NodeAffinity>,
    pub node_selector: Option<StringMap>,
}

/// The contents of a [`StackableAffinity`].
#[verifier::ext_equal]
pub struct StackableAffinityView {
    pub pod_affinity: Option<Seq<char>>,
    pub pod_anti_affinity: Option<PodAntiAffinityView>,
    pub node_affinity: Option<NodeAffinityView>,
    pub node_selector: Option<Map<Seq<char>, Seq<char>>>,
}

impl DeepView for StackableAffinity {
    type V = StackableAffinityView;

    open spec fn deep_view(&self) -> StackableAffinityView {
        StackableAffinityView {
            pod_affinity: self.pod_affinity.deep_view(),
            pod_anti_affinity: self.pod_anti_affinity.deep_view(),
            node_affinity: self.node_affinity.deep_view(),
            node_selector: self.node_selector.deep_view(),
        }
    }
}

impl Copied for StackableAffinity {
    fn copied(&self) -> (copy: StackableAffinity) {
        StackableAffinity {
            pod_affinity: self.pod_affinity.copied(),
            pod_anti_affinity: self.pod_anti_affinity.copied(),
            node_affinity: self.node_affinity.copied(),
            node_selector: self.node_selector.copied(),
        }
    }
}

/// The template of the pods of a workload.
#[derive(Debug, PartialEq, Eq)]
pub struct PodTemplate {
    pub metadata: ObjectMeta,
    pub containers: Vec<PodContainer>,
    pub init_containers: Vec<PodContainer>,
    pub volumes: Vec<Volume>,
    pub affinity: Option<StackableAffinity>,
    pub service_account_name: Option<String>,
    pub fs_group: Option<i64>,
    pub image_pull_secrets: Vec<String>,
    pub restart_policy: Option<String>,
    pub termination_grace_period_seconds: Option<i64>,
    /// The overrides of the user, as written in a manifest, each merged over what came before it.
    pub overrides: Vec<String>,
}

/// The contents of a [`PodTemplate`].
#[verifier::ext_equal]
pub struct PodTemplateView {
    pub metadata: ObjectMetaView,
    pub containers: Seq<PodContainerView>,
    pub init_containers: Seq<PodContainerView>,
    pub volumes: Seq<VolumeView>,
    pub affinity: Option<StackableAffinityView>,
    pub service_account_name: Option<Seq<char>>,
    pub fs_group: Option<i64>,
    pub image_pull_secrets: Seq<Seq<char>>,
    pub restart_policy: Option<Seq<char>>,
    pub termination_grace_period_seconds: Option<i64>,
    pub overrides: Seq<Seq<char>>,
}

impl DeepView for PodTemplate {
    type V = PodTemplateView;

    open spec fn deep_view(&self) -> PodTemplateView {
        PodTemplateView {
            metadata: self.metadata.deep_view(),
            containers: self.containers.deep_view(),
            init_containers: self.init_containers.deep_view(),
            volumes: self.volumes.deep_view(),
            affinity: self.affinity.deep_view(),
            service_account_name: self.service_account_name.deep_view(),
            fs_group: self.fs_group.deep_view(),
            image_pull_secrets: self.image_pull_secrets.deep_view(),
            restart_policy: self.restart_policy.deep_view(),
            termination_grace_period_seconds: self.termination_grace_period_seconds.deep_view(),
            overrides: self.overrides.deep_view(),
        }
    }
}

impl Copied for PodTemplate {
    fn copied(&self) -> (copy: PodTemplate) {
        PodTemplate {
            metadata: self.metadata.copied(),
            containers: self.containers.copied(),
            init_containers: self.init_containers.copied(),
            volumes: self.volumes.copied(),
            affinity: self.affinity.copied(),
            service_account_name: self.service_account_name.copied(),
            fs_group: self.fs_group.copied(),
            image_pull_secrets: self.image_pull_secrets.copied(),
            restart_policy: self.restart_policy.copied(),
            termination_grace_period_seconds: self.termination_grace_period_seconds.copied(),
            overrides: self.overrides.copied(),
        }
    }
}

/// A claim that every pod of a StatefulSet gets its own copy of.
#[derive(Debug, PartialEq, Eq)]
pub enum VolumeClaimTemplate {
    /// Storage of one repository.
    Repository {
        name: String,
        access_modes: Vec<String>,
        capacity: Option<String>,
        storage_class: Option<String>,
        selectors: Option<LabelSelector>,
    },
    /// The volume through which the pods join a listener.
    Listener {
        name: String,
        listener_name: String,
        labels: StringMap,
    },
}

/// The contents of a [`VolumeClaimTemplate`].
#[verifier::ext_equal]
pub enum VolumeClaimTemplateView {
    Repository {
        name: Seq<char>,
        access_modes: Seq<Seq<char>>,
        capacity: Option<Seq<char>>,
        storage_class: Option<Seq<char>>,
        selectors: Option<LabelSelectorView>,
    },
    Listener { name: Seq<char>, listener_name: Seq<char>, labels: Map<Seq<char>, Seq<char>> },
}

impl DeepView for VolumeClaimTemplate {
    type V = VolumeClaimTemplateView;

    open spec fn deep_view(&self) -> VolumeClaimTemplateView {
        match self {
            VolumeClaimTemplate::Repository {
                name,
                access_modes,
                capacity,
                storage_class,
                selectors,
            } => VolumeClaimTemplateView::Repository {
                name: name.deep_view(),
                access_modes: access_modes.deep_view(),
                capacity: capacity.deep_view(),
                storage_class: storage_class.deep_view(),
                selectors: selectors.deep_view(),
            },
            VolumeClaimTemplate::Listener { name, listener_name, labels } =>
                VolumeClaimTemplateView::Listener {
                    name: name.deep_view(),
                    listener_name: listener_name.deep_view(),
                    labels: labels.deep_view(),
                },
        }
    }
}

impl Copied for VolumeClaimTemplate {
    fn copied(&self) -> (copy: VolumeClaimTemplate) {
        match self {
            VolumeClaimTemplate::Repository {
                name,
                access_modes,
                capacity,
                storage_class,
                selectors,
            } => VolumeClaimTemplate::Repository {
                name: name.copied(),
                access_modes: access_modes.copied(),
                capacity: capacity.copied(),
                storage_class: storage_class.copied(),
                selectors: selectors.copied(),
            },
            VolumeClaimTemplate::Listener { name, listener_name, labels } =>
                VolumeClaimTemplate::Listener {
                    name: name.copied(),
                    listener_name: listener_name.copied(),
                    labels: labels.copied(),
                },
        }
    }
}

/// A StatefulSet.
#[derive(Debug, PartialEq, Eq)]
pub struct StatefulSet {
    pub metadata: ObjectMeta,
    pub pod_management_policy: Option<String>,
    pub replicas: Option<i32>,
    pub selector: StringMap,
    pub service_name: Option<String>,
    pub template: PodTemplate,
    pub update_strategy: Option<String>,
    pub volume_claim_templates: Vec<VolumeClaimTemplate>,
}

/// The contents of a [`StatefulSet`].
#[verifier::ext_equal]
pub struct StatefulSetView {
    pub metadata: ObjectMetaView,
    pub pod_management_policy: Option<Seq<char>>,
    pub replicas: Option<i32>,
    pub selector: Map<Seq<char>, Seq<char>>,
    pub service_name: Option<Seq<char>>,
    pub template: PodTemplateView,
    pub update_strategy: Option<Seq<char>>,
    pub volume_claim_templates: Seq<VolumeClaimTemplateView>,
}

impl DeepView for StatefulSet {
    type V = StatefulSetView;

    open spec fn deep_view(&self) -> StatefulSetView {
        StatefulSetView {
            metadata: self.metadata.deep_view(),
            pod_management_policy: self.pod_management_policy.deep_view(),
            replicas: self.replicas.deep_view(),
            selector: self.selector.deep_view(),
            service_name: self.service_name.deep_view(),
            template: self.template.deep_view(),
            update_strategy: self.update_strategy.deep_view(),
            volume_claim_templates: self.volume_claim_templates.deep_view(),
        }
    }
}

impl Copied for StatefulSet {
    fn copied(&self) -> (copy: StatefulSet) {
        StatefulSet {
            metadata: self.metadata.copied(),
            pod_management_policy: self.pod_management_policy.copied(),
            replicas: self.replicas.copied(),
            selector: self.selector.copied(),
            service_name: self.service_name.copied(),
            template: self.template.copied(),
            update_strategy: self.update_strategy.copied(),
            volume_claim_templates: self.volume_claim_templates.copied(),
        }
    }
}

/// A port of a Service.
#[derive(Debug, PartialEq, Eq)]
pub struct ServicePort {
    pub name: Option<String>,
    pub port: i32,
    pub protocol: Option<String>,
}

/// The contents of a [`ServicePort`].
#[verifier::ext_equal]
pub struct ServicePortView {
    pub name: Option<Seq<char>>,
    pub port: i32,
    pub protocol: Option<Seq<char>>,
}

impl DeepView for ServicePort {
    type V = ServicePortView;

    open spec fn deep_view(&self) -> ServicePortView {
        ServicePortView {
            name: self.name.deep_view(),
            port: self.port.deep_view(),
            protocol: self.protocol.deep_view(),
        }
    }
}

impl Copied for ServicePort {
    fn copied(&self) -> (copy: ServicePort) {
        ServicePort {
            name: self.name.copied(),
            port: self.port,
            protocol: self.protocol.copied(),
        }
    }
}

/// A Service.
#[derive(Debug, PartialEq, Eq)]
pub struct Service {
    pub metadata: ObjectMeta,
    pub type_: Option<String>,
    pub cluster_ip: Option<String>,
    pub ports: Vec<ServicePort>,
    pub selector: StringMap,
    pub publish_not_ready_addresses: Option<bool>,
}

/// The contents of a [`Service`].
#[verifier::ext_equal]
pub struct ServiceView {
    pub metadata: ObjectMetaView,
    pub type_: Option<Seq<char>>,
    pub cluster_ip: Option<Seq<char>>,
    pub ports: Seq<ServicePortView>,
    pub selector: Map<Seq<char>, Seq<char>>,
    pub publish_not_ready_addresses: Option<bool>,
}

impl DeepView for Service {
    type V = ServiceView;

    open spec fn deep_view(&self) -> ServiceView {
        ServiceView {
            metadata: self.metadata.deep_view(),
            type_: self.type_.deep_view(),
            cluster_ip: self.cluster_ip.deep_view(),
            ports: self.ports.deep_view(),
            selector: self.selector.deep_view(),
            publish_not_ready_addresses: self.publish_not_ready_addresses.deep_view(),
        }
    }
}

impl Copied for Service {
    fn copied(&self) -> (copy: Service) {
        Service {
            metadata: self.metadata.copied(),
            type_: self.type_.copied(),
            cluster_ip: self.cluster_ip.copied(),
            ports: self.ports.copied(),
            selector: self.selector.copied(),
            publish_not_ready_addresses: self.publish_not_ready_addresses.copied(),
        }
    }
}

/// A port of a Listener.
#[derive(Debug, PartialEq, Eq)]
pub struct ListenerPort {
    pub name: String,
    pub port: i32,
    pub protocol: Option<String>,
}

/// The contents of a [`ListenerPort`].
#[verifier::ext_equal]
pub struct ListenerPortView {
    pub name: Seq<char>,
    pub port: i32,
    pub protocol: Option<Seq<char>>,
}

impl DeepView for ListenerPort {
    type V = ListenerPortView;

    open spec fn deep_view(&self) -> ListenerPortView {
        ListenerPortView {
            name: self.name.deep_view(),
            port: self.port.deep_view(),
            protocol: self.protocol.deep_view(),
        }
    }
}

impl Copied for ListenerPort {
    fn copied(&self) -> (copy: ListenerPort) {
        ListenerPort {
            name: self.name.copied(),
            port: self.port,
            protocol: self.protocol.copied(),
        }
    }
}

/// A Listener.
#[derive(Debug, PartialEq, Eq)]
pub struct Listener {
    pub metadata: ObjectMeta,
    pub class_name: Option<String>,
    pub ports: Vec<ListenerPort>,
}

/// The contents of a [`Listener`].
#[verifier::ext_equal]
pub struct ListenerView {
    pub metadata: ObjectMetaView,
    pub class_name: Option<Seq<char>>,
    pub ports: Seq<ListenerPortView>,
}

impl DeepView for Listener {
    type V = ListenerView;

    open spec fn deep_view(&self) -> ListenerView {
        ListenerView {
            metadata: self.metadata.deep_view(),
            class_name: self.class_name.deep_view(),
            ports: self.ports.deep_view(),
        }
    }
}

impl Copied for Listener {
    fn copied(&self) -> (copy: Listener) {
        Listener {
            metadata: self.metadata.copied(),
            class_name: self.class_name.copied(),
            ports: self.ports.copied(),
        }
    }
}

/// A PodDisruptionBudget.
#[derive(Debug, PartialEq, Eq)]
pub struct PodDisruptionBudget {
    pub metadata: ObjectMeta,
    pub max_unavailable: Option<u16>,
    pub selector: StringMap,
}

/// The contents of a [`PodDisruptionBudget`].
#[verifier::ext_equal]
pub struct PodDisruptionBudgetView {
    pub metadata: ObjectMetaView,
    pub max_unavailable: Option<u16>,
    pub selector: Map<Seq<char>, Seq<char>>,
}

impl DeepView for PodDisruptionBudget {
    type V = PodDisruptionBudgetView;

    open spec fn deep_view(&self) -> PodDisruptionBudgetView {
        PodDisruptionBudgetView {
            metadata: self.metadata.deep_view(),
            max_unavailable: self.max_unavailable.deep_view(),
            selector: self.selector.deep_view(),
        }
    }
}

impl Copied for PodDisruptionBudget {
    fn copied(&self) -> (copy: PodDisruptionBudget) {
        PodDisruptionBudget {
            metadata: self.metadata.copied(),
            max_unavailable: self.max_unavailable.copied(),
            selector: self.selector.copied(),
        }
    }
}

/// A ServiceAccount.
#[derive(Debug, PartialEq, Eq)]
pub struct ServiceAccount {
    pub metadata: ObjectMeta,
}

/// The contents of a [`ServiceAccount`].
#[verifier::ext_equal]
pub struct ServiceAccountView {
    pub metadata: ObjectMetaView,
}

impl DeepView for ServiceAccount {
    type V = ServiceAccountView;

    open spec fn deep_view(&self) -> ServiceAccountView {
        ServiceAccountView {
            metadata: self.metadata.deep_view(),
        }
    }
}

impl Copied for ServiceAccount {
    fn copied(&self) -> (copy: ServiceAccount) {
        ServiceAccount {
            metadata: self.metadata.copied(),
        }
    }
}

/// The binding of a ClusterRole to a ServiceAccount.
#[derive(Debug, PartialEq, Eq)]
pub struct RoleBinding {
    pub metadata: ObjectMeta,
    pub cluster_role_name: String,
    pub service_account_name: String,
}

/// The contents of a [`RoleBinding`].
#[verifier::ext_equal]
pub struct RoleBindingView {
    pub metadata: ObjectMetaView,
    pub cluster_role_name: Seq<char>,
    pub service_account_name: Seq<char>,
}

impl DeepView for RoleBinding {
    type V = RoleBindingView;

    open spec fn deep_view(&self) -> RoleBindingView {
        RoleBindingView {
            metadata: self.metadata.deep_view(),
            cluster_role_name: self.cluster_role_name.deep_view(),
            service_account_name: self.service_account_name.deep_view(),
        }
    }
}

impl Copied for RoleBinding {
    fn copied(&self) -> (copy: RoleBinding) {
        RoleBinding {
            metadata: self.metadata.copied(),
            cluster_role_name: self.cluster_role_name.copied(),
            service_account_name: self.service_account_name.copied(),
        }
    }
}

/// A Secret.
#[derive(Debug, PartialEq, Eq)]
pub struct Secret {
    pub metadata: ObjectMeta,
    /// The stored contents, as the API server returns them.
    pub data: Option<Vec<(String, Vec<u8>)>>,
    /// Contents to be stored; write-only.
    pub string_data: Option<StringMap>,
}

/// The contents of a [`Secret`].
#[verifier::ext_equal]
pub struct SecretView {
    pub metadata: ObjectMetaView,
    pub data: Option<Seq<(Seq<char>, Seq<u8>)>>,
    pub string_data: Option<Map<Seq<char>, Seq<char>>>,
}

impl DeepView for Secret {
    type V = SecretView;

    open spec fn deep_view(&self) -> SecretView {
        SecretView {
            metadata: self.metadata.deep_view(),
            data: self.data.deep_view(),
            string_data: self.string_data.deep_view(),
        }
    }
}

impl Copied for Secret {
    fn copied(&self) -> (copy: Secret) {
        Secret {
            metadata: self.metadata.copied(),
            data: self.data.copied(),
            string_data: self.string_data.copied(),
        }
    }
}

/// A ConfigMap.
#[derive(Debug, PartialEq, Eq)]
pub struct ConfigMap {
    pub metadata: ObjectMeta,
    pub data: StringMap,
}

/// The contents of a [`ConfigMap`].
#[verifier::ext_equal]
pub struct ConfigMapView {
    pub metadata: ObjectMetaView,
    pub data: Map<Seq<char>, Seq<char>>,
}

impl DeepView for ConfigMap {
    type V = ConfigMapView;

    open spec fn deep_view(&self) -> ConfigMapView {
        ConfigMapView {
            metadata: self.metadata.deep_view(),
            data: self.data.deep_view(),
        }
    }
}

impl Copied for ConfigMap {
    fn copied(&self) -> (copy: ConfigMap) {
        ConfigMap {
            metadata: self.metadata.copied(),
            data: self.data.copied(),
        }
    }
}

/// A Job.
#[derive(Debug, PartialEq, Eq)]
pub struct Job {
    pub metadata: ObjectMeta,
    pub backoff_limit: Option<i32>,
    pub ttl_seconds_after_finished: Option<i32>,
    pub template: PodTemplate,
}

/// The contents of a [`Job`].
#[verifier::ext_equal]
pub struct JobView {
    pub metadata: ObjectMetaView,
    pub backoff_limit: Option<i32>,
    pub ttl_seconds_after_finished: Option<i32>,
    pub template: PodTemplateView,
}

impl DeepView for Job {
    type V = JobView;

    open spec fn deep_view(&self) -> JobView {
        JobView {
            metadata: self.metadata.deep_view(),
            backoff_limit: self.backoff_limit.deep_view(),
            ttl_seconds_after_finished: self.ttl_seconds_after_finished.deep_view(),
            template: self.template.deep_view(),
        }
    }
}

impl Copied for Job {
    fn copied(&self) -> (copy: Job) {
        Job {
            metadata: self.metadata.copied(),
            backoff_limit: self.backoff_limit.copied(),
            ttl_seconds_after_finished: self.ttl_seconds_after_finished.copied(),
            template: self.template.copied(),
        }
    }
}

} // verus!
