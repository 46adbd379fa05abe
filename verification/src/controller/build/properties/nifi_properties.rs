//! Builder for `nifi.properties`.

use crate::contents::Copied;
use crate::controller::build::properties;
use crate::controller::build::properties::nifi_sections;
use crate::controller::build::properties::nifi_sections::{
    add_cluster_node, add_content, add_core, add_curator_election, add_flow_archive,
    add_flow_election, add_flowfile, add_kubernetes_election, add_provenance, add_provenance_tuning,
    add_python, add_security, add_state_management, add_status, add_web_address, add_web_interface,
    add_web_server, add_zookeeper,
};
use crate::controller::build::properties::{format_properties, Error};
use crate::controller::{
    NifiRoleGroupConfig, NifiRoleGroupConfigView, ValidatedCluster, ValidatedClusterView,
};
use crate::crd::sensitive_properties::NifiSensitiveKeyAlgorithm;
use crate::crd::storage::NifiRepository;
use crate::crd::{
    NifiClusteringBackend, NifiClusteringBackendView, NifiStorageConfig, NifiStorageConfigView,
};
use crate::ordered_map::{OrderedMap, StringMap};
use crate::security::authentication::{NifiAuthenticationConfig, NifiAuthenticationConfigView};
use crate::text;
use crate::text::{concat2, has_prefix, number_text};
use vstd::prelude::*;

verus! {

/// The quotas of the repositories, as NiFi writes sizes. A quota is missing where it cannot be
/// calculated from the capacity of the repository.
#[derive(Debug, PartialEq, Eq)]
pub struct StorageQuotas {
    /// The quota of the archive of the flow, in the FlowFile repository.
    pub flow_archive: Option<String>,
    /// The quota of the provenance repository.
    pub provenance: Option<String>,
}

/// The contents of [`StorageQuotas`].
pub struct StorageQuotasView {
    pub flow_archive: Option<Seq<char>>,
    pub provenance: Option<Seq<char>>,
}

impl DeepView for StorageQuotas {
    type V = StorageQuotasView;

    open spec fn deep_view(&self) -> StorageQuotasView {
        StorageQuotasView {
            flow_archive: self.flow_archive.deep_view(),
            provenance: self.provenance.deep_view(),
        }
    }
}

/// What the file is made from.
#[derive(Debug, PartialEq, Eq)]
pub struct NifiSettings {
    pub product_version: String,
    pub storage: NifiStorageConfig,
    pub clustering_backend: NifiClusteringBackend,
    pub sensitive_properties_algorithm: NifiSensitiveKeyAlgorithm,
    pub authentication: NifiAuthenticationConfig,
    /// Where the custom components of the user are.
    pub git_content_folders: Vec<String>,
    /// The properties of the user.
    pub overrides: StringMap,
}

/// The contents of a [`NifiSettings`].
#[verifier::ext_equal]
pub struct NifiSettingsView {
    pub product_version: Seq<char>,
    pub storage: NifiStorageConfigView,
    pub clustering_backend: NifiClusteringBackendView,
    pub sensitive_properties_algorithm: NifiSensitiveKeyAlgorithm,
    pub authentication: NifiAuthenticationConfigView,
    pub git_content_folders: Seq<Seq<char>>,
    pub overrides: Map<Seq<char>, Seq<char>>,
}

impl DeepView for NifiSettings {
    type V = NifiSettingsView;

    open spec fn deep_view(&self) -> NifiSettingsView {
        NifiSettingsView {
            product_version: self.product_version.deep_view(),
            storage: self.storage.deep_view(),
            clustering_backend: self.clustering_backend.deep_view(),
            sensitive_properties_algorithm: self.sensitive_properties_algorithm.deep_view(),
            authentication: self.authentication.deep_view(),
            git_content_folders: self.git_content_folders.deep_view(),
            overrides: self.overrides.deep_view(),
        }
    }
}

/// What the file of a role group is made from.
pub open spec fn settings_of(
    cluster: ValidatedClusterView,
    rg: NifiRoleGroupConfigView,
) -> NifiSettingsView {
    NifiSettingsView {
        product_version: cluster.image.product_version,
        storage: rg.config.resources.storage,
        clustering_backend: cluster.cluster_config.clustering_backend,
        sensitive_properties_algorithm: cluster.cluster_config.sensitive_properties.algorithm,
        authentication: cluster.cluster_config.authentication,
        git_content_folders: rg.config.git_sync_resources.git_content_folders,
        overrides: rg.config_overrides.nifi_properties,
    }
}

/// Whether a version is a 1.x version.
pub open spec fn is_nifi_1(product_version: Seq<char>) -> bool {
    "1."@.is_prefix_of(product_version)
}

/// Where the flow is kept. NiFi 1.x keeps it in two formats.
pub open spec fn flow_file_properties(
    properties: Map<Seq<char>, Seq<char>>,
    nifi_1: bool,
) -> Map<Seq<char>, Seq<char>> {
    let directory = NifiRepository::Database.directory();
    if nifi_1 {
        properties.insert("nifi.flow.configuration.file"@, directory + "/flow.xml.gz"@).insert(
            "nifi.flow.configuration.json.file"@,
            directory + "/flow.json.gz"@,
        )
    } else {
        properties.insert("nifi.flow.configuration.file"@, directory + "/flow.json.gz"@)
    }
}

/// Where the flow is kept.
fn add_flow_file(properties: &mut StringMap, nifi_1: bool)
    ensures
        final(properties)@ == flow_file_properties(old(properties)@, nifi_1),
{
    let directory = NifiRepository::Database.mount_path();
    if nifi_1 {
        properties.put(
            "nifi.flow.configuration.file",
            concat2(directory.as_str(), "/flow.xml.gz").as_str(),
        );
        properties.put(
            "nifi.flow.configuration.json.file",
            concat2(directory.as_str(), "/flow.json.gz").as_str(),
        );
    } else {
        properties.put(
            "nifi.flow.configuration.file",
            concat2(directory.as_str(), "/flow.json.gz").as_str(),
        );
    }
}

/// A property that is set where a repository has a capacity.
pub open spec fn with_quota(
    properties: Map<Seq<char>, Seq<char>>,
    key: Seq<char>,
    capacity: Option<Seq<char>>,
    quota: Option<Seq<char>>,
) -> Map<Seq<char>, Seq<char>> {
    match capacity {
        Some(_) => properties.insert(key, quota.unwrap()),
        None => properties,
    }
}

/// The properties of the backend that manages the cluster.
pub open spec fn backend_properties(
    properties: Map<Seq<char>, Seq<char>>,
    backend: NifiClusteringBackendView,
) -> Map<Seq<char>, Seq<char>> {
    match backend {
        NifiClusteringBackendView::ZooKeeper { .. } => nifi_sections::zookeeper_properties(
            nifi_sections::curator_election_properties(properties),
        ),
        NifiClusteringBackendView::Kubernetes => nifi_sections::kubernetes_election_properties(
            properties,
        ),
    }
}

/// The properties of the OpenID Connect provider, where there is one.
pub open spec fn oidc_properties(
    properties: Map<Seq<char>, Seq<char>>,
    authentication: NifiAuthenticationConfigView,
) -> Map<Seq<char>, Seq<char>> {
    match authentication {
        NifiAuthenticationConfigView::Oidc { provider } => properties.union_prefer_right(
            provider.properties.unwrap(),
        ),
        _ => properties,
    }
}

/// The directories in which NiFi looks for custom components, numbered from zero.
pub open spec fn custom_component_properties(
    properties: Map<Seq<char>, Seq<char>>,
    folders: Seq<Seq<char>>,
) -> Map<Seq<char>, Seq<char>>
    decreases folders.len(),
{
    if folders.len() == 0 {
        properties
    } else {
        let number = text::decimal((folders.len() - 1) as nat);
        custom_component_properties(properties, folders.drop_last()).insert(
            "nifi.python.extensions.source.directory."@ + number,
            folders.last(),
        ).insert("nifi.nar.library.directory."@ + number, folders.last())
    }
}

/// The directories in which NiFi looks for custom components.
fn add_custom_components(properties: &mut StringMap, folders: &Vec<String>)
    ensures
        final(properties)@ == custom_component_properties(
            old(properties)@,
            folders.deep_view(),
        ),
{
    let ghost before = properties@;
    let ghost all = folders.deep_view();
    let mut i: usize = 0;
    proof {
        assert(all.take(0) =~= Seq::empty());
    }
    while i < folders.len()
        invariant
            i <= folders.len(),
            all == folders.deep_view(),
            properties@ == custom_component_properties(before, all.take(i as int)),
        decreases folders.len() - i,
    {
        let number = number_text(i as u64);
        let python_key = concat2("nifi.python.extensions.source.directory.", number.as_str());
        let nar_key = concat2("nifi.nar.library.directory.", number.as_str());
        properties.put(python_key.as_str(), folders[i].as_str());
        properties.put(nar_key.as_str(), folders[i].as_str());
        proof {
            let next = all.take(i + 1);
            assert(next.drop_last() =~= all.take(i as int));
            assert(next.last() == folders[i as int]@);
        }
        i = i + 1;
    }
    proof {
        assert(all.take(i as int) =~= all);
    }
}

/// The properties up to the network addresses.
pub open spec fn storage_properties(
    settings: NifiSettingsView,
    quotas: StorageQuotasView,
) -> Map<Seq<char>, Seq<char>> {
    let storage = settings.storage;
    let flow = with_quota(
        nifi_sections::flow_archive_properties(
            flow_file_properties(Map::empty(), is_nifi_1(settings.product_version)),
        ),
        "nifi.flow.configuration.archive.max.storage"@,
        storage.flowfile_repo.capacity,
        quotas.flow_archive,
    );
    let state = nifi_sections::state_management_properties(
        nifi_sections::core_properties(flow),
        settings.clustering_backend.state_provider_id(),
    );
    let provenance = with_quota(
        nifi_sections::provenance_properties(
            nifi_sections::content_properties(
                nifi_sections::flowfile_properties(state),
                "3 days"@,
            ),
        ),
        "nifi.provenance.repository.max.storage.size"@,
        storage.provenance_repo.capacity,
        quotas.provenance,
    );
    nifi_sections::status_properties(nifi_sections::provenance_tuning_properties(provenance))
}

/// The properties of network addresses and of security.
pub open spec fn access_properties(
    properties: Map<Seq<char>, Seq<char>>,
    settings: NifiSettingsView,
    proxy_hosts: Seq<char>,
) -> Map<Seq<char>, Seq<char>> {
    oidc_properties(
        nifi_sections::security_properties(
            nifi_sections::web_server_properties(
                nifi_sections::web_interface_properties(
                    nifi_sections::web_address_properties(properties),
                ),
                proxy_hosts,
            ),
            settings.sensitive_properties_algorithm.text(),
        ),
        settings.authentication,
    )
}

/// The properties of the cluster and of custom components.
pub open spec fn membership_properties(
    properties: Map<Seq<char>, Seq<char>>,
    settings: NifiSettingsView,
) -> Map<Seq<char>, Seq<char>> {
    custom_component_properties(
        nifi_sections::python_properties(
            backend_properties(
                nifi_sections::flow_election_properties(
                    nifi_sections::cluster_node_properties(properties),
                ),
                settings.clustering_backend,
            ),
        ),
        settings.git_content_folders,
    )
}

/// The properties that the operator sets.
pub open spec fn operator_properties(
    settings: NifiSettingsView,
    proxy_hosts: Seq<char>,
    quotas: StorageQuotasView,
) -> Map<Seq<char>, Seq<char>> {
    membership_properties(
        access_properties(storage_properties(settings, quotas), settings, proxy_hosts),
        settings,
    )
}

/// All properties: those of the operator, and over them those of the user.
pub open spec fn nifi_properties(
    settings: NifiSettingsView,
    proxy_hosts: Seq<char>,
    quotas: StorageQuotasView,
) -> Map<Seq<char>, Seq<char>> {
    operator_properties(settings, proxy_hosts, quotas).union_prefer_right(
        settings.overrides,
    )
}

/// Whether the quota of a repository is needed and missing.
pub open spec fn quota_fails(capacity: Option<Seq<char>>, quota: Option<Seq<char>>) -> bool {
    capacity.is_some() && quota.is_none()
}

/// Whether OpenID Connect is used and its properties cannot be derived.
pub open spec fn oidc_fails(authentication: NifiAuthenticationConfigView) -> bool {
    match authentication {
        NifiAuthenticationConfigView::Oidc { provider } => provider.properties.is_none(),
        _ => false,
    }
}

/// Whether NiFi 1.x is to be managed by Kubernetes.
pub open spec fn zookeeper_missing(settings: NifiSettingsView) -> bool {
    is_nifi_1(settings.product_version)
        && settings.clustering_backend is Kubernetes
}

/// The first reason, if any, for which the file cannot be built.
pub open spec fn failure(
    settings: NifiSettingsView,
    quotas: StorageQuotasView,
) -> Option<Error> {
    let storage = settings.storage;
    if quota_fails(storage.flowfile_repo.capacity, quotas.flow_archive) {
        Some(Error::CalculateStorageQuota { repo: NifiRepository::Flowfile })
    } else if quota_fails(storage.provenance_repo.capacity, quotas.provenance) {
        Some(Error::CalculateStorageQuota { repo: NifiRepository::Provenance })
    } else if oidc_fails(settings.authentication) {
        Some(Error::GenerateOidcConfig)
    } else if zookeeper_missing(settings) {
        Some(Error::Nifi1RequiresZookeeper)
    } else {
        None
    }
}

/// Builds `nifi.properties`.
///
/// The quotas are the ones for the capacities of the FlowFile and the provenance repository.
pub fn build_file(settings: &NifiSettings, proxy_hosts: &str, quotas: &StorageQuotas) -> (result:
    Result<String, Error>)
    ensures
        match result {
            Ok(file) => failure(settings.deep_view(), quotas.deep_view()).is_none() && file@
                == properties::properties_text(
                nifi_properties(settings.deep_view(), proxy_hosts@, quotas.deep_view()),
            ),
            Err(error) => failure(settings.deep_view(), quotas.deep_view()) == Some(error),
        },
{
    let storage = &settings.storage;
    let nifi_1 = has_prefix(settings.product_version.as_str(), "1.");

    let mut properties: StringMap = OrderedMap::new();
    add_flow_file(&mut properties, nifi_1);
    add_flow_archive(&mut properties);
    if storage.flowfile_repo.capacity.is_some() {
        match &quotas.flow_archive {
            Some(quota) => {
                properties.put("nifi.flow.configuration.archive.max.storage", quota.as_str());
            },
            None => {
                return Err(Error::CalculateStorageQuota { repo: NifiRepository::Flowfile });
            },
        }
    }
    add_core(&mut properties);
    add_state_management(
        &mut properties,
        settings.clustering_backend.cluster_state_provider_id(),
    );
    add_flowfile(&mut properties);
    // The age of archived content is limited, so that the number of files in the archive is
    // bounded: NiFi scans them all when it starts.
    add_content(&mut properties, "3 days");
    add_provenance(&mut properties);
    if storage.provenance_repo.capacity.is_some() {
        match &quotas.provenance {
            Some(quota) => {
                properties.put("nifi.provenance.repository.max.storage.size", quota.as_str());
            },
            None => {
                return Err(Error::CalculateStorageQuota { repo: NifiRepository::Provenance });
            },
        }
    }
    add_provenance_tuning(&mut properties);
    add_status(&mut properties);
    add_web_address(&mut properties);
    add_web_interface(&mut properties);
    add_web_server(&mut properties, proxy_hosts);
    add_security(
        &mut properties,
        settings.sensitive_properties_algorithm.as_str(),
    );
    if let NifiAuthenticationConfig::Oidc { provider } = &settings.authentication {
        match &provider.properties {
            Some(oidc) => {
                properties.extend(oidc);
            },
            None => {
                return Err(Error::GenerateOidcConfig);
            },
        }
    }
    add_cluster_node(&mut properties);
    add_flow_election(&mut properties);
    match &settings.clustering_backend {
        NifiClusteringBackend::ZooKeeper { .. } => {
            add_curator_election(&mut properties);
            add_zookeeper(&mut properties);
        },
        NifiClusteringBackend::Kubernetes => {
            if nifi_1 {
                return Err(Error::Nifi1RequiresZookeeper);
            }
            add_kubernetes_election(&mut properties);
        },
    }
    // NiFi 1.x does not support Python components and ignores these properties.
    add_python(&mut properties);
    add_custom_components(&mut properties, &settings.git_content_folders);

    properties.extend(&settings.overrides);
    Ok(format_properties(&properties))
}

/// Builds `nifi.properties` of a role group.
pub fn build(
    cluster: &ValidatedCluster,
    rg: &NifiRoleGroupConfig,
    proxy_hosts: &str,
    quotas: &StorageQuotas,
) -> (result: Result<String, Error>)
    ensures
        match result {
            Ok(file) => failure(
                settings_of(cluster.deep_view(), rg.deep_view()),
                quotas.deep_view(),
            ).is_none() && file@ == properties::properties_text(
                nifi_properties(
                    settings_of(cluster.deep_view(), rg.deep_view()),
                    proxy_hosts@,
                    quotas.deep_view(),
                ),
            ),
            Err(error) => failure(
                settings_of(cluster.deep_view(), rg.deep_view()),
                quotas.deep_view(),
            ) == Some(error),
        },
{
    let settings = NifiSettings {
        product_version: cluster.image.product_version.copied(),
        storage: rg.config.resources.storage.copied(),
        clustering_backend: cluster.cluster_config.clustering_backend.copied(),
        sensitive_properties_algorithm: cluster.cluster_config.sensitive_properties.algorithm,
        authentication: cluster.cluster_config.authentication.copied(),
        git_content_folders: rg.config.git_sync_resources.git_content_folders.copied(),
        overrides: rg.config_overrides.nifi_properties.copied(),
    };
    build_file(&settings, proxy_hosts, quotas)
}

/// Settings of the user win over those of the operator, and all others stay as the operator sets
/// them.
pub proof fn law_overrides_win(
    settings: NifiSettingsView,
    proxy_hosts: Seq<char>,
    quotas: StorageQuotasView,
    key: Seq<char>,
)
    ensures
        settings.overrides.dom().contains(key) ==> nifi_properties(
            settings,
            proxy_hosts,
            quotas,
        ).dom().contains(key) && nifi_properties(settings, proxy_hosts, quotas)[key]
            == settings.overrides[key],
        !settings.overrides.dom().contains(key) ==> (nifi_properties(
            settings,
            proxy_hosts,
            quotas,
        ).dom().contains(key) <==> operator_properties(
            settings,
            proxy_hosts,
            quotas,
        ).dom().contains(key)),
        !settings.overrides.dom().contains(key) && nifi_properties(
            settings,
            proxy_hosts,
            quotas,
        ).dom().contains(key) ==> nifi_properties(settings, proxy_hosts, quotas)[key]
            == operator_properties(settings, proxy_hosts, quotas)[key],
{
}

/// NiFi 1.x cannot be managed by Kubernetes, whatever else is set.
pub proof fn law_nifi_1_needs_zookeeper(settings: NifiSettingsView, quotas: StorageQuotasView)
    requires
        is_nifi_1(settings.product_version),
        settings.clustering_backend is Kubernetes,
    ensures
        failure(settings, quotas).is_some(),
{
}

} // verus!
