//! Builders of the Kubernetes objects of a cluster.

use crate::controller;
use crate::controller::build::properties::product_logging;
use crate::controller::build::properties::product_logging::vector_config_file_content;
use crate::controller::build::properties::security_properties;
use crate::controller::build::resource::config_map;
use crate::controller::build::resource::config_map::{
    build_rolegroup_config_map_with, build_security_file, RoleGroupFiles, RoleGroupFilesView,
};
use crate::controller::build::resource::listener;
use crate::controller::build::resource::listener::{build_group_listener, group_listener_name};
use crate::controller::build::resource::node_pod;
use crate::controller::build::resource::node_pod::{ShellSnippets, ShellSnippetsView};
use crate::controller::build::resource::pdb;
use crate::controller::build::resource::pdb::build_pdb;
use crate::controller::build::resource::rbac;
use crate::controller::build::resource::rbac::{build_role_binding, build_service_account};
use crate::controller::build::resource::secret;
use crate::controller::build::resource::secret::{build_secrets_with, generate_password};
use crate::controller::build::resource::service;
use crate::controller::build::resource::service::{
    build_rolegroup_headless_service, build_rolegroup_metrics_service,
};
use crate::controller::build::resource::statefulset;
use crate::controller::build::resource::statefulset::build_node_rolegroup_statefulset;
use crate::controller::{
    KubernetesResources, KubernetesResourcesView, NifiRoleGroupConfig, NifiRoleGroupConfigView,
    ValidatedCluster, ValidatedClusterView,
};
use crate::crd::NifiRole;
use crate::framework::writer;
use crate::kubernetes::{
    ConfigMap, ConfigMapView, PodDisruptionBudget, PodDisruptionBudgetView, Service, ServiceView,
    StatefulSet, StatefulSetView,
};
use crate::list::{add_item, empty_list, list_of};
use crate::ordered_map;
use crate::ordered_map::OrderedMap;
use vstd::prelude::*;

pub mod git_sync;
pub mod graceful_shutdown;
pub mod jvm;
pub mod objects;
pub mod properties;
pub mod proxy_hosts;
pub mod resource;

verus! {

/// The address of NiFi's management server.
pub const MANAGEMENT_SERVER_ADDRESS: &'static str = "127.0.0.1";

/// The port of NiFi's management server.
pub const MANAGEMENT_SERVER_PORT: u16 = 52020;

/// The directory of the live configuration.
pub const NIFI_CONFIG_DIRECTORY: &'static str = "/stackable/nifi/conf";

pub const NIFI_PYTHON_WORKING_DIRECTORY: &'static str = "/nifi-python-working-directory";

pub const NIFI_PYTHON_FRAMEWORK_DIRECTORY: &'static str = "/stackable/nifi/python/framework";

pub const NIFI_PYTHON_EXTENSIONS_DIRECTORY: &'static str = "/stackable/nifi/python/extensions";

/// Where the Secret with the key of the sensitive properties is mounted.
pub const SENSITIVE_PROPERTY_VOLUME_MOUNT: &'static str = "/stackable/sensitiveproperty";

/// Why the objects cannot be built.
#[allow(inconsistent_fields)]
#[derive(Debug, PartialEq, Eq)]
pub enum Error {
    /// The ConfigMap of a role group cannot be built.
    ConfigMap {
        source: config_map::Error,
        role_group: String,
    },
    /// The StatefulSet of a role group cannot be built.
    StatefulSet {
        source: node_pod::Error,
        role_group: String,
    },
}

/// The contents of a [`Error`].
#[allow(inconsistent_fields)]
#[verifier::ext_equal]
pub enum ErrorView {
    ConfigMap { source: config_map::ErrorView, role_group: Seq<char> },
    StatefulSet { source: node_pod::Error, role_group: Seq<char> },
}

impl DeepView for Error {
    type V = ErrorView;

    open spec fn deep_view(&self) -> ErrorView {
        match self {
            Error::ConfigMap { source, role_group } => ErrorView::ConfigMap {
                source: source.deep_view(),
                role_group: role_group.deep_view(),
            },
            Error::StatefulSet { source, role_group } => ErrorView::StatefulSet {
                source: source.deep_view(),
                role_group: role_group.deep_view(),
            },
        }
    }
}

/// The objects of some role groups.
#[verifier::ext_equal]
pub struct RoleGroupObjectsView {
    pub services: Seq<ServiceView>,
    pub config_maps: Seq<ConfigMapView>,
    pub stateful_sets: Seq<StatefulSetView>,
}

/// The configuration of the log agent of a role group, where it is enabled.
pub open spec fn vector_config(rg: NifiRoleGroupConfigView) -> Option<Seq<char>> {
    if rg.config.logging.vector_container.is_some() {
        Some(product_logging::VECTOR_CONFIG@)
    } else {
        None
    }
}

/// The number of nodes of a role group, where the user sets it.
pub open spec fn node_count(rg: NifiRoleGroupConfigView) -> Option<i32> {
    match rg.replicas {
        Some(replicas) => Some(replicas as i32),
        None => None,
    }
}

/// The ConfigMap of a role group with a given file of security properties, or why there is none.
pub open spec fn role_group_config_map(
    cluster: ValidatedClusterView,
    role_group: Seq<char>,
    rg: NifiRoleGroupConfigView,
    files: RoleGroupFilesView,
    security: Option<Seq<char>>,
) -> Result<ConfigMapView, ErrorView> {
    match config_map::config_map_outcome(
        cluster,
        role_group,
        files,
        vector_config(rg),
        security,
    ) {
        Ok(config_map) => Ok(config_map),
        Err(source) => Err(ErrorView::ConfigMap { source, role_group }),
    }
}

/// The StatefulSet of a role group, or why there is none.
pub open spec fn role_group_stateful_set(
    cluster: ValidatedClusterView,
    role_group: Seq<char>,
    rg: NifiRoleGroupConfigView,
    snippets: ShellSnippetsView,
) -> Result<StatefulSetView, ErrorView> {
    match statefulset::stateful_set_outcome(
        cluster,
        role_group,
        rg,
        true,
        node_count(rg),
        cluster.name + "-serviceaccount"@,
        snippets,
    ) {
        Ok(stateful_set) => Ok(stateful_set),
        Err(source) => Err(ErrorView::StatefulSet { source, role_group }),
    }
}

/// The objects of some role groups, in their order, or the first reason for which one cannot be
/// built.
pub open spec fn role_group_objects(
    cluster: ValidatedClusterView,
    groups: Seq<(Seq<char>, NifiRoleGroupConfigView)>,
    files: Map<Seq<char>, RoleGroupFilesView>,
    snippets: Map<Seq<char>, ShellSnippetsView>,
    security: Map<Seq<char>, Option<Seq<char>>>,
) -> Result<RoleGroupObjectsView, ErrorView>
    decreases groups.len(),
{
    if groups.len() == 0 {
        Ok(
            RoleGroupObjectsView {
                services: Seq::empty(),
                config_maps: Seq::empty(),
                stateful_sets: Seq::empty(),
            },
        )
    } else {
        let (name, rg) = groups.last();
        match role_group_objects(cluster, groups.drop_last(), files, snippets, security) {
            Err(error) => Err(error),
            Ok(objects) => match role_group_config_map(
                cluster,
                name,
                rg,
                files[name],
                security[name],
            ) {
                Err(error) => Err(error),
                Ok(config_map) => match role_group_stateful_set(
                    cluster,
                    name,
                    rg,
                    snippets[name],
                ) {
                    Err(error) => Err(error),
                    Ok(stateful_set) => Ok(
                        RoleGroupObjectsView {
                            services: objects.services.push(
                                service::rolegroup_headless_service(cluster, name),
                            ).push(service::rolegroup_metrics_service(cluster, name)),
                            config_maps: objects.config_maps.push(config_map),
                            stateful_sets: objects.stateful_sets.push(stateful_set),
                        },
                    ),
                },
            },
        }
    }
}

/// The disruption budget of the node role, where it has one.
pub open spec fn disruption_budgets(cluster: ValidatedClusterView) -> Seq<PodDisruptionBudgetView> {
    if cluster.role_config.pdb.enabled {
        seq![
            pdb::disruption_budget(
                cluster,
                NifiRole::Node,
                match cluster.role_config.pdb.max_unavailable {
                    Some(count) => count,
                    None => 1,
                },
            ),
        ]
    } else {
        Seq::empty()
    }
}

/// All objects of a cluster, for given files of security properties and given passwords, or why
/// they cannot be built.
pub open spec fn all_objects(
    cluster: ValidatedClusterView,
    files: Map<Seq<char>, RoleGroupFilesView>,
    snippets: Map<Seq<char>, ShellSnippetsView>,
    security: Map<Seq<char>, Option<Seq<char>>>,
    sensitive_key: Seq<char>,
    admin_password: Seq<char>,
) -> Result<KubernetesResourcesView, ErrorView> {
    let groups = ordered_map::ordered_entries(cluster.role_group_configs);
    match role_group_objects(cluster, groups, files, snippets, security) {
        Err(error) => Err(error),
        Ok(objects) => Ok(
            KubernetesResourcesView {
                stateful_sets: objects.stateful_sets,
                services: objects.services,
                listeners: seq![
                    listener::group_listener(
                        cluster,
                        cluster.role_config.listener_class,
                        listener::listener_name(cluster.name, NifiRole::Node.text()),
                    ),
                ],
                config_maps: objects.config_maps,
                secrets: secret::generated_secrets(cluster, sensitive_key, admin_password),
                pod_disruption_budgets: disruption_budgets(cluster),
                service_accounts: seq![rbac::service_account(cluster)],
                role_bindings: seq![rbac::role_binding(cluster)],
            },
        ),
    }
}

/// Once a role group fails, further ones do not mend it.
proof fn lemma_failure_stays(
    cluster: ValidatedClusterView,
    groups: Seq<(Seq<char>, NifiRoleGroupConfigView)>,
    files: Map<Seq<char>, RoleGroupFilesView>,
    snippets: Map<Seq<char>, ShellSnippetsView>,
    security: Map<Seq<char>, Option<Seq<char>>>,
    at: int,
)
    requires
        0 <= at <= groups.len(),
        role_group_objects(cluster, groups.take(at), files, snippets, security).is_err(),
    ensures
        role_group_objects(cluster, groups, files, snippets, security) == role_group_objects(
            cluster,
            groups.take(at),
            files,
            snippets,
            security,
        ),
    decreases groups.len() - at,
{
    if at == groups.len() {
        assert(groups.take(at) =~= groups);
    } else {
        assert(groups.take(at + 1).drop_last() =~= groups.take(at));
        lemma_failure_stays(cluster, groups, files, snippets, security, at + 1);
    }
}

/// The ConfigMap of a role group.
fn build_config_map(
    cluster: &ValidatedCluster,
    role_group_name: &str,
    rg: &NifiRoleGroupConfig,
    files: &RoleGroupFiles,
    security: &Option<String>,
) -> (result: Result<ConfigMap, Error>)
    ensures
        match result {
            Ok(config_map) => role_group_config_map(
                cluster.deep_view(),
                role_group_name@,
                rg.deep_view(),
                files.deep_view(),
                security.deep_view(),
            ) == Ok::<ConfigMapView, ErrorView>(config_map.deep_view()),
            Err(error) => role_group_config_map(
                cluster.deep_view(),
                role_group_name@,
                rg.deep_view(),
                files.deep_view(),
                security.deep_view(),
            ) == Err::<ConfigMapView, ErrorView>(error.deep_view()),
        },
{
    let vector_config: Option<String> = if rg.config.logging.vector_container.is_some() {
        Some(vector_config_file_content())
    } else {
        None
    };
    match build_rolegroup_config_map_with(
        cluster,
        role_group_name,
        files,
        vector_config,
        security,
    ) {
        Ok(config_map) => Ok(config_map),
        Err(source) => Err(Error::ConfigMap { source, role_group: role_group_name.to_owned() }),
    }
}

/// The StatefulSet of a role group.
fn build_stateful_set(
    cluster: &ValidatedCluster,
    role_group_name: &str,
    rg: &NifiRoleGroupConfig,
    snippets: &ShellSnippets,
) -> (result: Result<StatefulSet, Error>)
    ensures
        match result {
            Ok(stateful_set) => role_group_stateful_set(
                cluster.deep_view(),
                role_group_name@,
                rg.deep_view(),
                snippets.deep_view(),
            ) == Ok::<StatefulSetView, ErrorView>(stateful_set.deep_view()),
            Err(error) => role_group_stateful_set(
                cluster.deep_view(),
                role_group_name@,
                rg.deep_view(),
                snippets.deep_view(),
            ) == Err::<StatefulSetView, ErrorView>(error.deep_view()),
        },
{
    let replicas: Option<i32> = match rg.replicas {
        Some(replicas) => Some(replicas as i32),
        None => None,
    };
    let account = cluster.rbac_resource_names().service_account_name();
    match build_node_rolegroup_statefulset(
        cluster,
        role_group_name,
        rg,
        true,
        replicas,
        account.as_str(),
        snippets,
    ) {
        Ok(stateful_set) => Ok(stateful_set),
        Err(source) => Err(Error::StatefulSet { source, role_group: role_group_name.to_owned() }),
    }
}

/// The objects of all role groups.
fn build_role_groups(
    cluster: &ValidatedCluster,
    files: &OrderedMap<RoleGroupFiles>,
    snippets: &OrderedMap<ShellSnippets>,
    security: &OrderedMap<Option<String>>,
) -> (result: Result<(Vec<Service>, Vec<ConfigMap>, Vec<StatefulSet>), Error>)
    requires
        cluster.role_group_configs@.dom().subset_of(files@.dom()),
        cluster.role_group_configs@.dom().subset_of(snippets@.dom()),
        cluster.role_group_configs@.dom().subset_of(security@.dom()),
    ensures
        match result {
            Ok((services, config_maps, stateful_sets)) => role_group_objects(
                cluster.deep_view(),
                ordered_map::ordered_entries(cluster.role_group_configs@),
                files@,
                snippets@,
                security@,
            ) == Ok::<RoleGroupObjectsView, ErrorView>(
                RoleGroupObjectsView {
                    services: services.deep_view(),
                    config_maps: config_maps.deep_view(),
                    stateful_sets: stateful_sets.deep_view(),
                },
            ),
            Err(error) => role_group_objects(
                cluster.deep_view(),
                ordered_map::ordered_entries(cluster.role_group_configs@),
                files@,
                snippets@,
                security@,
            ) == Err::<RoleGroupObjectsView, ErrorView>(error.deep_view()),
        },
{
    let ghost groups = ordered_map::ordered_entries(cluster.role_group_configs@);
    let ghost model = cluster.deep_view();
    let mut services: Vec<Service> = empty_list();
    let mut config_maps: Vec<ConfigMap> = empty_list();
    let mut stateful_sets: Vec<StatefulSet> = empty_list();
    let count: usize = cluster.role_group_configs.len();
    let mut i: usize = 0;
    proof {
        assert(groups.take(0) =~= Seq::empty());
    }
    while i < count
        invariant
            i <= count,
            count == groups.len(),
            groups == ordered_map::ordered_entries(cluster.role_group_configs@),
            model == cluster.deep_view(),
            cluster.role_group_configs@.dom().subset_of(files@.dom()),
            cluster.role_group_configs@.dom().subset_of(snippets@.dom()),
            cluster.role_group_configs@.dom().subset_of(security@.dom()),
            role_group_objects(model, groups.take(i as int), files@, snippets@, security@) == Ok::<
                RoleGroupObjectsView,
                ErrorView,
            >(
                RoleGroupObjectsView {
                    services: services.deep_view(),
                    config_maps: config_maps.deep_view(),
                    stateful_sets: stateful_sets.deep_view(),
                },
            ),
        decreases count - i,
    {
        let (name, rg) = cluster.role_group_configs.entry(i);
        proof {
            let next = groups.take(i + 1);
            assert(next.drop_last() =~= groups.take(i as int));
            assert(next.last() == groups[i as int]);
        }
        let group_files = files.get(name.as_str()).unwrap();
        let group_snippets = snippets.get(name.as_str()).unwrap();
        let group_security = security.get(name.as_str()).unwrap();
        add_item(&mut services, build_rolegroup_headless_service(cluster, name.as_str()));
        add_item(&mut services, build_rolegroup_metrics_service(cluster, name.as_str()));
        match build_config_map(cluster, name.as_str(), rg, group_files, group_security) {
            Ok(config_map) => {
                add_item(&mut config_maps, config_map);
            },
            Err(error) => {
                proof {
                    lemma_failure_stays(model, groups, files@, snippets@, security@, i + 1);
                }
                return Err(error);
            },
        }
        match build_stateful_set(cluster, name.as_str(), rg, group_snippets) {
            Ok(stateful_set) => {
                add_item(&mut stateful_sets, stateful_set);
            },
            Err(error) => {
                proof {
                    lemma_failure_stays(model, groups, files@, snippets@, security@, i + 1);
                }
                return Err(error);
            },
        }
        i = i + 1;
    }
    proof {
        assert(groups.take(i as int) =~= groups);
    }
    Ok((services, config_maps, stateful_sets))
}

/// Builds all objects of a cluster, with given passwords.
///
/// The files and the shell commands of each role group have to be given, and its file of security
/// properties: none where it could not be written.
pub fn build_with(
    cluster: &ValidatedCluster,
    files: &OrderedMap<RoleGroupFiles>,
    snippets: &OrderedMap<ShellSnippets>,
    security: &OrderedMap<Option<String>>,
    sensitive_key: &str,
    admin_password: &str,
) -> (result: Result<KubernetesResources, Error>)
    requires
        cluster.role_group_configs@.dom().subset_of(files@.dom()),
        cluster.role_group_configs@.dom().subset_of(snippets@.dom()),
        cluster.role_group_configs@.dom().subset_of(security@.dom()),
    ensures
        match result {
            Ok(resources) => all_objects(
                cluster.deep_view(),
                files@,
                snippets@,
                security@,
                sensitive_key@,
                admin_password@,
            ) == Ok::<KubernetesResourcesView, ErrorView>(resources.deep_view()),
            Err(error) => all_objects(
                cluster.deep_view(),
                files@,
                snippets@,
                security@,
                sensitive_key@,
                admin_password@,
            ) == Err::<KubernetesResourcesView, ErrorView>(error.deep_view()),
        },
{
    let mut pod_disruption_budgets: Vec<PodDisruptionBudget> = empty_list();
    if let Some(budget) = build_pdb(&cluster.role_config.pdb, cluster, &NifiRole::Node) {
        add_item(&mut pod_disruption_budgets, budget);
    }
    let listener_name = group_listener_name(cluster, NifiRole::Node.as_str());
    let listeners = list_of(
        build_group_listener(
            cluster,
            cluster.role_config.listener_class.as_str(),
            listener_name.as_str(),
        ),
    );
    match build_role_groups(cluster, files, snippets, security) {
        Ok((services, config_maps, stateful_sets)) => Ok(
            KubernetesResources {
                stateful_sets,
                services,
                listeners,
                config_maps,
                secrets: build_secrets_with(cluster, sensitive_key, admin_password),
                pod_disruption_budgets,
                service_accounts: list_of(build_service_account(cluster)),
                role_bindings: list_of(build_role_binding(cluster)),
            },
        ),
        Err(error) => Err(error),
    }
}

/// Whether files may be those with the security properties of all role groups.
pub open spec fn may_be_security_files(
    cluster: ValidatedClusterView,
    security: Map<Seq<char>, Option<Seq<char>>>,
) -> bool {
    &&& security.dom() == cluster.role_group_configs.dom()
    &&& forall|name: Seq<char>| #[trigger]
        security.dom().contains(name) ==> config_map::may_be_security_file(
            cluster,
            name,
            security[name],
        )
}

/// Writes the security properties of all role groups.
pub fn build_security_files(cluster: &ValidatedCluster) -> (security: OrderedMap<Option<String>>)
    ensures
        may_be_security_files(cluster.deep_view(), security@),
{
    let ghost groups = ordered_map::ordered_entries(cluster.role_group_configs@);
    let mut security: OrderedMap<Option<String>> = OrderedMap::new();
    let count: usize = cluster.role_group_configs.len();
    let mut i: usize = 0;
    while i < count
        invariant
            i <= count,
            count == groups.len(),
            groups == ordered_map::ordered_entries(cluster.role_group_configs@),
            forall|name: Seq<char>| #[trigger]
                security@.dom().contains(name) ==> config_map::may_be_security_file(
                    cluster.deep_view(),
                    name,
                    security@[name],
                ),
            forall|name: Seq<char>| #[trigger]
                security@.dom().contains(name) <==> exists|j: int|
                    0 <= j < i && (#[trigger] groups[j]).0 == name,
        decreases count - i,
    {
        let (name, _) = cluster.role_group_configs.entry(i);
        let ghost before = security@;
        security.insert(name.as_str(), build_security_file(cluster, name.as_str()));
        proof {
            assert forall|key: Seq<char>| #[trigger]
                security@.dom().contains(key) <==> exists|j: int|
                    0 <= j < i + 1 && (#[trigger] groups[j]).0 == key by {
                assert(groups[i as int].0 == name@);
                if before.dom().contains(key) {
                    let j = choose|j: int| 0 <= j < i && (#[trigger] groups[j]).0 == key;
                    assert(groups[j].0 == key);
                }
            }
        }
        i = i + 1;
    }
    proof {
        ordered_map::lemma_entries_in_order(cluster.role_group_configs@);
        assert forall|key: Seq<char>|
            security@.dom().contains(key) <==> cluster.role_group_configs@.dom().contains(key) by {
            ordered_map::lemma_as_map_keys(groups, key);
        }
        assert(security@.dom() =~= cluster.role_group_configs@.dom());
    }
    security
}

/// Builds all objects of a cluster. Passwords that are needed are drawn at random.
pub fn build(
    cluster: &ValidatedCluster,
    files: &OrderedMap<RoleGroupFiles>,
    snippets: &OrderedMap<ShellSnippets>,
) -> (result: Result<KubernetesResources, Error>)
    requires
        cluster.role_group_configs@.dom().subset_of(files@.dom()),
        cluster.role_group_configs@.dom().subset_of(snippets@.dom()),
    ensures
        exists|
            security: Map<Seq<char>, Option<Seq<char>>>,
            sensitive_key: Seq<char>,
            admin_password: Seq<char>,
        |
            may_be_security_files(cluster.deep_view(), security) && secret::is_password(
                sensitive_key,
            ) && secret::is_password(admin_password) && (match result {
                Ok(resources) => #[trigger] all_objects(
                    cluster.deep_view(),
                    files@,
                    snippets@,
                    security,
                    sensitive_key,
                    admin_password,
                ) == Ok::<KubernetesResourcesView, ErrorView>(resources.deep_view()),
                Err(error) => all_objects(
                    cluster.deep_view(),
                    files@,
                    snippets@,
                    security,
                    sensitive_key,
                    admin_password,
                ) == Err::<KubernetesResourcesView, ErrorView>(error.deep_view()),
            }),
{
    let security = build_security_files(cluster);
    let sensitive_key = generate_password();
    let admin_password = generate_password();
    build_with(
        cluster,
        files,
        snippets,
        &security,
        sensitive_key.as_str(),
        admin_password.as_str(),
    )
}

/// The security properties of a role group in their order.
pub open spec fn security_properties_of(
    cluster: ValidatedClusterView,
    role_group: Seq<char>,
) -> Seq<(Seq<char>, Option<Seq<char>>)> {
    security_properties::properties_in_order(
        security_properties::security_settings(cluster.role_group_configs[role_group]),
    )
}

/// Where the security properties of all role groups are ASCII, their files are fixed: then only the
/// passwords are left to chance.
pub proof fn law_ascii_security_properties_have_one_file_each(
    cluster: ValidatedClusterView,
    security: Map<Seq<char>, Option<Seq<char>>>,
)
    requires
        may_be_security_files(cluster, security),
        forall|name: Seq<char>| #[trigger]
            cluster.role_group_configs.dom().contains(name) ==> writer::all_ascii(
                security_properties_of(cluster, name),
            ),
    ensures
        security == Map::new(
            |name: Seq<char>| cluster.role_group_configs.dom().contains(name),
            |name: Seq<char>| Some(writer::properties_file(security_properties_of(cluster, name))),
        ),
{
    let files = Map::new(
        |name: Seq<char>| cluster.role_group_configs.dom().contains(name),
        |name: Seq<char>| Some(writer::properties_file(security_properties_of(cluster, name))),
    );
    assert forall|name: Seq<char>| #[trigger] security.dom().contains(name) implies security[name]
        == files[name] by {
        assert(config_map::may_be_security_file(cluster, name, security[name]));
        writer::law_ascii_properties_have_one_file(
            security_properties_of(cluster, name),
            security[name],
        );
    }
    assert(security =~= files);
}

/// Every role group gets its objects, in the order of the role groups: a StatefulSet and a
/// ConfigMap under the name of the role group, and two Services.
proof fn lemma_objects_of_role_groups(
    cluster: ValidatedClusterView,
    groups: Seq<(Seq<char>, NifiRoleGroupConfigView)>,
    files: Map<Seq<char>, RoleGroupFilesView>,
    snippets: Map<Seq<char>, ShellSnippetsView>,
    security: Map<Seq<char>, Option<Seq<char>>>,
    i: int,
)
    requires
        0 <= i < groups.len(),
        role_group_objects(cluster, groups, files, snippets, security).is_ok(),
    ensures
        ({
            let objects = role_group_objects(cluster, groups, files, snippets, security)->Ok_0;
            let name = groups[i].0;
            &&& objects.stateful_sets.len() == groups.len()
            &&& objects.config_maps.len() == groups.len()
            &&& objects.services.len() == 2 * groups.len()
            &&& objects.stateful_sets[i].metadata.name == Some(cluster.object_name_of(name))
            &&& objects.config_maps[i].metadata.name == Some(cluster.object_name_of(name))
            &&& objects.services[2 * i] == service::rolegroup_headless_service(cluster, name)
            &&& objects.services[2 * i + 1] == service::rolegroup_metrics_service(cluster, name)
            &&& objects.stateful_sets[i].service_name == objects.services[2 * i].metadata.name
            &&& objects.stateful_sets[i].selector == objects.services[2 * i].selector
            &&& objects.stateful_sets[i].metadata.owner_references == seq![
                controller::owner_reference(cluster.name, cluster.uid),
            ]
            &&& objects.config_maps[i].metadata.owner_references == seq![
                controller::owner_reference(cluster.name, cluster.uid),
            ]
        }),
    decreases groups.len(),
{
    let front = groups.drop_last();
    let objects = role_group_objects(cluster, groups, files, snippets, security)->Ok_0;
    if front.len() > 0 {
        let at = if i < front.len() {
            i
        } else {
            0
        };
        lemma_objects_of_role_groups(cluster, front, files, snippets, security, at);
        assert(groups[at] == front[at]);
    }
    let some = role_group_objects(cluster, front, files, snippets, security)->Ok_0;
    assert(objects.services.len() == some.services.len() + 2);
    if i < front.len() {
        assert(objects.stateful_sets[i] == some.stateful_sets[i]);
        assert(objects.config_maps[i] == some.config_maps[i]);
        assert(objects.services[2 * i] == some.services[2 * i]);
        assert(objects.services[2 * i + 1] == some.services[2 * i + 1]);
    } else {
        assert(groups[i] == groups.last());
    }
}

/// Every role group gets its objects, in the order of the role groups: a StatefulSet and a
/// ConfigMap under the name of the role group that belong to the cluster, and two Services. The
/// StatefulSet names the first of them, and both find the same pods.
pub proof fn law_every_role_group_is_built(
    cluster: ValidatedClusterView,
    files: Map<Seq<char>, RoleGroupFilesView>,
    snippets: Map<Seq<char>, ShellSnippetsView>,
    security: Map<Seq<char>, Option<Seq<char>>>,
    sensitive_key: Seq<char>,
    admin_password: Seq<char>,
    i: int,
)
    requires
        0 <= i < ordered_map::ordered_entries(cluster.role_group_configs).len(),
        all_objects(cluster, files, snippets, security, sensitive_key, admin_password).is_ok(),
    ensures
        ({
            let groups = ordered_map::ordered_entries(cluster.role_group_configs);
            let objects = all_objects(
                cluster,
                files,
                snippets,
                security,
                sensitive_key,
                admin_password,
            )->Ok_0;
            let name = groups[i].0;
            &&& objects.stateful_sets.len() == groups.len()
            &&& objects.config_maps.len() == groups.len()
            &&& objects.services.len() == 2 * groups.len()
            &&& objects.stateful_sets[i].metadata.name == Some(cluster.object_name_of(name))
            &&& objects.config_maps[i].metadata.name == Some(cluster.object_name_of(name))
            &&& objects.services[2 * i] == service::rolegroup_headless_service(cluster, name)
            &&& objects.services[2 * i + 1] == service::rolegroup_metrics_service(cluster, name)
            &&& objects.stateful_sets[i].service_name == objects.services[2 * i].metadata.name
            &&& objects.stateful_sets[i].selector == objects.services[2 * i].selector
            &&& objects.stateful_sets[i].metadata.owner_references == seq![
                controller::owner_reference(cluster.name, cluster.uid),
            ]
            &&& objects.config_maps[i].metadata.owner_references == seq![
                controller::owner_reference(cluster.name, cluster.uid),
            ]
        }),
{
    lemma_objects_of_role_groups(
        cluster,
        ordered_map::ordered_entries(cluster.role_group_configs),
        files,
        snippets,
        security,
        i,
    );
}

} // verus!
