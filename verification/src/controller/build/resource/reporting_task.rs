//! The objects that make NiFi 1.x report its metrics: a Job that registers a reporting task through
//! NiFi's API, and a Service that leads to one single node.
//!
//! The tokens that a node hands out are valid at that node only, so all calls of the Job have to
//! reach the same one. Newer versions offer their metrics by themselves.

use crate::contents::Copied;
use crate::controller;
use crate::controller::build::resource::service;
use crate::controller::build::resource::volumes;
use crate::controller::build::resource::volumes::{add_mounts, add_volume, add_volumes, mount};
use crate::controller::{
    object_meta, role_selector, NifiRoleGroupConfigView, ValidatedCluster, ValidatedClusterView,
};
use crate::crd::{NifiRole, HTTPS_PORT, HTTPS_PORT_NAME, METRICS_PORT};
use crate::kubernetes;
use crate::kubernetes::{
    ContainerView, Job, JobView, PodContainer, PodContainerView, PodTemplate, PodTemplateView,
    ResourceRequirements, ResourceRequirementsView, SecretFormat, Service, ServicePort, ServiceView,
    Volume, VolumeMount, VolumeMountView, VolumeSource, VolumeSourceView, VolumeView,
};
use crate::list::{add_item, add_text, empty_list, list_of};
use crate::ordered_map;
use crate::ordered_map::OrderedMap;
use crate::security::authentication::STACKABLE_ADMIN_USERNAME;
use crate::text;
use crate::text::{concat2, concat3, has_prefix, join, number_text, replace_in_lowercase};
use vstd::prelude::*;

verus! {

/// The volume with the certificate of the Job.
pub const REPORTING_TASK_CERT_VOLUME_NAME: &'static str = "tls";

pub const REPORTING_TASK_CERT_VOLUME_MOUNT: &'static str = "/stackable/cert";

/// The script, in the image, that registers the reporting task.
pub const REPORTING_TASK_SCRIPT_PATH: &'static str =
    "/stackable/python/create_nifi_reporting_task.py";

pub const REPORTING_TASK_CONTAINER_NAME: &'static str = "reporting-task";

/// The role group that the labels of these objects name. They belong to no role group.
pub const REPORTING_TASK_ROLE_GROUP: &'static str = "global";

/// How long the certificate of the Job is valid: it is used for a few calls only.
pub const REPORTING_TASK_CERT_LIFETIME_SECONDS: u64 = 86400;

/// Why the objects cannot be built.
#[derive(Debug, PartialEq, Eq)]
pub enum Error {
    /// The volumes of the authentication clash with others.
    AddAuthVolumes,
    /// There is no role group, so there is no node that the Service can lead to.
    FailedBuildReportingTaskService,
    /// Two different volumes have one name.
    AddVolume,
}

/// The name of the Service.
pub open spec fn service_name(cluster_name: Seq<char>) -> Seq<char> {
    cluster_name + "-"@ + REPORTING_TASK_CONTAINER_NAME@
}

/// The full domain name of the Service.
pub open spec fn fqdn_service_name(
    cluster_name: Seq<char>,
    namespace: Seq<char>,
    cluster_domain: Seq<char>,
) -> Seq<char> {
    service_name(cluster_name) + "."@ + namespace + ".svc."@ + cluster_domain
}

/// The name of the Service.
pub fn build_reporting_task_service_name(nifi_cluster_name: &str) -> (name: String)
    ensures
        name@ == service_name(nifi_cluster_name@),
{
    concat3(nifi_cluster_name, "-", REPORTING_TASK_CONTAINER_NAME)
}

/// The full domain name of the Service.
pub fn build_reporting_task_fqdn_service_name(
    cluster_name: &str,
    namespace: &str,
    cluster_domain: &str,
) -> (name: String)
    ensures
        name@ == fqdn_service_name(cluster_name@, namespace@, cluster_domain@),
{
    build_reporting_task_service_name(cluster_name).concat(".").concat(namespace).concat(
        ".svc.",
    ).concat(cluster_domain)
}

/// Whether a role group is meant to have nodes.
pub open spec fn has_nodes(rg: NifiRoleGroupConfigView) -> bool {
    rg.replicas != Some(0u16)
}

/// The first role group that is meant to have nodes.
pub open spec fn first_with_nodes(groups: Seq<(Seq<char>, NifiRoleGroupConfigView)>) -> Option<
    Seq<char>,
>
    decreases groups.len(),
{
    if groups.len() == 0 {
        None
    } else {
        match first_with_nodes(groups.drop_last()) {
            Some(name) => Some(name),
            None => if has_nodes(groups.last().1) {
                Some(groups.last().0)
            } else {
                None
            },
        }
    }
}

/// The role group whose node is chosen: the first that is meant to have nodes, or else the first.
pub open spec fn chosen_group(groups: Seq<(Seq<char>, NifiRoleGroupConfigView)>) -> Option<
    Seq<char>,
> {
    match first_with_nodes(groups) {
        Some(name) => Some(name),
        None => if groups.len() == 0 {
            None
        } else {
            Some(groups[0].0)
        },
    }
}

/// The node that the Service leads to.
pub open spec fn selected_pod(cluster: ValidatedClusterView) -> Option<Seq<char>> {
    match chosen_group(ordered_map::ordered_entries(cluster.role_group_configs)) {
        Some(role_group) => Some(
            cluster.name + "-"@ + NifiRole::Node.text() + "-"@ + role_group + "-0"@,
        ),
        None => None,
    }
}

/// Once a role group with nodes is found, further ones do not change the choice.
proof fn lemma_first_stays(groups: Seq<(Seq<char>, NifiRoleGroupConfigView)>, at: int)
    requires
        0 <= at <= groups.len(),
        first_with_nodes(groups.take(at)).is_some(),
    ensures
        first_with_nodes(groups) == first_with_nodes(groups.take(at)),
    decreases groups.len() - at,
{
    if at == groups.len() {
        assert(groups.take(at) =~= groups);
    } else {
        assert(groups.take(at + 1).drop_last() =~= groups.take(at));
        lemma_first_stays(groups, at + 1);
    }
}

/// The node that the Service leads to: the first one of the first role group that is meant to have
/// nodes. If none is, it is that of the first role group, just in case.
pub fn get_reporting_task_service_selector_pod(cluster: &ValidatedCluster) -> (result: Result<
    String,
    Error,
>)
    ensures
        match result {
            Ok(pod) => selected_pod(cluster.deep_view()) == Some(pod@),
            Err(error) => selected_pod(cluster.deep_view()).is_none() && error
                == Error::FailedBuildReportingTaskService,
        },
{
    let groups = &cluster.role_group_configs;
    let ghost entries = ordered_map::ordered_entries(groups@);
    let count: usize = groups.len();
    if count == 0 {
        return Err(Error::FailedBuildReportingTaskService);
    }
    let mut chosen: &String = groups.entry(0).0;
    let mut found = false;
    let mut i: usize = 0;
    proof {
        assert(entries.take(0) =~= Seq::empty());
    }
    while i < count && !found
        invariant
            i <= count,
            count == entries.len(),
            0 < count,
            entries == ordered_map::ordered_entries(groups@),
            groups == &cluster.role_group_configs,
            !found ==> first_with_nodes(entries.take(i as int)).is_none() && chosen@
                == entries[0].0,
            found ==> first_with_nodes(entries.take(i as int)) == Some(chosen@),
        decreases count - i,
    {
        let (name, group) = groups.entry(i);
        proof {
            let next = entries.take(i + 1);
            assert(next.drop_last() =~= entries.take(i as int));
            assert(next.last() == entries[i as int]);
        }
        let replicas: u16 = match group.replicas {
            Some(replicas) => replicas,
            None => 1,
        };
        if replicas > 0 {
            chosen = name;
            found = true;
        }
        i = i + 1;
    }
    proof {
        if found {
            lemma_first_stays(entries, i as int);
        } else {
            assert(entries.take(i as int) =~= entries);
        }
    }
    Ok(
        cluster.name.clone().concat("-").concat(NifiRole::Node.as_str()).concat("-").concat(
            chosen.as_str(),
        ).concat("-0"),
    )
}

/// The Service that leads to one single node.
pub open spec fn reporting_task_service(cluster: ValidatedClusterView, pod: Seq<char>) -> ServiceView {
    ServiceView {
        metadata: controller::owned_metadata(
            cluster,
            service_name(cluster.name),
            cluster.labels_of(REPORTING_TASK_ROLE_GROUP@),
        ),
        type_: None,
        cluster_ip: None,
        ports: seq![service::https_service_port()],
        selector: controller::role_selector_labels(cluster.name, NifiRole::Node.text()).insert(
            "statefulset.kubernetes.io/pod-name"@,
            pod,
        ),
        publish_not_ready_addresses: None,
    }
}

/// Builds the Service that leads to one single node.
pub fn build_reporting_task_service(cluster: &ValidatedCluster) -> (result: Result<Service, Error>)
    ensures
        match result {
            Ok(service) => selected_pod(cluster.deep_view()).is_some() && service.deep_view()
                == reporting_task_service(
                cluster.deep_view(),
                selected_pod(cluster.deep_view()).unwrap(),
            ),
            Err(error) => selected_pod(cluster.deep_view()).is_none() && error
                == Error::FailedBuildReportingTaskService,
        },
{
    let pod = match get_reporting_task_service_selector_pod(cluster) {
        Ok(pod) => pod,
        Err(error) => {
            return Err(error);
        },
    };
    let mut selector = role_selector(cluster.name.as_str(), NifiRole::Node.as_str());
    selector.put("statefulset.kubernetes.io/pod-name", pod.as_str());
    Ok(
        Service {
            metadata: cluster.object_meta(
                build_reporting_task_service_name(cluster.name.as_str()),
                REPORTING_TASK_ROLE_GROUP,
            ),
            type_: None,
            cluster_ip: None,
            ports: list_of(
                ServicePort {
                    name: Some(HTTPS_PORT_NAME.to_owned()),
                    port: HTTPS_PORT as i32,
                    protocol: Some("TCP".to_owned()),
                },
            ),
            selector,
            publish_not_ready_addresses: None,
        },
    )
}

/// The name of the Job. It differs from version to version, so that each version is registered.
pub open spec fn job_name(cluster: ValidatedClusterView) -> Seq<char> {
    cluster.name + "-create-reporting-task-"@ + text::replaced_in_lowercase(
        cluster.image.product_version,
        '.',
        '-',
    )
}

/// The option that names the user. Where the name is in a file, it may be the distinguished name of
/// a user, of which only the first part counts.
pub open spec fn user_option(user_file: Seq<char>) -> Seq<char> {
    if user_file == Seq::<char>::empty() {
        "-u "@ + STACKABLE_ADMIN_USERNAME@
    } else {
        "-u \"$(cat "@ + user_file + " | grep -oP '((cn|dn|uid)=\\K[^,]+|.*)' | head -n 1)\""@
    }
}

/// The arguments of the script.
pub open spec fn script_arguments(cluster: ValidatedClusterView) -> Seq<Seq<char>> {
    let (user_file, password_file) = cluster.cluster_config.authentication.user_and_password_files();
    seq![
        REPORTING_TASK_SCRIPT_PATH@,
        "-n https://"@ + fqdn_service_name(
            cluster.name,
            cluster.namespace,
            cluster.cluster_domain,
        ) + ":"@ + text::decimal(HTTPS_PORT as nat) + "/nifi-api"@,
        user_option(user_file),
        "-p \"$(cat "@ + password_file + ")\""@,
        "-m "@ + text::decimal(METRICS_PORT as nat),
        "-c "@ + REPORTING_TASK_CERT_VOLUME_MOUNT@ + "/ca.crt"@,
    ]
}

/// The container of the Job, with its mounts.
pub open spec fn reporting_task_container(
    cluster: ValidatedClusterView,
    mounts: Seq<VolumeMountView>,
) -> ContainerView {
    ContainerView {
        name: REPORTING_TASK_CONTAINER_NAME@,
        image: Some(cluster.image.image),
        image_pull_policy: Some(cluster.image.image_pull_policy),
        command: seq!["sh"@, "-c"@],
        args: seq![text::joined(script_arguments(cluster), " "@)],
        env: Seq::empty(),
        ports: Seq::empty(),
        volume_mounts: mounts,
        resources: Some(
            ResourceRequirementsView {
                cpu_request: Some("100m"@),
                cpu_limit: Some("400m"@),
                memory_request: Some("512Mi"@),
                memory_limit: Some("512Mi"@),
            },
        ),
        liveness_probe: None,
        readiness_probe: None,
        startup_probe: None,
    }
}

/// The volume with the certificate of the Job.
pub open spec fn certificate_volume(cluster: ValidatedClusterView) -> VolumeView {
    VolumeView {
        name: REPORTING_TASK_CERT_VOLUME_NAME@,
        source: VolumeSourceView::Tls {
            secret_class: cluster.cluster_config.server_tls_secret_class,
            service_scopes: Seq::empty(),
            format: SecretFormat::TlsPem,
            requested_lifetime_seconds: REPORTING_TASK_CERT_LIFETIME_SECONDS,
            listener_scope: None,
        },
    }
}

/// The Job, with its volumes and mounts.
pub open spec fn job_with(
    cluster: ValidatedClusterView,
    service_account_name: Seq<char>,
    all_volumes: Seq<VolumeView>,
    mounts: Seq<VolumeMountView>,
) -> JobView {
    JobView {
        metadata: controller::owned_metadata(
            cluster,
            job_name(cluster),
            cluster.labels_of(REPORTING_TASK_ROLE_GROUP@),
        ),
        backoff_limit: Some(100),
        ttl_seconds_after_finished: Some(120),
        template: PodTemplateView {
            metadata: controller::owned_metadata(cluster, job_name(cluster), Map::empty()),
            containers: seq![
                PodContainerView::Own { container: reporting_task_container(cluster, mounts) },
            ],
            init_containers: Seq::empty(),
            volumes: all_volumes,
            affinity: None,
            service_account_name: Some(service_account_name),
            fs_group: Some(1000),
            image_pull_secrets: cluster.image.pull_secrets,
            restart_policy: Some("OnFailure"@),
            termination_grace_period_seconds: None,
            overrides: seq![cluster.cluster_config.reporting_task.pod_overrides],
        },
    }
}

/// The Job, or why there is none.
pub open spec fn reporting_task_job(
    cluster: ValidatedClusterView,
    service_account_name: Seq<char>,
) -> Result<JobView, Error> {
    let authentication = cluster.cluster_config.authentication;
    match (
        volumes::put_volumes(Seq::empty(), authentication.volumes()),
        volumes::put_mounts(
            seq![
                volumes::whole_mount(
                    REPORTING_TASK_CERT_VOLUME_NAME@,
                    REPORTING_TASK_CERT_VOLUME_MOUNT@,
                ),
            ],
            authentication.volume_mounts(),
        ),
    ) {
        (Some(auth_volumes), Some(mounts)) => match volumes::put_volume(
            auth_volumes,
            certificate_volume(cluster),
        ) {
            Some(all_volumes) => Ok(job_with(cluster, service_account_name, all_volumes, mounts)),
            None => Err(Error::AddVolume),
        },
        _ => Err(Error::AddAuthVolumes),
    }
}

/// The arguments of the script.
fn build_script_arguments(cluster: &ValidatedCluster) -> (arguments: Vec<String>)
    ensures
        arguments.deep_view() == script_arguments(cluster.deep_view()),
{
    let host = build_reporting_task_fqdn_service_name(
        cluster.name.as_str(),
        cluster.namespace.as_str(),
        cluster.cluster_domain.as_str(),
    );
    let (user_file, password_file) =
        cluster.cluster_config.authentication.get_user_and_password_file_paths();
    let user_option = if user_file.as_str().unicode_len() == 0 {
        proof {
            assert(user_file@ =~= Seq::empty());
        }
        concat2("-u ", STACKABLE_ADMIN_USERNAME)
    } else {
        concat3(
            "-u \"$(cat ",
            user_file.as_str(),
            " | grep -oP '((cn|dn|uid)=\\K[^,]+|.*)' | head -n 1)\"",
        )
    };
    let mut arguments: Vec<String> = empty_list();
    add_text(&mut arguments, REPORTING_TASK_SCRIPT_PATH);
    add_item(
        &mut arguments,
        "-n https://".to_owned().concat(host.as_str()).concat(":").concat(
            number_text(HTTPS_PORT as u64).as_str(),
        ).concat("/nifi-api"),
    );
    add_item(&mut arguments, user_option);
    add_item(&mut arguments, concat3("-p \"$(cat ", password_file.as_str(), ")\""));
    add_item(&mut arguments, concat2("-m ", number_text(METRICS_PORT as u64).as_str()));
    add_item(&mut arguments, concat3("-c ", REPORTING_TASK_CERT_VOLUME_MOUNT, "/ca.crt"));
    arguments
}

/// The container of the Job, with its mounts.
fn build_reporting_task_container(cluster: &ValidatedCluster, mounts: Vec<VolumeMount>) -> (
    container: kubernetes::Container)
    ensures
        container.deep_view() == reporting_task_container(cluster.deep_view(), mounts.deep_view()),
{
    let mut command: Vec<String> = empty_list();
    add_text(&mut command, "sh");
    add_text(&mut command, "-c");
    kubernetes::Container {
        name: REPORTING_TASK_CONTAINER_NAME.to_owned(),
        image: Some(cluster.image.image.copied()),
        image_pull_policy: Some(cluster.image.image_pull_policy.copied()),
        command,
        args: list_of(join(&build_script_arguments(cluster), " ")),
        env: empty_list(),
        ports: empty_list(),
        volume_mounts: mounts,
        resources: Some(
            ResourceRequirements {
                cpu_request: Some("100m".to_owned()),
                cpu_limit: Some("400m".to_owned()),
                memory_request: Some("512Mi".to_owned()),
                memory_limit: Some("512Mi".to_owned()),
            },
        ),
        liveness_probe: None,
        readiness_probe: None,
        startup_probe: None,
    }
}

/// Builds the Job that registers the reporting task.
pub fn build_reporting_task_job(cluster: &ValidatedCluster, sa_name: &str) -> (result: Result<
    Job,
    Error,
>)
    ensures
        match result {
            Ok(job) => reporting_task_job(cluster.deep_view(), sa_name@) == Ok::<JobView, Error>(
                job.deep_view(),
            ),
            Err(error) => reporting_task_job(cluster.deep_view(), sa_name@) == Err::<
                JobView,
                Error,
            >(error),
        },
{
    let (auth_volumes, auth_mounts) = cluster.cluster_config.authentication.volumes_and_mounts();
    let mut mounts = list_of(
        mount(REPORTING_TASK_CERT_VOLUME_NAME, REPORTING_TASK_CERT_VOLUME_MOUNT),
    );
    let mut all_volumes: Vec<Volume> = empty_list();
    if !add_volumes(&mut all_volumes, &auth_volumes) {
        return Err(Error::AddAuthVolumes);
    }
    if !add_mounts(&mut mounts, &auth_mounts) {
        return Err(Error::AddAuthVolumes);
    }
    let certificate = Volume {
        name: REPORTING_TASK_CERT_VOLUME_NAME.to_owned(),
        source: VolumeSource::Tls {
            secret_class: cluster.cluster_config.server_tls_secret_class.copied(),
            service_scopes: empty_list(),
            format: SecretFormat::TlsPem,
            requested_lifetime_seconds: REPORTING_TASK_CERT_LIFETIME_SECONDS,
            listener_scope: None,
        },
    };
    if !add_volume(&mut all_volumes, certificate) {
        return Err(Error::AddVolume);
    }
    let version = replace_in_lowercase(cluster.image.product_version.as_str(), '.', '-');
    let name = concat3(cluster.name.as_str(), "-create-reporting-task-", version.as_str());
    let container = build_reporting_task_container(cluster, mounts);
    proof {
        assert(name@ == job_name(cluster.deep_view()));
    }
    let template = PodTemplate {
        metadata: object_meta(cluster, name.clone(), OrderedMap::new()),
        containers: list_of(PodContainer::Own { container }),
        init_containers: empty_list(),
        volumes: all_volumes,
        affinity: None,
        service_account_name: Some(sa_name.to_owned()),
        fs_group: Some(1000),
        image_pull_secrets: cluster.image.pull_secrets.copied(),
        restart_policy: Some("OnFailure".to_owned()),
        termination_grace_period_seconds: None,
        overrides: list_of(cluster.cluster_config.reporting_task.pod_overrides.copied()),
    };
    Ok(
        Job {
            metadata: cluster.object_meta(name, REPORTING_TASK_ROLE_GROUP),
            backoff_limit: Some(100),
            ttl_seconds_after_finished: Some(120),
            template,
        },
    )
}

/// The Job and the Service, or nothing for versions that report by themselves, or why there are
/// none.
pub open spec fn reporting_task(
    cluster: ValidatedClusterView,
    service_account_name: Seq<char>,
) -> Result<Option<(JobView, ServiceView)>, Error> {
    if !"1."@.is_prefix_of(cluster.image.product_version) {
        Ok(None)
    } else {
        match reporting_task_job(cluster, service_account_name) {
            Err(error) => Err(error),
            Ok(job) => match selected_pod(cluster) {
                Some(pod) => Ok(Some((job, reporting_task_service(cluster, pod)))),
                None => Err(Error::FailedBuildReportingTaskService),
            },
        }
    }
}

/// Builds what makes NiFi 1.x report its metrics. Newer versions need nothing.
pub fn build_maybe_reporting_task(cluster: &ValidatedCluster, sa_name: &str) -> (result: Result<
    Option<(Job, Service)>,
    Error,
>)
    ensures
        match result {
            Ok(objects) => reporting_task(cluster.deep_view(), sa_name@) == Ok::<
                Option<(JobView, ServiceView)>,
                Error,
            >(objects.deep_view()),
            Err(error) => reporting_task(cluster.deep_view(), sa_name@) == Err::<
                Option<(JobView, ServiceView)>,
                Error,
            >(error),
        },
{
    if !has_prefix(cluster.image.product_version.as_str(), "1.") {
        return Ok(None);
    }
    let job = match build_reporting_task_job(cluster, sa_name) {
        Ok(job) => job,
        Err(error) => {
            return Err(error);
        },
    };
    match build_reporting_task_service(cluster) {
        Ok(service) => Ok(Some((job, service))),
        Err(error) => Err(error),
    }
}

/// The Service of the reporting task leads to a node of a role group of the cluster. It is one that
/// is meant to have nodes as long as there is any, and no role group before it is.
pub proof fn law_reporting_task_node(groups: Seq<(Seq<char>, NifiRoleGroupConfigView)>)
    requires
        groups.len() > 0,
    ensures
        exists|i: int|
            #![trigger groups[i]]
            0 <= i < groups.len() && chosen_group(groups) == Some(groups[i].0) && ((forall|j: int|
                0 <= j < groups.len() ==> !has_nodes(#[trigger] groups[j].1)) || has_nodes(
                groups[i].1,
            ) && forall|j: int| 0 <= j < i ==> !has_nodes(#[trigger] groups[j].1)),
{
    if first_with_nodes(groups).is_none() {
        lemma_none_with_nodes(groups);
        assert(chosen_group(groups) == Some(groups[0].0));
    } else {
        let i = lemma_first_with_nodes(groups);
        assert(chosen_group(groups) == Some(groups[i].0));
    }
}

proof fn lemma_none_with_nodes(groups: Seq<(Seq<char>, NifiRoleGroupConfigView)>)
    requires
        first_with_nodes(groups).is_none(),
    ensures
        forall|j: int| 0 <= j < groups.len() ==> !has_nodes(#[trigger] groups[j].1),
    decreases groups.len(),
{
    if groups.len() > 0 {
        lemma_none_with_nodes(groups.drop_last());
        assert forall|j: int| 0 <= j < groups.len() implies !has_nodes(
            #[trigger] groups[j].1,
        ) by {
            if j < groups.len() - 1 {
                assert(groups.drop_last()[j] == groups[j]);
            }
        }
    }
}

proof fn lemma_first_with_nodes(groups: Seq<(Seq<char>, NifiRoleGroupConfigView)>) -> (i: int)
    requires
        first_with_nodes(groups).is_some(),
    ensures
        0 <= i < groups.len(),
        first_with_nodes(groups) == Some(groups[i].0),
        has_nodes(groups[i].1),
        forall|j: int| 0 <= j < i ==> !has_nodes(#[trigger] groups[j].1),
    decreases groups.len(),
{
    let before = groups.drop_last();
    if first_with_nodes(before).is_some() {
        let i = lemma_first_with_nodes(before);
        assert forall|j: int| 0 <= j < i implies !has_nodes(#[trigger] groups[j].1) by {
            assert(before[j] == groups[j]);
        }
        i
    } else {
        lemma_none_with_nodes(before);
        assert forall|j: int| 0 <= j < groups.len() - 1 implies !has_nodes(
            #[trigger] groups[j].1,
        ) by {
            assert(before[j] == groups[j]);
        }
        groups.len() - 1
    }
}

} // verus!
