//! What the pods of a role group hold: which volumes they have, where their containers mount them,
//! and how their containers are set up.
//!
//! All of this is said of the template before the overrides of the user are merged into it.

use crate::controller::build::resource::node_pod;
use crate::controller::build::resource::node_pod::{Error, NodePodView};
use crate::controller::build::resource::volumes;
use crate::crd::NifiClusteringBackendView;
use crate::kubernetes::{
    ContainerView, EnvVarSourceView, EnvVarView, PodContainerView, PodTemplateView, SecretFormat,
    VolumeMountView, VolumeSourceView, VolumeView,
};
use vstd::prelude::*;

verus! {

/// The container that runs NiFi: the first one.
pub open spec fn nifi_container(template: PodTemplateView) -> ContainerView {
    template.containers[0]->container
}

/// The container that prepares the configuration: the last one that runs before the others.
pub open spec fn prepare_container(template: PodTemplateView) -> ContainerView {
    template.init_containers.last()->container
}

/// Whether a container mounts a volume at a path.
pub open spec fn mounts_at(container: ContainerView, volume: Seq<char>, path: Seq<char>) -> bool {
    container.volume_mounts.contains(
        VolumeMountView { name: volume, mount_path: path, sub_path: None },
    )
}

/// Whether a container offers a port under a name, and no other one under that name.
pub open spec fn offers(container: ContainerView, name: Seq<char>, port: int) -> bool {
    &&& exists|i: int|
        0 <= i < container.ports.len() && (#[trigger] container.ports[i]).name == Some(name)
    &&& forall|i: int|
        0 <= i < container.ports.len() && (#[trigger] container.ports[i]).name == Some(name)
            ==> container.ports[i].container_port == port
}

/// The template of the pods, and what its containers mount.
pub proof fn lemma_template(pod: NodePodView) -> (found: (
    Seq<VolumeMountView>,
    Seq<VolumeMountView>,
))
    requires
        pod.outcome().is_ok(),
    ensures
        pod.outcome()->Ok_0.containers.len() > 0,
        pod.outcome()->Ok_0.containers[0] == (PodContainerView::Own {
            container: pod.nifi_container(found.0),
        }),
        pod.outcome()->Ok_0.init_containers.len() > 0,
        pod.outcome()->Ok_0.init_containers.last() == (PodContainerView::Own {
            container: pod.prepare_container(found.1),
        }),
        forall|i: int|
            0 <= i < pod.nifi_mounts().len() ==> found.0.contains(#[trigger] pod.nifi_mounts()[i]),
        forall|i: int|
            0 <= i < pod.prepare_mounts().len() ==> found.1.contains(
                #[trigger] pod.prepare_mounts()[i],
            ),
        forall|i: int|
            0 <= i < pod.authentication.volume_mounts().len() ==> found.1.contains(
                #[trigger] pod.authentication.volume_mounts()[i],
            ),
        forall|i: int|
            0 <= i < pod.git_sync.git_content_volume_mounts.len() ==> found.0.contains(
                #[trigger] pod.git_sync.git_content_volume_mounts[i],
            ),
        found.0.contains(
            volumes::whole_mount(
                node_pod::PYTHON_WORKING_VOLUME_NAME@,
                crate::controller::build::NIFI_PYTHON_WORKING_DIRECTORY@,
            ),
        ),
{
    let prepare = volumes::put_mounts(Seq::empty(), pod.prepare_mounts()).unwrap();
    let (user_prepare, others) = pod.with_user_mounts(prepare).unwrap();
    let prepare_mounts = volumes::put_mounts(
        user_prepare,
        pod.authentication.volume_mounts(),
    ).unwrap();
    let nifi = volumes::put_mounts(Seq::empty(), pod.nifi_mounts()).unwrap();
    let extra = node_pod::with_extra_volumes(Seq::empty(), nifi, pod.extra_volumes)->Ok_0;
    let custom = pod.with_custom_components(extra.0, extra.1)->Ok_0;
    let python = seq![
        volumes::whole_mount(
            node_pod::PYTHON_WORKING_VOLUME_NAME@,
            crate::controller::build::NIFI_PYTHON_WORKING_DIRECTORY@,
        ),
    ];
    let more = python + pod.git_sync.git_content_volume_mounts;
    assert forall|i: int| 0 <= i < pod.prepare_mounts().len() implies prepare_mounts.contains(
        #[trigger] pod.prepare_mounts()[i],
    ) by {
        let mount = pod.prepare_mounts()[i];
        volumes::lemma_put_mounts(Seq::empty(), pod.prepare_mounts(), mount);
        volumes::lemma_put_mounts(prepare, node_pod::user_mounts(pod.extra_volumes), mount);
        volumes::lemma_put_mounts(user_prepare, pod.authentication.volume_mounts(), mount);
    }
    assert forall|i: int|
        0 <= i < pod.authentication.volume_mounts().len() implies prepare_mounts.contains(
        #[trigger] pod.authentication.volume_mounts()[i],
    ) by {
        let mount = pod.authentication.volume_mounts()[i];
        volumes::lemma_put_mounts(user_prepare, pod.authentication.volume_mounts(), mount);
    }
    assert forall|i: int| 0 <= i < pod.nifi_mounts().len() implies custom.1.contains(
        #[trigger] pod.nifi_mounts()[i],
    ) by {
        let mount = pod.nifi_mounts()[i];
        volumes::lemma_put_mounts(Seq::empty(), pod.nifi_mounts(), mount);
        lemma_extra_volumes_keep(nifi, pod.extra_volumes, mount);
        volumes::lemma_put_mounts(extra.1, more, mount);
    }
    assert forall|i: int|
        0 <= i < pod.git_sync.git_content_volume_mounts.len() implies custom.1.contains(
        #[trigger] pod.git_sync.git_content_volume_mounts[i],
    ) by {
        let mount = pod.git_sync.git_content_volume_mounts[i];
        assert(more[i + 1] == mount);
        volumes::lemma_put_mounts(extra.1, more, mount);
    }
    assert(more[0] == python[0]);
    volumes::lemma_put_mounts(extra.1, more, python[0]);
    assert(pod.outcome()->Ok_0.init_containers == pod.init_containers(
        prepare_mounts,
        others.git_sync_init,
    ));
    assert(pod.outcome()->Ok_0.containers == pod.containers(custom.1, others.sidecars));
    (custom.1, prepare_mounts)
}

/// The volumes of the user keep the mounts that are there.
proof fn lemma_extra_volumes_keep(
    mounts: Seq<VolumeMountView>,
    extra: Seq<VolumeView>,
    mount: VolumeMountView,
)
    requires
        node_pod::with_extra_volumes(Seq::empty(), mounts, extra).is_ok(),
        mounts.contains(mount),
    ensures
        node_pod::with_extra_volumes(Seq::empty(), mounts, extra)->Ok_0.1.contains(mount),
    decreases extra.len(),
{
    if extra.len() > 0 {
        lemma_extra_volumes_keep(mounts, extra.drop_last(), mount);
        let front = node_pod::with_extra_volumes(Seq::empty(), mounts, extra.drop_last())->Ok_0;
        let more = seq![node_pod::user_mount(extra.last())];
        reveal_with_fuel(volumes::put_mounts, 2);
        assert(more.drop_last() =~= Seq::empty());
        volumes::lemma_put_mounts(front.1, more, mount);
    }
}

/// The volumes of the pods, besides those of the user.
proof fn lemma_volumes(pod: NodePodView)
    requires
        pod.outcome().is_ok(),
    ensures
        pod.requested_secret_lifetime_seconds.is_some(),
        forall|i: int|
            0 <= i < pod.common_volumes(pod.requested_secret_lifetime_seconds.unwrap()).len()
                ==> pod.outcome()->Ok_0.volumes.contains(
                #[trigger] pod.common_volumes(pod.requested_secret_lifetime_seconds.unwrap())[i],
            ),
        forall|i: int|
            0 <= i < pod.authentication.volumes().len() ==> pod.outcome()->Ok_0.volumes.contains(
                #[trigger] pod.authentication.volumes()[i],
            ),
        forall|i: int|
            0 <= i < pod.git_sync.git_content_volumes.len()
                ==> pod.outcome()->Ok_0.volumes.contains(
                #[trigger] pod.git_sync.git_content_volumes[i],
            ),
        forall|i: int|
            0 <= i < pod.git_sync.git_ca_cert_volumes.len()
                ==> pod.outcome()->Ok_0.volumes.contains(
                #[trigger] pod.git_sync.git_ca_cert_volumes[i],
            ),
        pod.outcome()->Ok_0.volumes.contains(pod.log_config_volume()),
        pod.outcome()->Ok_0.volumes.contains(
            volumes::empty_volume(node_pod::PYTHON_WORKING_VOLUME_NAME@, None),
        ),
{
    let prepare = volumes::put_mounts(Seq::empty(), pod.prepare_mounts()).unwrap();
    let nifi = volumes::put_mounts(Seq::empty(), pod.nifi_mounts()).unwrap();
    let extra = node_pod::with_extra_volumes(Seq::empty(), nifi, pod.extra_volumes)->Ok_0;
    let custom = pod.with_custom_components(extra.0, extra.1)->Ok_0;
    let python = volumes::empty_volume(node_pod::PYTHON_WORKING_VOLUME_NAME@, None);
    let with_python = volumes::put_volume(extra.0, python).unwrap();
    let git = pod.git_sync.git_content_volumes + pod.git_sync.git_ca_cert_volumes + seq![
        pod.log_config_volume(),
    ];
    let with_auth = volumes::put_volumes(custom.0, pod.authentication.volumes()).unwrap();
    let common = pod.common_volumes(pod.requested_secret_lifetime_seconds.unwrap());
    let all = pod.outcome()->Ok_0.volumes;
    assert(Some(all) == volumes::put_volumes(with_auth, common));
    assert forall|volume: VolumeView|
        common.contains(volume) || pod.authentication.volumes().contains(volume) || git.contains(
            volume,
        ) || volume == python implies #[trigger] all.contains(volume) by {
        if volume == python {
            reveal_with_fuel(volumes::put_volumes, 2);
            assert(seq![python].drop_last() =~= Seq::empty());
            assert(seq![python][0] == python);
            volumes::lemma_put_volumes(extra.0, seq![python], python);
        }
        if git.contains(volume) || volume == python {
            volumes::lemma_put_volumes(with_python, git, volume);
        }
        if git.contains(volume) || volume == python || pod.authentication.volumes().contains(
            volume,
        ) {
            volumes::lemma_put_volumes(custom.0, pod.authentication.volumes(), volume);
        }
        volumes::lemma_put_volumes(with_auth, common, volume);
    }
    assert forall|i: int| 0 <= i < common.len() implies all.contains(#[trigger] common[i]) by {
        assert(common.contains(common[i]));
    }
    assert forall|i: int| 0 <= i < pod.authentication.volumes().len() implies all.contains(
        #[trigger] pod.authentication.volumes()[i],
    ) by {
        assert(pod.authentication.volumes().contains(pod.authentication.volumes()[i]));
    }
    assert forall|i: int| 0 <= i < pod.git_sync.git_content_volumes.len() implies all.contains(
        #[trigger] pod.git_sync.git_content_volumes[i],
    ) by {
        assert(git[i] == pod.git_sync.git_content_volumes[i]);
        assert(git.contains(git[i]));
    }
    assert forall|i: int| 0 <= i < pod.git_sync.git_ca_cert_volumes.len() implies all.contains(
        #[trigger] pod.git_sync.git_ca_cert_volumes[i],
    ) by {
        let at = pod.git_sync.git_content_volumes.len() + i;
        assert(git[at] == pod.git_sync.git_ca_cert_volumes[i]);
        assert(git.contains(git[at]));
    }
    assert(git[git.len() - 1] == pod.log_config_volume());
}

/// The names of the volumes of the repositories and the directories at which they are mounted.
proof fn lemma_repositories()
    ensures
        node_pod::repository_mounts() == seq![
            VolumeMountView {
                name: "flowfile-repository"@,
                mount_path: "/stackable/data/flowfile"@,
                sub_path: None,
            },
            VolumeMountView {
                name: "database-repository"@,
                mount_path: "/stackable/data/database"@,
                sub_path: None,
            },
            VolumeMountView {
                name: "content-repository"@,
                mount_path: "/stackable/data/content"@,
                sub_path: None,
            },
            VolumeMountView {
                name: "provenance-repository"@,
                mount_path: "/stackable/data/provenance"@,
                sub_path: None,
            },
            VolumeMountView {
                name: "state-repository"@,
                mount_path: "/stackable/data/state"@,
                sub_path: None,
            },
        ],
{
    reveal_strlit("/stackable/data");
    reveal_strlit("/");
    reveal_strlit("-repository");
    reveal_strlit("flowfile");
    reveal_strlit("database");
    reveal_strlit("content");
    reveal_strlit("provenance");
    reveal_strlit("state");
    reveal_strlit("flowfile-repository");
    reveal_strlit("database-repository");
    reveal_strlit("content-repository");
    reveal_strlit("provenance-repository");
    reveal_strlit("state-repository");
    reveal_strlit("/stackable/data/flowfile");
    reveal_strlit("/stackable/data/database");
    reveal_strlit("/stackable/data/content");
    reveal_strlit("/stackable/data/provenance");
    reveal_strlit("/stackable/data/state");
    assert("flowfile"@ + "-repository"@ =~= "flowfile-repository"@);
    assert("database"@ + "-repository"@ =~= "database-repository"@);
    assert("content"@ + "-repository"@ =~= "content-repository"@);
    assert("provenance"@ + "-repository"@ =~= "provenance-repository"@);
    assert("state"@ + "-repository"@ =~= "state-repository"@);
    let directory = "/stackable/data"@ + "/"@;
    assert(directory + "flowfile"@ =~= "/stackable/data/flowfile"@);
    assert(directory + "database"@ =~= "/stackable/data/database"@);
    assert(directory + "content"@ =~= "/stackable/data/content"@);
    assert(directory + "provenance"@ =~= "/stackable/data/provenance"@);
    assert(directory + "state"@ =~= "/stackable/data/state"@);
    assert(node_pod::repository_mounts() =~= seq![
        VolumeMountView {
            name: "flowfile-repository"@,
            mount_path: "/stackable/data/flowfile"@,
            sub_path: None,
        },
        VolumeMountView {
            name: "database-repository"@,
            mount_path: "/stackable/data/database"@,
            sub_path: None,
        },
        VolumeMountView {
            name: "content-repository"@,
            mount_path: "/stackable/data/content"@,
            sub_path: None,
        },
        VolumeMountView {
            name: "provenance-repository"@,
            mount_path: "/stackable/data/provenance"@,
            sub_path: None,
        },
        VolumeMountView {
            name: "state-repository"@,
            mount_path: "/stackable/data/state"@,
            sub_path: None,
        },
    ]);
}

/// Whether a container mounts the volume of every repository at the directory of that repository.
pub open spec fn mounts_repositories(container: ContainerView) -> bool {
    &&& mounts_at(container, "flowfile-repository"@, "/stackable/data/flowfile"@)
    &&& mounts_at(container, "database-repository"@, "/stackable/data/database"@)
    &&& mounts_at(container, "content-repository"@, "/stackable/data/content"@)
    &&& mounts_at(container, "provenance-repository"@, "/stackable/data/provenance"@)
    &&& mounts_at(container, "state-repository"@, "/stackable/data/state"@)
}

/// The volume of every repository is mounted at the directory of that repository, where NiFi runs
/// and where its configuration is prepared.
pub proof fn law_repositories_are_mounted(pod: NodePodView)
    requires
        pod.outcome().is_ok(),
    ensures
        mounts_repositories(nifi_container(pod.outcome()->Ok_0)),
        mounts_repositories(prepare_container(pod.outcome()->Ok_0)),
{
    let (nifi, prepare) = lemma_template(pod);
    lemma_repositories();
    let mounts = node_pod::repository_mounts();
    assert forall|i: int| 0 <= i < 5 implies nifi.contains(#[trigger] mounts[i])
        && prepare.contains(mounts[i]) by {
        assert(pod.nifi_mounts()[i + 1] == mounts[i]);
        assert(pod.prepare_mounts()[i] == mounts[i]);
    }
    assert(nifi.contains(mounts[0]) && nifi.contains(mounts[1]) && nifi.contains(mounts[2])
        && nifi.contains(mounts[3]) && nifi.contains(mounts[4]));
}

/// NiFi runs on the live configuration, with its key and trust store, writes its logs where the log
/// agent reads them, and reads its address from the Listener. The prepare container makes the live
/// configuration from the built one, and has the key of the sensitive properties for it.
pub proof fn law_configuration_is_mounted(pod: NodePodView)
    requires
        pod.outcome().is_ok(),
    ensures
        ({
            let nifi = nifi_container(pod.outcome()->Ok_0);
            &&& mounts_at(nifi, "activeconf"@, "/stackable/nifi/conf"@)
            &&& mounts_at(nifi, "keystore"@, "/stackable/keystore"@)
            &&& mounts_at(nifi, "truststore"@, "/stackable/server_tls"@)
            &&& mounts_at(nifi, "log-config"@, "/stackable/log_config"@)
            &&& mounts_at(nifi, "log"@, "/stackable/log"@)
            &&& mounts_at(nifi, "listener"@, "/stackable/listener"@)
            &&& mounts_at(
                nifi,
                "nifi-python-working-directory"@,
                "/nifi-python-working-directory"@,
            )
        }),
        ({
            let prepare = prepare_container(pod.outcome()->Ok_0);
            &&& mounts_at(prepare, "conf"@, "/conf"@)
            &&& mounts_at(prepare, "activeconf"@, "/stackable/nifi/conf"@)
            &&& mounts_at(prepare, "keystore"@, "/stackable/keystore"@)
            &&& mounts_at(prepare, "truststore"@, "/stackable/server_tls"@)
            &&& mounts_at(prepare, "sensitiveproperty"@, "/stackable/sensitiveproperty"@)
            &&& mounts_at(prepare, "log"@, "/stackable/log"@)
            &&& mounts_at(prepare, "listener"@, "/stackable/listener"@)
        }),
{
    let (nifi, prepare) = lemma_template(pod);
    let n = pod.nifi_mounts();
    let p = pod.prepare_mounts();
    assert(nifi.contains(n[0]) && nifi.contains(n[6]) && nifi.contains(n[7]) && nifi.contains(n[8])
        && nifi.contains(n[9]) && nifi.contains(n[10]));
    assert(prepare.contains(p[5]) && prepare.contains(p[6]) && prepare.contains(p[7])
        && prepare.contains(p[8]) && prepare.contains(p[9]) && prepare.contains(p[10])
        && prepare.contains(p[11]));
}

/// What the mounted volumes are: the ConfigMap of the role group is the built configuration, and of
/// the log configuration too unless the user brings another one; the Secret with the key of the
/// sensitive properties; the certificate that the wanted SecretClass issues for the Listener and
/// the named Services, for the wanted time; and empty directories for what the containers share.
pub proof fn law_volumes_hold_what_is_mounted(pod: NodePodView)
    requires
        pod.outcome().is_ok(),
    ensures
        ({
            let volumes = pod.outcome()->Ok_0.volumes;
            &&& volumes.contains(
                VolumeView {
                    name: "conf"@,
                    source: VolumeSourceView::ConfigMap { name: pod.config_map },
                },
            )
            &&& volumes.contains(
                VolumeView {
                    name: "config"@,
                    source: VolumeSourceView::ConfigMap { name: pod.config_map },
                },
            )
            &&& volumes.contains(
                VolumeView {
                    name: "log-config"@,
                    source: VolumeSourceView::ConfigMap {
                        name: if pod.custom_log_config_map.is_some() {
                            pod.custom_log_config_map.unwrap()
                        } else {
                            pod.config_map
                        },
                    },
                },
            )
            &&& volumes.contains(
                VolumeView {
                    name: "sensitiveproperty"@,
                    source: VolumeSourceView::Secret {
                        secret_name: pod.sensitive_key_secret,
                        optional: None,
                        items: Seq::empty(),
                    },
                },
            )
            &&& pod.requested_secret_lifetime_seconds.is_some()
            &&& volumes.contains(
                VolumeView {
                    name: "keystore"@,
                    source: VolumeSourceView::Tls {
                        secret_class: pod.server_tls_secret_class,
                        service_scopes: pod.tls_service_scopes,
                        format: SecretFormat::TlsPkcs12,
                        requested_lifetime_seconds: pod.requested_secret_lifetime_seconds.unwrap(),
                        listener_scope: Some("listener"@),
                    },
                },
            )
            &&& volumes.contains(
                VolumeView {
                    name: "log"@,
                    source: VolumeSourceView::EmptyDir { size_limit: Some("500Mi"@) },
                },
            )
            &&& volumes.contains(
                VolumeView {
                    name: "truststore"@,
                    source: VolumeSourceView::EmptyDir { size_limit: None },
                },
            )
            &&& volumes.contains(
                VolumeView {
                    name: "activeconf"@,
                    source: VolumeSourceView::EmptyDir { size_limit: None },
                },
            )
            &&& volumes.contains(
                VolumeView {
                    name: "nifi-python-working-directory"@,
                    source: VolumeSourceView::EmptyDir { size_limit: None },
                },
            )
        }),
{
    lemma_volumes(pod);
    let all = pod.outcome()->Ok_0.volumes;
    let common = pod.common_volumes(pod.requested_secret_lifetime_seconds.unwrap());
    let n = pod.authorization_volumes.len() as int;
    assert(all.contains(common[0]) && all.contains(common[1]) && all.contains(common[2])
        && all.contains(common[3]) && all.contains(common[4]));
    assert(all.contains(common[n + 5]) && all.contains(common[n + 6]));
}

/// The volumes of the authentication, of the authorization and of custom components are in the
/// pods. The prepare container mounts those of the authentication and of the authorization, the
/// nifi container those of the authorization and of custom components.
pub proof fn law_credentials_and_components_are_mounted(pod: NodePodView, i: int)
    requires
        pod.outcome().is_ok(),
    ensures
        ({
            let template = pod.outcome()->Ok_0;
            let nifi = nifi_container(template).volume_mounts;
            let prepare = prepare_container(template).volume_mounts;
            &&& 0 <= i < pod.authentication.volumes().len() ==> template.volumes.contains(
                pod.authentication.volumes()[i],
            )
            &&& 0 <= i < pod.authentication.volume_mounts().len() ==> prepare.contains(
                pod.authentication.volume_mounts()[i],
            )
            &&& 0 <= i < pod.authorization_volumes.len() ==> template.volumes.contains(
                pod.authorization_volumes[i],
            )
            &&& 0 <= i < pod.authorization_mounts.len() ==> prepare.contains(
                pod.authorization_mounts[i],
            ) && nifi.contains(pod.authorization_mounts[i])
            &&& 0 <= i < pod.git_sync.git_content_volumes.len() ==> template.volumes.contains(
                pod.git_sync.git_content_volumes[i],
            )
            &&& 0 <= i < pod.git_sync.git_ca_cert_volumes.len() ==> template.volumes.contains(
                pod.git_sync.git_ca_cert_volumes[i],
            )
            &&& 0 <= i < pod.git_sync.git_content_volume_mounts.len() ==> nifi.contains(
                pod.git_sync.git_content_volume_mounts[i],
            )
        }),
{
    let (nifi, prepare) = lemma_template(pod);
    lemma_volumes(pod);
    let common = pod.common_volumes(pod.requested_secret_lifetime_seconds.unwrap());
    if 0 <= i < pod.authorization_volumes.len() {
        assert(common[i + 5] == pod.authorization_volumes[i]);
    }
    if 0 <= i < pod.authorization_mounts.len() {
        assert(pod.nifi_mounts()[i + 11] == pod.authorization_mounts[i]);
        assert(pod.prepare_mounts()[i + 12] == pod.authorization_mounts[i]);
    }
}

/// The nifi container offers the user interface, the protocol between nodes and the balancing of
/// load, and for NiFi 1.x, and only then, a port for metrics. It is started and kept alive by its
/// user interface.
pub proof fn law_nifi_offers_its_ports(pod: NodePodView)
    requires
        pod.outcome().is_ok(),
    ensures
        ({
            let nifi = nifi_container(pod.outcome()->Ok_0);
            &&& offers(nifi, "https"@, 8443)
            &&& offers(nifi, "protocol"@, 9088)
            &&& offers(nifi, "balance"@, 6243)
            &&& "1."@.is_prefix_of(pod.image.product_version) ==> offers(nifi, "metrics"@, 8081)
            &&& !"1."@.is_prefix_of(pod.image.product_version) ==> forall|i: int|
                0 <= i < nifi.ports.len() ==> (#[trigger] nifi.ports[i]).name != Some("metrics"@)
            &&& nifi.liveness_probe.is_some() && nifi.liveness_probe.unwrap().tcp_socket.is_some()
            &&& nifi.liveness_probe.unwrap().tcp_socket.unwrap().port == "https"@
            &&& nifi.startup_probe.is_some() && nifi.startup_probe.unwrap().tcp_socket.is_some()
            &&& nifi.startup_probe.unwrap().tcp_socket.unwrap().port == "https"@
            // The time to start: twenty minutes, in steps of ten seconds.
            &&& nifi.startup_probe.unwrap().period_seconds == Some(10i32)
            &&& nifi.startup_probe.unwrap().failure_threshold == Some(120i32)
            &&& nifi.startup_probe.unwrap().initial_delay_seconds == Some(10i32)
            &&& nifi.liveness_probe.unwrap().period_seconds == Some(10i32)
            &&& nifi.liveness_probe.unwrap().failure_threshold == None::<i32>
            &&& nifi.liveness_probe.unwrap().initial_delay_seconds == Some(10i32)
            &&& nifi.readiness_probe.is_none()
        }),
{
    let (nifi, prepare) = lemma_template(pod);
    reveal_strlit("https");
    reveal_strlit("protocol");
    reveal_strlit("balance");
    reveal_strlit("metrics");
    assert("https"@[0] == 'h');
    assert("protocol"@[0] == 'p');
    assert("balance"@[0] == 'b');
    assert("metrics"@[0] == 'm');
    let ports = pod.ports();
    assert(ports[0].name == Some("https"@));
    assert(ports[1].name == Some("protocol"@));
    assert(ports[2].name == Some("balance"@));
    if "1."@.is_prefix_of(pod.image.product_version) {
        assert(ports[3].name == Some("metrics"@));
    }
}

/// Both containers run the image of the cluster. The nifi container has the processors and the
/// memory of the role group, and never shares its memory; the prepare container has fixed ones.
pub proof fn law_containers_have_their_resources(pod: NodePodView)
    requires
        pod.outcome().is_ok(),
    ensures
        ({
            let nifi = nifi_container(pod.outcome()->Ok_0);
            let prepare = prepare_container(pod.outcome()->Ok_0);
            &&& pod.outcome()->Ok_0.containers[0] is Own
            &&& pod.outcome()->Ok_0.init_containers.last() is Own
            &&& nifi.name == "nifi"@ && prepare.name == "prepare"@
            &&& nifi.image == Some(pod.image.image) && prepare.image == Some(pod.image.image)
            &&& nifi.image_pull_policy == Some(pod.image.image_pull_policy)
            &&& prepare.image_pull_policy == Some(pod.image.image_pull_policy)
            &&& nifi.resources.is_some() && prepare.resources.is_some()
            &&& nifi.resources.unwrap().cpu_request == pod.resources.cpu_min
            &&& nifi.resources.unwrap().cpu_limit == pod.resources.cpu_max
            &&& nifi.resources.unwrap().memory_request == pod.resources.memory_limit
            &&& nifi.resources.unwrap().memory_limit == pod.resources.memory_limit
            &&& prepare.resources.unwrap().cpu_request == Some("500m"@)
            &&& prepare.resources.unwrap().cpu_limit == Some("2000m"@)
            &&& prepare.resources.unwrap().memory_request == Some("4096Mi"@)
            &&& prepare.resources.unwrap().memory_limit == Some("4096Mi"@)
            &&& prepare.ports.len() == 0
        }),
{
    let (nifi, prepare) = lemma_template(pod);
}

/// The pods run under the given account, where the affinity wants them, with the time to shut down
/// that the role group gives them, under the labels by which they are found; and all overrides of
/// the user are merged into them, in their order.
pub proof fn law_pods_are_scheduled_as_wanted(pod: NodePodView)
    requires
        pod.outcome().is_ok(),
    ensures
        ({
            let template = pod.outcome()->Ok_0;
            &&& template.service_account_name == Some(pod.service_account_name)
            &&& template.affinity == Some(pod.affinity)
            &&& template.metadata.labels == pod.labels
            &&& template.image_pull_secrets == pod.image.pull_secrets
            &&& template.fs_group == Some(1000i64)
            &&& template.restart_policy == None::<Seq<char>>
            &&& template.overrides == pod.overrides
            &&& pod.graceful_shutdown_timeout_seconds.is_none()
                ==> template.termination_grace_period_seconds == None::<i64>
            &&& pod.graceful_shutdown_timeout_seconds.is_some()
                ==> template.termination_grace_period_seconds.is_some()
                && template.termination_grace_period_seconds.unwrap()
                == pod.graceful_shutdown_timeout_seconds.unwrap()
        }),
{
}

/// Both containers have the same variables: those of the user, the name of the pod, of the cluster,
/// where what is found out about the container is written, and, where ZooKeeper manages the
/// cluster, where it is found; and those of the authentication and of the authorization. They have
/// no others.
pub proof fn law_containers_have_their_variables(pod: NodePodView, key: Seq<char>, i: int)
    requires
        pod.outcome().is_ok(),
    ensures
        ({
            let env = nifi_container(pod.outcome()->Ok_0).env;
            &&& prepare_container(pod.outcome()->Ok_0).env == env
            &&& env.len() == crate::ordered_map::ordered_entries(pod.env_overrides).len() + 3 + (
            if pod.clustering_backend is ZooKeeper {
                2int
            } else {
                0
            }) + pod.authentication.env_vars().len() + pod.authorization_env_vars.len()
            &&& env.contains(
                EnvVarView {
                    name: "CONTAINERDEBUG_LOG_DIRECTORY"@,
                    source: EnvVarSourceView::Literal { value: "/stackable/log/containerdebug"@ },
                },
            )
            &&& env.contains(
                EnvVarView {
                    name: "POD_NAME"@,
                    source: EnvVarSourceView::PodField {
                        api_version: "v1"@,
                        field_path: "metadata.name"@,
                    },
                },
            )
            &&& env.contains(
                EnvVarView {
                    name: "STACKLET_NAME"@,
                    source: EnvVarSourceView::Literal { value: pod.cluster_name },
                },
            )
            &&& match pod.clustering_backend {
                NifiClusteringBackendView::ZooKeeper { zookeeper_config_map_name } => env.contains(
                    EnvVarView {
                        name: "ZOOKEEPER_HOSTS"@,
                        source: EnvVarSourceView::ConfigMapKey {
                            name: zookeeper_config_map_name,
                            key: "ZOOKEEPER_HOSTS"@,
                        },
                    },
                ) && env.contains(
                    EnvVarView {
                        name: "ZOOKEEPER_CHROOT"@,
                        source: EnvVarSourceView::ConfigMapKey {
                            name: zookeeper_config_map_name,
                            key: "ZOOKEEPER_CHROOT"@,
                        },
                    },
                ),
                NifiClusteringBackendView::Kubernetes => true,
            }
            &&& 0 <= i < pod.authentication.env_vars().len() ==> env.contains(
                pod.authentication.env_vars()[i],
            )
            &&& 0 <= i < pod.authorization_env_vars.len() ==> env.contains(
                pod.authorization_env_vars[i],
            )
            &&& 0 <= i < crate::ordered_map::ordered_entries(pod.env_overrides).len()
                ==> env.contains(
                EnvVarView {
                    name: crate::ordered_map::ordered_entries(pod.env_overrides)[i].0,
                    source: EnvVarSourceView::Literal {
                        value: crate::ordered_map::ordered_entries(pod.env_overrides)[i].1,
                    },
                },
            )
        }),
{
    let (nifi, prepare) = lemma_template(pod);
    let env = pod.env_vars();
    let own = node_pod::literal_env_vars(pod.env_overrides);
    let n = own.len() as int;
    let common = pod.common_env_vars();
    reveal_strlit("/stackable/log");
    reveal_strlit("/containerdebug");
    reveal_strlit("/stackable/log/containerdebug");
    assert("/stackable/log"@ + "/containerdebug"@ =~= "/stackable/log/containerdebug"@);
    assert(env[n] == common[0]);
    assert(env[n + 1] == common[1]);
    assert(env[n + 2] == common[2]);
    let z = pod.zookeeper_env_vars().len() as int;
    if z > 0 {
        assert(env[n + 3] == pod.zookeeper_env_vars()[0]);
        assert(env[n + 4] == pod.zookeeper_env_vars()[1]);
    }
    let a = pod.authentication.env_vars().len() as int;
    if 0 <= i < a {
        assert(env[n + 3 + z + i] == pod.authentication.env_vars()[i]);
    }
    if 0 <= i < pod.authorization_env_vars.len() {
        assert(env[n + 3 + z + a + i] == pod.authorization_env_vars[i]);
    }
    if 0 <= i < n {
        assert(env[i] == own[i]);
    }
}

/// Pods are refused where their time to shut down is longer than a pod can be given, where their
/// certificates have no lifetime, and where their log agent cannot run; and they are refused for
/// such a reason only where it holds. All other reasons are clashes of volumes or mounts.
pub proof fn law_pods_are_refused_for_these_reasons(pod: NodePodView)
    ensures
        ({
            let outcome = pod.outcome();
            let too_long = pod.graceful_shutdown_timeout_seconds.is_some()
                && pod.graceful_shutdown_timeout_seconds.unwrap() > i64::MAX;
            &&& outcome.is_ok() ==> !too_long && pod.requested_secret_lifetime_seconds.is_some()
                && pod.vector_failure.is_none()
            &&& too_long ==> outcome->Err_0 == Error::GracefulShutdown || outcome->Err_0
                == Error::AddVolumeMount
            &&& pod.vector_failure.is_none() && outcome.is_err() ==> {
                &&& outcome->Err_0 == Error::GracefulShutdown ==> too_long
                &&& outcome->Err_0 == Error::MissingSecretLifetime
                    ==> pod.requested_secret_lifetime_seconds.is_none()
                &&& outcome->Err_0 != Error::VectorAggregatorConfigMapMissing
                &&& outcome->Err_0 != Error::ConfigureLogging
            }
        }),
{
    if pod.vector_failure.is_none() && pod.outcome().is_err() {
        let prepare = volumes::put_mounts(Seq::empty(), pod.prepare_mounts());
        let nifi = volumes::put_mounts(Seq::empty(), pod.nifi_mounts());
        if prepare.is_some() && nifi.is_some() {
            lemma_extra_volume_errors(Seq::empty(), nifi.unwrap(), pod.extra_volumes);
        }
    }
}

/// Volumes of the user are refused for clashes only.
proof fn lemma_extra_volume_errors(
    all: Seq<VolumeView>,
    mounts: Seq<VolumeMountView>,
    extra: Seq<VolumeView>,
)
    ensures
        node_pod::with_extra_volumes(all, mounts, extra) matches Err(error) ==> error
            == Error::AddVolume || error == Error::AddVolumeMount,
    decreases extra.len(),
{
    if extra.len() > 0 {
        lemma_extra_volume_errors(all, mounts, extra.drop_last());
    }
}

} // verus!
