//! What the containers that synchronise custom components from Git are made from.

use crate::contents::Copied;
use crate::controller::build::resource::node_pod;
use crate::controller::build::resource::node_pod::{env_vars_of, LOG_VOLUME_NAME};
use crate::controller::{ResolvedProductImage, ResolvedProductImageView};
use crate::crd::{Container, ContainerLogConfig, ContainerLogConfigView, Logging, LoggingView};
use crate::kubernetes::{EnvVar, EnvVarView, VolumeMount, VolumeMountView};
use crate::list::empty_list;
use crate::ordered_map::StringMap;
use vstd::prelude::*;

verus! {

/// What the containers that synchronise from Git are made from, besides the repositories.
#[derive(Debug, PartialEq, Eq)]
pub struct GitSyncRequest {
    pub image: ResolvedProductImage,
    pub env_vars: Vec<EnvVar>,
    pub extra_volume_mounts: Vec<VolumeMount>,
    pub log_volume_name: String,
    /// The log configuration of these containers, where there is one.
    pub log_config: Option<ContainerLogConfig>,
}

/// The contents of a [`GitSyncRequest`].
#[verifier::ext_equal]
pub struct GitSyncRequestView {
    pub image: ResolvedProductImageView,
    pub env_vars: Seq<EnvVarView>,
    pub extra_volume_mounts: Seq<VolumeMountView>,
    pub log_volume_name: Seq<char>,
    pub log_config: Option<ContainerLogConfigView>,
}

impl DeepView for GitSyncRequest {
    type V = GitSyncRequestView;

    open spec fn deep_view(&self) -> GitSyncRequestView {
        GitSyncRequestView {
            image: self.image.deep_view(),
            env_vars: self.env_vars.deep_view(),
            extra_volume_mounts: self.extra_volume_mounts.deep_view(),
            log_volume_name: self.log_volume_name.deep_view(),
            log_config: self.log_config.deep_view(),
        }
    }
}

impl LoggingView {
    /// The log configuration of a container, where there is one.
    pub open spec fn of_container(self, container: Container) -> Option<ContainerLogConfigView> {
        if self.containers.dom().contains(container.text()) {
            Some(self.containers[container.text()])
        } else {
            None
        }
    }
}

impl Logging {
    /// The log configuration of a container, where there is one.
    pub fn for_container(&self, container: &Container) -> (config: Option<ContainerLogConfig>)
        ensures
            config.deep_view() == self.deep_view().of_container(*container),
    {
        match self.containers.get(container.as_str()) {
            Some(config) => Some(config.copied()),
            None => None,
        }
    }
}

/// What the containers of a role group that synchronise from Git are made from.
///
/// The environment variables and the log configuration differ from role group to role group.
pub fn build_git_sync_resources(
    image: &ResolvedProductImage,
    logging: &Logging,
    env_overrides: &StringMap,
) -> (request: GitSyncRequest)
    ensures
        request.deep_view() == (GitSyncRequestView {
            image: image.deep_view(),
            env_vars: node_pod::literal_env_vars(env_overrides@),
            extra_volume_mounts: Seq::empty(),
            log_volume_name: LOG_VOLUME_NAME@,
            log_config: logging.deep_view().of_container(Container::GitSync),
        }),
{
    GitSyncRequest {
        image: image.copied(),
        env_vars: env_vars_of(env_overrides),
        extra_volume_mounts: empty_list(),
        log_volume_name: LOG_VOLUME_NAME.to_owned(),
        log_config: logging.for_container(&Container::GitSync),
    }
}

/// The log configuration of the containers that synchronise from Git is the one that the user gives
/// under their name, and none where the user gives none.
pub proof fn law_git_sync_has_its_own_log_configuration(logging: LoggingView)
    ensures
        logging.containers.dom().contains("git-sync"@) ==> logging.of_container(Container::GitSync)
            == Some(logging.containers["git-sync"@]),
        !logging.containers.dom().contains("git-sync"@) ==> logging.of_container(Container::GitSync)
            == None::<ContainerLogConfigView>,
{
}

} // verus!
