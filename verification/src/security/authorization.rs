//! What users may do.

use crate::contents::Copied;
use crate::crd::authorization::{NifiAccessPolicyProvider, NifiAccessPolicyProviderView};
use crate::kubernetes::{EnvVar, EnvVarView, Volume, VolumeMount, VolumeMountView, VolumeView};
use crate::list::empty_list;
use crate::security::authentication::{
    AUTHORIZERS_FOOTER, AUTHORIZERS_HEADER, SINGLE_USER_AUTHORIZER,
};
use crate::text::concat3;
use vstd::prelude::*;

verus! {

/// Where the certificate of an OPA is mounted.
pub const OPA_TLS_MOUNT_PATH: &'static str = "/stackable/opa_tls";

/// What an authorizer needs in a pod.
#[derive(Debug, PartialEq, Eq)]
pub struct AuthorizerSettings {
    /// The file with the authorizers.
    pub authorizers_xml: String,
    pub env_vars: Vec<EnvVar>,
    pub volumes: Vec<Volume>,
    pub volume_mounts: Vec<VolumeMount>,
}

/// The contents of a [`AuthorizerSettings`].
#[verifier::ext_equal]
pub struct AuthorizerSettingsView {
    pub authorizers_xml: Seq<char>,
    pub env_vars: Seq<EnvVarView>,
    pub volumes: Seq<VolumeView>,
    pub volume_mounts: Seq<VolumeMountView>,
}

impl DeepView for AuthorizerSettings {
    type V = AuthorizerSettingsView;

    open spec fn deep_view(&self) -> AuthorizerSettingsView {
        AuthorizerSettingsView {
            authorizers_xml: self.authorizers_xml.deep_view(),
            env_vars: self.env_vars.deep_view(),
            volumes: self.volumes.deep_view(),
            volume_mounts: self.volume_mounts.deep_view(),
        }
    }
}

impl Copied for AuthorizerSettings {
    fn copied(&self) -> (copy: AuthorizerSettings) {
        AuthorizerSettings {
            authorizers_xml: self.authorizers_xml.copied(),
            env_vars: self.env_vars.copied(),
            volumes: self.volumes.copied(),
            volume_mounts: self.volume_mounts.copied(),
        }
    }
}

/// What users may do.
#[derive(Debug, PartialEq, Eq)]
pub enum ResolvedNifiAuthorizationConfig {
    /// An OPA decides.
    Opa {
        settings: AuthorizerSettings,
        /// Whether the OPA is reached by TLS.
        tls: bool,
    },
    /// The single user may do everything.
    SingleUser,
    /// NiFi's own policies.
    Standard {
        access_policy_provider: NifiAccessPolicyProvider,
        settings: AuthorizerSettings,
    },
}

/// The contents of a [`ResolvedNifiAuthorizationConfig`].
#[verifier::ext_equal]
pub enum ResolvedNifiAuthorizationConfigView {
    Opa { settings: AuthorizerSettingsView, tls: bool },
    SingleUser,
    Standard {
        access_policy_provider: NifiAccessPolicyProviderView,
        settings: AuthorizerSettingsView,
    },
}

impl DeepView for ResolvedNifiAuthorizationConfig {
    type V = ResolvedNifiAuthorizationConfigView;

    open spec fn deep_view(&self) -> ResolvedNifiAuthorizationConfigView {
        match self {
            ResolvedNifiAuthorizationConfig::Opa { settings, tls } =>
                ResolvedNifiAuthorizationConfigView::Opa {
                    settings: settings.deep_view(),
                    tls: tls.deep_view(),
                },
            ResolvedNifiAuthorizationConfig::SingleUser =>
                ResolvedNifiAuthorizationConfigView::SingleUser,
            ResolvedNifiAuthorizationConfig::Standard { access_policy_provider, settings } =>
                ResolvedNifiAuthorizationConfigView::Standard {
                    access_policy_provider: access_policy_provider.deep_view(),
                    settings: settings.deep_view(),
                },
        }
    }
}

impl Copied for ResolvedNifiAuthorizationConfig {
    fn copied(&self) -> (copy: ResolvedNifiAuthorizationConfig) {
        match self {
            ResolvedNifiAuthorizationConfig::Opa { settings, tls } =>
                ResolvedNifiAuthorizationConfig::Opa {
                    settings: settings.copied(),
                    tls: *tls,
                },
            ResolvedNifiAuthorizationConfig::SingleUser =>
                ResolvedNifiAuthorizationConfig::SingleUser,
            ResolvedNifiAuthorizationConfig::Standard { access_policy_provider, settings } =>
                ResolvedNifiAuthorizationConfig::Standard {
                    access_policy_provider: access_policy_provider.copied(),
                    settings: settings.copied(),
                },
        }
    }
}

impl ResolvedNifiAuthorizationConfigView {
    /// What the file with the authorizers holds.
    pub open spec fn authorizers(self) -> Seq<char> {
        match self {
            ResolvedNifiAuthorizationConfigView::Opa { settings, .. } => settings.authorizers_xml,
            ResolvedNifiAuthorizationConfigView::SingleUser => AUTHORIZERS_HEADER@
                + SINGLE_USER_AUTHORIZER@ + AUTHORIZERS_FOOTER@,
            ResolvedNifiAuthorizationConfigView::Standard { settings, .. } =>
                settings.authorizers_xml,
        }
    }

    /// The environment variables that the authorizer needs.
    pub open spec fn env_vars(self) -> Seq<EnvVarView> {
        match self {
            ResolvedNifiAuthorizationConfigView::Opa { settings, .. } => settings.env_vars,
            ResolvedNifiAuthorizationConfigView::SingleUser => Seq::empty(),
            ResolvedNifiAuthorizationConfigView::Standard { settings, .. } => settings.env_vars,
        }
    }

    /// The volumes that the authorizer needs.
    pub open spec fn volumes(self) -> Seq<VolumeView> {
        match self {
            ResolvedNifiAuthorizationConfigView::Opa { settings, .. } => settings.volumes,
            ResolvedNifiAuthorizationConfigView::SingleUser => Seq::empty(),
            ResolvedNifiAuthorizationConfigView::Standard { settings, .. } => settings.volumes,
        }
    }

    /// The mounts of these volumes.
    pub open spec fn volume_mounts(self) -> Seq<VolumeMountView> {
        match self {
            ResolvedNifiAuthorizationConfigView::Opa { settings, .. } => settings.volume_mounts,
            ResolvedNifiAuthorizationConfigView::SingleUser => Seq::empty(),
            ResolvedNifiAuthorizationConfigView::Standard { settings, .. } =>
                settings.volume_mounts,
        }
    }

    /// Whether an OPA is reached by TLS.
    pub open spec fn opa_tls(self) -> bool {
        match self {
            ResolvedNifiAuthorizationConfigView::Opa { tls, .. } => tls,
            _ => false,
        }
    }

    /// Whether policies are kept in files.
    pub open spec fn file_based(self) -> bool {
        match self {
            ResolvedNifiAuthorizationConfigView::Standard { .. } => true,
            _ => false,
        }
    }
}

impl ResolvedNifiAuthorizationConfig {
    /// The file with the authorizers.
    pub fn get_authorizers_config(&self) -> (xml: String)
        ensures
            xml@ == self.deep_view().authorizers(),
    {
        match self {
            ResolvedNifiAuthorizationConfig::Opa { settings, .. } =>
                settings.authorizers_xml.copied(),
            ResolvedNifiAuthorizationConfig::SingleUser => concat3(
                AUTHORIZERS_HEADER,
                SINGLE_USER_AUTHORIZER,
                AUTHORIZERS_FOOTER,
            ),
            ResolvedNifiAuthorizationConfig::Standard {
                settings,
                ..
            } => settings.authorizers_xml.copied(),
        }
    }

    /// The environment variables that the authorizer needs.
    pub fn get_env_vars(&self) -> (env_vars: Vec<EnvVar>)
        ensures
            env_vars.deep_view() == self.deep_view().env_vars(),
    {
        match self {
            ResolvedNifiAuthorizationConfig::Opa { settings, .. } => settings.env_vars.copied(),
            ResolvedNifiAuthorizationConfig::SingleUser => empty_list(),
            ResolvedNifiAuthorizationConfig::Standard { settings, .. } =>
                settings.env_vars.copied(),
        }
    }

    /// The volumes that the authorizer needs.
    pub fn get_volumes(&self) -> (volumes: Vec<Volume>)
        ensures
            volumes.deep_view() == self.deep_view().volumes(),
    {
        match self {
            ResolvedNifiAuthorizationConfig::Opa { settings, .. } => settings.volumes.copied(),
            ResolvedNifiAuthorizationConfig::SingleUser => empty_list(),
            ResolvedNifiAuthorizationConfig::Standard { settings, .. } => settings.volumes.copied(),
        }
    }

    /// The mounts of these volumes.
    pub fn get_volume_mounts(&self) -> (mounts: Vec<VolumeMount>)
        ensures
            mounts.deep_view() == self.deep_view().volume_mounts(),
    {
        match self {
            ResolvedNifiAuthorizationConfig::Opa { settings, .. } =>
                settings.volume_mounts.copied(),
            ResolvedNifiAuthorizationConfig::SingleUser => empty_list(),
            ResolvedNifiAuthorizationConfig::Standard {
                settings,
                ..
            } => settings.volume_mounts.copied(),
        }
    }

    /// Whether an OPA is reached by TLS.
    pub fn has_opa_tls(&self) -> (yes: bool)
        ensures
            yes == self.deep_view().opa_tls(),
    {
        match self {
            ResolvedNifiAuthorizationConfig::Opa { tls, .. } => *tls,
            _ => false,
        }
    }

    /// Whether policies are kept in files.
    pub fn is_file_based(&self) -> (yes: bool)
        ensures
            yes == self.deep_view().file_based(),
    {
        match self {
            ResolvedNifiAuthorizationConfig::Standard { .. } => true,
            _ => false,
        }
    }
}

} // verus!
