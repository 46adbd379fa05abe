//! The authorization settings of a cluster.

use crate::contents::Copied;
use vstd::prelude::*;

verus! {

/// The OPA that answers authorization queries.
#[derive(Debug, PartialEq, Eq)]
pub struct OpaConfig {
    /// The discovery ConfigMap of the OPA.
    pub config_map_name: String,
    pub package: Option<String>,
}

/// The contents of a [`OpaConfig`].
#[verifier::ext_equal]
pub struct OpaConfigView {
    pub config_map_name: Seq<char>,
    pub package: Option<Seq<char>>,
}

impl DeepView for OpaConfig {
    type V = OpaConfigView;

    open spec fn deep_view(&self) -> OpaConfigView {
        OpaConfigView {
            config_map_name: self.config_map_name.deep_view(),
            package: self.package.deep_view(),
        }
    }
}

impl Copied for OpaConfig {
    fn copied(&self) -> (copy: OpaConfig) {
        OpaConfig {
            config_map_name: self.config_map_name.copied(),
            package: self.package.copied(),
        }
    }
}

/// How long answers are kept.
#[derive(Debug, PartialEq, Eq)]
pub struct UserInformationCache {
    pub entry_time_to_live_seconds: u64,
    pub max_entries: u32,
}

/// The contents of a [`UserInformationCache`].
#[verifier::ext_equal]
pub struct UserInformationCacheView {
    pub entry_time_to_live_seconds: u64,
    pub max_entries: u32,
}

impl DeepView for UserInformationCache {
    type V = UserInformationCacheView;

    open spec fn deep_view(&self) -> UserInformationCacheView {
        UserInformationCacheView {
            entry_time_to_live_seconds: self.entry_time_to_live_seconds.deep_view(),
            max_entries: self.max_entries.deep_view(),
        }
    }
}

impl Copied for UserInformationCache {
    fn copied(&self) -> (copy: UserInformationCache) {
        UserInformationCache {
            entry_time_to_live_seconds: self.entry_time_to_live_seconds,
            max_entries: self.max_entries,
        }
    }
}

/// Authorization by an OPA.
#[derive(Debug, PartialEq, Eq)]
pub struct NifiOpaConfig {
    pub opa: OpaConfig,
    pub cache: UserInformationCache,
}

/// The contents of a [`NifiOpaConfig`].
#[verifier::ext_equal]
pub struct NifiOpaConfigView {
    pub opa: OpaConfigView,
    pub cache: UserInformationCacheView,
}

impl DeepView for NifiOpaConfig {
    type V = NifiOpaConfigView;

    open spec fn deep_view(&self) -> NifiOpaConfigView {
        NifiOpaConfigView {
            opa: self.opa.deep_view(),
            cache: self.cache.deep_view(),
        }
    }
}

impl Copied for NifiOpaConfig {
    fn copied(&self) -> (copy: NifiOpaConfig) {
        NifiOpaConfig {
            opa: self.opa.copied(),
            cache: self.cache.copied(),
        }
    }
}

/// Where NiFi keeps its access policies.
#[derive(Debug, PartialEq, Eq)]
pub enum NifiAccessPolicyProvider {
    /// Policies are kept in files.
    FileBased {
        /// The user that is the first administrator.
        initia_admin_user: String,
    },
}

/// The contents of a [`NifiAccessPolicyProvider`].
#[verifier::ext_equal]
pub enum NifiAccessPolicyProviderView {
    FileBased { initia_admin_user: Seq<char> },
}

impl DeepView for NifiAccessPolicyProvider {
    type V = NifiAccessPolicyProviderView;

    open spec fn deep_view(&self) -> NifiAccessPolicyProviderView {
        match self {
            NifiAccessPolicyProvider::FileBased { initia_admin_user } =>
                NifiAccessPolicyProviderView::FileBased {
                    initia_admin_user: initia_admin_user.deep_view(),
                },
        }
    }
}

impl Copied for NifiAccessPolicyProvider {
    fn copied(&self) -> (copy: NifiAccessPolicyProvider) {
        match self {
            NifiAccessPolicyProvider::FileBased { initia_admin_user } =>
                NifiAccessPolicyProvider::FileBased {
                    initia_admin_user: initia_admin_user.copied(),
                },
        }
    }
}

/// The authorization that the user asks for.
#[derive(Debug, PartialEq, Eq)]
pub enum NifiAuthorization {
    /// An OPA decides.
    Opa {
        opa: NifiOpaConfig,
    },
    /// The single user may do everything.
    SingleUser,
    /// NiFi's own policies.
    Standard {
        access_policy_provider: NifiAccessPolicyProvider,
    },
}

/// The contents of a [`NifiAuthorization`].
#[verifier::ext_equal]
pub enum NifiAuthorizationView {
    Opa { opa: NifiOpaConfigView },
    SingleUser,
    Standard { access_policy_provider: NifiAccessPolicyProviderView },
}

impl DeepView for NifiAuthorization {
    type V = NifiAuthorizationView;

    open spec fn deep_view(&self) -> NifiAuthorizationView {
        match self {
            NifiAuthorization::Opa { opa } => NifiAuthorizationView::Opa {
                opa: opa.deep_view(),
            },
            NifiAuthorization::SingleUser => NifiAuthorizationView::SingleUser,
            NifiAuthorization::Standard { access_policy_provider } =>
                NifiAuthorizationView::Standard {
                    access_policy_provider: access_policy_provider.deep_view(),
                },
        }
    }
}

impl Copied for NifiAuthorization {
    fn copied(&self) -> (copy: NifiAuthorization) {
        match self {
            NifiAuthorization::Opa { opa } => NifiAuthorization::Opa {
                opa: opa.copied(),
            },
            NifiAuthorization::SingleUser => NifiAuthorization::SingleUser,
            NifiAuthorization::Standard { access_policy_provider } => NifiAuthorization::Standard {
                access_policy_provider: access_policy_provider.copied(),
            },
        }
    }
}

impl Default for NifiAuthorization {
    fn default() -> (authorization: NifiAuthorization)
        ensures
            authorization.deep_view() == NifiAuthorizationView::SingleUser,
    {
        NifiAuthorization::SingleUser
    }
}

} // verus!
