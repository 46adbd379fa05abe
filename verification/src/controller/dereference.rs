//! What the operator fetches before it can validate a cluster.

use crate::contents::{Copied, SameContents};
use crate::controller::build::resource::secret;
use crate::controller::build::resource::secret::build_oidc_admin_password_secret_name;
use crate::controller::{ExistingSecrets, ValidatedClusterView};
use crate::crd::authorization::{NifiAuthorization, NifiAuthorizationView};
use crate::crd::{
    ClientAuthenticationDetails, ClientAuthenticationDetailsView, NifiCluster, NifiClusterView,
};
use crate::security::authentication;
use crate::security::authentication::NifiAuthenticationConfig;
use crate::security::authorization::ResolvedNifiAuthorizationConfig;
use vstd::prelude::*;

verus! {

/// Why the objects that a cluster refers to cannot be fetched.
#[derive(Debug, PartialEq, Eq)]
pub enum Error {
    /// The cluster has no valid namespace.
    GetNamespace,
    /// The cluster has no valid name.
    GetClusterName,
    /// The authentication classes cannot be fetched.
    DereferenceAuthenticationClasses,
    /// What the authorization refers to cannot be fetched.
    DereferenceAuthorization,
    /// A Secret cannot be fetched.
    GetSecret {
        secret_name: String,
    },
}

/// The contents of a [`Error`].
#[verifier::ext_equal]
pub enum ErrorView {
    GetNamespace,
    GetClusterName,
    DereferenceAuthenticationClasses,
    DereferenceAuthorization,
    GetSecret { secret_name: Seq<char> },
}

impl DeepView for Error {
    type V = ErrorView;

    open spec fn deep_view(&self) -> ErrorView {
        match self {
            Error::GetNamespace => ErrorView::GetNamespace,
            Error::GetClusterName => ErrorView::GetClusterName,
            Error::DereferenceAuthenticationClasses => ErrorView::DereferenceAuthenticationClasses,
            Error::DereferenceAuthorization => ErrorView::DereferenceAuthorization,
            Error::GetSecret { secret_name } => ErrorView::GetSecret {
                secret_name: secret_name.deep_view(),
            },
        }
    }
}

/// What is fetched, one after the other.
#[derive(Clone, Copy, Debug, PartialEq, Eq, Structural)]
pub enum Stage {
    AuthenticationClasses,
    Authorization,
    /// The Secret with the key of the sensitive properties.
    SensitiveKey,
    /// The Secret with the password of the single user. It is fetched in any case: how users are
    /// authenticated is not known yet.
    AdminPassword,
    /// All objects are fetched.
    Complete,
}

impl DeepView for Stage {
    type V = Stage;

    open spec fn deep_view(&self) -> Stage {
        *self
    }
}

impl Copied for Stage {
    fn copied(&self) -> (copy: Stage) {
        *self
    }
}

impl SameContents for Stage {
    fn same(&self, other: &Stage) -> (same: bool) {
        *self == *other
    }
}

/// What Kubernetes is asked for.
#[derive(Debug, PartialEq, Eq)]
pub enum Request {
    AuthenticationClasses {
        details: Vec<ClientAuthenticationDetails>,
    },
    Authorization {
        authorization: NifiAuthorization,
        namespace: String,
    },
    /// A Secret, which may be missing.
    Secret {
        name: String,
        namespace: String,
    },
    Nothing,
}

/// The contents of a [`Request`].
#[verifier::ext_equal]
pub enum RequestView {
    AuthenticationClasses { details: Seq<ClientAuthenticationDetailsView> },
    Authorization { authorization: NifiAuthorizationView, namespace: Seq<char> },
    Secret { name: Seq<char>, namespace: Seq<char> },
    Nothing,
}

impl DeepView for Request {
    type V = RequestView;

    open spec fn deep_view(&self) -> RequestView {
        match self {
            Request::AuthenticationClasses { details } => RequestView::AuthenticationClasses {
                details: details.deep_view(),
            },
            Request::Authorization { authorization, namespace } => RequestView::Authorization {
                authorization: authorization.deep_view(),
                namespace: namespace.deep_view(),
            },
            Request::Secret { name, namespace } => RequestView::Secret {
                name: name.deep_view(),
                namespace: namespace.deep_view(),
            },
            Request::Nothing => RequestView::Nothing,
        }
    }
}

/// The objects that a cluster refers to.
#[derive(Debug, PartialEq, Eq)]
pub struct DereferencedObjects {
    pub namespace: String,
    /// The domain of the Kubernetes cluster.
    pub cluster_domain: String,
    /// How users are authenticated; nothing where the classes do not fit.
    pub authentication: Option<NifiAuthenticationConfig>,
    pub authorization: ResolvedNifiAuthorizationConfig,
    /// The Secrets whose contents the operator generates, as they are.
    pub existing_secrets: ExistingSecrets,
}

/// What Kubernetes is asked for in a stage, or why it cannot be asked. The namespace and the name
/// are those of the cluster, where they are valid.
pub open spec fn stage_request(
    nifi: NifiClusterView,
    namespace: Option<Seq<char>>,
    cluster_name: Option<Seq<char>>,
    stage: Stage,
) -> Result<RequestView, ErrorView> {
    let config = nifi.spec.cluster_config;
    match namespace {
        None => Err(ErrorView::GetNamespace),
        Some(namespace) => match stage {
            Stage::AuthenticationClasses => Ok(
                RequestView::AuthenticationClasses { details: config.authentication },
            ),
            Stage::Authorization => Ok(
                RequestView::Authorization { authorization: config.authorization, namespace },
            ),
            Stage::Complete => Ok(RequestView::Nothing),
            _ => match cluster_name {
                None => Err(ErrorView::GetClusterName),
                Some(cluster_name) => Ok(
                    RequestView::Secret {
                        name: if stage == Stage::SensitiveKey {
                            config.sensitive_properties.key_secret
                        } else {
                            authentication::oidc_admin_password_secret(cluster_name)
                        },
                        namespace,
                    },
                ),
            },
        },
    }
}

/// Why a stage fails where Kubernetes does not answer its request.
pub open spec fn stage_error(request: RequestView) -> Option<ErrorView> {
    match request {
        RequestView::AuthenticationClasses { .. } => Some(
            ErrorView::DereferenceAuthenticationClasses,
        ),
        RequestView::Authorization { .. } => Some(ErrorView::DereferenceAuthorization),
        RequestView::Secret { name, .. } => Some(ErrorView::GetSecret { secret_name: name }),
        RequestView::Nothing => None,
    }
}

/// What Kubernetes is asked for in a stage.
pub fn dereference(
    nifi: &NifiCluster,
    namespace: &Option<String>,
    cluster_name: &Option<String>,
    stage: Stage,
) -> (result: Result<Request, Error>)
    ensures
        match result {
            Ok(request) => stage_request(
                nifi.deep_view(),
                namespace.deep_view(),
                cluster_name.deep_view(),
                stage,
            ) == Ok::<RequestView, ErrorView>(request.deep_view()),
            Err(error) => stage_request(
                nifi.deep_view(),
                namespace.deep_view(),
                cluster_name.deep_view(),
                stage,
            ) == Err::<RequestView, ErrorView>(error.deep_view()),
        },
{
    let config = &nifi.spec.cluster_config;
    let namespace = match namespace {
        Some(namespace) => namespace.copied(),
        None => {
            return Err(Error::GetNamespace);
        },
    };
    match stage {
        Stage::AuthenticationClasses => {
            return Ok(Request::AuthenticationClasses { details: config.authentication.copied() });
        },
        Stage::Authorization => {
            return Ok(
                Request::Authorization { authorization: config.authorization.copied(), namespace },
            );
        },
        Stage::Complete => {
            return Ok(Request::Nothing);
        },
        _ => {},
    }
    let cluster_name = match cluster_name {
        Some(cluster_name) => cluster_name,
        None => {
            return Err(Error::GetClusterName);
        },
    };
    let name = match stage {
        Stage::SensitiveKey => config.sensitive_properties.key_secret.copied(),
        _ => build_oidc_admin_password_secret_name(cluster_name.as_str()),
    };
    Ok(Request::Secret { name, namespace })
}

/// Why fetching fails where Kubernetes does not answer a request.
pub fn request_error(request: &Request) -> (error: Option<Error>)
    ensures
        error.deep_view() == stage_error(request.deep_view()),
{
    match request {
        Request::AuthenticationClasses { .. } => Some(Error::DereferenceAuthenticationClasses),
        Request::Authorization { .. } => Some(Error::DereferenceAuthorization),
        Request::Secret { name, .. } => Some(Error::GetSecret { secret_name: name.copied() }),
        Request::Nothing => None,
    }
}

/// How many objects are still to be fetched.
pub open spec fn objects_left(stage: Stage) -> int {
    match stage {
        Stage::AuthenticationClasses => 4,
        Stage::Authorization => 3,
        Stage::SensitiveKey => 2,
        Stage::AdminPassword => 1,
        Stage::Complete => 0,
    }
}

/// What is fetched next.
pub fn next_stage(stage: Stage) -> (next: Stage)
    ensures
        stage != Stage::Complete ==> objects_left(next) == objects_left(stage) - 1,
        next == (match stage {
            Stage::AuthenticationClasses => Stage::Authorization,
            Stage::Authorization => Stage::SensitiveKey,
            Stage::SensitiveKey => Stage::AdminPassword,
            Stage::AdminPassword => Stage::Complete,
            Stage::Complete => Stage::Complete,
        }),
{
    match stage {
        Stage::AuthenticationClasses => Stage::Authorization,
        Stage::Authorization => Stage::SensitiveKey,
        Stage::SensitiveKey => Stage::AdminPassword,
        Stage::AdminPassword => Stage::Complete,
        Stage::Complete => Stage::Complete,
    }
}

/// The Secret that is fetched as the password of the single user is the one that is generated where
/// it is missing.
pub proof fn law_fetched_secrets_are_the_generated_ones(
    nifi: NifiClusterView,
    namespace: Seq<char>,
    cluster: ValidatedClusterView,
    sensitive_key: Seq<char>,
    admin_password: Seq<char>,
    i: int,
)
    requires
        cluster.cluster_config.sensitive_properties.key_secret
            == nifi.spec.cluster_config.sensitive_properties.key_secret,
        0 <= i < secret::generated_secrets(cluster, sensitive_key, admin_password).len(),
    ensures
        ({
            let name = secret::generated_secrets(
                cluster,
                sensitive_key,
                admin_password,
            )[i].metadata.name.unwrap();
            ||| stage_request(nifi, Some(namespace), Some(cluster.name), Stage::SensitiveKey)
                == Ok::<RequestView, ErrorView>(RequestView::Secret { name, namespace })
            ||| stage_request(nifi, Some(namespace), Some(cluster.name), Stage::AdminPassword)
                == Ok::<RequestView, ErrorView>(RequestView::Secret { name, namespace })
        }),
{
}

} // verus!
