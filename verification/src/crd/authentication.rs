//! The authentication classes that a cluster refers to.

use crate::contents::Copied;
use crate::crd::{ClientAuthenticationDetails, ClientAuthenticationDetailsView};
use crate::framework::json;
use crate::framework::json::text_as_json;
use crate::list::list_of;
use crate::security::authentication::{
    LdapAuthenticationProvider, LdapAuthenticationProviderView, OidcAuthenticationProvider,
    OidcAuthenticationProviderView, StaticAuthenticationProvider, StaticAuthenticationProviderView,
};
use crate::text::same_text;
use vstd::prelude::*;

verus! {

/// The OpenID Connect provider that is assumed where the class gives no hint, and the only one
/// that clusters which check the hint support.
pub const DEFAULT_OIDC_PROVIDER: &'static str = "Keycloak";

/// The provider of an authentication class.
#[allow(inconsistent_fields)]
#[derive(Debug, PartialEq, Eq)]
pub enum AuthenticationClassProvider {
    /// Users with passwords.
    Static {
        provider: StaticAuthenticationProvider,
    },
    /// An LDAP.
    Ldap {
        provider: LdapAuthenticationProvider,
        /// Whether the certificate of the server is verified.
        verifies_tls: bool,
    },
    /// An OpenID Connect provider.
    Oidc {
        provider: OidcAuthenticationProvider,
        /// Which product the provider is.
        provider_hint: Option<String>,
    },
    /// Any other provider.
    Other {
        name: String,
    },
}

/// The contents of a [`AuthenticationClassProvider`].
#[allow(inconsistent_fields)]
#[verifier::ext_equal]
pub enum AuthenticationClassProviderView {
    Static { provider: StaticAuthenticationProviderView },
    Ldap { provider: LdapAuthenticationProviderView, verifies_tls: bool },
    Oidc { provider: OidcAuthenticationProviderView, provider_hint: Option<Seq<char>> },
    Other { name: Seq<char> },
}

impl DeepView for AuthenticationClassProvider {
    type V = AuthenticationClassProviderView;

    open spec fn deep_view(&self) -> AuthenticationClassProviderView {
        match self {
            AuthenticationClassProvider::Static { provider } =>
                AuthenticationClassProviderView::Static {
                    provider: provider.deep_view(),
                },
            AuthenticationClassProvider::Ldap { provider, verifies_tls } =>
                AuthenticationClassProviderView::Ldap {
                    provider: provider.deep_view(),
                    verifies_tls: verifies_tls.deep_view(),
                },
            AuthenticationClassProvider::Oidc { provider, provider_hint } =>
                AuthenticationClassProviderView::Oidc {
                    provider: provider.deep_view(),
                    provider_hint: provider_hint.deep_view(),
                },
            AuthenticationClassProvider::Other { name } => AuthenticationClassProviderView::Other {
                name: name.deep_view(),
            },
        }
    }
}

impl Copied for AuthenticationClassProvider {
    fn copied(&self) -> (copy: AuthenticationClassProvider) {
        match self {
            AuthenticationClassProvider::Static { provider } =>
                AuthenticationClassProvider::Static {
                    provider: provider.copied(),
                },
            AuthenticationClassProvider::Ldap { provider, verifies_tls } =>
                AuthenticationClassProvider::Ldap {
                    provider: provider.copied(),
                    verifies_tls: *verifies_tls,
                },
            AuthenticationClassProvider::Oidc { provider, provider_hint } =>
                AuthenticationClassProvider::Oidc {
                    provider: provider.copied(),
                    provider_hint: provider_hint.copied(),
                },
            AuthenticationClassProvider::Other { name } => AuthenticationClassProvider::Other {
                name: name.copied(),
            },
        }
    }
}

/// An authentication class.
#[derive(Debug, PartialEq, Eq)]
pub struct AuthenticationClass {
    pub name: String,
    pub provider: AuthenticationClassProvider,
}

/// The contents of a [`AuthenticationClass`].
#[verifier::ext_equal]
pub struct AuthenticationClassView {
    pub name: Seq<char>,
    pub provider: AuthenticationClassProviderView,
}

impl DeepView for AuthenticationClass {
    type V = AuthenticationClassView;

    open spec fn deep_view(&self) -> AuthenticationClassView {
        AuthenticationClassView {
            name: self.name.deep_view(),
            provider: self.provider.deep_view(),
        }
    }
}

impl Copied for AuthenticationClass {
    fn copied(&self) -> (copy: AuthenticationClass) {
        AuthenticationClass {
            name: self.name.copied(),
            provider: self.provider.copied(),
        }
    }
}

/// An authentication class that NiFi can use.
#[allow(inconsistent_fields)]
#[derive(Debug, PartialEq, Eq)]
pub enum AuthenticationClassResolved {
    /// Users with passwords.
    Static {
        provider: StaticAuthenticationProvider,
    },
    /// An LDAP.
    Ldap {
        provider: LdapAuthenticationProvider,
    },
    /// An OpenID Connect provider, with the Secret of the client.
    Oidc {
        provider: OidcAuthenticationProvider,
        client_credentials_secret: String,
    },
}

/// The contents of a [`AuthenticationClassResolved`].
#[allow(inconsistent_fields)]
#[verifier::ext_equal]
pub enum AuthenticationClassResolvedView {
    Static { provider: StaticAuthenticationProviderView },
    Ldap { provider: LdapAuthenticationProviderView },
    Oidc { provider: OidcAuthenticationProviderView, client_credentials_secret: Seq<char> },
}

impl DeepView for AuthenticationClassResolved {
    type V = AuthenticationClassResolvedView;

    open spec fn deep_view(&self) -> AuthenticationClassResolvedView {
        match self {
            AuthenticationClassResolved::Static { provider } =>
                AuthenticationClassResolvedView::Static {
                    provider: provider.deep_view(),
                },
            AuthenticationClassResolved::Ldap { provider } =>
                AuthenticationClassResolvedView::Ldap {
                    provider: provider.deep_view(),
                },
            AuthenticationClassResolved::Oidc { provider, client_credentials_secret } =>
                AuthenticationClassResolvedView::Oidc {
                    provider: provider.deep_view(),
                    client_credentials_secret: client_credentials_secret.deep_view(),
                },
        }
    }
}

impl Copied for AuthenticationClassResolved {
    fn copied(&self) -> (copy: AuthenticationClassResolved) {
        match self {
            AuthenticationClassResolved::Static { provider } =>
                AuthenticationClassResolved::Static {
                    provider: provider.copied(),
                },
            AuthenticationClassResolved::Ldap { provider } => AuthenticationClassResolved::Ldap {
                provider: provider.copied(),
            },
            AuthenticationClassResolved::Oidc { provider, client_credentials_secret } =>
                AuthenticationClassResolved::Oidc {
                    provider: provider.copied(),
                    client_credentials_secret: client_credentials_secret.copied(),
                },
        }
    }
}

/// Why the authentication classes cannot be used.
#[derive(Debug, PartialEq, Eq)]
pub enum Error {
    /// The class cannot be retrieved.
    AuthenticationClassRetrievalFailed,
    /// NiFi cannot run without authentication.
    NoAuthenticationNotSupported,
    /// NiFi can use one class only.
    MultipleAuthenticationClassesNotSupported,
    /// NiFi cannot use the provider of the class.
    AuthenticationClassProviderNotSupported {
        authentication_class_provider: String,
        authentication_class: String,
    },
    /// NiFi cannot skip the verification of certificates.
    NoLdapTlsVerificationNotSupported {
        authentication_class: String,
    },
    /// The client of the OpenID Connect provider is not described.
    OidcConfigurationInvalid,
    /// The product that the hint names is not supported.
    OidcProviderNotSupported {
        auth_class_name: String,
        oidc_provider: String,
    },
}

/// The contents of a [`Error`].
#[verifier::ext_equal]
pub enum ErrorView {
    AuthenticationClassRetrievalFailed,
    NoAuthenticationNotSupported,
    MultipleAuthenticationClassesNotSupported,
    AuthenticationClassProviderNotSupported {
        authentication_class_provider: Seq<char>,
        authentication_class: Seq<char>,
    },
    NoLdapTlsVerificationNotSupported { authentication_class: Seq<char> },
    OidcConfigurationInvalid,
    OidcProviderNotSupported { auth_class_name: Seq<char>, oidc_provider: Seq<char> },
}

impl DeepView for Error {
    type V = ErrorView;

    open spec fn deep_view(&self) -> ErrorView {
        match self {
            Error::AuthenticationClassRetrievalFailed =>
                ErrorView::AuthenticationClassRetrievalFailed,
            Error::NoAuthenticationNotSupported => ErrorView::NoAuthenticationNotSupported,
            Error::MultipleAuthenticationClassesNotSupported =>
                ErrorView::MultipleAuthenticationClassesNotSupported,
            Error::AuthenticationClassProviderNotSupported {
                authentication_class_provider,
                authentication_class,
            } => ErrorView::AuthenticationClassProviderNotSupported {
                authentication_class_provider: authentication_class_provider.deep_view(),
                authentication_class: authentication_class.deep_view(),
            },
            Error::NoLdapTlsVerificationNotSupported { authentication_class } =>
                ErrorView::NoLdapTlsVerificationNotSupported {
                    authentication_class: authentication_class.deep_view(),
                },
            Error::OidcConfigurationInvalid => ErrorView::OidcConfigurationInvalid,
            Error::OidcProviderNotSupported { auth_class_name, oidc_provider } =>
                ErrorView::OidcProviderNotSupported {
                    auth_class_name: auth_class_name.deep_view(),
                    oidc_provider: oidc_provider.deep_view(),
                },
        }
    }
}

/// Why a hint is not supported.
pub open spec fn hint_failure(
    class_name: Seq<char>,
    provider_hint: Option<Seq<char>>,
) -> Option<ErrorView> {
    match provider_hint {
        Some(hint) => if hint == DEFAULT_OIDC_PROVIDER@ {
            None
        } else {
            Some(
                ErrorView::OidcProviderNotSupported {
                    auth_class_name: class_name,
                    oidc_provider: json::json_text(hint),
                },
            )
        },
        None => None,
    }
}

/// The resolved OpenID Connect class, or why it cannot be used.
pub open spec fn resolved_oidc(
    class_name: Seq<char>,
    provider: OidcAuthenticationProviderView,
    provider_hint: Option<Seq<char>>,
    details: ClientAuthenticationDetailsView,
    check_hint: bool,
) -> Result<AuthenticationClassResolvedView, ErrorView> {
    match hint_failure(class_name, provider_hint) {
        Some(error) if check_hint => Err(error),
        _ => match details.oidc_client_credentials_secret {
            Some(client_credentials_secret) => Ok(
                AuthenticationClassResolvedView::Oidc { provider, client_credentials_secret },
            ),
            None => Err(ErrorView::OidcConfigurationInvalid),
        },
    }
}

/// The resolved class, or why it cannot be used.
pub open spec fn resolved_class(
    class: AuthenticationClassView,
    details: ClientAuthenticationDetailsView,
    check_hint: bool,
) -> Result<AuthenticationClassResolvedView, ErrorView> {
    match class.provider {
        AuthenticationClassProviderView::Static { provider } => Ok(
            AuthenticationClassResolvedView::Static { provider },
        ),
        AuthenticationClassProviderView::Ldap { provider, verifies_tls } => if provider.uses_tls
            && !verifies_tls {
            Err(ErrorView::NoLdapTlsVerificationNotSupported { authentication_class: class.name })
        } else {
            Ok(AuthenticationClassResolvedView::Ldap { provider })
        },
        AuthenticationClassProviderView::Oidc { provider, provider_hint } => resolved_oidc(
            class.name,
            provider,
            provider_hint,
            details,
            check_hint,
        ),
        AuthenticationClassProviderView::Other { name } => Err(
            ErrorView::AuthenticationClassProviderNotSupported {
                authentication_class_provider: name,
                authentication_class: class.name,
            },
        ),
    }
}

/// The resolved classes of a cluster, or why they cannot be used.
pub open spec fn resolution(
    details: Seq<ClientAuthenticationDetailsView>,
    fetched: Option<AuthenticationClassView>,
    check_hint: bool,
) -> Result<Seq<AuthenticationClassResolvedView>, ErrorView> {
    if details.len() == 0 {
        Err(ErrorView::NoAuthenticationNotSupported)
    } else if details.len() > 1 {
        Err(ErrorView::MultipleAuthenticationClassesNotSupported)
    } else {
        match fetched {
            None => Err(ErrorView::AuthenticationClassRetrievalFailed),
            Some(class) => match resolved_class(class, details[0], check_hint) {
                Ok(resolved) => Ok(seq![resolved]),
                Err(error) => Err(error),
            },
        }
    }
}

/// Checks that the product that a hint names is supported.
fn check_provider_hint(auth_class_name: &str, provider_hint: &Option<String>) -> (result: Result<
    (),
    Error,
>)
    ensures
        match result {
            Ok(()) => hint_failure(auth_class_name@, provider_hint.deep_view()).is_none(),
            Err(error) => hint_failure(auth_class_name@, provider_hint.deep_view()) == Some(
                error.deep_view(),
            ),
        },
{
    let oidc_provider: &str = match provider_hint {
        Some(hint) => hint.as_str(),
        None => DEFAULT_OIDC_PROVIDER,
    };
    if same_text(oidc_provider, DEFAULT_OIDC_PROVIDER) {
        Ok(())
    } else {
        Err(
            Error::OidcProviderNotSupported {
                auth_class_name: auth_class_name.to_owned(),
                oidc_provider: text_as_json(oidc_provider),
            },
        )
    }
}

impl AuthenticationClassResolved {
    /// The class to retrieve: NiFi needs exactly one.
    pub fn class_to_retrieve(details: &Vec<ClientAuthenticationDetails>) -> (result: Result<
        String,
        Error,
    >)
        ensures
            match result {
                Ok(name) => details.len() == 1 && name@
                    == details.deep_view()[0].authentication_class,
                Err(error) => details.len() != 1 && forall|fetched, check_hint|
                    #[trigger] resolution(details.deep_view(), fetched, check_hint) == Err::<
                        Seq<AuthenticationClassResolvedView>,
                        ErrorView,
                    >(error.deep_view()),
            },
    {
        if details.len() == 0 {
            return Err(Error::NoAuthenticationNotSupported);
        }
        if details.len() > 1 {
            return Err(Error::MultipleAuthenticationClassesNotSupported);
        }
        Ok(details[0].authentication_class.copied())
    }

    /// Resolves an OpenID Connect class. Where the hint is checked, the product that it names has
    /// to be supported.
    pub fn from_oidc(
        auth_class_name: &str,
        provider: &OidcAuthenticationProvider,
        provider_hint: &Option<String>,
        auth_details: &ClientAuthenticationDetails,
        check_hint: bool,
    ) -> (result: Result<AuthenticationClassResolved, Error>)
        ensures
            match result {
                Ok(resolved) => resolved_oidc(
                    auth_class_name@,
                    provider.deep_view(),
                    provider_hint.deep_view(),
                    auth_details.deep_view(),
                    check_hint,
                ) == Ok::<AuthenticationClassResolvedView, ErrorView>(resolved.deep_view()),
                Err(error) => resolved_oidc(
                    auth_class_name@,
                    provider.deep_view(),
                    provider_hint.deep_view(),
                    auth_details.deep_view(),
                    check_hint,
                ) == Err::<AuthenticationClassResolvedView, ErrorView>(error.deep_view()),
            },
    {
        if check_hint {
            match check_provider_hint(auth_class_name, provider_hint) {
                Ok(()) => {},
                Err(error) => {
                    return Err(error);
                },
            }
        }
        match &auth_details.oidc_client_credentials_secret {
            Some(secret) => Ok(
                AuthenticationClassResolved::Oidc {
                    provider: provider.copied(),
                    client_credentials_secret: secret.copied(),
                },
            ),
            None => Err(Error::OidcConfigurationInvalid),
        }
    }

    /// Resolves the class that was retrieved for the only entry, none where it could not be.
    pub fn resolve(
        details: &Vec<ClientAuthenticationDetails>,
        fetched: &Option<AuthenticationClass>,
        check_hint: bool,
    ) -> (result: Result<Vec<AuthenticationClassResolved>, Error>)
        ensures
            match result {
                Ok(resolved) => resolution(
                    details.deep_view(),
                    fetched.deep_view(),
                    check_hint,
                ) == Ok::<Seq<AuthenticationClassResolvedView>, ErrorView>(resolved.deep_view()),
                Err(error) => resolution(
                    details.deep_view(),
                    fetched.deep_view(),
                    check_hint,
                ) == Err::<Seq<AuthenticationClassResolvedView>, ErrorView>(error.deep_view()),
            },
    {
        if details.len() == 0 {
            return Err(Error::NoAuthenticationNotSupported);
        }
        if details.len() > 1 {
            return Err(Error::MultipleAuthenticationClassesNotSupported);
        }
        let class = match fetched {
            Some(class) => class,
            None => {
                return Err(Error::AuthenticationClassRetrievalFailed);
            },
        };
        match &class.provider {
            AuthenticationClassProvider::Static { provider } => Ok(
                list_of(AuthenticationClassResolved::Static { provider: provider.copied() }),
            ),
            AuthenticationClassProvider::Ldap { provider, verifies_tls } => {
                if provider.uses_tls && !*verifies_tls {
                    return Err(
                        Error::NoLdapTlsVerificationNotSupported {
                            authentication_class: class.name.copied(),
                        },
                    );
                }
                Ok(list_of(AuthenticationClassResolved::Ldap { provider: provider.copied() }))
            },
            AuthenticationClassProvider::Oidc { provider, provider_hint } => {
                match AuthenticationClassResolved::from_oidc(
                    class.name.as_str(),
                    provider,
                    provider_hint,
                    &details[0],
                    check_hint,
                ) {
                    Ok(resolved) => Ok(list_of(resolved)),
                    Err(error) => Err(error),
                }
            },
            AuthenticationClassProvider::Other { name } => Err(
                Error::AuthenticationClassProviderNotSupported {
                    authentication_class_provider: name.copied(),
                    authentication_class: class.name.copied(),
                },
            ),
        }
    }
}

/// Whatever is retrieved, a cluster is resolved to one single class, and a class that skips the
/// verification of LDAP certificates is never resolved.
pub proof fn law_one_class_is_resolved(
    details: Seq<ClientAuthenticationDetailsView>,
    fetched: Option<AuthenticationClassView>,
    check_hint: bool,
)
    requires
        resolution(details, fetched, check_hint).is_ok(),
    ensures
        details.len() == 1,
        resolution(details, fetched, check_hint)->Ok_0.len() == 1,
        fetched.is_some(),
        fetched.unwrap().provider matches AuthenticationClassProviderView::Ldap {
            provider,
            verifies_tls,
        } ==> provider.uses_tls ==> verifies_tls,
{
}

} // verus!
