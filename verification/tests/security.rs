//! Tests of authentication and authorization.

use nifi_operator::crd::authentication::{
    AuthenticationClass, AuthenticationClassProvider, AuthenticationClassResolved, Error,
};
use nifi_operator::crd::authorization::{NifiAccessPolicyProvider, NifiAuthorization};
use nifi_operator::crd::ClientAuthenticationDetails;
use nifi_operator::ordered_map::OrderedMap;
use nifi_operator::security::authentication;
use nifi_operator::security::authentication::{
    get_ldap_login_identity_provider, LdapAuthenticationProvider, NifiAuthenticationConfig,
    OidcAuthenticationProvider, StaticAuthenticationProvider,
};
use nifi_operator::security::authorization::{AuthorizerSettings, ResolvedNifiAuthorizationConfig};

fn details(secret: Option<&str>) -> ClientAuthenticationDetails {
    ClientAuthenticationDetails {
        authentication_class: "users".to_owned(),
        oidc_client_credentials_secret: secret.map(str::to_owned),
    }
}

fn static_provider() -> StaticAuthenticationProvider {
    StaticAuthenticationProvider { user_credentials_secret: "credentials".to_owned() }
}

fn ldap_provider() -> LdapAuthenticationProvider {
    LdapAuthenticationProvider {
        hostname: "ldap.example.com".to_owned(),
        port: None,
        default_port: 636,
        search_base: "ou=users".to_owned(),
        search_filter: String::new(),
        uid_field: "uid".to_owned(),
        bind_credentials_mount_paths: Some(("/bind/user".to_owned(), "/bind/password".to_owned())),
        uses_tls: true,
        tls_ca_cert_mount_path: Some("/ca.crt".to_owned()),
        volumes: vec![],
        volume_mounts: vec![],
    }
}

fn oidc_provider() -> OidcAuthenticationProvider {
    OidcAuthenticationProvider {
        properties: Some(OrderedMap::new()),
        client_credentials_secret: String::new(),
        client_credentials_env_vars: vec![],
        cluster_name: "nifi".to_owned(),
    }
}

fn class(provider: AuthenticationClassProvider) -> Option<AuthenticationClass> {
    Some(AuthenticationClass { name: "users".to_owned(), provider })
}

#[test]
fn exactly_one_authentication_class_is_supported() {
    assert_eq!(
        AuthenticationClassResolved::resolve(&vec![], &None, true).unwrap_err(),
        Error::NoAuthenticationNotSupported
    );
    assert_eq!(
        AuthenticationClassResolved::resolve(&vec![details(None), details(None)], &None, true)
            .unwrap_err(),
        Error::MultipleAuthenticationClassesNotSupported
    );
    assert_eq!(
        AuthenticationClassResolved::resolve(&vec![details(None)], &None, true).unwrap_err(),
        Error::AuthenticationClassRetrievalFailed
    );
    assert_eq!(
        AuthenticationClassResolved::class_to_retrieve(&vec![details(None)]),
        Ok("users".to_owned())
    );
}

#[test]
fn static_users_are_resolved() {
    let fetched = class(AuthenticationClassProvider::Static { provider: static_provider() });
    assert_eq!(
        AuthenticationClassResolved::resolve(&vec![details(None)], &fetched, true).unwrap(),
        [AuthenticationClassResolved::Static { provider: static_provider() }]
    );
}

#[test]
fn ldap_has_to_verify_certificates() {
    let resolve = |verifies_tls: bool| {
        let fetched =
            class(AuthenticationClassProvider::Ldap { provider: ldap_provider(), verifies_tls });
        AuthenticationClassResolved::resolve(&vec![details(None)], &fetched, true)
    };
    assert_eq!(
        resolve(false).unwrap_err(),
        Error::NoLdapTlsVerificationNotSupported { authentication_class: "users".to_owned() }
    );
    assert_eq!(resolve(true).unwrap().len(), 1);
}

#[test]
fn oidc_needs_client_credentials_and_a_known_provider() {
    let resolve = |hint: Option<&str>, secret: Option<&str>| {
        let fetched = class(AuthenticationClassProvider::Oidc {
            provider: oidc_provider(),
            provider_hint: hint.map(str::to_owned),
        });
        AuthenticationClassResolved::resolve(&vec![details(secret)], &fetched, true)
    };
    assert_eq!(resolve(None, None).unwrap_err(), Error::OidcConfigurationInvalid);
    assert_eq!(
        resolve(Some("Other"), Some("client")).unwrap_err(),
        Error::OidcProviderNotSupported {
            auth_class_name: "users".to_owned(),
            oidc_provider: "\"Other\"".to_owned(),
        }
    );
    assert_eq!(
        resolve(None, Some("client")).unwrap(),
        [AuthenticationClassResolved::Oidc {
            provider: oidc_provider(),
            client_credentials_secret: "client".to_owned(),
        }]
    );
}

#[test]
fn other_providers_are_refused() {
    let fetched = class(AuthenticationClassProvider::Other { name: "Kerberos".to_owned() });
    assert_eq!(
        AuthenticationClassResolved::resolve(&vec![details(None)], &fetched, true).unwrap_err(),
        Error::AuthenticationClassProviderNotSupported {
            authentication_class_provider: "Kerberos".to_owned(),
            authentication_class: "users".to_owned(),
        }
    );
    let class = AuthenticationClass {
        name: "users".to_owned(),
        provider: AuthenticationClassProvider::Other { name: "Kerberos".to_owned() },
    };
    assert_eq!(
        NifiAuthenticationConfig::try_from(&vec![class]).unwrap_err(),
        authentication::Error::AuthenticationClassProviderNotSupported {
            authentication_class_provider: "Kerberos".to_owned(),
        }
    );
    assert_eq!(
        NifiAuthenticationConfig::try_from(&vec![]).unwrap_err(),
        authentication::Error::SingleAuthenticationMechanismSupported
    );
}

#[test]
fn single_user_password_is_replaced_in_the_prepare_container() {
    let config = NifiAuthenticationConfig::SingleUser { provider: static_provider() };
    let commands = config.get_additional_container_args();
    assert_eq!(commands.len(), 2);
    assert_eq!(
        commands[1],
        "sed -i \"s|xxx_singleuser_password_xxx|$(cat /stackable/users/admin | \
         java -jar /bin/stackable-bcrypt.jar)|g\" \
         /stackable/nifi/conf/login-identity-providers.xml"
    );
    let (volumes, mounts) = config.volumes_and_mounts();
    assert_eq!(volumes.len(), 1);
    assert_eq!(mounts[0].mount_path, "/stackable/users");
}

#[test]
fn ldap_provider_names_its_server() {
    let xml = get_ldap_login_identity_provider(&ldap_provider());
    assert!(xml.contains("<property name=\"Url\">ldaps://ldap.example.com:636</property>"));
    assert!(xml.contains("<property name=\"User Search Base\">ou=users</property>"));
    assert!(xml.contains("<property name=\"User Search Filter\">uid={0}</property>"));
    let mut plain = ldap_provider();
    plain.uses_tls = false;
    plain.port = Some(389);
    plain.search_filter = "cn={0}".to_owned();
    let xml = get_ldap_login_identity_provider(&plain);
    assert!(xml.contains("<property name=\"Url\">ldap://ldap.example.com:389</property>"));
    assert!(xml.contains("<property name=\"User Search Filter\">cn={0}</property>"));
}

#[test]
fn authorizers_follow_the_authorization() {
    assert!(NifiAuthorization::default() == NifiAuthorization::SingleUser);
    assert!(ResolvedNifiAuthorizationConfig::SingleUser
        .get_authorizers_config()
        .contains("SingleUserAuthorizer"));
    let settings = AuthorizerSettings {
        authorizers_xml: "<authorizer>opa</authorizer>".to_owned(),
        env_vars: vec![],
        volumes: vec![],
        volume_mounts: vec![],
    };
    let opa = ResolvedNifiAuthorizationConfig::Opa { settings, tls: true };
    assert!(opa.get_authorizers_config().contains("<authorizer>opa</authorizer>"));
    assert!(opa.has_opa_tls());
    assert!(!opa.is_file_based());
    let standard = ResolvedNifiAuthorizationConfig::Standard {
        access_policy_provider: NifiAccessPolicyProvider::FileBased {
            initia_admin_user: "admin".to_owned(),
        },
        settings: AuthorizerSettings {
            authorizers_xml: String::new(),
            env_vars: vec![],
            volumes: vec![],
            volume_mounts: vec![],
        },
    };
    assert!(standard.is_file_based());
    assert!(!standard.has_opa_tls());
}

#[test]
fn authentication_comes_with_both_files() {
    let config = NifiAuthenticationConfig::SingleUser { provider: static_provider() };
    let (providers, authorizers) = config.get_auth_config();
    assert!(providers.starts_with("<?xml version=\"1.0\" encoding=\"UTF-8\" standalone=\"no\"?>\n"));
    assert!(providers.contains("<property name=\"Username\">admin</property>"));
    assert!(providers.ends_with("</loginIdentityProviders>\n"));
    assert!(authorizers.contains("SingleUserAuthorizer"));
    assert!(authorizers.ends_with("</authorizers>\n"));
    let config = NifiAuthenticationConfig::Ldap { provider: ldap_provider() };
    let (_, authorizers) = config.get_auth_config();
    assert!(authorizers.contains("xxx_ldap_bind_username_xxx"));
    assert!(authorizers.contains("StandardManagedAuthorizer"));
}
