//! How users prove who they are.

use crate::contents::Copied;
use crate::crd::authentication::{
    AuthenticationClass, AuthenticationClassProvider, AuthenticationClassProviderView,
    AuthenticationClassView,
};
use crate::kubernetes::{
    EnvVar, EnvVarView, KeyToPath, KeyToPathView, Volume, VolumeMount, VolumeMountView,
    VolumeSource, VolumeSourceView, VolumeView,
};
use crate::list::{add_item, add_text, empty_list, list_of};
use crate::ordered_map::StringMap;
use crate::text;
use crate::text::{concat2, concat3, number_text};
use vstd::prelude::*;

verus! {

/// The user that may always log in with a password.
pub const STACKABLE_ADMIN_USERNAME: &'static str = "admin";

/// Where the password of that user is mounted.
pub const STACKABLE_USER_VOLUME_MOUNT_PATH: &'static str = "/stackable/users";

/// The directory of the key and trust store that NiFi uses.
pub const STACKABLE_SERVER_TLS_DIR: &'static str = "/stackable/server_tls";

/// The password of the key and trust store.
pub const STACKABLE_TLS_STORE_PASSWORD: &'static str = "secret";

pub const LOGIN_IDENTITY_PROVIDERS_XML_FILE_NAME: &'static str = "login-identity-providers.xml";

pub const AUTHORIZERS_XML_FILE_NAME: &'static str = "authorizers.xml";

/// What stands in the configuration for the bcrypt hash of the password, until the pod starts.
pub const STACKABLE_SINGLE_USER_PASSWORD_PLACEHOLDER: &'static str = "xxx_singleuser_password_xxx";

/// What stands in the configuration for the LDAP bind user, until the pod starts.
pub const STACKABLE_LDAP_BIND_USER_NAME_PLACEHOLDER: &'static str = "xxx_ldap_bind_username_xxx";

/// What stands in the configuration for the LDAP bind password, until the pod starts.
pub const STACKABLE_LDAP_BIND_USER_PASSWORD_PLACEHOLDER: &'static str =
    "xxx_ldap_bind_password_xxx";

/// The directory of the live configuration.
pub const LIVE_CONFIG_PREFIX: &'static str = "/stackable/nifi/conf/";

pub const LOGIN_IDENTITY_PROVIDERS_HEADER: &'static str =
    "<?xml version=\"1.0\" encoding=\"UTF-8\" standalone=\"no\"?>\n<loginIdentityProviders>\n";

pub const LOGIN_IDENTITY_PROVIDERS_FOOTER: &'static str = "</loginIdentityProviders>\n";

pub const AUTHORIZERS_HEADER: &'static str =
    "<?xml version=\"1.0\" encoding=\"UTF-8\" standalone=\"yes\"?>\n<authorizers>\n";

pub const AUTHORIZERS_FOOTER: &'static str = "</authorizers>\n";

/// The login of the single user; the placeholder of the password stands in it.
pub const SINGLE_USER_LOGIN_IDENTITY_PROVIDER: &'static str = r#"<provider>
    <identifier>login-identity-provider</identifier>
    <class>org.apache.nifi.authentication.single.user.SingleUserLoginIdentityProvider</class>
    <property name="Username">admin</property>
    <property name="Password">xxx_singleuser_password_xxx</property>
</provider>
"#;

/// The authorizer that lets the single user do everything.
pub const SINGLE_USER_AUTHORIZER: &'static str = r#"<authorizer>
    <identifier>authorizer</identifier>
    <class>org.apache.nifi.authorization.single.user.SingleUserAuthorizer</class>
</authorizer>
"#;

/// The authorizer for users from an LDAP; the placeholder of the bind user stands in it.
pub const LDAP_AUTHORIZER: &'static str = r#"<userGroupProvider>
    <identifier>file-user-group-provider</identifier>
    <class>org.apache.nifi.authorization.FileUserGroupProvider</class>
    <property name="Users File">./conf/users.xml</property>

    <!-- As we currently don't have authorization (including admin user) configurable we simply paste in the ldap bind user in here -->
    <!-- In the future the whole authorization may be reworked to OPA -->
    <property name="Initial User Identity admin">xxx_ldap_bind_username_xxx</property>

    <!-- As the secret-operator provides the NiFi nodes with cert with a common name of "generated certificate for pod" we have to put that here -->
    <property name="Initial User Identity other-nifis">CN=generated certificate for pod</property>
</userGroupProvider>

<accessPolicyProvider>
    <identifier>file-access-policy-provider</identifier>
    <class>org.apache.nifi.authorization.FileAccessPolicyProvider</class>
    <property name="User Group Provider">file-user-group-provider</property>
    <property name="Authorizations File">./conf/authorizations.xml</property>

    <!-- As we currently don't have authorization (including admin user) configurable we simply paste in the ldap bind user in here -->
    <!-- In the future the whole authorization may be reworked to OPA -->
    <property name="Initial Admin Identity">xxx_ldap_bind_username_xxx</property>

    <!-- As the secret-operator provides the NiFi nodes with cert with a common name of "generated certificate for pod" we have to put that here -->
    <property name="Node Identity other-nifis">CN=generated certificate for pod</property>
</accessPolicyProvider>

<authorizer>
    <identifier>authorizer</identifier>
    <class>org.apache.nifi.authorization.StandardManagedAuthorizer</class>
    <property name="Access Policy Provider">file-access-policy-provider</property>
</authorizer>
"#;

/// The login through an LDAP, up to the authentication strategy.
pub const LDAP_PROVIDER_START: &'static str = r#"<provider>
    <identifier>login-identity-provider</identifier>
    <class>org.apache.nifi.ldap.LdapProvider</class>
    <property name="Authentication Strategy">"#;

/// The login through an LDAP, from the authentication strategy to the protocol of the URL.
pub const LDAP_PROVIDER_UP_TO_URL: &'static str = r#"</property>

    <property name="Manager DN">xxx_ldap_bind_username_xxx</property>
    <property name="Manager Password">xxx_ldap_bind_password_xxx</property>

    <property name="Referral Strategy">THROW</property>
    <property name="Connect Timeout">10 secs</property>
    <property name="Read Timeout">10 secs</property>

    <property name="Url">"#;

/// The login through an LDAP, from the URL to the search base.
pub const LDAP_PROVIDER_UP_TO_SEARCH_BASE: &'static str = r#"</property>
    <property name="User Search Base">"#;

/// The login through an LDAP, from the search base to the search filter.
pub const LDAP_PROVIDER_UP_TO_SEARCH_FILTER: &'static str = r#"</property>
    <property name="User Search Filter">"#;

/// The login through an LDAP, after the search filter.
pub const LDAP_PROVIDER_END: &'static str = r#"</property>

    <property name="TLS - Client Auth">NONE</property>
    <property name="TLS - Keystore">/stackable/keystore/keystore.p12</property>
    <property name="TLS - Keystore Password">secret</property>
    <property name="TLS - Keystore Type">PKCS12</property>
    <property name="TLS - Truststore">/stackable/keystore/truststore.p12</property>
    <property name="TLS - Truststore Password">secret</property>
    <property name="TLS - Truststore Type">PKCS12</property>
    <property name="TLS - Protocol">TLSv1.2</property>
    <property name="TLS - Shutdown Gracefully">true</property>

    <property name="Identity Strategy">USE_DN</property>
    <property name="Authentication Expiration">7 days</property>
</provider>
"#;

/// Why an authentication cannot be configured.
#[derive(Debug, PartialEq, Eq)]
pub enum Error {
    /// Only one authentication mechanism is supported by NiFi.
    SingleAuthenticationMechanismSupported,
    /// The provider of the authentication class is not supported by NiFi.
    AuthenticationClassProviderNotSupported {
        authentication_class_provider: String,
    },
}

/// The contents of a [`Error`].
#[verifier::ext_equal]
pub enum ErrorView {
    SingleAuthenticationMechanismSupported,
    AuthenticationClassProviderNotSupported { authentication_class_provider: Seq<char> },
}

impl DeepView for Error {
    type V = ErrorView;

    open spec fn deep_view(&self) -> ErrorView {
        match self {
            Error::SingleAuthenticationMechanismSupported =>
                ErrorView::SingleAuthenticationMechanismSupported,
            Error::AuthenticationClassProviderNotSupported { authentication_class_provider } =>
                ErrorView::AuthenticationClassProviderNotSupported {
                    authentication_class_provider: authentication_class_provider.deep_view(),
                },
        }
    }
}

/// Users that a Secret lists.
#[derive(Debug, PartialEq, Eq)]
pub struct StaticAuthenticationProvider {
    /// The Secret that holds the password.
    pub user_credentials_secret: String,
}

/// The contents of a [`StaticAuthenticationProvider`].
#[verifier::ext_equal]
pub struct StaticAuthenticationProviderView {
    pub user_credentials_secret: Seq<char>,
}

impl DeepView for StaticAuthenticationProvider {
    type V = StaticAuthenticationProviderView;

    open spec fn deep_view(&self) -> StaticAuthenticationProviderView {
        StaticAuthenticationProviderView {
            user_credentials_secret: self.user_credentials_secret.deep_view(),
        }
    }
}

impl Copied for StaticAuthenticationProvider {
    fn copied(&self) -> (copy: StaticAuthenticationProvider) {
        StaticAuthenticationProvider {
            user_credentials_secret: self.user_credentials_secret.copied(),
        }
    }
}

/// Users of an LDAP.
#[derive(Debug, PartialEq, Eq)]
pub struct LdapAuthenticationProvider {
    pub hostname: String,
    /// The port, where it is not the usual one.
    pub port: Option<u16>,
    /// The usual port of the protocol.
    pub default_port: u16,
    pub search_base: String,
    /// The filter that finds a user; a default one is used where this is empty.
    pub search_filter: String,
    /// The field that holds the name of a user.
    pub uid_field: String,
    /// The files with the user and the password to bind with, where binding is configured.
    pub bind_credentials_mount_paths: Option<(String, String)>,
    pub uses_tls: bool,
    /// The file with the certificate that the server is checked against.
    pub tls_ca_cert_mount_path: Option<String>,
    /// The volumes with these files.
    pub volumes: Vec<Volume>,
    /// The mounts of these volumes.
    pub volume_mounts: Vec<VolumeMount>,
}

/// The contents of a [`LdapAuthenticationProvider`].
#[verifier::ext_equal]
pub struct LdapAuthenticationProviderView {
    pub hostname: Seq<char>,
    pub port: Option<u16>,
    pub default_port: u16,
    pub search_base: Seq<char>,
    pub search_filter: Seq<char>,
    pub uid_field: Seq<char>,
    pub bind_credentials_mount_paths: Option<(Seq<char>, Seq<char>)>,
    pub uses_tls: bool,
    pub tls_ca_cert_mount_path: Option<Seq<char>>,
    pub volumes: Seq<VolumeView>,
    pub volume_mounts: Seq<VolumeMountView>,
}

impl DeepView for LdapAuthenticationProvider {
    type V = LdapAuthenticationProviderView;

    open spec fn deep_view(&self) -> LdapAuthenticationProviderView {
        LdapAuthenticationProviderView {
            hostname: self.hostname.deep_view(),
            port: self.port.deep_view(),
            default_port: self.default_port.deep_view(),
            search_base: self.search_base.deep_view(),
            search_filter: self.search_filter.deep_view(),
            uid_field: self.uid_field.deep_view(),
            bind_credentials_mount_paths: self.bind_credentials_mount_paths.deep_view(),
            uses_tls: self.uses_tls.deep_view(),
            tls_ca_cert_mount_path: self.tls_ca_cert_mount_path.deep_view(),
            volumes: self.volumes.deep_view(),
            volume_mounts: self.volume_mounts.deep_view(),
        }
    }
}

impl Copied for LdapAuthenticationProvider {
    fn copied(&self) -> (copy: LdapAuthenticationProvider) {
        LdapAuthenticationProvider {
            hostname: self.hostname.copied(),
            port: self.port.copied(),
            default_port: self.default_port,
            search_base: self.search_base.copied(),
            search_filter: self.search_filter.copied(),
            uid_field: self.uid_field.copied(),
            bind_credentials_mount_paths: self.bind_credentials_mount_paths.copied(),
            uses_tls: self.uses_tls,
            tls_ca_cert_mount_path: self.tls_ca_cert_mount_path.copied(),
            volumes: self.volumes.copied(),
            volume_mounts: self.volume_mounts.copied(),
        }
    }
}

/// Users of an OpenID Connect provider.
#[derive(Debug, PartialEq, Eq)]
pub struct OidcAuthenticationProvider {
    /// The properties that point NiFi to the provider; none where they cannot be derived.
    pub properties: Option<StringMap>,
    /// The Secret with the client credentials.
    pub client_credentials_secret: String,
    /// The environment variables with the client credentials.
    pub client_credentials_env_vars: Vec<EnvVar>,
    pub cluster_name: String,
}

/// The contents of a [`OidcAuthenticationProvider`].
#[verifier::ext_equal]
pub struct OidcAuthenticationProviderView {
    pub properties: Option<Map<Seq<char>, Seq<char>>>,
    pub client_credentials_secret: Seq<char>,
    pub client_credentials_env_vars: Seq<EnvVarView>,
    pub cluster_name: Seq<char>,
}

impl DeepView for OidcAuthenticationProvider {
    type V = OidcAuthenticationProviderView;

    open spec fn deep_view(&self) -> OidcAuthenticationProviderView {
        OidcAuthenticationProviderView {
            properties: self.properties.deep_view(),
            client_credentials_secret: self.client_credentials_secret.deep_view(),
            client_credentials_env_vars: self.client_credentials_env_vars.deep_view(),
            cluster_name: self.cluster_name.deep_view(),
        }
    }
}

impl Copied for OidcAuthenticationProvider {
    fn copied(&self) -> (copy: OidcAuthenticationProvider) {
        OidcAuthenticationProvider {
            properties: self.properties.copied(),
            client_credentials_secret: self.client_credentials_secret.copied(),
            client_credentials_env_vars: self.client_credentials_env_vars.copied(),
            cluster_name: self.cluster_name.copied(),
        }
    }
}

/// How users prove who they are.
#[allow(inconsistent_fields)]
#[derive(Debug, PartialEq, Eq)]
pub enum NifiAuthenticationConfig {
    /// One user with a password.
    SingleUser {
        provider: StaticAuthenticationProvider,
    },
    /// Users of an LDAP.
    Ldap {
        provider: LdapAuthenticationProvider,
    },
    /// Users of an OpenID Connect provider, besides one user with a password for the API.
    Oidc {
        provider: OidcAuthenticationProvider,
    },
}

/// The contents of a [`NifiAuthenticationConfig`].
#[allow(inconsistent_fields)]
#[verifier::ext_equal]
pub enum NifiAuthenticationConfigView {
    SingleUser { provider: StaticAuthenticationProviderView },
    Ldap { provider: LdapAuthenticationProviderView },
    Oidc { provider: OidcAuthenticationProviderView },
}

impl DeepView for NifiAuthenticationConfig {
    type V = NifiAuthenticationConfigView;

    open spec fn deep_view(&self) -> NifiAuthenticationConfigView {
        match self {
            NifiAuthenticationConfig::SingleUser { provider } =>
                NifiAuthenticationConfigView::SingleUser {
                    provider: provider.deep_view(),
                },
            NifiAuthenticationConfig::Ldap { provider } => NifiAuthenticationConfigView::Ldap {
                provider: provider.deep_view(),
            },
            NifiAuthenticationConfig::Oidc { provider } => NifiAuthenticationConfigView::Oidc {
                provider: provider.deep_view(),
            },
        }
    }
}

impl Copied for NifiAuthenticationConfig {
    fn copied(&self) -> (copy: NifiAuthenticationConfig) {
        match self {
            NifiAuthenticationConfig::SingleUser { provider } =>
                NifiAuthenticationConfig::SingleUser {
                    provider: provider.copied(),
                },
            NifiAuthenticationConfig::Ldap { provider } => NifiAuthenticationConfig::Ldap {
                provider: provider.copied(),
            },
            NifiAuthenticationConfig::Oidc { provider } => NifiAuthenticationConfig::Oidc {
                provider: provider.copied(),
            },
        }
    }
}

impl LdapAuthenticationProviderView {
    /// How NiFi connects to the LDAP.
    pub open spec fn strategy(self) -> Seq<char> {
        if self.bind_credentials_mount_paths.is_some() {
            if self.uses_tls {
                "LDAPS"@
            } else {
                "SIMPLE"@
            }
        } else {
            "ANONYMOUS"@
        }
    }

    /// The protocol of the URL.
    pub open spec fn protocol(self) -> Seq<char> {
        if self.uses_tls {
            "ldaps"@
        } else {
            "ldap"@
        }
    }

    /// The port, explicit or usual.
    pub open spec fn effective_port(self) -> u16 {
        match self.port {
            Some(port) => port,
            None => self.default_port,
        }
    }

    /// The filter of the user, or one that looks the name up in the field that holds it.
    pub open spec fn effective_search_filter(self) -> Seq<char> {
        if self.search_filter.len() == 0 {
            self.uid_field + "={0}"@
        } else {
            self.search_filter
        }
    }

    /// The login through this LDAP.
    pub open spec fn login_identity_provider(self) -> Seq<char> {
        LDAP_PROVIDER_START@ + self.strategy() + LDAP_PROVIDER_UP_TO_URL@ + self.protocol()
            + "://"@ + self.hostname + ":"@ + text::decimal(self.effective_port() as nat)
            + LDAP_PROVIDER_UP_TO_SEARCH_BASE@ + self.search_base
            + LDAP_PROVIDER_UP_TO_SEARCH_FILTER@ + self.effective_search_filter()
            + LDAP_PROVIDER_END@
    }
}

/// The login through an LDAP.
pub fn get_ldap_login_identity_provider(ldap: &LdapAuthenticationProvider) -> (xml: String)
    ensures
        xml@ == ldap.deep_view().login_identity_provider(),
{
    let search_filter = if ldap.search_filter.as_str().is_empty() {
        concat2(ldap.uid_field.as_str(), "={0}")
    } else {
        ldap.search_filter.copied()
    };
    let strategy: &str = if ldap.bind_credentials_mount_paths.is_some() {
        if ldap.uses_tls {
            "LDAPS"
        } else {
            "SIMPLE"
        }
    } else {
        "ANONYMOUS"
    };
    let protocol: &str = if ldap.uses_tls {
        "ldaps"
    } else {
        "ldap"
    };
    let port: u16 = match ldap.port {
        Some(port) => port,
        None => ldap.default_port,
    };
    let port_text = number_text(port as u64);
    LDAP_PROVIDER_START.to_owned().concat(strategy).concat(LDAP_PROVIDER_UP_TO_URL).concat(
        protocol,
    ).concat("://").concat(ldap.hostname.as_str()).concat(":").concat(port_text.as_str()).concat(
        LDAP_PROVIDER_UP_TO_SEARCH_BASE,
    ).concat(ldap.search_base.as_str()).concat(LDAP_PROVIDER_UP_TO_SEARCH_FILTER).concat(
        search_filter.as_str(),
    ).concat(LDAP_PROVIDER_END)
}

/// The authorizer for users from an LDAP.
pub fn get_ldap_authorizer() -> (xml: String)
    ensures
        xml@ == LDAP_AUTHORIZER@,
{
    LDAP_AUTHORIZER.to_owned()
}

/// The command that puts what a file holds in place of a placeholder.
pub open spec fn replace_by_file_command(
    placeholder: Seq<char>,
    file: Seq<char>,
    config_file: Seq<char>,
) -> Seq<char> {
    "sed -i \"s|"@ + placeholder + "|$(cat "@ + file + ")|g\" "@ + LIVE_CONFIG_PREFIX@ + config_file
}

/// The command that puts what a file holds in place of a placeholder.
fn replace_by_file(placeholder: &str, file: &str, config_file: &str) -> (command: String)
    ensures
        command@ == replace_by_file_command(placeholder@, file@, config_file@),
{
    "sed -i \"s|".to_owned().concat(placeholder).concat("|$(cat ").concat(file).concat(
        ")|g\" ",
    ).concat(LIVE_CONFIG_PREFIX).concat(config_file)
}

/// The file that holds the password of the single user.
pub open spec fn single_user_password_file() -> Seq<char> {
    STACKABLE_USER_VOLUME_MOUNT_PATH@ + "/"@ + STACKABLE_ADMIN_USERNAME@
}

/// The commands that put the password of the single user into the configuration.
pub open spec fn single_user_commands() -> Seq<Seq<char>> {
    seq![
        "echo 'Replacing "@ + STACKABLE_ADMIN_USERNAME@ + " password in "@
            + LOGIN_IDENTITY_PROVIDERS_XML_FILE_NAME@ + " (if configured)'"@,
        "sed -i \"s|"@ + STACKABLE_SINGLE_USER_PASSWORD_PLACEHOLDER@ + "|$(cat "@
            + single_user_password_file() + " | java -jar /bin/stackable-bcrypt.jar)|g\" "@
            + LIVE_CONFIG_PREFIX@ + LOGIN_IDENTITY_PROVIDERS_XML_FILE_NAME@,
    ]
}

/// The commands that put the bind credentials of an LDAP into the configuration.
pub open spec fn ldap_credentials_commands(
    user_file: Seq<char>,
    password_file: Seq<char>,
) -> Seq<Seq<char>> {
    seq![
        "echo Replacing ldap bind username and password in "@
            + LOGIN_IDENTITY_PROVIDERS_XML_FILE_NAME@,
        replace_by_file_command(
            STACKABLE_LDAP_BIND_USER_NAME_PLACEHOLDER@,
            user_file,
            LOGIN_IDENTITY_PROVIDERS_XML_FILE_NAME@,
        ),
        replace_by_file_command(
            STACKABLE_LDAP_BIND_USER_PASSWORD_PLACEHOLDER@,
            password_file,
            LOGIN_IDENTITY_PROVIDERS_XML_FILE_NAME@,
        ),
        replace_by_file_command(
            STACKABLE_LDAP_BIND_USER_NAME_PLACEHOLDER@,
            user_file,
            AUTHORIZERS_XML_FILE_NAME@,
        ),
    ]
}

/// The commands that make NiFi trust the certificate of an LDAP.
pub open spec fn ldap_certificate_commands(ca_path: Seq<char>) -> Seq<Seq<char>> {
    seq![
        "echo Adding LDAP tls cert to global truststore"@,
        "keytool -importcert -file "@ + ca_path
            + " -keystore /stackable/keystore/truststore.p12 -storetype pkcs12 -noprompt -alias ldap_ca_cert -storepass secret"@,
    ]
}

/// The volume with the password of the single user, taken from a Secret.
pub open spec fn admin_volume(secret_name: Seq<char>) -> VolumeView {
    VolumeView {
        name: STACKABLE_ADMIN_USERNAME@,
        source: VolumeSourceView::Secret {
            secret_name,
            optional: Some(false),
            items: seq![
                KeyToPathView { key: STACKABLE_ADMIN_USERNAME@, path: STACKABLE_ADMIN_USERNAME@ },
            ],
        },
    }
}

/// The mount of the volume with the password of the single user.
pub open spec fn admin_volume_mount() -> VolumeMountView {
    VolumeMountView {
        name: STACKABLE_ADMIN_USERNAME@,
        mount_path: STACKABLE_USER_VOLUME_MOUNT_PATH@,
        sub_path: None,
    }
}

/// The name of the Secret with the password of the single user beside OpenID Connect.
pub open spec fn oidc_admin_password_secret(cluster_name: Seq<char>) -> Seq<char> {
    cluster_name + "-oidc-admin-password"@
}

/// The volume with the password of the single user.
fn build_admin_volume(secret_name: &str) -> (volume: Volume)
    ensures
        volume.deep_view() == admin_volume(secret_name@),
{
    Volume {
        name: STACKABLE_ADMIN_USERNAME.to_owned(),
        source: VolumeSource::Secret {
            secret_name: secret_name.to_owned(),
            optional: Some(false),
            items: list_of(
                KeyToPath {
                    key: STACKABLE_ADMIN_USERNAME.to_owned(),
                    path: STACKABLE_ADMIN_USERNAME.to_owned(),
                },
            ),
        },
    }
}

/// The mount of the volume with the password of the single user.
fn build_admin_volume_mount() -> (mount: VolumeMount)
    ensures
        mount.deep_view() == admin_volume_mount(),
{
    VolumeMount {
        name: STACKABLE_ADMIN_USERNAME.to_owned(),
        mount_path: STACKABLE_USER_VOLUME_MOUNT_PATH.to_owned(),
        sub_path: None,
    }
}

impl NifiAuthenticationConfigView {
    /// What the file with the login identity providers holds.
    pub open spec fn login_identity_providers(self) -> Seq<char> {
        LOGIN_IDENTITY_PROVIDERS_HEADER@ + (match self {
            NifiAuthenticationConfigView::Ldap { provider } => provider.login_identity_provider(),
            _ => SINGLE_USER_LOGIN_IDENTITY_PROVIDER@,
        }) + LOGIN_IDENTITY_PROVIDERS_FOOTER@
    }

    /// What the file with the authorizers holds, where the authentication decides on it.
    pub open spec fn authorizers(self) -> Seq<char> {
        AUTHORIZERS_HEADER@ + (match self {
            NifiAuthenticationConfigView::Ldap { .. } => LDAP_AUTHORIZER@,
            _ => SINGLE_USER_AUTHORIZER@,
        }) + AUTHORIZERS_FOOTER@
    }

    /// The files with the name and the password of the user that may use the API; the first is
    /// empty where the user is the single user.
    pub open spec fn user_and_password_files(self) -> (Seq<char>, Seq<char>) {
        match self {
            NifiAuthenticationConfigView::Ldap { provider } => match provider.bind_credentials_mount_paths {
                Some(paths) => paths,
                None => (Seq::empty(), Seq::empty()),
            },
            _ => (Seq::empty(), single_user_password_file()),
        }
    }

    /// The commands that complete the configuration when a pod starts.
    pub open spec fn additional_container_args(self) -> Seq<Seq<char>> {
        match self {
            NifiAuthenticationConfigView::Ldap { provider } => (match provider.bind_credentials_mount_paths {
                Some(paths) => ldap_credentials_commands(paths.0, paths.1),
                None => Seq::empty(),
            }) + (match provider.tls_ca_cert_mount_path {
                Some(ca_path) => ldap_certificate_commands(ca_path),
                None => Seq::empty(),
            }),
            _ => single_user_commands(),
        }
    }

    /// The environment variables with the credentials.
    pub open spec fn env_vars(self) -> Seq<EnvVarView> {
        match self {
            NifiAuthenticationConfigView::Oidc { provider } => provider.client_credentials_env_vars,
            _ => Seq::empty(),
        }
    }

    /// The volumes with the credentials.
    pub open spec fn volumes(self) -> Seq<VolumeView> {
        match self {
            NifiAuthenticationConfigView::SingleUser { provider } => seq![
                admin_volume(provider.user_credentials_secret),
            ],
            NifiAuthenticationConfigView::Ldap { provider } => provider.volumes,
            NifiAuthenticationConfigView::Oidc { provider } => seq![
                admin_volume(oidc_admin_password_secret(provider.cluster_name)),
            ],
        }
    }

    /// The mounts of these volumes.
    pub open spec fn volume_mounts(self) -> Seq<VolumeMountView> {
        match self {
            NifiAuthenticationConfigView::Ldap { provider } => provider.volume_mounts,
            _ => seq![admin_volume_mount()],
        }
    }
}

/// The authentication that the first class asks for, or why there is none.
pub open spec fn authentication_of(classes: Seq<AuthenticationClassView>) -> Result<
    NifiAuthenticationConfigView,
    ErrorView,
> {
    if classes.len() == 0 {
        Err(ErrorView::SingleAuthenticationMechanismSupported)
    } else {
        match classes[0].provider {
            AuthenticationClassProviderView::Static { provider } => Ok(
                NifiAuthenticationConfigView::SingleUser { provider },
            ),
            AuthenticationClassProviderView::Ldap { provider, .. } => Ok(
                NifiAuthenticationConfigView::Ldap { provider },
            ),
            AuthenticationClassProviderView::Oidc { provider, .. } => Ok(
                NifiAuthenticationConfigView::Oidc { provider },
            ),
            AuthenticationClassProviderView::Other { name } => Err(
                ErrorView::AuthenticationClassProviderNotSupported {
                    authentication_class_provider: name,
                },
            ),
        }
    }
}

impl NifiAuthenticationConfig {
    /// The authentication that the first class asks for. There should be no other one.
    pub fn try_from(auth_classes: &Vec<AuthenticationClass>) -> (result: Result<
        NifiAuthenticationConfig,
        Error,
    >)
        ensures
            match result {
                Ok(config) => authentication_of(auth_classes.deep_view()) == Ok::<
                    NifiAuthenticationConfigView,
                    ErrorView,
                >(config.deep_view()),
                Err(error) => authentication_of(auth_classes.deep_view()) == Err::<
                    NifiAuthenticationConfigView,
                    ErrorView,
                >(error.deep_view()),
            },
    {
        if auth_classes.len() == 0 {
            return Err(Error::SingleAuthenticationMechanismSupported);
        }
        match &auth_classes[0].provider {
            AuthenticationClassProvider::Static { provider } => Ok(
                NifiAuthenticationConfig::SingleUser { provider: provider.copied() },
            ),
            AuthenticationClassProvider::Ldap { provider, .. } => Ok(
                NifiAuthenticationConfig::Ldap { provider: provider.copied() },
            ),
            AuthenticationClassProvider::Oidc { provider, .. } => Ok(
                NifiAuthenticationConfig::Oidc { provider: provider.copied() },
            ),
            AuthenticationClassProvider::Other { name } => Err(
                Error::AuthenticationClassProviderNotSupported {
                    authentication_class_provider: name.copied(),
                },
            ),
        }
    }

    /// The file with the login identity providers.
    pub fn get_authentication_config(&self) -> (xml: Result<String, Error>)
        ensures
            xml.is_ok(),
            xml.unwrap()@ == self.deep_view().login_identity_providers(),
    {
        let provider = match self {
            NifiAuthenticationConfig::Ldap { provider } =>
                get_ldap_login_identity_provider(provider),
            _ => SINGLE_USER_LOGIN_IDENTITY_PROVIDER.to_owned(),
        };
        Ok(
            concat3(
                LOGIN_IDENTITY_PROVIDERS_HEADER,
                provider.as_str(),
                LOGIN_IDENTITY_PROVIDERS_FOOTER,
            ),
        )
    }

    /// The file with the login identity providers and the file with the authorizers.
    pub fn get_auth_config(&self) -> (files: (String, String))
        ensures
            files.0@ == self.deep_view().login_identity_providers(),
            files.1@ == self.deep_view().authorizers(),
    {
        let (provider, authorizer) = match self {
            NifiAuthenticationConfig::Ldap { provider } => (
                get_ldap_login_identity_provider(provider),
                get_ldap_authorizer(),
            ),
            _ => (
                SINGLE_USER_LOGIN_IDENTITY_PROVIDER.to_owned(),
                SINGLE_USER_AUTHORIZER.to_owned(),
            ),
        };
        (
            concat3(
                LOGIN_IDENTITY_PROVIDERS_HEADER,
                provider.as_str(),
                LOGIN_IDENTITY_PROVIDERS_FOOTER,
            ),
            concat3(AUTHORIZERS_HEADER, authorizer.as_str(), AUTHORIZERS_FOOTER),
        )
    }

    /// The files with the name and the password of the user that may use the API. The first is
    /// empty where the user is the single user.
    pub fn get_user_and_password_file_paths(&self) -> (files: (String, String))
        ensures
            (files.0@, files.1@) == self.deep_view().user_and_password_files(),
    {
        match self {
            NifiAuthenticationConfig::Ldap { provider } => match &provider.bind_credentials_mount_paths {
                Some(paths) => paths.copied(),
                None => (String::new(), String::new()),
            },
            _ => (
                String::new(),
                concat3(STACKABLE_USER_VOLUME_MOUNT_PATH, "/", STACKABLE_ADMIN_USERNAME),
            ),
        }
    }

    /// The commands that complete the configuration when a pod starts.
    pub fn get_additional_container_args(&self) -> (commands: Vec<String>)
        ensures
            commands.deep_view() == self.deep_view().additional_container_args(),
    {
        let mut commands: Vec<String> = empty_list();
        match self {
            NifiAuthenticationConfig::Ldap { provider } => {
                if let Some(paths) = &provider.bind_credentials_mount_paths {
                    add_item(
                        &mut commands,
                        concat2(
                            "echo Replacing ldap bind username and password in ",
                            LOGIN_IDENTITY_PROVIDERS_XML_FILE_NAME,
                        ),
                    );
                    add_item(
                        &mut commands,
                        replace_by_file(
                            STACKABLE_LDAP_BIND_USER_NAME_PLACEHOLDER,
                            paths.0.as_str(),
                            LOGIN_IDENTITY_PROVIDERS_XML_FILE_NAME,
                        ),
                    );
                    add_item(
                        &mut commands,
                        replace_by_file(
                            STACKABLE_LDAP_BIND_USER_PASSWORD_PLACEHOLDER,
                            paths.1.as_str(),
                            LOGIN_IDENTITY_PROVIDERS_XML_FILE_NAME,
                        ),
                    );
                    add_item(
                        &mut commands,
                        replace_by_file(
                            STACKABLE_LDAP_BIND_USER_NAME_PLACEHOLDER,
                            paths.0.as_str(),
                            AUTHORIZERS_XML_FILE_NAME,
                        ),
                    );
                }
                if let Some(ca_path) = &provider.tls_ca_cert_mount_path {
                    add_text(&mut commands, "echo Adding LDAP tls cert to global truststore");
                    add_item(
                        &mut commands,
                        concat3(
                            "keytool -importcert -file ",
                            ca_path.as_str(),
                            " -keystore /stackable/keystore/truststore.p12 -storetype pkcs12 -noprompt -alias ldap_ca_cert -storepass secret",
                        ),
                    );
                }
                proof {
                    assert(commands.deep_view() =~= self.deep_view().additional_container_args());
                }
            },
            _ => {
                let password_file = concat3(
                    STACKABLE_USER_VOLUME_MOUNT_PATH,
                    "/",
                    STACKABLE_ADMIN_USERNAME,
                );
                add_item(
                    &mut commands,
                    "echo 'Replacing ".to_owned().concat(STACKABLE_ADMIN_USERNAME).concat(
                        " password in ",
                    ).concat(LOGIN_IDENTITY_PROVIDERS_XML_FILE_NAME).concat(" (if configured)'"),
                );
                add_item(
                    &mut commands,
                    "sed -i \"s|".to_owned().concat(
                        STACKABLE_SINGLE_USER_PASSWORD_PLACEHOLDER,
                    ).concat("|$(cat ").concat(password_file.as_str()).concat(
                        " | java -jar /bin/stackable-bcrypt.jar)|g\" ",
                    ).concat(LIVE_CONFIG_PREFIX).concat(LOGIN_IDENTITY_PROVIDERS_XML_FILE_NAME),
                );
            },
        }
        commands
    }

    /// The environment variables with the credentials.
    pub fn get_env_vars(&self) -> (env_vars: Vec<EnvVar>)
        ensures
            env_vars.deep_view() == self.deep_view().env_vars(),
    {
        match self {
            NifiAuthenticationConfig::Oidc { provider } =>
                provider.client_credentials_env_vars.copied(),
            _ => empty_list(),
        }
    }

    /// The volumes with the credentials, and the mounts that each container needs.
    pub fn volumes_and_mounts(&self) -> (added: (Vec<Volume>, Vec<VolumeMount>))
        ensures
            added.0.deep_view() == self.deep_view().volumes(),
            added.1.deep_view() == self.deep_view().volume_mounts(),
    {
        match self {
            NifiAuthenticationConfig::SingleUser { provider } => (
                list_of(build_admin_volume(provider.user_credentials_secret.as_str())),
                list_of(build_admin_volume_mount()),
            ),
            NifiAuthenticationConfig::Ldap { provider } => (
                provider.volumes.copied(),
                provider.volume_mounts.copied(),
            ),
            NifiAuthenticationConfig::Oidc { provider } => {
                let secret_name = concat2(provider.cluster_name.as_str(), "-oidc-admin-password");
                (
                    list_of(build_admin_volume(secret_name.as_str())),
                    list_of(build_admin_volume_mount()),
                )
            },
        }
    }
}

} // verus!
