//! The Secrets whose contents the operator generates: the key of the sensitive properties and, for
//! OpenID Connect, the password of the single user.
//!
//! Both are built only while they do not exist. Their contents are random, so that a Secret cannot
//! be built a second time, and writing over one would lose contents that have to stay: with a
//! new key, NiFi cannot decrypt the sensitive values of a flow that it has already stored.

use crate::contents::Copied;
use crate::controller;
use crate::controller::{ValidatedCluster, ValidatedClusterView};
use crate::kubernetes::{ObjectMeta, ObjectMetaView, OwnerReferenceView, Secret, SecretView};
use crate::list::{add_item, empty_list};
use crate::ordered_map::{OrderedMap, StringMap};
use crate::security::authentication;
use crate::security::authentication::{NifiAuthenticationConfig, STACKABLE_ADMIN_USERNAME};
use crate::text::concat2;
use rand::RngExt;
use vstd::prelude::*;

verus! {

/// The key under which the key of the sensitive properties is stored in its Secret. The
/// properties of NiFi name the mounted file by it.
pub const SENSITIVE_PROPERTY_KEY_NAME: &'static str = "nifiSensitivePropsKey";

/// The length of generated passwords.
pub const GENERATED_PASSWORD_LENGTH: usize = 15;

/// Whether a character is an ASCII letter or digit.
pub open spec fn is_alphanumeric(c: char) -> bool {
    'A' <= c <= 'Z' || 'a' <= c <= 'z' || '0' <= c <= '9'
}

/// Whether a text can be a generated password.
pub open spec fn is_password(text: Seq<char>) -> bool {
    text.len() == GENERATED_PASSWORD_LENGTH && forall|i: int|
        0 <= i < text.len() ==> is_alphanumeric(#[trigger] text[i])
}

/// Draws one character with `RngExt::sample` of the `rand` crate from the distribution
/// `Alphanumeric`, by the random number generator of the thread: an ASCII letter or digit. It
/// panics only where the random source of the system fails, which no argument decides.
#[verifier::external_body]
fn random_alphanumeric() -> (c: char)
    ensures
        is_alphanumeric(c),
{
    char::from(rand::rng().sample(rand::distr::Alphanumeric))
}

/// A random password.
pub fn generate_password() -> (password: String)
    ensures
        is_password(password@),
{
    let mut password = String::new();
    let mut i: usize = 0;
    while i < GENERATED_PASSWORD_LENGTH
        invariant
            i <= GENERATED_PASSWORD_LENGTH,
            password@.len() == i,
            forall|j: int| 0 <= j < i ==> is_alphanumeric(#[trigger] password@[j]),
        decreases GENERATED_PASSWORD_LENGTH - i,
    {
        password.push(random_alphanumeric());
        i = i + 1;
    }
    password
}

/// The metadata of a generated Secret. Unlike all other objects it is not owned by the cluster:
/// it has to outlive it.
pub open spec fn secret_metadata(cluster: ValidatedClusterView, name: Seq<char>) -> ObjectMetaView {
    ObjectMetaView {
        name: Some(name),
        namespace: Some(cluster.namespace),
        uid: None,
        labels: controller::recommended_label_set(
            cluster.name,
            cluster.product_version,
            controller::NO_ROLE_OR_GROUP@,
            controller::NO_ROLE_OR_GROUP@,
        ),
        annotations: Map::empty(),
        owner_references: Seq::empty(),
    }
}

/// The Secret that holds a password under a key.
pub open spec fn password_secret(
    cluster: ValidatedClusterView,
    name: Seq<char>,
    key: Seq<char>,
    password: Seq<char>,
) -> SecretView {
    SecretView {
        metadata: secret_metadata(cluster, name),
        data: None,
        string_data: Some(Map::empty().insert(key, password)),
    }
}

/// Whether the Secret with the key of the sensitive properties has to be generated: the user
/// allows it, and it does not exist.
pub open spec fn sensitive_key_is_due(cluster: ValidatedClusterView) -> bool {
    cluster.cluster_config.sensitive_properties.auto_generate
        && cluster.existing_secrets.sensitive_key.is_none()
}

/// Whether the Secret with the password of the single user has to be generated: OpenID Connect is
/// used, and it does not exist.
pub open spec fn admin_password_is_due(cluster: ValidatedClusterView) -> bool {
    cluster.cluster_config.authentication is Oidc
        && cluster.existing_secrets.oidc_admin_password.is_none()
}

/// The Secrets of a cluster, for given passwords.
pub open spec fn generated_secrets(
    cluster: ValidatedClusterView,
    sensitive_key: Seq<char>,
    admin_password: Seq<char>,
) -> Seq<SecretView> {
    (if sensitive_key_is_due(cluster) {
        seq![
            password_secret(
                cluster,
                cluster.cluster_config.sensitive_properties.key_secret,
                SENSITIVE_PROPERTY_KEY_NAME@,
                sensitive_key,
            ),
        ]
    } else {
        Seq::empty()
    }) + (if admin_password_is_due(cluster) {
        seq![
            password_secret(
                cluster,
                authentication::oidc_admin_password_secret(cluster.name),
                STACKABLE_ADMIN_USERNAME@,
                admin_password,
            ),
        ]
    } else {
        Seq::empty()
    })
}

/// The name of the Secret with the password of the single user beside OpenID Connect.
pub fn build_oidc_admin_password_secret_name(cluster_name: &str) -> (name: String)
    ensures
        name@ == authentication::oidc_admin_password_secret(cluster_name@),
{
    concat2(cluster_name, "-oidc-admin-password")
}

/// The metadata of a generated Secret.
fn secret_meta(cluster: &ValidatedCluster, name: &str) -> (metadata: ObjectMeta)
    ensures
        metadata.deep_view() == secret_metadata(cluster.deep_view(), name@),
{
    ObjectMeta {
        name: Some(name.to_owned()),
        namespace: Some(cluster.namespace.copied()),
        uid: None,
        labels: cluster.cluster_shared_recommended_labels(),
        annotations: OrderedMap::new(),
        owner_references: empty_list(),
    }
}

/// A Secret that holds a password under a key.
pub fn secret_with_password(
    cluster: &ValidatedCluster,
    name: &str,
    key: &str,
    password: &str,
) -> (secret: Secret)
    ensures
        secret.deep_view() == password_secret(cluster.deep_view(), name@, key@, password@),
{
    let mut string_data: StringMap = OrderedMap::new();
    string_data.put(key, password);
    Secret { metadata: secret_meta(cluster, name), data: None, string_data: Some(string_data) }
}

/// The Secret with the key of the sensitive properties, where it has to be generated.
///
/// Where the user does not ask for it to be generated, the Secret is theirs, and never written.
pub fn build_sensitive_key_secret(cluster: &ValidatedCluster, password: &str) -> (secret: Option<
    Secret,
>)
    ensures
        secret.deep_view() == (if sensitive_key_is_due(cluster.deep_view()) {
            Some(
                password_secret(
                    cluster.deep_view(),
                    cluster.deep_view().cluster_config.sensitive_properties.key_secret,
                    SENSITIVE_PROPERTY_KEY_NAME@,
                    password@,
                ),
            )
        } else {
            None
        }),
{
    let sensitive_properties = &cluster.cluster_config.sensitive_properties;
    if !sensitive_properties.auto_generate || cluster.existing_secrets.sensitive_key.is_some() {
        return None;
    }
    Some(
        secret_with_password(
            cluster,
            sensitive_properties.key_secret.as_str(),
            SENSITIVE_PROPERTY_KEY_NAME,
            password,
        ),
    )
}

/// The Secret with the password of the single user, where it has to be generated.
pub fn build_oidc_admin_password_secret(cluster: &ValidatedCluster, password: &str) -> (secret:
    Option<Secret>)
    ensures
        secret.deep_view() == (if admin_password_is_due(cluster.deep_view()) {
            Some(
                password_secret(
                    cluster.deep_view(),
                    authentication::oidc_admin_password_secret(cluster.deep_view().name),
                    STACKABLE_ADMIN_USERNAME@,
                    password@,
                ),
            )
        } else {
            None
        }),
{
    let uses_oidc = match &cluster.cluster_config.authentication {
        NifiAuthenticationConfig::Oidc { .. } => true,
        _ => false,
    };
    if !uses_oidc || cluster.existing_secrets.oidc_admin_password.is_some() {
        return None;
    }
    let name = build_oidc_admin_password_secret_name(cluster.name.as_str());
    Some(secret_with_password(cluster, name.as_str(), STACKABLE_ADMIN_USERNAME, password))
}

/// The Secrets of a cluster that have to be generated, with given passwords.
pub fn build_secrets_with(
    cluster: &ValidatedCluster,
    sensitive_key: &str,
    admin_password: &str,
) -> (secrets: Vec<Secret>)
    ensures
        secrets.deep_view() == generated_secrets(
            cluster.deep_view(),
            sensitive_key@,
            admin_password@,
        ),
{
    let mut secrets: Vec<Secret> = empty_list();
    if let Some(secret) = build_sensitive_key_secret(cluster, sensitive_key) {
        add_item(&mut secrets, secret);
    }
    if let Some(secret) = build_oidc_admin_password_secret(cluster, admin_password) {
        add_item(&mut secrets, secret);
    }
    proof {
        assert(secrets.deep_view() =~= generated_secrets(
            cluster.deep_view(),
            sensitive_key@,
            admin_password@,
        ));
    }
    secrets
}

/// The Secrets of a cluster that have to be generated, with random passwords.
pub fn build_secrets(cluster: &ValidatedCluster) -> (secrets: Vec<Secret>)
    ensures
        exists|sensitive_key: Seq<char>, admin_password: Seq<char>|
            is_password(sensitive_key) && is_password(admin_password) && secrets.deep_view()
                == #[trigger] generated_secrets(
                cluster.deep_view(),
                sensitive_key,
                admin_password,
            ),
{
    let sensitive_key = generate_password();
    let admin_password = generate_password();
    build_secrets_with(cluster, sensitive_key.as_str(), admin_password.as_str())
}

/// A Secret that exists is never built again, whatever passwords are drawn.
pub proof fn law_existing_secrets_are_kept(
    cluster: ValidatedClusterView,
    sensitive_key: Seq<char>,
    admin_password: Seq<char>,
    i: int,
)
    requires
        0 <= i < generated_secrets(cluster, sensitive_key, admin_password).len(),
        cluster.cluster_config.sensitive_properties.key_secret
            != authentication::oidc_admin_password_secret(cluster.name),
    ensures
        cluster.existing_secrets.sensitive_key.is_some() ==> generated_secrets(
            cluster,
            sensitive_key,
            admin_password,
        )[i].metadata.name != Some(cluster.cluster_config.sensitive_properties.key_secret),
        cluster.existing_secrets.oidc_admin_password.is_some() ==> generated_secrets(
            cluster,
            sensitive_key,
            admin_password,
        )[i].metadata.name != Some(authentication::oidc_admin_password_secret(cluster.name)),
{
}

/// Generated Secrets are not owned by the cluster.
pub proof fn law_secrets_outlive_the_cluster(
    cluster: ValidatedClusterView,
    sensitive_key: Seq<char>,
    admin_password: Seq<char>,
    i: int,
)
    requires
        0 <= i < generated_secrets(cluster, sensitive_key, admin_password).len(),
    ensures
        generated_secrets(cluster, sensitive_key, admin_password)[i].metadata.owner_references
            == Seq::<OwnerReferenceView>::empty(),
{
}

/// Generated passwords have fifteen characters, all of them letters or digits: they stand in a
/// shell command and in a file of properties as they are.
pub proof fn law_passwords_need_no_escaping(password: Seq<char>, i: int)
    requires
        is_password(password),
    ensures
        password.len() == 15,
        0 <= i < password.len() ==> 'A' <= password[i] <= 'Z' || 'a' <= password[i] <= 'z' || '0'
            <= password[i] <= '9',
{
    if 0 <= i < password.len() {
        assert(is_alphanumeric(password[i]));
    }
}

} // verus!
