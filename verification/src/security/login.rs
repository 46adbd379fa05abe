//! How users log in: what the files of NiFi say of it, and what is put into them when a pod starts.

use crate::crd::authentication::{AuthenticationClassProviderView, AuthenticationClassView};
use crate::kubernetes::{KeyToPathView, VolumeMountView, VolumeSourceView, VolumeView};
use crate::security::authentication;
use crate::security::authentication::{
    ErrorView, LdapAuthenticationProviderView, NifiAuthenticationConfigView,
};
use crate::security::authorization::ResolvedNifiAuthorizationConfigView;
use crate::text;
use vstd::prelude::*;

verus! {

/// The command that puts what a file holds in place of a placeholder in a file of the live
/// configuration.
pub open spec fn replacement(
    placeholder: Seq<char>,
    source: Seq<char>,
    config_file: Seq<char>,
) -> Seq<char> {
    "sed -i \"s|"@ + placeholder + "|$(cat "@ + source + ")|g\" /stackable/nifi/conf/"@
        + config_file
}

/// The commands of the prepare container with which a placeholder in a file is replaced replace it
/// by the contents of one file, and there is such a command.
pub open spec fn is_replaced_by(
    commands: Seq<Seq<char>>,
    placeholder: Seq<char>,
    source: Seq<char>,
    config_file: Seq<char>,
) -> bool {
    &&& commands.contains(replacement(placeholder, source, config_file))
    &&& forall|i: int, other: Seq<char>|
        0 <= i < commands.len() && #[trigger] commands[i] == #[trigger] replacement(
            placeholder,
            other,
            config_file,
        ) ==> other == source
}

/// The line of a property in a file of NiFi.
pub open spec fn property_line(name: Seq<char>, value: Seq<char>) -> Seq<char> {
    "<property name=\""@ + name + "\">"@ + value + "</property>"@
}

/// Two texts in the same place of two texts that are equal are equal.
proof fn lemma_middle(before: Seq<char>, a: Seq<char>, b: Seq<char>, after: Seq<char>)
    requires
        before + a + after == before + b + after,
    ensures
        a == b,
{
    assert((before + a + after).len() == before.len() + a.len() + after.len());
    assert((before + b + after).len() == before.len() + b.len() + after.len());
    assert(a.len() == b.len());
    assert forall|i: int| 0 <= i < a.len() implies a[i] == b[i] by {
        assert((before + a + after)[before.len() + i] == a[i]);
        assert((before + b + after)[before.len() + i] == b[i]);
    }
    assert(a =~= b);
}

/// The placeholder and the name of the file stand at fixed places of the command.
proof fn lemma_replacement(placeholder: Seq<char>, source: Seq<char>, config_file: Seq<char>)
    ensures
        replacement(placeholder, source, config_file) == ("sed -i \"s|"@ + placeholder + "|$(cat "@)
            + source + (")|g\" /stackable/nifi/conf/"@ + config_file),
        "sed -i \"s|"@.len() == 10,
        replacement(placeholder, source, config_file)[0] == 's',
        forall|k: int|
            0 <= k < placeholder.len() ==> replacement(placeholder, source, config_file)[10 + k]
                == #[trigger] placeholder[k],
        forall|k: int|
            0 <= k < config_file.len() ==> replacement(placeholder, source, config_file)[
                replacement(placeholder, source, config_file).len() - config_file.len() + k
            ] == #[trigger] config_file[k],
{
    reveal_strlit("sed -i \"s|");
    assert(replacement(placeholder, source, config_file) =~= ("sed -i \"s|"@ + placeholder
        + "|$(cat "@) + source + (")|g\" /stackable/nifi/conf/"@ + config_file));
}

/// The commands replace the same placeholder in the same file by the same.
proof fn lemma_same_source(
    placeholder: Seq<char>,
    a: Seq<char>,
    b: Seq<char>,
    config_file: Seq<char>,
)
    requires
        replacement(placeholder, a, config_file) == replacement(placeholder, b, config_file),
    ensures
        a == b,
{
    lemma_replacement(placeholder, a, config_file);
    lemma_replacement(placeholder, b, config_file);
    lemma_middle(
        "sed -i \"s|"@ + placeholder + "|$(cat "@,
        a,
        b,
        ")|g\" /stackable/nifi/conf/"@ + config_file,
    );
}

/// The commands for an LDAP, spelled out.
proof fn lemma_ldap_commands(user: Seq<char>, password: Seq<char>)
    ensures
        ({
            let commands = authentication::ldap_credentials_commands(user, password);
            &&& commands.len() == 4
            &&& commands[0][0] == 'e'
            &&& commands[1] == replacement(
                "xxx_ldap_bind_username_xxx"@,
                user,
                "login-identity-providers.xml"@,
            )
            &&& commands[2] == replacement(
                "xxx_ldap_bind_password_xxx"@,
                password,
                "login-identity-providers.xml"@,
            )
            &&& commands[3] == replacement(
                "xxx_ldap_bind_username_xxx"@,
                user,
                "authorizers.xml"@,
            )
        }),
{
    reveal_strlit(")|g\" ");
    reveal_strlit("/stackable/nifi/conf/");
    reveal_strlit(")|g\" /stackable/nifi/conf/");
    reveal_strlit("echo Replacing ldap bind username and password in ");
    assert(")|g\" "@ + "/stackable/nifi/conf/"@ =~= ")|g\" /stackable/nifi/conf/"@);
    let commands = authentication::ldap_credentials_commands(user, password);
    assert(commands[1] =~= replacement(
        "xxx_ldap_bind_username_xxx"@,
        user,
        "login-identity-providers.xml"@,
    ));
    assert(commands[2] =~= replacement(
        "xxx_ldap_bind_password_xxx"@,
        password,
        "login-identity-providers.xml"@,
    ));
    assert(commands[3] =~= replacement(
        "xxx_ldap_bind_username_xxx"@,
        user,
        "authorizers.xml"@,
    ));
}

/// With bind credentials, NiFi logs in to the LDAP with the user name that the first file holds and
/// the password that the second one holds, and that user is the first administrator.
///
/// The name of the user stands where the file with the login identity providers names the manager,
/// and in the file with the authorizers; the password stands where the first of these files wants
/// the password of the manager. Each is put there from its own file alone.
pub proof fn law_ldap_credentials_are_put_in_their_places(
    provider: LdapAuthenticationProviderView,
    user: Seq<char>,
    password: Seq<char>,
)
    requires
        provider.bind_credentials_mount_paths == Some((user, password)),
    ensures
        ({
            let config = NifiAuthenticationConfigView::Ldap { provider };
            let commands = config.additional_container_args();
            &&& is_replaced_by(
                commands,
                "xxx_ldap_bind_username_xxx"@,
                user,
                "login-identity-providers.xml"@,
            )
            &&& is_replaced_by(
                commands,
                "xxx_ldap_bind_password_xxx"@,
                password,
                "login-identity-providers.xml"@,
            )
            &&& is_replaced_by(commands, "xxx_ldap_bind_username_xxx"@, user, "authorizers.xml"@)
            &&& text::holds(
                config.login_identity_providers(),
                property_line("Manager DN"@, "xxx_ldap_bind_username_xxx"@),
            )
            &&& text::holds(
                config.login_identity_providers(),
                property_line("Manager Password"@, "xxx_ldap_bind_password_xxx"@),
            )
            &&& text::holds(
                config.authorizers(),
                property_line("Initial Admin Identity"@, "xxx_ldap_bind_username_xxx"@),
            )
            &&& config.user_and_password_files() == (user, password)
        }),
{
    let config = NifiAuthenticationConfigView::Ldap { provider };
    let commands = config.additional_container_args();
    let some = authentication::ldap_credentials_commands(user, password);
    let (name, word) = ("xxx_ldap_bind_username_xxx"@, "xxx_ldap_bind_password_xxx"@);
    let (logins, authorizers) = ("login-identity-providers.xml"@, "authorizers.xml"@);
    lemma_ldap_commands(user, password);
    assert(commands[0] == some[0] && commands[1] == some[1] && commands[2] == some[2] && commands[3]
        == some[3]);
    assert(name[14] == 'u' && name.len() == 26) by {
        reveal_strlit("xxx_ldap_bind_username_xxx");
    }
    assert(word[14] == 'p' && word.len() == 26) by {
        reveal_strlit("xxx_ldap_bind_password_xxx");
    }
    assert(logins[20] == 'd' && logins.len() == 28) by {
        reveal_strlit("login-identity-providers.xml");
    }
    assert(authorizers[7] == 'z' && authorizers.len() == 15) by {
        reveal_strlit("authorizers.xml");
    }
    assert forall|i: int| 4 <= i < commands.len() implies (#[trigger] commands[i])[0] != 's' by {
        let ca_path = provider.tls_ca_cert_mount_path.unwrap();
        assert(commands[i] == authentication::ldap_certificate_commands(ca_path)[i - 4]);
        reveal_strlit("echo Adding LDAP tls cert to global truststore");
        reveal_strlit("keytool -importcert -file ");
    }
    assert forall|i: int, other: Seq<char>|
        0 <= i < commands.len() && #[trigger] commands[i] == #[trigger] replacement(
            name,
            other,
            logins,
        ) implies other == user by {
        lemma_replacement(name, other, logins);
        lemma_replacement(word, password, logins);
        lemma_replacement(name, user, authorizers);
        assert(commands[i][10 + 14int] == 'u');
        assert(commands[i][commands[i].len() - 8] == 'd');
        if i == 1 {
            lemma_same_source(name, other, user, logins);
        } else if i == 2 {
            assert(replacement(word, password, logins)[10 + 14int] == 'p');
        } else if i == 3 {
            let own = replacement(name, user, authorizers);
            assert(own[own.len() - 8] == 'z');
        }
    }
    assert forall|i: int, other: Seq<char>|
        0 <= i < commands.len() && #[trigger] commands[i] == #[trigger] replacement(
            word,
            other,
            logins,
        ) implies other == password by {
        lemma_replacement(word, other, logins);
        lemma_replacement(name, user, logins);
        lemma_replacement(name, user, authorizers);
        assert(commands[i][10 + 14int] == 'p');
        if i == 2 {
            lemma_same_source(word, other, password, logins);
        } else if i == 1 {
            assert(replacement(name, user, logins)[10 + 14int] == 'u');
        } else if i == 3 {
            assert(replacement(name, user, authorizers)[10 + 14int] == 'u');
        }
    }
    assert forall|i: int, other: Seq<char>|
        0 <= i < commands.len() && #[trigger] commands[i] == #[trigger] replacement(
            name,
            other,
            authorizers,
        ) implies other == user by {
        lemma_replacement(name, other, authorizers);
        lemma_replacement(name, user, logins);
        lemma_replacement(word, password, logins);
        assert(commands[i][10 + 14int] == 'u');
        assert(commands[i][commands[i].len() - 8] == 'z');
        if i == 3 {
            lemma_same_source(name, other, user, authorizers);
        } else if i == 1 {
            let own = replacement(name, user, logins);
            assert(own[own.len() - 8] == 'd');
        } else if i == 2 {
            assert(replacement(word, password, logins)[10 + 14int] == 'p');
        }
    }
    lemma_ldap_files(provider);
}

/// The places of the bind credentials in the files.
proof fn lemma_ldap_files(provider: LdapAuthenticationProviderView)
    ensures
        ({
            let config = NifiAuthenticationConfigView::Ldap { provider };
            &&& text::holds(
                config.login_identity_providers(),
                property_line("Manager DN"@, "xxx_ldap_bind_username_xxx"@),
            )
            &&& text::holds(
                config.login_identity_providers(),
                property_line("Manager Password"@, "xxx_ldap_bind_password_xxx"@),
            )
            &&& text::holds(
                config.authorizers(),
                property_line("Initial Admin Identity"@, "xxx_ldap_bind_username_xxx"@),
            )
        }),
{
    let config = NifiAuthenticationConfigView::Ldap { provider };
    let manager = authentication::LDAP_PROVIDER_UP_TO_URL@;
    lemma_manager_lines();
    let start = authentication::LOGIN_IDENTITY_PROVIDERS_HEADER@
        + authentication::LDAP_PROVIDER_START@ + provider.strategy();
    let end = provider.protocol() + "://"@ + provider.hostname + ":"@ + text::decimal(
        provider.effective_port() as nat,
    ) + authentication::LDAP_PROVIDER_UP_TO_SEARCH_BASE@ + provider.search_base
        + authentication::LDAP_PROVIDER_UP_TO_SEARCH_FILTER@ + provider.effective_search_filter()
        + authentication::LDAP_PROVIDER_END@ + authentication::LOGIN_IDENTITY_PROVIDERS_FOOTER@;
    assert(config.login_identity_providers() =~= start + manager + end);
    text::lemma_holds_deeper(
        start,
        manager,
        end,
        property_line("Manager DN"@, "xxx_ldap_bind_username_xxx"@),
    );
    text::lemma_holds_deeper(
        start,
        manager,
        end,
        property_line("Manager Password"@, "xxx_ldap_bind_password_xxx"@),
    );
    lemma_admin_line();
    text::lemma_holds_deeper(
        authentication::AUTHORIZERS_HEADER@,
        authentication::LDAP_AUTHORIZER@,
        authentication::AUTHORIZERS_FOOTER@,
        property_line("Initial Admin Identity"@, "xxx_ldap_bind_username_xxx"@),
    );
}

/// Where the manager is named.
proof fn lemma_manager_lines()
    ensures
        text::holds(
            authentication::LDAP_PROVIDER_UP_TO_URL@,
            property_line("Manager DN"@, "xxx_ldap_bind_username_xxx"@),
        ),
        text::holds(
            authentication::LDAP_PROVIDER_UP_TO_URL@,
            property_line("Manager Password"@, "xxx_ldap_bind_password_xxx"@),
        ),
{
    reveal_strlit(
        r#"</property>

    <property name="Manager DN">xxx_ldap_bind_username_xxx</property>
    <property name="Manager Password">xxx_ldap_bind_password_xxx</property>

    <property name="Referral Strategy">THROW</property>
    <property name="Connect Timeout">10 secs</property>
    <property name="Read Timeout">10 secs</property>

    <property name="Url">"#,
    );
    reveal_strlit("<property name=\"");
    reveal_strlit("\">");
    reveal_strlit("</property>");
    reveal_strlit("Manager DN");
    reveal_strlit("Manager Password");
    reveal_strlit("xxx_ldap_bind_username_xxx");
    reveal_strlit("xxx_ldap_bind_password_xxx");
    text::lemma_holds_at(
        authentication::LDAP_PROVIDER_UP_TO_URL@,
        property_line("Manager DN"@, "xxx_ldap_bind_username_xxx"@),
        17,
    );
    text::lemma_holds_at(
        authentication::LDAP_PROVIDER_UP_TO_URL@,
        property_line("Manager Password"@, "xxx_ldap_bind_password_xxx"@),
        87,
    );
}

/// Where the first administrator is named.
proof fn lemma_admin_line()
    ensures
        text::holds(
            authentication::LDAP_AUTHORIZER@,
            property_line("Initial Admin Identity"@, "xxx_ldap_bind_username_xxx"@),
        ),
{
    reveal_strlit(
        r#"<userGroupProvider>
    <identifier>file-user-group-provider</identifier>
    <class>org.apache.nifi.authorization.FileUserGroupProvider</class>
    <property name="Users File">./conf/users.xml</property>

    <!-- As we currently don't have authorization (including admin user) configurable we simply paste in the ldap bind user in here -->
    <!-- In the future the whole authorization may be reworked to OPA -->
    <property name="Initial User Identity admin">xxx_ldap_bind_username_xxx</property>

    <!-- As the secret-operator provides the NiFi nodes with cert with a common name of "generated certificate for pod" we have to put that here -->
    <property name="Initial User Identity other-nifis">CN=generated certificate for pod</property>
</userGroupProvider>

<accessPolicyProvider>
    <identifier>file-access-policy-provider</identifier>
    <class>org.apache.nifi.authorization.FileAccessPolicyProvider</class>
    <property name="User Group Provider">file-user-group-provider</property>
    <property name="Authorizations File">./conf/authorizations.xml</property>

    <!-- As we currently don't have authorization (including admin user) configurable we simply paste in the ldap bind user in here -->
    <!-- In the future the whole authorization may be reworked to OPA -->
    <property name="Initial Admin Identity">xxx_ldap_bind_username_xxx</property>

    <!-- As the secret-operator provides the NiFi nodes with cert with a common name of "generated certificate for pod" we have to put that here -->
    <property name="Node Identity other-nifis">CN=generated certificate for pod</property>
</accessPolicyProvider>

<authorizer>
    <identifier>authorizer</identifier>
    <class>org.apache.nifi.authorization.StandardManagedAuthorizer</class>
    <property name="Access Policy Provider">file-access-policy-provider</property>
</authorizer>
"#,
    );
    reveal_strlit("<property name=\"");
    reveal_strlit("\">");
    reveal_strlit("</property>");
    reveal_strlit("Initial Admin Identity");
    reveal_strlit("xxx_ldap_bind_username_xxx");
    text::lemma_holds_at(
        authentication::LDAP_AUTHORIZER@,
        property_line("Initial Admin Identity"@, "xxx_ldap_bind_username_xxx"@),
        1298,
    );
}

/// The file with the login identity providers says where the LDAP is and how it is searched: its
/// URL has the protocol that fits the use of TLS, the host and the port that is set or usual; its
/// strategy is the one for the credentials that there are; users are searched under the search
/// base, by the filter of the user or by the field that holds the name.
pub proof fn law_ldap_is_found(provider: LdapAuthenticationProviderView)
    ensures
        ({
            let file = NifiAuthenticationConfigView::Ldap { provider }.login_identity_providers();
            let port = if provider.port.is_some() {
                provider.port.unwrap()
            } else {
                provider.default_port
            };
            &&& text::holds(
                file,
                property_line(
                    "Authentication Strategy"@,
                    if provider.bind_credentials_mount_paths.is_none() {
                        "ANONYMOUS"@
                    } else if provider.uses_tls {
                        "LDAPS"@
                    } else {
                        "SIMPLE"@
                    },
                ),
            )
            &&& text::holds(
                file,
                property_line(
                    "Url"@,
                    (if provider.uses_tls {
                        "ldaps://"@
                    } else {
                        "ldap://"@
                    }) + provider.hostname + ":"@ + text::decimal(port as nat),
                ),
            )
            &&& text::holds(file, property_line("User Search Base"@, provider.search_base))
            &&& text::holds(
                file,
                property_line(
                    "User Search Filter"@,
                    if provider.search_filter.len() > 0 {
                        provider.search_filter
                    } else {
                        provider.uid_field + "={0}"@
                    },
                ),
            )
        }),
{
    let file = NifiAuthenticationConfigView::Ldap { provider }.login_identity_providers();
    let head = authentication::LOGIN_IDENTITY_PROVIDERS_HEADER@;
    let foot = authentication::LOGIN_IDENTITY_PROVIDERS_FOOTER@;
    let (start, to_url, to_base, to_filter, end) = (
        authentication::LDAP_PROVIDER_START@,
        authentication::LDAP_PROVIDER_UP_TO_URL@,
        authentication::LDAP_PROVIDER_UP_TO_SEARCH_BASE@,
        authentication::LDAP_PROVIDER_UP_TO_SEARCH_FILTER@,
        authentication::LDAP_PROVIDER_END@,
    );
    let (strategy, base, filter) = (
        provider.strategy(),
        provider.search_base,
        provider.effective_search_filter(),
    );
    let url = provider.protocol() + "://"@ + provider.hostname + ":"@ + text::decimal(
        provider.effective_port() as nat,
    );
    lemma_parts();
    lemma_protocols();
    let plain = (if provider.uses_tls {
        "ldaps://"@
    } else {
        "ldap://"@
    }) + provider.hostname + ":"@ + text::decimal(provider.effective_port() as nat);
    assert(url =~= plain);
    lemma_shape(head, start, strategy, to_url, url, to_base, base, to_filter, filter, end, foot);
    lemma_line(
        head,
        start,
        "Authentication Strategy"@,
        strategy,
        to_url,
        url + to_base + base + to_filter + filter + end + foot,
    );
    lemma_line(
        head + start + strategy,
        to_url,
        "Url"@,
        url,
        to_base,
        base + to_filter + filter + end + foot,
    );
    let front = head + start + strategy + to_url + url;
    lemma_line(front, to_base, "User Search Base"@, base, to_filter, filter + end + foot);
    lemma_line(front + to_base + base, to_filter, "User Search Filter"@, filter, end, foot);
    lemma_ldap_file(provider);
}

/// The file with the login through an LDAP, with its URL in one piece.
proof fn lemma_ldap_file(provider: LdapAuthenticationProviderView)
    ensures
        (NifiAuthenticationConfigView::Ldap { provider }).login_identity_providers()
            == authentication::LOGIN_IDENTITY_PROVIDERS_HEADER@
            + authentication::LDAP_PROVIDER_START@ + provider.strategy()
            + authentication::LDAP_PROVIDER_UP_TO_URL@ + (provider.protocol() + "://"@
            + provider.hostname + ":"@ + text::decimal(provider.effective_port() as nat))
            + authentication::LDAP_PROVIDER_UP_TO_SEARCH_BASE@ + provider.search_base
            + authentication::LDAP_PROVIDER_UP_TO_SEARCH_FILTER@
            + provider.effective_search_filter() + authentication::LDAP_PROVIDER_END@
            + authentication::LOGIN_IDENTITY_PROVIDERS_FOOTER@,
{
    let head = authentication::LOGIN_IDENTITY_PROVIDERS_HEADER@;
    let url = provider.protocol() + "://"@ + provider.hostname + ":"@ + text::decimal(
        provider.effective_port() as nat,
    );
    let x1 = authentication::LDAP_PROVIDER_START@ + provider.strategy();
    let x2 = x1 + authentication::LDAP_PROVIDER_UP_TO_URL@;
    lemma_five(
        x2,
        provider.protocol(),
        "://"@,
        provider.hostname,
        ":"@,
        text::decimal(provider.effective_port() as nat),
    );
    let x3 = x2 + url;
    let x4 = x3 + authentication::LDAP_PROVIDER_UP_TO_SEARCH_BASE@;
    let x5 = x4 + provider.search_base;
    let x6 = x5 + authentication::LDAP_PROVIDER_UP_TO_SEARCH_FILTER@;
    let x7 = x6 + provider.effective_search_filter();
    let x8 = x7 + authentication::LDAP_PROVIDER_END@;
    assert(provider.login_identity_provider() == x8);
    lemma_two(head, authentication::LDAP_PROVIDER_START@, provider.strategy());
    lemma_two(head, x1, authentication::LDAP_PROVIDER_UP_TO_URL@);
    lemma_two(head, x2, url);
    lemma_two(head, x3, authentication::LDAP_PROVIDER_UP_TO_SEARCH_BASE@);
    lemma_two(head, x4, provider.search_base);
    lemma_two(head, x5, authentication::LDAP_PROVIDER_UP_TO_SEARCH_FILTER@);
    lemma_two(head, x6, provider.effective_search_filter());
    lemma_two(head, x7, authentication::LDAP_PROVIDER_END@);
}

/// Texts in a row may be taken together in any way.
proof fn lemma_two(a: Seq<char>, b: Seq<char>, c: Seq<char>)
    ensures
        a + (b + c) == a + b + c,
{
    assert(a + (b + c) =~= a + b + c);
}

/// Texts in a row may be taken together in any way.
proof fn lemma_five(
    a: Seq<char>,
    b: Seq<char>,
    c: Seq<char>,
    d: Seq<char>,
    e: Seq<char>,
    f: Seq<char>,
)
    ensures
        a + (b + c + d + e + f) == a + b + c + d + e + f,
{
    lemma_two(a, b, c);
    lemma_two(a, b + c, d);
    lemma_two(a, b + c + d, e);
    lemma_two(a, b + c + d + e, f);
}

/// Texts in a row may be taken together in any way.
proof fn lemma_shape(
    a: Seq<char>,
    b: Seq<char>,
    c: Seq<char>,
    d: Seq<char>,
    e: Seq<char>,
    f: Seq<char>,
    g: Seq<char>,
    h: Seq<char>,
    i: Seq<char>,
    j: Seq<char>,
    k: Seq<char>,
)
    ensures
        a + b + c + d + (e + f + g + h + i + j + k) == a + b + c + d + e + f + g + h + i + j + k,
        (a + b + c) + d + e + f + (g + h + i + j + k) == a + b + c + d + e + f + g + h + i + j + k,
        (a + b + c + d + e) + f + g + h + (i + j + k) == a + b + c + d + e + f + g + h + i + j + k,
{
    lemma_moved(a + b + c + d + e + f + g + h, i, j, k);
    lemma_moved(a + b + c + d + e + f, g, h, i + j + k);
    lemma_moved(a + b + c + d, e, f, g + h + i + j + k);
    assert(g + h + (i + j + k) =~= g + h + i + j + k);
    assert(e + f + (g + h + i + j + k) =~= e + f + g + h + i + j + k);
}

/// Texts in a row may be taken together in any way.
proof fn lemma_moved(a: Seq<char>, b: Seq<char>, c: Seq<char>, d: Seq<char>)
    ensures
        a + (b + c + d) == a + b + c + d,
{
    assert(a + (b + c + d) =~= a + b + c + d);
}

/// A value between a part that opens its property and a part that closes it has a line.
proof fn lemma_line(
    before: Seq<char>,
    opening: Seq<char>,
    name: Seq<char>,
    value: Seq<char>,
    closing: Seq<char>,
    after: Seq<char>,
)
    requires
        exists|a: Seq<char>, b: Seq<char>| #[trigger]
            is_cut(opening, a, "<property name=\""@ + name + "\">"@, b) && b.len() == 0,
        closing == "</property>"@ + closing.skip(11),
    ensures
        text::holds(before + opening + value + closing + after, property_line(name, value)),
{
    let (a, b) = choose|a: Seq<char>, b: Seq<char>| #[trigger]
        is_cut(opening, a, "<property name=\""@ + name + "\">"@, b) && b.len() == 0;
    assert(before + opening + value + closing + after =~= (before + a) + property_line(name, value)
        + (closing.skip(11) + after));
    text::lemma_holds(before + a, property_line(name, value), closing.skip(11) + after);
}

/// Whether a text is made of three others in a row.
spec fn is_cut(whole: Seq<char>, before: Seq<char>, part: Seq<char>, after: Seq<char>) -> bool {
    whole == before + part + after
}

/// A text that ends with another one is made of what comes before and that one.
proof fn lemma_ends_with(whole: Seq<char>, part: Seq<char>)
    requires
        part.len() <= whole.len(),
        whole.skip(whole.len() - part.len()) == part,
    ensures
        exists|before: Seq<char>, after: Seq<char>| #[trigger]
            is_cut(whole, before, part, after) && after.len() == 0,
{
    let before = whole.take(whole.len() - part.len());
    assert(whole =~= before + part + Seq::<char>::empty());
    assert(is_cut(whole, before, part, Seq::empty()));
}

/// The parts of the login through an LDAP begin and end at the bounds of properties.
proof fn lemma_parts()
    ensures
        exists|a: Seq<char>, b: Seq<char>| #[trigger]
            is_cut(
                authentication::LDAP_PROVIDER_START@,
                a,
                "<property name=\"Authentication Strategy\">"@,
                b,
            ) && b.len() == 0,
        exists|a: Seq<char>, b: Seq<char>| #[trigger]
            is_cut(
                authentication::LDAP_PROVIDER_UP_TO_URL@,
                a,
                "<property name=\"Url\">"@,
                b,
            ) && b.len() == 0,
        exists|a: Seq<char>, b: Seq<char>| #[trigger]
            is_cut(
                authentication::LDAP_PROVIDER_UP_TO_SEARCH_BASE@,
                a,
                "<property name=\"User Search Base\">"@,
                b,
            ) && b.len() == 0,
        exists|a: Seq<char>, b: Seq<char>| #[trigger]
            is_cut(
                authentication::LDAP_PROVIDER_UP_TO_SEARCH_FILTER@,
                a,
                "<property name=\"User Search Filter\">"@,
                b,
            ) && b.len() == 0,
        authentication::LDAP_PROVIDER_UP_TO_URL@ == "</property>"@
            + authentication::LDAP_PROVIDER_UP_TO_URL@.skip(11),
        authentication::LDAP_PROVIDER_UP_TO_SEARCH_BASE@ == "</property>"@
            + authentication::LDAP_PROVIDER_UP_TO_SEARCH_BASE@.skip(11),
        authentication::LDAP_PROVIDER_UP_TO_SEARCH_FILTER@ == "</property>"@
            + authentication::LDAP_PROVIDER_UP_TO_SEARCH_FILTER@.skip(11),
        authentication::LDAP_PROVIDER_END@ == "</property>"@
            + authentication::LDAP_PROVIDER_END@.skip(11),
        "<property name=\""@ + "Authentication Strategy"@ + "\">"@
            == "<property name=\"Authentication Strategy\">"@,
        "<property name=\""@ + "Url"@ + "\">"@ == "<property name=\"Url\">"@,
        "<property name=\""@ + "User Search Base"@ + "\">"@
            == "<property name=\"User Search Base\">"@,
        "<property name=\""@ + "User Search Filter"@ + "\">"@
            == "<property name=\"User Search Filter\">"@,
{
    reveal_strlit("</property>");
    reveal_strlit("<property name=\"");
    reveal_strlit("\">");
    assert("<property name=\""@ + "Authentication Strategy"@ + "\">"@
        =~= "<property name=\"Authentication Strategy\">"@) by {
        reveal_strlit("Authentication Strategy");
        reveal_strlit("<property name=\"Authentication Strategy\">");
    }
    assert("<property name=\""@ + "Url"@ + "\">"@ =~= "<property name=\"Url\">"@) by {
        reveal_strlit("Url");
        reveal_strlit("<property name=\"Url\">");
    }
    assert("<property name=\""@ + "User Search Base"@ + "\">"@
        =~= "<property name=\"User Search Base\">"@) by {
        reveal_strlit("User Search Base");
        reveal_strlit("<property name=\"User Search Base\">");
    }
    assert("<property name=\""@ + "User Search Filter"@ + "\">"@
        =~= "<property name=\"User Search Filter\">"@) by {
        reveal_strlit("User Search Filter");
        reveal_strlit("<property name=\"User Search Filter\">");
    }
    let start = authentication::LDAP_PROVIDER_START@;
    let part = "<property name=\"Authentication Strategy\">"@;
    assert(part.len() <= start.len() && start.skip(start.len() - part.len()) =~= part) by {
        reveal_strlit(
            r#"<provider>
    <identifier>login-identity-provider</identifier>
    <class>org.apache.nifi.ldap.LdapProvider</class>
    <property name="Authentication Strategy">"#,
        );
        reveal_strlit("<property name=\"Authentication Strategy\">");
    }
    lemma_ends_with(start, part);
    let to_url = authentication::LDAP_PROVIDER_UP_TO_URL@;
    let part = "<property name=\"Url\">"@;
    assert(part.len() <= to_url.len() && to_url.skip(to_url.len() - part.len()) =~= part && to_url
        =~= "</property>"@ + to_url.skip(11)) by {
        reveal_strlit(
            r#"</property>

    <property name="Manager DN">xxx_ldap_bind_username_xxx</property>
    <property name="Manager Password">xxx_ldap_bind_password_xxx</property>

    <property name="Referral Strategy">THROW</property>
    <property name="Connect Timeout">10 secs</property>
    <property name="Read Timeout">10 secs</property>

    <property name="Url">"#,
        );
        reveal_strlit("<property name=\"Url\">");
    }
    lemma_ends_with(to_url, part);
    let to_base = authentication::LDAP_PROVIDER_UP_TO_SEARCH_BASE@;
    let part = "<property name=\"User Search Base\">"@;
    assert(part.len() <= to_base.len() && to_base.skip(to_base.len() - part.len()) =~= part
        && to_base =~= "</property>"@ + to_base.skip(11)) by {
        reveal_strlit(
            r#"</property>
    <property name="User Search Base">"#,
        );
        reveal_strlit("<property name=\"User Search Base\">");
    }
    lemma_ends_with(to_base, part);
    let to_filter = authentication::LDAP_PROVIDER_UP_TO_SEARCH_FILTER@;
    let part = "<property name=\"User Search Filter\">"@;
    assert(part.len() <= to_filter.len() && to_filter.skip(to_filter.len() - part.len()) =~= part
        && to_filter =~= "</property>"@ + to_filter.skip(11)) by {
        reveal_strlit(
            r#"</property>
    <property name="User Search Filter">"#,
        );
        reveal_strlit("<property name=\"User Search Filter\">");
    }
    lemma_ends_with(to_filter, part);
    let end = authentication::LDAP_PROVIDER_END@;
    assert(end =~= "</property>"@ + end.skip(11)) by {
        reveal_strlit(
            r#"</property>

    <property name="TLS - Client Auth">NONE</property>
    <property name="TLS - Keystore">/stackable/keystore/keystore.p12</property>
    <property name="TLS - Keystore Password">secret</property>
    <property name="TLS - Keystore Type">PKCS12</property>
    <property name="TLS - Truststore">/stackable/keystore/truststore.p12</property>
    <property name="TLS - Truststore Password">secret</property>
    <property name="TLS - Truststore Type">PKCS12</property>
    <property name="TLS - Protocol">TLSv1.2</property>
    <property name="TLS - Shutdown Gracefully">true</property>

    <property name="Identity Strategy">USE_DN</property>
    <property name="Authentication Expiration">7 days</property>
</provider>
"#,
        );
    }
}

/// The protocols with what follows them in a URL.
proof fn lemma_protocols()
    ensures
        "ldaps"@ + "://"@ == "ldaps://"@,
        "ldap"@ + "://"@ == "ldap://"@,
{
    reveal_strlit("ldaps");
    reveal_strlit("ldap");
    reveal_strlit("://");
    reveal_strlit("ldaps://");
    reveal_strlit("ldap://");
    assert("ldaps"@ + "://"@ =~= "ldaps://"@);
    assert("ldap"@ + "://"@ =~= "ldap://"@);
}

/// Where the LDAP has a certificate of its own, it is added to the trust store that NiFi uses for
/// LDAP, and only then; without bind credentials nothing else is done.
pub proof fn law_ldap_certificate_is_trusted(provider: LdapAuthenticationProviderView)
    ensures
        ({
            let commands = NifiAuthenticationConfigView::Ldap {
                provider,
            }.additional_container_args();
            &&& provider.tls_ca_cert_mount_path matches Some(path) ==> commands.last()
                == "keytool -importcert -file "@ + path
                + " -keystore /stackable/keystore/truststore.p12 -storetype pkcs12 -noprompt -alias ldap_ca_cert -storepass secret"@
            &&& commands.len() == (if provider.bind_credentials_mount_paths.is_some() {
                4int
            } else {
                0
            }) + (if provider.tls_ca_cert_mount_path.is_some() {
                2int
            } else {
                0
            })
        }),
{
    let commands = NifiAuthenticationConfigView::Ldap { provider }.additional_container_args();
    if provider.tls_ca_cert_mount_path.is_some() {
        let path = provider.tls_ca_cert_mount_path.unwrap();
        assert(commands.last() == authentication::ldap_certificate_commands(path)[1]);
    }
}

/// The single user, also beside OpenID Connect, is `admin` with the password from the mounted
/// Secret: its hash takes the place of the placeholder in the file with the login identity
/// providers. The Secret is mounted where the command reads it, under the name that the command
/// reads.
pub proof fn law_single_user_has_the_password_of_its_secret(config: NifiAuthenticationConfigView)
    requires
        !(config is Ldap),
    ensures
        config.additional_container_args().last()
            == "sed -i \"s|xxx_singleuser_password_xxx|$(cat /stackable/users/admin | java -jar /bin/stackable-bcrypt.jar)|g\" /stackable/nifi/conf/login-identity-providers.xml"@,
        text::holds(
            config.login_identity_providers(),
            property_line("Username"@, "admin"@),
        ),
        text::holds(
            config.login_identity_providers(),
            property_line("Password"@, "xxx_singleuser_password_xxx"@),
        ),
        config.user_and_password_files() == (Seq::<char>::empty(), "/stackable/users/admin"@),
        config.volume_mounts() == seq![
            VolumeMountView { name: "admin"@, mount_path: "/stackable/users"@, sub_path: None },
        ],
        config.volumes() == seq![
            VolumeView {
                name: "admin"@,
                source: VolumeSourceView::Secret {
                    secret_name: match config {
                        NifiAuthenticationConfigView::SingleUser { provider } =>
                            provider.user_credentials_secret,
                        NifiAuthenticationConfigView::Oidc { provider } => provider.cluster_name
                            + "-oidc-admin-password"@,
                        NifiAuthenticationConfigView::Ldap { .. } => Seq::empty(),
                    },
                    optional: Some(false),
                    items: seq![KeyToPathView { key: "admin"@, path: "admin"@ }],
                },
            },
        ],
{
    lemma_password_command();
    lemma_user_lines();
    text::lemma_holds_deeper(
        authentication::LOGIN_IDENTITY_PROVIDERS_HEADER@,
        authentication::SINGLE_USER_LOGIN_IDENTITY_PROVIDER@,
        authentication::LOGIN_IDENTITY_PROVIDERS_FOOTER@,
        property_line("Username"@, "admin"@),
    );
    text::lemma_holds_deeper(
        authentication::LOGIN_IDENTITY_PROVIDERS_HEADER@,
        authentication::SINGLE_USER_LOGIN_IDENTITY_PROVIDER@,
        authentication::LOGIN_IDENTITY_PROVIDERS_FOOTER@,
        property_line("Password"@, "xxx_singleuser_password_xxx"@),
    );
}

/// The command for the password of the single user, spelled out.
proof fn lemma_password_command()
    ensures
        authentication::single_user_commands().last()
            == "sed -i \"s|xxx_singleuser_password_xxx|$(cat /stackable/users/admin | java -jar /bin/stackable-bcrypt.jar)|g\" /stackable/nifi/conf/login-identity-providers.xml"@,
        authentication::single_user_password_file() == "/stackable/users/admin"@,
{
    reveal_strlit("sed -i \"s|");
    reveal_strlit("xxx_singleuser_password_xxx");
    reveal_strlit("|$(cat ");
    reveal_strlit("/stackable/users");
    reveal_strlit("/");
    reveal_strlit("admin");
    reveal_strlit("/stackable/users/admin");
    reveal_strlit(" | java -jar /bin/stackable-bcrypt.jar)|g\" ");
    reveal_strlit("/stackable/nifi/conf/");
    reveal_strlit("login-identity-providers.xml");
    reveal_strlit(
        "sed -i \"s|xxx_singleuser_password_xxx|$(cat /stackable/users/admin | java -jar /bin/stackable-bcrypt.jar)|g\" /stackable/nifi/conf/login-identity-providers.xml",
    );
    assert(authentication::single_user_password_file() =~= "/stackable/users/admin"@);
    assert(authentication::single_user_commands().last()
        =~= "sed -i \"s|xxx_singleuser_password_xxx|$(cat /stackable/users/admin | java -jar /bin/stackable-bcrypt.jar)|g\" /stackable/nifi/conf/login-identity-providers.xml"@);
}

/// Where the single user is named.
proof fn lemma_user_lines()
    ensures
        text::holds(
            authentication::SINGLE_USER_LOGIN_IDENTITY_PROVIDER@,
            property_line("Username"@, "admin"@),
        ),
        text::holds(
            authentication::SINGLE_USER_LOGIN_IDENTITY_PROVIDER@,
            property_line("Password"@, "xxx_singleuser_password_xxx"@),
        ),
{
    reveal_strlit(
        r#"<provider>
    <identifier>login-identity-provider</identifier>
    <class>org.apache.nifi.authentication.single.user.SingleUserLoginIdentityProvider</class>
    <property name="Username">admin</property>
    <property name="Password">xxx_singleuser_password_xxx</property>
</provider>
"#,
    );
    reveal_strlit("<property name=\"");
    reveal_strlit("\">");
    reveal_strlit("</property>");
    reveal_strlit("Username");
    reveal_strlit("admin");
    reveal_strlit("Password");
    reveal_strlit("xxx_singleuser_password_xxx");
    text::lemma_holds_at(
        authentication::SINGLE_USER_LOGIN_IDENTITY_PROVIDER@,
        property_line("Username"@, "admin"@),
        162,
    );
    text::lemma_holds_at(
        authentication::SINGLE_USER_LOGIN_IDENTITY_PROVIDER@,
        property_line("Password"@, "xxx_singleuser_password_xxx"@),
        209,
    );
}

/// The first class decides how users are authenticated: by a fixed user, by an LDAP or by OpenID
/// Connect, with the provider of the class as it is. A class of another kind is refused under the
/// name of its provider, and so are no classes at all.
pub proof fn law_first_class_decides(classes: Seq<AuthenticationClassView>)
    ensures
        classes.len() == 0 ==> authentication::authentication_of(classes) == Err::<
            NifiAuthenticationConfigView,
            ErrorView,
        >(ErrorView::SingleAuthenticationMechanismSupported),
        classes.len() > 0 ==> match authentication::authentication_of(classes) {
            Ok(NifiAuthenticationConfigView::SingleUser { provider }) =>
                classes[0].provider matches AuthenticationClassProviderView::Static {
                provider: wanted,
            } && wanted == provider,
            Ok(NifiAuthenticationConfigView::Ldap { provider }) =>
                classes[0].provider matches AuthenticationClassProviderView::Ldap {
                provider: wanted,
                ..
            } && wanted == provider,
            Ok(NifiAuthenticationConfigView::Oidc { provider }) =>
                classes[0].provider matches AuthenticationClassProviderView::Oidc {
                provider: wanted,
                ..
            } && wanted == provider,
            Err(error) => classes[0].provider matches AuthenticationClassProviderView::Other {
                name,
            } && error == (ErrorView::AuthenticationClassProviderNotSupported {
                authentication_class_provider: name,
            }),
        },
{
}

/// Only OpenID Connect brings credentials in variables: those of its client. An LDAP brings its own
/// volumes and mounts, and no others.
pub proof fn law_credentials_come_from_the_provider(config: NifiAuthenticationConfigView)
    ensures
        match config {
            NifiAuthenticationConfigView::Oidc { provider } => config.env_vars()
                == provider.client_credentials_env_vars,
            NifiAuthenticationConfigView::Ldap { provider } => config.env_vars().len() == 0
                && config.volumes() == provider.volumes && config.volume_mounts()
                == provider.volume_mounts,
            NifiAuthenticationConfigView::SingleUser { .. } => config.env_vars().len() == 0,
        },
{
}

/// A resolved authorization brings its own file, variables, volumes and mounts. Without one, the
/// single user may do everything and nothing else is needed. Only an OPA is trusted by TLS, and
/// only policies in files have a volume of their own.
pub proof fn law_authorization_brings_its_settings(
    authorization: ResolvedNifiAuthorizationConfigView,
)
    ensures
        match authorization {
            ResolvedNifiAuthorizationConfigView::Opa { settings, tls, .. } => {
                &&& authorization.authorizers() == settings.authorizers_xml
                &&& authorization.env_vars() == settings.env_vars
                &&& authorization.volumes() == settings.volumes
                &&& authorization.volume_mounts() == settings.volume_mounts
                &&& authorization.opa_tls() == tls
                &&& !authorization.file_based()
            },
            ResolvedNifiAuthorizationConfigView::Standard { settings, .. } => {
                &&& authorization.authorizers() == settings.authorizers_xml
                &&& authorization.env_vars() == settings.env_vars
                &&& authorization.volumes() == settings.volumes
                &&& authorization.volume_mounts() == settings.volume_mounts
                &&& !authorization.opa_tls()
                &&& authorization.file_based()
            },
            ResolvedNifiAuthorizationConfigView::SingleUser => {
                &&& text::holds(
                    authorization.authorizers(),
                    "<class>org.apache.nifi.authorization.single.user.SingleUserAuthorizer</class>"@,
                )
                &&& authorization.env_vars().len() == 0
                &&& authorization.volumes().len() == 0
                &&& authorization.volume_mounts().len() == 0
                &&& !authorization.opa_tls()
                &&& !authorization.file_based()
            },
        },
{
    if authorization is SingleUser {
        let class = "<class>org.apache.nifi.authorization.single.user.SingleUserAuthorizer</class>"@;
        assert(text::holds(authentication::SINGLE_USER_AUTHORIZER@, class)) by {
            reveal_strlit(
                r#"<authorizer>
    <identifier>authorizer</identifier>
    <class>org.apache.nifi.authorization.single.user.SingleUserAuthorizer</class>
</authorizer>
"#,
            );
            reveal_strlit(
                "<class>org.apache.nifi.authorization.single.user.SingleUserAuthorizer</class>",
            );
            text::lemma_holds_at(authentication::SINGLE_USER_AUTHORIZER@, class, 57);
        }
        text::lemma_holds_deeper(
            authentication::AUTHORIZERS_HEADER@,
            authentication::SINGLE_USER_AUTHORIZER@,
            authentication::AUTHORIZERS_FOOTER@,
            class,
        );
    }
}

} // verus!
