//! Names and commands of pods.

use crate::list::list_of;
use crate::pod_cluster::NifiSpec;
use crate::text;
use crate::text::concat3;
use vstd::prelude::*;
use vstd::utf8;

verus! {

/// The result of [`str::to_lowercase`].
pub uninterp spec fn lowercase(text: Seq<char>) -> Seq<char>;

/// Turns a text into lower case with [`str::to_lowercase`]. Of an ASCII text the letters become
/// lower case, and nothing else changes; of others it is claimed only that the same text always
/// gives the same result.
#[verifier::external_body]
fn to_lowercase(text: &str) -> (lower: String)
    ensures
        lower@ == lowercase(text@),
        utf8::is_ascii_chars(text@) ==> lower@ == text@.map_values(
            |c: char| text::ascii_lowercase(c),
        ),
{
    text.to_lowercase()
}

/// The name of a pod before it is turned into lower case.
pub open spec fn joined_pod_name(
    app_name: Seq<char>,
    context_name: Seq<char>,
    role: Seq<char>,
    role_group: Seq<char>,
    node_name: Seq<char>,
) -> Seq<char> {
    app_name + "-"@ + context_name + "-"@ + role_group + "-"@ + role + "-"@ + node_name
}

/// The name of a pod.
pub open spec fn pod_name(
    app_name: Seq<char>,
    context_name: Seq<char>,
    role: Seq<char>,
    role_group: Seq<char>,
    node_name: Seq<char>,
) -> Seq<char> {
    lowercase(joined_pod_name(app_name, context_name, role, role_group, node_name))
}

/// The name of a pod, made of the names of the application, the cluster, the role group, the role
/// and the node, without their case.
pub fn build_pod_name(
    app_name: &str,
    context_name: &str,
    role: &str,
    role_group: &str,
    node_name: &str,
) -> (name: String)
    ensures
        name@ == pod_name(app_name@, context_name@, role@, role_group@, node_name@),
        utf8::is_ascii_chars(
            joined_pod_name(app_name@, context_name@, role@, role_group@, node_name@),
        ) ==> name@ == joined_pod_name(
            app_name@,
            context_name@,
            role@,
            role_group@,
            node_name@,
        ).map_values(|c: char| text::ascii_lowercase(c)),
{
    let joined = app_name.to_owned().concat("-").concat(context_name).concat("-").concat(
        role_group,
    ).concat("-").concat(role).concat("-").concat(node_name);
    to_lowercase(joined.as_str())
}

/// The command that runs NiFi.
pub fn build_nifi_start_command(nifi_spec: &NifiSpec) -> (command: Vec<String>)
    ensures
        command.deep_view() == seq![
            "nifi-"@ + nifi_spec.version.text() + "/bin/nifi.sh run"@,
        ],
{
    list_of(concat3("nifi-", nifi_spec.version.as_str(), "/bin/nifi.sh run"))
}

} // verus!
