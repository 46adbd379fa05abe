//! The proxies that may forward requests to NiFi (`nifi.web.proxy.host`).

use crate::contents::Copied;
use crate::controller::build::properties::env_reference;
use crate::controller::ValidatedCluster;
use crate::crd::{HostHeaderCheckConfig, HostHeaderCheckConfigView};
use crate::list::{add_item, add_items, empty_list};
use crate::ordered_set;
use crate::ordered_set::sort_and_dedup;
use crate::text;
use crate::text::{concat3, join};
use vstd::prelude::*;

verus! {

/// The environment variable with the address under which users reach the cluster.
pub const LISTENER_DEFAULT_ADDRESS_ENV: &'static str = "LISTENER_DEFAULT_ADDRESS";

/// The environment variable with the port under which users reach the cluster.
pub const LISTENER_DEFAULT_PORT_HTTPS_ENV: &'static str = "LISTENER_DEFAULT_PORT_HTTPS";

/// The address and port under which users reach the cluster, known when a pod starts.
pub open spec fn listener_placeholder() -> Seq<char> {
    ("${env:"@ + LISTENER_DEFAULT_ADDRESS_ENV@ + "}"@) + ":"@ + ("${env:"@
        + LISTENER_DEFAULT_PORT_HTTPS_ENV@ + "}"@)
}

/// The hosts that are allowed: the listener, those of the user and further ones.
pub open spec fn allowed_hosts(additional: Seq<Seq<char>>, further: Seq<Seq<char>>) -> Set<
    Seq<char>,
> {
    (seq![listener_placeholder()] + additional + further).to_set()
}

/// The allow list: all hosts, or the allowed ones in ascending order, separated by commas.
pub open spec fn allow_list(check: HostHeaderCheckConfigView, further: Seq<Seq<char>>) -> Seq<
    char,
> {
    if check.allow_all {
        "*"@
    } else {
        text::joined(
            ordered_set::in_order(allowed_hosts(check.additional_allowed_hosts, further)),
            ","@,
        )
    }
}

/// The allow list for the hosts of the user and further ones.
pub fn allow_list_of_hosts(check: &HostHeaderCheckConfig, further: Vec<String>) -> (hosts: String)
    ensures
        hosts@ == allow_list(check.deep_view(), further.deep_view()),
{
    if check.allow_all {
        return "*".to_owned();
    }
    let placeholder = concat3(
        env_reference(LISTENER_DEFAULT_ADDRESS_ENV).as_str(),
        ":",
        env_reference(LISTENER_DEFAULT_PORT_HTTPS_ENV).as_str(),
    );
    let ghost additional = check.additional_allowed_hosts.deep_view();
    let ghost more = further.deep_view();
    let mut hosts: Vec<String> = empty_list();
    add_item(&mut hosts, placeholder);
    add_items(&mut hosts, check.additional_allowed_hosts.copied());
    add_items(&mut hosts, further);
    proof {
        assert(hosts.deep_view() =~= seq![listener_placeholder()] + additional + more);
    }
    join(&sort_and_dedup(&hosts), ",")
}

/// The proxies that may forward requests to NiFi, separated by commas, or `*` if all of them may.
///
/// Users reach NiFi by addresses that cannot be known beforehand, so all of them are allowed.
pub fn compute_proxy_hosts(cluster: &ValidatedCluster) -> (hosts: String)
    ensures
        hosts@ == allow_list(cluster.deep_view().cluster_config.host_header_check, Seq::empty()),
{
    allow_list_of_hosts(&cluster.cluster_config.host_header_check, empty_list())
}

/// Unless all hosts are allowed, the address of the listener is, and so is every host of the user;
/// no host is listed twice.
pub proof fn law_allowed_hosts_are_listed(
    additional: Seq<Seq<char>>,
    further: Seq<Seq<char>>,
    host: Seq<char>,
)
    ensures
        ordered_set::in_order(allowed_hosts(additional, further)).contains(
            listener_placeholder(),
        ),
        additional.contains(host) ==> ordered_set::in_order(
            allowed_hosts(additional, further),
        ).contains(host),
        ordered_set::strictly_ascending(
            ordered_set::in_order(allowed_hosts(additional, further)),
        ),
{
    let all = seq![listener_placeholder()] + additional + further;
    let list = ordered_set::in_order(allowed_hosts(additional, further));
    ordered_set::lemma_listed(all);
    assert(all[0] == listener_placeholder());
    assert(all.to_set().contains(listener_placeholder()));
    assert(list.to_set().contains(listener_placeholder()));
    if additional.contains(host) {
        let i = choose|i: int| 0 <= i < additional.len() && additional[i] == host;
        assert(all[i + 1] == host);
        assert(all.to_set().contains(host));
        assert(list.to_set().contains(host));
    }
}

} // verus!
