//! References to the pods of a cluster.

use crate::contents::Copied;
use crate::ordered_map::OrderedMap;
use vstd::prelude::*;

verus! {

/// Reference to a single pod that is a component of the product cluster, for service discovery.
#[derive(Debug)]
pub struct PodRef {
    pub namespace: String,
    pub role_group_service_name: String,
    pub pod_name: String,
    /// The name under which the pod is reached, where it is not its own.
    pub fqdn_override: Option<String>,
    pub ports: OrderedMap<u16>,
}

impl PodRef {
    /// The fully qualified domain name: the override, or else the name that the role group's
    /// Service gives the pod.
    pub open spec fn domain_name(self, cluster_domain: Seq<char>) -> Seq<char> {
        match self.fqdn_override {
            Some(name) => name@,
            None => self.pod_name@ + "."@ + self.role_group_service_name@ + "."@ + self.namespace@
                + ".svc."@ + cluster_domain,
        }
    }

    /// The fully qualified domain name of the pod.
    pub fn fqdn(&self, cluster_domain: &str) -> (fqdn: String)
        ensures
            fqdn@ == self.domain_name(cluster_domain@),
    {
        match &self.fqdn_override {
            Some(name) => name.copied(),
            None => self.pod_name.clone().concat(".").concat(
                self.role_group_service_name.as_str(),
            ).concat(".").concat(self.namespace.as_str()).concat(".svc.").concat(cluster_domain),
        }
    }
}

/// A pod is reached under the name that the user gives it, or else under its own name below the
/// Service of its role group, in its namespace and in the domain of the Kubernetes cluster.
pub proof fn law_pods_are_reached_below_their_service(pod: PodRef, cluster_domain: Seq<char>)
    ensures
        pod.fqdn_override.is_some() ==> pod.domain_name(cluster_domain)
            == pod.fqdn_override.unwrap()@,
        pod.fqdn_override.is_none() ==> pod.domain_name(cluster_domain) == pod.pod_name@ + ("."@
            + pod.role_group_service_name@ + ("."@ + pod.namespace@ + (".svc."@
            + cluster_domain))),
{
    if pod.fqdn_override.is_none() {
        assert(pod.domain_name(cluster_domain) =~= pod.pod_name@ + ("."@
            + pod.role_group_service_name@ + ("."@ + pod.namespace@ + (".svc."@
            + cluster_domain))));
    }
}

} // verus!
