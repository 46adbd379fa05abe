//! Builder for `authorizers.xml`.

use crate::controller::ValidatedCluster;
use vstd::prelude::*;

verus! {

/// Builds the file: the authorizers that the authorization of the cluster asks for.
pub fn build(cluster: &ValidatedCluster) -> (xml: String)
    ensures
        xml@ == cluster.deep_view().cluster_config.authorization.authorizers(),
{
    cluster.cluster_config.authorization.get_authorizers_config()
}

} // verus!
