//! Builder for `login-identity-providers.xml`.

use crate::controller::ValidatedCluster;
use crate::security::authentication::Error;
use vstd::prelude::*;

verus! {

/// Builds the file: the login that the authentication of the cluster asks for.
pub fn build(cluster: &ValidatedCluster) -> (xml: Result<String, Error>)
    ensures
        xml.is_ok(),
        xml.unwrap()@ == cluster.deep_view().cluster_config.authentication.login_identity_providers(),
{
    cluster.cluster_config.authentication.get_authentication_config()
}

} // verus!
