//! Who may use a cluster, and how connections are protected.

use vstd::prelude::*;

pub mod authentication;
pub mod authorization;
pub mod login;

verus! {

/// The volume with the certificate of a pod.
pub const KEYSTORE_VOLUME_NAME: &'static str = "keystore";

/// Where that volume is mounted.
pub const KEYSTORE_NIFI_CONTAINER_MOUNT: &'static str = "/stackable/keystore";

/// The volume with the key and trust store that NiFi uses.
pub const TRUSTSTORE_VOLUME_NAME: &'static str = "truststore";

} // verus!
