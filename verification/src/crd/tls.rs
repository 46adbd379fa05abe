//! The TLS settings of a cluster.

use crate::contents::Copied;
use vstd::prelude::*;

verus! {

/// The SecretClass that issues the certificates of the servers, unless another one is named.
pub const DEFAULT_SERVER_SECRET_CLASS: &'static str = "tls";

/// The TLS settings of the servers.
#[derive(Debug, PartialEq, Eq)]
pub struct NifiTls {
    /// The SecretClass of the certificate with which the servers authenticate themselves to clients.
    pub server_secret_class: String,
}

/// The contents of a [`NifiTls`].
#[verifier::ext_equal]
pub struct NifiTlsView {
    pub server_secret_class: Seq<char>,
}

impl DeepView for NifiTls {
    type V = NifiTlsView;

    open spec fn deep_view(&self) -> NifiTlsView {
        NifiTlsView {
            server_secret_class: self.server_secret_class.deep_view(),
        }
    }
}

impl Copied for NifiTls {
    fn copied(&self) -> (copy: NifiTls) {
        NifiTls {
            server_secret_class: self.server_secret_class.copied(),
        }
    }
}

impl NifiTls {
    /// The SecretClass that is used where none is named.
    pub fn default_server_secret_class() -> (secret_class: String)
        ensures
            secret_class@ == DEFAULT_SERVER_SECRET_CLASS@,
    {
        DEFAULT_SERVER_SECRET_CLASS.to_owned()
    }
}

impl Default for NifiTls {
    fn default() -> (tls: NifiTls)
        ensures
            tls.server_secret_class@ == DEFAULT_SERVER_SECRET_CLASS@,
    {
        NifiTls { server_secret_class: NifiTls::default_server_secret_class() }
    }
}

} // verus!
