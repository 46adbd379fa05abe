//! The encryption of sensitive properties.

use crate::contents::{Copied, SameContents};
use vstd::prelude::*;

verus! {

/// The algorithm with which NiFi encrypts sensitive properties.
#[derive(Clone, Copy, Debug, PartialEq, Eq, Structural)]
pub enum NifiSensitiveKeyAlgorithm {
    NifiPbkdf2AesGcm256,
    NifiArgon2AesGcm256,
}

impl DeepView for NifiSensitiveKeyAlgorithm {
    type V = NifiSensitiveKeyAlgorithm;

    open spec fn deep_view(&self) -> NifiSensitiveKeyAlgorithm {
        *self
    }
}

impl Copied for NifiSensitiveKeyAlgorithm {
    fn copied(&self) -> (copy: NifiSensitiveKeyAlgorithm) {
        *self
    }
}

impl SameContents for NifiSensitiveKeyAlgorithm {
    fn same(&self, other: &NifiSensitiveKeyAlgorithm) -> (same: bool) {
        *self == *other
    }
}

impl NifiSensitiveKeyAlgorithm {
    /// The text that stands for the value.
    pub open spec fn text(self) -> Seq<char> {
        match self {
            NifiSensitiveKeyAlgorithm::NifiPbkdf2AesGcm256 => "NIFI_PBKDF2_AES_GCM_256"@,
            NifiSensitiveKeyAlgorithm::NifiArgon2AesGcm256 => "NIFI_ARGON2_AES_GCM_256"@,
        }
    }

    /// The text that stands for the value.
    pub fn as_str(&self) -> (text: &'static str)
        ensures
            text@ == self.text(),
    {
        match self {
            NifiSensitiveKeyAlgorithm::NifiPbkdf2AesGcm256 => "NIFI_PBKDF2_AES_GCM_256",
            NifiSensitiveKeyAlgorithm::NifiArgon2AesGcm256 => "NIFI_ARGON2_AES_GCM_256",
        }
    }
}

impl Default for NifiSensitiveKeyAlgorithm {
    fn default() -> (value: NifiSensitiveKeyAlgorithm)
        ensures
            value == NifiSensitiveKeyAlgorithm::NifiArgon2AesGcm256,
    {
        NifiSensitiveKeyAlgorithm::NifiArgon2AesGcm256
    }
}

/// How NiFi encrypts the sensitive properties of its processors.
#[derive(Debug, PartialEq, Eq)]
pub struct NifiSensitivePropertiesConfig {
    /// The Secret that holds the key.
    pub key_secret: String,
    /// Whether to generate the Secret if it is missing.
    pub auto_generate: bool,
    /// The algorithm, where it is not the default one.
    pub algorithm: Option<NifiSensitiveKeyAlgorithm>,
}

/// The contents of a [`NifiSensitivePropertiesConfig`].
#[verifier::ext_equal]
pub struct NifiSensitivePropertiesConfigView {
    pub key_secret: Seq<char>,
    pub auto_generate: bool,
    pub algorithm: Option<NifiSensitiveKeyAlgorithm>,
}

impl DeepView for NifiSensitivePropertiesConfig {
    type V = NifiSensitivePropertiesConfigView;

    open spec fn deep_view(&self) -> NifiSensitivePropertiesConfigView {
        NifiSensitivePropertiesConfigView {
            key_secret: self.key_secret.deep_view(),
            auto_generate: self.auto_generate.deep_view(),
            algorithm: self.algorithm.deep_view(),
        }
    }
}

impl Copied for NifiSensitivePropertiesConfig {
    fn copied(&self) -> (copy: NifiSensitivePropertiesConfig) {
        NifiSensitivePropertiesConfig {
            key_secret: self.key_secret.copied(),
            auto_generate: self.auto_generate,
            algorithm: self.algorithm.copied(),
        }
    }
}

} // verus!
