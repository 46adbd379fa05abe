//! The files of the ConfigMap of a role group.

use crate::contents::{Copied, SameContents};
use crate::crd::storage::NifiRepository;
use crate::ordered_map;
use crate::ordered_map::StringMap;
use crate::text;
use crate::text::concat3;
use vstd::prelude::*;

pub mod authorizers;
pub mod bootstrap_conf;
pub mod consistency;
pub mod login_identity_providers;
pub mod nifi_properties;
pub mod nifi_sections;
pub mod nifi_values;
pub mod product_logging;
pub mod security_properties;
pub mod state_management_xml;

verus! {

/// Why a file cannot be built.
#[derive(Debug, PartialEq, Eq)]
pub enum Error {
    /// The memory limit is missing.
    MissingMemoryResourceConfig,
    /// The memory limit cannot be read, or the JVM arguments cannot be merged.
    InvalidJVMConfig,
    /// The quota of a repository cannot be calculated.
    CalculateStorageQuota { repo: NifiRepository },
    /// The OpenID Connect settings cannot be derived.
    GenerateOidcConfig,
    /// NiFi 1.x requires ZooKeeper.
    Nifi1RequiresZookeeper,
}

impl DeepView for Error {
    type V = Error;

    open spec fn deep_view(&self) -> Error {
        *self
    }
}

/// A reference to an environment variable, which NiFi resolves when it starts.
pub fn env_reference(name: &str) -> (reference: String)
    ensures
        reference@ == "${env:"@ + name@ + "}"@,
{
    concat3("${env:", name, "}")
}

/// A reference to the contents of a file, which NiFi resolves when it starts.
pub fn file_reference(path: &str) -> (reference: String)
    ensures
        reference@ == "${file:UTF-8:"@ + path@ + "}"@,
{
    concat3("${file:UTF-8:", path, "}")
}

/// One line for each entry, in their order.
pub open spec fn property_lines(entries: Seq<(Seq<char>, Seq<char>)>) -> Seq<char>
    decreases entries.len(),
{
    if entries.len() == 0 {
        Seq::empty()
    } else {
        property_lines(entries.drop_last()) + entries.last().0 + "="@ + entries.last().1 + "\n"@
    }
}

/// The text of properties: a line for each key, in the order of the keys.
pub open spec fn properties_text(properties: Map<Seq<char>, Seq<char>>) -> Seq<char> {
    property_lines(ordered_map::ordered_entries(properties))
}

/// Writes properties, a line for each key, in the order of the keys. Nothing is escaped.
pub fn format_properties(properties: &StringMap) -> (text: String)
    ensures
        text@ == properties_text(properties@),
{
    let ghost entries = ordered_map::ordered_entries(properties@);
    let mut result = String::new();
    let count: usize = properties.len();
    let mut i: usize = 0;
    proof {
        assert(entries.take(0) =~= Seq::empty());
    }
    while i < count
        invariant
            i <= count,
            count == entries.len(),
            entries == ordered_map::ordered_entries(properties@),
            result@ == property_lines(entries.take(i as int)),
        decreases count - i,
    {
        let (key, value) = properties.entry(i);
        result = result.concat(key.as_str()).concat("=").concat(value.as_str()).concat("\n");
        proof {
            let next = entries.take(i + 1);
            assert(next.drop_last() =~= entries.take(i as int));
            assert(next.last() == entries[i as int]);
        }
        i = i + 1;
    }
    proof {
        assert(entries.take(i as int) =~= entries);
    }
    result
}

/// The names of the files of the ConfigMap of a role group.
#[derive(Clone, Copy, Debug, PartialEq, Eq, Structural)]
pub enum ConfigFileName {
    BootstrapConf,
    NifiProperties,
    StateManagementXml,
    SecurityProperties,
    LoginIdentityProviders,
    Authorizers,
    Logback,
}

impl DeepView for ConfigFileName {
    type V = ConfigFileName;

    open spec fn deep_view(&self) -> ConfigFileName {
        *self
    }
}

impl Copied for ConfigFileName {
    fn copied(&self) -> (copy: ConfigFileName) {
        *self
    }
}

impl SameContents for ConfigFileName {
    fn same(&self, other: &ConfigFileName) -> (same: bool) {
        *self == *other
    }
}

impl ConfigFileName {
    /// The text that stands for the value.
    pub open spec fn text(self) -> Seq<char> {
        match self {
            ConfigFileName::BootstrapConf => "bootstrap.conf"@,
            ConfigFileName::NifiProperties => "nifi.properties"@,
            ConfigFileName::StateManagementXml => "state-management.xml"@,
            ConfigFileName::SecurityProperties => "security.properties"@,
            ConfigFileName::LoginIdentityProviders => "login-identity-providers.xml"@,
            ConfigFileName::Authorizers => "authorizers.xml"@,
            ConfigFileName::Logback => "logback.xml"@,
        }
    }

    /// The text that stands for the value.
    pub fn as_str(&self) -> (text: &'static str)
        ensures
            text@ == self.text(),
    {
        match self {
            ConfigFileName::BootstrapConf => "bootstrap.conf",
            ConfigFileName::NifiProperties => "nifi.properties",
            ConfigFileName::StateManagementXml => "state-management.xml",
            ConfigFileName::SecurityProperties => "security.properties",
            ConfigFileName::LoginIdentityProviders => "login-identity-providers.xml",
            ConfigFileName::Authorizers => "authorizers.xml",
            ConfigFileName::Logback => "logback.xml",
        }
    }
}

/// The line of a property.
pub open spec fn property_line(key: Seq<char>, value: Seq<char>) -> Seq<char> {
    key + "="@ + value + "\n"@
}

/// The lines of some entries hold the line of each.
proof fn lemma_lines_hold_each(entries: Seq<(Seq<char>, Seq<char>)>, at: int)
    requires
        0 <= at < entries.len(),
    ensures
        text::holds(property_lines(entries), property_line(entries[at].0, entries[at].1)),
    decreases entries.len(),
{
    let line = property_line(entries[at].0, entries[at].1);
    let front = property_lines(entries.drop_last());
    let rest = property_line(entries.last().0, entries.last().1);
    assert(property_lines(entries) =~= front + rest);
    if at == entries.len() - 1 {
        assert(front + rest =~= front + line + Seq::empty());
        text::lemma_holds(front, line, Seq::empty());
    } else {
        lemma_lines_hold_each(entries.drop_last(), at);
        let (before, after) = choose|before: Seq<char>, after: Seq<char>|
            front == #[trigger] (before + line + after);
        assert(front + rest =~= before + line + (after + rest));
        text::lemma_holds(before, line, after + rest);
    }
}

/// Every property has its line in the text.
pub proof fn law_every_property_has_a_line(properties: Map<Seq<char>, Seq<char>>, key: Seq<char>)
    requires
        properties.dom().finite(),
        properties.dom().contains(key),
    ensures
        text::holds(properties_text(properties), property_line(key, properties[key])),
{
    let entries = ordered_map::ordered_entries(properties);
    ordered_map::lemma_entries_in_order(properties);
    ordered_map::lemma_as_map_keys(entries, key);
    let at = choose|i: int| 0 <= i < entries.len() && (#[trigger] entries[i]).0 == key;
    ordered_map::lemma_as_map_value(entries, at);
    lemma_lines_hold_each(entries, at);
}

} // verus!
