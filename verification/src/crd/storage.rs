//! The repositories in which a NiFi node keeps its data.

use crate::contents::{Copied, SameContents};
use crate::kubernetes::{VolumeMount, VolumeMountView};
use crate::text::concat2;
use vstd::prelude::*;

verus! {

/// The directory under which the repositories are mounted.
pub const NIFI_PVC_STORAGE_DIRECTORY: &'static str = "/stackable/data";

/// A repository of a NiFi node.
#[derive(Clone, Copy, Debug, PartialEq, Eq, Structural)]
pub enum NifiRepository {
    Filebased,
    Flowfile,
    Database,
    Content,
    Provenance,
    State,
}

impl DeepView for NifiRepository {
    type V = NifiRepository;

    open spec fn deep_view(&self) -> NifiRepository {
        *self
    }
}

impl Copied for NifiRepository {
    fn copied(&self) -> (copy: NifiRepository) {
        *self
    }
}

impl SameContents for NifiRepository {
    fn same(&self, other: &NifiRepository) -> (same: bool) {
        *self == *other
    }
}

impl NifiRepository {
    /// The text that stands for the value.
    pub open spec fn text(self) -> Seq<char> {
        match self {
            NifiRepository::Filebased => "filebased"@,
            NifiRepository::Flowfile => "flowfile"@,
            NifiRepository::Database => "database"@,
            NifiRepository::Content => "content"@,
            NifiRepository::Provenance => "provenance"@,
            NifiRepository::State => "state"@,
        }
    }

    /// The text that stands for the value.
    pub fn as_str(&self) -> (text: &'static str)
        ensures
            text@ == self.text(),
    {
        match self {
            NifiRepository::Filebased => "filebased",
            NifiRepository::Flowfile => "flowfile",
            NifiRepository::Database => "database",
            NifiRepository::Content => "content",
            NifiRepository::Provenance => "provenance",
            NifiRepository::State => "state",
        }
    }

    /// The name of the volume of a repository.
    pub open spec fn repository_name(self) -> Seq<char> {
        self.text() + "-repository"@
    }

    /// The directory of a repository.
    pub open spec fn directory(self) -> Seq<char> {
        NIFI_PVC_STORAGE_DIRECTORY@ + "/"@ + self.text()
    }

    /// The mount of a repository.
    pub open spec fn mount(self) -> VolumeMountView {
        VolumeMountView {
            name: self.repository_name(),
            mount_path: self.directory(),
            sub_path: None,
        }
    }

    /// The name of the volume that holds the repository.
    pub fn repository(&self) -> (name: String)
        ensures
            name@ == self.repository_name(),
    {
        concat2(self.as_str(), "-repository")
    }

    /// The directory in which the repository is mounted.
    pub fn mount_path(&self) -> (path: String)
        ensures
            path@ == self.directory(),
    {
        NIFI_PVC_STORAGE_DIRECTORY.to_owned().concat("/").concat(self.as_str())
    }

    /// The mount of the repository's volume into a container.
    pub fn volume_mount(&self) -> (mount: VolumeMount)
        ensures
            mount.deep_view() == self.mount(),
    {
        VolumeMount { name: self.repository(), mount_path: self.mount_path(), sub_path: None }
    }
}

} // verus!
