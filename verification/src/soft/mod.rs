//! Software tools: the installer's input contract, the tool variants, and
//! their shared error type.

use vstd::prelude::*;
use crate::error::IoError;
use crate::fs::FileSystem;
use crate::fs::fs_unchanged;
use crate::fs::same_places;
use crate::fs::env_dir_path;
use crate::fs::joined_path;
use crate::fs::software_dir_path;
use crate::net::Downloader;
use crate::archive::Unarchiver;
use crate::soft::installer::DefaultArchiveArtifactInstaller;
use crate::soft::k8s::ChartTesting;
use crate::soft::tf::Terraform;

pub mod installer;
pub mod k8s;
pub mod tf;

verus! {

/// Why one software failed to install.
#[derive(Clone, Debug, PartialEq, Eq)]
pub enum Error {
    /// A filesystem, download or extraction primitive failed.
    Io(IoError),
    /// The running machine's OS or architecture has no release of this tool.
    UnsupportedSystem,
}

impl Error {
    /// The rendering used when this failure is reported.
    pub fn message(&self) -> (r: String)
        ensures
            self matches Error::Io(e) ==> r@ == e.message@,
            self is UnsupportedSystem ==> r@ == "This system is not supported"@,
    {
        match self {
            Error::Io(e) => e.message().to_owned(),
            Error::UnsupportedSystem => "This system is not supported".to_owned(),
        }
    }
}

/// The running machine, as the plain values the variants map to each vendor's
/// naming scheme.
#[derive(Clone, Debug, PartialEq, Eq)]
pub struct SystemInfo {
    /// The operating system, as Rust names it (`linux`, `macos`, ...).
    pub os: String,
    /// The processor architecture, as Rust names it (`x86_64`, `aarch64`, ...).
    pub arch: String,
}

/// One declared software tool, ready to install.
#[derive(Clone, Debug, PartialEq, Eq)]
pub enum Software {
    ChartTesting(ChartTesting),
    Terraform(Terraform),
}

impl Software {
    /// The tool's name, which also keys its cache directory.
    pub open spec fn spec_name(&self) -> Seq<char> {
        match self {
            Software::ChartTesting(_) => "chart-testing"@,
            Software::Terraform(_) => "terraform"@,
        }
    }

    /// The declared version.
    pub open spec fn spec_version(&self) -> Seq<char> {
        match self {
            Software::ChartTesting(s) => s.version@,
            Software::Terraform(s) => s.version@,
        }
    }

    /// The name of the tool's one required binary.
    pub open spec fn bin_name(&self) -> Seq<char> {
        match self {
            Software::ChartTesting(_) => "ct"@,
            Software::Terraform(_) => "terraform"@,
        }
    }

    /// Whether `d` is a link destination this tool's install may touch: its
    /// required symlink in the project's environment directory and, for
    /// chart-testing, its two best-effort configuration links under the home
    /// directory.
    pub open spec fn may_touch_link(
        &self,
        d: Seq<char>,
        denv_dir: Seq<char>,
        project_dirpath: Seq<char>,
        home_dir: Seq<char>,
    ) -> bool {
        match self {
            Software::ChartTesting(_) => d == self.env_link_dest(denv_dir, project_dirpath) || d
                == joined_path(home_dir, ".ct/chart_schema.yaml"@) || d == joined_path(
                home_dir,
                ".ct/lintconf.yaml"@,
            ),
            Software::Terraform(_) => d == self.env_link_dest(denv_dir, project_dirpath),
        }
    }

    /// The release URL the tool downloads on this machine.
    pub open spec fn release_url(&self, sys: &SystemInfo) -> Seq<char> {
        match self {
            Software::ChartTesting(s) => k8s::ct_url(
                s.version@,
                k8s::ct_os(sys.os@).unwrap(),
                k8s::ct_arch(sys.arch@).unwrap(),
            ),
            Software::Terraform(s) => tf::tf_url(
                s.version@,
                tf::tf_os(sys.os@).unwrap(),
                tf::tf_arch(sys.arch@).unwrap(),
            ),
        }
    }

    /// Whether the tool has a release for this machine.
    pub open spec fn supported(&self, sys: &SystemInfo) -> bool {
        match self {
            Software::ChartTesting(_) => k8s::ct_os(sys.os@) is Some && k8s::ct_arch(
                sys.arch@,
            ) is Some,
            Software::Terraform(_) => tf::tf_os(sys.os@) is Some && tf::tf_arch(
                sys.arch@,
            ) is Some,
        }
    }

    /// The cache path of the tool's required binary.
    pub open spec fn cached_bin_path(&self, denv_dir: Seq<char>) -> Seq<char> {
        joined_path(software_dir_path(denv_dir, self.spec_name(), self.spec_version()), self.bin_name())
    }

    /// Where the tool's required symlink lives: in the project's environment
    /// directory, under the binary's name.
    pub open spec fn env_link_dest(&self, denv_dir: Seq<char>, project_dirpath: Seq<char>) -> Seq<
        char,
    > {
        joined_path(env_dir_path(denv_dir, project_dirpath), self.bin_name())
    }

    pub fn name(&self) -> (r: &str)
        ensures
            r@ == self.spec_name(),
    {
        match self {
            Software::ChartTesting(_) => "chart-testing",
            Software::Terraform(_) => "terraform",
        }
    }

    pub fn version(&self) -> (r: &str)
        ensures
            r@ == self.spec_version(),
    {
        match self {
            Software::ChartTesting(s) => s.version.as_str(),
            Software::Terraform(s) => s.version.as_str(),
        }
    }

    /// Installs the tool into the cache and symlinks it into the project's
    /// environment directory, idempotently.
    ///
    /// Whatever happens, at most one download and one extraction are
    /// performed, and none when the required binary is already cached. On
    /// success the binary is cached and executable and the environment
    /// directory's symlink points at it.
    pub fn install<F: FileSystem, D: Downloader, U: Unarchiver>(
        &self,
        project_dirpath: &str,
        fs: &mut F,
        installer: &mut DefaultArchiveArtifactInstaller<D, U>,
        sys: &SystemInfo,
    ) -> (r: Result<(), Error>)
        ensures
            same_places(final(fs), old(fs)),
            final(installer).net_calls() <= old(installer).net_calls() + 1,
            final(installer).decode_calls() <= old(installer).decode_calls() + 1,
            final(installer).requests() == old(installer).requests() || (self.supported(sys)
                && final(installer).requests() == old(installer).requests().push(
                self.release_url(sys),
            )),
            r matches Err(Error::UnsupportedSystem) ==> !self.supported(sys),
            forall|d: Seq<char>|
                !self.may_touch_link(d, old(fs).denv_dir(), project_dirpath@, old(fs).home_dir())
                    ==> #[trigger] final(fs).links().contains_key(d) == old(fs).links().contains_key(d) && (old(fs).links().contains_key(d) ==> final(fs).links()[d] == old(fs).links()[d]),
            !self.supported(sys) ==> r == Err::<(), Error>(Error::UnsupportedSystem) && fs_unchanged(final(fs), old(fs)) && final(installer).net_calls() == old(installer).net_calls()
                && final(installer).decode_calls() == old(installer).decode_calls(),
            old(fs).files().contains(self.cached_bin_path(old(fs).denv_dir())) ==> final(installer).net_calls() == old(installer).net_calls() && final(installer).decode_calls() == old(installer).decode_calls(),
            r is Ok ==> self.supported(sys) && final(fs).files().contains(
                self.cached_bin_path(old(fs).denv_dir()),
            ) && final(fs).execs().contains(self.cached_bin_path(old(fs).denv_dir())) && final(fs).links().contains_key(self.env_link_dest(old(fs).denv_dir(), project_dirpath@))
                && final(fs).links()[self.env_link_dest(old(fs).denv_dir(), project_dirpath@)]
                == self.cached_bin_path(old(fs).denv_dir()),
    {
        match self {
            Software::ChartTesting(s) => s.install(project_dirpath, fs, installer, sys),
            Software::Terraform(s) => s.install(project_dirpath, fs, installer, sys),
        }
    }
}

} // verus!
