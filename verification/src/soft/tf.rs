//! Terraform: the variant that maps a declared version to HashiCorp's
//! release naming and delegates to the artifact installer.

use vstd::prelude::*;
use super::Error;
use super::SystemInfo;
use super::installer::Artifact;
use super::installer::DefaultArchiveArtifactInstaller;
use super::installer::dest_declared;
use super::installer::dest_settled_at;
use super::installer::Symlink;
use crate::archive::Unarchiver;
use crate::fs::FileSystem;
use crate::fs::fs_unchanged;
use crate::fs::same_places;
use crate::fs::env_dir_path;
use crate::fs::join_path;
use crate::fs::joined_path;
use crate::fs::software_dir_path;
use crate::net::Downloader;
use crate::text::str_eq;

verus! {

/// HashiCorp's name for a processor architecture, or `None` where Terraform
/// has no release.
pub open spec fn tf_arch(arch: Seq<char>) -> Option<Seq<char>> {
    if arch == "x86"@ {
        Some("386"@)
    } else if arch == "x86_64"@ {
        Some("amd64"@)
    } else if arch == "arm"@ {
        Some("arm"@)
    } else if arch == "aarch64"@ {
        Some("arm64"@)
    } else {
        None
    }
}

/// HashiCorp's name for an operating system, or `None` where Terraform has
/// no release.
pub open spec fn tf_os(os: Seq<char>) -> Option<Seq<char>> {
    if os == "macos"@ {
        Some("darwin"@)
    } else if os == "linux"@ {
        Some("linux"@)
    } else {
        None
    }
}

/// The release download URL for one version on one platform.
pub open spec fn tf_url(version: Seq<char>, os: Seq<char>, arch: Seq<char>) -> Seq<char> {
    "https://releases.hashicorp.com/terraform/"@ + version + "/terraform_"@ + version + "_"@ + os
        + "_"@ + arch + ".zip"@
}

/// A declared Terraform installation.
#[derive(Clone, Debug, PartialEq, Eq)]
pub struct Terraform {
    pub version: String,
}

impl Terraform {
    pub fn new(version: String) -> (r: Terraform)
        ensures
            r.version == version,
    {
        Terraform { version }
    }

    /// `tf_arch`, executably; `UnsupportedSystem` where there is no release.
    fn arch(sys: &SystemInfo) -> (r: Result<&'static str, Error>)
        ensures
            match tf_arch(sys.arch@) {
                Some(a) => r matches Ok(s) && s@ == a,
                None => r == Err::<&'static str, Error>(Error::UnsupportedSystem),
            },
    {
        if str_eq(sys.arch.as_str(), "x86") {
            Ok("386")
        } else if str_eq(sys.arch.as_str(), "x86_64") {
            Ok("amd64")
        } else if str_eq(sys.arch.as_str(), "arm") {
            Ok("arm")
        } else if str_eq(sys.arch.as_str(), "aarch64") {
            Ok("arm64")
        } else {
            Err(Error::UnsupportedSystem)
        }
    }

    /// `tf_os`, executably; `UnsupportedSystem` where there is no release.
    fn os(sys: &SystemInfo) -> (r: Result<&'static str, Error>)
        ensures
            match tf_os(sys.os@) {
                Some(o) => r matches Ok(s) && s@ == o,
                None => r == Err::<&'static str, Error>(Error::UnsupportedSystem),
            },
    {
        if str_eq(sys.os.as_str(), "macos") {
            Ok("darwin")
        } else if str_eq(sys.os.as_str(), "linux") {
            Ok("linux")
        } else {
            Err(Error::UnsupportedSystem)
        }
    }

    /// Installs this Terraform version for the project at `project_dirpath`:
    /// one required binary `terraform` in the cache, one required symlink to
    /// it from the project's environment directory.
    pub fn install<F: FileSystem, D: Downloader, U: Unarchiver>(
        &self,
        project_dirpath: &str,
        fs: &mut F,
        installer: &mut DefaultArchiveArtifactInstaller<D, U>,
        sys: &SystemInfo,
    ) -> (r: Result<(), Error>)
        ensures
            same_places(final(fs), old(fs)),
            final(installer).net_calls() <= old(installer).net_calls() + 1,
            final(installer).decode_calls() <= old(installer).decode_calls() + 1,
            final(installer).requests() == old(installer).requests() || (tf_os(sys.os@) is Some
                && tf_arch(sys.arch@) is Some && final(installer).requests() == old(installer).requests().push(
                tf_url(self.version@, tf_os(sys.os@).unwrap(), tf_arch(sys.arch@).unwrap()),
            )),
            forall|d: Seq<char>|
                d != joined_path(
                    env_dir_path(old(fs).denv_dir(), project_dirpath@),
                    "terraform"@,
                ) ==> #[trigger] final(fs).links().contains_key(d) == old(fs).links().contains_key(d) && (old(fs).links().contains_key(d) ==> final(fs).links()[d] == old(fs).links()[d]),
            r matches Err(Error::UnsupportedSystem) ==> tf_os(sys.os@) is None || tf_arch(
                sys.arch@,
            ) is None,
            tf_os(sys.os@) is None || tf_arch(sys.arch@) is None ==> r == Err::<(), Error>(
                Error::UnsupportedSystem,
            ) && fs_unchanged(final(fs), old(fs)) && final(installer).net_calls() == old(installer).net_calls() && final(installer).decode_calls() == old(installer).decode_calls(),
            old(fs).files().contains(
                joined_path(
                    software_dir_path(old(fs).denv_dir(), "terraform"@, self.version@),
                    "terraform"@,
                ),
            ) ==> final(installer).net_calls() == old(installer).net_calls() && final(installer).decode_calls() == old(installer).decode_calls(),
            r is Ok ==> tf_os(sys.os@) is Some && tf_arch(sys.arch@) is Some && final(fs).files().contains(
                joined_path(
                    software_dir_path(old(fs).denv_dir(), "terraform"@, self.version@),
                    "terraform"@,
                ),
            ) && final(fs).execs().contains(
                joined_path(
                    software_dir_path(old(fs).denv_dir(), "terraform"@, self.version@),
                    "terraform"@,
                ),
            ) && final(fs).links().contains_key(
                joined_path(env_dir_path(old(fs).denv_dir(), project_dirpath@), "terraform"@),
            ) && final(fs).links()[joined_path(
                env_dir_path(old(fs).denv_dir(), project_dirpath@),
                "terraform"@,
            )] == joined_path(
                software_dir_path(old(fs).denv_dir(), "terraform"@, self.version@),
                "terraform"@,
            ),
    {
        let os = match Self::os(sys) {
            Ok(o) => o,
            Err(e) => { return Err(e) },
        };
        let arch = match Self::arch(sys) {
            Ok(a) => a,
            Err(e) => { return Err(e) },
        };
        let env_dirpath = match fs.ensure_env_dir(project_dirpath) {
            Ok(p) => p,
            Err(e) => { return Err(Error::Io(e.to_io_error())) },
        };
        let mut url = "https://releases.hashicorp.com/terraform/".to_owned();
        url.append(self.version.as_str());
        url.append("/terraform_");
        url.append(self.version.as_str());
        url.append("_");
        url.append(os);
        url.append("_");
        url.append(arch);
        url.append(".zip");
        let mut bin_filepaths: Vec<String> = Vec::new();
        bin_filepaths.push("terraform".to_owned());
        let mut symlinks: Vec<Symlink> = Vec::new();
        symlinks.push(
            Symlink {
                dest: join_path(env_dirpath.as_str(), "terraform"),
                required: true,
                src: "terraform".to_owned(),
            },
        );
        let artifact = Artifact {
            bin_filepaths,
            name: "terraform".to_owned(),
            symlinks,
            url,
            version: self.version.clone(),
        };
        proof {
            assert(url@ =~= tf_url(
                self.version@,
                tf_os(sys.os@).unwrap(),
                tf_arch(sys.arch@).unwrap(),
            ));
        }
        let r = installer.install_zip(&artifact, fs);
        proof {
            assert(artifact.symlinks@.len() == 1);
            assert(artifact.symlinks@[0].dest@ == joined_path(
                env_dir_path(old(fs).denv_dir(), project_dirpath@),
                "terraform"@,
            ));
            assert forall|d: Seq<char>|
                d != joined_path(
                    env_dir_path(old(fs).denv_dir(), project_dirpath@),
                    "terraform"@,
                ) implies #[trigger] fs.links().contains_key(d) == old(fs).links().contains_key(d) && (old(fs).links().contains_key(d) ==> fs.links()[d] == old(fs).links()[d]) by {
                assert(!dest_declared(artifact.symlinks@, d)) by {
                    if dest_declared(artifact.symlinks@, d) {
                        let m = choose|m: int|
                            0 <= m < artifact.symlinks@.len() && (#[trigger] artifact.symlinks@[m]).dest@
                                == d;
                        assert(m == 0);
                        assert(false);
                    }
                }
            }
            if r is Ok {
                let cache = software_dir_path(old(fs).denv_dir(), "terraform"@, self.version@);
                assert(artifact.bin_filepaths@[0]@ == "terraform"@);
                assert(fs.files().contains(joined_path(cache, artifact.bin_filepaths@[0]@)));
                assert(fs.execs().contains(joined_path(cache, artifact.bin_filepaths@[0]@)));
                assert(artifact.symlinks@.len() == 1);
                assert(dest_settled_at(artifact.symlinks@, 0, 1));
                assert(artifact.symlinks@[0].required);
                assert(fs.links().contains_key(artifact.symlinks@[0].dest@));
                assert(fs.links()[artifact.symlinks@[0].dest@] == joined_path(
                    cache,
                    artifact.symlinks@[0].src@,
                ));
                assert(artifact.symlinks@[0].dest@ == joined_path(
                    env_dir_path(old(fs).denv_dir(), project_dirpath@),
                    "terraform"@,
                ));
                assert(artifact.symlinks@[0].src@ == "terraform"@);
            }
        }
        r
    }
}

} // verus!
