//! Chart-testing: the variant that maps a declared version to the
//! chart-testing release naming and delegates to the artifact installer.
//!
//! Besides its required binary symlink, chart-testing links its two bundled
//! configuration files into `~/.ct`; those links are best-effort.

use vstd::prelude::*;
use super::Error;
use super::SystemInfo;
use super::installer::Artifact;
use super::installer::DefaultArchiveArtifactInstaller;
use super::installer::dest_declared;
use super::installer::dest_settled_at;
use super::installer::Symlink;
use crate::archive::Unarchiver;
use crate::fs::FileSystem;
use crate::fs::fs_unchanged;
use crate::fs::same_places;
use crate::fs::env_dir_path;
use crate::fs::join_path;
use crate::fs::lemma_joined_path_ne;
use crate::fs::joined_path;
use crate::fs::software_dir_path;
use crate::net::Downloader;
use crate::text::str_eq;

verus! {

/// The chart-testing release name for a processor architecture, or `None`
/// where there is no release.
pub open spec fn ct_arch(arch: Seq<char>) -> Option<Seq<char>> {
    if arch == "x86_64"@ {
        Some("amd64"@)
    } else if arch == "arm"@ {
        Some("armv6"@)
    } else if arch == "aarch64"@ {
        Some("arm64"@)
    } else {
        None
    }
}

/// The chart-testing release name for an operating system, or `None` where
/// there is no release.
pub open spec fn ct_os(os: Seq<char>) -> Option<Seq<char>> {
    if os == "macos"@ {
        Some("darwin"@)
    } else if os == "linux"@ {
        Some("linux"@)
    } else {
        None
    }
}

/// The release download URL for one version on one platform.
pub open spec fn ct_url(version: Seq<char>, os: Seq<char>, arch: Seq<char>) -> Seq<char> {
    "https://github.com/helm/chart-testing/releases/download/v"@ + version + "/chart-testing_"@
        + version + "_"@ + os + "_"@ + arch + ".tar.gz"@
}

/// A declared chart-testing installation.
#[derive(Clone, Debug, PartialEq, Eq)]
pub struct ChartTesting {
    pub version: String,
}

impl ChartTesting {
    pub fn new(version: String) -> (r: ChartTesting)
        ensures
            r.version == version,
    {
        ChartTesting { version }
    }

    /// `ct_arch`, executably; `UnsupportedSystem` where there is no release.
    fn arch(sys: &SystemInfo) -> (r: Result<&'static str, Error>)
        ensures
            match ct_arch(sys.arch@) {
                Some(a) => r matches Ok(s) && s@ == a,
                None => r == Err::<&'static str, Error>(Error::UnsupportedSystem),
            },
    {
        if str_eq(sys.arch.as_str(), "x86_64") {
            Ok("amd64")
        } else if str_eq(sys.arch.as_str(), "arm") {
            Ok("armv6")
        } else if str_eq(sys.arch.as_str(), "aarch64") {
            Ok("arm64")
        } else {
            Err(Error::UnsupportedSystem)
        }
    }

    /// `ct_os`, executably; `UnsupportedSystem` where there is no release.
    fn os(sys: &SystemInfo) -> (r: Result<&'static str, Error>)
        ensures
            match ct_os(sys.os@) {
                Some(o) => r matches Ok(s) && s@ == o,
                None => r == Err::<&'static str, Error>(Error::UnsupportedSystem),
            },
    {
        if str_eq(sys.os.as_str(), "macos") {
            Ok("darwin")
        } else if str_eq(sys.os.as_str(), "linux") {
            Ok("linux")
        } else {
            Err(Error::UnsupportedSystem)
        }
    }

    /// Installs this chart-testing version for the project at
    /// `project_dirpath`: one required binary `ct` in the cache, one required
    /// symlink to it from the project's environment directory, and two
    /// best-effort symlinks for the bundled configuration under the home
    /// directory.
    pub fn install<F: FileSystem, D: Downloader, U: Unarchiver>(
        &self,
        project_dirpath: &str,
        fs: &mut F,
        installer: &mut DefaultArchiveArtifactInstaller<D, U>,
        sys: &SystemInfo,
    ) -> (r: Result<(), Error>)
        ensures
            same_places(final(fs), old(fs)),
            final(installer).net_calls() <= old(installer).net_calls() + 1,
            final(installer).decode_calls() <= old(installer).decode_calls() + 1,
            final(installer).requests() == old(installer).requests() || (ct_os(sys.os@) is Some
                && ct_arch(sys.arch@) is Some && final(installer).requests() == old(installer).requests().push(
                ct_url(self.version@, ct_os(sys.os@).unwrap(), ct_arch(sys.arch@).unwrap()),
            )),
            forall|d: Seq<char>|
                d != joined_path(env_dir_path(old(fs).denv_dir(), project_dirpath@), "ct"@) && d
                    != joined_path(old(fs).home_dir(), ".ct/chart_schema.yaml"@) && d
                    != joined_path(old(fs).home_dir(), ".ct/lintconf.yaml"@)
                    ==> #[trigger] final(fs).links().contains_key(d) == old(fs).links().contains_key(d)
                    && (old(fs).links().contains_key(d) ==> final(fs).links()[d] == old(fs).links()[d]),
            r matches Err(Error::UnsupportedSystem) ==> ct_os(sys.os@) is None || ct_arch(
                sys.arch@,
            ) is None,
            ct_os(sys.os@) is None || ct_arch(sys.arch@) is None ==> r == Err::<(), Error>(
                Error::UnsupportedSystem,
            ) && fs_unchanged(final(fs), old(fs)) && final(installer).net_calls() == old(installer).net_calls() && final(installer).decode_calls() == old(installer).decode_calls(),
            old(fs).files().contains(
                joined_path(
                    software_dir_path(old(fs).denv_dir(), "chart-testing"@, self.version@),
                    "ct"@,
                ),
            ) ==> final(installer).net_calls() == old(installer).net_calls() && final(installer).decode_calls() == old(installer).decode_calls(),
            r is Ok ==> ct_os(sys.os@) is Some && ct_arch(sys.arch@) is Some && final(fs).files().contains(
                joined_path(
                    software_dir_path(old(fs).denv_dir(), "chart-testing"@, self.version@),
                    "ct"@,
                ),
            ) && final(fs).execs().contains(
                joined_path(
                    software_dir_path(old(fs).denv_dir(), "chart-testing"@, self.version@),
                    "ct"@,
                ),
            ) && final(fs).links().contains_key(
                joined_path(env_dir_path(old(fs).denv_dir(), project_dirpath@), "ct"@),
            ) && final(fs).links()[joined_path(
                env_dir_path(old(fs).denv_dir(), project_dirpath@),
                "ct"@,
            )] == joined_path(
                software_dir_path(old(fs).denv_dir(), "chart-testing"@, self.version@),
                "ct"@,
            ),
    {
        let os = match Self::os(sys) {
            Ok(o) => o,
            Err(e) => { return Err(e) },
        };
        let arch = match Self::arch(sys) {
            Ok(a) => a,
            Err(e) => { return Err(e) },
        };
        let env_dirpath = match fs.ensure_env_dir(project_dirpath) {
            Ok(p) => p,
            Err(e) => { return Err(Error::Io(e.to_io_error())) },
        };
        let home_dirpath = match fs.home_dirpath() {
            Ok(p) => p,
            Err(e) => { return Err(Error::Io(e.to_io_error())) },
        };
        let mut url = "https://github.com/helm/chart-testing/releases/download/v".to_owned();
        url.append(self.version.as_str());
        url.append("/chart-testing_");
        url.append(self.version.as_str());
        url.append("_");
        url.append(os);
        url.append("_");
        url.append(arch);
        url.append(".tar.gz");
        let mut bin_filepaths: Vec<String> = Vec::new();
        bin_filepaths.push("ct".to_owned());
        let mut symlinks: Vec<Symlink> = Vec::new();
        symlinks.push(
            Symlink {
                dest: join_path(env_dirpath.as_str(), "ct"),
                required: true,
                src: "ct".to_owned(),
            },
        );
        symlinks.push(
            Symlink {
                dest: join_path(home_dirpath.as_str(), ".ct/chart_schema.yaml"),
                required: false,
                src: "etc/chart-schema.yaml".to_owned(),
            },
        );
        symlinks.push(
            Symlink {
                dest: join_path(home_dirpath.as_str(), ".ct/lintconf.yaml"),
                required: false,
                src: "etc/lintconf.yaml".to_owned(),
            },
        );
        let artifact = Artifact {
            bin_filepaths,
            name: "chart-testing".to_owned(),
            symlinks,
            url,
            version: self.version.clone(),
        };
        proof {
            assert(url@ =~= ct_url(
                self.version@,
                ct_os(sys.os@).unwrap(),
                ct_arch(sys.arch@).unwrap(),
            ));
        }
        let r = installer.install_targz(&artifact, fs);
        proof {
            assert(artifact.symlinks@.len() == 3);
            assert(artifact.symlinks@[0].dest@ == joined_path(
                env_dir_path(old(fs).denv_dir(), project_dirpath@),
                "ct"@,
            ));
            assert(artifact.symlinks@[1].dest@ == joined_path(
                old(fs).home_dir(),
                ".ct/chart_schema.yaml"@,
            ));
            assert(artifact.symlinks@[2].dest@ == joined_path(
                old(fs).home_dir(),
                ".ct/lintconf.yaml"@,
            ));
            assert forall|d: Seq<char>|
                d != joined_path(env_dir_path(old(fs).denv_dir(), project_dirpath@), "ct"@) && d
                    != joined_path(old(fs).home_dir(), ".ct/chart_schema.yaml"@) && d
                    != joined_path(old(fs).home_dir(), ".ct/lintconf.yaml"@)
                    implies #[trigger] fs.links().contains_key(d) == old(fs).links().contains_key(d)
                    && (old(fs).links().contains_key(d) ==> fs.links()[d] == old(fs).links()[d]) by {
                assert(!dest_declared(artifact.symlinks@, d)) by {
                    if dest_declared(artifact.symlinks@, d) {
                        let m = choose|m: int|
                            0 <= m < artifact.symlinks@.len() && (#[trigger] artifact.symlinks@[m]).dest@
                                == d;
                        assert(0 <= m < 3);
                        assert(false);
                    }
                }
            }
            if r is Ok {
                reveal_strlit("ct");
                reveal_strlit(".ct/chart_schema.yaml");
                reveal_strlit(".ct/lintconf.yaml");
                let cache = software_dir_path(old(fs).denv_dir(), "chart-testing"@, self.version@);
                assert(artifact.bin_filepaths@[0]@ == "ct"@);
                assert(fs.files().contains(joined_path(cache, artifact.bin_filepaths@[0]@)));
                assert(fs.execs().contains(joined_path(cache, artifact.bin_filepaths@[0]@)));
                assert(artifact.symlinks@.len() == 3);
                lemma_joined_path_ne(
                    env_dirpath@,
                    "ct"@,
                    home_dirpath@,
                    ".ct/chart_schema.yaml"@,
                );
                lemma_joined_path_ne(env_dirpath@, "ct"@, home_dirpath@, ".ct/lintconf.yaml"@);
                assert(artifact.symlinks@[1].dest@ != artifact.symlinks@[0].dest@);
                assert(artifact.symlinks@[2].dest@ != artifact.symlinks@[0].dest@);
                assert(dest_settled_at(artifact.symlinks@, 0, 3)) by {
                    assert forall|j: int| 0 < j < 3 implies (#[trigger] artifact.symlinks@[j]).dest@
                        != artifact.symlinks@[0].dest@ by {
                        if j == 1 {
                            assert(artifact.symlinks@[1].dest@ != artifact.symlinks@[0].dest@);
                        } else {
                            assert(artifact.symlinks@[2].dest@ != artifact.symlinks@[0].dest@);
                        }
                    }
                }
                assert(artifact.symlinks@[0].required);
                assert(fs.links().contains_key(artifact.symlinks@[0].dest@));
                assert(fs.links()[artifact.symlinks@[0].dest@] == joined_path(
                    cache,
                    artifact.symlinks@[0].src@,
                ));
                assert(artifact.symlinks@[0].dest@ == joined_path(
                    env_dir_path(old(fs).denv_dir(), project_dirpath@),
                    "ct"@,
                ));
                assert(artifact.symlinks@[0].src@ == "ct"@);
            }
        }
        r
    }
}

} // verus!
