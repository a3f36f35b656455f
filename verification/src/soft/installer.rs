//! The artifact installer: makes "this named, versioned tool is unpacked in
//! the cache, executable, and symlinked" true, idempotently.
//!
//! The installer downloads and extracts only when a required binary is
//! missing from the cache — never more than once per call — and repoints the
//! declared symlinks, aborting on a failing required symlink and carrying on
//! past a failing optional one.

use vstd::prelude::*;
use super::Error;
use crate::archive::Unarchiver;
use crate::fs::FileSystem;
use crate::fs::same_places;
use crate::fs::join_path;
use crate::fs::joined_path;
use crate::fs::software_dir_path;
use crate::net::Downloader;

verus! {

/// The installer's input contract: one downloadable, extractable,
/// symlinkable unit.
#[derive(Clone, Debug, PartialEq, Eq)]
pub struct Artifact {
    /// The binaries that must exist under the cache directory, as relative
    /// paths; their presence is the idempotency anchor.
    pub bin_filepaths: Vec<String>,
    pub name: String,
    pub symlinks: Vec<Symlink>,
    pub url: String,
    pub version: String,
}

/// One symlink of an artifact's plan.
#[derive(Clone, Debug, PartialEq, Eq)]
pub struct Symlink {
    /// The absolute path the symlink lives at.
    pub dest: String,
    /// Whether a failure to create it fails the install.
    pub required: bool,
    /// The symlink's target, relative to the cache directory.
    pub src: String,
}

/// How an artifact's archive is encoded.
enum ArchiveKind {
    TarGz,
    Zip,
}

/// Whether every binary of `bins` exists under `cache` in `files`.
pub open spec fn bins_present(files: Set<Seq<char>>, cache: Seq<char>, bins: Seq<String>) -> bool {
    forall|j: int| 0 <= j < bins.len() ==> files.contains(joined_path(cache, bins[j]@))
}

/// Whether every binary of `bins` under `cache` is executable in `execs`.
pub open spec fn bins_executable(execs: Set<Seq<char>>, cache: Seq<char>, bins: Seq<String>) -> bool {
    forall|j: int| 0 <= j < bins.len() ==> execs.contains(joined_path(cache, bins[j]@))
}

/// Whether no symlink after position `m` (before `upto`) reuses the
/// destination of the symlink at `m`.
pub open spec fn dest_settled_at(symlinks: Seq<Symlink>, m: int, upto: int) -> bool {
    forall|j: int| m < j < upto ==> (#[trigger] symlinks[j]).dest@ != symlinks[m].dest@
}

/// Whether every required symlink of the plan whose destination no later
/// entry reuses points at its target under `cache`.
pub open spec fn required_links_set(
    links: Map<Seq<char>, Seq<char>>,
    cache: Seq<char>,
    symlinks: Seq<Symlink>,
) -> bool {
    forall|m: int|
        0 <= m < symlinks.len() && (#[trigger] symlinks[m]).required && dest_settled_at(
            symlinks,
            m,
            symlinks.len() as int,
        ) ==> links.contains_key(symlinks[m].dest@) && links[symlinks[m].dest@] == joined_path(
            cache,
            symlinks[m].src@,
        )
}

/// Whether some symlink of the plan has `d` as its destination.
pub open spec fn dest_declared(symlinks: Seq<Symlink>, d: Seq<char>) -> bool {
    exists|m: int| 0 <= m < symlinks.len() && (#[trigger] symlinks[m]).dest@ == d
}

/// Whether the two link maps agree on every destination outside the plan's.
pub open spec fn links_agree_outside(
    a: Map<Seq<char>, Seq<char>>,
    b: Map<Seq<char>, Seq<char>>,
    symlinks: Seq<Symlink>,
) -> bool {
    forall|d: Seq<char>|
        !dest_declared(symlinks, d) ==> #[trigger] a.contains_key(d) == b.contains_key(d) && (
        b.contains_key(d) ==> a[d] == b[d])
}

/// The installer used outside tests: downloads through `D`, decodes through
/// `U`, writes through the filesystem it is handed.
pub struct DefaultArchiveArtifactInstaller<D: Downloader, U: Unarchiver> {
    pub downloader: D,
    pub unarchiver: U,
}

impl<D: Downloader, U: Unarchiver> DefaultArchiveArtifactInstaller<D, U> {
    /// The URLs this installer has downloaded, in order.
    pub open spec fn requests(&self) -> Seq<Seq<char>> {
        self.downloader.requests()
    }

    /// How many downloads this installer has performed.
    pub open spec fn net_calls(&self) -> nat {
        self.downloader.requests().len()
    }

    /// How many archives this installer has decoded.
    pub open spec fn decode_calls(&self) -> nat {
        self.unarchiver.calls()
    }

    pub fn new(downloader: D, unarchiver: U) -> (r: DefaultArchiveArtifactInstaller<D, U>)
        ensures
            r.downloader == downloader,
            r.unarchiver == unarchiver,
    {
        DefaultArchiveArtifactInstaller { downloader, unarchiver }
    }

    /// Installs an artifact whose archive is a gzip-compressed tarball.
    pub fn install_targz<F: FileSystem>(&mut self, artifact: &Artifact, fs: &mut F) -> (r: Result<
        (),
        Error,
    >)
        ensures
            same_places(final(fs), old(fs)),
            final(self).net_calls() <= old(self).net_calls() + 1,
            final(self).decode_calls() <= old(self).decode_calls() + 1,
            final(self).requests() == old(self).requests() || final(self).requests() == old(
                self,
            ).requests().push(artifact.url@),
            r matches Err(e) ==> e is Io,
            links_agree_outside(final(fs).links(), old(fs).links(), artifact.symlinks@),
            bins_present(
                old(fs).files(),
                software_dir_path(old(fs).denv_dir(), artifact.name@, artifact.version@),
                artifact.bin_filepaths@,
            ) ==> final(self).net_calls() == old(self).net_calls() && final(self).decode_calls()
                == old(self).decode_calls() && final(fs).files() == old(fs).files(),
            r is Ok ==> bins_present(
                final(fs).files(),
                software_dir_path(old(fs).denv_dir(), artifact.name@, artifact.version@),
                artifact.bin_filepaths@,
            ) && bins_executable(
                final(fs).execs(),
                software_dir_path(old(fs).denv_dir(), artifact.name@, artifact.version@),
                artifact.bin_filepaths@,
            ) && required_links_set(
                final(fs).links(),
                software_dir_path(old(fs).denv_dir(), artifact.name@, artifact.version@),
                artifact.symlinks@,
            ),
    {
        self.install(artifact, fs, ArchiveKind::TarGz)
    }

    /// Installs an artifact whose archive is a zip.
    pub fn install_zip<F: FileSystem>(&mut self, artifact: &Artifact, fs: &mut F) -> (r: Result<
        (),
        Error,
    >)
        ensures
            same_places(final(fs), old(fs)),
            final(self).net_calls() <= old(self).net_calls() + 1,
            final(self).decode_calls() <= old(self).decode_calls() + 1,
            final(self).requests() == old(self).requests() || final(self).requests() == old(
                self,
            ).requests().push(artifact.url@),
            r matches Err(e) ==> e is Io,
            links_agree_outside(final(fs).links(), old(fs).links(), artifact.symlinks@),
            bins_present(
                old(fs).files(),
                software_dir_path(old(fs).denv_dir(), artifact.name@, artifact.version@),
                artifact.bin_filepaths@,
            ) ==> final(self).net_calls() == old(self).net_calls() && final(self).decode_calls()
                == old(self).decode_calls() && final(fs).files() == old(fs).files(),
            r is Ok ==> bins_present(
                final(fs).files(),
                software_dir_path(old(fs).denv_dir(), artifact.name@, artifact.version@),
                artifact.bin_filepaths@,
            ) && bins_executable(
                final(fs).execs(),
                software_dir_path(old(fs).denv_dir(), artifact.name@, artifact.version@),
                artifact.bin_filepaths@,
            ) && required_links_set(
                final(fs).links(),
                software_dir_path(old(fs).denv_dir(), artifact.name@, artifact.version@),
                artifact.symlinks@,
            ),
    {
        self.install(artifact, fs, ArchiveKind::Zip)
    }

    /// The shared install algorithm: resolve the cache directory, skip the
    /// download and extraction when every required binary is already there,
    /// set the executable bits, then repoint the symlinks.
    #[verifier::loop_isolation(false)]
    fn install<F: FileSystem>(&mut self, artifact: &Artifact, fs: &mut F, kind: ArchiveKind) -> (r:
        Result<(), Error>)
        ensures
            same_places(final(fs), old(fs)),
            final(self).net_calls() <= old(self).net_calls() + 1,
            final(self).decode_calls() <= old(self).decode_calls() + 1,
            final(self).requests() == old(self).requests() || final(self).requests() == old(
                self,
            ).requests().push(artifact.url@),
            r matches Err(e) ==> e is Io,
            links_agree_outside(final(fs).links(), old(fs).links(), artifact.symlinks@),
            bins_present(
                old(fs).files(),
                software_dir_path(old(fs).denv_dir(), artifact.name@, artifact.version@),
                artifact.bin_filepaths@,
            ) ==> final(self).net_calls() == old(self).net_calls() && final(self).decode_calls()
                == old(self).decode_calls() && final(fs).files() == old(fs).files(),
            r is Ok ==> bins_present(
                final(fs).files(),
                software_dir_path(old(fs).denv_dir(), artifact.name@, artifact.version@),
                artifact.bin_filepaths@,
            ) && bins_executable(
                final(fs).execs(),
                software_dir_path(old(fs).denv_dir(), artifact.name@, artifact.version@),
                artifact.bin_filepaths@,
            ) && required_links_set(
                final(fs).links(),
                software_dir_path(old(fs).denv_dir(), artifact.name@, artifact.version@),
                artifact.symlinks@,
            ),
    {
        let ghost cache_spec = software_dir_path(
            old(fs).denv_dir(),
            artifact.name@,
            artifact.version@,
        );
        let cache = match fs.ensure_software_dir(artifact.name.as_str(), artifact.version.as_str()) {
            Ok(p) => p,
            Err(e) => { return Err(Error::Io(e.to_io_error())) },
        };
        let installed = bins_installed(fs, cache.as_str(), &artifact.bin_filepaths);
        if !installed {
            let bytes = match self.downloader.download(artifact.url.as_str()) {
                Ok(b) => b,
                Err(e) => { return Err(Error::Io(e)) },
            };
            let entries = match kind {
                ArchiveKind::TarGz => self.unarchiver.untar(&bytes),
                ArchiveKind::Zip => self.unarchiver.unzip(&bytes),
            };
            let entries = match entries {
                Ok(es) => es,
                Err(e) => { return Err(Error::Io(e)) },
            };
            let mut i: usize = 0;
            while i < entries.len()
                invariant
                    i <= entries.len(),
                    same_places(fs, old(fs)),
                    fs.links() == old(fs).links(),
                decreases entries.len() - i,
            {
                let entry = &entries[i];
                if !entry.is_dir {
                    let path = join_path(cache.as_str(), entry.path.as_str());
                    if let Err(e) = fs.write_file(path.as_str(), &entry.data) {
                        return Err(Error::Io(e.to_io_error()));
                    }
                }
                i += 1;
            }
        }
        let ghost fs_written = *fs;
        let mut i: usize = 0;
        while i < artifact.bin_filepaths.len()
            invariant
                i <= artifact.bin_filepaths.len(),
                same_places(fs, old(fs)),
                fs.files() == fs_written.files(),
                fs.links() == fs_written.links(),
                forall|j: int|
                    0 <= j < i ==> fs.files().contains(
                        joined_path(cache_spec, artifact.bin_filepaths@[j]@),
                    ),
                forall|j: int|
                    0 <= j < i ==> fs.execs().contains(
                        joined_path(cache_spec, artifact.bin_filepaths@[j]@),
                    ),
            decreases artifact.bin_filepaths.len() - i,
        {
            let path = join_path(cache.as_str(), artifact.bin_filepaths[i].as_str());
            if let Err(e) = fs.make_executable(path.as_str()) {
                return Err(Error::Io(e.to_io_error()));
            }
            i += 1;
        }
        let ghost fs_exec = *fs;
        let mut i: usize = 0;
        while i < artifact.symlinks.len()
            invariant
                i <= artifact.symlinks.len(),
                same_places(fs, old(fs)),
                fs.files() == fs_exec.files(),
                fs.execs() == fs_exec.execs(),
                links_agree_outside(fs.links(), old(fs).links(), artifact.symlinks@),
                forall|m: int|
                    0 <= m < i && (#[trigger] artifact.symlinks@[m]).required && dest_settled_at(
                        artifact.symlinks@,
                        m,
                        i as int,
                    ) ==> fs.links().contains_key(artifact.symlinks@[m].dest@) && fs.links()[
                        artifact.symlinks@[m].dest@
                    ] == joined_path(cache_spec, artifact.symlinks@[m].src@),
            decreases artifact.symlinks.len() - i,
        {
            let ghost links_before = fs.links();
            let src = join_path(cache.as_str(), artifact.symlinks[i].src.as_str());
            match fs.ensure_symlink(src.as_str(), artifact.symlinks[i].dest.as_str()) {
                Ok(()) => {
                    proof {
                        assert forall|d: Seq<char>| !dest_declared(
                            artifact.symlinks@,
                            d,
                        ) implies #[trigger] fs.links().contains_key(d) == old(
                            fs,
                        ).links().contains_key(d) && (old(fs).links().contains_key(d)
                            ==> fs.links()[d] == old(fs).links()[d]) by {
                            assert(artifact.symlinks@[i as int].dest@ != d);
                            assert(links_before.contains_key(d) == old(fs).links().contains_key(d)
                                && (old(fs).links().contains_key(d) ==> links_before[d] == old(
                                fs,
                            ).links()[d]));
                        }
                        assert forall|m: int|
                            0 <= m < i as int + 1 && (#[trigger] artifact.symlinks@[m]).required
                                && dest_settled_at(
                                artifact.symlinks@,
                                m,
                                i as int + 1,
                            ) implies fs.links().contains_key(artifact.symlinks@[m].dest@)
                            && fs.links()[artifact.symlinks@[m].dest@] == joined_path(
                            cache_spec,
                            artifact.symlinks@[m].src@,
                        ) by {
                            if m < i {
                                assert(artifact.symlinks@[i as int].dest@
                                    != artifact.symlinks@[m].dest@);
                                assert(dest_settled_at(artifact.symlinks@, m, i as int));
                                assert(links_before.contains_key(artifact.symlinks@[m].dest@));
                                assert(fs.links().contains_key(artifact.symlinks@[m].dest@));
                                assert(fs.links()[artifact.symlinks@[m].dest@] == links_before[
                                    artifact.symlinks@[m].dest@
                                ]);
                                assert(links_before[artifact.symlinks@[m].dest@] == joined_path(
                                    cache_spec,
                                    artifact.symlinks@[m].src@,
                                ));
                            }
                        }
                    }
                },
                Err(e) => {
                    proof {
                        assert forall|d: Seq<char>| !dest_declared(
                            artifact.symlinks@,
                            d,
                        ) implies #[trigger] fs.links().contains_key(d) == old(
                            fs,
                        ).links().contains_key(d) && (old(fs).links().contains_key(d)
                            ==> fs.links()[d] == old(fs).links()[d]) by {
                            assert(artifact.symlinks@[i as int].dest@ != d);
                            assert(fs.links().contains_key(d) == links_before.contains_key(d));
                            assert(links_before.contains_key(d) ==> fs.links()[d] == links_before[
                                d
                            ]);
                            assert(links_before.contains_key(d) == old(fs).links().contains_key(d)
                                && (old(fs).links().contains_key(d) ==> links_before[d] == old(
                                fs,
                            ).links()[d]));
                        }
                    }
                    if artifact.symlinks[i].required {
                        return Err(Error::Io(e.to_io_error()));
                    }
                    proof {
                        assert forall|m: int|
                            0 <= m < i as int + 1 && (#[trigger] artifact.symlinks@[m]).required
                                && dest_settled_at(
                                artifact.symlinks@,
                                m,
                                i as int + 1,
                            ) implies fs.links().contains_key(artifact.symlinks@[m].dest@)
                            && fs.links()[artifact.symlinks@[m].dest@] == joined_path(
                            cache_spec,
                            artifact.symlinks@[m].src@,
                        ) by {
                            assert(m < i);
                            assert(artifact.symlinks@[i as int].dest@
                                != artifact.symlinks@[m].dest@);
                            assert(dest_settled_at(artifact.symlinks@, m, i as int));
                            assert(links_before.contains_key(artifact.symlinks@[m].dest@));
                            assert(fs.links().contains_key(artifact.symlinks@[m].dest@)
                                == links_before.contains_key(artifact.symlinks@[m].dest@));
                            assert(fs.links()[artifact.symlinks@[m].dest@] == links_before[
                                artifact.symlinks@[m].dest@
                            ]);
                            assert(links_before[artifact.symlinks@[m].dest@] == joined_path(
                                cache_spec,
                                artifact.symlinks@[m].src@,
                            ));
                        }
                    }
                },
            }
            i += 1;
        }
        Ok(())
    }
}

/// Whether every binary of the artifact already exists under the cache
/// directory.
fn bins_installed<F: FileSystem>(fs: &F, cache: &str, bins: &Vec<String>) -> (r: bool)
    ensures
        r == bins_present(fs.files(), cache@, bins@),
{
    let mut i: usize = 0;
    while i < bins.len()
        invariant
            0 <= i <= bins.len(),
            forall|j: int| 0 <= j < i ==> fs.files().contains(joined_path(cache@, bins@[j]@)),
        decreases bins.len() - i,
    {
        let path = join_path(cache, bins[i].as_str());
        if !fs.file_exists(path.as_str()) {
            assert(!bins_present(fs.files(), cache@, bins@));
            return false;
        }
        i += 1;
    }
    true
}

} // verus!
