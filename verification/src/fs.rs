//! The filesystem as the installer and the runner see it: the on-disk layout
//! of caches and environment directories, and the capability trait through
//! which all mutation goes.
//!
//! The trait models the disk as three observations: which file paths exist,
//! where each symlink destination points, and which paths are executable.
//! Implementations perform the real operations; the library's logic is
//! verified against these contracts for any implementation.

use vstd::prelude::*;
use crate::environment::project_hash;
use crate::text::has_prefix;
use crate::error::FileSystemError;

verus! {

/// `dir` and `rel` joined with one separator.
pub open spec fn joined_path(dir: Seq<char>, rel: Seq<char>) -> Seq<char> {
    dir + "/"@ + rel
}

/// The cache directory of one software version: `<denv>/softwares/<name>/<version>`.
pub open spec fn software_dir_path(denv_dir: Seq<char>, name: Seq<char>, version: Seq<char>) -> Seq<char> {
    denv_dir + "/softwares/"@ + name + "/"@ + version
}

/// The environment directory of one project: `<denv>/environments/<project-hash>`.
pub open spec fn env_dir_path(denv_dir: Seq<char>, project_dirpath: Seq<char>) -> Seq<char> {
    denv_dir + "/environments/"@ + project_hash(project_dirpath)
}

/// Whether two file sets agree everywhere but possibly at `except`.
pub open spec fn files_agree_except(a: Set<Seq<char>>, b: Set<Seq<char>>, except: Seq<char>) -> bool {
    forall|p: Seq<char>| p != except ==> #[trigger] a.contains(p) == b.contains(p)
}

/// Whether two link maps agree everywhere but possibly at `except`.
pub open spec fn links_agree_except(
    a: Map<Seq<char>, Seq<char>>,
    b: Map<Seq<char>, Seq<char>>,
    except: Seq<char>,
) -> bool {
    forall|d: Seq<char>| d != except ==> #[trigger] a.contains_key(d) == b.contains_key(d) && (
    a.contains_key(d) ==> a[d] == b[d])
}

/// Two joined paths whose relative parts end in different characters are
/// different paths, whatever they were joined onto.
pub proof fn lemma_joined_path_ne(dir1: Seq<char>, rel1: Seq<char>, dir2: Seq<char>, rel2: Seq<char>)
    requires
        rel1.len() > 0,
        rel2.len() > 0,
        rel1.last() != rel2.last(),
    ensures
        joined_path(dir1, rel1) != joined_path(dir2, rel2),
{
    let a = joined_path(dir1, rel1);
    let b = joined_path(dir2, rel2);
    assert(a[a.len() - 1] == rel1[rel1.len() - 1]);
    assert(b[b.len() - 1] == rel2[rel2.len() - 1]);
    if a == b {
        assert(a[a.len() - 1] == b[b.len() - 1]);
        assert(false);
    }
}

/// Whether the fixed places (roots, cwd, home) are the same in both states.
pub open spec fn same_places<F: FileSystem>(a: &F, b: &F) -> bool {
    a.denv_dir() == b.denv_dir() && a.cwd_dir() == b.cwd_dir() && a.home_dir() == b.home_dir()
}

/// Whether nothing observable distinguishes the two states.
pub open spec fn fs_unchanged<F: FileSystem>(a: &F, b: &F) -> bool {
    same_places(a, b) && a.files() == b.files() && a.links() == b.links() && a.execs() == b.execs()
}

/// The filesystem capability the library's logic runs against.
///
/// An operation on one path touches no other path: even a failing call leaves
/// everything but its own target as it was.
pub trait FileSystem: Sized {
    /// The root directory under which caches and environments live.
    open spec fn denv_dir(&self) -> Seq<char> {
        Seq::empty()
    }

    /// The current working directory.
    open spec fn cwd_dir(&self) -> Seq<char> {
        Seq::empty()
    }

    /// The user's home directory.
    open spec fn home_dir(&self) -> Seq<char> {
        Seq::empty()
    }

    /// The paths of the files that exist.
    open spec fn files(&self) -> Set<Seq<char>> {
        Set::empty()
    }

    /// The symlinks, as a map from destination to source.
    open spec fn links(&self) -> Map<Seq<char>, Seq<char>> {
        Map::empty()
    }

    /// The paths whose executable bit is set.
    open spec fn execs(&self) -> Set<Seq<char>> {
        Set::empty()
    }

    /// The current working directory.
    fn cwd(&self) -> (r: Result<String, FileSystemError>)
        ensures
            r matches Ok(p) ==> p@ == self.cwd_dir(),
    ;

    /// The user's home directory.
    fn home_dirpath(&self) -> (r: Result<String, FileSystemError>)
        ensures
            r matches Ok(p) ==> p@ == self.home_dir(),
    ;

    /// Creates the cache directory of `(name, version)` if it is absent and
    /// returns its path.
    fn ensure_software_dir(&mut self, name: &str, version: &str) -> (r: Result<
        String,
        FileSystemError,
    >)
        ensures
            final(self).denv_dir() == old(self).denv_dir(),
            final(self).cwd_dir() == old(self).cwd_dir(),
            final(self).home_dir() == old(self).home_dir(),
            final(self).files() == old(self).files(),
            final(self).links() == old(self).links(),
            final(self).execs() == old(self).execs(),
            r matches Ok(p) ==> p@ == software_dir_path(old(self).denv_dir(), name@, version@),
    ;

    /// Creates the environment directory of the project at `project_dirpath`
    /// if it is absent and returns its path.
    fn ensure_env_dir(&mut self, project_dirpath: &str) -> (r: Result<String, FileSystemError>)
        ensures
            final(self).denv_dir() == old(self).denv_dir(),
            final(self).cwd_dir() == old(self).cwd_dir(),
            final(self).home_dir() == old(self).home_dir(),
            final(self).files() == old(self).files(),
            final(self).links() == old(self).links(),
            final(self).execs() == old(self).execs(),
            r matches Ok(p) ==> p@ == env_dir_path(old(self).denv_dir(), project_dirpath@),
    ;

    /// Whether a file exists at `path`.
    fn file_exists(&self, path: &str) -> (r: bool)
        ensures
            r == self.files().contains(path@),
    ;

    /// Writes `data` to the file at `path`, creating it and its parent
    /// directories as needed.
    fn write_file(&mut self, path: &str, data: &Vec<u8>) -> (r: Result<(), FileSystemError>)
        ensures
            final(self).denv_dir() == old(self).denv_dir(),
            final(self).cwd_dir() == old(self).cwd_dir(),
            final(self).home_dir() == old(self).home_dir(),
            final(self).links() == old(self).links(),
            final(self).execs() == old(self).execs(),
            r is Ok ==> final(self).files() == old(self).files().insert(path@),
            r is Err ==> files_agree_except(final(self).files(), old(self).files(), path@),
    ;

    /// Sets the executable bit of the file at `path`; fails when no file is
    /// there.
    fn make_executable(&mut self, path: &str) -> (r: Result<(), FileSystemError>)
        ensures
            final(self).denv_dir() == old(self).denv_dir(),
            final(self).cwd_dir() == old(self).cwd_dir(),
            final(self).home_dir() == old(self).home_dir(),
            final(self).files() == old(self).files(),
            final(self).links() == old(self).links(),
            r is Ok ==> old(self).files().contains(path@) && final(self).execs() == old(
                self,
            ).execs().insert(path@),
            r is Err ==> files_agree_except(final(self).execs(), old(self).execs(), path@),
    ;

    /// Points the symlink at `dest` to `src`, replacing whatever symlink was
    /// there before.
    fn ensure_symlink(&mut self, src: &str, dest: &str) -> (r: Result<(), FileSystemError>)
        ensures
            final(self).denv_dir() == old(self).denv_dir(),
            final(self).cwd_dir() == old(self).cwd_dir(),
            final(self).home_dir() == old(self).home_dir(),
            final(self).files() == old(self).files(),
            final(self).execs() == old(self).execs(),
            r is Ok ==> final(self).links() == old(self).links().insert(dest@, src@),
            r is Err ==> links_agree_except(final(self).links(), old(self).links(), dest@),
    ;

    /// Removes the environment directory of the project at `project_dirpath`,
    /// with everything in it: on success no symlink destination under that
    /// directory remains.
    fn delete_env_dir(&mut self, project_dirpath: &str) -> (r: Result<(), FileSystemError>)
        ensures
            final(self).denv_dir() == old(self).denv_dir(),
            final(self).cwd_dir() == old(self).cwd_dir(),
            final(self).home_dir() == old(self).home_dir(),
            r is Ok ==> forall|d: Seq<char>| #[trigger]
                final(self).links().contains_key(d) ==> !has_prefix(
                    d,
                    env_dir_path(old(self).denv_dir(), project_dirpath@) + "/"@,
                ),
    ;
}

/// The standard on-disk layout: where caches, environments and temporary
/// files are placed under the two root directories.
#[derive(Clone, Debug, PartialEq, Eq)]
pub struct DefaultFileSystem {
    pub denv_dirpath: String,
    pub tmp_dirpath: String,
}

impl DefaultFileSystem {
    pub fn new(denv_dirpath: String, tmp_dirpath: String) -> (r: DefaultFileSystem)
        ensures
            r.denv_dirpath == denv_dirpath,
            r.tmp_dirpath == tmp_dirpath,
    {
        DefaultFileSystem { denv_dirpath, tmp_dirpath }
    }

    /// The cache directory of one software version.
    pub fn software_dirpath(&self, name: &str, version: &str) -> (r: String)
        ensures
            r@ == software_dir_path(self.denv_dirpath@, name@, version@),
    {
        let mut s = self.denv_dirpath.clone();
        s.append("/softwares/");
        s.append(name);
        s.append("/");
        s.append(version);
        s
    }

    /// The environment directory of one project.
    pub fn env_dirpath(&self, project_dirpath: &str) -> (r: String)
        ensures
            r@ == env_dir_path(self.denv_dirpath@, project_dirpath@),
    {
        let env = crate::environment::Environment::new(project_dirpath.to_owned());
        let mut s = self.denv_dirpath.clone();
        s.append("/environments/");
        s.append(env.id());
        s
    }
}

/// `joined_path`, executably.
pub fn join_path(dir: &str, rel: &str) -> (r: String)
    ensures
        r@ == joined_path(dir@, rel@),
{
    let mut s = dir.to_owned();
    s.append("/");
    s.append(rel);
    s
}

} // verus!
