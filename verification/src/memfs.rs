//! An in-memory filesystem: the state the `FileSystem` contracts describe,
//! held in plain vectors and verified against those contracts.
//!
//! It shows the capability trait is implementable as stated, and it is what
//! the library is exercised against where no real disk should be touched.
//! Each failure switch makes one operation fail without touching anything,
//! so callers' error handling can be exercised too.

use vstd::prelude::*;
use crate::error::FileSystemError;
use crate::error::IoError;
use crate::fs::DefaultFileSystem;
use crate::fs::FileSystem;
use crate::fs::env_dir_path;
use crate::fs::software_dir_path;
use crate::text::str_eq;

verus! {

/// Whether some element of `paths` holds the characters `p`.
pub open spec fn has_path(paths: Seq<String>, p: Seq<char>) -> bool {
    exists|i: int| 0 <= i < paths.len() && (#[trigger] paths[i])@ == p
}

/// The source of the first link entry whose destination is `d`.
pub open spec fn first_link(entries: Seq<(String, String)>, d: Seq<char>) -> Option<Seq<char>>
    decreases entries.len(),
{
    if entries.len() == 0 {
        None
    } else if entries[0].0@ == d {
        Some(entries[0].1@)
    } else {
        first_link(entries.drop_first(), d)
    }
}

/// A destination that `first_link` resolves appears in the entry list.
proof fn lemma_first_link_witness(entries: Seq<(String, String)>, d: Seq<char>)
    requires
        first_link(entries, d) is Some,
    ensures
        exists|j: int| 0 <= j < entries.len() && (#[trigger] entries[j]).0@ == d,
    decreases entries.len(),
{
    if entries.len() > 0 {
        if entries[0].0@ == d {
            assert(entries[0].0@ == d);
        } else {
            lemma_first_link_witness(entries.drop_first(), d);
            let j = choose|j: int|
                0 <= j < entries.drop_first().len() && (#[trigger] entries.drop_first()[j]).0@
                    == d;
            assert(entries[j + 1].0@ == d);
        }
    }
}

/// The set of paths a path vector stands for.
pub open spec fn path_set(paths: Seq<String>) -> Set<Seq<char>> {
    Set::new(|p: Seq<char>| has_path(paths, p))
}

/// The map a link-entry vector stands for; the newest entry of a destination
/// stands at the front and wins.
pub open spec fn link_map(entries: Seq<(String, String)>) -> Map<Seq<char>, Seq<char>> {
    Map::new(|d: Seq<char>| first_link(entries, d) is Some, |d: Seq<char>| first_link(entries, d).unwrap())
}

/// An in-memory filesystem state, with switchable failures.
#[derive(Clone, Debug, PartialEq, Eq)]
pub struct MemFileSystem {
    pub denv_dirpath: String,
    pub cwd_dirpath: String,
    pub home_path: String,
    /// The files that exist.
    pub file_paths: Vec<String>,
    /// The files whose executable bit is set.
    pub exec_paths: Vec<String>,
    /// The symlinks, newest first: `(destination, source)`.
    pub link_entries: Vec<(String, String)>,
    pub fail_cwd: bool,
    pub fail_ensure_software_dir: bool,
    pub fail_ensure_env_dir: bool,
    pub fail_write_file: bool,
    pub fail_make_executable: bool,
    pub fail_delete_env_dir: bool,
    /// The symlink destinations whose creation fails.
    pub fail_symlink_dests: Vec<String>,
}

impl MemFileSystem {
    /// A filesystem rooted at the given places, holding nothing.
    pub fn new(denv_dirpath: String, cwd_dirpath: String, home_path: String) -> (r: MemFileSystem)
        ensures
            r.denv_dir() == denv_dirpath@,
            r.cwd_dir() == cwd_dirpath@,
            r.home_dir() == home_path@,
            r.files() =~= Set::<Seq<char>>::empty(),
            r.links() =~= Map::<Seq<char>, Seq<char>>::empty(),
            r.execs() =~= Set::<Seq<char>>::empty(),
    {
        MemFileSystem {
            denv_dirpath,
            cwd_dirpath,
            home_path,
            file_paths: Vec::new(),
            exec_paths: Vec::new(),
            link_entries: Vec::new(),
            fail_cwd: false,
            fail_ensure_software_dir: false,
            fail_ensure_env_dir: false,
            fail_write_file: false,
            fail_make_executable: false,
            fail_delete_env_dir: false,
            fail_symlink_dests: Vec::new(),
        }
    }
}

/// The error every switched-on failure reports.
fn refused(path: &str) -> (r: FileSystemError)
    ensures
        r.path@ == path@,
{
    FileSystemError::new(path.to_owned(), IoError::new("permission denied".to_owned()))
}

/// Whether some element of `paths` holds the characters of `p`.
fn contains_path(paths: &Vec<String>, p: &str) -> (r: bool)
    ensures
        r == has_path(paths@, p@),
{
    let mut i: usize = 0;
    while i < paths.len()
        invariant
            i <= paths@.len(),
            forall|j: int| 0 <= j < i ==> (#[trigger] paths@[j])@ != p@,
        decreases paths@.len() - i,
    {
        if str_eq(paths[i].as_str(), p) {
            return true;
        }
        i += 1;
    }
    false
}

/// Appends a path, growing the set it stands for by that path.
fn push_path(paths: &mut Vec<String>, p: &str)
    ensures
        path_set(final(paths)@) == path_set(old(paths)@).insert(p@),
{
    paths.push(p.to_owned());
    proof {
        assert forall|q: Seq<char>| #[trigger]
            has_path(paths@, q) == (has_path(old(paths)@, q) || q == p@) by {
            if has_path(paths@, q) {
                let i = choose|i: int| 0 <= i < paths@.len() && (#[trigger] paths@[i])@ == q;
                if i < old(paths)@.len() {
                    assert(old(paths)@[i]@ == q);
                }
            }
            if has_path(old(paths)@, q) {
                let i = choose|i: int|
                    0 <= i < old(paths)@.len() && (#[trigger] old(paths)@[i])@ == q;
                assert(paths@[i]@ == q);
            }
            if q == p@ {
                assert(paths@[paths@.len() - 1]@ == q);
            }
        }
        assert(path_set(paths@) =~= path_set(old(paths)@).insert(p@));
    }
}

impl FileSystem for MemFileSystem {
    open spec fn denv_dir(&self) -> Seq<char> {
        self.denv_dirpath@
    }

    open spec fn cwd_dir(&self) -> Seq<char> {
        self.cwd_dirpath@
    }

    open spec fn home_dir(&self) -> Seq<char> {
        self.home_path@
    }

    open spec fn files(&self) -> Set<Seq<char>> {
        path_set(self.file_paths@)
    }

    open spec fn links(&self) -> Map<Seq<char>, Seq<char>> {
        link_map(self.link_entries@)
    }

    open spec fn execs(&self) -> Set<Seq<char>> {
        path_set(self.exec_paths@)
    }

    fn cwd(&self) -> (r: Result<String, FileSystemError>)
        ensures
            r matches Ok(p) ==> p@ == self.cwd_dir(),
    {
        if self.fail_cwd {
            Err(refused("."))
        } else {
            Ok(self.cwd_dirpath.clone())
        }
    }

    fn home_dirpath(&self) -> (r: Result<String, FileSystemError>)
        ensures
            r matches Ok(p) ==> p@ == self.home_dir(),
    {
        Ok(self.home_path.clone())
    }

    fn ensure_software_dir(&mut self, name: &str, version: &str) -> (r: Result<
        String,
        FileSystemError,
    >)
        ensures
            final(self).denv_dir() == old(self).denv_dir(),
            final(self).cwd_dir() == old(self).cwd_dir(),
            final(self).home_dir() == old(self).home_dir(),
            final(self).files() == old(self).files(),
            final(self).links() == old(self).links(),
            final(self).execs() == old(self).execs(),
            r matches Ok(p) ==> p@ == software_dir_path(old(self).denv_dir(), name@, version@),
    {
        if self.fail_ensure_software_dir {
            Err(refused(name))
        } else {
            let layout = DefaultFileSystem::new(self.denv_dirpath.clone(), String::new());
            Ok(layout.software_dirpath(name, version))
        }
    }

    fn ensure_env_dir(&mut self, project_dirpath: &str) -> (r: Result<String, FileSystemError>)
        ensures
            final(self).denv_dir() == old(self).denv_dir(),
            final(self).cwd_dir() == old(self).cwd_dir(),
            final(self).home_dir() == old(self).home_dir(),
            final(self).files() == old(self).files(),
            final(self).links() == old(self).links(),
            final(self).execs() == old(self).execs(),
            r matches Ok(p) ==> p@ == env_dir_path(old(self).denv_dir(), project_dirpath@),
    {
        if self.fail_ensure_env_dir {
            Err(refused(project_dirpath))
        } else {
            let layout = DefaultFileSystem::new(self.denv_dirpath.clone(), String::new());
            Ok(layout.env_dirpath(project_dirpath))
        }
    }

    fn file_exists(&self, path: &str) -> (r: bool)
        ensures
            r == self.files().contains(path@),
    {
        contains_path(&self.file_paths, path)
    }

    fn write_file(&mut self, path: &str, data: &Vec<u8>) -> (r: Result<(), FileSystemError>)
        ensures
            final(self).denv_dir() == old(self).denv_dir(),
            final(self).cwd_dir() == old(self).cwd_dir(),
            final(self).home_dir() == old(self).home_dir(),
            final(self).links() == old(self).links(),
            final(self).execs() == old(self).execs(),
            r is Ok ==> final(self).files() == old(self).files().insert(path@),
            r is Err ==> crate::fs::files_agree_except(
                final(self).files(),
                old(self).files(),
                path@,
            ),
    {
        if self.fail_write_file {
            return Err(refused(path));
        }
        push_path(&mut self.file_paths, path);
        Ok(())
    }

    fn make_executable(&mut self, path: &str) -> (r: Result<(), FileSystemError>)
        ensures
            final(self).denv_dir() == old(self).denv_dir(),
            final(self).cwd_dir() == old(self).cwd_dir(),
            final(self).home_dir() == old(self).home_dir(),
            final(self).files() == old(self).files(),
            final(self).links() == old(self).links(),
            r is Ok ==> old(self).files().contains(path@) && final(self).execs() == old(
                self,
            ).execs().insert(path@),
            r is Err ==> crate::fs::files_agree_except(
                final(self).execs(),
                old(self).execs(),
                path@,
            ),
    {
        if self.fail_make_executable {
            return Err(refused(path));
        }
        if !contains_path(&self.file_paths, path) {
            return Err(refused(path));
        }
        push_path(&mut self.exec_paths, path);
        Ok(())
    }

    fn ensure_symlink(&mut self, src: &str, dest: &str) -> (r: Result<(), FileSystemError>)
        ensures
            final(self).denv_dir() == old(self).denv_dir(),
            final(self).cwd_dir() == old(self).cwd_dir(),
            final(self).home_dir() == old(self).home_dir(),
            final(self).files() == old(self).files(),
            final(self).execs() == old(self).execs(),
            r is Ok ==> final(self).links() == old(self).links().insert(dest@, src@),
            r is Err ==> crate::fs::links_agree_except(
                final(self).links(),
                old(self).links(),
                dest@,
            ),
    {
        if contains_path(&self.fail_symlink_dests, dest) {
            return Err(refused(dest));
        }
        let ghost entries_before = self.link_entries@;
        self.link_entries.insert(0, (dest.to_owned(), src.to_owned()));
        proof {
            assert(self.link_entries@.drop_first() =~= entries_before);
            assert forall|d: Seq<char>| d != dest@ implies #[trigger] first_link(
                self.link_entries@,
                d,
            ) == first_link(entries_before, d) by {
                assert(self.link_entries@[0].0@ == dest@);
            }
            assert(first_link(self.link_entries@, dest@) == Some(src@));
            assert(link_map(self.link_entries@) =~= link_map(entries_before).insert(dest@, src@));
        }
        Ok(())
    }

    #[verifier::loop_isolation(false)]
    fn delete_env_dir(&mut self, project_dirpath: &str) -> (r: Result<(), FileSystemError>)
        ensures
            final(self).denv_dir() == old(self).denv_dir(),
            final(self).cwd_dir() == old(self).cwd_dir(),
            final(self).home_dir() == old(self).home_dir(),
            r is Ok ==> forall|d: Seq<char>| #[trigger]
                final(self).links().contains_key(d) ==> !crate::text::has_prefix(
                    d,
                    env_dir_path(old(self).denv_dir(), project_dirpath@) + "/"@,
                ),
    {
        if self.fail_delete_env_dir {
            return Err(refused(project_dirpath));
        }
        let layout = DefaultFileSystem::new(self.denv_dirpath.clone(), String::new());
        let mut env_dir = layout.env_dirpath(project_dirpath);
        env_dir.append("/");
        let mut kept_links: Vec<(String, String)> = Vec::new();
        let mut i: usize = 0;
        while i < self.link_entries.len()
            invariant
                i <= self.link_entries@.len(),
                forall|j: int|
                    0 <= j < kept_links@.len() ==> !crate::text::has_prefix(
                        (#[trigger] kept_links@[j]).0@,
                        env_dir@,
                    ),
            decreases self.link_entries@.len() - i,
        {
            if !crate::text::str_has_prefix(self.link_entries[i].0.as_str(), env_dir.as_str()) {
                kept_links.push(
                    (self.link_entries[i].0.clone(), self.link_entries[i].1.clone()),
                );
            }
            i += 1;
        }
        self.link_entries = kept_links;
        proof {
            assert forall|d: Seq<char>| #[trigger]
                link_map(self.link_entries@).contains_key(d) implies !crate::text::has_prefix(
                d,
                env_dir_path(old(self).denv_dir(), project_dirpath@) + "/"@,
            ) by {
                lemma_first_link_witness(self.link_entries@, d);
                let j = choose|j: int|
                    0 <= j < self.link_entries@.len() && (#[trigger] self.link_entries@[j]).0@
                        == d;
                assert(!crate::text::has_prefix(self.link_entries@[j].0@, env_dir@));
            }
        }
        Ok(())
    }
}

} // verus!
