//! Shared configuration: the filesystem paths this system operates on.
//!
//! Loading the configuration file is the embedding program's business; the
//! derived paths are computed here. Paths are held in their textual form.
use crate::codec::{chars_to_string, push_lit, string_to_chars};
use crate::lockfile::LockfileHandle;
use vstd::prelude::*;

verus! {

/// Joining a directory and a file name with a single separator.
pub open spec fn join_path(dir: Seq<char>, name: Seq<char>) -> Seq<char> {
    if dir.len() == 0 {
        name
    } else if dir[dir.len() - 1] == '/' {
        dir + name
    } else {
        dir + seq!['/'] + name
    }
}

/// Appends `name` to the directory `dir`, adding a separator where one is
/// missing.
pub fn path_join(dir: &str, name: &str) -> (r: String)
    ensures
        r@ == join_path(dir@, name@),
{
    let mut chars = string_to_chars(dir);
    if chars.len() > 0 {
        let last = chars.len() - 1;
        if chars[last] != '/' {
            chars.push('/');
        }
    }
    push_lit(&mut chars, name);
    proof {
        if dir@.len() > 0 && dir@[dir@.len() - 1] != '/' {
            assert(chars@ =~= dir@ + seq!['/'] + name@);
        }
    }
    chars_to_string(&chars)
}

/// The shared configuration: the domain's name and the directories the
/// queue, the media library and its bookkeeping files live in.
#[derive(Debug, Clone)]
pub struct Config {
    /// Name of the shared domain.
    pub domain_name: String,
    /// Directory of the shared data repository.
    pub shared_data_repo_path: String,
    /// Directory of the default media library.
    pub default_library_dir_path: String,
}

/// The mathematical value of a configuration.
pub struct ConfigView {
    pub domain_name: Seq<char>,
    pub shared_data_repo_path: Seq<char>,
    pub default_library_dir_path: Seq<char>,
}

impl View for Config {
    type V = ConfigView;

    open spec fn view(&self) -> ConfigView {
        ConfigView {
            domain_name: self.domain_name@,
            shared_data_repo_path: self.shared_data_repo_path@,
            default_library_dir_path: self.default_library_dir_path@,
        }
    }
}

impl Config {
    /// Where the shared library database lives.
    pub fn library_database_path(&self) -> (r: String)
        ensures
            r@ == join_path(self@.shared_data_repo_path, "library_database.json"@),
    {
        path_join(self.shared_data_repo_path.as_str(), "library_database.json")
    }

    /// Where the default library's index lives.
    pub fn default_library_index_path(&self) -> (r: String)
        ensures
            r@ == join_path(self@.default_library_dir_path, "library_index.json"@),
    {
        path_join(self.default_library_dir_path.as_str(), "library_index.json")
    }

    /// Where the default library's hash cache lives.
    pub fn default_library_cache_path(&self) -> (r: String)
        ensures
            r@ == join_path(self@.default_library_dir_path, "library_cache.json"@),
    {
        path_join(self.default_library_dir_path.as_str(), "library_cache.json")
    }

    /// Where the default library's auxiliary data lives.
    pub fn default_library_aux_data_path(&self) -> (r: String)
        ensures
            r@ == join_path(self@.default_library_dir_path, "library_aux.json"@),
    {
        path_join(self.default_library_dir_path.as_str(), "library_aux.json")
    }
}

/// A configuration together with the lock handle guarding its file, as
/// `read_safe` of the embedding program hands it out.
#[derive(Debug)]
pub struct ConfigLock {
    /// The configuration that was read.
    pub inner: Config,
    /// The lock handle guarding the configuration file.
    pub lockfile: LockfileHandle,
}

impl ConfigLock {
    /// A locked configuration, built by the embedding program once it holds
    /// the lock on the configuration file.
    pub fn new(inner: Config, lockfile: LockfileHandle) -> (r: ConfigLock)
        ensures
            r.inner@ == inner@,
            r.lockfile == lockfile,
    {
        ConfigLock { inner, lockfile }
    }
}

} // verus!
