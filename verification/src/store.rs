//! Where the plugin keeps its state: `state.json` and `state.lock` in the plugin's
//! state directory.
use vstd::prelude::*;

verus! {

/// The name of the state file.
pub const STATE_FILE_NAME: &'static str = "state.json";

/// The name of the lock file.
pub const LOCK_FILE_NAME: &'static str = "state.lock";

/// `std::path::PathBuf`, the owned state directory and the file paths in it.
#[verifier::external_type_specification]
#[verifier::external_body]
pub struct ExPathBuf(std::path::PathBuf);

/// `std::path::Path`, a borrowed path.
#[verifier::external_type_specification]
#[verifier::external_body]
pub struct ExPath(std::path::Path);

/// What a `PathBuf` holds: its path as the platform's encoded bytes
/// (`as_os_str().as_encoded_bytes()`).
pub uninterp spec fn path_buf_bytes(path: std::path::PathBuf) -> Seq<u8>;

/// What a `Path` holds: its path as the platform's encoded bytes
/// (`as_os_str().as_encoded_bytes()`).
pub uninterp spec fn path_bytes(path: &std::path::Path) -> Seq<u8>;

/// The bytes of the path that `Path::join` makes of a directory and a name, given by
/// their contents.
pub uninterp spec fn joined_path_bytes(dir: Seq<u8>, name: Seq<char>) -> Seq<u8>;

/// Calls `Path::to_path_buf`.
/// Claimed: the owned path holds the same path as the borrowed one.
#[verifier::external_body]
fn owned_path(path: &std::path::Path) -> (res: std::path::PathBuf)
    ensures
        path_buf_bytes(res) == path_bytes(path),
{
    path.to_path_buf()
}

/// Calls `Path::join`.
/// Claimed: the result is the path named by `joined_path_bytes` for the directory's
/// contents and the name; `join` depends on nothing else.
#[verifier::external_body]
fn joined_path(dir: &std::path::Path, name: &str) -> (res: std::path::PathBuf)
    ensures
        path_buf_bytes(res) == joined_path_bytes(path_bytes(dir), name@),
{
    dir.join(name)
}

/// Calls `PathBuf::as_path`.
/// Claimed: the borrowed path holds the same path as the owned one.
#[verifier::external_body]
fn borrowed_path(path: &std::path::PathBuf) -> (res: &std::path::Path)
    ensures
        path_bytes(res) == path_buf_bytes(*path),
{
    path.as_path()
}

/// The plugin's state directory.
pub struct StateStore {
    state_dir: std::path::PathBuf,
}

impl View for StateStore {
    type V = Seq<u8>;

    /// The state directory's path, as encoded bytes.
    closed spec fn view(&self) -> Seq<u8> {
        path_buf_bytes(self.state_dir)
    }
}

impl StateStore {
    pub fn new(state_dir: &std::path::Path) -> (res: Self)
        ensures
            res@ == path_bytes(state_dir),
    {
        StateStore { state_dir: owned_path(state_dir) }
    }

    /// The state directory.
    pub fn state_dir(&self) -> (res: &std::path::Path)
        ensures
            path_bytes(res) == self@,
    {
        borrowed_path(&self.state_dir)
    }

    /// The path of `state.json`.
    pub fn state_path(&self) -> (res: std::path::PathBuf)
        ensures
            path_buf_bytes(res) == joined_path_bytes(self@, "state.json"@),
    {
        joined_path(borrowed_path(&self.state_dir), STATE_FILE_NAME)
    }

    /// The path of `state.lock`.
    pub fn lock_path(&self) -> (res: std::path::PathBuf)
        ensures
            path_buf_bytes(res) == joined_path_bytes(self@, "state.lock"@),
    {
        joined_path(borrowed_path(&self.state_dir), LOCK_FILE_NAME)
    }
}

} // verus!
