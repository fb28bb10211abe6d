//! The calls into outside crates that ask the host system something.
//! Their answers depend on the machine, so their contracts promise nothing
//! about them unless the crate's source fixes the answer.

use vstd::prelude::*;

verus! {

/// Calls `which::which` and reports whether it found an executable named
/// `name` on the search path. The answer depends on `PATH` and on what is on
/// disk, so nothing is promised of it.
#[verifier::external_body]
pub(crate) fn on_path(name: &str) -> (found: bool) {
    which::which(name).is_ok()
}

/// Calls `nix::unistd::Uid::effective` (`geteuid`) and returns the raw user
/// id. It depends on the running process, so nothing is promised of it.
#[verifier::external_body]
pub(crate) fn effective_uid() -> (uid: u32) {
    nix::unistd::Uid::effective().as_raw()
}

/// Calls `nix::unistd::Uid::is_root` on the user id `uid`. Its source
/// compares the id with `ROOT`, which is `Uid(0)`: the result is whether
/// `uid` is zero.
#[verifier::external_body]
pub(crate) fn uid_is_root(uid: u32) -> (root: bool)
    ensures
        root == (uid == 0),
{
    nix::unistd::Uid::from_raw(uid).is_root()
}

} // verus!
