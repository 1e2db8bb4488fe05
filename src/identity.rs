//! Identities as resolved from the user directory, and the errors of the OS layer.
use vstd::prelude::*;

verus! {

/// The error number for "operation not permitted".
pub const EPERM: i32 = 1;

/// The error number for "no such file or directory / entry".
pub const ENOENT: i32 = 2;

/// An owned copy of a user record, taken once from the user directory.
#[derive(Debug)]
pub struct User {
    pub name: String,
    pub user_id: u32,
    /// Primary group id.
    pub group_id: u32,
    /// Supplementary group ids, in the order the directory lists them.
    pub groups: Vec<u32>,
    pub home: String,
    pub shell: String,
}

/// The administrative account's user id.
pub const ROOT_ID: u32 = 0;

/// A failure reported by the OS layer.
#[derive(Debug, Clone, Copy, PartialEq, Eq, Structural)]
pub enum LinuxError {
    MissingPermission,
    NotFound,
    InvalidString,
    Other(i32),
}

impl LinuxError {
    /// Classifies an `errno` value.
    pub fn from_errno(code: i32) -> (r: LinuxError)
        ensures
            code == EPERM ==> r == LinuxError::MissingPermission,
            code == ENOENT ==> r == LinuxError::NotFound,
            code != EPERM && code != ENOENT ==> r == LinuxError::Other(code),
    {
        if code == EPERM {
            LinuxError::MissingPermission
        } else if code == ENOENT {
            LinuxError::NotFound
        } else {
            LinuxError::Other(code)
        }
    }
}

/// A copy of a list of ids.
pub fn copy_ids(ids: &Vec<u32>) -> (r: Vec<u32>)
    ensures
        r@ == ids@,
{
    let mut r: Vec<u32> = Vec::new();
    let mut i: usize = 0;
    while i < ids.len()
        invariant
            i <= ids.len(),
            r@ == ids@.take(i as int),
        decreases ids.len() - i,
    {
        r.push(ids[i]);
        i = i + 1;
        assert(r@ =~= ids@.take(i as int));
    }
    assert(ids@.take(ids.len() as int) =~= ids@);
    r
}

} // verus!
