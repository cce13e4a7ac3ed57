//! Plain values exchanged with the directory listings that enumerate the
//! library folders.

use vstd::prelude::*;

verus! {

/// What the list model reports to its observers after a change:
/// at `position`, `removed` items went away and `added` items came in.
#[derive(Debug, Clone, Copy, PartialEq, Eq, Structural)]
pub struct ItemsChanged {
    pub position: u32,
    pub removed: u32,
    pub added: u32,
}

/// Kind of a file reported by a directory listing.
#[derive(Debug, Clone, Copy, PartialEq, Eq, Structural)]
pub enum FileType {
    Unknown,
    Regular,
    Directory,
    SymbolicLink,
    Special,
    Shortcut,
    Mountable,
}

/// Indices of the items that a listing reported as new: when a listing
/// reports that at `pos` `removed` items went away and `added` items came
/// in, the new items are those at `pos..pos + added`.
pub fn enumerated_indices(pos: u32, removed: u32, added: u32) -> (r: Vec<u32>)
    requires
        pos + added <= u32::MAX + 1,
    ensures
        r@.len() == added,
        forall|i: int| 0 <= i < r@.len() ==> r@[i] == pos + i,
{
    let mut r: Vec<u32> = Vec::new();
    let mut i: u32 = 0;
    while i < added
        invariant
            0 <= i <= added,
            pos + added <= u32::MAX + 1,
            r@.len() == i,
            forall|k: int| 0 <= k < i ==> r@[k] == pos + k,
        decreases added - i,
    {
        r.push(pos + i);
        i = i + 1;
    }
    r
}

/// `dir` and `name` joined by a `/`.
pub open spec fn joined_path(dir: Seq<char>, name: Seq<char>) -> Seq<char> {
    dir + seq!['/'] + name
}

/// Joins a directory path and a file name with a `/`.
pub fn join_path(dir: &str, name: &str) -> (r: String)
    ensures
        r@ == joined_path(dir@, name@),
{
    let mut r = String::from_str(dir);
    let sep = "/";
    proof {
        reveal_strlit("/");
    }
    r.append(sep);
    r.append(name);
    r
}

} // verus!
