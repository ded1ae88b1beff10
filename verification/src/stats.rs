//! Which disks the periphery agent reports usage for.
use vstd::prelude::*;

use crate::sort::views;
use crate::text::{chars_eq, chars_of};

verus! {

/// Whether two paths are equal as `std::path::Path` compares them (component
/// by component, so that a trailing separator does not matter).
pub uninterp spec fn same_path(a: Seq<char>, b: Seq<char>) -> bool;

/// `Path::new(a) == Path::new(b)`; equality of paths is a function of the two
/// strings alone.
#[verifier::external_body]
fn paths_equal(a: &str, b: &str) -> (r: bool)
    ensures
        r == same_path(a@, b@),
{
    std::path::Path::new(a) == std::path::Path::new(b)
}

pub open spec fn listed(mount: Seq<char>, mounts: Seq<Seq<char>>) -> bool {
    exists|i: int| 0 <= i < mounts.len() && same_path(mount, #[trigger] mounts[i])
}

/// A disk is reported unless it is an overlay file system or its mount point
/// is excluded; when mount points are listed for inclusion, it must also be
/// one of them.
pub open spec fn disk_reported(file_system: Seq<char>, mount: Seq<char>, included_mounts: Seq<Seq<char>>, excluded_mounts: Seq<Seq<char>>) -> bool {
    &&& file_system != "overlay"@
    &&& !listed(mount, excluded_mounts)
    &&& (included_mounts.len() == 0 || listed(mount, included_mounts))
}

fn mount_listed(mount: &str, mounts: &Vec<String>) -> (r: bool)
    ensures
        r == listed(mount@, views(mounts@)),
{
    let ghost mv = views(mounts@);
    let mut i: usize = 0;
    while i < mounts.len()
        invariant
            mv == views(mounts@),
            i <= mounts@.len(),
            forall|j: int| 0 <= j < i ==> !same_path(mount@, #[trigger] mv[j]),
        decreases mounts@.len() - i,
    {
        assert(mv[i as int] == mounts@[i as int]@);
        if paths_equal(mount, mounts[i].as_str()) {
            return true;
        }
        i = i + 1;
    }
    false
}

pub fn disk_included(file_system: &str, mount: &str, included_mounts: &Vec<String>, excluded_mounts: &Vec<String>) -> (r: bool)
    ensures
        r == disk_reported(file_system@, mount@, views(included_mounts@), views(excluded_mounts@)),
{
    if chars_eq(&chars_of(file_system), &chars_of("overlay")) {
        return false;
    }
    if mount_listed(mount, excluded_mounts) {
        return false;
    }
    if included_mounts.len() == 0 {
        return true;
    }
    mount_listed(mount, included_mounts)
}

} // verus!
