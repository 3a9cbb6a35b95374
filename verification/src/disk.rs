//! What the file system is asked and what it answers.

use crate::path;
use crate::text;
use vstd::prelude::*;
use vstd::string::*;

verus! {

/// The kinds of failure of a file operation that the node tells apart.
#[derive(Clone, Copy, Debug, PartialEq, Eq, Structural)]
pub enum IoKind {
    NotFound,
    AlreadyExists,
    Other,
}

/// A failed file operation: its kind, and the message of the system.
#[derive(Debug)]
pub struct IoFailure {
    pub kind: IoKind,
    pub text: String,
}

/// A mounted disk: where it is mounted, and the bytes that are free on it.
#[derive(Debug)]
pub struct MountedDisk {
    pub mount_point: Vec<u8>,
    pub available_space: u64,
}

/// Why the free space below a path could not be told.
#[derive(Debug)]
pub enum DiskSpaceError {
    /// The path could not be resolved.
    NotResolved { storage_path: String },
    /// No mounted disk holds the path.
    NoDisk { storage_path: String },
}

impl DiskSpaceError {
    /// The text of `message`.
    pub open spec fn text(self) -> Seq<char> {
        match self {
            DiskSpaceError::NotResolved { storage_path } =>
                "Failed to canonicalize storage path for disk space check: "@ + path::shown_path(storage_path@)
                    + ". Ensure it exists."@,
            DiskSpaceError::NoDisk { storage_path } =>
                "Could not find a disk corresponding to the storage path: "@ + path::shown_path(storage_path@)
                    + ". Please check path and mounts."@,
        }
    }

    /// The message to show for this error.
    pub fn message(&self) -> (r: String)
        ensures
            r@ == self.text(),
    {
        match self {
            DiskSpaceError::NotResolved { storage_path } => text::concat3(
                "Failed to canonicalize storage path for disk space check: ",
                path::show_path(storage_path.as_str()).as_str(),
                ". Ensure it exists.",
            ),
            DiskSpaceError::NoDisk { storage_path } => text::concat3(
                "Could not find a disk corresponding to the storage path: ",
                path::show_path(storage_path.as_str()).as_str(),
                ". Please check path and mounts.",
            ),
        }
    }
}

/// The disk at index `i` is mounted above `p`, at a mount point with a name.
pub open spec fn disk_holds(disks: Seq<MountedDisk>, i: int, p: Seq<u8>) -> bool {
    &&& 0 <= i < disks.len()
    &&& disks[i].mount_point@.len() > 0
    &&& path::lies_under(p, disks[i].mount_point@)
}

/// Among the disks mounted above `p`, the one at index `i` has the longest mount point, and is
/// the first of those that have it.
pub open spec fn is_closest_disk(disks: Seq<MountedDisk>, i: int, p: Seq<u8>) -> bool {
    &&& disk_holds(disks, i, p)
    &&& forall|j: int|
        #[trigger] disk_holds(disks, j, p) ==> {
            &&& disks[j].mount_point@.len() <= disks[i].mount_point@.len()
            &&& j < i ==> disks[j].mount_point@.len() < disks[i].mount_point@.len()
        }
}

/// No disk is mounted above `p`, at a mount point with a name.
pub open spec fn no_disk_holds(disks: Seq<MountedDisk>, p: Seq<u8>) -> bool {
    forall|i: int| !#[trigger] disk_holds(disks, i, p)
}

/// The free space on the disk that holds the path `canonical`, the resolved form of
/// `storage_path`, or the reason why it is not known.
pub fn get_disk_available_space(
    storage_path: &str,
    canonical: Option<Vec<u8>>,
    disks: &Vec<MountedDisk>,
) -> (r: Result<u64, DiskSpaceError>)
    ensures
        match canonical {
            None => r matches Err(DiskSpaceError::NotResolved { storage_path: p }) && p@ == storage_path@,
            Some(c) => match r {
                Ok(space) => exists|i: int| #[trigger]
                    is_closest_disk(disks@, i, c@) && space == disks@[i].available_space,
                Err(DiskSpaceError::NoDisk { storage_path: p }) => p@ == storage_path@ && forall|i: int|
                    !disk_holds(disks@, i, c@),
                Err(_) => false,
            },
        },
        canonical matches Some(c) ==> (r is Err <==> no_disk_holds(disks@, c@)),
{
    let target = match canonical {
        None => {
            return Err(DiskSpaceError::NotResolved { storage_path: storage_path.to_owned() });
        },
        Some(c) => c,
    };
    let mut longest: usize = 0;
    let mut best: Option<usize> = None;
    let mut i: usize = 0;
    while i < disks.len()
        invariant
            i <= disks.len(),
            match best {
                None => longest == 0 && forall|j: int| 0 <= j < i ==> !disk_holds(disks@, j, target@),
                Some(b) => {
                    &&& b < i
                    &&& disk_holds(disks@, b as int, target@)
                    &&& longest == disks@[b as int].mount_point@.len()
                    &&& forall|j: int|
                        0 <= j < i && #[trigger] disk_holds(disks@, j, target@) ==> {
                            &&& disks@[j].mount_point@.len() <= longest
                            &&& j < b ==> disks@[j].mount_point@.len() < longest
                        }
                },
            },
        decreases disks.len() - i,
    {
        if path::path_starts_with(target.as_slice(), disks[i].mount_point.as_slice()) {
            let length: usize = disks[i].mount_point.len();
            if length > longest {
                longest = length;
                best = Some(i);
                assert(disk_holds(disks@, i as int, target@));
            }
        }
        i += 1;
    }
    match best {
        Some(b) => {
            assert(is_closest_disk(disks@, b as int, target@));
            Ok(disks[b].available_space)
        },
        None => Err(DiskSpaceError::NoDisk { storage_path: storage_path.to_owned() }),
    }
}

/// No two disks are the closest to one path, so the free space below a path is well defined.
pub proof fn closest_disk_is_unique(disks: Seq<MountedDisk>, i: int, j: int, p: Seq<u8>)
    requires
        is_closest_disk(disks, i, p),
        is_closest_disk(disks, j, p),
    ensures
        i == j,
{
}

} // verus!
