//! Segments of the two transports.
use vstd::prelude::*;

verus! {

/// A segment: a shared-memory name, or a segment under a root directory.
#[derive(Clone, Debug)]
pub enum SegmentHandle {
    Shm { name: String },
    Mmap { root: String, segment: String },
}

impl SegmentHandle {
    /// A shared-memory segment.
    pub fn shm(name: &str) -> (r: SegmentHandle)
        ensures
            r is Shm,
            r->name@ == name@,
    {
        SegmentHandle::Shm { name: name.to_owned() }
    }

    /// A memory-mapped segment.
    pub fn mmap(root: &str, segment: &str) -> (r: SegmentHandle)
        ensures
            r is Mmap,
            r->root@ == root@,
            r->segment@ == segment@,
    {
        SegmentHandle::Mmap { root: root.to_owned(), segment: segment.to_owned() }
    }

    /// The name to show.
    pub fn display_name(&self) -> (r: &str)
        ensures
            r@ == match *self {
                SegmentHandle::Shm { name } => name@,
                SegmentHandle::Mmap { root, segment } => segment@,
            },
    {
        match self {
            SegmentHandle::Shm { name } => name.as_str(),
            SegmentHandle::Mmap { root: _, segment } => segment.as_str(),
        }
    }

    /// The name of the transport.
    pub fn backend_label(&self) -> (r: &'static str)
        ensures
            r@ == match *self {
                SegmentHandle::Shm { name } => "shm"@,
                SegmentHandle::Mmap { root, segment } => "mmap"@,
            },
    {
        match self {
            SegmentHandle::Shm { .. } => "shm",
            SegmentHandle::Mmap { .. } => "mmap",
        }
    }

    /// The directory to remove after a run. Shared memory goes with its last
    /// user.
    pub fn cleanup(&self) -> (r: Option<&str>)
        ensures
            match *self {
                SegmentHandle::Shm { name } => r is None,
                SegmentHandle::Mmap { root, segment } => r is Some && r->0@ == root@,
            },
    {
        match self {
            SegmentHandle::Shm { .. } => None,
            SegmentHandle::Mmap { root, segment: _ } => Some(root.as_str()),
        }
    }
}

} // verus!
