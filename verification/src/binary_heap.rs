//! Jobs for named files with a one-byte size, scheduled smallest file first.
use vstd::prelude::*;

use std::cmp::Ordering;

use crate::priority_queue::{is_top, Prioritized};

verus! {

/// A job for the file `filename` of `filesize` bytes.
#[derive(Debug)]
pub struct FileJob {
    filename: String,
    filesize: u8,
}

/// How two jobs compare: the job for the smaller file is the greater.
pub open spec fn size_order(a: u8, b: u8) -> Ordering {
    if a < b {
        Ordering::Greater
    } else if a > b {
        Ordering::Less
    } else {
        Ordering::Equal
    }
}

impl FileJob {
    /// The name of the file.
    pub closed spec fn name_of(&self) -> Seq<char> {
        self.filename@
    }

    /// The size of the file.
    pub closed spec fn size_of(&self) -> u8 {
        self.filesize
    }

    /// A job for the file `file_name` of `file_size` bytes.
    pub fn new(file_name: String, file_size: u8) -> (r: FileJob)
        ensures
            r.name_of() == file_name@,
            r.size_of() == file_size,
    {
        FileJob { filename: file_name, filesize: file_size }
    }

    /// The name of the file.
    pub fn filename(&self) -> (r: &String)
        ensures
            r@ == self.name_of(),
    {
        &self.filename
    }

    /// The size of the file.
    pub fn filesize(&self) -> (r: u8)
        ensures
            r == self.size_of(),
    {
        self.filesize
    }

    /// Compares two jobs by file size: the smaller file is the greater job.
    pub fn cmp(&self, other: &Self) -> (o: Ordering)
        ensures
            o == size_order(self.size_of(), other.size_of()),
    {
        if self.filesize < other.filesize {
            Ordering::Greater
        } else if self.filesize > other.filesize {
            Ordering::Less
        } else {
            Ordering::Equal
        }
    }

    /// `cmp`, which orders every pair of jobs.
    pub fn partial_cmp(&self, other: &Self) -> (o: Option<Ordering>)
        ensures
            o == Some(size_order(self.size_of(), other.size_of())),
    {
        Some(self.cmp(other))
    }

    /// Two jobs are equal when their files have the same size.
    pub fn eq(&self, other: &Self) -> (b: bool)
        ensures
            b == (self.size_of() == other.size_of()),
    {
        self.filesize == other.filesize
    }
}

impl Prioritized for FileJob {
    /// Smaller files have higher priority.
    open spec fn priority(&self) -> u64 {
        (255 - self.size_of()) as u64
    }

    fn priority_key(&self) -> (k: u64) {
        (255 - self.filesize) as u64
    }
}

/// Law: of two jobs, the one for the strictly smaller file has the strictly higher
/// priority, and jobs for files of equal size have equal priority.
pub proof fn law_smaller_file_higher_priority(a: FileJob, b: FileJob)
    ensures
        a.size_of() < b.size_of() ==> b.priority() < a.priority(),
        a.size_of() == b.size_of() ==> a.priority() == b.priority(),
{
}

/// Law: the job that a queue of these jobs hands out next is one for the smallest
/// file queued.
pub proof fn law_smallest_job_first(queued: Seq<FileJob>, next: FileJob)
    requires
        is_top(queued, next),
    ensures
        forall|i: int| 0 <= i < queued.len() ==> next.size_of() <= (#[trigger] queued[i]).size_of(),
{
    assert forall|i: int| 0 <= i < queued.len() implies next.size_of() <= (
    #[trigger] queued[i]).size_of() by {
        assert(queued[i].priority() <= next.priority());
    }
}

} // verus!
