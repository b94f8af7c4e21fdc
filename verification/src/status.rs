//! File metadata: the native array of records that one query returned, and
//! the views that share it.

use libc::c_int;
use std::sync::Arc;
use vstd::prelude::*;

use crate::native::{record_count, FileInfo, NativeCall, NativeCallView, ObjectKind};

verus! {

/// The owner of the array of metadata records that one query returned: the
/// address of the array in native memory, the count that came with it, and
/// the records as read out of it. However many records it holds, it is one
/// array, shared by the views that look into it, and released as a whole, by
/// one call, when the last of them is gone.
#[derive(Debug)]
pub struct HdfsFileInfoPtr {
    ptr: u64,
    len: c_int,
    records: Vec<FileInfo>,
}

/// An array of records as plain values.
pub struct HdfsFileInfoPtrView {
    /// The address of the array in native memory.
    pub array: u64,
    /// The count that the array came with.
    pub len: c_int,
    /// The records of the array.
    pub records: Seq<FileInfo>,
}

impl View for HdfsFileInfoPtr {
    type V = HdfsFileInfoPtrView;

    closed spec fn view(&self) -> HdfsFileInfoPtrView {
        HdfsFileInfoPtrView { array: self.ptr, len: self.len, records: self.records@ }
    }
}

impl HdfsFileInfoPtr {
    #[verifier::type_invariant]
    spec fn sized(&self) -> bool {
        self.ptr != 0 && self.records@.len() == record_count(self.len)
    }

    /// Takes ownership of the single record of a status query: an array of one.
    pub fn new(ptr: u64, record: FileInfo) -> (guard: HdfsFileInfoPtr)
        requires
            ptr != 0,
        ensures
            guard@ == (HdfsFileInfoPtrView { array: ptr, len: 1, records: seq![record] }),
    {
        let mut records: Vec<FileInfo> = Vec::new();
        records.push(record);
        assert(records@ =~= seq![record]);
        HdfsFileInfoPtr { ptr, len: 1, records }
    }

    /// Takes ownership of the array of a directory listing.
    pub fn new_array(ptr: u64, len: c_int, records: Vec<FileInfo>) -> (guard: HdfsFileInfoPtr)
        requires
            ptr != 0,
            records@.len() == record_count(len),
        ensures
            guard@ == (HdfsFileInfoPtrView { array: ptr, len, records: records@ }),
    {
        HdfsFileInfoPtr { ptr, len, records }
    }

    /// The address of the array in native memory, which is never null.
    pub fn ptr(&self) -> (ptr: u64)
        ensures
            ptr == self@.array,
            ptr != 0,
    {
        proof {
            use_type_invariant(self);
        }
        self.ptr
    }

    /// The count that the array came with. The array holds as many records,
    /// and none where the count is not positive.
    pub fn len(&self) -> (len: c_int)
        ensures
            len == self@.len,
            self@.records.len() == record_count(len),
    {
        proof {
            use_type_invariant(self);
        }
        self.len
    }

    /// The one call that releases the array: the whole of it, by its address
    /// and with the count that it came with.
    pub fn release(&self) -> (call: NativeCall)
        ensures
            call@ == (NativeCallView::FreeFileInfo { array: self@.array, count: self@.len }),
    {
        NativeCall::FreeFileInfo { array: self.ptr, count: self.len }
    }
}

/// The client side information for a file or directory: a read-only view of
/// one record in a shared array.
#[derive(Debug)]
pub struct FileStatus {
    raw: Arc<HdfsFileInfoPtr>,
    idx: u32,
}

impl Clone for FileStatus {
    /// Another view of the same record, sharing the same array.
    fn clone(&self) -> (copy: Self)
        ensures
            copy.guard() == self.guard(),
            copy.index() == self.index(),
    {
        proof {
            use_type_invariant(self);
        }
        FileStatus { raw: Arc::clone(&self.raw), idx: self.idx }
    }
}

impl FileStatus {
    #[verifier::type_invariant]
    spec fn in_bounds(&self) -> bool {
        (self.idx as int) < self.raw@.records.len()
    }

    /// The array that the view looks into.
    pub closed spec fn guard(&self) -> HdfsFileInfoPtrView {
        self.raw@
    }

    /// The records of the array that the view looks into.
    pub open spec fn records(&self) -> Seq<FileInfo> {
        self.guard().records
    }

    /// The place of the view's record in the array.
    pub closed spec fn index(&self) -> int {
        self.idx as int
    }

    /// The record that the view shows.
    pub open spec fn info(&self) -> FileInfo {
        self.records()[self.index()]
    }

    /// The view of the single record of a status query.
    pub fn new(ptr: u64, record: FileInfo) -> (status: FileStatus)
        requires
            ptr != 0,
        ensures
            status.guard() == (HdfsFileInfoPtrView { array: ptr, len: 1, records: seq![record] }),
            status.index() == 0,
    {
        FileStatus { raw: Arc::new(HdfsFileInfoPtr::new(ptr, record)), idx: 0 }
    }

    /// The view of the record at `idx` in a shared array.
    pub fn from_array(raw: Arc<HdfsFileInfoPtr>, idx: u32) -> (status: FileStatus)
        requires
            idx < raw@.records.len(),
        ensures
            status.guard() == raw@,
            status.index() == idx,
    {
        FileStatus { raw, idx }
    }

    /// The one call that releases the array that the view looks into. It is
    /// the same for every view of the array, and is owed once, when the last
    /// of them is gone.
    pub fn release(&self) -> (call: NativeCall)
        ensures
            call@ == (NativeCallView::FreeFileInfo {
                array: self.guard().array,
                count: self.guard().len,
            }),
    {
        self.raw.release()
    }

    /// The record that the view shows.
    pub fn record(&self) -> (record: &FileInfo)
        ensures
            *record == self.info(),
    {
        proof {
            use_type_invariant(self);
            use_type_invariant(&*self.raw);
        }
        &self.raw.records[self.idx as usize]
    }

    /// Whether the entry is a file.
    pub open spec fn spec_is_file(&self) -> bool {
        self.info().kind == ObjectKind::File
    }

    /// Whether the entry is a directory.
    pub open spec fn spec_is_directory(&self) -> bool {
        self.info().kind == ObjectKind::Directory
    }

    /// Get the name of the file. The record has one where the native text is
    /// UTF-8.
    pub fn name(&self) -> (name: &str)
        requires
            self.info().name is Some,
        ensures
            name@ == self.info().name->0@,
    {
        self.record().name.as_ref().unwrap().as_str()
    }

    /// Is this a file?
    #[verifier::when_used_as_spec(spec_is_file)]
    pub fn is_file(&self) -> (file: bool)
        ensures
            file == self.spec_is_file(),
    {
        match self.record().kind {
            ObjectKind::File => true,
            ObjectKind::Directory => false,
        }
    }

    /// Is this a directory?
    #[verifier::when_used_as_spec(spec_is_directory)]
    pub fn is_directory(&self) -> (directory: bool)
        ensures
            directory == self.spec_is_directory(),
    {
        match self.record().kind {
            ObjectKind::File => false,
            ObjectKind::Directory => true,
        }
    }

    /// Get the owner of the file. The record has one where the native text is
    /// UTF-8.
    pub fn owner(&self) -> (owner: &str)
        requires
            self.info().owner is Some,
        ensures
            owner@ == self.info().owner->0@,
    {
        self.record().owner.as_ref().unwrap().as_str()
    }

    /// Get the group associated with the file. The record has one where the
    /// native text is UTF-8.
    pub fn group(&self) -> (group: &str)
        requires
            self.info().group is Some,
        ensures
            group@ == self.info().group->0@,
    {
        self.record().group.as_ref().unwrap().as_str()
    }

    /// Get the permissions associated with the file.
    pub fn permission(&self) -> (permission: i16)
        ensures
            permission == self.info().permissions,
    {
        self.record().permissions
    }

    /// Get the length of this file, in bytes: the native size, cut to the
    /// width of a `usize`.
    pub fn len(&self) -> (len: usize)
        ensures
            len == self.info().size as usize,
    {
        #[verifier::truncate]
        (self.record().size as usize)
    }

    /// Get the block size of the file: the native block size, cut to the
    /// width of a `usize`.
    pub fn block_size(&self) -> (block_size: usize)
        ensures
            block_size == self.info().block_size as usize,
    {
        #[verifier::truncate]
        (self.record().block_size as usize)
    }

    /// Get the replication factor of a file.
    pub fn replica_count(&self) -> (count: i16)
        ensures
            count == self.info().replication,
    {
        self.record().replication
    }

    /// Get the last modification time for the file in seconds.
    pub fn last_modified(&self) -> (seconds: i64)
        ensures
            seconds == self.info().last_mod,
    {
        self.record().last_mod
    }

    /// Get the last access time for the file in seconds.
    pub fn last_access(&self) -> (seconds: i64)
        ensures
            seconds == self.info().last_access,
    {
        self.record().last_access
    }
}

/// Every entry is a file or a directory, and none is both.
pub proof fn lemma_file_or_directory(status: FileStatus)
    ensures
        status.spec_is_file() != status.spec_is_directory(),
{
}

} // verus!
