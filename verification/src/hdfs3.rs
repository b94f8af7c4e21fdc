//! The file system handle and the file handle, with their operations.

use vstd::prelude::*;

use crate::cache::{cached_after, served, HdfsCache, Served};
use crate::connection::{
    builder_settings, create_hdfs_fs, params_nul_free, params_view, ConnectionKey,
};
pub use crate::connection::ConnectionProperties;
use crate::err::{HdfsErr, HdfsErrView};
use crate::native::{
    record_count, FileInfo, NativeArray, NativeCall, NativeCallView, Step, O_APPEND, O_RDONLY,
    O_WRONLY,
};
pub use crate::status::{FileStatus, HdfsFileInfoPtr};
use crate::status::HdfsFileInfoPtrView;
use crate::text::{address, nul_free, phrase};
use libc::c_int;
use std::sync::Arc;

verus! {

/// A connection to an HDFS file system: the properties it was made with and
/// the handle that the native client gave out for it, which is never null.
#[derive(Debug)]
pub struct HdfsFs {
    connection_properties: ConnectionProperties,
    raw: u64,
}

/// A connection as plain values.
pub struct HdfsFsView {
    pub key: ConnectionKey,
    pub raw: u64,
}

impl View for HdfsFs {
    type V = HdfsFsView;

    closed spec fn view(&self) -> HdfsFsView {
        HdfsFsView { key: self.connection_properties@, raw: self.raw }
    }
}

impl Clone for HdfsFs {
    fn clone(&self) -> (copy: Self)
        ensures
            copy@ == self@,
    {
        proof {
            use_type_invariant(self);
        }
        HdfsFs { connection_properties: self.connection_properties.clone(), raw: self.raw }
    }
}

impl HdfsFs {
    #[verifier::type_invariant]
    spec fn connected(&self) -> bool {
        self.raw != 0
    }

    /// The properties that the connection was made with.
    pub fn connection_properties(&self) -> (properties: &ConnectionProperties)
        ensures
            properties@ == self@.key,
    {
        &self.connection_properties
    }

    /// The handle of the native connection.
    pub fn raw(&self) -> (raw: u64)
        ensures
            raw == self@.raw,
            raw != 0,
    {
        proof {
            use_type_invariant(self);
        }
        self.raw
    }

    /// Gets the connection for `connection_properties` with no configuration
    /// for the native client. See [`HdfsFs::new_with_hdfs_params`].
    pub fn new(
        connection_properties: ConnectionProperties,
        cache: &mut HdfsCache,
        connected: Option<u64>,
    ) -> (step: Step<Result<HdfsFs, HdfsErr>>)
        requires
            !old(cache)@.contains_key(connection_properties@) ==> connection_properties@.nul_free(),
        ensures
            final(cache)@ == cached_after(old(cache)@, connection_properties@, connected),
            (match served(old(cache)@, connection_properties@, connected) {
                Served::Handle(raw) => (step matches Step::Done(Ok(fs)) && fs@ == (HdfsFsView {
                    key: connection_properties@,
                    raw,
                })),
                Served::Connect => step.asks(
                    NativeCallView::Connect {
                        settings: builder_settings(connection_properties@, Seq::empty()),
                    },
                ),
                Served::Refused => step.fails(
                    HdfsErrView::CannotConnectToNameNode(
                        address(connection_properties@.host, connection_properties@.port),
                    ),
                ),
            }),
            step matches Step::Call(call) ==> call@.nul_free(),
    {
        let hdfs_params: Vec<(String, String)> = Vec::new();
        assert(params_view(hdfs_params@) =~= Seq::empty());
        HdfsFs::new_with_hdfs_params(connection_properties, hdfs_params, cache, connected)
    }

    /// Gets the connection for `connection_properties`, of which `cache`
    /// holds at most one.
    ///
    /// A cached connection is handed out as it is. Otherwise the step asks the
    /// native client to connect, with `hdfs_params` as its configuration, in
    /// the order given. With its answer in `connected`, the new connection is
    /// cached and handed out; where the native client returned the null
    /// handle, nothing is cached and the step fails with
    /// `CannotConnectToNameNode`, so that a later request tries again.
    pub fn new_with_hdfs_params(
        connection_properties: ConnectionProperties,
        hdfs_params: Vec<(String, String)>,
        cache: &mut HdfsCache,
        connected: Option<u64>,
    ) -> (step: Step<Result<HdfsFs, HdfsErr>>)
        requires
            !old(cache)@.contains_key(connection_properties@) ==> connection_properties@.nul_free()
                && params_nul_free(params_view(hdfs_params@)),
        ensures
            final(cache)@ == cached_after(old(cache)@, connection_properties@, connected),
            (match served(old(cache)@, connection_properties@, connected) {
                Served::Handle(raw) => (step matches Step::Done(Ok(fs)) && fs@ == (HdfsFsView {
                    key: connection_properties@,
                    raw,
                })),
                Served::Connect => step.asks(
                    NativeCallView::Connect {
                        settings: builder_settings(
                            connection_properties@,
                            params_view(hdfs_params@),
                        ),
                    },
                ),
                Served::Refused => step.fails(
                    HdfsErrView::CannotConnectToNameNode(
                        address(connection_properties@.host, connection_properties@.port),
                    ),
                ),
            }),
            step matches Step::Call(call) ==> call@.nul_free(),
    {
        // Try to get from cache if an entry exists.
        if let Some(hdfs_fs) = cache.get(&connection_properties) {
            let ghost key = connection_properties@;
            assert(cache@ =~= cache@.insert(key, cache@[key]));
            return Step::Done(Ok(hdfs_fs));
        }
        match create_hdfs_fs(&connection_properties, &hdfs_params, connected) {
            Step::Call(call) => Step::Call(call),
            Step::Done(Err(err)) => Step::Done(Err(err)),
            Step::Done(Ok(raw)) => {
                let hdfs_fs = cache.get_or_insert(HdfsFs { connection_properties, raw });
                Step::Done(Ok(hdfs_fs))
            },
        }
    }

    /// What opening `path` in `mode` comes to once `opened` holds the native
    /// answer, if there is one: without it the step asks for the open call;
    /// with the null handle it fails, the native client not saying why; with
    /// any other handle it ends with the open file.
    pub open spec fn opening(
        &self,
        step: Step<Result<HdfsFile, HdfsErr>>,
        path: Seq<char>,
        mode: OpenMode,
        buf_size: i32,
        replica_num: i16,
        block_size: i64,
        opened: Option<u64>,
    ) -> bool {
        match opened {
            None => step.asks(
                NativeCallView::OpenFile {
                    fs: self@.raw,
                    path,
                    flags: mode.spec_flags(),
                    buffer_size: buf_size,
                    replication: replica_num,
                    block_size,
                },
            ),
            Some(file) => if file == 0 {
                step.fails(HdfsErrView::Miscellaneous("Could not open HDFS file at path "@ + path))
            } else {
                step matches Step::Done(Ok(opened_file)) && opened_file@ == (HdfsFileView {
                    fs: self@,
                    path,
                    file,
                    mode,
                })
            },
        }
    }

    fn open_file(
        &self,
        path: &str,
        mode: OpenMode,
        buf_size: i32,
        replica_num: i16,
        block_size: i64,
        opened: Option<u64>,
    ) -> (step: Step<Result<HdfsFile, HdfsErr>>)
        requires
            nul_free(path@),
        ensures
            self.opening(step, path@, mode, buf_size, replica_num, block_size, opened),
            step matches Step::Call(call) ==> call@.nul_free(),
    {
        match opened {
            None => Step::Call(
                NativeCall::OpenFile {
                    fs: self.raw,
                    path: path.to_owned(),
                    flags: mode.flags(),
                    buffer_size: buf_size,
                    replication: replica_num,
                    block_size,
                },
            ),
            Some(file) => Step::Done(self.new_hdfs_file(path, file, mode)),
        }
    }

    /// Open a file for append.
    ///
    /// The path is probed first. Where it does not exist the step fails with
    /// `FileNotFound` and never asks for the open call.
    pub fn append(&self, path: &str, exists: Option<i32>, opened: Option<u64>) -> (step: Step<
        Result<HdfsFile, HdfsErr>,
    >)
        requires
            nul_free(path@),
        ensures
            exists is None ==> step.asks(NativeCallView::Exists { fs: self@.raw, path: path@ }),
            exists matches Some(status) ==> (if status == 0 {
                self.opening(step, path@, OpenMode::Append, 0, 0, 0, opened)
            } else {
                step.fails(HdfsErrView::FileNotFound(path@))
            }),
            step matches Step::Call(call) ==> (call@ is OpenFile ==> exists == Some(0i32)),
            step matches Step::Call(call) ==> call@.nul_free(),
    {
        match self.exist(path, exists) {
            Step::Call(call) => Step::Call(call),
            Step::Done(found) => {
                if !found {
                    Step::Done(Err(HdfsErr::FileNotFound(path.to_owned())))
                } else {
                    self.open_file(path, OpenMode::Append, 0, 0, 0, opened)
                }
            },
        }
    }

    /// Create the given path, failing where it exists already.
    pub fn create(&self, path: &str, exists: Option<i32>, opened: Option<u64>) -> (step: Step<
        Result<HdfsFile, HdfsErr>,
    >)
        requires
            nul_free(path@),
        ensures
            exists is None ==> step.asks(NativeCallView::Exists { fs: self@.raw, path: path@ }),
            exists matches Some(status) ==> (if status == 0 {
                step.fails(HdfsErrView::FileAlreadyExists(path@))
            } else {
                self.opening(step, path@, OpenMode::Write, 0, 0, 0, opened)
            }),
            step matches Step::Call(call) ==> (call@ is OpenFile ==> exists is Some && exists
                != Some(0i32)),
            step matches Step::Call(call) ==> call@.nul_free(),
    {
        self.create_with_params(path, false, 0, 0, 0, exists, opened)
    }

    /// Create the given path, overwriting what is there if `overwrite` says so.
    pub fn create_with_overwrite(
        &self,
        path: &str,
        overwrite: bool,
        exists: Option<i32>,
        opened: Option<u64>,
    ) -> (step: Step<Result<HdfsFile, HdfsErr>>)
        requires
            nul_free(path@),
        ensures
            !overwrite && exists is None ==> step.asks(
                NativeCallView::Exists { fs: self@.raw, path: path@ },
            ),
            !overwrite && exists == Some(0i32) ==> step.fails(
                HdfsErrView::FileAlreadyExists(path@),
            ),
            overwrite || (exists is Some && exists != Some(0i32)) ==> self.opening(
                step,
                path@,
                OpenMode::Write,
                0,
                0,
                0,
                opened,
            ),
            step matches Step::Call(call) ==> (call@ is OpenFile ==> overwrite || (exists is Some
                && exists != Some(0i32))),
            step matches Step::Call(call) ==> call@.nul_free(),
    {
        self.create_with_params(path, overwrite, 0, 0, 0, exists, opened)
    }

    /// Create the given path.
    ///
    /// Without `overwrite` the path is probed first. Where it exists the step
    /// fails with `FileAlreadyExists` and never asks for the open call. With
    /// `overwrite` there is no probe.
    pub fn create_with_params(
        &self,
        path: &str,
        overwrite: bool,
        buf_size: i32,
        replica_num: i16,
        block_size: i64,
        exists: Option<i32>,
        opened: Option<u64>,
    ) -> (step: Step<Result<HdfsFile, HdfsErr>>)
        requires
            nul_free(path@),
        ensures
            !overwrite && exists is None ==> step.asks(
                NativeCallView::Exists { fs: self@.raw, path: path@ },
            ),
            !overwrite && exists == Some(0i32) ==> step.fails(
                HdfsErrView::FileAlreadyExists(path@),
            ),
            overwrite || (exists is Some && exists != Some(0i32)) ==> self.opening(
                step,
                path@,
                OpenMode::Write,
                buf_size,
                replica_num,
                block_size,
                opened,
            ),
            step matches Step::Call(call) ==> (call@ is OpenFile ==> overwrite || (exists is Some
                && exists != Some(0i32))),
            step matches Step::Call(call) ==> call@.nul_free(),
    {
        if !overwrite {
            match self.exist(path, exists) {
                Step::Call(call) => {
                    return Step::Call(call);
                },
                Step::Done(found) => {
                    if found {
                        return Step::Done(Err(HdfsErr::FileAlreadyExists(path.to_owned())));
                    }
                },
            }
        }
        self.open_file(path, OpenMode::Write, buf_size, replica_num, block_size, opened)
    }

    /// Get the status of the file or directory at `path`.
    ///
    /// The native client answers the query with the record that it allocated,
    /// or with null, which is a failure. The step then asks for the record to
    /// be read, and with it the operation ends with a view that owns the
    /// native record as an array of one. The operation releases nothing: the
    /// release is owed when the view and its clones are gone.
    pub fn get_file_status(&self, path: &str, info: Option<u64>, record: Option<FileInfo>) -> (step:
        Step<Result<FileStatus, HdfsErr>>)
        requires
            nul_free(path@),
        ensures
            info is None ==> step.asks(NativeCallView::GetPathInfo { fs: self@.raw, path: path@ }),
            info == Some(0u64) ==> step.fails(
                HdfsErrView::Miscellaneous("Could not get file status for "@ + path@),
            ),
            info matches Some(array) ==> (array != 0 ==> (match record {
                None => step.asks(NativeCallView::ReadFileInfo { array, count: 1 }),
                Some(read) => step matches Step::Done(Ok(status)) && status.guard() == (
                HdfsFileInfoPtrView { array, len: 1, records: seq![read] }) && status.index() == 0
                    && status.info() == read,
            })),
            step matches Step::Call(call) ==> !(call@ is FreeFileInfo),
            step matches Step::Call(call) ==> call@.nul_free(),
    {
        match info {
            None => Step::Call(NativeCall::GetPathInfo { fs: self.raw, path: path.to_owned() }),
            Some(ptr) => {
                if ptr == 0 {
                    Step::Done(
                        Err(HdfsErr::Miscellaneous(phrase("Could not get file status for ", path))),
                    )
                } else {
                    match record {
                        None => Step::Call(NativeCall::ReadFileInfo { array: ptr, count: 1 }),
                        Some(read) => Step::Done(Ok(FileStatus::new(ptr, read))),
                    }
                }
            },
        }
    }

    /// Delete the content at the given path.
    ///
    /// * path - the path on the filesystem
    /// * recursive - if true, delete the content recursively.
    pub fn delete(&self, path: &str, recursive: bool, status: Option<i32>) -> (step: Step<
        Result<bool, HdfsErr>,
    >)
        requires
            nul_free(path@),
        ensures
            status is None ==> step.asks(
                NativeCallView::Delete {
                    fs: self@.raw,
                    path: path@,
                    recursive: if recursive {
                        1
                    } else {
                        0
                    },
                },
            ),
            status == Some(0i32) ==> step.ends(Ok(true)),
            status is Some && status != Some(0i32) ==> step.fails(
                HdfsErrView::Miscellaneous("Could not delete path: "@ + path@),
            ),
            step matches Step::Call(call) ==> call@.nul_free(),
    {
        match status {
            None => Step::Call(
                NativeCall::Delete {
                    fs: self.raw,
                    path: path.to_owned(),
                    recursive: if recursive {
                        1
                    } else {
                        0
                    },
                },
            ),
            Some(res) => {
                if res == 0 {
                    Step::Done(Ok(true))
                } else {
                    Step::Done(
                        Err(HdfsErr::Miscellaneous(phrase("Could not delete path: ", path))),
                    )
                }
            },
        }
    }

    /// Check if the given path exists on the filesystem.
    pub fn exist(&self, path: &str, status: Option<i32>) -> (step: Step<bool>)
        requires
            nul_free(path@),
        ensures
            status is None ==> step.asks(NativeCallView::Exists { fs: self@.raw, path: path@ }),
            status matches Some(res) ==> step.ends(res == 0),
            step matches Step::Call(call) ==> call@.nul_free(),
    {
        match status {
            None => Step::Call(NativeCall::Exists { fs: self.raw, path: path.to_owned() }),
            Some(res) => Step::Done(res == 0),
        }
    }

    /// Get the file status of each entry under the specified path.
    ///
    /// The native client answers the listing with the array that it allocated
    /// and the count of its records, or with null, which is a failure.
    /// Note that it is an error to list an empty directory: the native client
    /// answers with null then.
    ///
    /// For an array with records the step asks for them to be read, and with
    /// them the operation ends with one view for each record, in their order,
    /// all sharing the one array. The operation releases nothing then: the
    /// release is owed when the last view is gone. Only an array without
    /// records, which no view will share, is released before the operation
    /// ends with no views.
    pub fn list_status(
        &self,
        path: &str,
        listing: Option<NativeArray>,
        records: Option<Vec<FileInfo>>,
        released: bool,
    ) -> (step: Step<Result<Vec<FileStatus>, HdfsErr>>)
        requires
            nul_free(path@),
            listing matches Some(listed) ==> (listed.array != 0 ==> (records matches Some(read)
                ==> read@.len() == record_count(listed.count))),
        ensures
            listing is None ==> step.asks(
                NativeCallView::ListDirectory { fs: self@.raw, path: path@ },
            ),
            listing matches Some(listed) ==> (listed.array == 0 ==> step.fails(
                HdfsErrView::Miscellaneous("Could not list content of path: "@ + path@),
            )),
            listing matches Some(listed) ==> (listed.array != 0 && listed.count > 0 ==> (
            match records {
                None => step.asks(
                    NativeCallView::ReadFileInfo { array: listed.array, count: listed.count },
                ),
                Some(read) => step matches Step::Done(Ok(list)) && list@.len() == listed.count
                    && forall|i: int|
                    0 <= i < list@.len() ==> (#[trigger] list@[i]).guard() == (
                    HdfsFileInfoPtrView {
                        array: listed.array,
                        len: listed.count,
                        records: read@,
                    }) && list@[i].index() == i && list@[i].info() == read@[i],
            })),
            listing matches Some(listed) ==> (listed.array != 0 && listed.count <= 0 ==> (
            if released {
                step matches Step::Done(Ok(list)) && list@.len() == 0
            } else {
                step.asks(
                    NativeCallView::FreeFileInfo { array: listed.array, count: listed.count },
                )
            })),
            step matches Step::Call(call) ==> (call@ is FreeFileInfo ==> (listing matches Some(
                listed,
            ) && listed.count <= 0)),
            step matches Step::Call(call) ==> call@.nul_free(),
    {
        match listing {
            None => Step::Call(NativeCall::ListDirectory { fs: self.raw, path: path.to_owned() }),
            Some(listed) => {
                if listed.array == 0 {
                    return Step::Done(
                        Err(
                            HdfsErr::Miscellaneous(
                                phrase("Could not list content of path: ", path),
                            ),
                        ),
                    );
                }
                if listed.count <= 0 {
                    if released {
                        return Step::Done(Ok(Vec::new()));
                    }
                    return Step::Call(
                        NativeCall::FreeFileInfo { array: listed.array, count: listed.count },
                    );
                }
                match records {
                    None => Step::Call(
                        NativeCall::ReadFileInfo { array: listed.array, count: listed.count },
                    ),
                    Some(read) => {
                        let ghost entries = read@;
                        let shared_ptr = Arc::new(
                            HdfsFileInfoPtr::new_array(listed.array, listed.count, read),
                        );
                        let entry_num: i32 = shared_ptr.len();
                        let mut list: Vec<FileStatus> = Vec::new();
                        let mut idx: i32 = 0;
                        while idx < entry_num
                            invariant
                                0 <= idx <= entry_num,
                                entry_num == entries.len(),
                                shared_ptr@ == (HdfsFileInfoPtrView {
                                    array: listed.array,
                                    len: listed.count,
                                    records: entries,
                                }),
                                list@.len() == idx,
                                forall|i: int|
                                    0 <= i < list@.len() ==> (#[trigger] list@[i]).guard()
                                        == shared_ptr@ && list@[i].index() == i,
                            decreases entry_num - idx,
                        {
                            list.push(FileStatus::from_array(Arc::clone(&shared_ptr), idx as u32));
                            idx += 1;
                        }
                        Step::Done(Ok(list))
                    },
                }
            },
        }
    }

    /// Create a directory at the given path.
    pub fn mkdir(&self, path: &str, status: Option<i32>) -> (step: Step<Result<bool, HdfsErr>>)
        requires
            nul_free(path@),
        ensures
            status is None ==> step.asks(
                NativeCallView::CreateDirectory { fs: self@.raw, path: path@ },
            ),
            status == Some(0i32) ==> step.ends(Ok(true)),
            status is Some && status != Some(0i32) ==> step.fails(
                HdfsErrView::Miscellaneous("Could not create directory at path: "@ + path@),
            ),
            step matches Step::Call(call) ==> call@.nul_free(),
    {
        match status {
            None => Step::Call(
                NativeCall::CreateDirectory { fs: self.raw, path: path.to_owned() },
            ),
            Some(res) => {
                if res == 0 {
                    Step::Done(Ok(true))
                } else {
                    Step::Done(
                        Err(
                            HdfsErr::Miscellaneous(
                                phrase("Could not create directory at path: ", path),
                            ),
                        ),
                    )
                }
            },
        }
    }

    /// Open a file for reading, with the default buffer size.
    pub fn open(&self, path: &str, opened: Option<u64>) -> (step: Step<Result<HdfsFile, HdfsErr>>)
        requires
            nul_free(path@),
        ensures
            self.opening(step, path@, OpenMode::Read, 0, 0, 0, opened),
            step matches Step::Call(call) ==> call@.nul_free(),
    {
        self.open_with_buf_size(path, 0, opened)
    }

    /// Open a file for reading, with a buffer of the given size.
    pub fn open_with_buf_size(&self, path: &str, buf_size: i32, opened: Option<u64>) -> (step:
        Step<Result<HdfsFile, HdfsErr>>)
        requires
            nul_free(path@),
        ensures
            self.opening(step, path@, OpenMode::Read, buf_size, 0, 0, opened),
            step matches Step::Call(call) ==> call@.nul_free(),
    {
        self.open_file(path, OpenMode::Read, buf_size, 0, 0, opened)
    }

    /// Open a file for writing, with the native client's defaults and without
    /// a probe of the path.
    pub fn open_for_writing(&self, path: &str, opened: Option<u64>) -> (step: Step<
        Result<HdfsFile, HdfsErr>,
    >)
        requires
            nul_free(path@),
        ensures
            self.opening(step, path@, OpenMode::Write, 0, 0, 0, opened),
            step matches Step::Call(call) ==> call@.nul_free(),
    {
        self.open_file(path, OpenMode::Write, 0, 0, 0, opened)
    }

    /// Wraps what the native client returned for an open call: the null handle
    /// is an error, any other handle an open file of this connection.
    pub fn new_hdfs_file(&self, path: &str, file: u64, mode: OpenMode) -> (opened: Result<
        HdfsFile,
        HdfsErr,
    >)
        requires
            nul_free(path@),
        ensures
            file == 0 ==> (opened matches Err(err) && err@ == HdfsErrView::Miscellaneous(
                "Could not open HDFS file at path "@ + path@,
            )),
            file != 0 ==> (opened matches Ok(opened_file) && opened_file@ == (HdfsFileView {
                fs: self@,
                path: path@,
                file,
                mode,
            })),
    {
        if file == 0 {
            Err(HdfsErr::Miscellaneous(phrase("Could not open HDFS file at path ", path)))
        } else {
            Ok(HdfsFile { fs: self.clone(), path: path.to_owned(), file, mode })
        }
    }

    /// Rename a file.
    ///
    /// old_path - the path to rename
    /// new_path - the new name
    ///
    /// Note that the destination directory must exist: the native client
    /// reports a failure otherwise, and nothing is checked before it is asked.
    pub fn rename(&self, old_path: &str, new_path: &str, status: Option<i32>) -> (step: Step<
        Result<bool, HdfsErr>,
    >)
        requires
            nul_free(old_path@),
            nul_free(new_path@),
        ensures
            status is None ==> step.asks(
                NativeCallView::Rename { fs: self@.raw, old_path: old_path@, new_path: new_path@ },
            ),
            status == Some(0i32) ==> step.ends(Ok(true)),
            status is Some && status != Some(0i32) ==> step.fails(
                HdfsErrView::Miscellaneous(
                    "Could not reanme "@ + old_path@ + " to "@ + new_path@,
                ),
            ),
            step matches Step::Call(call) ==> call@.nul_free(),
    {
        match status {
            None => Step::Call(
                NativeCall::Rename {
                    fs: self.raw,
                    old_path: old_path.to_owned(),
                    new_path: new_path.to_owned(),
                },
            ),
            Some(ret) => {
                if ret == 0 {
                    Step::Done(Ok(true))
                } else {
                    Step::Done(
                        Err(
                            HdfsErr::Miscellaneous(
                                phrase("Could not reanme ", old_path).concat(" to ").concat(
                                    new_path,
                                ),
                            ),
                        ),
                    )
                }
            },
        }
    }
}

/// How a file was opened.
#[derive(Debug, Clone, Copy, PartialEq, Eq, Structural)]
pub enum OpenMode {
    Read,
    Write,
    Append,
}

impl OpenMode {
    /// The open flags of the native client that stand for the mode.
    pub open spec fn spec_flags(self) -> c_int {
        match self {
            OpenMode::Read => O_RDONLY,
            OpenMode::Write => O_WRONLY,
            OpenMode::Append => O_APPEND,
        }
    }

    /// The open flags of the native client that stand for the mode.
    #[verifier::when_used_as_spec(spec_flags)]
    pub fn flags(self) -> (flags: c_int)
        ensures
            flags == self.spec_flags(),
    {
        match self {
            OpenMode::Read => O_RDONLY,
            OpenMode::Write => O_WRONLY,
            OpenMode::Append => O_APPEND,
        }
    }
}

/// An open HDFS file: the connection it belongs to, its path, the handle that
/// the native client gave out for it, which is never null, and its mode.
/// Nothing releases the native file but `close`.
#[derive(Debug)]
pub struct HdfsFile {
    fs: HdfsFs,
    path: String,
    file: u64,
    mode: OpenMode,
}

/// An open file as plain values.
pub struct HdfsFileView {
    pub fs: HdfsFsView,
    pub path: Seq<char>,
    pub file: u64,
    pub mode: OpenMode,
}

impl View for HdfsFile {
    type V = HdfsFileView;

    closed spec fn view(&self) -> HdfsFileView {
        HdfsFileView { fs: self.fs@, path: self.path@, file: self.file, mode: self.mode }
    }
}

impl Clone for HdfsFile {
    fn clone(&self) -> (copy: Self)
        ensures
            copy@ == self@,
    {
        proof {
            use_type_invariant(self);
        }
        HdfsFile { fs: self.fs.clone(), path: self.path.clone(), file: self.file, mode: self.mode }
    }
}

impl HdfsFile {
    #[verifier::type_invariant]
    spec fn opened(&self) -> bool {
        self.file != 0 && nul_free(self.path@)
    }

    /// The connection that the file was opened on.
    pub fn fs(&self) -> (fs: &HdfsFs)
        ensures
            fs@ == self@.fs,
    {
        &self.fs
    }

    /// The path that the file was opened at.
    pub fn path(&self) -> (path: &str)
        ensures
            path@ == self@.path,
            nul_free(path@),
    {
        proof {
            use_type_invariant(self);
        }
        self.path.as_str()
    }

    /// The handle of the native file.
    pub fn raw(&self) -> (raw: u64)
        ensures
            raw == self@.file,
            raw != 0,
    {
        proof {
            use_type_invariant(self);
        }
        self.file
    }

    /// How the file was opened.
    pub fn mode(&self) -> (mode: OpenMode)
        ensures
            mode == self@.mode,
    {
        self.mode
    }

    /// Number of bytes that can be read from this file without blocking.
    pub fn available(&self, count: Option<i32>) -> (step: Step<Result<i32, HdfsErr>>)
        ensures
            count is None ==> step.asks(
                NativeCallView::Available { fs: self@.fs.raw, file: self@.file },
            ),
            count matches Some(ret) ==> (if ret < 0 {
                step.fails(
                    HdfsErrView::Miscellaneous(
                        "Could not determine HDFS availability for "@ + self@.path,
                    ),
                )
            } else {
                step.ends(Ok(ret))
            }),
    {
        match count {
            None => Step::Call(NativeCall::Available { fs: self.fs.raw(), file: self.file }),
            Some(ret) => {
                if ret < 0 {
                    Step::Done(
                        Err(
                            HdfsErr::Miscellaneous(
                                phrase(
                                    "Could not determine HDFS availability for ",
                                    self.path.as_str(),
                                ),
                            ),
                        ),
                    )
                } else {
                    Step::Done(Ok(ret))
                }
            },
        }
    }

    /// Close the opened file.
    pub fn close(&self, status: Option<i32>) -> (step: Step<Result<bool, HdfsErr>>)
        ensures
            status is None ==> step.asks(
                NativeCallView::CloseFile { fs: self@.fs.raw, file: self@.file },
            ),
            status == Some(0i32) ==> step.ends(Ok(true)),
            status is Some && status != Some(0i32) ==> step.fails(
                HdfsErrView::Miscellaneous("Could not close "@ + self@.path),
            ),
    {
        match status {
            None => Step::Call(NativeCall::CloseFile { fs: self.fs.raw(), file: self.file }),
            Some(res) => {
                if res == 0 {
                    Step::Done(Ok(true))
                } else {
                    Step::Done(
                        Err(HdfsErr::Miscellaneous(phrase("Could not close ", self.path.as_str()))),
                    )
                }
            },
        }
    }

    /// Get the file status, including file size, last modified time, etc: the
    /// status of the file's path on the file's connection.
    pub fn get_file_status(&self, info: Option<u64>, record: Option<FileInfo>) -> (step: Step<
        Result<FileStatus, HdfsErr>,
    >)
        ensures
            info is None ==> step.asks(
                NativeCallView::GetPathInfo { fs: self@.fs.raw, path: self@.path },
            ),
            info == Some(0u64) ==> step.fails(
                HdfsErrView::Miscellaneous("Could not get file status for "@ + self@.path),
            ),
            info matches Some(array) ==> (array != 0 ==> (match record {
                None => step.asks(NativeCallView::ReadFileInfo { array, count: 1 }),
                Some(read) => step matches Step::Done(Ok(status)) && status.guard() == (
                HdfsFileInfoPtrView { array, len: 1, records: seq![read] }) && status.index() == 0
                    && status.info() == read,
            })),
            step matches Step::Call(call) ==> !(call@ is FreeFileInfo),
            step matches Step::Call(call) ==> call@.nul_free(),
    {
        self.fs.get_file_status(self.path(), info, record)
    }

    /// Read data from an open file into a buffer. The native client is asked
    /// for as many bytes as the buffer holds, the count cut to the width of
    /// its size type; it answers with the count of bytes read, and a count
    /// that is not positive is a failure.
    pub fn read(&self, buf: &[u8], count: Option<i32>) -> (step: Step<Result<i32, HdfsErr>>)
        ensures
            count is None ==> step.asks(
                NativeCallView::Read {
                    fs: self@.fs.raw,
                    file: self@.file,
                    length: buf@.len() as i32,
                },
            ),
            count matches Some(read_len) ==> (if read_len > 0 {
                step.ends(Ok(read_len))
            } else {
                step.fails(HdfsErrView::Miscellaneous("Failed to read from "@ + self@.path))
            }),
    {
        match count {
            None => Step::Call(
                NativeCall::Read {
                    fs: self.fs.raw(),
                    file: self.file,
                    length: #[verifier::truncate]
                    (buf.len() as i32),
                },
            ),
            Some(read_len) => {
                if read_len > 0 {
                    Step::Done(Ok(read_len))
                } else {
                    Step::Done(
                        Err(
                            HdfsErr::Miscellaneous(
                                phrase("Failed to read from ", self.path.as_str()),
                            ),
                        ),
                    )
                }
            },
        }
    }

    /// Seek to given offset in file. The offset is handed to the native client
    /// as its signed offset type.
    pub fn seek(&self, offset: u64, status: Option<i32>) -> (step: Step<bool>)
        ensures
            status is None ==> step.asks(
                NativeCallView::Seek {
                    fs: self@.fs.raw,
                    file: self@.file,
                    position: offset as i64,
                },
            ),
            status matches Some(res) ==> step.ends(res == 0),
    {
        match status {
            None => Step::Call(
                NativeCall::Seek {
                    fs: self.fs.raw(),
                    file: self.file,
                    position: #[verifier::truncate]
                    (offset as i64),
                },
            ),
            Some(res) => Step::Done(res == 0),
        }
    }

    /// Write the data of a buffer to an open file. The native client is asked
    /// to write as many bytes as the buffer holds, the count cut to the width
    /// of its size type; it answers with the count of bytes written, and a
    /// count that is not positive is a failure.
    pub fn write(&self, buf: &[u8], count: Option<i32>) -> (step: Step<Result<i32, HdfsErr>>)
        ensures
            count is None ==> step.asks(
                NativeCallView::Write {
                    fs: self@.fs.raw,
                    file: self@.file,
                    length: buf@.len() as i32,
                },
            ),
            count matches Some(written_len) ==> (if written_len > 0 {
                step.ends(Ok(written_len))
            } else {
                step.fails(HdfsErrView::Miscellaneous("Failed to write to "@ + self@.path))
            }),
    {
        match count {
            None => Step::Call(
                NativeCall::Write {
                    fs: self.fs.raw(),
                    file: self.file,
                    length: #[verifier::truncate]
                    (buf.len() as i32),
                },
            ),
            Some(written_len) => {
                if written_len > 0 {
                    Step::Done(Ok(written_len))
                } else {
                    Step::Done(
                        Err(
                            HdfsErr::Miscellaneous(
                                phrase("Failed to write to ", self.path.as_str()),
                            ),
                        ),
                    )
                }
            },
        }
    }
}

} // verus!
