//! The boundary to the native client: its calls as values, the records it
//! answers with, and the steps in which an operation proceeds.

use libc::{c_int, c_short};
use vstd::prelude::*;

use crate::err::{HdfsErr, HdfsErrView};
use crate::text::nul_free;

verus! {

/// Open flag of the native client: read only.
pub const O_RDONLY: c_int = 0;

/// Open flag of the native client: write only.
pub const O_WRONLY: c_int = 1;

/// Open flag of the native client: append.
pub const O_APPEND: c_int = 1024;

/// The value by which a native record marks a file.
pub const KIND_FILE: u32 = 70;

/// The value by which a native record marks a directory.
pub const KIND_DIRECTORY: u32 = 68;

/// What a directory entry is.
#[derive(Debug, Clone, Copy, PartialEq, Eq, Structural)]
pub enum ObjectKind {
    File,
    Directory,
}

impl ObjectKind {
    /// Reads the kind out of a native record. There are two kinds and no
    /// default: any other value is no kind at all.
    pub fn from_native(value: u32) -> (kind: Option<ObjectKind>)
        ensures
            value == KIND_FILE ==> kind == Some(ObjectKind::File),
            value == KIND_DIRECTORY ==> kind == Some(ObjectKind::Directory),
            value != KIND_FILE && value != KIND_DIRECTORY ==> kind is None,
    {
        if value == KIND_FILE {
            Some(ObjectKind::File)
        } else if value == KIND_DIRECTORY {
            Some(ObjectKind::Directory)
        } else {
            None
        }
    }
}

/// One record of file metadata, as read out of the native client's memory.
/// A text of the record is absent where the native text is not UTF-8.
#[derive(Debug, PartialEq, Eq)]
pub struct FileInfo {
    /// File or directory.
    pub kind: ObjectKind,
    /// The name of the entry.
    pub name: Option<String>,
    /// The last modification time, in seconds.
    pub last_mod: i64,
    /// The size in bytes.
    pub size: i64,
    /// The count of replicas.
    pub replication: i16,
    /// The block size.
    pub block_size: i64,
    /// The owner.
    pub owner: Option<String>,
    /// The group.
    pub group: Option<String>,
    /// The permission bits.
    pub permissions: i16,
    /// The last access time, in seconds.
    pub last_access: i64,
}

/// What the native client answers a directory listing with: the address of
/// the array of records that it allocated, 0 where it allocated none, and the
/// count of the records in it.
#[derive(Debug, Clone, Copy, PartialEq, Eq, Structural)]
pub struct NativeArray {
    pub array: u64,
    pub count: c_int,
}

/// The number of records that an array with this count holds: none where the
/// count is not positive.
pub open spec fn record_count(count: c_int) -> nat {
    if count > 0 {
        count as nat
    } else {
        0
    }
}

/// One setting made on the native connection builder before it connects.
#[derive(Debug, PartialEq, Eq)]
pub enum BuilderSetting {
    /// A configuration key with its value.
    ConfStr { key: String, value: String },
    /// The host of the name node.
    NameNode(String),
    /// The port of the name node.
    NameNodePort(u16),
    /// The user to connect as.
    UserName(String),
    /// The path of the Kerberos ticket cache.
    KerbTicketCachePath(String),
}

/// A builder setting with its texts as sequences of characters.
pub enum BuilderSettingView {
    ConfStr { key: Seq<char>, value: Seq<char> },
    NameNode(Seq<char>),
    NameNodePort(u16),
    UserName(Seq<char>),
    KerbTicketCachePath(Seq<char>),
}

impl View for BuilderSetting {
    type V = BuilderSettingView;

    open spec fn view(&self) -> BuilderSettingView {
        match self {
            BuilderSetting::ConfStr { key, value } => BuilderSettingView::ConfStr {
                key: key@,
                value: value@,
            },
            BuilderSetting::NameNode(host) => BuilderSettingView::NameNode(host@),
            BuilderSetting::NameNodePort(port) => BuilderSettingView::NameNodePort(*port),
            BuilderSetting::UserName(user) => BuilderSettingView::UserName(user@),
            BuilderSetting::KerbTicketCachePath(path) => BuilderSettingView::KerbTicketCachePath(
                path@,
            ),
        }
    }
}

/// Builder settings, in their order, with their texts as sequences of characters.
pub open spec fn settings_view(settings: Seq<BuilderSetting>) -> Seq<BuilderSettingView> {
    settings.map_values(|setting: BuilderSetting| setting@)
}

impl BuilderSettingView {
    /// Whether every text of the setting can cross into the native layer whole.
    pub open spec fn nul_free(self) -> bool {
        match self {
            BuilderSettingView::ConfStr { key, value } => nul_free(key) && nul_free(value),
            BuilderSettingView::NameNode(host) => nul_free(host),
            BuilderSettingView::NameNodePort(_) => true,
            BuilderSettingView::UserName(user) => nul_free(user),
            BuilderSettingView::KerbTicketCachePath(path) => nul_free(path),
        }
    }
}

/// One primitive of the native client together with its arguments. Connections
/// and open files are named by the handles that the native client gave out.
#[derive(Debug, PartialEq, Eq)]
pub enum NativeCall {
    /// Build a connection with these settings, in this order, and connect.
    /// Answered by the handle of the connection, 0 where there is none.
    Connect { settings: Vec<BuilderSetting> },
    /// Probe a path. Answered by a status, 0 where the path exists.
    Exists { fs: u64, path: String },
    /// Open a file. Answered by the handle of the open file, 0 where there is none.
    OpenFile {
        fs: u64,
        path: String,
        flags: c_int,
        buffer_size: c_int,
        replication: c_short,
        block_size: i64,
    },
    /// Close an open file. Answered by a status, 0 on success.
    CloseFile { fs: u64, file: u64 },
    /// Read into a buffer of this length. Answered by the count of bytes read.
    Read { fs: u64, file: u64, length: i32 },
    /// Write a buffer of this length. Answered by the count of bytes written.
    Write { fs: u64, file: u64, length: i32 },
    /// Move to a position in the file. Answered by a status, 0 on success.
    Seek { fs: u64, file: u64, position: i64 },
    /// Count the bytes that can be read without blocking. Answered by the count.
    Available { fs: u64, file: u64 },
    /// Look up the metadata of one path. Answered by the address of the record
    /// that the native client allocated, 0 where it allocated none.
    GetPathInfo { fs: u64, path: String },
    /// List a directory. Answered by the array of records that the native
    /// client allocated and the count of its records.
    ListDirectory { fs: u64, path: String },
    /// Read the records out of an array of this count. Nothing is released.
    /// Answered by the records, in their order.
    ReadFileInfo { array: u64, count: c_int },
    /// Release an array of records with the count that it came with. Nothing
    /// comes back.
    FreeFileInfo { array: u64, count: c_int },
    /// Create a directory. Answered by a status, 0 on success.
    CreateDirectory { fs: u64, path: String },
    /// Delete a path. Answered by a status, 0 on success.
    Delete { fs: u64, path: String, recursive: c_int },
    /// Rename a path. Answered by a status, 0 on success.
    Rename { fs: u64, old_path: String, new_path: String },
}

/// A native call with its texts as sequences of characters.
pub enum NativeCallView {
    Connect { settings: Seq<BuilderSettingView> },
    Exists { fs: u64, path: Seq<char> },
    OpenFile {
        fs: u64,
        path: Seq<char>,
        flags: c_int,
        buffer_size: c_int,
        replication: c_short,
        block_size: i64,
    },
    CloseFile { fs: u64, file: u64 },
    Read { fs: u64, file: u64, length: i32 },
    Write { fs: u64, file: u64, length: i32 },
    Seek { fs: u64, file: u64, position: i64 },
    Available { fs: u64, file: u64 },
    GetPathInfo { fs: u64, path: Seq<char> },
    ListDirectory { fs: u64, path: Seq<char> },
    ReadFileInfo { array: u64, count: c_int },
    FreeFileInfo { array: u64, count: c_int },
    CreateDirectory { fs: u64, path: Seq<char> },
    Delete { fs: u64, path: Seq<char>, recursive: c_int },
    Rename { fs: u64, old_path: Seq<char>, new_path: Seq<char> },
}

impl View for NativeCall {
    type V = NativeCallView;

    open spec fn view(&self) -> NativeCallView {
        match self {
            NativeCall::Connect { settings } => NativeCallView::Connect {
                settings: settings_view(settings@),
            },
            NativeCall::Exists { fs, path } => NativeCallView::Exists { fs: *fs, path: path@ },
            NativeCall::OpenFile { fs, path, flags, buffer_size, replication, block_size } =>
                NativeCallView::OpenFile {
                    fs: *fs,
                    path: path@,
                    flags: *flags,
                    buffer_size: *buffer_size,
                    replication: *replication,
                    block_size: *block_size,
                },
            NativeCall::CloseFile { fs, file } => NativeCallView::CloseFile {
                fs: *fs,
                file: *file,
            },
            NativeCall::Read { fs, file, length } => NativeCallView::Read {
                fs: *fs,
                file: *file,
                length: *length,
            },
            NativeCall::Write { fs, file, length } => NativeCallView::Write {
                fs: *fs,
                file: *file,
                length: *length,
            },
            NativeCall::Seek { fs, file, position } => NativeCallView::Seek {
                fs: *fs,
                file: *file,
                position: *position,
            },
            NativeCall::Available { fs, file } => NativeCallView::Available {
                fs: *fs,
                file: *file,
            },
            NativeCall::GetPathInfo { fs, path } => NativeCallView::GetPathInfo {
                fs: *fs,
                path: path@,
            },
            NativeCall::ListDirectory { fs, path } => NativeCallView::ListDirectory {
                fs: *fs,
                path: path@,
            },
            NativeCall::ReadFileInfo { array, count } => NativeCallView::ReadFileInfo {
                array: *array,
                count: *count,
            },
            NativeCall::FreeFileInfo { array, count } => NativeCallView::FreeFileInfo {
                array: *array,
                count: *count,
            },
            NativeCall::CreateDirectory { fs, path } => NativeCallView::CreateDirectory {
                fs: *fs,
                path: path@,
            },
            NativeCall::Delete { fs, path, recursive } => NativeCallView::Delete {
                fs: *fs,
                path: path@,
                recursive: *recursive,
            },
            NativeCall::Rename { fs, old_path, new_path } => NativeCallView::Rename {
                fs: *fs,
                old_path: old_path@,
                new_path: new_path@,
            },
        }
    }
}

impl NativeCallView {
    /// Whether every text of the call can cross into the native layer whole.
    pub open spec fn nul_free(self) -> bool {
        match self {
            NativeCallView::Connect { settings } => forall|i: int|
                0 <= i < settings.len() ==> (#[trigger] settings[i]).nul_free(),
            NativeCallView::Exists { path, .. } => nul_free(path),
            NativeCallView::OpenFile { path, .. } => nul_free(path),
            NativeCallView::GetPathInfo { path, .. } => nul_free(path),
            NativeCallView::ListDirectory { path, .. } => nul_free(path),
            NativeCallView::CreateDirectory { path, .. } => nul_free(path),
            NativeCallView::Delete { path, .. } => nul_free(path),
            NativeCallView::Rename { old_path, new_path, .. } => nul_free(old_path) && nul_free(
                new_path,
            ),
            _ => true,
        }
    }
}

/// Where an operation stands once it has the answers gathered so far.
#[derive(Debug, PartialEq, Eq)]
pub enum Step<T> {
    /// The operation needs this primitive performed and its answer handed back.
    Call(NativeCall),
    /// The operation has ended with this value.
    Done(T),
}

impl<T> Step<T> {
    /// The step asks for exactly this call.
    pub open spec fn asks(self, call: NativeCallView) -> bool {
        self matches Step::Call(c) && c@ == call
    }

    /// The step ends the operation with exactly this value.
    pub open spec fn ends(self, value: T) -> bool {
        self == Step::Done(value)
    }
}

impl<T> Step<Result<T, HdfsErr>> {
    /// The step ends the operation with exactly this error.
    pub open spec fn fails(self, err: HdfsErrView) -> bool {
        self matches Step::Done(Err(e)) && e@ == err
    }
}

} // verus!
