//! The errors that an operation can end with.

use vstd::prelude::*;

verus! {

/// Errors that can occur when accessing HDFS.
#[derive(Debug, PartialEq, Eq)]
pub enum HdfsErr {
    /// No file exists at this path.
    FileNotFound(String),
    /// A file already exists at this path.
    FileAlreadyExists(String),
    /// The name node at this address, written `host:port`, could not be reached.
    CannotConnectToNameNode(String),
    /// This URL does not name a file system.
    InvalidUrl(String),
    /// The native client reported a failure without saying why.
    Miscellaneous(String),
}

/// An error with its text as a sequence of characters.
pub enum HdfsErrView {
    FileNotFound(Seq<char>),
    FileAlreadyExists(Seq<char>),
    CannotConnectToNameNode(Seq<char>),
    InvalidUrl(Seq<char>),
    Miscellaneous(Seq<char>),
}

impl View for HdfsErr {
    type V = HdfsErrView;

    open spec fn view(&self) -> HdfsErrView {
        match self {
            HdfsErr::FileNotFound(path) => HdfsErrView::FileNotFound(path@),
            HdfsErr::FileAlreadyExists(path) => HdfsErrView::FileAlreadyExists(path@),
            HdfsErr::CannotConnectToNameNode(address) => HdfsErrView::CannotConnectToNameNode(
                address@,
            ),
            HdfsErr::InvalidUrl(url) => HdfsErrView::InvalidUrl(url@),
            HdfsErr::Miscellaneous(description) => HdfsErrView::Miscellaneous(description@),
        }
    }
}

impl HdfsErrView {
    /// The path, address, URL or description that the error carries.
    pub open spec fn text(self) -> Seq<char> {
        match self {
            HdfsErrView::FileNotFound(path) => path,
            HdfsErrView::FileAlreadyExists(path) => path,
            HdfsErrView::CannotConnectToNameNode(address) => address,
            HdfsErrView::InvalidUrl(url) => url,
            HdfsErrView::Miscellaneous(description) => description,
        }
    }
}

impl HdfsErr {
    /// The path, address, URL or description that the error carries.
    pub fn text(&self) -> (text: &str)
        ensures
            text@ == self@.text(),
    {
        match self {
            HdfsErr::FileNotFound(path) => path.as_str(),
            HdfsErr::FileAlreadyExists(path) => path.as_str(),
            HdfsErr::CannotConnectToNameNode(address) => address.as_str(),
            HdfsErr::InvalidUrl(url) => url.as_str(),
            HdfsErr::Miscellaneous(description) => description.as_str(),
        }
    }
}

} // verus!
