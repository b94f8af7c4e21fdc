//! The decision layer of an HDFS client.
//!
//! The native client library is reached through values, not through calls.
//! Every operation is a function from its arguments and the native answers
//! gathered so far to a [`native::Step`]: the step either names the next
//! native call to perform or carries the operation's result. The caller
//! performs the call and asks again with the answer in its place. An answer is
//! `None` until the call has been made; a status or a count is the number that
//! the native client returned, and a handle or an address is 0 where it
//! returned null.
//!
//! Metadata comes in arrays that the native client allocates. The views of
//! one listing share its array, which is owed one release, by the call that
//! [`status::FileStatus::release`] gives, when the last of them is gone. No
//! operation asks for the release of an array that a view shares: the caller
//! performs it when it drops the last view.
//!
//! Texts reach the native client as C strings. No operation issues a call with
//! a NUL character in a text: callers test their paths with
//! [`text::is_nul_free`] first.

pub mod cache;
pub mod connection;
pub mod err;
pub mod hdfs3;
pub mod native;
pub mod status;
pub mod text;
