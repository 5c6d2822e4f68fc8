//! The trusted boundary to the operating system. Every descriptor and
//! directory operation the two backends perform goes through one wrapper
//! here; each wrapper makes exactly one outside call and converts its
//! arguments and its result. Errors come back as the raw errno value and
//! are mapped to [`crate::error::Error`] by the verified callers.

use vstd::prelude::*;

verus! {

/// Declares nix's owning directory-entry stream so that an enumerator can
/// hold one; its contents are read one entry at a time by [`dir_next_name`].
#[verifier::external_type_specification]
#[verifier::external_body]
pub struct ExDirIter(nix::dir::OwningIter);

/// Declares nix's directory entry, which the stream's items carry.
#[verifier::external_type_specification]
#[verifier::external_body]
pub struct ExDirEntry(nix::dir::Entry);

/// Declares nix's errno enumeration, the error of every nix call.
#[verifier::external_type_specification]
#[verifier::external_body]
pub struct ExErrno(nix::errno::Errno);

/// Relies on nix::fcntl::open with O_RDONLY: on success the result is a
/// nonnegative descriptor for the file at `path`, otherwise the errno.
#[verifier::external_body]
pub(crate) fn open_read(path: &Vec<u8>) -> (r: Result<i32, i32>)
    ensures
        r matches Ok(fd) ==> fd >= 0,
{
    let flags = nix::fcntl::OFlag::O_RDONLY;
    match nix::fcntl::open(path.as_slice(), flags, nix::sys::stat::Mode::empty()) {
        Ok(fd) => Ok(fd),
        Err(e) => Err(e as i32),
    }
}

/// Relies on nix::fcntl::open with O_WRONLY: on success the result is a
/// nonnegative descriptor for the file at `path`, otherwise the errno.
#[verifier::external_body]
pub(crate) fn open_write(path: &Vec<u8>) -> (r: Result<i32, i32>)
    ensures
        r matches Ok(fd) ==> fd >= 0,
{
    let flags = nix::fcntl::OFlag::O_WRONLY;
    match nix::fcntl::open(path.as_slice(), flags, nix::sys::stat::Mode::empty()) {
        Ok(fd) => Ok(fd),
        Err(e) => Err(e as i32),
    }
}

/// Relies on nix::fcntl::open with O_RDWR: on success the result is a
/// nonnegative descriptor for the file at `path`, otherwise the errno.
#[verifier::external_body]
pub(crate) fn open_read_write(path: &Vec<u8>) -> (r: Result<i32, i32>)
    ensures
        r matches Ok(fd) ==> fd >= 0,
{
    let flags = nix::fcntl::OFlag::O_RDWR;
    match nix::fcntl::open(path.as_slice(), flags, nix::sys::stat::Mode::empty()) {
        Ok(fd) => Ok(fd),
        Err(e) => Err(e as i32),
    }
}

/// Relies on nix::unistd::close: releases the descriptor, and reports the
/// errno if the close failed.
#[verifier::external_body]
pub(crate) fn close_fd(fd: i32) -> (r: Result<(), i32>)
{
    match nix::unistd::close(fd) {
        Ok(()) => Ok(()),
        Err(e) => Err(e as i32),
    }
}

/// Relies on nix::unistd::read: on success at most `buf.len()` bytes were
/// read into the front of `buf` and the count is returned; `buf` keeps its
/// length either way. What the bytes hold depends on the file alone.
#[verifier::external_body]
pub(crate) fn read_fd(fd: i32, buf: &mut Vec<u8>) -> (r: Result<usize, i32>)
    ensures
        final(buf)@.len() == old(buf)@.len(),
        r matches Ok(n) ==> n <= final(buf)@.len(),
{
    match nix::unistd::read(fd, buf.as_mut_slice()) {
        Ok(n) => Ok(n),
        Err(e) => Err(e as i32),
    }
}

/// Relies on nix::sys::uio::pread: a positional read of at most `buf.len()`
/// bytes at byte offset `offset`, without moving any file cursor; on
/// success the count read into the front of `buf` is returned, and `buf`
/// keeps its length either way.
#[verifier::external_body]
pub(crate) fn pread_fd(fd: i32, buf: &mut Vec<u8>, offset: u64) -> (r: Result<usize, i32>)
    requires
        offset < 0x8000_0000_0000_0000,
    ensures
        final(buf)@.len() == old(buf)@.len(),
        r matches Ok(n) ==> n <= final(buf)@.len(),
{
    match nix::sys::uio::pread(fd, buf.as_mut_slice(), offset as i64) {
        Ok(n) => Ok(n),
        Err(e) => Err(e as i32),
    }
}

/// Relies on nix::sys::uio::pwrite: a positional write of the bytes of
/// `buf` at byte offset `offset`, without moving any file cursor; on
/// success the count written is returned, at most `buf.len()`.
#[verifier::external_body]
pub(crate) fn pwrite_fd(fd: i32, buf: &Vec<u8>, offset: u64) -> (r: Result<usize, i32>)
    requires
        offset < 0x8000_0000_0000_0000,
    ensures
        r matches Ok(n) ==> n <= buf@.len(),
{
    match nix::sys::uio::pwrite(fd, buf.as_slice(), offset as i64) {
        Ok(n) => Ok(n),
        Err(e) => Err(e as i32),
    }
}

/// Relies on nix::dir::Dir::open and Dir::into_iter: opens the directory at
/// `path` and hands back the stream of its entries, or the errno.
#[verifier::external_body]
pub(crate) fn dir_open(path: &Vec<u8>) -> (r: Result<nix::dir::OwningIter, i32>)
{
    let flags = nix::fcntl::OFlag::O_RDONLY | nix::fcntl::OFlag::O_DIRECTORY;
    match nix::dir::Dir::open(path.as_slice(), flags, nix::sys::stat::Mode::empty()) {
        Ok(d) => Ok(d.into_iter()),
        Err(e) => Err(e as i32),
    }
}

/// Relies on Iterator::next of nix::dir::OwningIter: `None` at the end of
/// the stream; otherwise the next entry, reduced to its bare file name, or
/// the errno of a failed directory read.
#[verifier::external_body]
pub(crate) fn dir_next_name(it: &mut nix::dir::OwningIter) -> (r: Option<Result<Vec<u8>, i32>>)
{
    it.next().map(|res| res.map(|e| e.file_name().to_bytes().to_vec()).map_err(|e| e as i32))
}

} // verus!
