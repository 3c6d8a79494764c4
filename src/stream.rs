use vstd::prelude::*;

use crate::either::Either;

verus! {

#[verifier::external_type_specification]
#[verifier::external_body]
pub struct ExIoError(std::io::Error);

/// Relies on `std::io::Read::read`: on success the count is at most the
/// length of `buf`.
#[verifier::external_body]
fn read_from<T: std::io::Read>(src: &mut T, buf: &mut [u8]) -> (r: Result<usize, std::io::Error>)
    ensures
        final(buf)@.len() == old(buf)@.len(),
        r is Ok ==> r->Ok_0 <= old(buf)@.len(),
{
    src.read(buf)
}

/// Relies on `std::io::Read::read_to_end`: what is read is appended to
/// `buf`, and on success the count is the number of bytes appended.
#[verifier::external_body]
fn read_all_from<T: std::io::Read>(src: &mut T, buf: &mut Vec<u8>) -> (r: Result<usize, std::io::Error>)
    ensures
        final(buf)@.len() >= old(buf)@.len(),
        final(buf)@.subrange(0, old(buf)@.len() as int) == old(buf)@,
        r is Ok ==> final(buf)@.len() == old(buf)@.len() + r->Ok_0,
{
    src.read_to_end(buf)
}

/// Relies on `std::io::Write::write`: on success the count is at most the
/// length of `buf`.
#[verifier::external_body]
fn write_to<T: std::io::Write>(dst: &mut T, buf: &[u8]) -> (r: Result<usize, std::io::Error>)
    ensures
        r is Ok ==> r->Ok_0 <= buf@.len(),
{
    dst.write(buf)
}

/// Relies on `std::io::Write::flush`.
#[verifier::external_body]
fn flush_to<T: std::io::Write>(dst: &mut T) -> (r: Result<(), std::io::Error>) {
    dst.flush()
}

impl<L, R> Either<L, R> where L: std::io::Read, R: std::io::Read {
    /// Reads into `buf` from the active side's reader; the side stays the
    /// same and a success reports at most `buf.len()` bytes.
    pub fn read(&mut self, buf: &mut [u8]) -> (r: Result<usize, std::io::Error>)
        ensures
            (*final(self) is Left) == (*old(self) is Left),
            final(buf)@.len() == old(buf)@.len(),
            r is Ok ==> r->Ok_0 <= old(buf)@.len(),
    {
        match self {
            Either::Left(inner) => read_from(inner, buf),
            Either::Right(inner) => read_from(inner, buf),
        }
    }

    /// Reads the active side's reader to its end, appending to `buf`; the
    /// side stays the same and a success reports how many bytes were appended.
    pub fn read_to_end(&mut self, buf: &mut Vec<u8>) -> (r: Result<usize, std::io::Error>)
        ensures
            (*final(self) is Left) == (*old(self) is Left),
            final(buf)@.len() >= old(buf)@.len(),
            final(buf)@.subrange(0, old(buf)@.len() as int) == old(buf)@,
            r is Ok ==> final(buf)@.len() == old(buf)@.len() + r->Ok_0,
    {
        match self {
            Either::Left(inner) => read_all_from(inner, buf),
            Either::Right(inner) => read_all_from(inner, buf),
        }
    }
}

impl<L, R> Either<L, R> where L: std::io::Write, R: std::io::Write {
    /// Writes `buf` to the active side's writer; the side stays the same and
    /// a success reports at most `buf.len()` bytes.
    pub fn write(&mut self, buf: &[u8]) -> (r: Result<usize, std::io::Error>)
        ensures
            (*final(self) is Left) == (*old(self) is Left),
            r is Ok ==> r->Ok_0 <= buf@.len(),
    {
        match self {
            Either::Left(inner) => write_to(inner, buf),
            Either::Right(inner) => write_to(inner, buf),
        }
    }

    /// Flushes the active side's writer; the side stays the same.
    pub fn flush(&mut self) -> (r: Result<(), std::io::Error>)
        ensures
            (*final(self) is Left) == (*old(self) is Left),
    {
        match self {
            Either::Left(inner) => flush_to(inner),
            Either::Right(inner) => flush_to(inner),
        }
    }
}

/// Reads from the active side, as `Either::read` and `Either::read_to_end` do.
impl<L, R> std::io::Read for Either<L, R> where L: std::io::Read, R: std::io::Read {
    fn read(&mut self, buf: &mut [u8]) -> Result<usize, std::io::Error> {
        Either::read(self, buf)
    }

    fn read_to_end(&mut self, buf: &mut Vec<u8>) -> Result<usize, std::io::Error> {
        Either::read_to_end(self, buf)
    }
}

/// Writes to the active side, as `Either::write` and `Either::flush` do.
impl<L, R> std::io::Write for Either<L, R> where L: std::io::Write, R: std::io::Write {
    fn write(&mut self, buf: &[u8]) -> Result<usize, std::io::Error> {
        Either::write(self, buf)
    }

    fn flush(&mut self) -> Result<(), std::io::Error> {
        Either::flush(self)
    }
}

} // verus!
