//! Traits for asynchronous I/O: the awaitable variants of `Read` and `Write`.
use vstd::prelude::*;
use crate::{Await, Boxed};

verus! {

/// The error of an I/O operation of `std::io`, opaque to the verifier.
#[verifier::external_type_specification]
#[verifier::external_body]
pub struct ExIoError(std::io::Error);

/// A source of bytes that is read from asynchronously.
pub trait ReadAsync {
    /// Starts to pull some bytes from this source into `buf`. The result can
    /// be awaited, and then says how many bytes were read. The buffer keeps
    /// its length.
    fn read_async(&mut self, buf: &mut [u8]) -> (reading: Boxed<Result<usize, std::io::Error>>)
        ensures
            reading.awaitable(),
            final(buf)@.len() == old(buf)@.len(),
    ;
}

/// A byte-oriented sink that is written to asynchronously.
pub trait WriteAsync {
    /// Starts to write some bytes of `buf` into this sink. The result can be
    /// awaited, and then says how many bytes were written.
    fn write_async(&mut self, buf: &[u8]) -> (writing: Boxed<Result<usize, std::io::Error>>)
        ensures
            writing.awaitable(),
    ;

    /// Starts to flush this sink, so that all buffered bytes reach their
    /// destination. The result can be awaited.
    fn flush_async(&mut self) -> (flushing: Boxed<Result<(), std::io::Error>>)
        ensures
            flushing.awaitable(),
    ;
}

} // verus!
