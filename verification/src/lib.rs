//! The core of a small cheat-sheet program.
//!
//! The program around this library does two things: it prints one fixed
//! banner line, and it offers a loader that reads a whole file into memory.
//! The file system calls themselves cannot stand in a verified library, so
//! the program performs them and reports each outcome — the bytes one read
//! yielded, end of file, or a failure — to the [`Loader`] here, which makes
//! every decision about the result: it accumulates the bytes in order,
//! completes with exactly the accumulated buffer, and on any failure
//! surfaces that one error and discards the partial buffer. The banner text
//! itself is the library's as well.

use vstd::prelude::*;
use vstd::string::StringExecFns;

verus! {

/// The failure classes the file loader distinguishes.
///
/// Opening or reading a file fails for one of three reasons that callers
/// care about: the path names no existing file, the file exists but may not
/// be read, or some other operating-system I/O failure occurred. No retry or
/// recovery is attempted anywhere: a failure is surfaced to the caller as
/// one of these values, and no partial buffer accompanies it.
#[derive(Clone, Copy, Debug, PartialEq, Eq, Structural)]
pub enum LoadError {
    /// The path names no existing file.
    NotFound,
    /// The file exists, but reading it is not permitted.
    PermissionDenied,
    /// Any other operating-system I/O failure, on open or mid-read.
    Other,
}

impl LoadError {
    /// A short description of the failure, one fixed text per variant.
    pub fn describe(&self) -> (r: String)
        ensures
            *self == LoadError::NotFound ==> r@ == "file not found"@,
            *self == LoadError::PermissionDenied ==> r@ == "permission denied"@,
            *self == LoadError::Other ==> r@ == "I/O error"@,
    {
        match self {
            LoadError::NotFound => String::from_str("file not found"),
            LoadError::PermissionDenied => String::from_str("permission denied"),
            LoadError::Other => String::from_str("I/O error"),
        }
    }
}

/// One load of a file into memory.
///
/// A load is a single linear run: the caller opens the file, reads it chunk
/// by chunk until end of file, and reports each outcome here. The loader
/// owns the growing buffer; its view is the bytes accumulated so far.
/// Exactly one of [`Loader::finish`] and [`Loader::fail`] ends the run, and
/// the contracts fix the outcome completely: on success the buffer holds
/// every reported byte, in order, and nothing else; on failure the one
/// error is returned and no partial buffer escapes.
pub struct Loader {
    buf: Vec<u8>,
}

impl View for Loader {
    type V = Seq<u8>;

    closed spec fn view(&self) -> Seq<u8> {
        self.buf@
    }
}

impl Loader {
    /// A fresh load: nothing has been read yet, the buffer is empty.
    pub fn new() -> (r: Loader)
        ensures
            r@ == Seq::<u8>::empty(),
    {
        Loader { buf: Vec::new() }
    }

    /// One read handed back these bytes: append them, all of them, in order.
    pub fn push_chunk(&mut self, chunk: &[u8])
        ensures
            final(self)@ == old(self)@ + chunk@,
    {
        let mut i: usize = 0;
        while i < chunk.len()
            invariant
                i <= chunk.len(),
                self.buf@ == old(self).buf@ + chunk@.subrange(0, i as int),
            decreases chunk.len() - i,
        {
            self.buf.push(chunk[i]);
            i = i + 1;
        }
        proof {
            assert(chunk@.subrange(0, chunk.len() as int) =~= chunk@);
        }
    }

    /// End of file was reached: the load succeeds, and the buffer returned
    /// is byte for byte the accumulated contents — as many bytes as the
    /// file yielded, no more, no fewer.
    pub fn finish(self) -> (r: Result<Vec<u8>, LoadError>)
        ensures
            (r matches Ok(b) && b@ == self@),
    {
        Ok(self.buf)
    }

    /// Opening or reading failed: the load fails with exactly that error,
    /// and the partial buffer is discarded — no bytes are returned.
    pub fn fail(self, e: LoadError) -> (r: Result<Vec<u8>, LoadError>)
        ensures
            (r matches Err(err) && err == e),
    {
        Err(e)
    }
}

/// The contents of one whole load, as a function of what the file yielded:
/// the bytes of the chunks, in order. [`Loader::push_chunk`] accumulates
/// exactly this, one chunk at a time.
pub open spec fn loaded(chunks: Seq<Seq<u8>>) -> Seq<u8>
    decreases chunks.len(),
{
    if chunks.len() == 0 {
        Seq::<u8>::empty()
    } else {
        loaded(chunks.drop_last()) + chunks.last()
    }
}

/// Law: one more read appends exactly its bytes to the contents — nothing
/// is dropped, reordered or invented along the way.
pub proof fn lemma_loaded_push(chunks: Seq<Seq<u8>>, c: Seq<u8>)
    ensures
        loaded(chunks.push(c)) == loaded(chunks) + c,
{
    assert(chunks.push(c).drop_last() =~= chunks);
}

/// Law: a load is repeatable. Reading an unchanged file twice hands the
/// loader the same chunks both times, and the contents accumulated from
/// them are then identical: nothing besides the chunks — no clock, no
/// path, no earlier call — enters the outcome.
pub proof fn lemma_load_repeatable(first: Seq<Seq<u8>>, second: Seq<Seq<u8>>)
    requires
        first == second,
    ensures
        loaded(first) == loaded(second),
{
}

/// The single line the program prints when it is run.
///
/// The text is fixed: no argument, no environment, no file changes it, and
/// it contains no line break, so printing it yields exactly one line.
pub fn banner() -> (r: String)
    ensures
        r@ == "Rust cheatsheet snippets"@,
        forall|i: int| 0 <= i < r@.len() ==> r@[i] != '\n',
{
    proof {
        reveal_strlit("Rust cheatsheet snippets");
    }
    String::from_str("Rust cheatsheet snippets")
}

} // verus!
