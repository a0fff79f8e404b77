//! The computational half of file I/O: deciding whether a native write
//! succeeded, and accumulating chunked reads into one owned buffer.
//!
//! The native `fwrite`/`fread` calls themselves happen outside the library;
//! the shell hands the counts and chunk contents in as plain values.

use vstd::prelude::*;

use crate::status::Error;

verus! {

/// Judges a native write: it succeeded only if the native call reported
/// exactly the requested byte count written; any short write is a generic
/// error, with no partial-write recovery.
pub fn write_outcome(requested: usize, written: usize) -> (r: Result<(), Error>)
    ensures
        r is Ok <==> written == requested,
        written != requested ==> r == Result::<(), Error>::Err(Error::GenericOperationFailed),
{
    if written == requested {
        Ok(())
    } else {
        Err(Error::GenericOperationFailed)
    }
}

/// Appends the first `len` bytes of a freshly read chunk to the accumulated
/// contents. Reading to end of stream is this, repeated until a zero-length
/// read.
pub fn append_chunk(acc: &mut Vec<u8>, chunk: &[u8], len: usize)
    requires
        len <= chunk@.len(),
    ensures
        final(acc)@ == old(acc)@ + chunk@.subrange(0, len as int),
{
    let mut i: usize = 0;
    while i < len
        invariant
            i <= len,
            len <= chunk@.len(),
            acc@ == old(acc)@ + chunk@.subrange(0, i as int),
        decreases len - i,
    {
        let b = chunk[i];
        acc.push(b);
        i = i + 1;
        assert(acc@ =~= old(acc)@ + chunk@.subrange(0, i as int));
    }
}

} // verus!
