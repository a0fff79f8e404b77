//! Directory entries, with their names copied out of the native stream.
//!
//! The native directory stream reuses one internal record per handle, so the
//! shell copies the raw name bytes out of each record as it is produced.
//! An entry owns that copy; decoding it as text is done here, and can fail
//! without panicking when the bytes are not valid UTF-8.

use vstd::prelude::*;
use vstd::slice::{slice_index_get, slice_subrange};
use vstd::string::StringSliceAdditionalSpecFns;
use vstd::utf8::{decode_utf8, encode_utf8, encode_utf8_decode_utf8, valid_utf8};

use crate::status::Error;

verus! {

/// The name bytes of a C string: everything before the first NUL byte, or
/// the whole sequence when it holds none.
pub open spec fn cstr_prefix(bytes: Seq<u8>) -> Seq<u8>
    decreases bytes.len(),
{
    if bytes.len() == 0 {
        Seq::<u8>::empty()
    } else if bytes[0] == 0 {
        Seq::<u8>::empty()
    } else {
        seq![bytes[0]] + cstr_prefix(bytes.drop_first())
    }
}

proof fn lemma_cstr_prefix_take(bytes: Seq<u8>, n: int)
    requires
        0 <= n <= bytes.len(),
        forall|j: int| 0 <= j < n ==> bytes[j] != 0,
        n == bytes.len() || bytes[n] == 0,
    ensures
        cstr_prefix(bytes) == bytes.take(n),
    decreases bytes.len(),
{
    if bytes.len() == 0 {
        assert(bytes.take(n) =~= Seq::<u8>::empty());
    } else if bytes[0] == 0 {
        assert(n == 0);
        assert(bytes.take(0) =~= Seq::<u8>::empty());
    } else {
        assert(n >= 1);
        lemma_cstr_prefix_take(bytes.drop_first(), n - 1);
        assert(bytes.take(n) =~= seq![bytes[0]] + bytes.drop_first().take(n - 1));
    }
}

/// One directory entry, holding its own copy of the raw name bytes.
pub struct LsEntry {
    raw: Vec<u8>,
}

impl View for LsEntry {
    type V = Seq<u8>;

    closed spec fn view(&self) -> Seq<u8> {
        self.raw@
    }
}

/// Relies on core::str::from_utf8: it returns Ok exactly when the bytes are
/// a valid UTF-8 encoding, and the returned text views those same bytes.
#[verifier::external_body]
fn utf8_decode(b: &[u8]) -> (r: Option<&str>)
    ensures
        r is Some <==> valid_utf8(b@),
        r is Some ==> r->0.spec_bytes() == b@,
{
    core::str::from_utf8(b).ok()
}

impl LsEntry {
    /// Wraps the raw name bytes the shell copied out of one native
    /// directory record.
    pub fn new(raw: Vec<u8>) -> (e: LsEntry)
        ensures
            e@ == raw@,
    {
        LsEntry { raw }
    }

    /// The entry's name: the bytes before the first NUL, decoded as UTF-8.
    /// Succeeds exactly when those bytes are valid UTF-8; bad bytes give a
    /// decode error, never a panic.
    pub fn name(&self) -> (r: Result<String, Error>)
        ensures
            r is Ok <==> valid_utf8(cstr_prefix(self@)),
            r is Ok ==> r->Ok_0@ == decode_utf8(cstr_prefix(self@)),
            r is Ok ==> encode_utf8(r->Ok_0@) == cstr_prefix(self@),
            r is Err ==> r->Err_0 == Error::DecodeFailed,
    {
        let len = self.raw.len();
        let mut n: usize = 0;
        while n < len && *slice_index_get(self.raw.as_slice(), n) != 0
            invariant
                n <= len,
                len == self.raw@.len(),
                forall|j: int| 0 <= j < n ==> self.raw@[j] != 0,
            decreases len - n,
        {
            n = n + 1;
        }
        proof {
            lemma_cstr_prefix_take(self.raw@, n as int);
        }
        let prefix = slice_subrange(self.raw.as_slice(), 0, n);
        match utf8_decode(prefix) {
            Some(s) => {
                proof {
                    encode_utf8_decode_utf8(s@);
                }
                Ok(s.to_owned())
            },
            None => Err(Error::DecodeFailed),
        }
    }
}

} // verus!
