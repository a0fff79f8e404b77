//! Bounded construction of null-terminated path and mode strings.
//!
//! Every string handed to a native call must be null-terminated and must
//! live in a fixed-capacity buffer: the target is memory-constrained, so
//! path composition may never allocate an unbounded amount. The buffer is a
//! `heapless::Vec`, kept behind a handful of trusted wrappers; everything
//! built on top of them — the concatenation, the capacity check, the
//! terminator — is verified.

use vstd::prelude::*;
use vstd::string::StringSliceAdditionalSpecFns;

use crate::status::Error;

verus! {

/// Capacity of the bounded buffer: the longest path (128 bytes) plus its
/// terminator.
pub const PATH_BUF_CAPACITY: usize = 128 + 1;

#[verifier::external_type_specification]
#[verifier::external_body]
#[verifier::reject_recursive_types(T)]
pub struct ExHeaplessVec<T, const N: usize>(heapless::Vec<T, N>);

/// The bytes a bounded buffer holds, in order.
pub uninterp spec fn buf_bytes(v: heapless::Vec<u8, PATH_BUF_CAPACITY>) -> Seq<u8>;

/// Relies on heapless::Vec::new: the new vector is empty.
#[verifier::external_body]
fn buf_new() -> (v: heapless::Vec<u8, PATH_BUF_CAPACITY>)
    ensures
        buf_bytes(v) == Seq::<u8>::empty(),
{
    heapless::Vec::new()
}

/// Relies on heapless::Vec::push: appends the byte when the vector holds
/// fewer than its capacity of elements, and otherwise hands the byte back
/// and changes nothing.
#[verifier::external_body]
fn buf_push(v: &mut heapless::Vec<u8, PATH_BUF_CAPACITY>, b: u8) -> (r: Result<(), u8>)
    ensures
        r is Ok <==> buf_bytes(*old(v)).len() < PATH_BUF_CAPACITY,
        r is Ok ==> buf_bytes(*final(v)) == buf_bytes(*old(v)).push(b),
        r is Err ==> r->Err_0 == b && buf_bytes(*final(v)) == buf_bytes(*old(v)),
{
    v.push(b)
}

/// Relies on heapless::Vec::extend_from_slice: appends the whole slice when
/// it fits the remaining capacity, and otherwise reports failure and changes
/// nothing.
#[verifier::external_body]
fn buf_extend(v: &mut heapless::Vec<u8, PATH_BUF_CAPACITY>, s: &[u8]) -> (r: Result<(), ()>)
    ensures
        r is Ok <==> buf_bytes(*old(v)).len() + s@.len() <= PATH_BUF_CAPACITY,
        r is Ok ==> buf_bytes(*final(v)) == buf_bytes(*old(v)) + s@,
        r is Err ==> buf_bytes(*final(v)) == buf_bytes(*old(v)),
{
    v.extend_from_slice(s)
}

/// Relies on heapless::Vec::as_slice: the slice views exactly the vector's
/// contents.
#[verifier::external_body]
fn buf_as_slice(v: &heapless::Vec<u8, PATH_BUF_CAPACITY>) -> (s: &[u8])
    ensures
        s@ == buf_bytes(*v),
{
    v.as_slice()
}

/// The UTF-8 bytes of each fragment, in order.
pub open spec fn frag_bytes(frags: Seq<&str>) -> Seq<Seq<u8>> {
    frags.map_values(|s: &str| s.spec_bytes())
}

/// Concatenation of byte sequences, in order.
pub open spec fn concat_bytes(parts: Seq<Seq<u8>>) -> Seq<u8>
    decreases parts.len(),
{
    if parts.len() == 0 {
        Seq::<u8>::empty()
    } else {
        concat_bytes(parts.drop_last()) + parts.last()
    }
}

proof fn lemma_concat_take_succ(parts: Seq<Seq<u8>>, i: int)
    requires
        0 <= i < parts.len(),
    ensures
        concat_bytes(parts.take(i + 1)) == concat_bytes(parts.take(i)) + parts[i],
{
    assert(parts.take(i + 1).drop_last() =~= parts.take(i));
    assert(parts.take(i + 1).last() == parts[i]);
}

proof fn lemma_concat_take_le(parts: Seq<Seq<u8>>, i: int)
    requires
        0 <= i <= parts.len(),
    ensures
        concat_bytes(parts.take(i)).len() <= concat_bytes(parts).len(),
    decreases parts.len() - i,
{
    if i == parts.len() {
        assert(parts.take(i) =~= parts);
    } else {
        lemma_concat_take_succ(parts, i);
        lemma_concat_take_le(parts, i + 1);
    }
}

/// A null-terminated string in a fixed-capacity buffer, ready to hand to a
/// native call. Its view is the buffer's bytes, terminator included.
pub struct HeaplessCStr {
    data: heapless::Vec<u8, PATH_BUF_CAPACITY>,
}

impl View for HeaplessCStr {
    type V = Seq<u8>;

    closed spec fn view(&self) -> Seq<u8> {
        buf_bytes(self.data)
    }
}

impl HeaplessCStr {
    /// Builds the null-terminated form of one string. Succeeds exactly when
    /// the string's bytes and the terminator fit the buffer; the only
    /// failure is `PathTooLong`.
    pub fn new(s: &str) -> (r: Result<HeaplessCStr, Error>)
        ensures
            r is Ok <==> s.spec_bytes().len() + 1 <= PATH_BUF_CAPACITY,
            r is Ok ==> r->Ok_0@ == s.spec_bytes() + seq![0u8],
            r is Err ==> r->Err_0 == Error::PathTooLong,
    {
        let mut data = buf_new();
        match buf_extend(&mut data, s.as_bytes()) {
            Ok(()) => {},
            Err(()) => {
                return Err(Error::PathTooLong);
            },
        }
        match buf_push(&mut data, 0) {
            Ok(()) => {},
            Err(_) => {
                return Err(Error::PathTooLong);
            },
        }
        proof {
            assert(buf_bytes(data) =~= s.spec_bytes() + seq![0u8]);
        }
        Ok(HeaplessCStr { data })
    }

    /// Builds the null-terminated concatenation of the fragments, in order.
    /// Succeeds exactly when the concatenation and the terminator fit the
    /// buffer; the only failure is `PathTooLong`, and a failed build writes
    /// nothing a later build could observe.
    pub fn new_multi(frags: &[&str]) -> (r: Result<HeaplessCStr, Error>)
        ensures
            r is Ok <==> concat_bytes(frag_bytes(frags@)).len() + 1 <= PATH_BUF_CAPACITY,
            r is Ok ==> r->Ok_0@ == concat_bytes(frag_bytes(frags@)) + seq![0u8],
            r is Err ==> r->Err_0 == Error::PathTooLong,
    {
        let mut data = buf_new();
        let n = frags.len();
        let mut i: usize = 0;
        while i < n
            invariant
                i <= n,
                n == frags@.len(),
                buf_bytes(data) == concat_bytes(frag_bytes(frags@).take(i as int)),
            decreases n - i,
        {
            let frag: &str = frags[i];
            proof {
                assert(frag_bytes(frags@)[i as int] == frag.spec_bytes());
                lemma_concat_take_succ(frag_bytes(frags@), i as int);
            }
            match buf_extend(&mut data, frag.as_bytes()) {
                Ok(()) => {},
                Err(()) => {
                    proof {
                        lemma_concat_take_le(frag_bytes(frags@), i as int + 1);
                    }
                    return Err(Error::PathTooLong);
                },
            }
            i = i + 1;
        }
        proof {
            assert(frag_bytes(frags@).take(n as int) =~= frag_bytes(frags@));
        }
        match buf_push(&mut data, 0) {
            Ok(()) => {},
            Err(_) => {
                return Err(Error::PathTooLong);
            },
        }
        proof {
            assert(buf_bytes(data) =~= concat_bytes(frag_bytes(frags@)) + seq![0u8]);
        }
        Ok(HeaplessCStr { data })
    }

    /// The buffer's bytes, terminator included; the shell takes the native
    /// C-string pointer from this slice.
    pub fn as_bytes(&self) -> (s: &[u8])
        ensures
            s@ == self@,
    {
        buf_as_slice(&self.data)
    }
}

} // verus!
