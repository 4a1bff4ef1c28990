//! Small string operations used when building text, and the checks that turn texts into the
//! nul-terminated strings that Vulkan reads.

use crate::renderer::{RendererError, SpecRendererError};
use vstd::prelude::*;
use vstd::slice::slice_to_vec;
use vstd::utf8::encode_utf8;

verus! {

/// Calls `String::push`: the character is added at the end of the string.
#[verifier::external_body]
pub fn push_char(s: &mut String, c: char)
    ensures
        final(s)@ == old(s)@.push(c),
{
    s.push(c)
}

/// Builds a string holding the characters `chars[from..to]`.
pub fn string_from_range(chars: &Vec<char>, from: usize, to: usize) -> (s: String)
    requires
        from <= to <= chars@.len(),
    ensures
        s@ == chars@.subrange(from as int, to as int),
{
    let mut s = String::new();
    let mut i: usize = from;
    while i < to
        invariant
            from <= i <= to <= chars@.len(),
            s@ == chars@.subrange(from as int, i as int),
        decreases to - i,
    {
        push_char(&mut s, chars[i]);
        i = i + 1;
        assert(chars@.subrange(from as int, i as int) == chars@.subrange(from as int, i - 1).push(
            chars@[i - 1],
        ));
    }
    s
}

/// Whether none of the first `n` bytes is a nul byte.
pub open spec fn no_nul_before(bytes: Seq<u8>, n: int) -> bool {
    forall|j: int| 0 <= j < n ==> bytes[j] != 0
}

/// Whether `i` is the position of the first nul byte.
pub open spec fn is_first_nul(bytes: Seq<u8>, i: int) -> bool {
    0 <= i < bytes.len() && bytes[i] == 0 && no_nul_before(bytes, i)
}

/// The position of the first nul byte, if there is one.
pub open spec fn first_nul(bytes: Seq<u8>) -> Option<int> {
    if exists|i: int| is_first_nul(bytes, i) {
        Some(choose|i: int| is_first_nul(bytes, i))
    } else {
        None
    }
}

/// There is at most one first nul byte.
proof fn lemma_first_nul_unique(bytes: Seq<u8>, i: int, k: int)
    requires
        is_first_nul(bytes, i),
        is_first_nul(bytes, k),
    ensures
        i == k,
{
    if i < k {
        assert(bytes[i] != 0);
    } else if k < i {
        assert(bytes[k] != 0);
    }
}

/// Finds the first nul byte.
pub fn find_nul(bytes: &[u8]) -> (r: Option<usize>)
    ensures
        match r {
            Some(i) => first_nul(bytes@) == Some(i as int),
            None => first_nul(bytes@) is None,
        },
{
    let mut i: usize = 0;
    while i < bytes.len()
        invariant
            i <= bytes@.len(),
            no_nul_before(bytes@, i as int),
        decreases bytes@.len() - i,
    {
        if bytes[i] == 0 {
            assert(is_first_nul(bytes@, i as int));
            proof {
                let k = choose|k: int| is_first_nul(bytes@, k);
                lemma_first_nul_unique(bytes@, i as int, k);
            }
            return Some(i);
        }
        i = i + 1;
    }
    assert forall|k: int| !is_first_nul(bytes@, k) by {
        if is_first_nul(bytes@, k) {
            assert(bytes@[k] != 0);
        }
    }
    None
}

/// Builds the error for a text holding a nul byte: its position and the text's bytes.
pub fn nul_error(position: usize, bytes: &[u8]) -> (e: RendererError)
    ensures
        e@ == SpecRendererError::StringContainingNullCharError(position, bytes@),
{
    RendererError::StringContainingNullCharError(position, slice_to_vec(bytes))
}

/// The bytes of a text as a C string (without its terminating nul byte), or the error for a text
/// holding a nul byte: the position of the first one and the text's bytes.
pub open spec fn c_string_of(text: Seq<char>) -> Result<Seq<u8>, SpecRendererError> {
    match first_nul(encode_utf8(text)) {
        Some(p) => Err(SpecRendererError::StringContainingNullCharError(p as usize, encode_utf8(text))),
        None => Ok(encode_utf8(text)),
    }
}

/// Converts a text to a C string: its bytes, which must hold no nul byte.
pub fn convert_to_cstring(text: &str) -> (r: Result<Vec<u8>, RendererError>)
    ensures
        match r {
            Ok(bytes) => c_string_of(text@) == Ok::<Seq<u8>, SpecRendererError>(bytes@),
            Err(e) => c_string_of(text@) == Err::<Seq<u8>, SpecRendererError>(e@),
        },
{
    let bytes = text.as_bytes();
    match find_nul(bytes) {
        Some(p) => Err(nul_error(p, bytes)),
        None => Ok(slice_to_vec(bytes)),
    }
}

} // verus!
