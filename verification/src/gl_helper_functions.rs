//! Reading the backend's descriptive strings.

use vstd::prelude::*;
use vstd::utf8::{decode_utf8, valid_utf8};
use crate::backend::{Backend, GlCall, StringName};
use crate::gpu::Gpu;

verus! {

/// The bytes of `bytes` in front of its first terminator byte, all of them
/// if it holds none.
pub open spec fn until_terminator(bytes: Seq<u8>) -> Seq<u8>
    decreases bytes.len(),
{
    if bytes.len() == 0 || bytes[0] == 0u8 {
        Seq::<u8>::empty()
    } else {
        seq![bytes[0]] + until_terminator(bytes.subrange(1, bytes.len() as int))
    }
}

/// `until_terminator(bytes)` is the longest prefix of `bytes` without a
/// terminator byte.
pub proof fn lemma_until_terminator(bytes: Seq<u8>)
    ensures
        until_terminator(bytes).len() <= bytes.len(),
        until_terminator(bytes) == bytes.subrange(0, until_terminator(bytes).len() as int),
        forall|i: int| 0 <= i < until_terminator(bytes).len() ==> bytes[i] != 0u8,
        until_terminator(bytes).len() < bytes.len() ==> bytes[until_terminator(bytes).len() as int]
            == 0u8,
    decreases bytes.len(),
{
    if bytes.len() == 0 || bytes[0] == 0u8 {
        assert(until_terminator(bytes) =~= bytes.subrange(0, 0));
    } else {
        let rest = bytes.subrange(1, bytes.len() as int);
        lemma_until_terminator(rest);
        let n = until_terminator(rest).len() as int;
        assert(until_terminator(bytes) =~= bytes.subrange(0, n + 1)) by {
            assert(until_terminator(rest) == rest.subrange(0, n));
            assert forall|i: int| 0 <= i < n + 1 implies until_terminator(bytes)[i]
                == bytes.subrange(0, n + 1)[i] by {
                if i > 0 {
                    assert(until_terminator(bytes)[i] == until_terminator(rest)[i - 1]);
                    assert(rest.subrange(0, n)[i - 1] == rest[i - 1]);
                }
            }
        }
        assert forall|i: int| 0 <= i < n + 1 implies bytes[i] != 0u8 by {
            if i > 0 {
                assert(bytes[i] == rest[i - 1]);
            }
        }
        if n + 1 < bytes.len() {
            assert(bytes[n + 1] == rest[n]);
        }
    }
}

/// The text made of a backend string's bytes: the bytes in front of the
/// first terminator, then one terminator; `None` if that is not UTF-8.
pub open spec fn gl_string_text(bytes: Seq<u8>) -> Option<Seq<char>> {
    let terminated = until_terminator(bytes).push(0u8);
    if valid_utf8(terminated) {
        Some(decode_utf8(terminated))
    } else {
        None
    }
}

/// The characters of a text, if there is one.
pub open spec fn text_view(text: Option<String>) -> Option<Seq<char>> {
    match text {
        Some(s) => Some(s@),
        None => None,
    }
}

/// `String::from_utf8` of std: the text that `bytes` encodes, `None` if they
/// are not valid UTF-8.
#[verifier::external_body]
pub(crate) fn string_from_utf8(bytes: Vec<u8>) -> (text: Option<String>)
    ensures
        text is Some <==> valid_utf8(bytes@),
        text matches Some(s) ==> s@ == decode_utf8(bytes@),
{
    String::from_utf8(bytes).ok()
}

/// Copies the bytes of `bytes` in front of its first terminator byte.
pub fn copy_until_terminator(bytes: &Vec<u8>) -> (prefix: Vec<u8>)
    ensures
        prefix@ == until_terminator(bytes@),
{
    let mut prefix: Vec<u8> = Vec::new();
    let mut i: usize = 0;
    proof {
        lemma_until_terminator(bytes@);
    }
    while i < bytes.len() && bytes[i] != 0
        invariant
            i <= bytes.len(),
            prefix@ == bytes@.subrange(0, i as int),
            forall|j: int| 0 <= j < i ==> bytes@[j] != 0u8,
        decreases bytes.len() - i,
    {
        prefix.push(bytes[i]);
        i += 1;
        assert(prefix@ =~= bytes@.subrange(0, i as int));
    }
    proof {
        let n = until_terminator(bytes@).len();
        if n < i {
            assert(bytes@[n as int] == 0u8);
        }
        if i < n {
            assert(bytes@[i as int] != 0u8);
        }
        assert(n == i);
    }
    prefix
}

/// Asks the backend for the string `name` and makes a text of it: the bytes
/// in front of the first terminator, then a terminator character that marks
/// the end. `None` if those bytes are not UTF-8.
pub fn get_gl_string<B: Backend>(gpu: &mut Gpu<B>, name: StringName) -> (text: Option<String>)
    ensures
        exists|bytes: Seq<u8>|
            {
                &&& final(gpu).calls() == old(gpu).calls().push(
                    (GlCall::GetString { name, text: bytes }),
                )
                &&& text_view(text) == #[trigger] gl_string_text(bytes)
            },
{
    let bytes = gpu.get_string(name);
    let mut charbuff = copy_until_terminator(&bytes);
    charbuff.push(0u8);
    let ghost terminated = charbuff@;
    let text = string_from_utf8(charbuff);
    assert(terminated == until_terminator(bytes@).push(0u8));
    assert(text_view(text) == gl_string_text(bytes@));
    text
}

} // verus!
