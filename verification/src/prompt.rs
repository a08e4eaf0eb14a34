//! From the caller's prompt bytes to the text that is shown.
//!
//! The prompt arrives as bytes that end at the first NUL. Nothing promises
//! that they are UTF-8: what is not is replaced, never refused, so every
//! byte sequence yields a prompt.

use vstd::prelude::*;
use vstd::slice::slice_subrange;
use vstd::utf8::{decode_utf8, valid_utf8};

verus! {

/// The number of bytes that stand before the first NUL of `bytes`; all of
/// them when there is no NUL.
pub open spec fn prompt_len(bytes: Seq<u8>) -> nat
    decreases bytes.len(),
{
    if bytes.len() == 0 || bytes[0] == 0 {
        0
    } else {
        1 + prompt_len(bytes.skip(1))
    }
}

/// The bytes of the prompt: those before the first NUL.
pub open spec fn prompt_of(bytes: Seq<u8>) -> Seq<u8> {
    bytes.take(prompt_len(bytes) as int)
}

/// `n` is where the prompt in `bytes` ends: no NUL stands before `n`, and
/// at `n` stands a NUL or the end of the bytes.
pub open spec fn ends_prompt(bytes: Seq<u8>, n: int) -> bool {
    &&& 0 <= n <= bytes.len()
    &&& forall|i: int| 0 <= i < n ==> bytes[i] != 0
    &&& n < bytes.len() ==> bytes[n] == 0
}

/// The prompt ends in exactly one place, and `prompt_len` is that place.
pub proof fn lemma_prompt_len_ends_prompt(bytes: Seq<u8>, n: int)
    ensures
        ends_prompt(bytes, n) <==> n == prompt_len(bytes),
    decreases bytes.len(),
{
    if bytes.len() == 0 || bytes[0] == 0 {
        if ends_prompt(bytes, n) && n > 0 {
            assert(bytes[0] != 0);
        }
    } else {
        let rest = bytes.skip(1);
        lemma_prompt_len_ends_prompt(rest, n - 1);
        if ends_prompt(bytes, n) {
            assert(n != 0);
            assert forall|i: int| 0 <= i < n - 1 implies rest[i] != 0 by {
                assert(rest[i] == bytes[i + 1]);
            }
            assert(ends_prompt(rest, n - 1));
        }
        if n == prompt_len(bytes) {
            assert(ends_prompt(rest, n - 1));
            assert forall|i: int| 0 <= i < n implies bytes[i] != 0 by {
                if i > 0 {
                    assert(rest[i - 1] == bytes[i]);
                }
            }
            if n < bytes.len() {
                assert(rest[n - 1] == bytes[n]);
            }
        }
    }
}

/// The text that lossy decoding makes of a byte sequence.
pub uninterp spec fn lossy_text(bytes: Seq<u8>) -> Seq<char>;

/// Calls `String::from_utf8_lossy` and takes the result as an owned string.
/// The contract claims that the text depends on the bytes alone, and that
/// bytes which are valid UTF-8 come out as the characters they encode; of
/// other bytes it says only that some text comes back.
#[verifier::external_body]
fn decode_lossy(bytes: &[u8]) -> (text: String)
    ensures
        text@ == lossy_text(bytes@),
        valid_utf8(bytes@) ==> text@ == decode_utf8(bytes@),
{
    String::from_utf8_lossy(bytes).into_owned()
}

/// Cuts the prompt out of the caller's bytes: everything before the first
/// NUL, or all of it when no NUL is there.
pub fn prompt_bytes(bytes: &[u8]) -> (prompt: &[u8])
    ensures
        prompt@ == prompt_of(bytes@),
        ends_prompt(bytes@, prompt@.len() as int),
{
    let mut n: usize = 0;
    while n < bytes.len() && bytes[n] != 0
        invariant
            n <= bytes.len(),
            forall|i: int| 0 <= i < n ==> bytes@[i] != 0,
        decreases bytes.len() - n,
    {
        n += 1;
    }
    proof {
        lemma_prompt_len_ends_prompt(bytes@, n as int);
    }
    slice_subrange(bytes, 0, n)
}

/// Decodes the caller's prompt for display. Bytes that are not UTF-8 are
/// replaced rather than refused, so this succeeds on every input.
pub fn decode_prompt(bytes: &[u8]) -> (text: String)
    ensures
        text@ == lossy_text(prompt_of(bytes@)),
        valid_utf8(prompt_of(bytes@)) ==> text@ == decode_utf8(prompt_of(bytes@)),
{
    decode_lossy(prompt_bytes(bytes))
}

} // verus!
