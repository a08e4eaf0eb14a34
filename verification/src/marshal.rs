//! The reply: a result code, and the line's bytes in the caller's buffer.
//!
//! The buffer belongs to the caller. It is written only when a line was
//! read and is strictly shorter than the capacity; then exactly the line's
//! bytes go to its front, with no terminator, and the rest stays as it was.
//! In every other case the buffer is left alone and the code is negative.
//! A capacity of zero or less has room for no line, not even an empty one.

use crate::codes::Condition;
use crate::outcome::{Attempt, ReadOutcome};
use vstd::prelude::*;
use vstd::utf8::encode_utf8;

verus! {

/// The bytes that stand for a line in the buffer: its UTF-8 encoding.
pub open spec fn line_bytes(line: Seq<char>) -> Seq<u8> {
    encode_utf8(line)
}

/// A line fits when it is strictly shorter, in bytes, than the capacity.
pub open spec fn fits(line: Seq<char>, capacity: int) -> bool {
    line_bytes(line).len() < capacity
}

/// The buffer after `bytes` were copied to its front.
pub open spec fn overwritten(before: Seq<u8>, bytes: Seq<u8>) -> Seq<u8> {
    bytes + before.skip(bytes.len() as int)
}

/// The condition that an attempt ends in, or `None` when it yields a line
/// that fits the capacity.
pub open spec fn condition_of(attempt: Attempt, capacity: int) -> Option<Condition> {
    match attempt {
        Attempt::SessionFailed => Some(Condition::SessionFailure),
        Attempt::Completed(ReadOutcome::Submitted(line)) => if fits(line@, capacity) {
            None
        } else {
            Some(Condition::Overflow)
        },
        Attempt::Completed(ReadOutcome::EndOfInput) => Some(Condition::EndOfInput),
        Attempt::Completed(ReadOutcome::Interrupted) => Some(Condition::Interrupted),
        Attempt::Completed(ReadOutcome::Resized) => Some(Condition::Resized),
        Attempt::Completed(ReadOutcome::OtherFailure) => Some(Condition::EditorFailure),
    }
}

/// The bytes that a reply puts into the buffer: the line's, when there is a
/// line and it fits, and otherwise none.
pub open spec fn written(attempt: Attempt, capacity: int) -> Seq<u8> {
    match attempt {
        Attempt::Completed(ReadOutcome::Submitted(line)) if fits(line@, capacity) => line_bytes(
            line@,
        ),
        _ => Seq::empty(),
    }
}

/// The integer that a reply returns: the number of bytes written, or the
/// code of the condition that kept the line away.
pub open spec fn result_code(attempt: Attempt, capacity: int) -> int {
    match condition_of(attempt, capacity) {
        Some(condition) => condition.code(),
        None => written(attempt, capacity).len() as int,
    }
}

/// The buffer as a reply leaves it.
pub open spec fn buffer_after(attempt: Attempt, capacity: int, before: Seq<u8>) -> Seq<u8> {
    overwritten(before, written(attempt, capacity))
}

/// Copies `bytes` to the front of `buffer` and leaves the rest alone.
fn copy_to_front(bytes: &[u8], buffer: &mut [u8])
    requires
        bytes@.len() <= old(buffer)@.len(),
    ensures
        final(buffer)@ == overwritten(old(buffer)@, bytes@),
{
    let mut i: usize = 0;
    while i < bytes.len()
        invariant
            i <= bytes@.len() <= buffer@.len(),
            buffer@.len() == old(buffer)@.len(),
            forall|j: int| 0 <= j < i ==> buffer@[j] == bytes@[j],
            forall|j: int| i <= j < buffer@.len() ==> buffer@[j] == old(buffer)@[j],
        decreases bytes@.len() - i,
    {
        buffer[i] = bytes[i];
        i += 1;
    }
    assert(buffer@ =~= overwritten(old(buffer)@, bytes@));
}

/// Hands a submitted line to the caller. A line of fewer bytes than the
/// capacity is copied to the front of the buffer and its length returned;
/// any other line leaves the buffer as it was and returns -1.
pub fn deliver(line: &str, buffer: &mut [u8], buffer_capacity: i32) -> (code: i32)
    requires
        buffer_capacity <= old(buffer)@.len(),
    ensures
        final(buffer)@.len() == old(buffer)@.len(),
        fits(line@, buffer_capacity as int) ==> {
            &&& code == line_bytes(line@).len()
            &&& final(buffer)@.take(code as int) == line_bytes(line@)
            &&& final(buffer)@.skip(code as int) == old(buffer)@.skip(code as int)
        },
        !fits(line@, buffer_capacity as int) ==> {
            &&& code == -1
            &&& final(buffer)@ == old(buffer)@
        },
{
    let bytes = line.as_bytes();
    if buffer_capacity > 0 && bytes.len() < buffer_capacity as usize {
        copy_to_front(bytes, buffer);
        assert(buffer@.take(bytes@.len() as int) =~= bytes@);
        assert(buffer@.skip(bytes@.len() as int) =~= old(buffer)@.skip(bytes@.len() as int));
        bytes.len() as i32
    } else {
        Condition::Overflow.to_code()
    }
}

/// Builds the reply to one call: the result code, and in the buffer the
/// line's bytes when a line was read and fits. On every negative code the
/// buffer is byte for byte what it was.
pub fn marshal(attempt: &Attempt, buffer: &mut [u8], buffer_capacity: i32) -> (code: i32)
    requires
        buffer_capacity <= old(buffer)@.len(),
    ensures
        code == result_code(*attempt, buffer_capacity as int),
        final(buffer)@ == buffer_after(*attempt, buffer_capacity as int, old(buffer)@),
        code < 0 ==> final(buffer)@ == old(buffer)@,
        code >= 0 ==> code < buffer_capacity,
{
    match attempt {
        Attempt::SessionFailed => Condition::SessionFailure.to_code(),
        Attempt::Completed(ReadOutcome::Submitted(line)) => {
            let code = deliver(line.as_str(), buffer, buffer_capacity);
            proof {
                if fits(line@, buffer_capacity as int) {
                    assert(buffer@ =~= buffer@.take(code as int) + buffer@.skip(code as int));
                }
            }
            code
        },
        Attempt::Completed(ReadOutcome::EndOfInput) => Condition::EndOfInput.to_code(),
        Attempt::Completed(ReadOutcome::Interrupted) => Condition::Interrupted.to_code(),
        Attempt::Completed(ReadOutcome::Resized) => Condition::Resized.to_code(),
        Attempt::Completed(ReadOutcome::OtherFailure) => Condition::EditorFailure.to_code(),
    }
}

/// A submitted line of fewer bytes than the capacity is answered with its
/// length, and the buffer then starts with the line's bytes and is otherwise
/// unchanged. A line of as many bytes as the capacity, or more, is answered
/// with -1 and an unchanged buffer.
pub proof fn lemma_line_against_capacity(line: String, capacity: int, before: Seq<u8>)
    requires
        capacity <= before.len(),
    ensures
        ({
            let attempt = Attempt::Completed(ReadOutcome::Submitted(line));
            let length = line_bytes(line@).len() as int;
            let after = buffer_after(attempt, capacity, before);
            &&& after.len() == before.len()
            &&& length < capacity ==> {
                &&& result_code(attempt, capacity) == length
                &&& after.take(length) == line_bytes(line@)
                &&& after.skip(length) == before.skip(length)
            }
            &&& length >= capacity ==> {
                &&& result_code(attempt, capacity) == -1
                &&& after == before
            }
        }),
{
    let attempt = Attempt::Completed(ReadOutcome::Submitted(line));
    let length = line_bytes(line@).len() as int;
    let after = buffer_after(attempt, capacity, before);
    if length < capacity {
        assert(after.take(length) =~= line_bytes(line@));
        assert(after.skip(length) =~= before.skip(length));
    } else {
        assert(after =~= before);
    }
}

/// A result code is non-negative exactly when the attempt yields a line that
/// fits, and is then the number of bytes written. Every other attempt gets
/// the code of its condition, which lies between -6 and -1, so no condition
/// can be taken for a length.
pub proof fn lemma_code_tells_outcome(attempt: Attempt, capacity: int)
    ensures
        result_code(attempt, capacity) >= 0 <==> condition_of(attempt, capacity) is None,
        condition_of(attempt, capacity) is None <==> (attempt matches Attempt::Completed(
            ReadOutcome::Submitted(line),
        ) && fits(line@, capacity)),
        condition_of(attempt, capacity) matches Some(condition) ==> {
            &&& result_code(attempt, capacity) == condition.code()
            &&& -6 <= result_code(attempt, capacity) <= -1
        },
        condition_of(attempt, capacity) is None ==> result_code(attempt, capacity) == written(
            attempt,
            capacity,
        ).len(),
{
}

/// What a reply does to the buffer goes with its code. On a negative code
/// nothing is written: the buffer is what it was. On a non-negative code
/// exactly that many bytes are written, fewer than the capacity, at the
/// front of the buffer, and what lies behind them is what it was.
pub proof fn lemma_write_matches_code(attempt: Attempt, capacity: int, before: Seq<u8>)
    requires
        capacity <= before.len(),
    ensures
        ({
            let code = result_code(attempt, capacity);
            let after = buffer_after(attempt, capacity, before);
            &&& after.len() == before.len()
            &&& code < 0 ==> after == before
            &&& code >= 0 ==> {
                &&& code < capacity
                &&& written(attempt, capacity).len() == code
                &&& after.take(code) == written(attempt, capacity)
                &&& after.skip(code) == before.skip(code)
            }
        }),
{
    let code = result_code(attempt, capacity);
    let after = buffer_after(attempt, capacity, before);
    if code < 0 {
        assert(after =~= before);
    } else {
        assert(after.take(code) =~= written(attempt, capacity));
        assert(after.skip(code) =~= before.skip(code));
    }
}

/// The buffer is never read. Whatever two buffers held before, the same
/// attempt under the same capacity is answered with the same code and puts
/// the same bytes at the front of each, and each keeps its own bytes behind
/// them: nothing of one buffer shows up in the reply to the other.
pub proof fn lemma_buffer_never_read(
    attempt: Attempt,
    capacity: int,
    first: Seq<u8>,
    second: Seq<u8>,
)
    requires
        capacity <= first.len(),
        capacity <= second.len(),
    ensures
        ({
            let count = written(attempt, capacity).len() as int;
            let first_after = buffer_after(attempt, capacity, first);
            let second_after = buffer_after(attempt, capacity, second);
            &&& first_after.take(count) == second_after.take(count)
            &&& first_after.skip(count) == first.skip(count)
            &&& second_after.skip(count) == second.skip(count)
        }),
{
    let count = written(attempt, capacity).len() as int;
    let first_after = buffer_after(attempt, capacity, first);
    let second_after = buffer_after(attempt, capacity, second);
    assert(first_after.take(count) =~= written(attempt, capacity));
    assert(second_after.take(count) =~= written(attempt, capacity));
    assert(first_after.skip(count) =~= first.skip(count));
    assert(second_after.skip(count) =~= second.skip(count));
}

} // verus!
