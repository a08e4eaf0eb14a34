use repel::marshal::{deliver, marshal};
use repel::outcome::{outcome_of, Attempt, ReadOutcome};
use repel::prompt::decode_prompt;
use rustyline::error::ReadlineError;

fn submitted(line: &str) -> Attempt {
    Attempt::Completed(outcome_of(Ok(String::from(line))))
}

fn failed(error: ReadlineError) -> Attempt {
    Attempt::Completed(outcome_of(Err(error)))
}

#[test]
fn short_line_is_copied_and_counted() {
    assert_eq!(decode_prompt(b"> \0"), "> ");
    let mut buffer = [0x55u8; 10];
    let code = marshal(&submitted("abc"), &mut buffer, 10);
    assert_eq!(code, 3);
    assert_eq!(&buffer[0..3], b"abc");
    assert_eq!(&buffer[3..], &[0x55u8; 7]);
}

#[test]
fn long_line_overflows_and_leaves_the_buffer() {
    assert_eq!(decode_prompt(b"> \0"), "> ");
    let mut buffer = [0x55u8; 5];
    let code = marshal(&submitted("abcdefghij"), &mut buffer, 5);
    assert_eq!(code, -1);
    assert_eq!(buffer, [0x55u8; 5]);
}

#[test]
fn closed_input_gives_minus_two() {
    let mut buffer = [0x55u8; 8];
    assert_eq!(marshal(&failed(ReadlineError::Eof), &mut buffer, 8), -2);
    assert_eq!(buffer, [0x55u8; 8]);
}

#[test]
fn interrupt_gives_minus_three() {
    let mut buffer = [0x55u8; 8];
    assert_eq!(marshal(&failed(ReadlineError::Interrupted), &mut buffer, 8), -3);
    assert_eq!(buffer, [0x55u8; 8]);
}

#[test]
fn resize_gives_minus_four() {
    let mut buffer = [0x55u8; 8];
    assert_eq!(marshal(&failed(ReadlineError::WindowResized), &mut buffer, 8), -4);
    assert_eq!(buffer, [0x55u8; 8]);
}

#[test]
fn other_editor_failure_gives_minus_five() {
    let mut buffer = [0x55u8; 8];
    let error = ReadlineError::Io(std::io::Error::from(std::io::ErrorKind::PermissionDenied));
    assert_eq!(marshal(&failed(error), &mut buffer, 8), -5);
    assert_eq!(buffer, [0x55u8; 8]);
    let attempt = Attempt::Completed(ReadOutcome::OtherFailure);
    assert_eq!(marshal(&attempt, &mut buffer, 8), -5);
    assert_eq!(buffer, [0x55u8; 8]);
}

#[test]
fn missing_session_gives_minus_six() {
    let mut buffer = [0x55u8; 8];
    assert_eq!(marshal(&Attempt::SessionFailed, &mut buffer, 8), -6);
    assert_eq!(buffer, [0x55u8; 8]);
}

#[test]
fn line_as_long_as_the_capacity_overflows() {
    let mut buffer = [0x55u8; 3];
    assert_eq!(marshal(&submitted("abc"), &mut buffer, 3), -1);
    assert_eq!(buffer, [0x55u8; 3]);
}

#[test]
fn line_one_byte_shorter_than_the_capacity_fits() {
    let mut buffer = [0x55u8; 4];
    assert_eq!(marshal(&submitted("abc"), &mut buffer, 4), 3);
    assert_eq!(buffer, [b'a', b'b', b'c', 0x55]);
}

#[test]
fn no_terminator_is_appended() {
    let mut buffer = [0xFFu8; 6];
    assert_eq!(deliver("hi", &mut buffer, 6), 2);
    assert_eq!(buffer, [b'h', b'i', 0xFF, 0xFF, 0xFF, 0xFF]);
}

#[test]
fn empty_line_fits_any_positive_capacity() {
    let mut buffer = [0x55u8; 1];
    assert_eq!(marshal(&submitted(""), &mut buffer, 1), 0);
    assert_eq!(buffer, [0x55u8; 1]);
}

#[test]
fn zero_capacity_has_room_for_nothing() {
    let mut buffer: [u8; 0] = [];
    assert_eq!(marshal(&submitted(""), &mut buffer, 0), -1);
    assert_eq!(marshal(&submitted("abc"), &mut buffer, 0), -1);
    let mut spare = [0x55u8; 4];
    assert_eq!(marshal(&submitted(""), &mut spare, 0), -1);
    assert_eq!(spare, [0x55u8; 4]);
}

#[test]
fn negative_capacity_has_room_for_nothing() {
    let mut buffer = [0x55u8; 4];
    assert_eq!(marshal(&submitted(""), &mut buffer, -1), -1);
    assert_eq!(marshal(&submitted("abc"), &mut buffer, -1), -1);
    assert_eq!(marshal(&submitted("abc"), &mut buffer, i32::MIN), -1);
    assert_eq!(deliver("a", &mut buffer, -4), -1);
    assert_eq!(buffer, [0x55u8; 4]);
}

#[test]
fn negative_capacity_does_not_hide_a_failure() {
    let mut buffer = [0x55u8; 4];
    assert_eq!(marshal(&failed(ReadlineError::Eof), &mut buffer, -1), -2);
    assert_eq!(marshal(&Attempt::SessionFailed, &mut buffer, 0), -6);
    assert_eq!(buffer, [0x55u8; 4]);
}

#[test]
fn length_is_counted_in_bytes_not_characters() {
    let line = "h\u{E9}llo";
    assert_eq!(line.chars().count(), 5);
    let mut buffer = [0x55u8; 8];
    assert_eq!(marshal(&submitted(line), &mut buffer, 6), -1);
    assert_eq!(buffer, [0x55u8; 8]);
    assert_eq!(marshal(&submitted(line), &mut buffer, 7), 6);
    assert_eq!(&buffer[0..6], line.as_bytes());
    assert_eq!(&buffer[6..], &[0x55u8; 2]);
}

#[test]
fn capacity_below_the_buffer_length_still_bounds_the_line() {
    let mut buffer = [0x55u8; 10];
    assert_eq!(marshal(&submitted("abcde"), &mut buffer, 5), -1);
    assert_eq!(buffer, [0x55u8; 10]);
    assert_eq!(marshal(&submitted("abcd"), &mut buffer, 5), 4);
    assert_eq!(&buffer[0..4], b"abcd");
    assert_eq!(&buffer[4..], &[0x55u8; 6]);
}

#[test]
fn a_second_line_overwrites_only_its_own_length() {
    let mut buffer = [0x55u8; 8];
    assert_eq!(marshal(&submitted("abcdef"), &mut buffer, 8), 6);
    assert_eq!(marshal(&submitted("xy"), &mut buffer, 8), 2);
    assert_eq!(&buffer, b"xycdef\x55\x55");
}

#[test]
fn calls_with_separate_buffers_do_not_interfere() {
    let mut first = [0x11u8; 6];
    let mut second = [0x22u8; 6];
    assert_eq!(marshal(&submitted("one"), &mut first, 6), 3);
    assert_eq!(marshal(&submitted("three"), &mut second, 6), 5);
    assert_eq!(&first, b"one\x11\x11\x11");
    assert_eq!(&second, b"three\x22");
    assert_eq!(marshal(&failed(ReadlineError::Eof), &mut first, 6), -2);
    assert_eq!(&first, b"one\x11\x11\x11");
    assert_eq!(&second, b"three\x22");
}

#[test]
fn the_same_attempt_gets_the_same_reply_whatever_the_buffer_held() {
    let attempt = submitted("same");
    let mut first = [0x00u8; 8];
    let mut second = [0xFFu8; 8];
    let a = marshal(&attempt, &mut first, 8);
    let b = marshal(&attempt, &mut second, 8);
    assert_eq!(a, 4);
    assert_eq!(a, b);
    assert_eq!(&first[0..4], &second[0..4]);
    assert_eq!(&first[4..], &[0x00u8; 4]);
    assert_eq!(&second[4..], &[0xFFu8; 4]);
}

#[test]
fn a_non_negative_code_counts_the_bytes_written() {
    for length in 0..6usize {
        let line = "z".repeat(length);
        let mut buffer = [0x55u8; 6];
        let code = marshal(&submitted(&line), &mut buffer, 6);
        assert_eq!(code, length as i32);
        assert_eq!(&buffer[0..length], line.as_bytes());
        assert!(buffer[length..].iter().all(|byte| *byte == 0x55));
    }
    let mut buffer = [0x55u8; 6];
    assert_eq!(marshal(&submitted("zzzzzz"), &mut buffer, 6), -1);
    assert_eq!(buffer, [0x55u8; 6]);
}
