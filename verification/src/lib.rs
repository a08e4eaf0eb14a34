//! Line reading across a byte-and-integer boundary.
//!
//! A caller that speaks only in byte buffers and integers hands over a
//! NUL-terminated prompt and a buffer with a capacity. An editing session
//! reads one line from the user, and the caller gets back either the line's
//! bytes in its buffer together with their count, or a negative code that
//! names why there is no line.
//!
//! This crate holds everything about that exchange that can be decided from
//! plain values: how the prompt's bytes become text ([`prompt`]), how an
//! editor error is classified ([`outcome`]), the table of result codes
//! ([`codes`]), and the bounded copy into the caller's buffer ([`marshal`]).
//! Opening the session and blocking on the terminal are left to the code
//! that owns the boundary.

pub mod codes;
pub mod marshal;
pub mod outcome;
pub mod prompt;
