//! Trusted wrappers for the process's clock and standard output.

use std::io::Write;
use vstd::prelude::*;

verus! {

/// Relies on `std::time::SystemTime::now` (and `duration_since` the Unix
/// epoch): a wall-clock reading in milliseconds. The value depends on
/// the machine's clock, so nothing is promised of it; callers must cope
/// with any value, including one earlier than a previous reading.
#[verifier::external_body]
pub(crate) fn now_millis() -> u64 {
    match std::time::SystemTime::now().duration_since(std::time::UNIX_EPOCH) {
        Ok(d) => d.as_millis() as u64,
        Err(_) => 0,
    }
}

/// Relies on `std::io::stdout` (through `writeln!`) and
/// `String::from_utf8_lossy`: writes the line's bytes and a newline to
/// standard output. The engine only passes ASCII bytes, which UTF-8
/// decoding maps to themselves.
#[verifier::external_body]
pub(crate) fn emit_line(line: &Vec<u8>) {
    let _ = writeln!(std::io::stdout(), "{}", String::from_utf8_lossy(line.as_slice()));
}

} // verus!
