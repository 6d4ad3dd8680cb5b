use vstd::prelude::*;

use std::io::Write;

verus! {

#[verifier::external_type_specification]
#[verifier::external_body]
pub struct ExTermios(termios::Termios);

#[verifier::external_type_specification]
#[verifier::external_body]
pub struct ExIoError(std::io::Error);

/// Relies on termios::Termios::from_fd: reads the current attributes of the
/// terminal behind file descriptor 0 (standard input), and fails when that
/// descriptor cannot be queried, for instance because it is not a terminal.
#[verifier::external_body]
pub(crate) fn query_terminal_mode() -> Result<termios::Termios, std::io::Error> {
    termios::Termios::from_fd(0)
}

/// Relies on termios::tcsetattr: applies the given attributes, with the
/// local-echo and canonical-input flags cleared, to the terminal behind
/// file descriptor 0, taking effect immediately. The attributes handed in
/// are left untouched.
#[verifier::external_body]
pub(crate) fn enable_raw_mode(mode: &termios::Termios) -> Result<(), std::io::Error> {
    let mut raw = mode.clone();
    raw.c_lflag &= !(termios::ECHO | termios::ICANON);
    termios::tcsetattr(0, termios::TCSANOW, &raw)
}

/// Relies on termios::tcsetattr: applies exactly the given attributes to
/// the terminal behind file descriptor 0, taking effect immediately.
#[verifier::external_body]
pub(crate) fn apply_terminal_mode(mode: &termios::Termios) -> Result<(), std::io::Error> {
    termios::tcsetattr(0, termios::TCSANOW, mode)
}

/// Relies on std::io::Read::read_exact on standard input: blocks until one
/// byte is available and returns it, failing on end of input or on a device
/// error.
#[verifier::external_body]
pub(crate) fn read_byte_stdin() -> Result<u8, std::io::Error> {
    let mut buf = [0u8; 1];
    std::io::Read::read_exact(&mut std::io::stdin(), &mut buf)?;
    Ok(buf[0])
}

/// Relies on the std::write macro on standard output: queues the given text
/// for the terminal, swallowing failures (best effort).
#[verifier::external_body]
pub(crate) fn write_stdout(s: &str) {
    let _ = write!(std::io::stdout(), "{}", s);
}

/// Relies on std::io::Write::flush on standard output: pushes queued output
/// through to the terminal at once, swallowing failures (best effort).
#[verifier::external_body]
pub(crate) fn flush_stdout() {
    let _ = std::io::stdout().flush();
}

} // verus!
