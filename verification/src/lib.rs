use vstd::prelude::*;

pub mod browser;
pub mod command;
pub mod session;
mod term_api;

verus! {

/// The failures the browser distinguishes.
///
/// `TerminalConfig` means the input device could not be queried or switched
/// into raw mode, `Input` that reading a keystroke failed or hit end of
/// input, and `Filesystem` that listing the directory or creating a file
/// failed.
#[derive(Clone, Copy, PartialEq, Eq, Structural, Debug)]
pub enum BrowserError {
    TerminalConfig,
    Input,
    Filesystem,
}

impl BrowserError {
    /// A short description of the failure, for reporting to the user.
    pub fn describe(&self) -> (msg: &'static str)
        ensures
            self is TerminalConfig ==> msg@ == "cannot configure the terminal"@,
            self is Input ==> msg@ == "cannot read input"@,
            self is Filesystem ==> msg@ == "filesystem operation failed"@,
    {
        match self {
            BrowserError::TerminalConfig => "cannot configure the terminal",
            BrowserError::Input => "cannot read input",
            BrowserError::Filesystem => "filesystem operation failed",
        }
    }
}

} // verus!
