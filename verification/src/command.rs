use vstd::prelude::*;

verus! {

/// The meaning of one raw input byte.
#[derive(Clone, Copy, PartialEq, Eq, Structural, Debug)]
pub enum KeyCommand {
    MoveDown,
    MoveUp,
    Select,
    Quit,
    CreateFile,
    Unknown,
}

/// Which command a raw input byte stands for.
pub open spec fn command_of(key: char) -> KeyCommand {
    if key == 'j' {
        KeyCommand::MoveDown
    } else if key == 'k' {
        KeyCommand::MoveUp
    } else if key == 'l' {
        KeyCommand::Select
    } else if key == 'q' {
        KeyCommand::Quit
    } else if key == 'a' {
        KeyCommand::CreateFile
    } else {
        KeyCommand::Unknown
    }
}

/// Interpret one raw input byte as a command.
pub fn interpret_key(key: char) -> (cmd: KeyCommand)
    ensures
        cmd == command_of(key),
{
    if key == 'j' {
        KeyCommand::MoveDown
    } else if key == 'k' {
        KeyCommand::MoveUp
    } else if key == 'l' {
        KeyCommand::Select
    } else if key == 'q' {
        KeyCommand::Quit
    } else if key == 'a' {
        KeyCommand::CreateFile
    } else {
        KeyCommand::Unknown
    }
}

} // verus!
