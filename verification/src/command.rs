//! Verb codes of the command interpreter: the configured verbs count up from
//! zero in table order, and a few reserved negative codes stand for outcomes
//! that are dispatched elsewhere (raw filename input, unknown directives).
use vstd::prelude::*;

verus! {

/// The dispatch outcomes of reading a command line. A non-negative code is an
/// index into the verb table; the negative codes are reserved: an input that
/// does not start with the sentinel is delegated to the file handler, and a
/// sentinel input matching no verb is unknown.
#[allow(non_camel_case_types)]
#[derive(Clone, Copy, PartialEq, Eq, Structural, Debug)]
pub enum COMMAND_INDECES {
    CommandUnkown,
    CommandSwitchAndSaveCurrentFile,
    CommandSwitchCurrentFile,
    CommandFileHandle,
    CommandSwitchDirectory,
    CommandWriteCurrentFile,
    CommandDeleteFile,
    CommandExit,
    CommandPalleteSwitch,
    CommandGoToLine,
}

impl COMMAND_INDECES {
    /// The integer code that each outcome dispatches as.
    pub open spec fn code_spec(self) -> int {
        match self {
            COMMAND_INDECES::CommandUnkown => -4,
            COMMAND_INDECES::CommandSwitchAndSaveCurrentFile => -3,
            COMMAND_INDECES::CommandSwitchCurrentFile => -2,
            COMMAND_INDECES::CommandFileHandle => -1,
            COMMAND_INDECES::CommandSwitchDirectory => 0,
            COMMAND_INDECES::CommandWriteCurrentFile => 1,
            COMMAND_INDECES::CommandDeleteFile => 2,
            COMMAND_INDECES::CommandExit => 3,
            COMMAND_INDECES::CommandPalleteSwitch => 4,
            COMMAND_INDECES::CommandGoToLine => 5,
        }
    }

    /// The integer code that each outcome dispatches as.
    pub fn code(&self) -> (r: i32)
        ensures
            r as int == self.code_spec(),
    {
        match self {
            COMMAND_INDECES::CommandUnkown => -4,
            COMMAND_INDECES::CommandSwitchAndSaveCurrentFile => -3,
            COMMAND_INDECES::CommandSwitchCurrentFile => -2,
            COMMAND_INDECES::CommandFileHandle => -1,
            COMMAND_INDECES::CommandSwitchDirectory => 0,
            COMMAND_INDECES::CommandWriteCurrentFile => 1,
            COMMAND_INDECES::CommandDeleteFile => 2,
            COMMAND_INDECES::CommandExit => 3,
            COMMAND_INDECES::CommandPalleteSwitch => 4,
            COMMAND_INDECES::CommandGoToLine => 5,
        }
    }
}

/// The in-progress directive line: its text and the code it last resolved to.
pub struct ConsoleCommand {
    pub command_index: i8,
    pub text: Vec<char>,
}

impl ConsoleCommand {
    /// An empty command with a zero index.
    pub fn new() -> (c: ConsoleCommand)
        ensures
            c.command_index == 0,
            c.text@ == Seq::<char>::empty(),
    {
        ConsoleCommand { command_index: 0, text: Vec::new() }
    }
}

} // verus!
