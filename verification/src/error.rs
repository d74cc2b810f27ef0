use vstd::prelude::*;
use vstd::string::*;

verus! {

/// What can go wrong while a session is set up or a command is run.
#[derive(Debug)]
pub enum Error {
    /// No interactive shell is known.
    ShellNotFound,
    /// No home directory is known.
    HomeNotFound,
    /// The configuration text is not a job list.
    ConfigParseError,
    /// A command could not be started or its output not captured.
    ExecutionError,
    /// A file operation failed; the field holds the system's message.
    IoError(String),
}

impl Error {
    /// The message of this error, as a sequence of characters.
    pub open spec fn message_spec(self) -> Seq<char> {
        match self {
            Error::ShellNotFound => "Shell Not Found"@,
            Error::HomeNotFound => "home Not Found"@,
            Error::ConfigParseError => "Config Parse Error"@,
            Error::ExecutionError => "Execution Error"@,
            Error::IoError(text) => "IO Error: "@ + text@,
        }
    }

    /// The message shown to the user for this error.
    pub fn message(&self) -> (text: String)
        ensures
            text@ == self.message_spec(),
    {
        match self {
            Error::ShellNotFound => String::from_str("Shell Not Found"),
            Error::HomeNotFound => String::from_str("home Not Found"),
            Error::ConfigParseError => String::from_str("Config Parse Error"),
            Error::ExecutionError => String::from_str("Execution Error"),
            Error::IoError(text) => String::from_str("IO Error: ").concat(text.as_str()),
        }
    }
}

} // verus!
