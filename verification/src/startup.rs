//! What can go wrong before any request is looked at: the gatekeeper is
//! started with the path of its configuration file as its one argument, and
//! gives up where the argument is missing or the file cannot be used.

use vstd::prelude::*;

verus! {

/// Why the gatekeeper could not start.
#[derive(Clone, Copy, Debug, PartialEq, Eq)]
pub enum StartupError {
    /// No configuration file was named.
    MissingArgument,
    /// The configuration file could not be read.
    UnreadableConfig,
    /// The configuration file does not hold a configuration.
    InvalidConfig,
}

impl StartupError {
    /// The message for this error, where the gatekeeper was started as
    /// `program`.
    pub open spec fn text(self, program: Seq<char>) -> Seq<char> {
        match self {
            StartupError::MissingArgument => "Usage: "@ + program + " [CONFIG_FILE]"@,
            StartupError::UnreadableConfig => "Config file could not be opened"@,
            StartupError::InvalidConfig => "config file not valid"@,
        }
    }

    /// The message for this error, where the gatekeeper was started as
    /// `program`.
    pub fn message(&self, program: &str) -> (out: String)
        ensures
            out@ == self.text(program@),
    {
        match self {
            StartupError::MissingArgument => {
                let mut out = "Usage: ".to_owned();
                out.append(program);
                out.append(" [CONFIG_FILE]");
                out
            },
            StartupError::UnreadableConfig => "Config file could not be opened".to_owned(),
            StartupError::InvalidConfig => "config file not valid".to_owned(),
        }
    }

    /// Whether the message goes to standard output. Only the usage message
    /// does; the others go to standard error.
    pub fn on_standard_output(&self) -> (yes: bool)
        ensures
            yes == (self is MissingArgument),
    {
        match self {
            StartupError::MissingArgument => true,
            _ => false,
        }
    }

    /// The exit code of the gatekeeper after this error. It is 1 for each.
    pub fn exit_code(&self) -> (code: i32)
        ensures
            code == 1,
    {
        1
    }
}

/// The path of the configuration file: the first of `arguments`, the
/// arguments that the gatekeeper was started with, without its own name.
pub fn config_path(arguments: &Vec<String>) -> (path: Result<String, StartupError>)
    ensures
        match path {
            Ok(first) => arguments@.len() > 0 && first@ == arguments@[0]@,
            Err(error) => arguments@.len() == 0 && error == StartupError::MissingArgument,
        },
{
    if arguments.len() == 0 {
        Err(StartupError::MissingArgument)
    } else {
        Ok(arguments[0].clone())
    }
}

} // verus!
