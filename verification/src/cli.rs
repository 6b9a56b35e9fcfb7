//! What the command line asks for, and what to do with each file it names.
//!
//! The program has two commands, one that hides files and one that shows
//! them. Each runs either as a dry run, which only says what would be done,
//! or by force, which does it. A file that is in the state asked for already
//! is left alone and reported as such.

use vstd::prelude::*;
use vstd::string::StringExecFns;
use crate::error::ErrorKind;

verus! {

/// The command that hides files.
#[derive(Debug)]
pub struct Hide {
    /// Hide the files.
    pub force: bool,
    /// Only say which files would be hidden.
    pub dry_run: bool,
    /// The files and directories to hide.
    pub input: Vec<String>,
}

/// The command that shows hidden files.
#[derive(Debug)]
pub struct Show {
    /// Show the files.
    pub force: bool,
    /// Only say which files would be shown.
    pub dry_run: bool,
    /// The hidden files and directories to show.
    pub input: Vec<String>,
}

/// A command of the program.
#[derive(Debug)]
pub enum Command {
    /// Make files and directories invisible.
    Hide(Hide),
    /// Make hidden files and directories visible.
    Show(Show),
}

/// The lowest level of the log messages that are printed.
#[derive(Clone, Copy, Debug, PartialEq, Eq, Structural)]
pub enum LogLevel {
    /// Lowest log level.
    Off,
    /// Error log level.
    Error,
    /// Warn log level.
    Warn,
    /// Info log level.
    Info,
    /// Debug log level.
    Debug,
    /// Trace log level.
    Trace,
}

impl Default for LogLevel {
    /// The level that is used where none is asked for: `Info`.
    fn default() -> (level: LogLevel)
        ensures
            level == LogLevel::Info,
    {
        LogLevel::Info
    }
}

/// What to do with one file that a command names.
#[derive(Clone, Copy, Debug, PartialEq, Eq, Structural)]
pub enum Action {
    /// A dry run, and the file would be changed: print its path.
    Report,
    /// A dry run, and the file is in the state asked for: say that it is
    /// ignored.
    Ignore,
    /// Change the file, then say that it has been changed.
    Apply,
    /// The file is in the state asked for: say that it is so already.
    Skip,
}

impl Command {
    /// Whether the command only says what would be done.
    pub open spec fn spec_dry_run(&self) -> bool {
        match self {
            Command::Hide(arg) => arg.dry_run,
            Command::Show(arg) => arg.dry_run,
        }
    }

    /// Whether the command makes the changes.
    pub open spec fn spec_force(&self) -> bool {
        match self {
            Command::Hide(arg) => arg.force,
            Command::Show(arg) => arg.force,
        }
    }

    /// Whether the command changes a file that is hidden or not as `hidden`
    /// says: hiding changes a visible file, showing a hidden one.
    pub open spec fn spec_changes(&self, hidden: bool) -> bool {
        match self {
            Command::Hide(_) => !hidden,
            Command::Show(_) => hidden,
        }
    }

    /// What the command does with a file that is hidden or not as `hidden`
    /// says. A dry run comes before force where both are asked for.
    pub open spec fn spec_action(&self, hidden: bool) -> Action {
        if self.spec_dry_run() {
            if self.spec_changes(hidden) {
                Action::Report
            } else {
                Action::Ignore
            }
        } else {
            if self.spec_changes(hidden) {
                Action::Apply
            } else {
                Action::Skip
            }
        }
    }

    /// Whether the command only says what would be done.
    #[verifier::when_used_as_spec(spec_dry_run)]
    pub fn dry_run(&self) -> (r: bool)
        ensures
            r == self.spec_dry_run(),
    {
        match self {
            Command::Hide(arg) => arg.dry_run,
            Command::Show(arg) => arg.dry_run,
        }
    }

    /// Whether the command makes the changes.
    #[verifier::when_used_as_spec(spec_force)]
    pub fn force(&self) -> (r: bool)
        ensures
            r == self.spec_force(),
    {
        match self {
            Command::Hide(arg) => arg.force,
            Command::Show(arg) => arg.force,
        }
    }

    /// The files that the command names, in the order given.
    pub fn input(&self) -> (files: &Vec<String>)
        ensures
            files == match self {
                Command::Hide(arg) => &arg.input,
                Command::Show(arg) => &arg.input,
            },
    {
        match self {
            Command::Hide(arg) => &arg.input,
            Command::Show(arg) => &arg.input,
        }
    }

    /// Whether the command changes a file that is hidden or not as `hidden`
    /// says.
    #[verifier::when_used_as_spec(spec_changes)]
    pub fn changes(&self, hidden: bool) -> (r: bool)
        ensures
            r == self.spec_changes(hidden),
    {
        match self {
            Command::Hide(_) => !hidden,
            Command::Show(_) => hidden,
        }
    }

    /// What to do with a file that is hidden or not as `hidden` says. The
    /// command must run as a dry run or by force.
    #[verifier::when_used_as_spec(spec_action)]
    pub fn action(&self, hidden: bool) -> (action: Action)
        requires
            self.dry_run() || self.force(),
        ensures
            action == self.spec_action(hidden),
    {
        let changes = self.changes(hidden);
        if self.dry_run() {
            if changes {
                Action::Report
            } else {
                Action::Ignore
            }
        } else {
            if changes {
                Action::Apply
            } else {
                Action::Skip
            }
        }
    }
}

impl Action {
    /// The level at which the message for this action is logged, or `None`
    /// where the message is no log message but the output of the program.
    pub open spec fn spec_level(&self) -> Option<LogLevel> {
        match self {
            Action::Report => None,
            Action::Ignore => Some(LogLevel::Warn),
            Action::Apply => Some(LogLevel::Info),
            Action::Skip => Some(LogLevel::Warn),
        }
    }

    /// The level at which the message for this action is logged, or `None`
    /// where the message is no log message but the output of the program.
    #[verifier::when_used_as_spec(spec_level)]
    pub fn level(&self) -> (level: Option<LogLevel>)
        ensures
            level == self.spec_level(),
    {
        match self {
            Action::Report => None,
            Action::Ignore => Some(LogLevel::Warn),
            Action::Apply => Some(LogLevel::Info),
            Action::Skip => Some(LogLevel::Warn),
        }
    }
}

impl Command {
    /// What the program says of the file at `path` once `action` is done:
    /// the path alone where a dry run reports it, else the path and what
    /// became of the file.
    pub open spec fn spec_message(&self, action: Action, path: Seq<char>) -> Seq<char> {
        match action {
            Action::Report => path,
            Action::Ignore => path + " is ignored"@,
            Action::Apply => match self {
                Command::Hide(_) => path + " has been hidden"@,
                Command::Show(_) => path + " has been shown"@,
            },
            Action::Skip => match self {
                Command::Hide(_) => path + " is already hidden"@,
                Command::Show(_) => path + " is already shown"@,
            },
        }
    }

    /// What the program says of the file at `path` once `action` is done.
    pub fn message(&self, action: Action, path: &str) -> (text: String)
        ensures
            text@ == self.spec_message(action, path@),
    {
        let text = String::from_str(path);
        match action {
            Action::Report => text,
            Action::Ignore => text.concat(" is ignored"),
            Action::Apply => match self {
                Command::Hide(_) => text.concat(" has been hidden"),
                Command::Show(_) => text.concat(" has been shown"),
            },
            Action::Skip => match self {
                Command::Hide(_) => text.concat(" is already hidden"),
                Command::Show(_) => text.concat(" is already shown"),
            },
        }
    }
}

/// No file is touched in a dry run, and by force exactly the files that are
/// not in the state asked for are changed.
pub proof fn lemma_action(command: Command, hidden: bool)
    ensures
        command.dry_run() ==> command.action(hidden) != Action::Apply,
        command.action(hidden) == Action::Apply <==> !command.dry_run() && command.changes(hidden),
        command matches Command::Hide(_) ==> (command.changes(hidden) <==> !hidden),
        command matches Command::Show(_) ==> (command.changes(hidden) <==> hidden),
{
}

/// The exit code for an input that does not exist: `sysexits`'s conversion
/// of `ExitCode::NoInput` to `u8`, which is 66.
#[verifier::external_body]
fn no_input_code() -> (code: u8)
    ensures
        code == 66,
{
    u8::from(sysexits::ExitCode::NoInput)
}

/// The exit code for an operation that was not permitted: `sysexits`'s
/// conversion of `ExitCode::NoPerm` to `u8`, which is 77.
#[verifier::external_body]
fn no_permission_code() -> (code: u8)
    ensures
        code == 77,
{
    u8::from(sysexits::ExitCode::NoPerm)
}

/// The exit code of the program after a failure of the given category.
pub open spec fn spec_exit_code(kind: ErrorKind) -> u8 {
    match kind {
        ErrorKind::NotFound => 66,
        ErrorKind::PermissionDenied => 77,
        ErrorKind::InvalidInput => 1,
        ErrorKind::Other => 1,
    }
}

/// The exit code of the program after a failure of the given category: its
/// own code where a file was not found and where permission was denied, the
/// general failure code 1 for every other failure.
#[verifier::when_used_as_spec(spec_exit_code)]
pub fn exit_code(kind: ErrorKind) -> (code: u8)
    ensures
        code == spec_exit_code(kind),
{
    match kind {
        ErrorKind::NotFound => no_input_code(),
        ErrorKind::PermissionDenied => no_permission_code(),
        ErrorKind::InvalidInput => 1,
        ErrorKind::Other => 1,
    }
}

} // verus!
