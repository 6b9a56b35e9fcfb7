//! The shells for which a completion script can be written, and the name of
//! the file that holds the script.

use vstd::prelude::*;

verus! {

/// A shell that a completion script can be written for.
#[derive(Clone, Copy, Debug, PartialEq, Eq, Structural)]
pub enum Shell {
    /// Bash.
    Bash,
    /// Elvish.
    Elvish,
    /// fish.
    Fish,
    /// Nushell.
    Nushell,
    /// PowerShell.
    PowerShell,
    /// Zsh.
    Zsh,
}

/// The file name that Bash's completion generator gives a program:
/// `clap_complete`'s `file_name` of `shells::Bash`, which puts `.bash`
/// behind the program's name.
#[verifier::external_body]
fn bash_file_name(name: &str) -> (file: String)
    ensures
        file@ == name@ + ".bash"@,
{
    clap_complete::Generator::file_name(&clap_complete::shells::Bash, name)
}

/// The file name that Elvish's completion generator gives a program:
/// `clap_complete`'s `file_name` of `shells::Elvish`, which puts `.elv`
/// behind the program's name.
#[verifier::external_body]
fn elvish_file_name(name: &str) -> (file: String)
    ensures
        file@ == name@ + ".elv"@,
{
    clap_complete::Generator::file_name(&clap_complete::shells::Elvish, name)
}

/// The file name that fish's completion generator gives a program:
/// `clap_complete`'s `file_name` of `shells::Fish`, which puts `.fish`
/// behind the program's name.
#[verifier::external_body]
fn fish_file_name(name: &str) -> (file: String)
    ensures
        file@ == name@ + ".fish"@,
{
    clap_complete::Generator::file_name(&clap_complete::shells::Fish, name)
}

/// The file name that Nushell's completion generator gives a program:
/// `clap_complete_nushell`'s `file_name` of `Nushell`, which puts `.nu`
/// behind the program's name.
#[verifier::external_body]
fn nushell_file_name(name: &str) -> (file: String)
    ensures
        file@ == name@ + ".nu"@,
{
    clap_complete::Generator::file_name(&clap_complete_nushell::Nushell, name)
}

/// The file name that PowerShell's completion generator gives a program:
/// `clap_complete`'s `file_name` of `shells::PowerShell`, which puts `_`
/// before the program's name and `.ps1` behind it.
#[verifier::external_body]
fn powershell_file_name(name: &str) -> (file: String)
    ensures
        file@ == "_"@ + name@ + ".ps1"@,
{
    clap_complete::Generator::file_name(&clap_complete::shells::PowerShell, name)
}

/// The file name that Zsh's completion generator gives a program:
/// `clap_complete`'s `file_name` of `shells::Zsh`, which puts `_` before
/// the program's name.
#[verifier::external_body]
fn zsh_file_name(name: &str) -> (file: String)
    ensures
        file@ == "_"@ + name@,
{
    clap_complete::Generator::file_name(&clap_complete::shells::Zsh, name)
}

impl Shell {
    /// The name of the file that holds this shell's completion script for
    /// the program `name`.
    pub open spec fn spec_file_name(&self, name: Seq<char>) -> Seq<char> {
        match self {
            Shell::Bash => name + ".bash"@,
            Shell::Elvish => name + ".elv"@,
            Shell::Fish => name + ".fish"@,
            Shell::Nushell => name + ".nu"@,
            Shell::PowerShell => "_"@ + name + ".ps1"@,
            Shell::Zsh => "_"@ + name,
        }
    }

    /// The name of the file that holds this shell's completion script for
    /// the program `name`, as the shell's completion generator names it.
    pub fn file_name(&self, name: &str) -> (file: String)
        ensures
            file@ == self.spec_file_name(name@),
    {
        match self {
            Shell::Bash => bash_file_name(name),
            Shell::Elvish => elvish_file_name(name),
            Shell::Fish => fish_file_name(name),
            Shell::Nushell => nushell_file_name(name),
            Shell::PowerShell => powershell_file_name(name),
            Shell::Zsh => zsh_file_name(name),
        }
    }
}

} // verus!
