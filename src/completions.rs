//! Shells for which completion scripts can be generated, and how their
//! names are read.
use vstd::prelude::*;
use vstd::string::*;

use crate::text::{lower_of, lowercase};

verus! {

/// Supported shells for completion script generation.
#[derive(Debug, Clone, Copy, PartialEq, Eq, Structural, Hash, Default)]
pub enum CompletionShell {
    #[default]
    Bash,
    Zsh,
    Fish,
    Elvish,
    Nushell,
    PowerShell,
}

/// The canonical name of each shell.
pub open spec fn shell_name(shell: CompletionShell) -> Seq<char> {
    match shell {
        CompletionShell::Bash => "bash"@,
        CompletionShell::Zsh => "zsh"@,
        CompletionShell::Fish => "fish"@,
        CompletionShell::Elvish => "elvish"@,
        CompletionShell::Nushell => "nushell"@,
        CompletionShell::PowerShell => "powershell"@,
    }
}

/// The shell that a name stands for: a canonical name, or the aliases "nu"
/// and "pwsh". Names are compared exactly.
pub open spec fn shell_named(name: Seq<char>) -> Option<CompletionShell> {
    if name == "bash"@ {
        Some(CompletionShell::Bash)
    } else if name == "zsh"@ {
        Some(CompletionShell::Zsh)
    } else if name == "fish"@ {
        Some(CompletionShell::Fish)
    } else if name == "elvish"@ {
        Some(CompletionShell::Elvish)
    } else if name == "nu"@ || name == "nushell"@ {
        Some(CompletionShell::Nushell)
    } else if name == "pwsh"@ || name == "powershell"@ {
        Some(CompletionShell::PowerShell)
    } else {
        None
    }
}

/// The shell detected from the environment: Nushell when `NU_VERSION` is
/// set, else the shell that the file name of `SHELL` names, else Bash.
pub open spec fn detected_shell(nu_version_set: bool, shell_file_name: Option<Seq<char>>) -> CompletionShell {
    if nu_version_set {
        CompletionShell::Nushell
    } else {
        match shell_file_name {
            Some(n) => match shell_named(n) {
                Some(s) => s,
                None => CompletionShell::Bash,
            },
            None => CompletionShell::Bash,
        }
    }
}

/// Error when parsing a shell name.
#[derive(Debug, Clone, PartialEq, Eq)]
pub struct ParseShellError {
    input: String,
}

impl View for ParseShellError {
    type V = Seq<char>;

    /// The text that was not a shell name.
    closed spec fn view(&self) -> Seq<char> {
        self.input@
    }
}

/// The message of a failed parse.
pub open spec fn unknown_shell_message(input: Seq<char>) -> Seq<char> {
    "unknown shell: "@ + input
}

impl ParseShellError {
    /// The error's message, naming the input.
    pub fn to_string(&self) -> (r: String)
        ensures
            r@ == unknown_shell_message(self@),
    {
        let mut out = String::from_str("unknown shell: ");
        out.append(self.input.as_str());
        out
    }
}

/// Holds when `text` is `lit`.
fn is_text(text: &String, lit: &str) -> (r: bool)
    ensures
        r == (text@ == lit@),
{
    *text == String::from_str(lit)
}

impl CompletionShell {
    /// Returns all supported shell variants.
    pub fn all() -> (r: &'static [CompletionShell])
        ensures
            r@ == seq![
                CompletionShell::Bash,
                CompletionShell::Zsh,
                CompletionShell::Fish,
                CompletionShell::Elvish,
                CompletionShell::Nushell,
                CompletionShell::PowerShell,
            ],
    {
        let r: &'static [CompletionShell] = &[
            CompletionShell::Bash,
            CompletionShell::Zsh,
            CompletionShell::Fish,
            CompletionShell::Elvish,
            CompletionShell::Nushell,
            CompletionShell::PowerShell,
        ];
        proof {
            assert(r@ =~= seq![
                CompletionShell::Bash,
                CompletionShell::Zsh,
                CompletionShell::Fish,
                CompletionShell::Elvish,
                CompletionShell::Nushell,
                CompletionShell::PowerShell,
            ]);
        }
        r
    }

    /// The shell's canonical name.
    pub fn name(&self) -> (r: &'static str)
        ensures
            r@ == shell_name(*self),
    {
        match self {
            CompletionShell::Bash => "bash",
            CompletionShell::Zsh => "zsh",
            CompletionShell::Fish => "fish",
            CompletionShell::Elvish => "elvish",
            CompletionShell::Nushell => "nushell",
            CompletionShell::PowerShell => "powershell",
        }
    }

    /// The shell's canonical name, as an owned string.
    pub fn to_string(&self) -> (r: String)
        ensures
            r@ == shell_name(*self),
    {
        String::from_str(self.name())
    }

    /// The shell that an exact (already lowercase) name stands for.
    pub fn from_name(name: &String) -> (r: Option<CompletionShell>)
        ensures
            r == shell_named(name@),
    {
        if is_text(name, "bash") {
            Some(CompletionShell::Bash)
        } else if is_text(name, "zsh") {
            Some(CompletionShell::Zsh)
        } else if is_text(name, "fish") {
            Some(CompletionShell::Fish)
        } else if is_text(name, "elvish") {
            Some(CompletionShell::Elvish)
        } else if is_text(name, "nu") || is_text(name, "nushell") {
            Some(CompletionShell::Nushell)
        } else if is_text(name, "pwsh") || is_text(name, "powershell") {
            Some(CompletionShell::PowerShell)
        } else {
            None
        }
    }

    /// Parses a shell name, ignoring case.
    pub fn parse(s: &str) -> (r: Result<CompletionShell, ParseShellError>)
        ensures
            shell_named(lower_of(s@)) matches Some(sh) ==> r == Ok::<
                CompletionShell,
                ParseShellError,
            >(sh),
            shell_named(lower_of(s@)) is None ==> (r matches Err(e) && e@ == s@),
    {
        let lower = lowercase(s);
        match CompletionShell::from_name(&lower) {
            Some(sh) => Ok(sh),
            None => Err(ParseShellError { input: String::from_str(s) }),
        }
    }

    /// Decides the current shell from what the environment says: whether
    /// `NU_VERSION` is set, and the file name of the path in `SHELL`.
    pub fn detect_from(nu_version_set: bool, shell_file_name: Option<&String>) -> (r:
        CompletionShell)
        ensures
            r == detected_shell(
                nu_version_set,
                match shell_file_name {
                    Some(n) => Some(n@),
                    None => None,
                },
            ),
    {
        if nu_version_set {
            return CompletionShell::Nushell;
        }
        match shell_file_name {
            Some(n) => match CompletionShell::from_name(n) {
                Some(sh) => sh,
                None => CompletionShell::Bash,
            },
            None => CompletionShell::Bash,
        }
    }
}

impl std::str::FromStr for CompletionShell {
    type Err = ParseShellError;

    /// Parses a shell name, ignoring case; an unknown name is an error that
    /// keeps the input.
    fn from_str(s: &str) -> (r: Result<CompletionShell, ParseShellError>)
        ensures
            shell_named(lower_of(s@)) matches Some(sh) ==> r == Ok::<
                CompletionShell,
                ParseShellError,
            >(sh),
            shell_named(lower_of(s@)) is None ==> (r matches Err(e) && e@ == s@),
    {
        CompletionShell::parse(s)
    }
}

} // verus!
