//! Which command interpreter a hook script runs under, and the argument
//! list that invokes it.  Spawning the process is the caller's work.

use vstd::prelude::*;

verus! {

/// A command interpreter a hook script can ask for.
#[derive(Clone, Copy, PartialEq, Eq, Structural, Debug)]
pub enum Terminal {
    Cmd,
    PowerShell,
    Sh,
    Bash,
}

/// The words that invoke the interpreter, before the script itself is
/// appended: the executable and its fixed flags.
pub open spec fn spec_terminal_command(t: Terminal) -> Seq<Seq<char>> {
    match t {
        Terminal::Cmd => seq!["cmd.exe"@, "--%"@, "/c"@],
        Terminal::PowerShell => seq![
            "powershell.exe"@,
            "-NoLogo"@,
            "-NoProfile"@,
            "-NonInteractive"@,
            "-Command"@,
        ],
        Terminal::Sh => seq!["sh"@, "-c"@],
        Terminal::Bash => seq!["bash"@, "-c"@],
    }
}

/// Builds the words that invoke the interpreter.
pub fn terminal_command(t: Terminal) -> (r: Vec<String>)
    ensures
        r@.map_values(|s: String| s@) == spec_terminal_command(t),
{
    let mut r: Vec<String> = Vec::new();
    match t {
        Terminal::Cmd => {
            r.push(String::from_str("cmd.exe"));
            r.push(String::from_str("--%"));
            r.push(String::from_str("/c"));
        },
        Terminal::PowerShell => {
            r.push(String::from_str("powershell.exe"));
            r.push(String::from_str("-NoLogo"));
            r.push(String::from_str("-NoProfile"));
            r.push(String::from_str("-NonInteractive"));
            r.push(String::from_str("-Command"));
        },
        Terminal::Sh => {
            r.push(String::from_str("sh"));
            r.push(String::from_str("-c"));
        },
        Terminal::Bash => {
            r.push(String::from_str("bash"));
            r.push(String::from_str("-c"));
        },
    }
    proof {
        assert(r@.map_values(|s: String| s@) =~= spec_terminal_command(t));
    }
    r
}

/// The interpreter a platform runs scripts under when none is named: the
/// shell on Unix-family systems, the command processor elsewhere.
pub fn default_terminal(unix: bool) -> (r: Terminal)
    ensures
        unix ==> r == Terminal::Sh,
        !unix ==> r == Terminal::Cmd,
{
    if unix {
        Terminal::Sh
    } else {
        Terminal::Cmd
    }
}

} // verus!
