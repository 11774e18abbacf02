//! Hook scripts a manifest may attach to an installation: which
//! interpreter runs them on which system, and which script runs at which
//! moment.  Running the script is the caller's work.

use vstd::prelude::*;

use crate::shell;
use crate::text::str_eq;

verus! {

/// The scripts of one interpreter: one before the install, one after.
#[derive(Debug)]
pub struct HookDefinition {
    pub preinstall: Option<String>,
    pub postinstall: Option<String>,
}

/// The hook definitions a platform block offers, one per interpreter.
#[derive(Debug)]
pub struct Terminal {
    pub cmd: Option<HookDefinition>,
    pub powershell: Option<HookDefinition>,
    pub sh: Option<HookDefinition>,
    pub bash: Option<HookDefinition>,
}

/// A resolved hook: the interpreter to use and its definition.
#[derive(Debug)]
pub struct TerminalHook {
    pub terminal: shell::Terminal,
    pub hook: HookDefinition,
}

/// The hook blocks of a manifest, one per system family, with `unix` as
/// the fallback for the Unix-family systems.
#[derive(Debug)]
pub struct Hook {
    pub windows: Option<Terminal>,
    pub unix: Option<Terminal>,
    pub linux: Option<Terminal>,
    pub macos: Option<Terminal>,
    pub freebsd: Option<Terminal>,
}

/// The system family a hook resolves against.
#[derive(Clone, Copy, PartialEq, Eq, Structural, Debug)]
pub enum HookOs {
    Linux,
    Macos,
    Freebsd,
    OtherUnix,
    Windows,
}

/// A failure while resolving a hook to run.
#[derive(Debug)]
pub enum HookError {
    UnknownHook { name: String },
}

/// The platform block the system family picks: its own block when it has
/// one, else the shared Unix block; Windows has no fallback.
pub open spec fn spec_hook_terminal(h: Hook, os: HookOs) -> Option<Terminal> {
    match os {
        HookOs::Windows => h.windows,
        HookOs::Linux => if h.linux is Some {
            h.linux
        } else {
            h.unix
        },
        HookOs::Macos => if h.macos is Some {
            h.macos
        } else {
            h.unix
        },
        HookOs::Freebsd => if h.freebsd is Some {
            h.freebsd
        } else {
            h.unix
        },
        HookOs::OtherUnix => h.unix,
    }
}

/// The interpreter and definition the block resolves to: on Windows the
/// command processor before the shell console, elsewhere the shell
/// before the extended shell.
pub open spec fn spec_resolve(h: Hook, os: HookOs) -> Option<TerminalHook> {
    match spec_hook_terminal(h, os) {
        None => None,
        Some(t) => if os is Windows {
            if t.cmd is Some {
                Some(TerminalHook { terminal: shell::Terminal::Cmd, hook: t.cmd->0 })
            } else if t.powershell is Some {
                Some(TerminalHook { terminal: shell::Terminal::PowerShell, hook: t.powershell->0 })
            } else {
                None
            }
        } else {
            if t.sh is Some {
                Some(TerminalHook { terminal: shell::Terminal::Sh, hook: t.sh->0 })
            } else if t.bash is Some {
                Some(TerminalHook { terminal: shell::Terminal::Bash, hook: t.bash->0 })
            } else {
                None
            }
        },
    }
}

/// A hook definition, copied.
fn copy_def(d: &HookDefinition) -> (r: HookDefinition)
    ensures
        r == *d,
{
    HookDefinition {
        preinstall: match d.preinstall {
            Some(ref s) => Some(s.clone()),
            None => None,
        },
        postinstall: match d.postinstall {
            Some(ref s) => Some(s.clone()),
            None => None,
        },
    }
}

impl Hook {
    /// Resolves the hook for a system family: picks the platform block
    /// and, within it, the preferred interpreter that has a definition.
    pub fn resolve(&self, os: HookOs) -> (r: Option<TerminalHook>)
        ensures
            r == spec_resolve(*self, os),
    {
        let terminal = match os {
            HookOs::Windows => &self.windows,
            HookOs::Linux => if self.linux.is_some() {
                &self.linux
            } else {
                &self.unix
            },
            HookOs::Macos => if self.macos.is_some() {
                &self.macos
            } else {
                &self.unix
            },
            HookOs::Freebsd => if self.freebsd.is_some() {
                &self.freebsd
            } else {
                &self.unix
            },
            HookOs::OtherUnix => &self.unix,
        };
        match terminal {
            None => None,
            Some(t) => {
                let windows = match os {
                    HookOs::Windows => true,
                    _ => false,
                };
                if windows {
                    if let Some(ref d) = t.cmd {
                        Some(TerminalHook { terminal: shell::Terminal::Cmd, hook: copy_def(d) })
                    } else if let Some(ref d) = t.powershell {
                        Some(
                            TerminalHook {
                                terminal: shell::Terminal::PowerShell,
                                hook: copy_def(d),
                            },
                        )
                    } else {
                        None
                    }
                } else {
                    if let Some(ref d) = t.sh {
                        Some(TerminalHook { terminal: shell::Terminal::Sh, hook: copy_def(d) })
                    } else if let Some(ref d) = t.bash {
                        Some(TerminalHook { terminal: shell::Terminal::Bash, hook: copy_def(d) })
                    } else {
                        None
                    }
                }
            },
        }
    }

    /// The script to run at the named moment, with its interpreter.
    /// Without a resolved hook nothing runs, whatever the name; with
    /// one, only the two install moments are known, and any other name
    /// is refused.  A known moment without a script also runs nothing.
    pub fn script(&self, os: HookOs, hook_name: &str) -> (r: Result<
        Option<(shell::Terminal, String)>,
        HookError,
    >)
        ensures
            spec_resolve(*self, os) is None ==> (r matches Ok(o) && o is None),
            spec_resolve(*self, os) matches Some(th) ==> {
                &&& hook_name@ == "preinstall"@ ==> match th.hook.preinstall {
                    Some(s) => (r matches Ok(o) && o matches Some((t, sc)) && t == th.terminal
                        && sc@ == s@),
                    None => (r matches Ok(o) && o is None),
                }
                &&& hook_name@ != "preinstall"@ && hook_name@ == "postinstall"@ ==> match th.hook.postinstall {
                    Some(s) => (r matches Ok(o) && o matches Some((t, sc)) && t == th.terminal
                        && sc@ == s@),
                    None => (r matches Ok(o) && o is None),
                }
                &&& hook_name@ != "preinstall"@ && hook_name@ != "postinstall"@ ==> (r matches Err(
                    HookError::UnknownHook { name },
                ) && name@ == hook_name@)
            },
    {
        match self.resolve(os) {
            None => Ok(None),
            Some(th) => {
                let script = if str_eq(hook_name, "preinstall") {
                    &th.hook.preinstall
                } else if str_eq(hook_name, "postinstall") {
                    &th.hook.postinstall
                } else {
                    return Err(HookError::UnknownHook { name: hook_name.to_owned() });
                };
                match script {
                    Some(s) => Ok(Some((th.terminal, s.clone()))),
                    None => Ok(None),
                }
            },
        }
    }
}

} // verus!
