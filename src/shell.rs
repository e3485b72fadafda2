use vstd::prelude::*;

verus! {

/// The shell that runs a command.
#[derive(Clone, Copy, Debug, PartialEq, Eq, Structural)]
pub enum Shell {
    Powershell,
    Cmd,
}

/// A command line to be run by a shell; its standard output, trimmed, is the answer
/// where the shell reports success.
#[derive(Clone, Debug)]
pub struct ShellCommand {
    pub shell: Shell,
    pub command: String,
}

impl ShellCommand {
    /// The name of the shell's program.
    pub fn program(&self) -> (r: &'static str)
        ensures
            r@ == match self.shell {
                Shell::Powershell => "powershell"@,
                Shell::Cmd => "cmd"@,
            },
    {
        match self.shell {
            Shell::Powershell => "powershell",
            Shell::Cmd => "cmd",
        }
    }

    /// The switch that hands the shell one command.
    pub fn switch(&self) -> (r: &'static str)
        ensures
            r@ == match self.shell {
                Shell::Powershell => "-Command"@,
                Shell::Cmd => "/C"@,
            },
    {
        match self.shell {
            Shell::Powershell => "-Command",
            Shell::Cmd => "/C",
        }
    }
}

/// The invocation that runs `command` in PowerShell.
pub fn run_powershell(command: &str) -> (r: ShellCommand)
    ensures
        r.shell == Shell::Powershell,
        r.command@ == command@,
{
    ShellCommand { shell: Shell::Powershell, command: command.to_owned() }
}

/// The invocation that runs `command` in cmd.
pub fn run_cmd(command: &str) -> (r: ShellCommand)
    ensures
        r.shell == Shell::Cmd,
        r.command@ == command@,
{
    ShellCommand { shell: Shell::Cmd, command: command.to_owned() }
}

} // verus!
