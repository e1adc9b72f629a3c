//! The external programs behind the power actions.
//!
//! Nothing is started here: each function says which program the host has to
//! start, and the host starts it without waiting for it.

use vstd::prelude::*;

verus! {

/// An action on the session or the machine that the host carries out.
#[derive(Clone, Copy, Debug, PartialEq, Eq, Structural)]
pub enum PowerAction {
    Lock,
    Suspend,
    Reboot,
    Shutdown,
    Logout,
}

/// A program to start, with its arguments.
#[derive(Clone, Debug, PartialEq, Eq)]
pub struct Invocation {
    pub program: String,
    pub args: Vec<String>,
}

/// Mathematical model of an `Invocation`.
#[verifier::ext_equal]
pub struct InvocationView {
    pub program: Seq<char>,
    pub args: Seq<Seq<char>>,
}

impl View for Invocation {
    type V = InvocationView;

    open spec fn view(&self) -> InvocationView {
        InvocationView { program: self.program@, args: self.args@.map_values(|a: String| a@) }
    }
}

/// The model of an optional invocation.
pub open spec fn invocation_option_view(invocation: Option<Invocation>) -> Option<InvocationView> {
    match invocation {
        Some(i) => Some(i@),
        None => None,
    }
}

/// The invocation that hands a command line to the shell: `bash -c` and the
/// command line as one argument.
pub open spec fn shell(command: Seq<char>) -> InvocationView {
    InvocationView { program: "bash"@, args: seq!["-c"@, command] }
}

/// The command line of a power action. Locking the session has none: which
/// locker to start is the host's choice.
pub open spec fn command_line(action: PowerAction) -> Option<Seq<char>> {
    match action {
        PowerAction::Lock => None,
        PowerAction::Suspend => Some("systemctl suspend"@),
        PowerAction::Reboot => Some("systemctl reboot"@),
        PowerAction::Shutdown => Some("shutdown now"@),
        PowerAction::Logout => Some("loginctl kill-user $(whoami)"@),
    }
}

/// The invocation that runs `command` in a shell.
pub fn execute_command(command: String) -> (invocation: Invocation)
    ensures
        invocation@ == shell(command@),
{
    let mut args: Vec<String> = Vec::new();
    args.push("-c".to_owned());
    args.push(command);
    let invocation = Invocation { program: "bash".to_owned(), args };
    assert(invocation@.args =~= seq!["-c"@, command@]);
    invocation
}

/// The invocation that suspends the machine.
pub fn suspend() -> (invocation: Invocation)
    ensures
        invocation@ == shell("systemctl suspend"@),
{
    execute_command("systemctl suspend".to_owned())
}

/// The invocation that powers the machine off.
pub fn shutdown() -> (invocation: Invocation)
    ensures
        invocation@ == shell("shutdown now"@),
{
    execute_command("shutdown now".to_owned())
}

/// The invocation that restarts the machine.
pub fn reboot() -> (invocation: Invocation)
    ensures
        invocation@ == shell("systemctl reboot"@),
{
    execute_command("systemctl reboot".to_owned())
}

/// The invocation that ends the session of the current user.
pub fn logout() -> (invocation: Invocation)
    ensures
        invocation@ == shell("loginctl kill-user $(whoami)"@),
{
    execute_command("loginctl kill-user $(whoami)".to_owned())
}

impl PowerAction {
    /// The program that carries the action out, where it has a fixed one.
    pub fn invocation(&self) -> (invocation: Option<Invocation>)
        ensures
            invocation_option_view(invocation) == (match command_line(*self) {
                Some(line) => Some(shell(line)),
                None => None,
            }),
    {
        match self {
            PowerAction::Lock => None,
            PowerAction::Suspend => Some(suspend()),
            PowerAction::Reboot => Some(reboot()),
            PowerAction::Shutdown => Some(shutdown()),
            PowerAction::Logout => Some(logout()),
        }
    }
}

} // verus!
