use ashell::utils::launcher::{
    execute_command, logout, reboot, shutdown, suspend, Invocation, PowerAction,
};

fn shell(command: &str) -> Invocation {
    Invocation {
        program: "bash".to_string(),
        args: vec!["-c".to_string(), command.to_string()],
    }
}

#[test]
fn commands_run_in_a_shell() {
    assert_eq!(execute_command("rofi -show drun".to_string()), shell("rofi -show drun"));
    assert_eq!(execute_command(String::new()), shell(""));
}

#[test]
fn power_actions_have_fixed_commands() {
    assert_eq!(suspend(), shell("systemctl suspend"));
    assert_eq!(shutdown(), shell("shutdown now"));
    assert_eq!(reboot(), shell("systemctl reboot"));
    assert_eq!(logout(), shell("loginctl kill-user $(whoami)"));
}

#[test]
fn invocation_of_each_action() {
    assert_eq!(PowerAction::Lock.invocation(), None);
    assert_eq!(PowerAction::Suspend.invocation(), Some(shell("systemctl suspend")));
    assert_eq!(PowerAction::Reboot.invocation(), Some(shell("systemctl reboot")));
    assert_eq!(PowerAction::Shutdown.invocation(), Some(shell("shutdown now")));
    assert_eq!(PowerAction::Logout.invocation(), Some(shell("loginctl kill-user $(whoami)")));
}
