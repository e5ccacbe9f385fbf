use new_task_gtk::launch::TaskWarrior;

#[test]
fn shell_falls_back_to_bash() {
    assert_eq!(TaskWarrior::interpreter(None), "/bin/bash");
    assert_eq!(TaskWarrior::interpreter(Some("/bin/zsh".to_owned())), "/bin/zsh");
}

#[test]
fn command_line_adds_the_text() {
    assert_eq!(TaskWarrior::command_line("buy milk"), "task add buy milk 2>&1");
    assert_eq!(TaskWarrior::command_line(""), "task add  2>&1");
}

#[test]
fn invocation_runs_the_command_through_the_shell() {
    let inv = TaskWarrior::invocation(Some("/bin/sh".to_owned()), "x");
    assert_eq!(inv.program, "/bin/sh");
    assert_eq!(inv.args, vec!["-c".to_owned(), "task add x 2>&1".to_owned()]);
}

#[test]
fn spawn_error_names_the_cause() {
    assert_eq!(
        TaskWarrior::spawn_error("No such file or directory"),
        "Could not spawn process: No such file or directory"
    );
}
