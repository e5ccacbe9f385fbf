use vstd::prelude::*;
use vstd::string::*;

verus! {

/// The interpreter used where the user names none.
pub open spec fn default_shell() -> Seq<char> {
    "/bin/bash"@
}

/// The shell command that adds a task described by `text`, with the error
/// stream merged into the output stream.
pub open spec fn add_command(text: Seq<char>) -> Seq<char> {
    "task add "@ + text + " 2>&1"@
}

/// The text of a launch error whose cause reads `cause`.
pub open spec fn spawn_error_text(cause: Seq<char>) -> Seq<char> {
    "Could not spawn process: "@ + cause
}

/// A process to start: the program and its arguments.
#[derive(Debug)]
pub struct Invocation {
    pub program: String,
    pub args: Vec<String>,
}

/// The task tracker that new tasks are handed to.
pub struct TaskWarrior {}

impl TaskWarrior {
    /// The interpreter to run: the user's preferred shell where one is set,
    /// else the default.
    pub fn interpreter(shell: Option<String>) -> (r: String)
        ensures
            r@ == match shell {
                Some(s) => s@,
                None => default_shell(),
            },
    {
        match shell {
            Some(s) => s,
            None => {
                let r = String::from_str("/bin/bash");
                proof {
                    reveal_strlit("/bin/bash");
                }
                r
            },
        }
    }

    /// The command line, for the shell, that adds a task described by `text`.
    pub fn command_line(text: &str) -> (r: String)
        ensures
            r@ == add_command(text@),
    {
        let mut r = String::from_str("task add ");
        r.append(text);
        r.append(" 2>&1");
        proof {
            reveal_strlit("task add ");
            reveal_strlit(" 2>&1");
        }
        r
    }

    /// What to start to add a task described by `text`: the interpreter,
    /// told by `-c` to run the add command.
    pub fn invocation(shell: Option<String>, text: &str) -> (r: Invocation)
        ensures
            r.program@ == match shell {
                Some(s) => s@,
                None => default_shell(),
            },
            r.args@.len() == 2,
            r.args@[0]@ == "-c"@,
            r.args@[1]@ == add_command(text@),
    {
        let program = TaskWarrior::interpreter(shell);
        let mut args: Vec<String> = Vec::new();
        let flag = String::from_str("-c");
        proof {
            reveal_strlit("-c");
        }
        args.push(flag);
        args.push(TaskWarrior::command_line(text));
        Invocation { program, args }
    }

    /// The error reported where the process could not be started, for a
    /// cause that reads `cause`.
    pub fn spawn_error(cause: &str) -> (r: String)
        ensures
            r@ == spawn_error_text(cause@),
    {
        let mut r = String::from_str("Could not spawn process: ");
        r.append(cause);
        proof {
            reveal_strlit("Could not spawn process: ");
        }
        r
    }
}

} // verus!
