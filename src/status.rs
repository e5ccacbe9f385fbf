use vstd::prelude::*;

verus! {

/// The exit of a finished process, as the code it exited with.
///
/// `code` is absent where the process ended without one (it was killed by a
/// signal). The exit counts as a success exactly when the code is zero.
#[derive(Clone, Copy, Debug, PartialEq, Eq)]
pub struct ExitInfo {
    pub code: Option<i32>,
}

impl ExitInfo {
    pub open spec fn is_success(self) -> bool {
        self.code == Some(0i32)
    }

    pub fn success(&self) -> (r: bool)
        ensures
            r == self.is_success(),
    {
        match self.code {
            Some(c) => c == 0,
            None => false,
        }
    }
}

/// The code reported for a failed exit that carries none of its own.
pub const FALLBACK_FAILURE_CODE: i32 = 1;

/// The text of the error reported when no exit status could be had.
pub open spec fn unknown_exit_message() -> Seq<char> {
    "Cannot determine exit status"@
}

/// One event of a command's output stream, as handed to the caller by a poll.
#[derive(Debug)]
pub enum StreamStatus {
    Line(String),
    Wait,
    Complete,
    Failed(i32),
    Error(String),
}

/// The mathematical value of a [`StreamStatus`]: texts as character sequences.
pub enum StatusView {
    Line(Seq<char>),
    Wait,
    Complete,
    Failed(i32),
    Error(Seq<char>),
}

impl StatusView {
    /// The poll ends the stream: no line and no waiting.
    pub open spec fn is_terminal(self) -> bool {
        match self {
            StatusView::Complete | StatusView::Failed(_) | StatusView::Error(_) => true,
            _ => false,
        }
    }

    /// What a finished process reports: success, or failure with its code.
    pub open spec fn of_exit(exit: ExitInfo) -> StatusView {
        if exit.is_success() {
            StatusView::Complete
        } else {
            StatusView::Failed(
                match exit.code {
                    Some(c) => c,
                    None => FALLBACK_FAILURE_CODE,
                },
            )
        }
    }

    /// The terminal outcome of a stream whose worker left `result`: the
    /// process's exit where it is known, else an error.
    pub open spec fn terminal_of(result: Option<ExitInfo>) -> StatusView {
        match result {
            Some(exit) => StatusView::of_exit(exit),
            None => StatusView::Error(unknown_exit_message()),
        }
    }
}

impl View for StreamStatus {
    type V = StatusView;

    open spec fn view(&self) -> StatusView {
        match self {
            StreamStatus::Line(l) => StatusView::Line(l@),
            StreamStatus::Wait => StatusView::Wait,
            StreamStatus::Complete => StatusView::Complete,
            StreamStatus::Failed(c) => StatusView::Failed(*c),
            StreamStatus::Error(m) => StatusView::Error(m@),
        }
    }
}

impl StreamStatus {
    pub fn from_status(status: &ExitInfo) -> (r: StreamStatus)
        ensures
            r@ == StatusView::of_exit(*status),
    {
        if status.success() {
            StreamStatus::Complete
        } else {
            StreamStatus::Failed(
                match status.code {
                    Some(c) => c,
                    None => FALLBACK_FAILURE_CODE,
                },
            )
        }
    }
}

} // verus!
