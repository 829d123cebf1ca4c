//! The failures that end a turn.

use vstd::prelude::*;
use vstd::string::*;

verus! {

/// A failure that is fatal to the turn in progress. It is handed to the
/// caller; the transcript keeps what it held before the failed step.
#[derive(Debug, PartialEq, Eq)]
pub enum Failure {
    /// The tool server or the completion endpoint cannot be reached.
    Transport { detail: String },
    /// An outside service answered in a shape that nothing here expects.
    Protocol { detail: String },
    /// The completion call itself failed.
    Completion { detail: String },
    /// The model asked for more tool calls in one turn than the limit allows.
    ToolLoopExceeded { limit: u64 },
}

/// The mathematical value of a [`Failure`].
pub enum FailureView {
    Transport { detail: Seq<char> },
    Protocol { detail: Seq<char> },
    Completion { detail: Seq<char> },
    ToolLoopExceeded { limit: u64 },
}

impl View for Failure {
    type V = FailureView;

    open spec fn view(&self) -> FailureView {
        match *self {
            Failure::Transport { detail } => FailureView::Transport { detail: detail@ },
            Failure::Protocol { detail } => FailureView::Protocol { detail: detail@ },
            Failure::Completion { detail } => FailureView::Completion { detail: detail@ },
            Failure::ToolLoopExceeded { limit } => FailureView::ToolLoopExceeded { limit },
        }
    }
}

impl Clone for Failure {
    fn clone(&self) -> (res: Self)
        ensures
            res@ == self@,
    {
        match self {
            Failure::Transport { detail } => Failure::Transport { detail: detail.clone() },
            Failure::Protocol { detail } => Failure::Protocol { detail: detail.clone() },
            Failure::Completion { detail } => Failure::Completion { detail: detail.clone() },
            Failure::ToolLoopExceeded { limit } => Failure::ToolLoopExceeded { limit: *limit },
        }
    }
}

/// The diagnostic of a failure that carries a detail: a phrase for its kind
/// followed by the detail.
pub open spec fn failure_text(f: FailureView) -> Seq<char> {
    match f {
        FailureView::Transport { detail } => "Transport error: "@ + detail,
        FailureView::Protocol { detail } => "Protocol error: "@ + detail,
        FailureView::Completion { detail } => "Error when prompting: "@ + detail,
        FailureView::ToolLoopExceeded { limit } => "Too many tool calls in one turn"@,
    }
}

impl Failure {
    /// The diagnostic that the outermost caller reports.
    pub fn message(&self) -> (text: String)
        ensures
            text@ == failure_text(self@),
    {
        match self {
            Failure::Transport { detail } => String::from_str("Transport error: ").concat(
                detail.as_str(),
            ),
            Failure::Protocol { detail } => String::from_str("Protocol error: ").concat(
                detail.as_str(),
            ),
            Failure::Completion { detail } => String::from_str("Error when prompting: ").concat(
                detail.as_str(),
            ),
            Failure::ToolLoopExceeded { limit } => String::from_str(
                "Too many tool calls in one turn",
            ),
        }
    }
}

} // verus!
