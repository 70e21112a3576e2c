//! How one run of the command ended.

use vstd::prelude::*;

verus! {

/// What the driver saw of one run of the command.
#[derive(Clone, Debug, PartialEq, Eq)]
pub enum Completion {
    /// The command started and ended. The exit code is absent where the
    /// platform reports none, as for a command ended by a signal.
    Exited(Option<i32>),
    /// The command could not be started; the text says why.
    NotStarted(String),
}

/// The mathematical content of a [`Completion`].
pub enum CompletionView {
    Exited(Option<i32>),
    NotStarted(Seq<char>),
}

impl View for Completion {
    type V = CompletionView;

    open spec fn view(&self) -> CompletionView {
        match *self {
            Completion::Exited(code) => CompletionView::Exited(code),
            Completion::NotStarted(why) => CompletionView::NotStarted(why@),
        }
    }
}

/// The classified result of one run of the command.
#[derive(Clone, Debug, PartialEq, Eq)]
pub enum Outcome {
    /// The command started and exited with code 0.
    Success,
    /// The command started and ended otherwise; the code is kept for the log.
    NonZeroExit(Option<i32>),
    /// The command could not be started.
    SpawnFailure(String),
}

/// The mathematical content of an [`Outcome`].
pub enum OutcomeView {
    Success,
    NonZeroExit(Option<i32>),
    SpawnFailure(Seq<char>),
}

impl View for Outcome {
    type V = OutcomeView;

    open spec fn view(&self) -> OutcomeView {
        match *self {
            Outcome::Success => OutcomeView::Success,
            Outcome::NonZeroExit(code) => OutcomeView::NonZeroExit(code),
            Outcome::SpawnFailure(why) => OutcomeView::SpawnFailure(why@),
        }
    }
}

impl OutcomeView {
    /// Every outcome but success takes the failure route.
    pub open spec fn failed(self) -> bool {
        !(self is Success)
    }
}

/// The outcome that a completion amounts to: success for exit code 0 and for
/// nothing else.
pub open spec fn outcome_of(completion: CompletionView) -> OutcomeView {
    match completion {
        CompletionView::Exited(code) => if code == Some(0i32) {
            OutcomeView::Success
        } else {
            OutcomeView::NonZeroExit(code)
        },
        CompletionView::NotStarted(why) => OutcomeView::SpawnFailure(why),
    }
}

/// Classifies what the driver saw of a run.
pub fn classify(completion: Completion) -> (outcome: Outcome)
    ensures
        outcome@ == outcome_of(completion@),
{
    match completion {
        Completion::Exited(Some(code)) => {
            if code == 0 {
                Outcome::Success
            } else {
                Outcome::NonZeroExit(Some(code))
            }
        },
        Completion::Exited(None) => Outcome::NonZeroExit(None),
        Completion::NotStarted(why) => Outcome::SpawnFailure(why),
    }
}

impl Outcome {
    /// Whether the file takes the failure route.
    pub fn failed(&self) -> (failed: bool)
        ensures
            failed == self@.failed(),
    {
        match self {
            Outcome::Success => false,
            _ => true,
        }
    }
}

} // verus!
