//! What becomes of a file once its command has ended.

use vstd::prelude::*;
use crate::config::{opt_text, DirQDArgs, Settings};
use crate::entry::{EntryNames, Names};
use crate::outcome::{Outcome, OutcomeView};
use crate::paths::{join, path_join};

verus! {

/// The operation that removes a file from the watched directory.
#[derive(Clone, Debug, PartialEq, Eq)]
pub enum Disposal {
    /// Rename the file at `from` to `to`.
    Move { from: String, to: String },
    /// Remove the file at `path`.
    Delete { path: String },
}

/// The mathematical content of a [`Disposal`].
pub enum DisposalView {
    Move { from: Seq<char>, to: Seq<char> },
    Delete { path: Seq<char> },
}

impl View for Disposal {
    type V = DisposalView;

    open spec fn view(&self) -> DisposalView {
        match *self {
            Disposal::Move { from, to } => DisposalView::Move { from: from@, to: to@ },
            Disposal::Delete { path } => DisposalView::Delete { path: path@ },
        }
    }
}

/// The directory that a file goes to after `outcome`, or `None` where it is
/// deleted: the processed queue after success, the error queue otherwise.
pub open spec fn destination_of(settings: Settings, outcome: OutcomeView) -> Option<Seq<char>> {
    if outcome.failed() {
        settings.error_queue
    } else {
        settings.processed_queue
    }
}

/// The disposal of a file that is to end up at `target`: a move there, or a
/// deletion where there is no target.
pub open spec fn disposal_at(names: Names, target: Option<Seq<char>>) -> DisposalView {
    match target {
        Some(to) => DisposalView::Move { from: names.path, to },
        None => DisposalView::Delete { path: names.path },
    }
}

/// The disposal of a file toward `destination`: a move into that directory
/// under the file's own name, or a deletion where there is none.
pub open spec fn disposal_toward(names: Names, destination: Option<Seq<char>>) -> DisposalView {
    disposal_at(
        names,
        match destination {
            Some(dir) => Some(path_join(dir, names.file_name)),
            None => None,
        },
    )
}

/// The disposal of a file whose command ended with `outcome`.
pub open spec fn disposal_of(settings: Settings, names: Names, outcome: OutcomeView) -> DisposalView {
    disposal_toward(names, destination_of(settings, outcome))
}

impl DisposalView {
    /// The path that the disposal takes the file away from.
    pub open spec fn source(self) -> Seq<char> {
        match self {
            DisposalView::Move { from, .. } => from,
            DisposalView::Delete { path } => path,
        }
    }

    /// The files present after the disposal has been carried out without
    /// error on `files`, each file named by its path.
    pub open spec fn applied(self, files: Set<Seq<char>>) -> Set<Seq<char>> {
        match self {
            DisposalView::Move { from, to } => files.remove(from).insert(to),
            DisposalView::Delete { path } => files.remove(path),
        }
    }
}

/// The directory that files go to after `outcome`, or `None` where they are deleted.
pub fn destination<'a>(config: &'a DirQDArgs, outcome: &Outcome) -> (dir: Option<&'a String>)
    ensures
        match dir {
            Some(dir) => Some(dir@),
            None => None,
        } == destination_of(config@, outcome@),
{
    if outcome.failed() {
        config.error_queue.as_ref()
    } else {
        config.processed_queue.as_ref()
    }
}

/// Plans the disposal of a file that is to end up at `target`.
pub fn dispose_at(names: &EntryNames, target: Option<String>) -> (disposal: Disposal)
    ensures
        disposal@ == disposal_at(names@, opt_text(target)),
{
    match target {
        Some(to) => Disposal::Move { from: names.path.clone(), to },
        None => Disposal::Delete { path: names.path.clone() },
    }
}

/// Plans the disposal of a file toward `destination`.
pub fn dispose_toward(names: &EntryNames, destination: Option<&String>) -> (disposal: Disposal)
    ensures
        disposal@ == disposal_toward(
            names@,
            match destination {
                Some(dir) => Some(dir@),
                None => None,
            },
        ),
{
    let target = match destination {
        Some(dir) => Some(join(dir.as_str(), names.file_name.as_str())),
        None => None,
    };
    dispose_at(names, target)
}

/// Plans the disposal of a file whose command ended with `outcome`.
pub fn dispose(config: &DirQDArgs, names: &EntryNames, outcome: &Outcome) -> (disposal: Disposal)
    ensures
        disposal@ == disposal_of(config@, names@, outcome@),
{
    dispose_toward(names, destination(config, outcome))
}

} // verus!
