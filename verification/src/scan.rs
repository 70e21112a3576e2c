//! The decision that a scan takes on each directory entry.

use vstd::prelude::*;
use crate::config::{texts, DirQDArgs, Settings};
use crate::entry::{Entry, FileEntry};
use crate::pattern::{glob_matches, pattern_matches};

verus! {

/// Why an entry is left where it is.
#[derive(Clone, Copy, Debug, PartialEq, Eq, Structural)]
pub enum SkipReason {
    /// The entry is no regular file.
    NotAFile,
    /// The entry's path is not representable as text.
    NoTextPath,
    /// The entry's path does not match the pattern.
    NoMatch,
}

/// What a scan does with one entry.
#[derive(Clone, Debug, PartialEq, Eq)]
pub enum Verdict {
    /// Leave the entry untouched.
    Skip(SkipReason),
    /// Run the command with these arguments, the executable first.
    Run(Vec<String>),
}

/// The mathematical content of a [`Verdict`].
pub enum VerdictView {
    Skip(SkipReason),
    Run(Seq<Seq<char>>),
}

impl View for Verdict {
    type V = VerdictView;

    open spec fn view(&self) -> VerdictView {
        match *self {
            Verdict::Skip(reason) => VerdictView::Skip(reason),
            Verdict::Run(argv) => VerdictView::Run(texts(argv@)),
        }
    }
}

/// The arguments of the command for the file at `path`: the configured tokens,
/// then the path as the last argument.
pub open spec fn command_line(settings: Settings, path: Seq<char>) -> Seq<Seq<char>> {
    settings.command.push(path)
}

/// Whether the entry's path is text that the configured pattern matches.
pub open spec fn eligible(settings: Settings, entry: Entry) -> bool {
    entry.names is Some && glob_matches(settings.pattern, entry.names->0.path)
}

/// The verdict on `entry`, given whether the pattern matched its path.
/// `matched` counts only for a regular file whose path is text.
pub open spec fn verdict_given(settings: Settings, entry: Entry, matched: bool) -> VerdictView {
    if !entry.is_file {
        VerdictView::Skip(SkipReason::NotAFile)
    } else if entry.names is None {
        VerdictView::Skip(SkipReason::NoTextPath)
    } else if !matched {
        VerdictView::Skip(SkipReason::NoMatch)
    } else {
        VerdictView::Run(command_line(settings, entry.names->0.path))
    }
}

/// The verdict on `entry`.
pub open spec fn verdict_of(settings: Settings, entry: Entry) -> VerdictView {
    verdict_given(settings, entry, eligible(settings, entry))
}

/// Builds the arguments of the command for the file at `path`.
pub fn build_command_line(config: &DirQDArgs, path: &String) -> (argv: Vec<String>)
    ensures
        texts(argv@) == command_line(config@, path@),
{
    let mut argv: Vec<String> = Vec::new();
    let mut i: usize = 0;
    while i < config.command.len()
        invariant
            i <= config.command.len(),
            argv@.len() == i,
            forall|j: int| 0 <= j < i ==> argv@[j]@ == config.command@[j]@,
        decreases config.command.len() - i,
    {
        argv.push(config.command[i].clone());
        i += 1;
    }
    argv.push(path.clone());
    assert(texts(argv@) =~= command_line(config@, path@));
    argv
}

/// Tells whether the configured pattern matches the entry's path. An entry
/// whose path is not text matches nothing.
pub fn is_eligible(config: &DirQDArgs, entry: &FileEntry) -> (hit: bool)
    ensures
        hit == eligible(config@, entry@),
{
    match &entry.names {
        Some(names) => pattern_matches(config.pattern.as_str(), names.path.as_str()),
        None => false,
    }
}

/// Decides on `entry`, given whether the pattern matched its path.
pub fn decide(config: &DirQDArgs, entry: &FileEntry, matched: bool) -> (verdict: Verdict)
    ensures
        verdict@ == verdict_given(config@, entry@, matched),
{
    if !entry.is_file {
        return Verdict::Skip(SkipReason::NotAFile);
    }
    match &entry.names {
        None => Verdict::Skip(SkipReason::NoTextPath),
        Some(names) => {
            if !matched {
                Verdict::Skip(SkipReason::NoMatch)
            } else {
                Verdict::Run(build_command_line(config, &names.path))
            }
        },
    }
}

/// Decides on `entry`: the command runs on a regular file whose path is text
/// that matches the pattern, and on nothing else.
pub fn examine(config: &DirQDArgs, entry: &FileEntry) -> (verdict: Verdict)
    ensures
        verdict@ == verdict_of(config@, entry@),
{
    let matched = entry.is_file && is_eligible(config, entry);
    proof {
        // `matched` differs from `eligible` only where the entry is no file,
        // and there it is not read.
        assert(verdict_given(config@, entry@, matched) == verdict_of(config@, entry@));
    }
    decide(config, entry, matched)
}

} // verus!
