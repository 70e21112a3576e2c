//! What holds of the engine whatever the configuration, the directory and the
//! commands: laws proved from the engine's steps.
//!
//! The laws on files speak of a directory as the set of the paths of its
//! files, and of a disposal by what it does to that set when it is carried
//! out without error.

use vstd::prelude::*;
use crate::config::Settings;
use crate::disposal::{disposal_toward, DisposalView};
use crate::engine::{start_of, step_of, ActionView, Ending, EventView, StateView};
use crate::entry::Entry;
use crate::outcome::CompletionView;
use crate::paths::path_join;
use crate::pattern::{glob_compiles, glob_matches};

verus! {

/// Whether a scan runs the command on `entry`.
pub open spec fn runs_command(settings: Settings, entry: Entry) -> bool {
    step_of(settings, StateView::Listing, EventView::Entry(entry)) matches Some(step)
        && step.action is Run
}

/// The disposal that a scan orders for `entry` when the command that it runs
/// on it ends as `completion`; none where it runs no command on the entry.
pub open spec fn ordered_disposal(
    settings: Settings,
    entry: Entry,
    completion: CompletionView,
) -> Option<DisposalView> {
    match step_of(settings, StateView::Listing, EventView::Entry(entry)) {
        Some(listed) => match step_of(settings, listed.next, EventView::Completed(completion)) {
            Some(completed) => match completed.action {
                ActionView::Dispose { outcome, disposal } => Some(disposal),
                _ => None,
            },
            None => None,
        },
        None => None,
    }
}

/// The files present after a scan that was reported the entries of `listing`
/// to the end, on which the command run for `listing[i]` ended as
/// `completions[i]`, and every disposal of which was carried out without error.
pub open spec fn after_scan(
    settings: Settings,
    listing: Seq<Entry>,
    completions: Seq<CompletionView>,
    files: Set<Seq<char>>,
) -> Set<Seq<char>>
    decreases listing.len(),
{
    if listing.len() == 0 {
        files
    } else {
        let before = after_scan(settings, listing.drop_last(), completions.drop_last(), files);
        match ordered_disposal(settings, listing.last(), completions.last()) {
            Some(disposal) => disposal.applied(before),
            None => before,
        }
    }
}

/// Startup fails exactly where one of the two disposition pairs has neither
/// or both of its members set, and it then fails before any watch is set up.
/// This holds of every configuration with a command and a pattern.
pub proof fn lemma_startup_fails_iff_unsettled(settings: Settings)
    requires
        settings.command.len() > 0,
        glob_compiles(settings.pattern),
    ensures
        start_of(settings).action is Exit <==> !settings.settled(),
        start_of(settings).action is Watch <==> settings.settled(),
        start_of(settings).next is Stopped <==> !settings.settled(),
        settings.settled() <==> {
            &&& settings.processed_queue is Some != settings.delete
            &&& settings.error_queue is Some != settings.delete_on_error
        },
{
}

/// Only startup can fail. Once the directory is watched the engine ends in one
/// way, cleanly, when the notifier closes; no error of the notifier, of a
/// listing, of a command or of a disposal ends it.
pub proof fn lemma_only_startup_fails(settings: Settings, state: StateView, event: EventView)
    requires
        step_of(settings, state, event) matches Some(step) && step.next is Stopped,
    ensures
        step_of(settings, state, event)->0.action is Exit,
        step_of(settings, state, event)->0.action != ActionView::Exit(Ending::Clean) ==> state
            is Starting || state is Subscribing,
        step_of(settings, state, event)->0.action == ActionView::Exit(Ending::Clean) <==> state
            is Idle && event is NotifierClosed,
{
}

/// The engine works on one thing at a time. While a scan is under way no
/// report of the notifier is awaited, and the scan goes on until its listing
/// ends or fails; the engine then rests. An engine that has ended awaits
/// nothing.
pub proof fn lemma_scan_runs_to_its_end(settings: Settings, state: StateView, event: EventView)
    ensures
        state.scanning() && (event is Changed || event is NotifierFailed || event is NotifierClosed)
            ==> step_of(settings, state, event) is None,
        state.scanning() ==> (step_of(settings, state, event) matches Some(step) ==> {
            &&& step.next.scanning() || step.next is Idle
            &&& step.next is Idle <==> event is ListingEnded || event is ListingFailed || event
                is EntryFailed
            &&& step.next is Idle ==> step.action is Wait
        }),
        state is Stopped ==> step_of(settings, state, event) is None,
{
}

/// The command runs on the regular files whose path is text that matches the
/// pattern, and on nothing else; every other entry is passed over untouched,
/// and the scan goes on.
pub proof fn lemma_command_runs_on_matching_files_only(settings: Settings, entry: Entry)
    ensures
        runs_command(settings, entry) <==> {
            &&& entry.is_file
            &&& entry.names is Some
            &&& glob_matches(settings.pattern, entry.names->0.path)
        },
        !runs_command(settings, entry) ==> {
            &&& step_of(settings, StateView::Listing, EventView::Entry(entry)) matches Some(step)
            &&& step.action is Skip
            &&& step.next is Listing
        },
        runs_command(settings, entry) ==> {
            &&& step_of(settings, StateView::Listing, EventView::Entry(entry)) matches Some(step)
            &&& step.action == ActionView::Run(settings.command.push(entry.names->0.path))
        },
{
}

/// A scan orders a disposal for exactly the entries that it runs the command
/// on: toward the processed queue if the command exited with code 0, toward
/// the error queue otherwise.
pub proof fn lemma_disposal_follows_outcome(
    settings: Settings,
    entry: Entry,
    completion: CompletionView,
)
    ensures
        ordered_disposal(settings, entry, completion) is Some <==> runs_command(settings, entry),
        runs_command(settings, entry) ==> ordered_disposal(settings, entry, completion) == Some(
            disposal_toward(
                entry.names->0,
                if completion == CompletionView::Exited(Some(0i32)) {
                    settings.processed_queue
                } else {
                    settings.error_queue
                },
            ),
        ),
        runs_command(settings, entry) ==> ordered_disposal(settings, entry, completion)->0.source()
            == entry.names->0.path,
{
}

/// A file that the command ran on ends up away from where it was: in the
/// processed queue, under its own name, if the command exited with code 0 and
/// a processed queue is set, in the error queue if the command ended
/// otherwise and an error queue is set, and nowhere if the file is deleted.
///
/// A move that leads to the file's own path leaves the file where it is, so
/// the law leaves that move out.
pub proof fn lemma_disposed_file_leaves_its_place(
    settings: Settings,
    entry: Entry,
    completion: CompletionView,
    files: Set<Seq<char>>,
)
    requires
        runs_command(settings, entry),
        ordered_disposal(settings, entry, completion) matches Some(DisposalView::Move { from, to })
            ==> from != to,
    ensures
        ({
            let succeeded = completion == CompletionView::Exited(Some(0i32));
            let queue = if succeeded {
                settings.processed_queue
            } else {
                settings.error_queue
            };
            let after = ordered_disposal(settings, entry, completion)->0.applied(files);
            &&& !after.contains(entry.names->0.path)
            &&& queue matches Some(dir) ==> after.contains(path_join(dir, entry.names->0.file_name))
        }),
{
    lemma_disposal_follows_outcome(settings, entry, completion);
}

/// Every file that a scan ran the command on is gone from its path when the
/// scan is over, if no move of the scan led to the path of a listed entry.
pub proof fn lemma_scan_clears_what_it_ran(
    settings: Settings,
    listing: Seq<Entry>,
    completions: Seq<CompletionView>,
    files: Set<Seq<char>>,
)
    requires
        completions.len() == listing.len(),
        forall|i: int, j: int|
            0 <= i < listing.len() && 0 <= j < listing.len() && listing[j].names is Some ==> (
            #[trigger] ordered_disposal(settings, listing[i], completions[i]) matches Some(
                DisposalView::Move { from, to },
            ) ==> to != (#[trigger] listing[j]).names->0.path),
    ensures
        forall|i: int|
            0 <= i < listing.len() && runs_command(settings, #[trigger] listing[i]) ==> !after_scan(
                settings,
                listing,
                completions,
                files,
            ).contains(listing[i].names->0.path),
    decreases listing.len(),
{
    if listing.len() > 0 {
        let shorter = listing.drop_last();
        let earlier = completions.drop_last();
        let last = listing.len() - 1;
        assert forall|i: int, j: int|
            0 <= i < shorter.len() && 0 <= j < shorter.len() && shorter[j].names is Some implies (
            #[trigger] ordered_disposal(settings, shorter[i], earlier[i]) matches Some(
                DisposalView::Move { from, to },
            ) ==> to != (#[trigger] shorter[j]).names->0.path) by {
            assert(shorter[i] == listing[i] && earlier[i] == completions[i]);
            assert(shorter[j] == listing[j]);
        }
        lemma_scan_clears_what_it_ran(settings, shorter, earlier, files);
        let after = after_scan(settings, listing, completions, files);
        assert forall|i: int|
            0 <= i < listing.len() && runs_command(settings, #[trigger] listing[i]) implies !after.contains(
            listing[i].names->0.path,
        ) by {
            if i < last {
                assert(shorter[i] == listing[i]);
            }
        }
    }
}

/// Scanning twice in a row runs no command the second time. If the first scan
/// went through its listing, its disposals were carried out without error and
/// none of its moves led to the path of a listed entry, then a second listing,
/// which holds only entries that were listed before and whose files are still
/// there, has every entry passed over.
pub proof fn lemma_second_scan_runs_nothing(
    settings: Settings,
    listing: Seq<Entry>,
    completions: Seq<CompletionView>,
    files: Set<Seq<char>>,
    second: Seq<Entry>,
)
    requires
        completions.len() == listing.len(),
        forall|i: int, j: int|
            0 <= i < listing.len() && 0 <= j < listing.len() && listing[j].names is Some ==> (
            #[trigger] ordered_disposal(settings, listing[i], completions[i]) matches Some(
                DisposalView::Move { from, to },
            ) ==> to != (#[trigger] listing[j]).names->0.path),
        forall|k: int| 0 <= k < second.len() ==> listing.contains(#[trigger] second[k]),
        forall|k: int|
            0 <= k < second.len() && (#[trigger] second[k]).names is Some ==> after_scan(
                settings,
                listing,
                completions,
                files,
            ).contains(second[k].names->0.path),
    ensures
        forall|k: int| 0 <= k < second.len() ==> !runs_command(settings, #[trigger] second[k]),
        forall|k: int, completion: CompletionView|
            0 <= k < second.len() ==> #[trigger] ordered_disposal(settings, second[k], completion)
                is None,
{
    lemma_scan_clears_what_it_ran(settings, listing, completions, files);
    assert forall|k: int| 0 <= k < second.len() implies !runs_command(
        settings,
        #[trigger] second[k],
    ) by {
        if runs_command(settings, second[k]) {
            let i = choose|i: int| 0 <= i < listing.len() && listing[i] == second[k];
            assert(runs_command(settings, listing[i]));
        }
    }
    assert forall|k: int, completion: CompletionView| 0 <= k < second.len() implies #[trigger] ordered_disposal(
        settings,
        second[k],
        completion,
    ) is None by {
        lemma_disposal_follows_outcome(settings, second[k], completion);
    }
}

} // verus!
