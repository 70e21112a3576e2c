use dirqd::config::DirQDArgs;
use dirqd::disposal::Disposal;
use dirqd::engine::{initial, step, Action, ChangeKind, Ending, Event, State};
use dirqd::entry::{EntryNames, FileEntry};
use dirqd::outcome::{Completion, Outcome};
use dirqd::scan::SkipReason;

/// A directory tree held in memory, each file named by its path.
struct Disk {
    files: Vec<String>,
    fail_disposals: bool,
}

/// What a run of the engine did.
struct Report {
    commands: Vec<Vec<String>>,
    outcomes: Vec<Outcome>,
    skipped: Vec<SkipReason>,
    disposal_errors: usize,
    ending: Option<Ending>,
}

fn config(command: &str, pattern: &str) -> DirQDArgs {
    DirQDArgs {
        directory: "in".to_string(),
        command: vec![command.to_string()],
        pattern: pattern.to_string(),
        processed_queue: Some("done".to_string()),
        delete: false,
        error_queue: Some("err".to_string()),
        delete_on_error: false,
    }
}

fn listing(disk: &Disk) -> Vec<FileEntry> {
    let mut entries = Vec::new();
    for path in disk.files.iter() {
        if let Some(name) = path.strip_prefix("in/") {
            entries.push(FileEntry {
                is_file: true,
                names: Some(EntryNames { path: path.clone(), file_name: name.to_string() }),
            });
        }
    }
    entries
}

/// Stands in for the command: `echo` succeeds, `fail2` exits with code 2, and
/// anything else cannot be started.
fn run(argv: &[String]) -> Completion {
    match argv[0].as_str() {
        "echo" => Completion::Exited(Some(0)),
        "fail2" => Completion::Exited(Some(2)),
        _ => Completion::NotStarted("No such file or directory".to_string()),
    }
}

fn carry_out(disk: &mut Disk, disposal: &Disposal) -> bool {
    if disk.fail_disposals {
        return false;
    }
    match disposal {
        Disposal::Move { from, to } => match disk.files.iter().position(|f| f == from) {
            Some(at) => {
                disk.files.remove(at);
                disk.files.retain(|f| f != to);
                disk.files.push(to.clone());
                true
            }
            None => false,
        },
        Disposal::Delete { path } => match disk.files.iter().position(|f| f == path) {
            Some(at) => {
                disk.files.remove(at);
                true
            }
            None => false,
        },
    }
}

/// Drives the engine as a program would: through startup, the first scan,
/// one scan for each of `changes`, and the closing of the notifier.
fn drive(config: &DirQDArgs, disk: &mut Disk, changes: &[ChangeKind]) -> Report {
    let mut report = Report {
        commands: Vec::new(),
        outcomes: Vec::new(),
        skipped: Vec::new(),
        disposal_errors: 0,
        ending: None,
    };
    let mut pending: Vec<FileEntry> = Vec::new();
    let mut changes = changes.iter();
    let mut state = initial();
    let mut event = Event::Started;
    loop {
        let answered = step(config, state, event).expect("the driver reports what is awaited");
        state = answered.next;
        event = match answered.action {
            Action::Watch => Event::Watching,
            Action::List => {
                pending = listing(disk);
                pending.reverse();
                match pending.pop() {
                    Some(entry) => Event::Entry(entry),
                    None => Event::ListingEnded,
                }
            }
            Action::Skip(reason) => {
                report.skipped.push(reason);
                match pending.pop() {
                    Some(entry) => Event::Entry(entry),
                    None => Event::ListingEnded,
                }
            }
            Action::Next => match pending.pop() {
                Some(entry) => Event::Entry(entry),
                None => Event::ListingEnded,
            },
            Action::Run(argv) => {
                let completion = run(&argv);
                report.commands.push(argv);
                Event::Completed(completion)
            }
            Action::Dispose { outcome, disposal } => {
                report.outcomes.push(outcome);
                if carry_out(disk, &disposal) {
                    Event::Disposed
                } else {
                    report.disposal_errors += 1;
                    Event::DisposalFailed
                }
            }
            Action::Wait => match changes.next() {
                Some(kind) => Event::Changed(*kind),
                None => Event::NotifierClosed,
            },
            Action::Exit(ending) => {
                report.ending = Some(ending);
                assert_eq!(state, State::Stopped);
                return report;
            }
        };
    }
}

fn disk(files: &[&str]) -> Disk {
    Disk { files: files.iter().map(|f| f.to_string()).collect(), fail_disposals: false }
}

#[test]
fn successful_file_is_moved_to_the_processed_queue() {
    let mut disk = disk(&["in/job1.txt"]);
    let report = drive(&config("echo", "*.txt"), &mut disk, &[]);
    assert_eq!(report.commands, vec![vec!["echo".to_string(), "in/job1.txt".to_string()]]);
    assert_eq!(report.outcomes, vec![Outcome::Success]);
    assert_eq!(disk.files, vec!["done/job1.txt"]);
    assert_eq!(report.ending, Some(Ending::Clean));
}

#[test]
fn successful_file_is_deleted_where_deletion_is_chosen() {
    let mut config = config("echo", "*.txt");
    config.processed_queue = None;
    config.delete = true;
    let mut disk = disk(&["in/job1.txt"]);
    let report = drive(&config, &mut disk, &[]);
    assert_eq!(report.commands.len(), 1);
    assert!(disk.files.is_empty());
}

#[test]
fn file_that_does_not_match_is_left_untouched() {
    let mut disk = disk(&["in/job2.dat"]);
    let report = drive(&config("echo", "*.txt"), &mut disk, &[]);
    assert!(report.commands.is_empty());
    assert!(report.outcomes.is_empty());
    assert_eq!(report.skipped, vec![SkipReason::NoMatch]);
    assert_eq!(disk.files, vec!["in/job2.dat"]);
}

#[test]
fn file_of_a_command_that_cannot_start_goes_to_the_error_queue() {
    let mut disk = disk(&["in/job3.txt"]);
    let report = drive(&config("no-such-executable", "*.txt"), &mut disk, &[]);
    assert_eq!(
        report.outcomes,
        vec![Outcome::SpawnFailure("No such file or directory".to_string())]
    );
    assert_eq!(disk.files, vec!["err/job3.txt"]);
}

#[test]
fn file_of_a_command_that_exits_with_code_2_goes_to_the_error_queue() {
    let mut disk = disk(&["in/job4.txt"]);
    let report = drive(&config("fail2", "*.txt"), &mut disk, &[]);
    assert_eq!(report.outcomes, vec![Outcome::NonZeroExit(Some(2))]);
    assert_eq!(disk.files, vec!["err/job4.txt"]);
}

#[test]
fn failed_file_is_deleted_where_deletion_is_chosen() {
    let mut config = config("fail2", "*.txt");
    config.error_queue = None;
    config.delete_on_error = true;
    let mut disk = disk(&["in/job4.txt"]);
    drive(&config, &mut disk, &[]);
    assert!(disk.files.is_empty());
}

#[test]
fn second_scan_runs_nothing() {
    let mut disk = disk(&["in/a.txt", "in/b.dat", "in/c.txt"]);
    let config = config("echo", "*.txt");
    let report = drive(&config, &mut disk, &[ChangeKind::Modify]);
    assert_eq!(
        report.commands,
        vec![
            vec!["echo".to_string(), "in/a.txt".to_string()],
            vec!["echo".to_string(), "in/c.txt".to_string()],
        ]
    );
    assert_eq!(report.skipped, vec![SkipReason::NoMatch, SkipReason::NoMatch]);
    assert_eq!(report.disposal_errors, 0);
    assert_eq!(disk.files, vec!["in/b.dat", "done/a.txt", "done/c.txt"]);
    let again = drive(&config, &mut disk, &[ChangeKind::Create]);
    assert!(again.commands.is_empty());
    assert_eq!(again.disposal_errors, 0);
    assert_eq!(disk.files, vec!["in/b.dat", "done/a.txt", "done/c.txt"]);
}

#[test]
fn files_are_taken_in_listing_order() {
    let mut disk = disk(&["in/3.txt", "in/1.txt", "in/2.txt"]);
    let report = drive(&config("echo", "*.txt"), &mut disk, &[]);
    let paths: Vec<&str> = report.commands.iter().map(|argv| argv[1].as_str()).collect();
    assert_eq!(paths, vec!["in/3.txt", "in/1.txt", "in/2.txt"]);
}

#[test]
fn mixed_outcomes_are_routed_file_by_file() {
    let mut config = config("fail2", "*");
    config.error_queue = None;
    config.delete_on_error = true;
    let mut disk = disk(&["in/x", "in/y"]);
    let report = drive(&config, &mut disk, &[]);
    assert_eq!(report.outcomes, vec![Outcome::NonZeroExit(Some(2)), Outcome::NonZeroExit(Some(2))]);
    assert!(disk.files.is_empty());
}

#[test]
fn changes_that_start_no_scan_run_nothing() {
    let mut disk = disk(&[]);
    let config = config("echo", "*");
    let report = drive(&config, &mut disk, &[ChangeKind::Remove, ChangeKind::Access, ChangeKind::Other]);
    assert!(report.commands.is_empty());
    assert_eq!(report.ending, Some(Ending::Clean));
}

#[test]
fn file_whose_disposal_failed_is_run_again_by_the_next_scan() {
    let mut disk = disk(&["in/a.txt"]);
    disk.fail_disposals = true;
    let report = drive(&config("echo", "*.txt"), &mut disk, &[ChangeKind::Modify]);
    assert_eq!(report.commands.len(), 2);
    assert_eq!(report.disposal_errors, 2);
    assert_eq!(disk.files, vec!["in/a.txt"]);
    assert_eq!(report.ending, Some(Ending::Clean));
}

#[test]
fn move_onto_an_existing_file_replaces_it() {
    let mut disk = disk(&["done/a.txt", "in/a.txt"]);
    drive(&config("echo", "*.txt"), &mut disk, &[]);
    assert_eq!(disk.files, vec!["done/a.txt"]);
}
