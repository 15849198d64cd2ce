use program_launcher::data::CommandData;
use program_launcher::history::MAX_LINES;
use program_launcher::task_manager::{
    announce_error, announce_start, FailurePolicy, ProcessPoll, ProcessState, QueueEntry,
    SpawnOutcome, Stdio, TaskManager, Update,
};

fn command(executable: &str, args: &[&str]) -> CommandData {
    CommandData {
        executable: executable.to_string(),
        args: args.iter().map(|arg| arg.to_string()).collect(),
    }
}

fn manager() -> TaskManager {
    TaskManager::new("library".to_string())
}

fn history(manager: &TaskManager) -> Vec<String> {
    manager.console_lines().iter().cloned().collect()
}

fn idle_round(manager: &mut TaskManager) -> Update {
    manager.update(ProcessPoll::NotExited, &[], &[])
}

fn assert_entry(entry: &QueueEntry, executable: &str, args: &[&str], working_dir: &str) {
    assert_eq!(entry.command.executable, executable);
    assert_eq!(entry.command.args, args);
    assert_eq!(entry.working_dir, working_dir);
    assert_eq!(entry.stdout, Stdio::Piped);
    assert_eq!(entry.stderr, Stdio::Piped);
}

/// Runs the queue to its end, each process exiting with success, and gives
/// the commands in the order in which they were handed out.
fn run_all(manager: &mut TaskManager) -> Vec<QueueEntry> {
    let mut started = Vec::new();
    let mut poll = ProcessPoll::NotExited;
    for _ in 0..20 {
        let step = manager.update(poll, &[], &[]);
        match step.start {
            Some(entry) => {
                assert!(step.changed);
                started.push(entry);
                manager.spawn_finished(SpawnOutcome::Started);
                assert_eq!(manager.process_state(), ProcessState::Running);
                poll = ProcessPoll::Exited { success: true };
            }
            None => break,
        }
    }
    started
}

#[test]
fn new_manager_is_idle_and_empty() {
    let manager = manager();
    assert_eq!(manager.process_state(), ProcessState::Idle);
    assert_eq!(manager.queue_len(), 0);
    assert!(manager.console_lines().is_empty());
    assert_eq!(manager.library_directory(), "library");
}

#[test]
fn default_policy_keeps_the_queue() {
    let policy = FailurePolicy::default();
    assert!(!policy.clear_queue_on_spawn_failure);
    assert!(!policy.clear_queue_on_failed_exit);
    assert_eq!(policy, FailurePolicy::keep_queue());
}

#[test]
fn to_command_pipes_both_streams() {
    let entry = command("echo", &["hi"]).to_command("work");
    assert_entry(&entry, "echo", &["hi"], "work");
}

#[test]
fn update_on_an_idle_manager_with_nothing_to_do_changes_nothing() {
    let mut manager = manager();
    let step = idle_round(&mut manager);
    assert!(!step.changed);
    assert!(step.start.is_none());
    assert_eq!(manager.process_state(), ProcessState::Idle);
    assert!(manager.console_lines().is_empty());
}

#[test]
fn echo_shows_its_output_after_exit() {
    let mut manager = manager();
    manager.new_queue_if_no_running_process(&[command("echo", &["hi"])], ".", true, &None);
    assert_eq!(manager.queue_len(), 1);

    let step = idle_round(&mut manager);
    assert!(step.changed);
    let entry = step.start.expect("the first update starts the process");
    assert_entry(&entry, "echo", &["hi"], ".");
    assert_eq!(manager.process_state(), ProcessState::Starting);
    manager.spawn_finished(SpawnOutcome::Started);
    assert_eq!(manager.process_state(), ProcessState::Running);
    assert_eq!(manager.queue_len(), 0);

    let step = manager.update(ProcessPoll::NotExited, &[], &[]);
    assert!(!step.changed);
    assert!(step.start.is_none());

    let step = manager.update(ProcessPoll::Exited { success: true }, b"hi\n", &[]);
    assert!(step.changed);
    assert!(step.start.is_none());
    assert_eq!(manager.process_state(), ProcessState::Idle);
    assert!(history(&manager).iter().any(|line| line == "hi"));
    assert_eq!(history(&manager), vec!["\nStarted program: \"echo\" \"hi\"\n", "hi"]);
}

#[test]
fn missing_directory_runs_clone_then_build() {
    let mut manager = manager();
    let clone = Some(command("git", &["clone", "url", "missing_dir"]));
    manager.new_queue_if_no_running_process(&[command("cargo", &["build"])], "./missing_dir", false, &clone);
    let started = run_all(&mut manager);
    assert_eq!(started.len(), 2);
    assert_entry(&started[0], "git", &["clone", "url", "missing_dir"], "library");
    assert_entry(&started[1], "cargo", &["build"], "./missing_dir");
    assert_eq!(manager.process_state(), ProcessState::Idle);
}

#[test]
fn spawn_failure_is_written_to_the_history() {
    let mut manager = manager();
    manager.new_queue_if_no_running_process(
        &[command("no-such-executable", &[]), command("echo", &["next"])],
        ".",
        true,
        &None,
    );
    assert_eq!(manager.queue_len(), 2);
    let step = idle_round(&mut manager);
    assert!(step.changed);
    assert_entry(step.start.as_ref().unwrap(), "no-such-executable", &[], ".");
    manager.spawn_finished(SpawnOutcome::Failed("No such file or directory (os error 2)".to_string()));
    assert_eq!(manager.process_state(), ProcessState::Idle);
    assert_eq!(manager.queue_len(), 1);
    assert_eq!(
        history(&manager),
        vec![
            "\nStarted program: \"no-such-executable\"\n",
            "\nerror: No such file or directory (os error 2)\n",
        ]
    );
    let step = idle_round(&mut manager);
    assert_entry(step.start.as_ref().unwrap(), "echo", &["next"], ".");
}

#[test]
fn fetch_runs_first_then_the_commands_in_order() {
    let mut manager = manager();
    let fetch = Some(command("fetch", &[]));
    manager.new_queue_if_no_running_process(&[command("a", &[]), command("b", &[])], "dir", false, &fetch);
    assert_eq!(manager.queue_len(), 3);
    let started = run_all(&mut manager);
    assert_eq!(started.len(), 3);
    assert_entry(&started[0], "fetch", &[], "library");
    assert_entry(&started[1], "a", &[], "dir");
    assert_entry(&started[2], "b", &[], "dir");
}

#[test]
fn fetch_is_skipped_where_the_directory_exists() {
    let mut manager = manager();
    let fetch = Some(command("fetch", &[]));
    manager.new_queue_if_no_running_process(&[command("a", &[]), command("b", &[])], "dir", true, &fetch);
    assert_eq!(manager.queue_len(), 2);
    let started = run_all(&mut manager);
    assert_eq!(started.len(), 2);
    assert_entry(&started[0], "a", &[], "dir");
    assert_entry(&started[1], "b", &[], "dir");
}

#[test]
fn missing_directory_without_fetch_runs_the_commands_alone() {
    let mut manager = manager();
    manager.new_queue_if_no_running_process(&[command("a", &[])], "dir", false, &None);
    let started = run_all(&mut manager);
    assert_eq!(started.len(), 1);
    assert_entry(&started[0], "a", &[], "dir");
}

#[test]
fn new_queue_replaces_the_old_one() {
    let mut manager = manager();
    manager.new_queue_if_no_running_process(&[command("a", &[]), command("b", &[])], "one", true, &None);
    manager.new_queue_if_no_running_process(&[command("c", &[])], "two", true, &None);
    let started = run_all(&mut manager);
    assert_eq!(started.len(), 1);
    assert_entry(&started[0], "c", &[], "two");
}

#[test]
fn new_queue_is_ignored_while_a_process_runs() {
    let mut manager = manager();
    manager.new_queue_if_no_running_process(&[command("a", &[]), command("b", &[])], "one", true, &None);
    let step = idle_round(&mut manager);
    assert!(step.start.is_some());
    manager.new_queue_if_no_running_process(&[command("x", &[])], "two", true, &None);
    assert_eq!(manager.process_state(), ProcessState::Starting);
    assert_eq!(manager.queue_len(), 1);
    manager.spawn_finished(SpawnOutcome::Started);
    let before = history(&manager);
    manager.new_queue_if_no_running_process(&[command("x", &[]), command("y", &[]), command("z", &[])], "two", false, &Some(command("f", &[])));
    assert_eq!(manager.process_state(), ProcessState::Running);
    assert_eq!(manager.queue_len(), 1);
    assert_eq!(history(&manager), before);
    let step = manager.update(ProcessPoll::Exited { success: true }, &[], &[]);
    assert_entry(step.start.as_ref().unwrap(), "b", &[], "one");
}

#[test]
fn no_command_is_handed_out_while_one_is_starting_or_running() {
    let mut manager = manager();
    manager.new_queue_if_no_running_process(&[command("a", &[]), command("b", &[])], "dir", true, &None);
    assert!(idle_round(&mut manager).start.is_some());
    for _ in 0..3 {
        let step = manager.update(ProcessPoll::Exited { success: true }, &[], &[]);
        assert!(step.start.is_none());
        assert_eq!(manager.process_state(), ProcessState::Starting);
        assert!(manager.pop_and_execute().is_none());
    }
    manager.spawn_finished(SpawnOutcome::Started);
    for _ in 0..3 {
        let step = idle_round(&mut manager);
        assert!(step.start.is_none());
        assert!(!step.changed);
        assert_eq!(manager.process_state(), ProcessState::Running);
        assert!(manager.pop_and_execute().is_none());
    }
    assert_eq!(manager.queue_len(), 1);
}

#[test]
fn exit_and_next_start_come_in_one_update() {
    let mut manager = manager();
    manager.new_queue_if_no_running_process(&[command("a", &[]), command("b", &[])], "dir", true, &None);
    idle_round(&mut manager);
    manager.spawn_finished(SpawnOutcome::Started);
    let step = manager.update(ProcessPoll::Exited { success: false }, &[], &[]);
    assert!(step.changed);
    assert_entry(step.start.as_ref().unwrap(), "b", &[], "dir");
    assert_eq!(manager.process_state(), ProcessState::Starting);
}

#[test]
fn exit_is_noted_only_while_a_process_runs() {
    let mut manager = manager();
    let step = manager.update(ProcessPoll::Exited { success: false }, &[], &[]);
    assert!(!step.changed);
    assert_eq!(manager.process_state(), ProcessState::Idle);
}

#[test]
fn spawn_report_counts_only_while_a_start_is_awaited() {
    let mut manager = manager();
    manager.spawn_finished(SpawnOutcome::Started);
    assert_eq!(manager.process_state(), ProcessState::Idle);
    manager.spawn_finished(SpawnOutcome::Failed("late".to_string()));
    assert_eq!(manager.process_state(), ProcessState::Idle);
    assert!(manager.console_lines().is_empty());

    manager.new_queue_if_no_running_process(&[command("a", &[])], "dir", true, &None);
    idle_round(&mut manager);
    manager.spawn_finished(SpawnOutcome::Started);
    let before = history(&manager);
    manager.spawn_finished(SpawnOutcome::Failed("late".to_string()));
    assert_eq!(manager.process_state(), ProcessState::Running);
    assert_eq!(history(&manager), before);
}

#[test]
fn pop_and_execute_takes_the_next_command_and_announces_it() {
    let mut manager = manager();
    assert!(manager.pop_and_execute().is_none());
    manager.new_queue_if_no_running_process(&[command("cargo", &["run", "--release"])], "game", true, &None);
    let entry = manager.pop_and_execute().unwrap();
    assert_entry(&entry, "cargo", &["run", "--release"], "game");
    assert_eq!(manager.process_state(), ProcessState::Starting);
    assert_eq!(manager.queue_len(), 0);
    assert_eq!(history(&manager), vec!["\nStarted program: \"cargo\" \"run\" \"--release\"\n"]);
}

#[test]
fn announcement_quotes_and_escapes_each_part() {
    let mut manager = manager();
    manager.new_queue_if_no_running_process(&[command("my tool", &["say \"hi\"", "a\\b", ""])], "dir", true, &None);
    manager.pop_and_execute().unwrap();
    assert_eq!(
        history(&manager),
        vec!["\nStarted program: \"my tool\" \"say \\\"hi\\\"\" \"a\\\\b\" \"\"\n"]
    );
}

#[test]
fn announce_start_and_error_write_the_entries() {
    assert_eq!(announce_start(&vec!["\"echo\"".to_string(), "\"hi\"".to_string()]), "\nStarted program: \"echo\" \"hi\"\n");
    assert_eq!(announce_start(&vec![]), "\nStarted program: \n");
    assert_eq!(announce_error("permission denied"), "\nerror: permission denied\n");
}

#[test]
fn output_is_recorded_stdout_before_stderr() {
    let mut manager = manager();
    let step = manager.update(ProcessPoll::NotExited, b"out 1\nout 2\n", b"err 1\n");
    assert!(step.changed);
    assert_eq!(history(&manager), vec!["out 1", "out 2", "err 1"]);
    let step = manager.update(ProcessPoll::NotExited, &[], b"err 2");
    assert!(step.changed);
    assert_eq!(history(&manager), vec!["out 1", "out 2", "err 1", "err 2"]);
}

#[test]
fn output_without_final_line_feed_runs_into_the_other_stream() {
    let mut manager = manager();
    manager.update(ProcessPoll::NotExited, b"out", b"err\n");
    assert_eq!(history(&manager), vec!["outerr"]);
}

#[test]
fn output_is_recorded_after_the_process_has_exited() {
    let mut manager = manager();
    manager.new_queue_if_no_running_process(&[command("a", &[])], "dir", true, &None);
    idle_round(&mut manager);
    manager.spawn_finished(SpawnOutcome::Started);
    manager.update(ProcessPoll::Exited { success: true }, b"first\n", &[]);
    assert_eq!(manager.process_state(), ProcessState::Idle);
    let step = manager.update(ProcessPoll::NotExited, b"late\n", b"later\n");
    assert!(step.changed);
    assert_eq!(history(&manager), vec!["\nStarted program: \"a\"\n", "first", "late", "later"]);
}

#[test]
fn drained_lines_come_before_the_announcement_of_the_next_command() {
    let mut manager = manager();
    manager.new_queue_if_no_running_process(&[command("a", &[]), command("b", &[])], "dir", true, &None);
    idle_round(&mut manager);
    manager.spawn_finished(SpawnOutcome::Started);
    manager.update(ProcessPoll::Exited { success: true }, b"done\n", &[]);
    assert_eq!(
        history(&manager),
        vec!["\nStarted program: \"a\"\n", "done", "\nStarted program: \"b\"\n"]
    );
}

#[test]
fn invalid_bytes_are_replaced_and_never_fail() {
    let mut manager = manager();
    let step = manager.update(ProcessPoll::NotExited, &[b'a', 0xff, b'b', b'\n', 0xc3], &[]);
    assert!(step.changed);
    assert_eq!(history(&manager), vec!["a\u{fffd}b", "\u{fffd}"]);
}

#[test]
fn valid_utf8_is_decoded_as_it_is() {
    let mut manager = manager();
    manager.update(ProcessPoll::NotExited, "k\u{e4}ynnistys\r\n\u{2713} ok".as_bytes(), &[]);
    assert_eq!(history(&manager), vec!["k\u{e4}ynnistys", "\u{2713} ok"]);
}

#[test]
fn update_decoded_records_the_lines_of_the_text() {
    let mut manager = manager();
    let step = manager.update_decoded(ProcessPoll::NotExited, Some("a\nb"));
    assert!(step.changed);
    assert_eq!(history(&manager), vec!["a", "b"]);
    let step = manager.update_decoded(ProcessPoll::NotExited, Some(""));
    assert!(step.changed);
    assert_eq!(history(&manager), vec!["a", "b"]);
    let step = manager.update_decoded(ProcessPoll::NotExited, None);
    assert!(!step.changed);
}

#[test]
fn history_stays_within_the_limit_and_keeps_the_most_recent_lines() {
    let mut manager = manager();
    let mut all: Vec<String> = Vec::new();
    for round in 0..40 {
        let mut bytes = Vec::new();
        for i in 0..7 {
            let line = format!("round {} line {}", round, i);
            bytes.extend_from_slice(line.as_bytes());
            bytes.push(b'\n');
            all.push(line);
        }
        manager.update(ProcessPoll::NotExited, &bytes, &[]);
        assert!(manager.console_lines().len() <= MAX_LINES);
        let first = if all.len() > MAX_LINES { all.len() - MAX_LINES } else { 0 };
        assert_eq!(history(&manager), all[first..].to_vec());
    }
    assert_eq!(manager.console_lines().len(), 100);
}

#[test]
fn announcements_drive_out_old_lines_too() {
    let mut manager = manager();
    let mut bytes = Vec::new();
    for i in 0..100 {
        bytes.extend_from_slice(format!("{}\n", i).as_bytes());
    }
    manager.new_queue_if_no_running_process(&[command("a", &[])], "dir", true, &None);
    manager.update(ProcessPoll::NotExited, &bytes, &[]);
    assert_eq!(manager.console_lines().len(), 100);
    assert_eq!(manager.console_lines()[0], "1");
    assert_eq!(manager.console_lines()[99], "\nStarted program: \"a\"\n");
    manager.spawn_finished(SpawnOutcome::Failed("no".to_string()));
    assert_eq!(manager.console_lines().len(), 100);
    assert_eq!(manager.console_lines()[0], "2");
    assert_eq!(manager.console_lines()[99], "\nerror: no\n");
}

#[test]
fn policy_clears_the_queue_on_spawn_failure() {
    let policy = FailurePolicy { clear_queue_on_spawn_failure: true, clear_queue_on_failed_exit: false };
    let mut manager = TaskManager::with_policy("library".to_string(), policy);
    manager.new_queue_if_no_running_process(&[command("a", &[]), command("b", &[]), command("c", &[])], "dir", true, &None);
    idle_round(&mut manager);
    manager.spawn_finished(SpawnOutcome::Failed("no".to_string()));
    assert_eq!(manager.queue_len(), 0);
    assert_eq!(manager.process_state(), ProcessState::Idle);
    assert!(idle_round(&mut manager).start.is_none());
}

#[test]
fn policy_clears_the_queue_on_failed_exit_only() {
    let policy = FailurePolicy { clear_queue_on_spawn_failure: false, clear_queue_on_failed_exit: true };
    let mut manager = TaskManager::with_policy("library".to_string(), policy);
    manager.new_queue_if_no_running_process(&[command("a", &[]), command("b", &[]), command("c", &[])], "dir", true, &None);
    idle_round(&mut manager);
    manager.spawn_finished(SpawnOutcome::Started);
    let step = manager.update(ProcessPoll::Exited { success: true }, &[], &[]);
    assert_entry(step.start.as_ref().unwrap(), "b", &[], "dir");
    manager.spawn_finished(SpawnOutcome::Started);
    let step = manager.update(ProcessPoll::Exited { success: false }, &[], &[]);
    assert!(step.start.is_none());
    assert!(!step.changed);
    assert_eq!(manager.queue_len(), 0);
    assert_eq!(manager.process_state(), ProcessState::Idle);
}

#[test]
fn default_policy_goes_on_after_a_failed_exit() {
    let mut manager = manager();
    manager.new_queue_if_no_running_process(&[command("a", &[]), command("b", &[])], "dir", true, &None);
    idle_round(&mut manager);
    manager.spawn_finished(SpawnOutcome::Started);
    let step = manager.update(ProcessPoll::Exited { success: false }, &[], &[]);
    assert_entry(step.start.as_ref().unwrap(), "b", &[], "dir");
}
