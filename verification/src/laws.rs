//! What holds of the engine over every sequence of calls.

use vstd::prelude::*;

use crate::data::CommandSpec;
use crate::history::{lemma_most_recent_batches, most_recent, MAX_LINES};
use crate::task_manager::{
    after_new_queue, after_output, after_poll, after_pop, after_spawn, after_update, before_pop,
    error_line, next_command, output_lines, piped_entries, piped_entry, requested_queue,
    started_line, ProcessPoll, ProcessState, QueueEntrySpec, SpawnOutcomeSpec, TaskState,
};

verus! {

/// One call of the engine, with what it was given.
pub enum Call {
    /// A round on a poll and on the decoded output, if any was drained.
    Update { poll: ProcessPoll, output: Option<Seq<char>> },
    /// The report of how a start went.
    SpawnFinished { outcome: SpawnOutcomeSpec },
    /// A request for a new queue.
    NewQueue {
        commands: Seq<CommandSpec>,
        working_dir: Seq<char>,
        working_dir_exists: bool,
        fetch: Option<CommandSpec>,
    },
}

/// The state after one call.
pub open spec fn after_call(state: TaskState, call: Call) -> TaskState {
    match call {
        Call::Update { poll, output } => after_update(state, poll, output),
        Call::SpawnFinished { outcome } => after_spawn(state, outcome),
        Call::NewQueue { commands, working_dir, working_dir_exists, fetch } => after_new_queue(
            state,
            commands,
            working_dir,
            working_dir_exists,
            fetch,
        ),
    }
}

/// The command that a call hands out to be started, if it hands one out.
pub open spec fn handed_out(state: TaskState, call: Call) -> Option<QueueEntrySpec> {
    match call {
        Call::Update { poll, output } => next_command(before_pop(state, poll, output)),
        _ => None,
    }
}

/// Whether a call ends the process that was handed out last: an exit that
/// is noted while the process runs, or a start that is reported as failed
/// while it is awaited.
pub open spec fn ends_process(state: TaskState, call: Call) -> bool {
    match call {
        Call::Update { poll, output } => poll is Exited && state.process is Running,
        Call::SpawnFinished { outcome } => outcome is Failed && state.process is Starting,
        _ => false,
    }
}

/// The lines that a call adds to the history, in order.
pub open spec fn lines_added(state: TaskState, call: Call) -> Seq<Seq<char>> {
    match call {
        Call::Update { poll, output } => output_lines(output) + match next_command(
            before_pop(state, poll, output),
        ) {
            Some(entry) => seq![started_line(entry.command)],
            None => Seq::empty(),
        },
        Call::SpawnFinished { outcome } => match outcome {
            SpawnOutcomeSpec::Failed(message) if state.process is Starting => seq![
                error_line(message),
            ],
            _ => Seq::empty(),
        },
        _ => Seq::empty(),
    }
}

/// The state after a sequence of calls.
pub open spec fn after_calls(state: TaskState, calls: Seq<Call>) -> TaskState
    decreases calls.len(),
{
    if calls.len() == 0 {
        state
    } else {
        after_call(after_calls(state, calls.drop_last()), calls.last())
    }
}

/// The number of commands that a sequence of calls hands out.
pub open spec fn count_handed_out(state: TaskState, calls: Seq<Call>) -> nat
    decreases calls.len(),
{
    if calls.len() == 0 {
        0
    } else {
        let before = after_calls(state, calls.drop_last());
        count_handed_out(state, calls.drop_last()) + if handed_out(before, calls.last()) is Some {
            1nat
        } else {
            0nat
        }
    }
}

/// The number of calls of a sequence that end a process.
pub open spec fn count_ended(state: TaskState, calls: Seq<Call>) -> nat
    decreases calls.len(),
{
    if calls.len() == 0 {
        0
    } else {
        let before = after_calls(state, calls.drop_last());
        count_ended(state, calls.drop_last()) + if ends_process(before, calls.last()) {
            1nat
        } else {
            0nat
        }
    }
}

/// All lines that a sequence of calls adds to the history, in order.
pub open spec fn all_lines_added(state: TaskState, calls: Seq<Call>) -> Seq<Seq<char>>
    decreases calls.len(),
{
    if calls.len() == 0 {
        Seq::empty()
    } else {
        let before = after_calls(state, calls.drop_last());
        all_lines_added(state, calls.drop_last()) + lines_added(before, calls.last())
    }
}

/// The number of processes that the engine has: one while a start is awaited
/// or a process runs, none while it is idle.
pub open spec fn processes(state: TaskState) -> nat {
    if state.process is Idle {
        0
    } else {
        1
    }
}

/// A command is handed out only by an idle engine, which is then no longer
/// idle; a call that ends a process leaves the engine idle unless the same
/// call hands out the next command.
pub proof fn lemma_call_accounts_for_process(state: TaskState, call: Call)
    ensures
        processes(after_call(state, call)) + (if ends_process(state, call) {
            1nat
        } else {
            0nat
        }) == processes(state) + (if handed_out(state, call) is Some {
            1nat
        } else {
            0nat
        }),
{
}

/// At most one process at a time: over every sequence of calls, the commands
/// that were handed out and whose process has not ended are as many as the
/// engine says it has, and that is never more than one.
pub proof fn lemma_at_most_one_process(state: TaskState, calls: Seq<Call>)
    ensures
        processes(state) + count_handed_out(state, calls) == count_ended(state, calls)
            + processes(after_calls(state, calls)),
        processes(after_calls(state, calls)) <= 1,
    decreases calls.len(),
{
    if calls.len() > 0 {
        lemma_at_most_one_process(state, calls.drop_last());
        lemma_call_accounts_for_process(after_calls(state, calls.drop_last()), calls.last());
    }
}

/// A call leaves in the history the most recent lines of what was there and
/// what the call adds.
pub proof fn lemma_call_keeps_most_recent(state: TaskState, call: Call)
    ensures
        most_recent(after_call(state, call).history, MAX_LINES as nat) == most_recent(
            state.history + lines_added(state, call),
            MAX_LINES as nat,
        ),
        call is Update ==> after_call(state, call).history == most_recent(
            state.history + lines_added(state, call),
            MAX_LINES as nat,
        ),
{
    match call {
        Call::Update { poll, output } => {
            let mid = before_pop(state, poll, output);
            match next_command(mid) {
                Some(entry) => {
                    let line = started_line(entry.command);
                    lemma_most_recent_batches(
                        state.history + output_lines(output),
                        seq![line],
                        MAX_LINES as nat,
                    );
                    assert(mid.history.push(line) == mid.history + seq![line]);
                    assert(state.history + output_lines(output) + seq![line] == state.history
                        + (output_lines(output) + seq![line]));
                },
                None => {
                    assert(output_lines(output) + Seq::<Seq<char>>::empty() == output_lines(
                        output,
                    ));
                },
            }
        },
        Call::SpawnFinished { outcome } => {
            match outcome {
                SpawnOutcomeSpec::Failed(message) if state.process is Starting => {
                    assert(state.history.push(error_line(message)) == state.history + seq![
                        error_line(message),
                    ]);
                },
                _ => {
                    assert(state.history + Seq::<Seq<char>>::empty() == state.history);
                },
            }
        },
        Call::NewQueue { .. } => {
            assert(state.history + Seq::<Seq<char>>::empty() == state.history);
        },
    }
}

/// Bounded history: after every sequence of calls from a state whose history
/// is within the limit, the history is within the limit and holds exactly the
/// most recent lines of what was there and of all that the calls added, in
/// their order.
pub proof fn lemma_history_is_most_recent(state: TaskState, calls: Seq<Call>)
    requires
        state.history.len() <= MAX_LINES,
    ensures
        after_calls(state, calls).history == most_recent(
            state.history + all_lines_added(state, calls),
            MAX_LINES as nat,
        ),
        after_calls(state, calls).history.len() <= MAX_LINES,
    decreases calls.len(),
{
    if calls.len() == 0 {
        assert(state.history + Seq::<Seq<char>>::empty() == state.history);
    } else {
        let before = after_calls(state, calls.drop_last());
        let earlier = all_lines_added(state, calls.drop_last());
        let added = lines_added(before, calls.last());
        lemma_history_is_most_recent(state, calls.drop_last());
        lemma_call_keeps_most_recent(before, calls.last());
        lemma_most_recent_batches(state.history + earlier, added, MAX_LINES as nat);
        assert(state.history + earlier + added == state.history + (earlier + added));
        lemma_call_keeps_history_bounded(before, calls.last());
    }
}

/// A call never lets a history that is within the limit grow beyond it, and
/// an update brings every history within the limit.
pub proof fn lemma_call_keeps_history_bounded(state: TaskState, call: Call)
    ensures
        state.history.len() <= MAX_LINES ==> after_call(state, call).history.len() <= MAX_LINES,
        call is Update ==> after_call(state, call).history.len() <= MAX_LINES,
{
}

/// A request for a new queue that comes while a process runs or is being
/// started changes nothing: not the queue, not the process, not the history.
pub proof fn lemma_new_queue_rejected_while_busy(
    state: TaskState,
    commands: Seq<CommandSpec>,
    working_dir: Seq<char>,
    working_dir_exists: bool,
    fetch: Option<CommandSpec>,
)
    requires
        !(state.process is Idle),
    ensures
        after_new_queue(state, commands, working_dir, working_dir_exists, fetch) == state,
{
}

/// One round in which all goes well: the process, if one runs, has exited
/// with success, no output was drained, and the command that the update
/// hands out starts.
pub open spec fn after_round(state: TaskState) -> TaskState {
    after_spawn(
        after_update(state, ProcessPoll::Exited { success: true }, None),
        SpawnOutcomeSpec::Started,
    )
}

/// The command that such a round hands out.
pub open spec fn round_command(state: TaskState) -> Option<QueueEntrySpec> {
    next_command(before_pop(state, ProcessPoll::Exited { success: true }, None))
}

/// The state after a number of such rounds.
pub open spec fn after_rounds(state: TaskState, rounds: nat) -> TaskState
    decreases rounds,
{
    if rounds == 0 {
        state
    } else {
        after_round(after_rounds(state, (rounds - 1) as nat))
    }
}

/// Commands run in the order of the queue: where no start is awaited, the
/// round after `rounds` good rounds hands out the command at place `rounds`
/// of the queue, and the commands behind it still wait.
pub proof fn lemma_rounds_follow_queue(state: TaskState, rounds: nat)
    requires
        !(state.process is Starting),
        rounds < state.pending.len(),
    ensures
        round_command(after_rounds(state, rounds)) == Some(state.pending[rounds as int]),
        after_rounds(state, rounds).pending == state.pending.subrange(
            rounds as int,
            state.pending.len() as int,
        ),
        !(after_rounds(state, rounds).process is Starting),
    decreases rounds,
{
    if rounds == 0 {
        assert(state.pending.subrange(0, state.pending.len() as int) == state.pending);
    } else {
        lemma_rounds_follow_queue(state, (rounds - 1) as nat);
        let before = after_rounds(state, (rounds - 1) as nat);
        assert(before.pending.drop_first() == state.pending.subrange(
            rounds as int,
            state.pending.len() as int,
        ));
    }
}

/// Fetch first: a request on an idle engine for commands in a working
/// directory that does not exist, with a fetch command, makes the fetch
/// command run first, in the library directory, and then the commands in
/// their order, in the working directory.
pub proof fn lemma_fetch_runs_first(
    state: TaskState,
    commands: Seq<CommandSpec>,
    working_dir: Seq<char>,
    fetch: CommandSpec,
    rounds: nat,
)
    requires
        state.process is Idle,
        rounds <= commands.len(),
    ensures
        ({
            let requested = after_new_queue(state, commands, working_dir, false, Some(fetch));
            &&& requested.pending == seq![piped_entry(fetch, state.library_directory)]
                + piped_entries(commands, working_dir)
            &&& round_command(after_rounds(requested, rounds)) == Some(
                if rounds == 0 {
                    piped_entry(fetch, state.library_directory)
                } else {
                    piped_entry(commands[rounds - 1], working_dir)
                },
            )
        }),
{
    let requested = after_new_queue(state, commands, working_dir, false, Some(fetch));
    lemma_rounds_follow_queue(requested, rounds);
}

/// No fetch where the working directory exists: the request gives the same
/// state with a fetch command as without one, and only the commands wait, in
/// their order.
pub proof fn lemma_fetch_skipped(
    state: TaskState,
    commands: Seq<CommandSpec>,
    working_dir: Seq<char>,
    fetch: Option<CommandSpec>,
    rounds: nat,
)
    requires
        state.process is Idle,
        rounds < commands.len(),
    ensures
        after_new_queue(state, commands, working_dir, true, fetch) == after_new_queue(
            state,
            commands,
            working_dir,
            true,
            None,
        ),
        after_new_queue(state, commands, working_dir, true, fetch).pending == piped_entries(
            commands,
            working_dir,
        ),
        round_command(
            after_rounds(after_new_queue(state, commands, working_dir, true, fetch), rounds),
        ) == Some(piped_entry(commands[rounds as int], working_dir)),
{
    let requested = after_new_queue(state, commands, working_dir, true, fetch);
    assert(requested.pending =~= piped_entries(commands, working_dir));
    assert(requested.pending == after_new_queue(
        state,
        commands,
        working_dir,
        true,
        None,
    ).pending);
    lemma_rounds_follow_queue(requested, rounds);
}

/// Output is never lost to the state of the process: whether a process
/// runs, is being started or has exited, an update adds the lines of the
/// drained output to the history before anything else that it adds.
pub proof fn lemma_output_recorded_in_every_state(
    state: TaskState,
    poll: ProcessPoll,
    output: Option<Seq<char>>,
)
    ensures
        before_pop(state, poll, output).history == most_recent(
            state.history + output_lines(output),
            MAX_LINES as nat,
        ),
        after_update(state, poll, output).history == most_recent(
            state.history + output_lines(output) + match next_command(
                before_pop(state, poll, output),
            ) {
                Some(entry) => seq![started_line(entry.command)],
                None => Seq::empty(),
            },
            MAX_LINES as nat,
        ),
{
    lemma_call_keeps_most_recent(state, Call::Update { poll, output });
    let added = match next_command(before_pop(state, poll, output)) {
        Some(entry) => seq![started_line(entry.command)],
        None => Seq::<Seq<char>>::empty(),
    };
    assert(state.history + output_lines(output) + added == state.history + (output_lines(output)
        + added));
}

} // verus!
