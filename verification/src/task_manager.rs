//! The engine that runs queued commands, one process at a time, and keeps the
//! recent console output.
//!
//! The engine decides; the driving loop acts. Once per round the loop polls
//! the running process and drains its output pipes without blocking, and
//! hands both to [`TaskManager::update`]. Where the update hands a command
//! back, the loop starts it with the streams set as the command says and
//! reports how that went to [`TaskManager::spawn_finished`].

use std::collections::VecDeque;
use vstd::prelude::*;
use vstd::string::*;

use crate::data::{commands_of, optional_command, CommandData, CommandSpec};
use crate::history::{most_recent, OutputHistory, MAX_LINES};
use crate::text::{
    debug_quoted, decode_lossy, join_spaced, lines_of, lossy_utf8, quote, spaced, split_lines,
    texts_of,
};

verus! {

/// Where an output stream of a started process goes.
#[derive(Clone, Copy, Debug, PartialEq, Eq, Structural)]
pub enum Stdio {
    /// To the stream of the launcher itself.
    Inherit,
    /// Into a pipe that the launcher reads.
    Piped,
    /// Nowhere.
    Null,
}

/// A command that waits in the queue: what to run, where, and where its
/// output goes.
pub struct QueueEntry {
    pub command: CommandData,
    pub working_dir: String,
    pub stdout: Stdio,
    pub stderr: Stdio,
}

/// What a queue entry is.
pub struct QueueEntrySpec {
    pub command: CommandSpec,
    pub working_dir: Seq<char>,
    pub stdout: Stdio,
    pub stderr: Stdio,
}

impl View for QueueEntry {
    type V = QueueEntrySpec;

    open spec fn view(&self) -> QueueEntrySpec {
        QueueEntrySpec {
            command: self.command@,
            working_dir: self.working_dir@,
            stdout: self.stdout,
            stderr: self.stderr,
        }
    }
}

/// The entry that runs `command` in `working_dir` with both output streams
/// piped.
pub open spec fn piped_entry(command: CommandSpec, working_dir: Seq<char>) -> QueueEntrySpec {
    QueueEntrySpec { command, working_dir, stdout: Stdio::Piped, stderr: Stdio::Piped }
}

/// The entries that run each of `commands` in `working_dir`, in order.
pub open spec fn piped_entries(commands: Seq<CommandSpec>, working_dir: Seq<char>) -> Seq<
    QueueEntrySpec,
> {
    Seq::new(commands.len(), |i: int| piped_entry(commands[i], working_dir))
}

/// The entry that an optional entry value stands for, if there is one.
pub open spec fn optional_entry(entry: Option<QueueEntry>) -> Option<QueueEntrySpec> {
    match entry {
        Some(entry) => Some(entry@),
        None => None,
    }
}

impl CommandData {
    /// The queue entry that runs this command in `working_dir`, with its
    /// standard output and standard error piped.
    pub fn to_command(&self, working_dir: &str) -> (entry: QueueEntry)
        ensures
            entry@ == piped_entry(self@, working_dir@),
    {
        QueueEntry {
            command: self.clone(),
            working_dir: String::from_str(working_dir),
            stdout: Stdio::Piped,
            stderr: Stdio::Piped,
        }
    }
}

/// Whether the engine has a process, as far as it was told.
#[derive(Clone, Copy, Debug, PartialEq, Eq, Structural)]
pub enum ProcessState {
    /// No process runs and none is being started.
    Idle,
    /// A command was handed out to be started and the outcome is not known.
    Starting,
    /// A process runs.
    Running,
}

/// What a poll of the running process showed.
#[derive(Clone, Copy, Debug, PartialEq, Eq, Structural)]
pub enum ProcessPoll {
    /// It has not exited, or there is nothing to poll.
    NotExited,
    /// It has exited, with or without success.
    Exited { success: bool },
}

/// How the start of a command went.
pub enum SpawnOutcome {
    /// The process runs.
    Started,
    /// The system could not start it, and said why.
    Failed(String),
}

/// What a start outcome is.
pub enum SpawnOutcomeSpec {
    Started,
    Failed(Seq<char>),
}

impl View for SpawnOutcome {
    type V = SpawnOutcomeSpec;

    open spec fn view(&self) -> SpawnOutcomeSpec {
        match self {
            SpawnOutcome::Started => SpawnOutcomeSpec::Started,
            SpawnOutcome::Failed(message) => SpawnOutcomeSpec::Failed(message@),
        }
    }
}

/// What becomes of the commands that still wait when one of them fails.
#[derive(Clone, Copy, Debug, PartialEq, Eq, Structural)]
pub struct FailurePolicy {
    /// Drop them when a command cannot be started.
    pub clear_queue_on_spawn_failure: bool,
    /// Drop them when a process exits without success.
    pub clear_queue_on_failed_exit: bool,
}

impl FailurePolicy {
    /// The policy that never drops a waiting command.
    pub fn keep_queue() -> (policy: FailurePolicy)
        ensures
            policy == (FailurePolicy {
                clear_queue_on_spawn_failure: false,
                clear_queue_on_failed_exit: false,
            }),
    {
        FailurePolicy { clear_queue_on_spawn_failure: false, clear_queue_on_failed_exit: false }
    }
}

impl Default for FailurePolicy {
    /// The default keeps the queue.
    fn default() -> (policy: FailurePolicy)
        ensures
            policy == (FailurePolicy {
                clear_queue_on_spawn_failure: false,
                clear_queue_on_failed_exit: false,
            }),
    {
        FailurePolicy::keep_queue()
    }
}

/// What an update asks of the driving loop and tells it.
pub struct Update {
    /// Whether the console history may have changed: output was drained or a
    /// command was taken from the queue.
    pub changed: bool,
    /// The command to start now, if any.
    pub start: Option<QueueEntry>,
}

/// The state of the engine.
pub struct TaskState {
    /// The commands that wait, the next to run first.
    pub pending: Seq<QueueEntrySpec>,
    pub process: ProcessState,
    /// The console lines that are kept, oldest first.
    pub history: Seq<Seq<char>>,
    pub library_directory: Seq<char>,
    pub policy: FailurePolicy,
}

/// The parts of the line that announces a command: the executable and each
/// argument, quoted.
pub open spec fn quoted_parts(command: CommandSpec) -> Seq<Seq<char>> {
    seq![debug_quoted(command.executable)] + Seq::new(
        command.arguments.len(),
        |i: int| debug_quoted(command.arguments[i]),
    )
}

/// The history entry that announces the start of a command whose quoted
/// parts are `parts`.
pub open spec fn started_text(parts: Seq<Seq<char>>) -> Seq<char> {
    "\nStarted program: "@ + spaced(parts) + "\n"@
}

/// The history entry that announces the start of `command`.
pub open spec fn started_line(command: CommandSpec) -> Seq<char> {
    started_text(quoted_parts(command))
}

/// The history entry that reports why a command could not be started.
pub open spec fn error_line(message: Seq<char>) -> Seq<char> {
    "\nerror: "@ + message + "\n"@
}

/// The state with `lines` added to its history.
pub open spec fn recorded(state: TaskState, lines: Seq<Seq<char>>) -> TaskState {
    TaskState { history: most_recent(state.history + lines, MAX_LINES as nat), ..state }
}

/// The state after a poll of the process: an exit is noted only while a
/// process runs. It frees the engine for the next command, and clears the
/// queue where the exit was a failure and the policy says so.
pub open spec fn after_poll(state: TaskState, poll: ProcessPoll) -> TaskState {
    match poll {
        ProcessPoll::Exited { success } if state.process is Running => TaskState {
            process: ProcessState::Idle,
            pending: if !success && state.policy.clear_queue_on_failed_exit {
                Seq::empty()
            } else {
                state.pending
            },
            ..state
        },
        _ => state,
    }
}

/// The lines of the output of one round; none where nothing was drained.
pub open spec fn output_lines(output: Option<Seq<char>>) -> Seq<Seq<char>> {
    match output {
        Some(text) => lines_of(text),
        None => Seq::empty(),
    }
}

/// The state after drained output was decoded to `output`: its lines are
/// added to the history, whatever the process does.
pub open spec fn after_output(state: TaskState, output: Option<Seq<char>>) -> TaskState {
    recorded(state, output_lines(output))
}

/// The command that is started next: the first that waits, if the engine is
/// idle.
pub open spec fn next_command(state: TaskState) -> Option<QueueEntrySpec> {
    if state.process is Idle && state.pending.len() > 0 {
        Some(state.pending[0])
    } else {
        None
    }
}

/// The state after the next command was taken from the queue to be started,
/// if there was one to take.
pub open spec fn after_pop(state: TaskState) -> TaskState {
    match next_command(state) {
        Some(entry) => TaskState {
            pending: state.pending.drop_first(),
            process: ProcessState::Starting,
            history: most_recent(
                state.history.push(started_line(entry.command)),
                MAX_LINES as nat,
            ),
            ..state
        },
        None => state,
    }
}

/// The state in which the next command is looked for during an update:
/// after the poll and the drained output.
pub open spec fn before_pop(
    state: TaskState,
    poll: ProcessPoll,
    output: Option<Seq<char>>,
) -> TaskState {
    after_output(after_poll(state, poll), output)
}

/// The state after an update.
pub open spec fn after_update(
    state: TaskState,
    poll: ProcessPoll,
    output: Option<Seq<char>>,
) -> TaskState {
    after_pop(before_pop(state, poll, output))
}

/// The state after the driving loop reported the outcome of a start. The
/// report counts only while a start is awaited. A failure is written to the
/// history and frees the engine; the queue is cleared where the policy says
/// so.
pub open spec fn after_spawn(state: TaskState, outcome: SpawnOutcomeSpec) -> TaskState {
    if state.process is Starting {
        match outcome {
            SpawnOutcomeSpec::Started => TaskState { process: ProcessState::Running, ..state },
            SpawnOutcomeSpec::Failed(message) => TaskState {
                process: ProcessState::Idle,
                pending: if state.policy.clear_queue_on_spawn_failure {
                    Seq::empty()
                } else {
                    state.pending
                },
                history: most_recent(state.history.push(error_line(message)), MAX_LINES as nat),
                ..state
            },
        }
    } else {
        state
    }
}

/// The queue that a request for `commands` in `working_dir` makes: the fetch
/// command first, run in the library directory, where the working directory
/// does not exist and a fetch command is given; then the commands in order.
pub open spec fn requested_queue(
    library_directory: Seq<char>,
    commands: Seq<CommandSpec>,
    working_dir: Seq<char>,
    working_dir_exists: bool,
    fetch: Option<CommandSpec>,
) -> Seq<QueueEntrySpec> {
    let first = match fetch {
        Some(fetch) if !working_dir_exists => seq![piped_entry(fetch, library_directory)],
        _ => Seq::empty(),
    };
    first + piped_entries(commands, working_dir)
}

/// The state after a request for a new queue: the request replaces the queue
/// of an idle engine and is ignored otherwise.
pub open spec fn after_new_queue(
    state: TaskState,
    commands: Seq<CommandSpec>,
    working_dir: Seq<char>,
    working_dir_exists: bool,
    fetch: Option<CommandSpec>,
) -> TaskState {
    if state.process is Idle {
        TaskState {
            pending: requested_queue(
                state.library_directory,
                commands,
                working_dir,
                working_dir_exists,
                fetch,
            ),
            ..state
        }
    } else {
        state
    }
}

/// The text that an optional string holds, if there is one.
pub open spec fn text_of(output: Option<&str>) -> Option<Seq<char>> {
    match output {
        Some(text) => Some(text@),
        None => None,
    }
}

/// The output that an update decodes from the drained bytes: none where
/// nothing was drained, else the lossy decoding of what came from standard
/// output followed by what came from standard error.
pub open spec fn drained_text(stdout: Seq<u8>, stderr: Seq<u8>) -> Option<Seq<char>> {
    if stdout.len() == 0 && stderr.len() == 0 {
        None
    } else {
        Some(lossy_utf8(stdout + stderr))
    }
}

/// The engine: the queue of commands that wait, what is known of the one
/// process, and the console history.
pub struct TaskManager {
    /// The commands that wait; the next to run is the last.
    queue: Vec<QueueEntry>,
    process: ProcessState,
    history: OutputHistory,
    library_directory: String,
    policy: FailurePolicy,
}

impl View for TaskManager {
    type V = TaskState;

    closed spec fn view(&self) -> TaskState {
        TaskState {
            pending: Seq::new(
                self.queue@.len(),
                |i: int| self.queue@[self.queue@.len() - 1 - i]@,
            ),
            process: self.process,
            history: self.history@,
            library_directory: self.library_directory@,
            policy: self.policy,
        }
    }
}

/// Writes the history entry that announces a command whose quoted parts are
/// `parts`.
pub fn announce_start(parts: &Vec<String>) -> (line: String)
    ensures
        line@ == started_text(texts_of(parts@)),
{
    let mut line = String::from_str("\nStarted program: ");
    let command = join_spaced(parts);
    line.append(command.as_str());
    line.append("\n");
    line
}

/// Writes the history entry that reports why a command could not be started.
pub fn announce_error(message: &str) -> (line: String)
    ensures
        line@ == error_line(message@),
{
    let mut line = String::from_str("\nerror: ");
    line.append(message);
    line.append("\n");
    line
}

/// Quotes the executable and each argument of `command`.
fn quote_parts(command: &CommandData) -> (parts: Vec<String>)
    ensures
        texts_of(parts@) == quoted_parts(command@),
{
    let mut parts: Vec<String> = Vec::new();
    parts.push(quote(command.executable.as_str()));
    let mut i: usize = 0;
    while i < command.args.len()
        invariant
            i <= command.args.len(),
            parts@.len() == i + 1,
            parts@[0]@ == debug_quoted(command.executable@),
            forall|j: int| 0 <= j < i ==> parts@[j + 1]@ == debug_quoted(command.args@[j]@),
        decreases command.args.len() - i,
    {
        parts.push(quote(command.args[i].as_str()));
        i += 1;
    }
    assert(texts_of(parts@) =~= quoted_parts(command@));
    parts
}

impl TaskManager {
    /// An idle engine with an empty queue and an empty history, which keeps
    /// the queue when a command fails.
    pub fn new(library_directory: String) -> (manager: TaskManager)
        ensures
            manager@ == (TaskState {
                pending: Seq::empty(),
                process: ProcessState::Idle,
                history: Seq::empty(),
                library_directory: library_directory@,
                policy: FailurePolicy {
                    clear_queue_on_spawn_failure: false,
                    clear_queue_on_failed_exit: false,
                },
            }),
    {
        TaskManager::with_policy(library_directory, FailurePolicy::keep_queue())
    }

    /// An idle engine with an empty queue and an empty history, which treats
    /// the queue after a failure as `policy` says.
    pub fn with_policy(library_directory: String, policy: FailurePolicy) -> (manager: TaskManager)
        ensures
            manager@ == (TaskState {
                pending: Seq::empty(),
                process: ProcessState::Idle,
                history: Seq::empty(),
                library_directory: library_directory@,
                policy,
            }),
    {
        let manager = TaskManager {
            queue: Vec::new(),
            process: ProcessState::Idle,
            history: OutputHistory::new(),
            library_directory,
            policy,
        };
        assert(manager@.pending =~= Seq::empty());
        manager
    }

    /// The console lines that are kept, oldest first.
    pub fn console_lines(&self) -> (lines: &VecDeque<String>)
        ensures
            texts_of(lines@) == self@.history,
    {
        self.history.lines()
    }

    /// What the engine knows of its process.
    pub fn process_state(&self) -> (process: ProcessState)
        ensures
            process == self@.process,
    {
        self.process
    }

    /// The number of commands that wait.
    pub fn queue_len(&self) -> (len: usize)
        ensures
            len == self@.pending.len(),
    {
        self.queue.len()
    }

    /// The directory of the library, in which a fetch command runs.
    pub fn library_directory(&self) -> (directory: &str)
        ensures
            directory@ == self@.library_directory,
    {
        self.library_directory.as_str()
    }

    /// Takes the next command from the queue to be started, if the engine is
    /// idle and a command waits, and announces it in the history. Until the
    /// outcome of the start is reported no other command is handed out.
    pub fn pop_and_execute(&mut self) -> (start: Option<QueueEntry>)
        ensures
            final(self)@ == after_pop(old(self)@),
            optional_entry(start) == next_command(old(self)@),
    {
        match self.process {
            ProcessState::Idle => {},
            _ => {
                return None;
            },
        }
        let ghost before = self@;
        match self.queue.pop() {
            Some(entry) => {
                let parts = quote_parts(&entry.command);
                self.history.push_line(announce_start(&parts));
                self.process = ProcessState::Starting;
                proof {
                    assert(entry@ == before.pending[0]);
                    assert(self@.pending =~= before.pending.drop_first());
                }
                Some(entry)
            },
            None => None,
        }
    }

    /// Replaces the queue, unless a process runs or is being started: then
    /// the request is ignored. The fetch command comes first, in the library
    /// directory, where the working directory does not exist and a fetch
    /// command is given; then each of `command_queue` in order, in
    /// `working_dir`.
    pub fn new_queue_if_no_running_process(
        &mut self,
        command_queue: &[CommandData],
        working_dir: &str,
        working_dir_exists: bool,
        download_command: &Option<CommandData>,
    )
        ensures
            final(self)@ == after_new_queue(
                old(self)@,
                commands_of(command_queue@),
                working_dir@,
                working_dir_exists,
                optional_command(*download_command),
            ),
            !(old(self)@.process is Idle) ==> final(self)@ == old(self)@,
    {
        match self.process {
            ProcessState::Idle => {},
            _ => {
                return ;
            },
        }
        self.queue.clear();
        let ghost commands = commands_of(command_queue@);
        let mut i: usize = command_queue.len();
        while i > 0
            invariant
                i <= command_queue.len(),
                commands == commands_of(command_queue@),
                self.queue@.len() == command_queue.len() - i,
                forall|j: int|
                    0 <= j < self.queue@.len() ==> self.queue@[j]@ == piped_entry(
                        commands[command_queue.len() - 1 - j],
                        working_dir@,
                    ),
                self.process == old(self).process,
                self.history == old(self).history,
                self.library_directory == old(self).library_directory,
                self.policy == old(self).policy,
            decreases i,
        {
            i -= 1;
            self.queue.push(command_queue[i].to_command(working_dir));
        }
        if !working_dir_exists {
            match download_command {
                Some(command) => {
                    self.queue.push(command.to_command(self.library_directory.as_str()));
                },
                None => {},
            }
        }
        assert(self@.pending =~= requested_queue(
            old(self)@.library_directory,
            commands,
            working_dir@,
            working_dir_exists,
            optional_command(*download_command),
        ));
    }

    /// One round of the engine on output that is already decoded.
    ///
    /// An exit that the poll shows ends the running process. The lines of
    /// `output` are added to the history, whether or not a process runs. If
    /// the engine is then idle, the next command is taken from the queue,
    /// announced in the history and handed back to be started.
    pub fn update_decoded(&mut self, poll: ProcessPoll, output: Option<&str>) -> (step: Update)
        ensures
            final(self)@ == after_update(old(self)@, poll, text_of(output)),
            optional_entry(step.start) == next_command(
                before_pop(old(self)@, poll, text_of(output)),
            ),
            step.changed == (output is Some || step.start is Some),
            final(self)@.history.len() <= MAX_LINES,
    {
        match poll {
            ProcessPoll::Exited { success } => {
                match self.process {
                    ProcessState::Running => {
                        self.process = ProcessState::Idle;
                        if !success && self.policy.clear_queue_on_failed_exit {
                            self.queue.clear();
                            assert(self@.pending =~= Seq::empty());
                        }
                    },
                    _ => {},
                }
            },
            ProcessPoll::NotExited => {},
        }
        assert(self@ == after_poll(old(self)@, poll));
        let lines = match output {
            Some(text) => split_lines(text),
            None => Vec::new(),
        };
        assert(texts_of(lines@) =~= output_lines(text_of(output)));
        self.history.append(lines);
        assert(self@ == before_pop(old(self)@, poll, text_of(output)));
        let start = self.pop_and_execute();
        let changed = output.is_some() || start.is_some();
        Update { changed, start }
    }

    /// One round of the engine.
    ///
    /// `poll` is what a poll of the running process showed; `stdout` and
    /// `stderr` are the bytes that were drained from its pipes since the last
    /// round, which may be none. The bytes of standard output come first,
    /// those of standard error after them; together they are decoded with
    /// replacement of what is not valid UTF-8, and the round goes on as
    /// [`TaskManager::update_decoded`] says.
    pub fn update(&mut self, poll: ProcessPoll, stdout: &[u8], stderr: &[u8]) -> (step: Update)
        ensures
            final(self)@ == after_update(old(self)@, poll, drained_text(stdout@, stderr@)),
            optional_entry(step.start) == next_command(
                before_pop(old(self)@, poll, drained_text(stdout@, stderr@)),
            ),
            step.changed == (stdout@.len() > 0 || stderr@.len() > 0 || step.start is Some),
            final(self)@.history.len() <= MAX_LINES,
    {
        if stdout.len() == 0 && stderr.len() == 0 {
            self.update_decoded(poll, None)
        } else {
            let mut bytes: Vec<u8> = Vec::new();
            bytes.extend_from_slice(stdout);
            bytes.extend_from_slice(stderr);
            assert(bytes@ =~= stdout@ + stderr@);
            let text = decode_lossy(bytes.as_slice());
            self.update_decoded(poll, Some(text.as_str()))
        }
    }

    /// Takes note of how the start of the command that was handed out went.
    /// The report counts only while a start is awaited.
    pub fn spawn_finished(&mut self, outcome: SpawnOutcome)
        ensures
            final(self)@ == after_spawn(old(self)@, outcome@),
    {
        match self.process {
            ProcessState::Starting => {},
            _ => {
                return ;
            },
        }
        match outcome {
            SpawnOutcome::Started => {
                self.process = ProcessState::Running;
            },
            SpawnOutcome::Failed(message) => {
                self.history.push_line(announce_error(message.as_str()));
                if self.policy.clear_queue_on_spawn_failure {
                    self.queue.clear();
                    assert(self@.pending =~= Seq::empty());
                }
                self.process = ProcessState::Idle;
            },
        }
    }
}

} // verus!
