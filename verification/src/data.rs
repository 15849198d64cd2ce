//! The catalog of programs: what a library file lists, and the programs of a
//! library once their working directories are resolved.

use vstd::prelude::*;

use crate::text::texts_of;

verus! {

/// What a command is: the name of an executable and its arguments in order.
pub struct CommandSpec {
    pub executable: Seq<char>,
    pub arguments: Seq<Seq<char>>,
}

/// What a named command queue is.
pub struct CommandQueueSpec {
    pub name: Seq<char>,
    pub commands: Seq<CommandSpec>,
}

/// What a program of the catalog is.
pub struct ProgramSpec {
    pub name: Seq<char>,
    pub download_command: Option<CommandSpec>,
    pub working_directory: Seq<char>,
    pub command_queues: Seq<CommandQueueSpec>,
}

/// The commands that a sequence of command values stands for, in order.
pub open spec fn commands_of(commands: Seq<CommandData>) -> Seq<CommandSpec> {
    Seq::new(commands.len(), |i: int| commands[i]@)
}

/// The queues that a sequence of queue values stands for, in order.
pub open spec fn queues_of(queues: Seq<CommandQueue>) -> Seq<CommandQueueSpec> {
    Seq::new(queues.len(), |i: int| queues[i]@)
}

/// The command that an optional command value stands for, if there is one.
pub open spec fn optional_command(command: Option<CommandData>) -> Option<CommandSpec> {
    match command {
        Some(command) => Some(command@),
        None => None,
    }
}

/// The path that joining `path` to `base` gives, by the rule of the platform
/// that the library is compiled for: `path` alone where it is absolute, else
/// `path` below `base`.
pub uninterp spec fn joined_path(base: Seq<char>, path: Seq<char>) -> Seq<char>;

/// `Path::join`, on paths that are given and returned as text. The result is
/// the joined path of `base` and `path`.
#[verifier::external_body]
fn join_path(base: &str, path: &str) -> (joined: String)
    ensures
        joined@ == joined_path(base@, path@),
{
    std::path::Path::new(base).join(path).to_string_lossy().into_owned()
}

/// A program as a library file lists it. Its working directory may be
/// relative to the library directory.
pub struct LibraryFileProgram {
    pub name: String,
    pub download_command: Option<CommandData>,
    pub working_directory: String,
    pub command_queues: Vec<CommandQueue>,
}

/// A named sequence of commands, such as "Run" or "Update and build".
pub struct CommandQueue {
    pub name: String,
    pub commands: Vec<CommandData>,
}

/// An executable and its arguments.
pub struct CommandData {
    pub executable: String,
    pub args: Vec<String>,
}

/// A program of the library.
pub struct Program {
    pub name: String,
    pub download_command: Option<CommandData>,
    /// The working directory, resolved against the library directory.
    pub working_directory: String,
    pub command_queues: Vec<CommandQueue>,
}

/// The programs of a library, in the order of the library file.
pub struct ProgramLibrary {
    pub programs: Vec<Program>,
}

impl View for CommandData {
    type V = CommandSpec;

    open spec fn view(&self) -> CommandSpec {
        CommandSpec { executable: self.executable@, arguments: texts_of(self.args@) }
    }
}

impl View for CommandQueue {
    type V = CommandQueueSpec;

    open spec fn view(&self) -> CommandQueueSpec {
        CommandQueueSpec { name: self.name@, commands: commands_of(self.commands@) }
    }
}

impl View for LibraryFileProgram {
    type V = ProgramSpec;

    open spec fn view(&self) -> ProgramSpec {
        ProgramSpec {
            name: self.name@,
            download_command: optional_command(self.download_command),
            working_directory: self.working_directory@,
            command_queues: queues_of(self.command_queues@),
        }
    }
}

impl View for Program {
    type V = ProgramSpec;

    open spec fn view(&self) -> ProgramSpec {
        ProgramSpec {
            name: self.name@,
            download_command: optional_command(self.download_command),
            working_directory: self.working_directory@,
            command_queues: queues_of(self.command_queues@),
        }
    }
}

impl View for ProgramLibrary {
    type V = Seq<ProgramSpec>;

    open spec fn view(&self) -> Seq<ProgramSpec> {
        Seq::new(self.programs@.len(), |i: int| self.programs@[i]@)
    }
}

/// A copy of each string of `strings`, in order.
fn copy_strings(strings: &Vec<String>) -> (copy: Vec<String>)
    ensures
        texts_of(copy@) == texts_of(strings@),
{
    let mut copy: Vec<String> = Vec::new();
    let mut i: usize = 0;
    while i < strings.len()
        invariant
            i <= strings.len(),
            copy@.len() == i,
            forall|j: int| 0 <= j < i ==> copy@[j]@ == strings@[j]@,
        decreases strings.len() - i,
    {
        copy.push(strings[i].clone());
        i += 1;
    }
    assert(texts_of(copy@) =~= texts_of(strings@));
    copy
}

impl Clone for CommandData {
    fn clone(&self) -> (copy: CommandData)
        ensures
            copy@ == self@,
    {
        CommandData { executable: self.executable.clone(), args: copy_strings(&self.args) }
    }
}

/// The program that `program` is in a library at `library_directory`: the
/// same but for its working directory, which is joined to the library's.
pub open spec fn resolved(program: ProgramSpec, library_directory: Seq<char>) -> ProgramSpec {
    ProgramSpec {
        name: program.name,
        download_command: program.download_command,
        working_directory: joined_path(library_directory, program.working_directory),
        command_queues: program.command_queues,
    }
}

/// The library that `programs` make at `library_directory`.
pub open spec fn resolved_library(
    programs: Seq<ProgramSpec>,
    library_directory: Seq<char>,
) -> Seq<ProgramSpec> {
    Seq::new(programs.len(), |i: int| resolved(programs[i], library_directory))
}

/// What a sequence of listed programs stands for, in order.
pub open spec fn listed_programs(programs: Seq<LibraryFileProgram>) -> Seq<ProgramSpec> {
    Seq::new(programs.len(), |i: int| programs[i]@)
}

impl LibraryFileProgram {
    /// The program with `working_directory` as its resolved working
    /// directory.
    pub fn into_program(self, working_directory: String) -> (program: Program)
        ensures
            program@ == (ProgramSpec { working_directory: working_directory@, ..self@ }),
    {
        Program {
            name: self.name,
            download_command: self.download_command,
            working_directory,
            command_queues: self.command_queues,
        }
    }

    /// Places the program in the library at `library_directory`.
    pub fn resolve(self, library_directory: &str) -> (program: Program)
        ensures
            program@ == resolved(self@, library_directory@),
    {
        let working_directory = join_path(library_directory, self.working_directory.as_str());
        self.into_program(working_directory)
    }
}

/// Builds the library of the programs that a library file lists: each of
/// them, in the order of the file, with its working directory resolved
/// against `library_directory`.
pub fn load_library(programs: Vec<LibraryFileProgram>, library_directory: &str) -> (library:
    ProgramLibrary)
    ensures
        library@ == resolved_library(listed_programs(programs@), library_directory@),
{
    let mut resolved_programs: Vec<Program> = Vec::new();
    for program in it: programs
        invariant
            it.seq() == programs@,
            resolved_programs@.len() == it.index(),
            forall|j: int|
                0 <= j < it.index() ==> resolved_programs@[j]@ == resolved(
                    programs@[j]@,
                    library_directory@,
                ),
    {
        let program = program.resolve(library_directory);
        resolved_programs.push(program);
    }
    let library = ProgramLibrary { programs: resolved_programs };
    assert(library@ =~= resolved_library(listed_programs(programs@), library_directory@));
    library
}

} // verus!
