//! What the user interface holds besides its widgets: which program and
//! which command queue are selected, whether a launch was asked for, and the
//! text of the console.

use std::collections::VecDeque;
use vstd::prelude::*;
use vstd::string::*;

use crate::data::ProgramLibrary;
use crate::input::utils::after_clear;
use crate::input::{Input, Keys};
use crate::text::texts_of;

verus! {

/// What is selected.
pub struct Selection {
    /// The place of the selected program in the library.
    pub program: usize,
    /// The place of the selected command queue among those of the program.
    pub command_queue: usize,
    /// Whether the selected command queue shall be launched.
    pub launch: bool,
}

/// The place after `index` among `count` places, the first after the last.
pub open spec fn next_index(index: usize, count: usize) -> usize {
    if index + 1 >= count {
        0
    } else {
        (index + 1) as usize
    }
}

/// The place before `index` among `count` places, the last before the
/// first. A place beyond the last counts as the first.
pub open spec fn previous_index(index: usize, count: usize) -> usize {
    if 0 < index <= count {
        (index - 1) as usize
    } else {
        (count - 1) as usize
    }
}

/// The number of command queues of each program of a library, in order.
pub open spec fn queue_counts(programs: &ProgramLibrary) -> Seq<usize> {
    Seq::new(
        programs.programs@.len(),
        |i: int| programs.programs@[i].command_queues@.len() as usize,
    )
}

/// The selected program after the hits of down and up were taken, down
/// first.
pub open spec fn program_after_input(program: usize, keys: Keys, count: usize) -> usize {
    let after_down = if keys.down.key_hit {
        next_index(program, count)
    } else {
        program
    };
    if keys.up.key_hit {
        previous_index(after_down, count)
    } else {
        after_down
    }
}

/// Whether the input reaches the command queues: the library has programs,
/// and the program that is selected after down and up has command queues.
pub open spec fn reaches_queues(selection: Selection, keys: Keys, counts: Seq<usize>) -> bool {
    let program = program_after_input(selection.program, keys, counts.len() as usize);
    counts.len() > 0 && program < counts.len() && counts[program as int] > 0
}

/// The selection after the input was taken. Down and up move through the
/// programs and select the first command queue of the program they reach.
/// Right and left move through the command queues of the selected program.
/// A request to launch is kept until it is taken.
pub open spec fn selection_after_input(
    selection: Selection,
    keys: Keys,
    counts: Seq<usize>,
) -> Selection {
    if counts.len() == 0 {
        selection
    } else {
        let program = program_after_input(selection.program, keys, counts.len() as usize);
        let first = if keys.down.key_hit || keys.up.key_hit {
            0
        } else {
            selection.command_queue
        };
        if reaches_queues(selection, keys, counts) {
            let count = counts[program as int];
            let after_right = if keys.right.key_hit {
                next_index(first, count)
            } else {
                first
            };
            let after_left = if keys.left.key_hit {
                previous_index(after_right, count)
            } else {
                after_right
            };
            Selection {
                program,
                command_queue: after_left,
                launch: selection.launch || keys.select,
            }
        } else {
            Selection { program, command_queue: first, launch: selection.launch }
        }
    }
}

/// What the input still holds after it was taken: the hits of down and up
/// are taken where the library has programs, and those of right and left and
/// the request to launch where the input reaches the command queues.
pub open spec fn keys_after_input(selection: Selection, keys: Keys, counts: Seq<usize>) -> Keys {
    if counts.len() == 0 {
        keys
    } else {
        let moved = Keys { down: after_clear(keys.down), up: after_clear(keys.up), ..keys };
        if reaches_queues(selection, keys, counts) {
            Keys {
                right: after_clear(keys.right),
                left: after_clear(keys.left),
                select: false,
                ..moved
            }
        } else {
            moved
        }
    }
}

/// Whether the input changed what is selected, so that the widgets are to
/// be set anew.
pub open spec fn input_changes_selection(
    selection: Selection,
    keys: Keys,
    counts: Seq<usize>,
) -> bool {
    counts.len() > 0 && (keys.down.key_hit || keys.up.key_hit || (reaches_queues(
        selection,
        keys,
        counts,
    ) && (keys.right.key_hit || keys.left.key_hit)))
}

/// The text of the console: each line, followed by a line feed.
pub open spec fn console_text_of(lines: Seq<Seq<char>>) -> Seq<char>
    decreases lines.len(),
{
    if lines.len() == 0 {
        Seq::empty()
    } else {
        console_text_of(lines.drop_last()) + lines.last() + "\n"@
    }
}

/// What the user interface holds besides its widgets.
pub struct UiState {
    list_selection_index: usize,
    command_queue_i: usize,
    launch_command_queue: bool,
    console_text: String,
}

impl UiState {
    /// What is selected.
    pub closed spec fn selection(&self) -> Selection {
        Selection {
            program: self.list_selection_index,
            command_queue: self.command_queue_i,
            launch: self.launch_command_queue,
        }
    }

    /// The text of the console.
    pub closed spec fn text(&self) -> Seq<char> {
        self.console_text@
    }

    /// The first program and its first command queue are selected, no launch
    /// is asked for, and the console is empty.
    pub fn new() -> (ui: UiState)
        ensures
            ui.selection() == (Selection { program: 0, command_queue: 0, launch: false }),
            ui.text() == Seq::<char>::empty(),
    {
        UiState {
            list_selection_index: 0,
            command_queue_i: 0,
            launch_command_queue: false,
            console_text: String::new(),
        }
    }

    /// The place of the selected program in the library.
    pub fn list_selection_index(&self) -> (index: usize)
        ensures
            index == self.selection().program,
    {
        self.list_selection_index
    }

    /// The place of the selected command queue among those of the program.
    pub fn command_queue_i(&self) -> (index: usize)
        ensures
            index == self.selection().command_queue,
    {
        self.command_queue_i
    }

    /// The text of the console.
    pub fn console_text(&self) -> (text: &str)
        ensures
            text@ == self.text(),
    {
        self.console_text.as_str()
    }

    /// Selects the program at `index`, as a click on it does.
    pub fn select_program(&mut self, index: usize)
        ensures
            final(self).selection() == (Selection { program: index, ..old(self).selection() }),
            final(self).text() == old(self).text(),
    {
        self.list_selection_index = index;
    }

    /// Selects the command queue at `index`, as a click on it does.
    pub fn select_command_queue(&mut self, index: usize)
        ensures
            final(self).selection() == (Selection {
                command_queue: index,
                ..old(self).selection()
            }),
            final(self).text() == old(self).text(),
    {
        self.command_queue_i = index;
    }

    /// Tells whether a launch was asked for, and takes the request.
    pub fn take_launch(&mut self) -> (launch: bool)
        ensures
            launch == old(self).selection().launch,
            final(self).selection() == (Selection { launch: false, ..old(self).selection() }),
            final(self).text() == old(self).text(),
    {
        let launch = self.launch_command_queue;
        self.launch_command_queue = false;
        launch
    }

    /// Makes the text of the console anew from the lines of the history.
    pub fn update_console_text(&mut self, console_text: &VecDeque<String>)
        ensures
            final(self).text() == console_text_of(texts_of(console_text@)),
            final(self).selection() == old(self).selection(),
    {
        let mut text = String::new();
        let mut i: usize = 0;
        while i < console_text.len()
            invariant
                i <= console_text.len(),
                text@ == console_text_of(texts_of(console_text@.subrange(0, i as int))),
            decreases console_text.len() - i,
        {
            proof {
                let next = texts_of(console_text@.subrange(0, i + 1));
                assert(next.drop_last() == texts_of(console_text@.subrange(0, i as int)));
                assert(next.last() == console_text@[i as int]@);
            }
            text.append(console_text[i].as_str());
            text.append("\n");
            i += 1;
        }
        assert(console_text@.subrange(0, console_text@.len() as int) == console_text@);
        self.console_text = text;
    }

    /// Takes the input and moves the selection by it, and tells whether the
    /// selection changed. Where the selected program is past the last of the
    /// library, only down and up are taken.
    pub fn input_update<T: Input>(&mut self, input: &mut T, programs: &ProgramLibrary) -> (update_ui:
        bool)
        ensures
            final(self).selection() == selection_after_input(
                old(self).selection(),
                old(input).pending(),
                queue_counts(programs),
            ),
            final(input).pending() == keys_after_input(
                old(self).selection(),
                old(input).pending(),
                queue_counts(programs),
            ),
            update_ui == input_changes_selection(
                old(self).selection(),
                old(input).pending(),
                queue_counts(programs),
            ),
            final(self).text() == old(self).text(),
    {
        let count = programs.programs.len();
        if count == 0 {
            return false;
        }
        let mut update_ui = false;
        if input.down() {
            self.list_selection_index = if self.list_selection_index >= count - 1 {
                0
            } else {
                self.list_selection_index + 1
            };
            update_ui = true;
            self.command_queue_i = 0;
        }
        if input.up() {
            self.list_selection_index = if 0 < self.list_selection_index
                && self.list_selection_index <= count {
                self.list_selection_index - 1
            } else {
                count - 1
            };
            update_ui = true;
            self.command_queue_i = 0;
        }
        if self.list_selection_index >= count {
            return update_ui;
        }
        let queue_count = programs.programs[self.list_selection_index].command_queues.len();
        if queue_count == 0 {
            return update_ui;
        }
        if input.right() {
            self.command_queue_i = if self.command_queue_i >= queue_count - 1 {
                0
            } else {
                self.command_queue_i + 1
            };
            update_ui = true;
        }
        if input.left() {
            self.command_queue_i = if 0 < self.command_queue_i && self.command_queue_i
                <= queue_count {
                self.command_queue_i - 1
            } else {
                queue_count - 1
            };
            update_ui = true;
        }
        if input.select() {
            self.launch_command_queue = true;
        }
        update_ui
    }
}

} // verus!
