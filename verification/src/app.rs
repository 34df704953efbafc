//! The state of a session and the way in which key presses change it.
//!
//! An `App` is made once from the metadata of a file that was read, and is
//! then driven by the events of the terminal: the caller draws what the `App`
//! holds, waits for an event, hands it to `try_handle_event`, and stops when
//! `exiting` says so.

use vstd::prelude::*;
use crate::error::LoadError;
use crate::metadata::{ColumnChunk, MetadataModel, RowGroup};
use crate::pane::ActivePane;
use crate::selection::{lemma_moves_keep_validity, SelectionState};

verus! {

/// The key of a key event, as far as the browser tells keys apart.
#[derive(Debug, Clone, Copy, PartialEq, Eq, Structural, Hash)]
pub enum KeyCode {
    /// A key that stands for a character.
    Char(char),
    Up,
    Down,
    Tab,
    /// Any other key.
    Other,
}

/// Whether a key went down, is held, or came up.
#[derive(Debug, Clone, Copy, PartialEq, Eq, Structural, Hash)]
pub enum KeyEventKind {
    Press,
    Repeat,
    Release,
}

/// One event of the keyboard.
#[derive(Debug, Clone, Copy, PartialEq, Eq, Structural, Hash)]
pub struct KeyEvent {
    pub code: KeyCode,
    pub kind: KeyEventKind,
}

/// One event of the terminal.
#[derive(Debug, Clone, Copy, PartialEq, Eq, Structural, Hash)]
pub enum InputEvent {
    Key(KeyEvent),
    /// An event that is none of the keyboard: the mouse, a resize, the focus.
    Other,
}

/// What an event asks the browser to do.
#[derive(Debug, Clone, Copy, PartialEq, Eq, Structural, Hash)]
pub enum Command {
    /// End the session.
    Quit,
    /// Move one step forward in the list of the active pane.
    MoveNext,
    /// Move one step back in the list of the active pane.
    MovePrev,
    /// Make the next pane active.
    TogglePane,
    /// Do nothing.
    Ignore,
}

/// The command that an event stands for. Only key presses are commands: `q`
/// and `Q` quit, the down and up arrows move forward and back, and the
/// tabulator switches the pane.
pub open spec fn command_of(event: InputEvent) -> Command {
    match event {
        InputEvent::Key(key) => if key.kind is Press {
            match key.code {
                KeyCode::Char(c) => if c == 'q' || c == 'Q' {
                    Command::Quit
                } else {
                    Command::Ignore
                },
                KeyCode::Down => Command::MoveNext,
                KeyCode::Up => Command::MovePrev,
                KeyCode::Tab => Command::TogglePane,
                KeyCode::Other => Command::Ignore,
            }
        } else {
            Command::Ignore
        },
        InputEvent::Other => Command::Ignore,
    }
}

/// Tells which command an event stands for.
pub fn command_for(event: InputEvent) -> (command: Command)
    ensures
        command == command_of(event),
{
    match event {
        InputEvent::Key(key) => {
            match key.kind {
                KeyEventKind::Press => match key.code {
                    KeyCode::Char(c) => if c == 'q' || c == 'Q' {
                        Command::Quit
                    } else {
                        Command::Ignore
                    },
                    KeyCode::Down => Command::MoveNext,
                    KeyCode::Up => Command::MovePrev,
                    KeyCode::Tab => Command::TogglePane,
                    KeyCode::Other => Command::Ignore,
                },
                _ => Command::Ignore,
            }
        },
        InputEvent::Other => Command::Ignore,
    }
}

/// What an `App` holds, as contracts see it.
pub struct AppView {
    pub file_name: Seq<char>,
    pub metadata: MetadataModel,
    pub selection: SelectionState,
    pub exiting: bool,
}

impl AppView {
    /// The number of column chunks of each row group of the file.
    pub open spec fn counts(self) -> Seq<nat> {
        self.metadata.column_counts()
    }

    /// The file can be browsed, and the selection points into it.
    pub open spec fn well_formed(self) -> bool {
        &&& self.metadata.well_formed()
        &&& self.selection.valid_for(self.counts())
    }

    /// The same session with another selection.
    pub open spec fn with_selection(self, selection: SelectionState) -> AppView {
        AppView {
            file_name: self.file_name,
            metadata: self.metadata,
            selection,
            exiting: self.exiting,
        }
    }

    /// The same session, about to end.
    pub open spec fn with_exit_requested(self) -> AppView {
        AppView {
            file_name: self.file_name,
            metadata: self.metadata,
            selection: self.selection,
            exiting: true,
        }
    }

    /// The session after a command was carried out.
    pub open spec fn after_command(self, command: Command) -> AppView {
        match command {
            Command::Quit => self.with_exit_requested(),
            Command::MoveNext => self.with_selection(self.selection.after_move_next(self.counts())),
            Command::MovePrev => self.with_selection(self.selection.after_move_prev(self.counts())),
            Command::TogglePane => self.with_selection(self.selection.after_toggle_pane()),
            Command::Ignore => self,
        }
    }

    /// The session after an event was handled.
    pub open spec fn after_event(self, event: InputEvent) -> AppView {
        self.after_command(command_of(event))
    }
}

/// No command and no event leads out of the well-formed sessions, and none
/// changes the file or its name.
pub proof fn lemma_commands_keep_sessions_well_formed(session: AppView, command: Command)
    requires
        session.well_formed(),
    ensures
        session.after_command(command).well_formed(),
        session.after_command(command).metadata == session.metadata,
        session.after_command(command).file_name == session.file_name,
        session.exiting ==> session.after_command(command).exiting,
{
    lemma_moves_keep_validity(session.selection, session.counts());
}

/// The state of a session: the file, the selection in it, and whether the
/// session is about to end.
#[derive(Debug)]
pub struct App {
    file_name: String,
    parquet_metadata: MetadataModel,
    exiting: bool,
    selection: SelectionState,
}

impl View for App {
    type V = AppView;

    closed spec fn view(&self) -> AppView {
        AppView {
            file_name: self.file_name@,
            metadata: self.parquet_metadata,
            selection: self.selection,
            exiting: self.exiting,
        }
    }
}

impl App {
    #[verifier::type_invariant]
    spec fn holds_together(self) -> bool {
        self@.well_formed()
    }

    /// Starts a session on a file that was read. The file is accepted where
    /// it has a row group and no row group is without columns; the session
    /// then starts in the row-group browser, on the first column chunk of the
    /// first row group.
    pub fn from(file_name: String, metadata: MetadataModel) -> (session: Result<App, LoadError>)
        ensures
            session is Ok <==> metadata.well_formed(),
            session matches Ok(app) ==> app@ == (AppView {
                file_name: file_name@,
                metadata: metadata,
                selection: SelectionState::initial(),
                exiting: false,
            }) && app@.well_formed(),
            session matches Err(error) ==> error == LoadError::MalformedMetadata,
    {
        if !metadata.is_well_formed() {
            return Err(LoadError::MalformedMetadata);
        }
        Ok(
            App {
                file_name,
                parquet_metadata: metadata,
                exiting: false,
                selection: SelectionState::new(),
            },
        )
    }

    /// The name of the file.
    pub fn file_name(&self) -> (name: &str)
        ensures
            name@ == self@.file_name,
    {
        self.file_name.as_str()
    }

    /// The metadata of the file.
    pub fn parquet_metadata(&self) -> (metadata: &MetadataModel)
        ensures
            *metadata == self@.metadata,
            metadata.well_formed(),
    {
        proof {
            use_type_invariant(self);
        }
        &self.parquet_metadata
    }

    /// Whether the session is about to end.
    pub fn exiting(&self) -> (exiting: bool)
        ensures
            exiting == self@.exiting,
    {
        self.exiting
    }

    /// The pane that is active.
    pub fn active_pane(&self) -> (pane: ActivePane)
        ensures
            pane == self@.selection.active_pane,
    {
        self.selection.active_pane
    }

    /// The selection. It always points into the file.
    pub fn selection(&self) -> (selection: SelectionState)
        ensures
            selection == self@.selection,
            selection.valid_for(self@.counts()),
    {
        proof {
            use_type_invariant(self);
        }
        self.selection
    }

    /// The number of row groups of the file.
    pub fn num_row_groups(&self) -> (count: usize)
        ensures
            count == self@.counts().len(),
            count > 0,
    {
        proof {
            use_type_invariant(self);
        }
        self.parquet_metadata.num_row_groups()
    }

    /// The number of column chunks of the selected row group.
    pub fn num_column_chunks(&self) -> (count: usize)
        ensures
            count == self@.counts()[self@.selection.row_group_index as int],
            count > 0,
    {
        proof {
            use_type_invariant(self);
        }
        self.parquet_metadata.num_column_chunks(self.selection.row_group_index)
    }

    /// The selected row group.
    pub fn selected_row_group(&self) -> (row_group: &RowGroup)
        ensures
            *row_group == self@.metadata.row_groups@[self@.selection.row_group_index as int],
    {
        proof {
            use_type_invariant(self);
        }
        &self.parquet_metadata.row_groups[self.selection.row_group_index]
    }

    /// The selected column chunk.
    pub fn selected_column_chunk(&self) -> (chunk: &ColumnChunk)
        ensures
            *chunk == self@.metadata.row_groups@[self@.selection.row_group_index as int].columns@[
                self@.selection.column_index as int],
    {
        proof {
            use_type_invariant(self);
        }
        &self.parquet_metadata.row_groups[self.selection.row_group_index].columns[
            self.selection.column_index]
    }

    /// Moves one step forward in the list of the active pane.
    pub fn move_next(&mut self)
        ensures
            final(self)@ == old(self)@.after_command(Command::MoveNext),
            final(self)@.well_formed(),
    {
        proof {
            use_type_invariant(&*self);
        }
        let mut selection = self.selection;
        selection.move_next(&self.parquet_metadata);
        self.selection = selection;
    }

    /// Moves one step back in the list of the active pane.
    pub fn move_prev(&mut self)
        ensures
            final(self)@ == old(self)@.after_command(Command::MovePrev),
            final(self)@.well_formed(),
    {
        proof {
            use_type_invariant(&*self);
        }
        let mut selection = self.selection;
        selection.move_prev(&self.parquet_metadata);
        self.selection = selection;
    }

    /// Makes the next pane active.
    pub fn toggle_pane(&mut self)
        ensures
            final(self)@ == old(self)@.after_command(Command::TogglePane),
            final(self)@.well_formed(),
    {
        proof {
            use_type_invariant(&*self);
        }
        let mut selection = self.selection;
        selection.toggle_pane();
        self.selection = selection;
    }

    /// Asks for the session to end. The caller looks at `exiting` before it
    /// draws again.
    pub fn request_exit(&mut self)
        ensures
            final(self)@ == old(self)@.after_command(Command::Quit),
            final(self)@.well_formed(),
    {
        proof {
            use_type_invariant(&*self);
        }
        self.exiting = true;
    }

    /// Carries out a command.
    pub fn apply(&mut self, command: Command)
        ensures
            final(self)@ == old(self)@.after_command(command),
            final(self)@.well_formed(),
    {
        proof {
            use_type_invariant(&*self);
        }
        match command {
            Command::Quit => self.request_exit(),
            Command::MoveNext => self.move_next(),
            Command::MovePrev => self.move_prev(),
            Command::TogglePane => self.toggle_pane(),
            Command::Ignore => {},
        }
    }

    /// Handles one event of the terminal. No event is rejected: one that is
    /// no command leaves the session as it is.
    pub fn try_handle_event(&mut self, event: InputEvent) -> (outcome: std::io::Result<()>)
        ensures
            outcome is Ok,
            final(self)@ == old(self)@.after_event(event),
            final(self)@.well_formed(),
    {
        self.apply(command_for(event));
        Ok(())
    }
}

} // verus!
