//! The editor: a view and the decision what each event of the terminal
//! does to it. Reading events, printing and writing files are left to the
//! caller.

use crate::buffer::SaveRequest;
use crate::command::{Command, Event, KeyEventKind, System};
use crate::document::joined;
use crate::position::Position;
use crate::uicomponent::{rows_shown, RenderedRow, UIComponent};
use crate::view::{text_of, View};
use crate::viewstate::ViewState;
use vstd::prelude::*;
use vstd::view::View as _;

verus! {

/// Whether the editor takes note of `event`: of keys when they are
/// pressed, and of every resize.
pub open spec fn is_processed(event: Event) -> bool {
    match event {
        Event::Key(key_event) => key_event.kind == KeyEventKind::Press,
        Event::Resize(_, _) => true,
        Event::Other => false,
    }
}

/// The command that `event` gives the editor, if any.
pub open spec fn command_of(event: Event) -> Option<Command> {
    if is_processed(event) {
        match Command::decode(event) {
            Ok(command) => Some(command),
            Err(_) => None,
        }
    } else {
        None
    }
}

/// The view after `command`. Edits are left out while a search is
/// running; saving and quitting do not touch the view.
pub open spec fn applied(state: ViewState, command: Command) -> ViewState {
    match command {
        Command::Move(movement) => state.moved(movement),
        Command::Edit(edit) => if state.search is Some {
            state
        } else {
            state.edited(edit)
        },
        Command::System(System::Resize(size)) => ViewState {
            needs_redraw: true,
            ..state.sized(size)
        },
        Command::System(System::Dismiss) => state.search_dismissed(),
        Command::System(System::Save) => state,
        Command::System(System::Quit) => state,
    }
}

/// What the terminal is to show: the rows to print, where the view is
/// out of date, and the cell of the caret.
pub struct Screen {
    pub rows: Option<Vec<RenderedRow>>,
    pub caret: Position,
}

/// The editor.
pub struct Editor {
    should_quit: bool,
    view: View,
}

impl Editor {
    /// The state of the view.
    pub closed spec fn view_state(&self) -> ViewState {
        self.view@
    }

    /// Whether the editor was told to quit.
    pub closed spec fn is_quitting(&self) -> bool {
        self.should_quit
    }

    /// An editor with an empty document.
    pub fn new() -> (editor: Editor)
        ensures
            !editor.is_quitting(),
            editor.view_state() == ViewState::initial(),
    {
        Editor { should_quit: false, view: View::default() }
    }

    /// Takes the contents of the file `file_name` as the document, where
    /// the file could be read: `contents` is what was read. Where it could
    /// not, the editor stays as it is.
    pub fn load(&mut self, file_name: &str, contents: Option<&str>)
        ensures
            final(self).is_quitting() == old(self).is_quitting(),
            final(self).view_state() == old(self).view_state().loaded(
                file_name@,
                text_of(contents),
            ),
    {
        self.view.load(file_name, contents);
    }

    /// Whether the editor was told to quit.
    pub fn should_quit(&self) -> (quitting: bool)
        ensures
            quitting == self.is_quitting(),
    {
        self.should_quit
    }

    /// Takes note of `event`. An event that is no command is dropped. The
    /// result is what is to be written to disk, where the event asks for
    /// the document to be saved and the document belongs to a file.
    pub fn evaluate_event(&mut self, event: Event) -> (request: Option<SaveRequest>)
        ensures
            match command_of(event) {
                Some(command) => {
                    &&& final(self).view_state() == applied(old(self).view_state(), command)
                    &&& final(self).is_quitting() == (old(self).is_quitting()
                        || command == Command::System(System::Quit))
                },
                None => {
                    &&& final(self).view_state() == old(self).view_state()
                    &&& final(self).is_quitting() == old(self).is_quitting()
                },
            },
            match request {
                Some(request) => {
                    &&& command_of(event) == Some(Command::System(System::Save))
                    &&& old(self).view_state().file_name == Some(request.file_name@)
                    &&& request.contents@ == joined(old(self).view_state().lines)
                },
                None => command_of(event) == Some(Command::System(System::Save))
                    ==> old(self).view_state().file_name is None,
            },
    {
        let should_process = match event {
            Event::Key(key_event) => key_event.kind == KeyEventKind::Press,
            Event::Resize(_, _) => true,
            Event::Other => false,
        };
        if !should_process {
            return None;
        }
        match Command::try_from(event) {
            Ok(command) => self.process_command(command),
            Err(_) => None,
        }
    }

    fn process_command(&mut self, command: Command) -> (request: Option<SaveRequest>)
        ensures
            final(self).view_state() == applied(old(self).view_state(), command),
            final(self).is_quitting() == (old(self).is_quitting()
                || command == Command::System(System::Quit)),
            match request {
                Some(request) => {
                    &&& command == Command::System(System::Save)
                    &&& old(self).view_state().file_name == Some(request.file_name@)
                    &&& request.contents@ == joined(old(self).view_state().lines)
                },
                None => command == Command::System(System::Save)
                    ==> old(self).view_state().file_name is None,
            },
    {
        match command {
            Command::System(System::Quit) => {
                self.should_quit = true;
                None
            },
            Command::System(System::Save) => self.view.save(),
            Command::System(System::Resize(size)) => {
                proof {
                    self.view.lemma_sized(size);
                    self.view.sized(size).lemma_marked_as(true);
                }
                self.view.resize(size);
                None
            },
            Command::System(System::Dismiss) => {
                self.view.dismiss_search();
                None
            },
            Command::Move(movement) => {
                self.view.handle_move_command(movement);
                None
            },
            Command::Edit(edit) => {
                if !self.view.is_searching() {
                    self.view.handle_edit_command(edit);
                }
                None
            },
        }
    }

    /// Takes note of whether what `evaluate_event` asked to be written
    /// to the file `file_name` was written. If so the document has no
    /// unsaved changes; if not it keeps them.
    pub fn finish_save(&mut self, file_name: &str, written: bool)
        ensures
            final(self).is_quitting() == old(self).is_quitting(),
            final(self).view_state() == old(self).view_state().save_finished(file_name@, written),
    {
        self.view.finish_save(file_name, written);
    }

    /// What the terminal is to show now.
    pub fn refresh_screen(&mut self) -> (screen: Screen)
        ensures
            final(self).view_state() == old(self).view_state(),
            final(self).is_quitting() == old(self).is_quitting(),
            screen.caret == old(self).view_state().caret_position(),
            match screen.rows {
                Some(rows) => {
                    &&& old(self).view_state().needs_redraw
                    &&& rows_shown(rows@) == old(self).view_state().rows(0)
                },
                None => !old(self).view_state().needs_redraw,
            },
    {
        let rows = self.view.render(0);
        Screen { rows, caret: self.view.caret_position() }
    }

    /// Takes note of whether what `refresh_screen` handed out was
    /// printed: if so the view is up to date.
    pub fn finish_refresh(&mut self, drawn: bool)
        ensures
            final(self).is_quitting() == old(self).is_quitting(),
            final(self).view_state() == (ViewState {
                needs_redraw: old(self).view_state().needs_redraw && !drawn,
                ..old(self).view_state()
            }),
    {
        proof {
            self.view.lemma_marked_as(false);
        }
        self.view.finish_render(drawn);
    }
}

} // verus!
