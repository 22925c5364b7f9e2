//! The state of the front end that does not depend on how it is drawn:
//! which screen is shown, what is selected, and what is asked of the user.

use crate::config::{AppConfig, CONFIG_ITEM_COUNT};
use crate::queue::session::{
    lemma_next_awaiting, next_awaiting, submittable, submitted_job, work_list,
};
use crate::queue::state::{
    ended, follows_lifecycle, lemma_tally_update, only_status_changed, tally,
};
use crate::queue::updates::{ends_run, message_effect};
use crate::queue::{QueueState, WorkerJob, WorkerMessage};
use crate::tracks::selection::{audio_indices_of, subtitle_indices_of, toggled};
use crate::tracks::TrackSelection;
use vstd::prelude::*;

verus! {

#[derive(Debug, Clone, Copy, PartialEq, Eq, Structural)]
pub enum Screen {
    Home,
    FileExplorer { select_folder: bool },
    FileConfirm,
    TrackConfig,
    Queue,
    Finish,
    Configuration,
}

#[derive(Debug, Clone, Copy, PartialEq, Eq, Structural)]
pub enum SelectionMode {
    File,
    Folder,
}

#[derive(Debug, Clone, Copy, PartialEq, Eq, Structural)]
pub enum TrackFocus {
    Audio,
    Subtitle,
    Confirm,
}

#[derive(Debug, Clone, Copy, PartialEq, Eq, Structural)]
pub enum ConfirmAction {
    CancelEncoding,
    ExitApp,
}

/// Where a cursor stands after a step up: one place higher, but not above
/// the first.
pub open spec fn moved_up(index: usize) -> usize {
    if index > 0 {
        (index - 1) as usize
    } else {
        index
    }
}

/// Where a cursor stands after a step down in a list of `count` entries:
/// one place lower, but not below the last.
pub open spec fn moved_down(index: usize, count: usize) -> usize {
    if count > 0 && index < count - 1 {
        (index + 1) as usize
    } else {
        index
    }
}

/// Moves a cursor one place up.
pub fn move_up(index: usize) -> (next: usize)
    ensures
        next == moved_up(index),
{
    if index > 0 {
        index - 1
    } else {
        index
    }
}

/// Moves a cursor one place down in a list of `count` entries.
pub fn move_down(index: usize, count: usize) -> (next: usize)
    ensures
        next == moved_down(index, count),
{
    if count > 0 && index < count - 1 {
        index + 1
    } else {
        index
    }
}

/// The selection mode of the file explorer.
pub fn selection_mode_for(select_folder: bool) -> (mode: SelectionMode)
    ensures
        mode == (if select_folder {
            SelectionMode::Folder
        } else {
            SelectionMode::File
        }),
{
    if select_folder {
        SelectionMode::Folder
    } else {
        SelectionMode::File
    }
}


/// A key as the front end understands it. Keys that mean nothing to it are
/// `Other`.
#[derive(Debug, Clone, Copy, PartialEq, Eq, Structural)]
pub enum Key {
    Up,
    Down,
    Left,
    Right,
    Enter,
    Esc,
    Tab,
    Char(char),
    Other,
}

/// What is to be done outside after a key has been taken.
#[derive(Debug, Clone, Copy, PartialEq, Eq, Structural)]
pub enum Command {
    /// Nothing
    Nothing,
    /// List the current directory for the explorer
    OpenExplorer,
    /// Take the explorer's entry under the cursor as the choice
    ExplorerSelect,
    /// Go into the explorer's entry under the cursor
    ExplorerEnter,
    /// Mark or unmark the explorer's entry under the cursor
    ExplorerToggle,
    /// Analyze the files that were confirmed
    ConfirmQueuedFiles,
    /// Forget the files that were offered for confirmation
    CancelFileConfirm,
    /// Hand the queue to the worker
    StartEncoding,
    /// Signal the worker to stop
    CancelEncoding,
    /// Write the configuration to its file
    SaveConfig,
}

/// The number of entries of the home menu: a file, a folder, a folder with
/// all below it, the configuration, and leaving.
pub const HOME_MENU_COUNT: usize = 5;

/// The state of the front end.
pub struct App {
    pub current_screen: Screen,
    pub should_quit: bool,
    pub selection_mode: SelectionMode,
    /// Whether a chosen folder is searched with all below it
    pub recursive: bool,
    pub explorer_index: usize,
    /// The number of entries that the explorer lists
    pub explorer_count: usize,
    pub queue: QueueState,
    pub config: AppConfig,
    pub track_focus: TrackFocus,
    pub audio_cursor: usize,
    pub subtitle_cursor: usize,
    pub home_index: usize,
    pub encoding_active: bool,
    pub message: Option<String>,
    pub confirm_dialog: Option<ConfirmAction>,
    pub confirm_selection: bool,
    pub config_selected: usize,
    pub file_confirm_scroll: usize,
}

/// The key is one of the two that move up.
pub open spec fn is_up(key: Key) -> bool {
    key == Key::Up || key == Key::Char('k')
}

/// The key is one of the two that move down.
pub open spec fn is_down(key: Key) -> bool {
    key == Key::Down || key == Key::Char('j')
}

/// Where the focus of the track screen goes with the tabulator: from audio
/// to the subtitles, or to the confirmation where there are none; from the
/// subtitles to the confirmation; from there to audio, or to the subtitles
/// where there is no audio.
pub open spec fn next_focus(focus: TrackFocus, audio_count: usize, subtitle_count: usize) -> TrackFocus {
    match focus {
        TrackFocus::Audio => if subtitle_count > 0 {
            TrackFocus::Subtitle
        } else {
            TrackFocus::Confirm
        },
        TrackFocus::Subtitle => TrackFocus::Confirm,
        TrackFocus::Confirm => if audio_count > 0 {
            TrackFocus::Audio
        } else {
            TrackFocus::Subtitle
        },
    }
}

/// Moves the focus of the track screen on.
pub fn cycle_focus(focus: TrackFocus, audio_count: usize, subtitle_count: usize) -> (next: TrackFocus)
    ensures
        next == next_focus(focus, audio_count, subtitle_count),
{
    match focus {
        TrackFocus::Audio => if subtitle_count > 0 {
            TrackFocus::Subtitle
        } else {
            TrackFocus::Confirm
        },
        TrackFocus::Subtitle => TrackFocus::Confirm,
        TrackFocus::Confirm => if audio_count > 0 {
            TrackFocus::Audio
        } else {
            TrackFocus::Subtitle
        },
    }
}

impl App {
    /// The screen and the home menu are the same in both.
    pub open spec fn same_screen(&self, other: &App) -> bool {
        self.current_screen == other.current_screen && self.home_index == other.home_index
    }

    /// The dialog and the wish to leave are the same in both.
    pub open spec fn same_dialog(&self, other: &App) -> bool {
        &&& self.confirm_dialog == other.confirm_dialog
        &&& self.confirm_selection == other.confirm_selection
        &&& self.should_quit == other.should_quit
    }

    /// The explorer is the same in both.
    pub open spec fn same_explorer(&self, other: &App) -> bool {
        &&& self.selection_mode == other.selection_mode
        &&& self.recursive == other.recursive
        &&& self.explorer_index == other.explorer_index
        &&& self.explorer_count == other.explorer_count
        &&& self.message == other.message
    }

    /// The track screen is the same in both.
    pub open spec fn same_tracks(&self, other: &App) -> bool {
        &&& self.track_focus == other.track_focus
        &&& self.audio_cursor == other.audio_cursor
        &&& self.subtitle_cursor == other.subtitle_cursor
    }

    /// The queue and what is shown of it are the same in both.
    pub open spec fn same_queue(&self, other: &App) -> bool {
        &&& self.queue == other.queue
        &&& self.encoding_active == other.encoding_active
        &&& self.file_confirm_scroll == other.file_confirm_scroll
    }

    /// The configuration and its screen are the same in both.
    pub open spec fn same_config(&self, other: &App) -> bool {
        self.config == other.config && self.config_selected == other.config_selected
    }

    /// A front end at its home screen, with an empty queue.
    pub fn new(config: AppConfig) -> (app: Self)
        ensures
            app.current_screen == Screen::Home,
            !app.should_quit,
            app.selection_mode == SelectionMode::File,
            !app.recursive,
            app.explorer_index == 0,
            app.explorer_count == 0,
            app.queue.wf(),
            app.queue.jobs@.len() == 0,
            app.config == config,
            app.track_focus == TrackFocus::Audio,
            app.audio_cursor == 0,
            app.subtitle_cursor == 0,
            app.home_index == 0,
            !app.encoding_active,
            app.message.is_none(),
            app.confirm_dialog.is_none(),
            !app.confirm_selection,
            app.config_selected == 0,
            app.file_confirm_scroll == 0,
    {
        App {
            current_screen: Screen::Home,
            should_quit: false,
            selection_mode: SelectionMode::File,
            recursive: false,
            explorer_index: 0,
            explorer_count: 0,
            queue: QueueState::new(),
            config,
            track_focus: TrackFocus::Audio,
            audio_cursor: 0,
            subtitle_cursor: 0,
            home_index: 0,
            encoding_active: false,
            message: None,
            confirm_dialog: None,
            confirm_selection: false,
            config_selected: 0,
            file_confirm_scroll: 0,
        }
    }

    pub fn set_message(&mut self, msg: &str)
        ensures
            final(self).message.deep_view() == Some(msg@),
            final(self).same_screen(old(self)),
            final(self).same_dialog(old(self)),
            final(self).same_tracks(old(self)),
            final(self).same_queue(old(self)),
            final(self).same_config(old(self)),
            final(self).selection_mode == old(self).selection_mode,
            final(self).recursive == old(self).recursive,
            final(self).explorer_index == old(self).explorer_index,
            final(self).explorer_count == old(self).explorer_count,
    {
        self.message = Some(msg.to_string());
    }

    pub fn clear_message(&mut self)
        ensures
            final(self).message.is_none(),
            final(self).same_screen(old(self)),
            final(self).same_dialog(old(self)),
            final(self).same_tracks(old(self)),
            final(self).same_queue(old(self)),
            final(self).same_config(old(self)),
            final(self).selection_mode == old(self).selection_mode,
            final(self).recursive == old(self).recursive,
            final(self).explorer_index == old(self).explorer_index,
            final(self).explorer_count == old(self).explorer_count,
    {
        self.message = None;
    }

    pub fn explorer_move_up(&mut self)
        ensures
            final(self).explorer_index == moved_up(old(self).explorer_index),
            final(self).explorer_count == old(self).explorer_count,
            final(self).selection_mode == old(self).selection_mode,
            final(self).recursive == old(self).recursive,
            final(self).message == old(self).message,
            final(self).same_screen(old(self)),
            final(self).same_dialog(old(self)),
            final(self).same_tracks(old(self)),
            final(self).same_queue(old(self)),
            final(self).same_config(old(self)),
    {
        self.explorer_index = move_up(self.explorer_index);
    }

    pub fn explorer_move_down(&mut self)
        ensures
            final(self).explorer_index == moved_down(
                old(self).explorer_index,
                old(self).explorer_count,
            ),
            final(self).explorer_count == old(self).explorer_count,
            final(self).selection_mode == old(self).selection_mode,
            final(self).recursive == old(self).recursive,
            final(self).message == old(self).message,
            final(self).same_screen(old(self)),
            final(self).same_dialog(old(self)),
            final(self).same_tracks(old(self)),
            final(self).same_queue(old(self)),
            final(self).same_config(old(self)),
    {
        self.explorer_index = move_down(self.explorer_index, self.explorer_count);
    }

    /// Takes the listing of a directory into the explorer: the cursor goes
    /// to the first of its `count` entries.
    pub fn show_directory(&mut self, count: usize)
        ensures
            final(self).explorer_index == 0,
            final(self).explorer_count == count,
            final(self).selection_mode == old(self).selection_mode,
            final(self).recursive == old(self).recursive,
            final(self).message == old(self).message,
            final(self).same_screen(old(self)),
            final(self).same_dialog(old(self)),
            final(self).same_tracks(old(self)),
            final(self).same_queue(old(self)),
            final(self).same_config(old(self)),
    {
        self.explorer_index = 0;
        self.explorer_count = count;
    }

    pub fn navigate_to_home(&mut self)
        ensures
            final(self).current_screen == Screen::Home,
            final(self).home_index == 0,
            final(self).same_dialog(old(self)),
            final(self).same_explorer(old(self)),
            final(self).same_tracks(old(self)),
            final(self).same_queue(old(self)),
            final(self).same_config(old(self)),
    {
        self.current_screen = Screen::Home;
        self.home_index = 0;
    }

    pub fn navigate_to_explorer(&mut self, select_folder: bool, recursive: bool)
        ensures
            final(self).current_screen == (Screen::FileExplorer { select_folder }),
            final(self).home_index == old(self).home_index,
            final(self).selection_mode == (if select_folder {
                SelectionMode::Folder
            } else {
                SelectionMode::File
            }),
            final(self).recursive == recursive,
            final(self).explorer_index == old(self).explorer_index,
            final(self).explorer_count == old(self).explorer_count,
            final(self).message == old(self).message,
            final(self).same_dialog(old(self)),
            final(self).same_tracks(old(self)),
            final(self).same_queue(old(self)),
            final(self).same_config(old(self)),
    {
        self.selection_mode = selection_mode_for(select_folder);
        self.recursive = recursive;
        self.current_screen = Screen::FileExplorer { select_folder };
    }

    pub fn navigate_to_track_config(&mut self)
        ensures
            final(self).current_screen == Screen::TrackConfig,
            final(self).home_index == old(self).home_index,
            final(self).track_focus == TrackFocus::Audio,
            final(self).audio_cursor == 0,
            final(self).subtitle_cursor == 0,
            final(self).same_dialog(old(self)),
            final(self).same_explorer(old(self)),
            final(self).same_queue(old(self)),
            final(self).same_config(old(self)),
    {
        self.track_focus = TrackFocus::Audio;
        self.audio_cursor = 0;
        self.subtitle_cursor = 0;
        self.current_screen = Screen::TrackConfig;
    }

    pub fn navigate_to_queue(&mut self)
        ensures
            final(self).current_screen == Screen::Queue,
            final(self).home_index == old(self).home_index,
            final(self).same_dialog(old(self)),
            final(self).same_explorer(old(self)),
            final(self).same_tracks(old(self)),
            final(self).same_queue(old(self)),
            final(self).same_config(old(self)),
    {
        self.current_screen = Screen::Queue;
    }

    pub fn navigate_to_finish(&mut self)
        ensures
            final(self).current_screen == Screen::Finish,
            final(self).home_index == old(self).home_index,
            final(self).same_dialog(old(self)),
            final(self).same_explorer(old(self)),
            final(self).same_tracks(old(self)),
            final(self).same_queue(old(self)),
            final(self).same_config(old(self)),
    {
        self.current_screen = Screen::Finish;
    }

    pub fn navigate_to_configuration(&mut self)
        ensures
            final(self).current_screen == Screen::Configuration,
            final(self).home_index == old(self).home_index,
            final(self).config == old(self).config,
            final(self).config_selected == 0,
            final(self).same_dialog(old(self)),
            final(self).same_explorer(old(self)),
            final(self).same_tracks(old(self)),
            final(self).same_queue(old(self)),
    {
        self.config_selected = 0;
        self.current_screen = Screen::Configuration;
    }

    /// Asks the user to confirm `action`, with "No" preselected.
    pub fn ask(&mut self, action: ConfirmAction)
        ensures
            final(self).confirm_dialog == Some(action),
            !final(self).confirm_selection,
            final(self).should_quit == old(self).should_quit,
            final(self).same_screen(old(self)),
            final(self).same_explorer(old(self)),
            final(self).same_tracks(old(self)),
            final(self).same_queue(old(self)),
            final(self).same_config(old(self)),
    {
        self.confirm_dialog = Some(action);
        self.confirm_selection = false;
    }

    /// Goes back to the home screen with an empty queue.
    pub fn reset(&mut self)
        ensures
            final(self).current_screen == Screen::Home,
            final(self).home_index == 0,
            final(self).queue.wf(),
            final(self).queue.jobs@.len() == 0,
            final(self).queue.total_jobs_to_encode == 0,
            final(self).queue.totals() == 0,
            final(self).queue.current_job_index == 0,
            final(self).queue.config_job_index == 0,
            final(self).queue.encoding_progress_done == 0,
            final(self).queue.start_time.is_none(),
            final(self).queue.end_time.is_none(),
            !final(self).encoding_active,
            final(self).file_confirm_scroll == 0,
            final(self).same_dialog(old(self)),
            final(self).same_explorer(old(self)),
            final(self).same_tracks(old(self)),
            final(self).same_config(old(self)),
    {
        self.queue.reset();
        self.encoding_active = false;
        self.file_confirm_scroll = 0;
        self.navigate_to_home();
    }

    /// What a key makes of the front end while the confirmation dialog is
    /// open.
    pub open spec fn dialog_key_effect(&self, key: Key, after: &App, command: Command) -> bool {
        &&& after.same_screen(self)
        &&& after.same_explorer(self)
        &&& after.same_tracks(self)
        &&& after.same_queue(self)
        &&& after.same_config(self)
        &&& ({
            let action = self.confirm_dialog.unwrap();
            let confirm = key == Key::Char('y') || key == Key::Char('Y') || (key == Key::Enter
                && self.confirm_selection);
            let dismiss = key == Key::Char('n') || key == Key::Char('N') || key == Key::Esc
                || (key == Key::Enter && !self.confirm_selection);
            let flip = key == Key::Left || key == Key::Right || key == Key::Char('h') || key
                == Key::Char('l');
            &&& after.confirm_dialog == (if confirm || dismiss {
                None
            } else {
                self.confirm_dialog
            })
            &&& after.confirm_selection == (if flip {
                !self.confirm_selection
            } else {
                self.confirm_selection
            })
            &&& after.should_quit == (self.should_quit || (confirm && action
                == ConfirmAction::ExitApp))
            &&& command == (if confirm && action == ConfirmAction::CancelEncoding {
                Command::CancelEncoding
            } else {
                Command::Nothing
            })
        })
    }

    /// Takes a key while the confirmation dialog is open.
    ///
    /// `y` carries the action out, `n` and escape close the dialog, the
    /// horizontal keys change between "Yes" and "No", and enter does what is
    /// selected. To cancel the encoding is a command for the outside; to
    /// leave is noted.
    pub fn handle_confirm_dialog_key(&mut self, key: Key) -> (command: Command)
        requires
            old(self).confirm_dialog.is_some(),
        ensures
            old(self).dialog_key_effect(key, final(self), command),
    {
        let action = match self.confirm_dialog {
            Some(a) => a,
            None => ConfirmAction::ExitApp,
        };
        let confirm = match key {
            Key::Char(c) => c == 'y' || c == 'Y',
            Key::Enter => self.confirm_selection,
            _ => false,
        };
        let dismiss = match key {
            Key::Char(c) => c == 'n' || c == 'N',
            Key::Esc => true,
            Key::Enter => !self.confirm_selection,
            _ => false,
        };
        let flip = match key {
            Key::Left => true,
            Key::Right => true,
            Key::Char(c) => c == 'h' || c == 'l',
            _ => false,
        };
        if confirm {
            self.confirm_dialog = None;
            match action {
                ConfirmAction::CancelEncoding => {
                    return Command::CancelEncoding;
                },
                ConfirmAction::ExitApp => {
                    self.should_quit = true;
                },
            }
        } else if dismiss {
            self.confirm_dialog = None;
        } else if flip {
            self.confirm_selection = !self.confirm_selection;
        }
        Command::Nothing
    }

    /// What a key makes of the front end at the home screen.
    pub open spec fn home_key_effect(&self, key: Key, after: &App, command: Command) -> bool {
        &&& after.same_tracks(self)
        &&& after.same_queue(self)
        &&& after.config == self.config
        &&& after.should_quit == self.should_quit
        &&& after.explorer_index == self.explorer_index
        &&& after.explorer_count == self.explorer_count
        &&& after.message == self.message
        &&& ({
            let at = self.home_index;
            let asks = key == Key::Char('q') || (key == Key::Enter && at == 4);
            let opens = key == Key::Enter && at <= 2;
            &&& after.home_index == (if is_up(key) {
                moved_up(at)
            } else if is_down(key) {
                moved_down(at, HOME_MENU_COUNT)
            } else {
                at
            })
            &&& after.confirm_dialog == (if asks {
                Some(ConfirmAction::ExitApp)
            } else {
                self.confirm_dialog
            })
            &&& after.confirm_selection == (if asks {
                false
            } else {
                self.confirm_selection
            })
            &&& after.current_screen == (if opens {
                Screen::FileExplorer { select_folder: at >= 1 }
            } else if key == Key::Enter && at == 3 {
                Screen::Configuration
            } else {
                self.current_screen
            })
            &&& after.selection_mode == (if opens {
                if at >= 1 {
                    SelectionMode::Folder
                } else {
                    SelectionMode::File
                }
            } else {
                self.selection_mode
            })
            &&& after.recursive == (if opens {
                at == 2
            } else {
                self.recursive
            })
            &&& after.config_selected == (if key == Key::Enter && at == 3 {
                0
            } else {
                self.config_selected
            })
            &&& command == (if opens {
                Command::OpenExplorer
            } else {
                Command::Nothing
            })
        })
    }

    /// Takes a key at the home screen: `q` and the last entry ask whether to
    /// leave, the vertical keys move through the menu, and enter opens what
    /// the entry names.
    pub fn handle_home_key(&mut self, key: Key) -> (command: Command)
        ensures
            old(self).home_key_effect(key, final(self), command),
    {
        match key {
            Key::Char(c) => {
                if c == 'q' {
                    self.ask(ConfirmAction::ExitApp);
                } else if c == 'k' {
                    self.home_index = move_up(self.home_index);
                } else if c == 'j' {
                    self.home_index = move_down(self.home_index, HOME_MENU_COUNT);
                }
                Command::Nothing
            },
            Key::Up => {
                self.home_index = move_up(self.home_index);
                Command::Nothing
            },
            Key::Down => {
                self.home_index = move_down(self.home_index, HOME_MENU_COUNT);
                Command::Nothing
            },
            Key::Enter => {
                if self.home_index == 0 {
                    self.navigate_to_explorer(false, false);
                    Command::OpenExplorer
                } else if self.home_index == 1 {
                    self.navigate_to_explorer(true, false);
                    Command::OpenExplorer
                } else if self.home_index == 2 {
                    self.navigate_to_explorer(true, true);
                    Command::OpenExplorer
                } else if self.home_index == 3 {
                    self.navigate_to_configuration();
                    Command::Nothing
                } else if self.home_index == 4 {
                    self.ask(ConfirmAction::ExitApp);
                    Command::Nothing
                } else {
                    Command::Nothing
                }
            },
            _ => Command::Nothing,
        }
    }

    /// What a key makes of the front end in the explorer.
    pub open spec fn explorer_key_effect(&self, key: Key, after: &App, command: Command) -> bool {
        &&& after.message.is_none()
        &&& after.same_dialog(self)
        &&& after.same_tracks(self)
        &&& after.same_queue(self)
        &&& after.same_config(self)
        &&& after.selection_mode == self.selection_mode
        &&& after.recursive == self.recursive
        &&& after.explorer_count == self.explorer_count
        &&& after.explorer_index == (if is_up(key) {
            moved_up(self.explorer_index)
        } else if is_down(key) {
            moved_down(self.explorer_index, self.explorer_count)
        } else {
            self.explorer_index
        })
        &&& after.current_screen == (if key == Key::Esc {
            Screen::Home
        } else {
            self.current_screen
        })
        &&& after.home_index == (if key == Key::Esc {
            0
        } else {
            self.home_index
        })
        &&& command == (if key == Key::Enter {
            if self.selection_mode == SelectionMode::File {
                Command::ExplorerSelect
            } else {
                Command::ExplorerEnter
            }
        } else if key == Key::Char(' ') {
            if self.selection_mode == SelectionMode::File {
                Command::ExplorerToggle
            } else {
                Command::ExplorerSelect
            }
        } else {
            Command::Nothing
        })
    }

    /// Takes a key in the explorer. Any key clears the message. Escape goes
    /// home, the vertical keys move the cursor, and enter and the space bar
    /// act on the entry under the cursor: in file mode enter chooses it and
    /// the space bar marks it; in folder mode enter goes into it and the
    /// space bar chooses it.
    pub fn handle_explorer_key(&mut self, key: Key) -> (command: Command)
        ensures
            old(self).explorer_key_effect(key, final(self), command),
    {
        self.clear_message();
        match key {
            Key::Esc => {
                self.navigate_to_home();
                Command::Nothing
            },
            Key::Up => {
                self.explorer_move_up();
                Command::Nothing
            },
            Key::Down => {
                self.explorer_move_down();
                Command::Nothing
            },
            Key::Enter => match self.selection_mode {
                SelectionMode::File => Command::ExplorerSelect,
                SelectionMode::Folder => Command::ExplorerEnter,
            },
            Key::Char(c) => {
                if c == 'k' {
                    self.explorer_move_up();
                    Command::Nothing
                } else if c == 'j' {
                    self.explorer_move_down();
                    Command::Nothing
                } else if c == ' ' {
                    match self.selection_mode {
                        SelectionMode::File => Command::ExplorerToggle,
                        SelectionMode::Folder => Command::ExplorerSelect,
                    }
                } else {
                    Command::Nothing
                }
            },
            _ => Command::Nothing,
        }
    }

    /// What a key makes of the front end at the list of files to confirm.
    pub open spec fn file_confirm_key_effect(&self, key: Key, after: &App, command: Command) -> bool {
        &&& after.same_screen(self)
        &&& after.same_dialog(self)
        &&& after.same_explorer(self)
        &&& after.same_tracks(self)
        &&& after.same_config(self)
        &&& after.queue == self.queue
        &&& after.encoding_active == self.encoding_active
        &&& after.file_confirm_scroll == (if is_up(key) {
            moved_up(self.file_confirm_scroll)
        } else if is_down(key) {
            moved_down(self.file_confirm_scroll, self.queue.jobs@.len() as usize)
        } else {
            self.file_confirm_scroll
        })
        &&& command == (if key == Key::Esc {
            Command::CancelFileConfirm
        } else if key == Key::Enter {
            Command::ConfirmQueuedFiles
        } else {
            Command::Nothing
        })
    }

    /// Takes a key at the list of files to confirm: escape forgets them,
    /// enter confirms them, and the vertical keys scroll.
    pub fn handle_file_confirm_key(&mut self, key: Key) -> (command: Command)
        ensures
            old(self).file_confirm_key_effect(key, final(self), command),
    {
        let up = match key {
            Key::Up => true,
            Key::Char(c) => c == 'k',
            _ => false,
        };
        let down = match key {
            Key::Down => true,
            Key::Char(c) => c == 'j',
            _ => false,
        };
        if up {
            self.file_confirm_scroll = move_up(self.file_confirm_scroll);
        } else if down {
            self.file_confirm_scroll = move_down(self.file_confirm_scroll, self.queue.jobs.len());
        }
        match key {
            Key::Esc => Command::CancelFileConfirm,
            Key::Enter => Command::ConfirmQueuedFiles,
            _ => Command::Nothing,
        }
    }

    /// What a key makes of the front end at the queue screen.
    pub open spec fn queue_key_effect(&self, key: Key, after: &App, command: Command) -> bool {
        &&& command == Command::Nothing
        &&& after.same_explorer(self)
        &&& after.same_tracks(self)
        &&& after.same_queue(self)
        &&& after.same_config(self)
        &&& after.should_quit == self.should_quit
        &&& after.home_index == self.home_index
        &&& ({
            let asks = key == Key::Esc && self.encoding_active;
            &&& after.confirm_dialog == (if asks {
                Some(ConfirmAction::CancelEncoding)
            } else {
                self.confirm_dialog
            })
            &&& after.confirm_selection == (if asks {
                false
            } else {
                self.confirm_selection
            })
            &&& after.current_screen == (if key == Key::Enter && !self.encoding_active {
                Screen::Finish
            } else {
                self.current_screen
            })
        })
    }

    /// Takes a key at the queue screen: escape asks whether to cancel while
    /// the encoding runs, and enter goes on to the results once it has
    /// ended.
    pub fn handle_queue_key(&mut self, key: Key) -> (command: Command)
        ensures
            old(self).queue_key_effect(key, final(self), command),
    {
        match key {
            Key::Esc => {
                if self.encoding_active {
                    self.ask(ConfirmAction::CancelEncoding);
                }
            },
            Key::Enter => {
                if !self.encoding_active {
                    self.navigate_to_finish();
                }
            },
            _ => {},
        }
        Command::Nothing
    }

    /// What a key makes of the front end at the results.
    pub open spec fn finish_key_effect(&self, key: Key, after: &App, command: Command) -> bool {
        &&& command == Command::Nothing
        &&& after.same_explorer(self)
        &&& after.same_tracks(self)
        &&& after.same_config(self)
        &&& after.should_quit == self.should_quit
        &&& key == Key::Char('q') ==> after.confirm_dialog == Some(ConfirmAction::ExitApp)
            && !after.confirm_selection && after.same_screen(self) && after.same_queue(self)
        &&& key == Key::Enter ==> after.current_screen == Screen::Home && after.home_index == 0 && after.queue.jobs@.len() == 0 && after.queue.wf()
            && !after.encoding_active && after.confirm_dialog == self.confirm_dialog && after.confirm_selection == self.confirm_selection
        &&& key != Key::Char('q') && key != Key::Enter ==> after.same_screen(self)
            && after.same_queue(self) && after.same_dialog(self)
    }

    /// Takes a key at the results: `q` asks whether to leave, and enter
    /// starts over.
    pub fn handle_finish_key(&mut self, key: Key) -> (command: Command)
        ensures
            old(self).finish_key_effect(key, final(self), command),
    {
        match key {
            Key::Char(c) => {
                if c == 'q' {
                    self.ask(ConfirmAction::ExitApp);
                }
            },
            Key::Enter => {
                self.reset();
            },
            _ => {},
        }
        Command::Nothing
    }

    /// What a key makes of the front end at the configuration screen.
    pub open spec fn config_key_effect(&self, key: Key, after: &App, command: Command) -> bool {
        &&& after.same_dialog(self)
        &&& after.same_explorer(self)
        &&& after.same_tracks(self)
        &&& after.same_queue(self)
        &&& after.current_screen == (if key == Key::Esc {
            Screen::Home
        } else {
            self.current_screen
        })
        &&& after.home_index == (if key == Key::Esc {
            0
        } else {
            self.home_index
        })
        &&& after.config_selected == (if is_up(key) {
            moved_up(self.config_selected)
        } else if is_down(key) {
            moved_down(self.config_selected, CONFIG_ITEM_COUNT)
        } else {
            self.config_selected
        })
        &&& key == Key::Left || key == Key::Char('h') ==> self.config.adjusted(
            self.config_selected,
            false,
            &after.config,
        )
        &&& key == Key::Right || key == Key::Char('l') ==> self.config.adjusted(
            self.config_selected,
            true,
            &after.config,
        )
        &&& !(key == Key::Left || key == Key::Char('h') || key == Key::Right || key == Key::Char(
            'l',
        )) ==> after.config == self.config
        &&& command == (if key == Key::Char('s') {
            Command::SaveConfig
        } else {
            Command::Nothing
        })
    }

    /// Takes a key at the configuration screen: escape goes home, the
    /// vertical keys move through the settings, the horizontal keys change
    /// the setting under the cursor, and `s` saves.
    pub fn handle_config_key(&mut self, key: Key) -> (command: Command)
        ensures
            old(self).config_key_effect(key, final(self), command),
    {
        match key {
            Key::Esc => {
                self.navigate_to_home();
                Command::Nothing
            },
            Key::Up => {
                self.config_selected = move_up(self.config_selected);
                Command::Nothing
            },
            Key::Down => {
                self.config_selected = move_down(
                    self.config_selected,
                    CONFIG_ITEM_COUNT,
                );
                Command::Nothing
            },
            Key::Left => {
                self.config.adjust_value(self.config_selected, false);
                Command::Nothing
            },
            Key::Right => {
                self.config.adjust_value(self.config_selected, true);
                Command::Nothing
            },
            Key::Char(c) => {
                if c == 'k' {
                    self.config_selected = move_up(self.config_selected);
                    Command::Nothing
                } else if c == 'j' {
                    self.config_selected = move_down(
                        self.config_selected,
                        CONFIG_ITEM_COUNT,
                    );
                    Command::Nothing
                } else if c == 'h' {
                    self.config.adjust_value(self.config_selected, false);
                    Command::Nothing
                } else if c == 'l' {
                    self.config.adjust_value(self.config_selected, true);
                    Command::Nothing
                } else if c == 's' {
                    Command::SaveConfig
                } else {
                    Command::Nothing
                }
            },
            _ => Command::Nothing,
        }
    }
}


/// What the key that selects all tracks of one kind makes of a selection:
/// nothing where as many are selected as there are tracks, else every
/// track.
pub open spec fn all_or_none(selected: Seq<usize>, all: Seq<usize>) -> Seq<usize> {
    if selected.len() == all.len() {
        Seq::empty()
    } else {
        all
    }
}

/// Where the cursor of a list of the track screen goes with a vertical
/// key, if the list has the focus.
pub open spec fn moved_cursor(cursor: usize, count: usize, focused: bool, key: Key) -> usize {
    if focused && is_up(key) {
        moved_up(cursor)
    } else if focused && is_down(key) {
        moved_down(cursor, count)
    } else {
        cursor
    }
}

impl App {
    /// The queue is well formed.
    pub open spec fn wf(&self) -> bool {
        self.queue.wf()
    }

    /// Everything of the queue but its jobs is the same in both.
    pub open spec fn same_queue_frame(&self, other: &App) -> bool {
        &&& self.queue.jobs@.len() == other.queue.jobs@.len()
        &&& self.queue.current_job_index == other.queue.current_job_index
        &&& self.queue.config_job_index == other.queue.config_job_index
        &&& self.queue.same_run(&other.queue)
        &&& self.queue.same_totals(&other.queue)
        &&& self.encoding_active == other.encoding_active
        &&& self.file_confirm_scroll == other.file_confirm_scroll
    }

    /// What confirming the tracks makes of the front end: the job that is
    /// being configured, if it waits for that, is ready; where a later job
    /// waits for its configuration the track screen turns to the first
    /// such job, with the focus on its audio tracks, and nothing is to be
    /// done outside; else the encoding is to be started.
    pub open spec fn confirmed(&self, after: &App, command: Command) -> bool {
        let at = self.queue.config_job_index as int;
        let next = next_awaiting(after.queue.jobs@, at + 1);
        &&& after.same_screen(self)
        &&& after.same_dialog(self)
        &&& after.same_explorer(self)
        &&& after.same_config(self)
        &&& after.encoding_active == self.encoding_active
        &&& after.file_confirm_scroll == self.file_confirm_scroll
        &&& after.queue.same_totals(&self.queue)
        &&& after.queue.start_time == self.queue.start_time
        &&& after.queue.end_time == self.queue.end_time
        &&& after.queue.total_jobs_to_encode == self.queue.total_jobs_to_encode
        &&& after.queue.encoding_progress_done == self.queue.encoding_progress_done
        &&& after.queue.current_job_index == self.queue.current_job_index
        &&& if at < self.queue.jobs@.len() && self.queue.jobs@[at].status is AwaitingConfig {
            only_status_changed(self.queue.jobs@, at, after.queue.jobs@)
                && after.queue.jobs@[at].status is Ready
        } else {
            after.queue.jobs == self.queue.jobs
        }
        &&& if at < usize::MAX && next < after.queue.jobs@.len() {
            &&& command == Command::Nothing
            &&& after.queue.config_job_index == next
            &&& after.track_focus == TrackFocus::Audio
            &&& after.audio_cursor == 0
            &&& after.subtitle_cursor == 0
        } else {
            &&& command == Command::StartEncoding
            &&& after.queue.config_job_index == self.queue.config_job_index
            &&& after.same_tracks(self)
        }
    }

    /// Confirms the tracks of the job that is being configured.
    pub fn confirm_track_config(&mut self) -> (command: Command)
        requires
            old(self).wf(),
        ensures
            final(self).wf(),
            old(self).confirmed(final(self), command),
            follows_lifecycle(old(self).queue.jobs@, final(self).queue.jobs@),
            command == Command::Nothing ==> final(self).queue.config_job_index > old(self).queue.config_job_index && final(self).queue.config_job_index < final(self).queue.jobs@.len() && final(self).queue.jobs@[final(self).queue.config_job_index as int].status is AwaitingConfig,
    {
        if self.queue.confirm_track_config() {
            Command::StartEncoding
        } else {
            let count = self.queue.jobs.len();
            proof {
                lemma_next_awaiting(self.queue.jobs@, old(self).queue.config_job_index + 1);
                assert(next_awaiting(self.queue.jobs@, old(self).queue.config_job_index + 1)
                    < count);
            }
            self.track_focus = TrackFocus::Audio;
            self.audio_cursor = 0;
            self.subtitle_cursor = 0;
            Command::Nothing
        }
    }

    /// What a key makes of the front end at the track screen.
    pub open spec fn track_key_effect(&self, key: Key, after: &App, command: Command) -> bool {
        &&& after.same_dialog(self)
        &&& after.same_explorer(self)
        &&& after.same_config(self)
        &&& after.encoding_active == self.encoding_active
        &&& after.file_confirm_scroll == self.file_confirm_scroll
        &&& after.queue.jobs@.len() == self.queue.jobs@.len()
        &&& after.queue.same_totals(&self.queue)
        &&& self.queue.config_job_index >= self.queue.jobs@.len() ==> command
            == Command::Nothing && after.same_screen(self) && after.same_tracks(self) && after.same_queue(self)
        &&& self.queue.config_job_index < self.queue.jobs@.len() ==> ({
            let at = self.queue.config_job_index as int;
            let job = self.queue.jobs@[at];
            let settled = after.queue.jobs@[at];
            let confirms = key == Key::Enter || (key == Key::Char(' ') && self.track_focus
                == TrackFocus::Confirm);
            &&& after.current_screen == (if key == Key::Esc {
                Screen::Home
            } else {
                self.current_screen
            })
            &&& after.home_index == (if key == Key::Esc {
                0
            } else {
                self.home_index
            })
            &&& !confirms ==> {
                &&& command == Command::Nothing
                &&& after.same_queue_frame(self)
                &&& forall|j: int|
                    0 <= j < self.queue.jobs@.len() && j != at ==> after.queue.jobs@[j] == self.queue.jobs@[j]
                &&& settled.status == job.status
                &&& settled.audio_tracks == job.audio_tracks
                &&& settled.subtitle_tracks == job.subtitle_tracks
                &&& after.track_focus == (if key == Key::Tab {
                    next_focus(
                        self.track_focus,
                        job.audio_tracks@.len() as usize,
                        job.subtitle_tracks@.len() as usize,
                    )
                } else {
                    self.track_focus
                })
                &&& after.audio_cursor == moved_cursor(
                    self.audio_cursor,
                    job.audio_tracks@.len() as usize,
                    self.track_focus == TrackFocus::Audio,
                    key,
                )
                &&& after.subtitle_cursor == moved_cursor(
                    self.subtitle_cursor,
                    job.subtitle_tracks@.len() as usize,
                    self.track_focus == TrackFocus::Subtitle,
                    key,
                )
                &&& if key == Key::Char(' ') && self.track_focus == TrackFocus::Audio
                    && self.audio_cursor < job.audio_tracks@.len() {
                    toggled(
                        job.track_selection.audio_indices@,
                        job.audio_tracks@[self.audio_cursor as int].index,
                        settled.track_selection.audio_indices@,
                    )
                } else if key == Key::Char('a') {
                    settled.track_selection.audio_indices@ == all_or_none(
                        job.track_selection.audio_indices@,
                        audio_indices_of(job.audio_tracks@),
                    )
                } else {
                    settled.track_selection.audio_indices@ == job.track_selection.audio_indices@
                }
                &&& if key == Key::Char(' ') && self.track_focus == TrackFocus::Subtitle
                    && self.subtitle_cursor < job.subtitle_tracks@.len() {
                    toggled(
                        job.track_selection.subtitle_indices@,
                        job.subtitle_tracks@[self.subtitle_cursor as int].index,
                        settled.track_selection.subtitle_indices@,
                    )
                } else if key == Key::Char('s') {
                    settled.track_selection.subtitle_indices@ == all_or_none(
                        job.track_selection.subtitle_indices@,
                        subtitle_indices_of(job.subtitle_tracks@),
                    )
                } else {
                    settled.track_selection.subtitle_indices@
                        == job.track_selection.subtitle_indices@
                }
            }
            &&& confirms ==> self.confirmed(after, command)
        })
    }

    /// Takes a key at the track screen.
    ///
    /// Escape goes home, the tabulator moves the focus on, and the vertical
    /// keys move the cursor of the list that has the focus. The space bar
    /// toggles the track under the cursor, or confirms where the
    /// confirmation has the focus; `a` and `s` select all audio or subtitle
    /// tracks, or none where all are selected; enter confirms. Without a
    /// job to configure no key does anything.
    pub fn handle_track_config_key(&mut self, key: Key) -> (command: Command)
        requires
            old(self).wf(),
        ensures
            final(self).wf(),
            follows_lifecycle(old(self).queue.jobs@, final(self).queue.jobs@),
            old(self).track_key_effect(key, final(self), command),
    {
        let at = self.queue.config_job_index;
        if at >= self.queue.jobs.len() {
            return Command::Nothing;
        }
        let audio_count = self.queue.jobs[at].audio_tracks.len();
        let subtitle_count = self.queue.jobs[at].subtitle_tracks.len();
        let ghost before = self.queue.jobs@;
        match key {
            Key::Esc => {
                self.navigate_to_home();
            },
            Key::Tab => {
                self.track_focus = cycle_focus(self.track_focus, audio_count, subtitle_count);
            },
            Key::Up => {
                self.move_track_cursor(true, audio_count, subtitle_count);
            },
            Key::Down => {
                self.move_track_cursor(false, audio_count, subtitle_count);
            },
            Key::Enter => {
                return self.confirm_track_config();
            },
            Key::Char(c) => {
                if c == 'k' {
                    self.move_track_cursor(true, audio_count, subtitle_count);
                } else if c == 'j' {
                    self.move_track_cursor(false, audio_count, subtitle_count);
                } else if c == ' ' {
                    match self.track_focus {
                        TrackFocus::Audio => {
                            let cursor = self.audio_cursor;
                            if cursor < audio_count {
                                let job = &mut self.queue.jobs[at];
                                let index = job.audio_tracks[cursor].index;
                                job.track_selection.toggle_audio(index);
                            }
                        },
                        TrackFocus::Subtitle => {
                            let cursor = self.subtitle_cursor;
                            if cursor < subtitle_count {
                                let job = &mut self.queue.jobs[at];
                                let index = job.subtitle_tracks[cursor].index;
                                job.track_selection.toggle_subtitle(index);
                            }
                        },
                        TrackFocus::Confirm => {
                            return self.confirm_track_config();
                        },
                    }
                } else if c == 'a' {
                    let job = &mut self.queue.jobs[at];
                    let all = TrackSelection::select_all(
                        job.audio_tracks.as_slice(),
                        job.subtitle_tracks.as_slice(),
                    );
                    if job.track_selection.audio_indices.len() == all.audio_indices.len() {
                        job.track_selection.audio_indices = Vec::new();
                    } else {
                        job.track_selection.audio_indices = all.audio_indices;
                    }
                } else if c == 's' {
                    let job = &mut self.queue.jobs[at];
                    let all = TrackSelection::select_all(
                        job.audio_tracks.as_slice(),
                        job.subtitle_tracks.as_slice(),
                    );
                    if job.track_selection.subtitle_indices.len() == all.subtitle_indices.len() {
                        job.track_selection.subtitle_indices = Vec::new();
                    } else {
                        job.track_selection.subtitle_indices = all.subtitle_indices;
                    }
                }
            },
            _ => {},
        }
        proof {
            assert(self.queue.jobs@ =~= before.update(at as int, self.queue.jobs@[at as int]));
            lemma_tally_update(
                before,
                at as int,
                self.queue.jobs@[at as int],
                ended(),
            );
        }
        Command::Nothing
    }

    fn move_track_cursor(&mut self, up: bool, audio_count: usize, subtitle_count: usize)
        ensures
            final(self).audio_cursor == (if old(self).track_focus == TrackFocus::Audio {
                if up {
                    moved_up(old(self).audio_cursor)
                } else {
                    moved_down(old(self).audio_cursor, audio_count)
                }
            } else {
                old(self).audio_cursor
            }),
            final(self).subtitle_cursor == (if old(self).track_focus == TrackFocus::Subtitle {
                if up {
                    moved_up(old(self).subtitle_cursor)
                } else {
                    moved_down(old(self).subtitle_cursor, subtitle_count)
                }
            } else {
                old(self).subtitle_cursor
            }),
            final(self).track_focus == old(self).track_focus,
            final(self).same_screen(old(self)),
            final(self).same_dialog(old(self)),
            final(self).same_explorer(old(self)),
            final(self).same_queue(old(self)),
            final(self).same_config(old(self)),
    {
        match self.track_focus {
            TrackFocus::Audio => {
                self.audio_cursor = if up {
                    move_up(self.audio_cursor)
                } else {
                    move_down(self.audio_cursor, audio_count)
                };
            },
            TrackFocus::Subtitle => {
                self.subtitle_cursor = if up {
                    move_up(self.subtitle_cursor)
                } else {
                    move_down(self.subtitle_cursor, subtitle_count)
                };
            },
            TrackFocus::Confirm => {},
        }
    }

    /// Takes a key: the confirmation dialog gets it while it is open, else
    /// the screen that is shown.
    pub fn handle_key(&mut self, key: Key) -> (command: Command)
        requires
            old(self).wf(),
        ensures
            final(self).wf(),
            follows_lifecycle(old(self).queue.jobs@, final(self).queue.jobs@)
                || final(self).queue.jobs@.len() == 0,
            final(self).queue.totals() <= old(self).queue.totals(),
            old(self).should_quit ==> final(self).should_quit,
            if old(self).confirm_dialog.is_some() {
                old(self).dialog_key_effect(key, final(self), command)
            } else {
                match old(self).current_screen {
                    Screen::Home => old(self).home_key_effect(key, final(self), command),
                    Screen::FileExplorer { .. } => old(self).explorer_key_effect(
                        key,
                        final(self),
                        command,
                    ),
                    Screen::FileConfirm => old(self).file_confirm_key_effect(
                        key,
                        final(self),
                        command,
                    ),
                    Screen::TrackConfig => old(self).track_key_effect(key, final(self), command),
                    Screen::Queue => old(self).queue_key_effect(key, final(self), command),
                    Screen::Finish => old(self).finish_key_effect(key, final(self), command),
                    Screen::Configuration => old(self).config_key_effect(
                        key,
                        final(self),
                        command,
                    ),
                }
            },
    {
        if self.confirm_dialog.is_some() {
            return self.handle_confirm_dialog_key(key);
        }
        match self.current_screen {
            Screen::Home => self.handle_home_key(key),
            Screen::FileExplorer { .. } => self.handle_explorer_key(key),
            Screen::FileConfirm => self.handle_file_confirm_key(key),
            Screen::TrackConfig => self.handle_track_config_key(key),
            Screen::Queue => self.handle_queue_key(key),
            Screen::Finish => self.handle_finish_key(key),
            Screen::Configuration => self.handle_config_key(key),
        }
    }

    /// The job that is being configured, if there is one.
    pub fn current_config_file(&self) -> (job: Option<&crate::queue::EncodingJob>)
        ensures
            job.is_some() == (self.queue.config_job_index < self.queue.jobs@.len()),
            job matches Some(j) ==> *j == self.queue.jobs@[self.queue.config_job_index as int],
    {
        if self.queue.config_job_index < self.queue.jobs.len() {
            Some(&self.queue.jobs[self.queue.config_job_index])
        } else {
            None
        }
    }

    /// Get the elapsed time since the queue started encoding
    pub fn queue_elapsed_time(&self, now: u64) -> (elapsed: Option<u64>)
        ensures
            elapsed == self.queue.elapsed(now),
    {
        self.queue.elapsed_time(now)
    }

    /// Calculate the overall queue progress, in hundredths of a percent
    pub fn queue_overall_progress(&self) -> (progress: u32)
        ensures
            progress == self.queue.progress(),
            progress <= crate::queue::job::FULL_PROGRESS,
    {
        self.queue.overall_progress()
    }

    /// Get the estimated time remaining for the entire queue
    pub fn queue_estimated_time_remaining(&self, now: u64) -> (remaining: Option<u64>)
        ensures
            remaining == (match self.queue.elapsed(now) {
                Some(elapsed) => match crate::queue::state::remaining_estimate(
                    self.queue.progress(),
                    elapsed as nat,
                ) {
                    Some(left) => Some(
                        if left > u64::MAX {
                            u64::MAX
                        } else {
                            left as u64
                        },
                    ),
                    None => None,
                },
                None => None,
            }),
    {
        self.queue.estimated_time_remaining(now)
    }

    /// Begins the encoding at `now`: the queue screen is shown, and every job
    /// that is ready waits for the encoder and is handed out as work, in the
    /// order of the queue. The run has a beginning and no end yet.
    pub fn start_encoding(&mut self, now: u64, delete_source: bool) -> (work: Vec<
        WorkerJob,
    >)
        requires
            old(self).wf(),
        ensures
            final(self).wf(),
            final(self).current_screen == Screen::Queue,
            final(self).encoding_active,
            final(self).home_index == old(self).home_index,
            final(self).file_confirm_scroll == old(self).file_confirm_scroll,
            final(self).same_dialog(old(self)),
            final(self).same_explorer(old(self)),
            final(self).same_tracks(old(self)),
            final(self).same_config(old(self)),
            follows_lifecycle(old(self).queue.jobs@, final(self).queue.jobs@),
            final(self).queue.jobs@.len() == old(self).queue.jobs@.len(),
            forall|i: int|
                0 <= i < old(self).queue.jobs@.len() ==> submitted_job(
                    old(self).queue.jobs@[i],
                    #[trigger] final(self).queue.jobs@[i],
                ),
            work_list(
                old(self).queue.jobs@,
                old(self).queue.jobs@.len() as int,
                delete_source,
                work@,
            ),
            work@.len() == tally(old(self).queue.jobs@, submittable()),
            final(self).queue.total_jobs_to_encode == work@.len(),
            final(self).queue.start_time == Some(now),
            final(self).queue.end_time.is_none(),
            final(self).queue.same_totals(&old(self).queue),
            final(self).queue.config_job_index == old(self).queue.config_job_index,
            final(self).queue.encoding_progress_done == old(self).queue.encoding_progress_done,
            final(self).queue.current_job_index == (if old(self).queue.current_job_index < old(self).queue.jobs@.len() && old(self).queue.jobs@[old(self).queue.current_job_index as int].status.active() {
                old(self).queue.current_job_index
            } else {
                0
            }),
    {
        self.navigate_to_queue();
        self.encoding_active = true;
        self.queue.start_encoding(now, delete_source)
    }

    /// Takes one message of the worker at `now`: the queue takes the message
    /// as it takes any. With the message that ends the run the encoding is
    /// over, the end of the run is marked at `now`, once, and the results are
    /// shown.
    pub fn process_progress_message(&mut self, msg: WorkerMessage, now: u64) -> (finished:
        bool)
        requires
            old(self).wf(),
        ensures
            final(self).wf(),
            message_effect(
                old(self).queue,
                msg,
                final(self).queue.ending_at(old(self).queue.end_time),
            ),
            final(self).queue.end_time == (if finished && old(self).queue.start_time.is_some()
                && old(self).queue.end_time.is_none() {
                Some(now)
            } else {
                old(self).queue.end_time
            }),
            finished == ends_run(msg, final(self).queue),
            follows_lifecycle(old(self).queue.jobs@, final(self).queue.jobs@),
            final(self).queue.converted_count >= old(self).queue.converted_count,
            final(self).queue.skipped_count >= old(self).queue.skipped_count,
            final(self).queue.error_count >= old(self).queue.error_count,
            final(self).queue.totals() <= final(self).queue.jobs@.len(),
            final(self).encoding_active == (old(self).encoding_active && !finished),
            final(self).current_screen == (if finished {
                Screen::Finish
            } else {
                old(self).current_screen
            }),
            final(self).home_index == old(self).home_index,
            final(self).file_confirm_scroll == old(self).file_confirm_scroll,
            final(self).same_dialog(old(self)),
            final(self).same_explorer(old(self)),
            final(self).same_tracks(old(self)),
            final(self).same_config(old(self)),
    {
        let finished = self.queue.apply_message(msg);
        if finished {
            self.encoding_active = false;
            self.queue.finish(now);
            self.navigate_to_finish();
        }
        finished
    }
}

} // verus!
