//! The practice application: tabs, input modes and the fretboard modes
//! (live, scale, random, song) that decide which notes are to be played
//! and which notes count as played.
//!
//! Time is a count of milliseconds on a clock that never runs backwards.

use crate::fretboard::{
    contains_note, copy_notes, remove_note, with_notes, without_note, FretboardState,
};
use crate::frets::frets_between;
use crate::note::{note_at, spec_standard_tuning, Note};
use crate::scale::Scale;
use crate::songs::{are_playable, playable_songs, song_beats, Song};
use crate::state::{settled_note, NoteHistory, State, DEFAULT_MAX_HISTORY};
use crate::utils::{generate_random_note, on_fretboard};
use vstd::prelude::*;

verus! {

/// The time in milliseconds after which a random note that was not played
/// is given up.
pub const MAX_RANDOM_INTERVAL: u64 = 5000;

/// The highest fret that the fretboard window can reach.
pub const MAX_FRET: u8 = 24;

/// The number of frets between the first and the last fret of the window.
pub const WINDOW_SIZE: u8 = 6;

/// The time below which a press counts as short, in milliseconds.
pub const SHORT_PRESS_LIMIT: u64 = 500;

/// The time from which a press no longer counts, in milliseconds.
pub const LONG_PRESS_LIMIT: u64 = 2000;

/// How long a button was held.
#[derive(Debug, Clone, Copy, PartialEq, Eq, Structural)]
pub enum ButtonPressType {
    Short,
    Long,
}

/// A press of the mode button, of the menu button, or of both at once.
#[derive(Debug, Clone, Copy, PartialEq, Eq, Structural)]
pub enum Button {
    Mode(ButtonPressType),
    Menu(ButtonPressType),
    Both,
}

impl Button {
    /// Tells whether the mode button alone was pressed.
    pub fn is_mode(&self) -> (mode: bool)
        ensures
            mode == (*self is Mode),
    {
        matches!(self, Button::Mode(_))
    }

    /// Tells whether the menu button alone was pressed.
    pub fn is_menu(&self) -> (menu: bool)
        ensures
            menu == (*self is Menu),
    {
        matches!(self, Button::Menu(_))
    }

    /// Tells whether one button was pressed for a short time.
    pub fn is_short_press(&self) -> (short: bool)
        ensures
            short == (*self == Button::Mode(ButtonPressType::Short) || *self == Button::Menu(
                ButtonPressType::Short,
            )),
    {
        matches!(self, Button::Mode(ButtonPressType::Short) | Button::Menu(ButtonPressType::Short))
    }

    /// Tells whether one button was pressed for a long time.
    pub fn is_long_press(&self) -> (long: bool)
        ensures
            long == (*self == Button::Mode(ButtonPressType::Long) || *self == Button::Menu(
                ButtonPressType::Long,
            )),
    {
        matches!(self, Button::Mode(ButtonPressType::Long) | Button::Menu(ButtonPressType::Long))
    }
}

/// The time that has passed at `now` since `since`; none if `since` lies
/// ahead.
pub open spec fn elapsed(now: u64, since: u64) -> int {
    if now >= since {
        now - since
    } else {
        0
    }
}

/// The kind of press that a button gives when it is let go after it was held
/// for `held` milliseconds.
pub open spec fn press_of(held: int) -> Option<ButtonPressType> {
    if SHORT_PRESS_LIMIT <= held < LONG_PRESS_LIMIT {
        Some(ButtonPressType::Long)
    } else if held < SHORT_PRESS_LIMIT {
        Some(ButtonPressType::Short)
    } else {
        None
    }
}

/// Follows one button from the moment it goes down until it is let go.
pub struct ButtonState {
    /// When the button went down, while it is down.
    pub pressed_at: Option<u64>,
}

impl ButtonState {
    /// Creates the state of a button that is up.
    pub fn new() -> (state: Self)
        ensures
            state.pressed_at is None,
    {
        Self { pressed_at: None }
    }

    /// Takes in whether the button is down at the time `now` and gives the
    /// press that has just been completed, if any.
    ///
    /// While the button is down the time at which it went down is kept, and
    /// nothing is given. Once it is let go, the time it was held decides.
    pub fn update(&mut self, is_pressed: bool, now: u64) -> (press: Option<ButtonPressType>)
        ensures
            final(self).pressed_at == if is_pressed {
                match old(self).pressed_at {
                    Some(since) => Some(since),
                    None => Some(now),
                }
            } else {
                None
            },
            press == match old(self).pressed_at {
                Some(since) if !is_pressed => press_of(elapsed(now, since)),
                _ => None,
            },
    {
        if is_pressed {
            if self.pressed_at.is_none() {
                self.pressed_at = Some(now);
            }
            None
        } else if let Some(since) = self.pressed_at.take() {
            let held: u64 = if now >= since {
                now - since
            } else {
                0
            };
            if SHORT_PRESS_LIMIT <= held && held < LONG_PRESS_LIMIT {
                Some(ButtonPressType::Long)
            } else if held < SHORT_PRESS_LIMIT {
                Some(ButtonPressType::Short)
            } else {
                None
            }
        } else {
            None
        }
    }
}

/// What the application is asked to handle.
#[derive(Debug, Clone, Copy, PartialEq, Eq, Structural)]
pub enum Event {
    Tick,
    SwitchTab,
    SwitchInputMode,
    UpdateControlValue(u16),
    ToggleRootNote,
}

/// Where the samples come from.
#[derive(Debug, Clone, Copy, PartialEq, Eq, Structural)]
pub enum InputMode {
    Mic,
    Jack,
}

impl Default for InputMode {
    fn default() -> (mode: Self)
        ensures
            mode == InputMode::Mic,
    {
        InputMode::Mic
    }
}

impl InputMode {
    /// The input mode that follows this one.
    pub open spec fn spec_next(self) -> InputMode {
        match self {
            InputMode::Mic => InputMode::Jack,
            InputMode::Jack => InputMode::Mic,
        }
    }
}

/// What is on display.
#[derive(Debug, Clone, Copy, PartialEq, Eq, Structural)]
pub enum Tab {
    Frequency,
    Waveform,
    Spectrum,
    Fretboard,
}

impl Default for Tab {
    fn default() -> (tab: Self)
        ensures
            tab == Tab::Frequency,
    {
        Tab::Frequency
    }
}

impl Tab {
    /// The tab that follows this one.
    pub open spec fn spec_next(self) -> Tab {
        match self {
            Tab::Frequency => Tab::Waveform,
            Tab::Waveform => Tab::Spectrum,
            Tab::Spectrum => Tab::Fretboard,
            Tab::Fretboard => Tab::Frequency,
        }
    }

    /// The title of the tab.
    pub open spec fn spec_name(self) -> Seq<char> {
        match self {
            Tab::Frequency => "Frequency"@,
            Tab::Waveform => "Waveform"@,
            Tab::Spectrum => "Spectrum"@,
            Tab::Fretboard => "Fretboard"@,
        }
    }

    /// Returns the title of the tab.
    pub fn to_string(&self) -> (name: String)
        ensures
            name@ == self.spec_name(),
    {
        String::from_str(
            match self {
                Tab::Frequency => "Frequency",
                Tab::Waveform => "Waveform",
                Tab::Spectrum => "Spectrum",
                Tab::Fretboard => "Fretboard",
            },
        )
    }
}

/// What the fretboard is used for: to show what is played, to show a
/// scale, to ask for random notes, or to ask for the notes of a song.
#[derive(Debug, Clone, Copy, PartialEq, Eq, Structural)]
pub enum FretboardMode {
    Live,
    Scale,
    Random,
    Song,
}

impl Default for FretboardMode {
    fn default() -> (mode: Self)
        ensures
            mode == FretboardMode::Live,
    {
        FretboardMode::Live
    }
}

impl FretboardMode {
    /// The fretboard mode that follows this one.
    pub open spec fn spec_next(self) -> FretboardMode {
        match self {
            FretboardMode::Live => FretboardMode::Scale,
            FretboardMode::Scale => FretboardMode::Random,
            FretboardMode::Random => FretboardMode::Song,
            FretboardMode::Song => FretboardMode::Live,
        }
    }

    /// The name of the mode.
    pub open spec fn spec_name(self) -> Seq<char> {
        match self {
            FretboardMode::Live => "Live"@,
            FretboardMode::Scale => "Scale"@,
            FretboardMode::Random => "Random"@,
            FretboardMode::Song => "Song"@,
        }
    }

    /// Returns the name of the mode.
    pub fn to_string(&self) -> (name: String)
        ensures
            name@ == self.spec_name(),
    {
        String::from_str(
            match self {
                FretboardMode::Live => "Live",
                FretboardMode::Scale => "Scale",
                FretboardMode::Random => "Random",
                FretboardMode::Song => "Song",
            },
        )
    }
}

/// The state of the practice application.
pub struct Application {
    /// Whether the application goes on.
    pub is_running: bool,
    /// The tuning state, from which the note that is held is read.
    pub state: State,
    /// Where the samples come from.
    pub input_mode: InputMode,
    /// The value of the control that moves the fretboard window.
    pub control_value: u16,
    /// The greatest value that the control can take.
    pub max_control_value: u16,
    /// What is on display.
    pub tab: Tab,
    /// What the fretboard is used for.
    pub fretboard_mode: FretboardMode,
    /// The notes on the fretboard and the window of frets.
    pub fretboard_state: FretboardState,
    /// Whether a note to play leaves once it is played.
    pub remove_ghost: bool,
    /// The scale that the scale mode shows.
    pub current_scale: Scale,
    /// The root of the scale that the scale mode shows.
    pub current_root_note: Note,
    /// The songs that the song mode plays from.
    pub songs: Vec<Song>,
    /// The place of the song that the song mode plays.
    pub current_song_index: usize,
    /// The number of beats of the song that have been asked for.
    pub song_note_index: usize,
    /// The score of the random mode.
    pub random_mode_points: usize,
    /// When the random note that is to be played was made.
    pub last_random: u64,
}

/// What the practice logic reads and changes of an `Application`, with the
/// note lists as sequences and the fret window by its two ends.
pub struct ApplicationView {
    pub is_running: bool,
    pub input_mode: InputMode,
    pub control_value: u16,
    pub tab: Tab,
    pub fretboard_mode: FretboardMode,
    pub active_notes: Seq<Note>,
    pub ghost_notes: Seq<Note>,
    pub first_fret: u8,
    pub last_fret: u8,
    pub remove_ghost: bool,
    pub current_scale: Scale,
    pub current_root_note: Note,
    pub current_song_index: usize,
    pub song_note_index: usize,
    pub random_mode_points: usize,
    pub last_random: u64,
}

impl View for Application {
    type V = ApplicationView;

    open spec fn view(&self) -> ApplicationView {
        ApplicationView {
            is_running: self.is_running,
            input_mode: self.input_mode,
            control_value: self.control_value,
            tab: self.tab,
            fretboard_mode: self.fretboard_mode,
            active_notes: self.fretboard_state.active_notes@,
            ghost_notes: self.fretboard_state.ghost_notes@,
            first_fret: self.fretboard_state.frets@.start,
            last_fret: self.fretboard_state.frets@.end,
            remove_ghost: self.remove_ghost,
            current_scale: self.current_scale,
            current_root_note: self.current_root_note,
            current_song_index: self.current_song_index,
            song_note_index: self.song_note_index,
            random_mode_points: self.random_mode_points,
            last_random: self.last_random,
        }
    }
}

impl ApplicationView {
    /// The frets of the window, in rising order.
    pub open spec fn frets(self) -> Seq<u8> {
        frets_between(self.first_fret, self.last_fret)
    }

    /// After a switch to the next tab.
    pub open spec fn switch_tab(self) -> ApplicationView {
        ApplicationView { tab: self.tab.spec_next(), ..self }
    }

    /// After a switch to the other input.
    pub open spec fn switch_input_mode(self) -> ApplicationView {
        ApplicationView { input_mode: self.input_mode.spec_next(), ..self }
    }

    /// With the notes of the current scale on the current root, as far as
    /// the window shows them, as the notes to play. They stay when played.
    pub open spec fn set_scale_notes(self) -> ApplicationView {
        ApplicationView {
            ghost_notes: with_notes(
                Seq::empty(),
                self.current_scale.tuning_notes(
                    self.current_root_note,
                    spec_standard_tuning(),
                    self.frets(),
                ),
            ),
            remove_ghost: false,
            ..self
        }
    }

    /// After a switch to the next fretboard mode: nothing is left to play,
    /// the song starts over and the score is lost; the scale mode then shows
    /// its scale.
    pub open spec fn switch_fretboard_mode(self) -> ApplicationView {
        let cleared = ApplicationView {
            ghost_notes: Seq::empty(),
            remove_ghost: true,
            song_note_index: 0,
            random_mode_points: 0,
            fretboard_mode: self.fretboard_mode.spec_next(),
            ..self
        };
        if self.fretboard_mode == FretboardMode::Live {
            cleared.set_scale_notes()
        } else {
            cleared
        }
    }

    /// With the root moved to the next of the twelve pitch classes. The new
    /// root lies in the lowest octave, except that `C` after `B` lies one
    /// octave up.
    pub open spec fn toggle_current_root_note(self) -> ApplicationView {
        ApplicationView {
            current_root_note: note_at(self.current_root_note.spec_pitch_class() + 1),
            ..self
        }
    }

    /// The first fret of the window for the control value: the control at 0
    /// gives the window on the highest frets, the control at its greatest
    /// value the window that starts at fret 0, and the frets lie evenly in
    /// between.
    pub open spec fn scrolled_start(self, max_control_value: u16) -> int {
        (MAX_FRET - WINDOW_SIZE) - (self.control_value * (MAX_FRET - WINDOW_SIZE))
            / (max_control_value as int)
    }

    /// With the window moved to where the control value puts it.
    pub open spec fn scroll_fretboard(self, max_control_value: u16) -> ApplicationView {
        ApplicationView {
            first_fret: self.scrolled_start(max_control_value) as u8,
            last_fret: (self.scrolled_start(max_control_value) + WINDOW_SIZE) as u8,
            ..self
        }
    }

    /// With the next song of `songs` many, started from its first beat and
    /// with nothing to play yet.
    pub open spec fn toggle_current_song(self, songs: int) -> ApplicationView {
        ApplicationView {
            current_song_index: ((self.current_song_index + 1) % songs) as usize,
            song_note_index: 0,
            ghost_notes: Seq::empty(),
            ..self
        }
    }

    /// Whether the next tick makes a random note to play.
    pub open spec fn wants_random_note(self) -> bool {
        self.tab == Tab::Fretboard && self.fretboard_mode == FretboardMode::Random
            && self.ghost_notes.len() == 0
    }

    /// The random mode's part of a tick: where nothing is to be played,
    /// the note `spawned`, if there is one, becomes the note to play and the
    /// time is kept; a note that has been waiting for more than
    /// `MAX_RANDOM_INTERVAL` is given up and costs a point, as long as there
    /// is one.
    pub open spec fn tick_random(self, now: u64, spawned: Option<Note>) -> ApplicationView {
        if self.tab == Tab::Fretboard && self.fretboard_mode == FretboardMode::Random {
            if self.ghost_notes.len() == 0 {
                match spawned {
                    Some(note) => ApplicationView {
                        ghost_notes: seq![note],
                        last_random: now,
                        ..self
                    },
                    None => self,
                }
            } else if elapsed(now, self.last_random) > MAX_RANDOM_INTERVAL {
                ApplicationView {
                    random_mode_points: if self.random_mode_points > 0 {
                        (self.random_mode_points - 1) as usize
                    } else {
                        0
                    },
                    ghost_notes: Seq::empty(),
                    ..self
                }
            } else {
                self
            }
        } else {
            self
        }
    }

    /// The song mode's part of a tick: where nothing is to be played, the
    /// notes of the beat under the cursor become the notes to play, and the
    /// cursor moves on. Past the last beat the song starts over.
    pub open spec fn tick_song(self, songs: Seq<Seq<Seq<Note>>>) -> ApplicationView {
        if self.tab == Tab::Fretboard && self.fretboard_mode == FretboardMode::Song
            && self.ghost_notes.len() == 0 {
            let song = songs[self.current_song_index as int];
            ApplicationView {
                ghost_notes: with_notes(
                    Seq::empty(),
                    song[self.song_note_index as int % song.len() as int],
                ),
                song_note_index: (self.song_note_index + 1) as usize,
                ..self
            }
        } else {
            self
        }
    }

    /// The last part of a tick: the note that is held, if any, becomes the
    /// only active note. Where played notes are to leave and the held note
    /// is one of the notes to play, it leaves them; in the random mode that
    /// scores a point.
    pub open spec fn tick_held(self, held: Option<Note>) -> ApplicationView {
        match held {
            Some(note) => {
                let hit = self.remove_ghost && self.ghost_notes.contains(note);
                ApplicationView {
                    active_notes: seq![note],
                    ghost_notes: if hit {
                        without_note(self.ghost_notes, note)
                    } else {
                        self.ghost_notes
                    },
                    random_mode_points: if hit && self.fretboard_mode == FretboardMode::Random {
                        (self.random_mode_points + 1) as usize
                    } else {
                        self.random_mode_points
                    },
                    ..self
                }
            },
            None => ApplicationView { active_notes: Seq::empty(), ..self },
        }
    }

    /// After one tick at the time `now`, with `held` the note that is being
    /// held and `spawned` the random note to use where one is wanted.
    pub open spec fn tick(
        self,
        songs: Seq<Seq<Seq<Note>>>,
        held: Option<Note>,
        now: u64,
        spawned: Option<Note>,
    ) -> ApplicationView {
        self.tick_random(now, spawned).tick_song(songs).tick_held(held)
    }

    /// After an event other than a tick.
    pub open spec fn handle_event(self, event: Event, max_control_value: u16) -> ApplicationView {
        match event {
            Event::Tick => self,
            Event::SwitchTab => self.switch_tab(),
            Event::SwitchInputMode => self.switch_input_mode(),
            Event::UpdateControlValue(value) => {
                let set = ApplicationView { control_value: value, ..self };
                if self.tab == Tab::Fretboard {
                    set.scroll_fretboard(max_control_value)
                } else {
                    set
                }
            },
            Event::ToggleRootNote => self.toggle_current_root_note().set_scale_notes(),
        }
    }

    /// After a press of the buttons: both at once on the fretboard tab move
    /// the root in the scale mode and change the song in the song mode; a
    /// long press of the mode button, or a short one away from the fretboard
    /// tab, changes the input; a short press of the menu button changes the
    /// tab; a short press of the mode button on the fretboard tab changes
    /// the fretboard mode; a long press of the menu button in the scale mode
    /// on the fretboard tab changes the scale.
    pub open spec fn handle_press(self, button: Button, songs: int) -> ApplicationView {
        if button == Button::Both && self.tab == Tab::Fretboard {
            if self.fretboard_mode == FretboardMode::Scale {
                self.toggle_current_root_note().set_scale_notes()
            } else if self.fretboard_mode == FretboardMode::Song {
                self.toggle_current_song(songs)
            } else {
                self
            }
        } else if button == Button::Mode(ButtonPressType::Long) || (button == Button::Mode(
            ButtonPressType::Short,
        ) && self.tab != Tab::Fretboard) {
            self.switch_input_mode()
        } else if button == Button::Menu(ButtonPressType::Short) {
            self.switch_tab()
        } else if button == Button::Mode(ButtonPressType::Short) {
            self.switch_fretboard_mode()
        } else if button == Button::Menu(ButtonPressType::Long) && self.tab == Tab::Fretboard
            && self.fretboard_mode == FretboardMode::Scale {
            ApplicationView {
                current_scale: self.current_scale.spec_next(),
                ..self
            }.set_scale_notes()
        } else {
            self
        }
    }
}

/// Whether `after` is what a tick at the time `now` can leave of `before`:
/// what the tick gives without a random note where none is wanted, and with
/// some note of the fretboard window as the random note where one is.
pub open spec fn ticked(
    before: ApplicationView,
    after: ApplicationView,
    songs: Seq<Seq<Seq<Note>>>,
    held: Option<Note>,
    now: u64,
) -> bool {
    if before.wants_random_note() {
        exists|spawned: Note|
            on_fretboard(spawned, before.first_fret, before.last_fret) && after
                == #[trigger] before.tick(songs, held, now, Some(spawned))
    } else {
        after == before.tick(songs, held, now, None)
    }
}

impl Application {
    /// The note that is being held, as the tuning state has it.
    pub open spec fn held(&self) -> Option<Note> {
        match settled_note(self.state.history()) {
            Some((note, _)) => Some(note),
            None => None,
        }
    }

    /// The beats of the songs.
    pub open spec fn beats(&self) -> Seq<Seq<Seq<Note>>> {
        song_beats(self.songs@)
    }

    /// Whether the application can be used: the control has a range, there
    /// is a song to play and every song has a beat, and the fretboard window
    /// holds a fret and no fret beyond those whose notes are representable.
    pub open spec fn wf(&self) -> bool {
        &&& self.max_control_value > 0
        &&& playable_songs(self.beats())
        &&& self.current_song_index < self.songs@.len()
        &&& !self.fretboard_state.frets@.exhausted
        &&& self.fretboard_state.frets@.start <= self.fretboard_state.frets@.end <= 203
    }

    /// Tells whether the application can be used.
    pub fn is_wf(&self) -> (wf: bool)
        ensures
            wf == self.wf(),
    {
        let first: u8 = *self.fretboard_state.frets.start();
        let last: u8 = *self.fretboard_state.frets.end();
        let empty = self.fretboard_state.frets.is_empty();
        self.max_control_value > 0 && are_playable(&self.songs) && self.current_song_index
            < self.songs.len() && !empty && last <= 203
    }

    /// Whether nothing but what the view shows has changed from `before`.
    pub open spec fn same_setup(&self, before: &Application) -> bool {
        &&& self.state == before.state
        &&& self.songs == before.songs
        &&& self.max_control_value == before.max_control_value
    }

    /// Creates the application at the time `now`: on the frequency tab, in
    /// the live mode, with the control half way and the window on the first
    /// twelve frets.
    pub fn new(buffer_size: usize, max_control_value: u16, songs: Vec<Song>, now: u64) -> (app:
        Self)
        requires
            max_control_value > 0,
            playable_songs(song_beats(songs@)),
        ensures
            app.wf(),
            app.songs == songs,
            app.max_control_value == max_control_value,
            app.state.samples@ == Seq::<i16>::empty(),
            app.state.sample_rate == 0,
            app.state.history() == Seq::<NoteHistory>::empty(),
            app.state.max_history == DEFAULT_MAX_HISTORY,
            app.state.fret_count == 6,
            app.state.bottom_padding == 2,
            app@ == (ApplicationView {
                is_running: true,
                input_mode: InputMode::Mic,
                control_value: max_control_value / 2,
                tab: Tab::Frequency,
                fretboard_mode: FretboardMode::Live,
                active_notes: Seq::empty(),
                ghost_notes: Seq::empty(),
                first_fret: 0,
                last_fret: 12,
                remove_ghost: true,
                current_scale: Scale::MajorPentatonic,
                current_root_note: Note::A(4),
                current_song_index: 0,
                song_note_index: 0,
                random_mode_points: 0,
                last_random: now,
            }),
    {
        let state = State::new(buffer_size, 6, 2, None);
        Self {
            is_running: true,
            state,
            input_mode: InputMode::default(),
            control_value: max_control_value / 2,
            max_control_value,
            tab: Tab::default(),
            fretboard_mode: FretboardMode::Live,
            fretboard_state: FretboardState::default(),
            remove_ghost: true,
            current_scale: Scale::MajorPentatonic,
            current_root_note: Note::A(4),
            songs,
            current_song_index: 0,
            song_note_index: 0,
            random_mode_points: 0,
            last_random: now,
        }
    }

    /// Switches to the next tab.
    pub fn switch_tab(&mut self)
        ensures
            final(self)@ == old(self)@.switch_tab(),
            final(self).same_setup(old(self)),
            old(self).wf() ==> final(self).wf(),
    {
        self.tab = match self.tab {
            Tab::Frequency => Tab::Waveform,
            Tab::Waveform => Tab::Spectrum,
            Tab::Spectrum => Tab::Fretboard,
            Tab::Fretboard => Tab::Frequency,
        };
    }

    /// Switches to the other input.
    pub fn switch_input_mode(&mut self)
        ensures
            final(self)@ == old(self)@.switch_input_mode(),
            final(self).same_setup(old(self)),
            old(self).wf() ==> final(self).wf(),
    {
        self.input_mode = match self.input_mode {
            InputMode::Mic => InputMode::Jack,
            InputMode::Jack => InputMode::Mic,
        };
    }

    /// Switches to the next fretboard mode and resets the practice.
    pub fn switch_fretboard_mode(&mut self)
        requires
            old(self).wf(),
        ensures
            final(self)@ == old(self)@.switch_fretboard_mode(),
            final(self).same_setup(old(self)),
            final(self).wf(),
    {
        self.fretboard_state.clear_ghost_notes();
        self.remove_ghost = true;
        self.song_note_index = 0;
        self.random_mode_points = 0;
        match self.fretboard_mode {
            FretboardMode::Live => {
                self.fretboard_mode = FretboardMode::Scale;
                self.set_scale_notes();
            },
            FretboardMode::Scale => {
                self.fretboard_mode = FretboardMode::Random;
            },
            FretboardMode::Random => {
                self.fretboard_mode = FretboardMode::Song;
            },
            FretboardMode::Song => {
                self.fretboard_mode = FretboardMode::Live;
            },
        }
    }

    /// Makes the notes of the current scale within the window the notes to
    /// play.
    pub fn set_scale_notes(&mut self)
        requires
            old(self).wf(),
        ensures
            final(self)@ == old(self)@.set_scale_notes(),
            final(self).same_setup(old(self)),
            final(self).wf(),
    {
        self.fretboard_state.clear_ghost_notes();
        self.remove_ghost = false;
        let notes = self.current_scale.fretboard_notes(
            self.current_root_note,
            &self.fretboard_state.frets,
        );
        self.fretboard_state.set_ghost_notes(notes);
    }

    /// Moves the root of the scale to the next pitch class.
    pub fn toggle_current_root_note(&mut self)
        ensures
            final(self)@ == old(self)@.toggle_current_root_note(),
            final(self).same_setup(old(self)),
            old(self).wf() ==> final(self).wf(),
    {
        let index: u8 = self.current_root_note.pitch_class();
        self.current_root_note = Note::from_semitone_index(index + 1);
    }

    /// Moves the fretboard window to where the control value puts it.
    pub fn scroll_fretboard(&mut self)
        requires
            old(self).max_control_value > 0,
            old(self).control_value <= old(self).max_control_value,
        ensures
            final(self)@ == old(self)@.scroll_fretboard(old(self).max_control_value),
            final(self).same_setup(old(self)),
            !final(self).fretboard_state.frets@.exhausted,
            final(self)@.first_fret <= MAX_FRET - WINDOW_SIZE,
            final(self)@.last_fret == final(self)@.first_fret + WINDOW_SIZE,
            old(self).wf() ==> final(self).wf(),
    {
        let max_start_fret: u8 = MAX_FRET - WINDOW_SIZE;
        let control: u32 = self.control_value as u32;
        let max_control: u32 = self.max_control_value as u32;
        assert((control as int) * 18 / (max_control as int) <= 18) by (nonlinear_arith)
            requires
                0 <= control <= max_control,
                max_control > 0,
        ;
        let steps: u32 = (control * (max_start_fret as u32)) / max_control;
        let start_fret: u8 = max_start_fret - (steps as u8);
        let end_fret: u8 = start_fret + WINDOW_SIZE;
        self.fretboard_state.set_frets(start_fret..=end_fret);
    }

    /// Goes on to the next song.
    pub fn toggle_current_song(&mut self)
        requires
            old(self).songs@.len() > 0,
            old(self).current_song_index < usize::MAX,
        ensures
            final(self)@ == old(self)@.toggle_current_song(old(self).songs@.len() as int),
            final(self).same_setup(old(self)),
            old(self).wf() ==> final(self).wf(),
    {
        self.current_song_index = (self.current_song_index + 1) % self.songs.len();
        self.song_note_index = 0;
        self.fretboard_state.clear_ghost_notes();
    }

    /// Lets one tick pass at the time `now`.
    ///
    /// In the random mode a note of the fretboard window is drawn at random
    /// where nothing is to be played.
    pub fn tick(&mut self, now: u64)
        requires
            old(self).wf(),
            old(self).song_note_index < usize::MAX,
            old(self).random_mode_points < usize::MAX,
        ensures
            ticked(old(self)@, final(self)@, old(self).beats(), old(self).held(), now),
            final(self).same_setup(old(self)),
            final(self).wf(),
    {
        let spawned = if self.tab == Tab::Fretboard && self.fretboard_mode == FretboardMode::Random
            && self.fretboard_state.ghost_notes.len() == 0 {
            Some(generate_random_note(&self.fretboard_state.frets))
        } else {
            None
        };
        self.tick_with(now, spawned);
    }

    /// Lets one tick pass at the time `now`, with `spawned` as the random
    /// note to use where one is wanted. Without it no note is made.
    pub fn tick_with(&mut self, now: u64, spawned: Option<Note>)
        requires
            old(self).wf(),
            old(self).song_note_index < usize::MAX,
            old(self).random_mode_points < usize::MAX,
        ensures
            final(self)@ == old(self)@.tick(old(self).beats(), old(self).held(), now, spawned),
            final(self).same_setup(old(self)),
            final(self).wf(),
    {
        if self.tab == Tab::Fretboard && self.fretboard_mode == FretboardMode::Random {
            if self.fretboard_state.ghost_notes.len() == 0 {
                if let Some(note) = spawned {
                    self.fretboard_state.set_ghost_note(note);
                    self.last_random = now;
                    assert(self.fretboard_state.ghost_notes@ =~= seq![note]);
                }
            } else {
                let waited: u64 = if now >= self.last_random {
                    now - self.last_random
                } else {
                    0
                };
                if waited > MAX_RANDOM_INTERVAL {
                    if self.random_mode_points > 0 {
                        self.random_mode_points = self.random_mode_points - 1;
                    }
                    self.fretboard_state.clear_ghost_notes();
                }
            }
        }
        assert(self@ == old(self)@.tick_random(now, spawned));

        if self.tab == Tab::Fretboard && self.fretboard_mode == FretboardMode::Song
            && self.fretboard_state.ghost_notes.len() == 0 {
            let song = &self.songs[self.current_song_index];
            let at: usize = self.song_note_index % song.notes.len();
            let beat = copy_notes(&song.notes[at]);
            proof {
                assert(self.beats()[self.current_song_index as int] == song.beats());
                assert(song.beats()[at as int] == beat@);
                assert(self.fretboard_state.ghost_notes@ =~= Seq::<Note>::empty());
            }
            self.fretboard_state.set_ghost_notes(beat);
            self.song_note_index += 1;
        }
        assert(self@ == old(self)@.tick_random(now, spawned).tick_song(old(self).beats()));

        self.fretboard_state.clear_active_notes();
        if let Some((note, _)) = self.state.get_current_note() {
            if self.remove_ghost {
                if contains_note(&self.fretboard_state.ghost_notes, note) {
                    remove_note(&mut self.fretboard_state.ghost_notes, note);
                    if self.fretboard_mode == FretboardMode::Random {
                        self.random_mode_points += 1;
                    }
                }
            }
            if !contains_note(&self.fretboard_state.active_notes, note) {
                self.fretboard_state.active_notes.push(note);
            }
            assert(self.fretboard_state.active_notes@ =~= seq![note]);
        }
    }

    /// Handles a press of the buttons.
    pub fn handle_press(&mut self, button: Button)
        requires
            old(self).wf(),
        ensures
            final(self)@ == old(self)@.handle_press(button, old(self).songs@.len() as int),
            final(self).same_setup(old(self)),
            final(self).wf(),
    {
        if button == Button::Both && self.tab == Tab::Fretboard {
            if self.fretboard_mode == FretboardMode::Scale {
                self.toggle_current_root_note();
                self.set_scale_notes();
            } else if self.fretboard_mode == FretboardMode::Song {
                assert(self.songs.len() == self.songs@.len());
                self.toggle_current_song();
            }
            return ;
        }
        if button == Button::Mode(ButtonPressType::Long) || (button == Button::Mode(
            ButtonPressType::Short,
        ) && self.tab != Tab::Fretboard) {
            self.switch_input_mode();
            return ;
        }
        if button.is_menu() && button.is_short_press() {
            self.switch_tab();
            return ;
        }
        if button.is_mode() && button.is_short_press() && self.tab == Tab::Fretboard {
            self.switch_fretboard_mode();
            return ;
        }
        if button.is_menu() && button.is_long_press() && self.tab == Tab::Fretboard
            && self.fretboard_mode == FretboardMode::Scale {
            self.current_scale = self.current_scale.next();
            self.set_scale_notes();
        }
    }

    /// Handles an event at the time `now`.
    pub fn handle_event(&mut self, event: Event, now: u64)
        requires
            old(self).wf(),
            event is Tick ==> old(self).song_note_index < usize::MAX && old(self).random_mode_points
                < usize::MAX,
            event matches Event::UpdateControlValue(value) ==> old(self).tab == Tab::Fretboard
                ==> value <= old(self).max_control_value,
        ensures
            event is Tick ==> ticked(
                old(self)@,
                final(self)@,
                old(self).beats(),
                old(self).held(),
                now,
            ),
            !(event is Tick) ==> final(self)@ == old(self)@.handle_event(
                event,
                old(self).max_control_value,
            ),
            final(self).same_setup(old(self)),
            final(self).wf(),
    {
        match event {
            Event::Tick => {
                self.tick(now);
            },
            Event::SwitchTab => self.switch_tab(),
            Event::SwitchInputMode => self.switch_input_mode(),
            Event::UpdateControlValue(value) => {
                self.control_value = value;
                if self.tab == Tab::Fretboard {
                    self.scroll_fretboard();
                }
            },
            Event::ToggleRootNote => {
                self.toggle_current_root_note();
                self.set_scale_notes();
            },
        }
    }
}

/// A switch of the fretboard mode leads to the next mode, starts the song
/// over and clears the score. Nothing is left to play then, and played notes
/// leave again, except in the scale mode, which shows its scale and keeps it.
/// Four switches lead back to the mode they started from.
pub proof fn lemma_mode_switch_resets(view: ApplicationView)
    ensures
        view.switch_fretboard_mode().fretboard_mode == view.fretboard_mode.spec_next(),
        view.switch_fretboard_mode().song_note_index == 0,
        view.switch_fretboard_mode().random_mode_points == 0,
        view.switch_fretboard_mode().fretboard_mode != FretboardMode::Scale ==> {
            &&& view.switch_fretboard_mode().ghost_notes == Seq::<Note>::empty()
            &&& view.switch_fretboard_mode().remove_ghost
        },
        view.switch_fretboard_mode().fretboard_mode == FretboardMode::Scale
            ==> !view.switch_fretboard_mode().remove_ghost,
        view.fretboard_mode.spec_next().spec_next().spec_next().spec_next() == view.fretboard_mode,
{
}

/// The control puts the window between fret 0 and `MAX_FRET`, always
/// `WINDOW_SIZE` frets long: at 0 on the highest frets, at its greatest
/// value on the lowest.
pub proof fn lemma_scroll_window(view: ApplicationView, max_control_value: u16)
    requires
        max_control_value > 0,
        view.control_value <= max_control_value,
    ensures
        0 <= view.scrolled_start(max_control_value) <= MAX_FRET - WINDOW_SIZE,
        view.scroll_fretboard(max_control_value).last_fret == view.scroll_fretboard(
            max_control_value,
        ).first_fret + WINDOW_SIZE,
        view.scroll_fretboard(max_control_value).last_fret <= MAX_FRET,
        view.control_value == 0 ==> view.scrolled_start(max_control_value) == MAX_FRET
            - WINDOW_SIZE,
        view.control_value == max_control_value ==> view.scrolled_start(max_control_value) == 0,
{
    let control = view.control_value as int;
    let max = max_control_value as int;
    assert(0 <= control * 18 / max <= 18) by (nonlinear_arith)
        requires
            0 <= control <= max,
            max > 0,
    ;
    assert(max * 18 / max == 18) by (nonlinear_arith)
        requires
            max > 0,
    ;
}

/// The window moves one way only: a greater control value never puts it on
/// higher frets.
pub proof fn lemma_scroll_one_way(
    lower: ApplicationView,
    higher: ApplicationView,
    max_control_value: u16,
)
    requires
        max_control_value > 0,
        lower.control_value <= higher.control_value,
    ensures
        higher.scrolled_start(max_control_value) <= lower.scrolled_start(max_control_value),
{
    let a = lower.control_value as int;
    let b = higher.control_value as int;
    let max = max_control_value as int;
    assert(a * 18 / max <= b * 18 / max) by (nonlinear_arith)
        requires
            0 <= a <= b,
            max > 0,
    ;
}

/// In the live mode, with nothing to play, a tick leaves nothing to play,
/// and the active notes are the note that is held, or none.
pub proof fn lemma_tick_live(
    view: ApplicationView,
    songs: Seq<Seq<Seq<Note>>>,
    held: Option<Note>,
    now: u64,
    spawned: Option<Note>,
)
    requires
        view.fretboard_mode == FretboardMode::Live,
        view.ghost_notes == Seq::<Note>::empty(),
    ensures
        view.tick(songs, held, now, spawned) == (ApplicationView {
            active_notes: match held {
                Some(note) => seq![note],
                None => Seq::empty(),
            },
            ..view
        }),
{
}

/// In the scale mode, as the mode switch leaves it, a tick changes only the
/// active notes: the scale stays to be played, whatever is played.
pub proof fn lemma_tick_scale(
    view: ApplicationView,
    songs: Seq<Seq<Seq<Note>>>,
    held: Option<Note>,
    now: u64,
    spawned: Option<Note>,
)
    requires
        view.fretboard_mode == FretboardMode::Scale,
        !view.remove_ghost,
    ensures
        view.tick(songs, held, now, spawned) == (ApplicationView {
            active_notes: match held {
                Some(note) => seq![note],
                None => Seq::empty(),
            },
            ..view
        }),
{
}

/// In the random mode at most one note is to be played at a time, and the
/// score changes by one point at most in a tick.
pub proof fn lemma_tick_random(
    view: ApplicationView,
    songs: Seq<Seq<Seq<Note>>>,
    held: Option<Note>,
    now: u64,
    spawned: Option<Note>,
)
    requires
        view.fretboard_mode == FretboardMode::Random,
        view.ghost_notes.len() <= 1,
        view.random_mode_points < usize::MAX,
    ensures
        view.tick(songs, held, now, spawned).ghost_notes.len() <= 1,
        view.random_mode_points - 1 <= view.tick(songs, held, now, spawned).random_mode_points
            <= view.random_mode_points + 1,
        view.tick(songs, held, now, spawned).fretboard_mode == FretboardMode::Random,
{
    let after = view.tick_random(now, spawned).tick_song(songs);
    assert(after.ghost_notes.len() <= 1);
    if let Some(note) = held {
        if after.remove_ghost && after.ghost_notes.contains(note) {
            crate::fretboard::lemma_without_note(after.ghost_notes, note, note);
            assert(after.ghost_notes =~= seq![note]);
            assert(without_note(after.ghost_notes, note).len() == 0) by {
                if without_note(after.ghost_notes, note).len() > 0 {
                    let other = without_note(after.ghost_notes, note)[0];
                    crate::fretboard::lemma_without_note(after.ghost_notes, note, other);
                    assert(without_note(after.ghost_notes, note).contains(other));
                }
            }
        }
    }
}

} // verus!
