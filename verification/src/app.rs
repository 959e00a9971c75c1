//! The interface state: mode, tabs, the command line and its history, the
//! preview channels, and the audio engine; and the command processor that
//! turns a typed line into parameter writes.

use vstd::prelude::*;

use crate::audio::{AudioModel, AudioStream};
use crate::parameter::{parameter_at, parameter_index, Parameter};
use crate::store::{default_channel, waveform_at, write_state, written};
use crate::text::{
    lowercase, lowered, milli_of, parse_byte, parse_milli, token_eq, tokenize, tokens_of, trim,
    trimmed, views_of, whole_byte_of,
};
use crate::waveform::{waveform_index, WaveformState, WaveformType};

verus! {

/// How many tabs the interface cycles through.
pub const TAB_COUNT: usize = 3;

/// How many preview channels the canvas draws.
pub const WAVEFORMS_COUNT: usize = 2;

/// The sample rate the preview channels are synthesized at.
pub const PREVIEW_SAMPLE_RATE: u32 = 44100;

/// The interface mode.
#[derive(Debug, Copy, Clone, PartialEq, Eq, Structural)]
pub enum Mode {
    /// Keys act directly.
    Normal,
    /// Keys type into the command line.
    Command,
    /// Numeric entry.
    Keypad,
    /// The help popup is up.
    Help,
}

impl Default for Mode {
    fn default() -> (r: Self)
        ensures
            r == Mode::Normal,
    {
        Mode::Normal
    }
}

/// A warning shown in the status bar until the next key.
#[derive(Debug, Copy, Clone, PartialEq, Eq, Structural)]
pub enum Warning {
    UnknownCommand,
    NoParameter,
    InvalidFrequency,
    InvalidAmplitude,
    InvalidWaveform,
    ParameterNotImplemented,
}

impl Warning {
    /// The text the status bar shows for this warning.
    pub fn message(&self) -> (r: &'static str)
        ensures
            match *self {
                Warning::UnknownCommand => r@ == "Unknown command"@,
                Warning::NoParameter => r@ == "No parameter"@,
                Warning::InvalidFrequency => r@ == "Invalid frequency"@,
                Warning::InvalidAmplitude => r@ == "Invalid amplitude"@,
                Warning::InvalidWaveform => r@ == "Invalid waveform"@,
                Warning::ParameterNotImplemented => r@ == "Parameter not implemented"@,
            },
    {
        match *self {
            Warning::UnknownCommand => "Unknown command",
            Warning::NoParameter => "No parameter",
            Warning::InvalidFrequency => "Invalid frequency",
            Warning::InvalidAmplitude => "Invalid amplitude",
            Warning::InvalidWaveform => "Invalid waveform",
            Warning::ParameterNotImplemented => "Parameter not implemented",
        }
    }
}

/// The whole interface state as the contracts see it.
#[verifier::ext_equal]
pub ghost struct AppModel {
    pub should_quit: bool,
    pub tab_index: int,
    pub selected_parameter: Parameter,
    pub table_row: Option<int>,
    pub mode: Mode,
    pub command: Seq<char>,
    pub command_history: Seq<Seq<char>>,
    pub command_history_index: int,
    pub warning: Option<Warning>,
    pub waveform_previews: Seq<WaveformState>,
    pub selected_waveform: int,
    pub audio: AudioModel,
}

impl AppModel {
    /// The shape every reachable state keeps.
    pub open spec fn wf(self) -> bool {
        &&& 0 <= self.tab_index < TAB_COUNT
        &&& self.waveform_previews.len() == WAVEFORMS_COUNT
        &&& 0 <= self.selected_waveform < WAVEFORMS_COUNT
        &&& forall|i: int|
            0 <= i < self.waveform_previews.len() ==> (#[trigger] self.waveform_previews[i]).wf()
        &&& 1 <= self.command_history.len()
        &&& 0 <= self.command_history_index < self.command_history.len()
        &&& self.audio.wf()
    }

    /// Back to normal mode with an empty command line.
    pub open spec fn to_normal(self) -> AppModel {
        AppModel { mode: Mode::Normal, command: Seq::<char>::empty(), ..self }
    }

    /// Into command mode with an empty command line.
    pub open spec fn to_command(self) -> AppModel {
        AppModel { mode: Mode::Command, command: Seq::<char>::empty(), ..self }
    }

    /// With a warning up.
    pub open spec fn with_warning(self, w: Warning) -> AppModel {
        AppModel { warning: Some(w), ..self }
    }

    /// Selecting a tab: an index under the tab count moves the tab; an index
    /// under the preview count also selects that preview channel; anything
    /// else changes nothing.
    pub open spec fn tab_set(self, index: int) -> AppModel {
        let tab_index = if 0 <= index < TAB_COUNT {
            index
        } else {
            self.tab_index
        };
        let selected_waveform = if 0 <= index < self.waveform_previews.len() {
            index
        } else {
            self.selected_waveform
        };
        AppModel { tab_index, selected_waveform, ..self }
    }

    /// Selecting a parameter row.
    pub open spec fn parameter_selected(self, p: Parameter) -> AppModel {
        AppModel { selected_parameter: p, table_row: Some(parameter_index(p)), ..self }
    }

    /// Setting one parameter of the selected channel, preview and audio store
    /// together: frequency, amplitude and the waveform number are written as
    /// the store writes them; a rejected waveform number changes nothing; the
    /// remaining parameters only raise the not-implemented warning.
    pub open spec fn parameter_set(self, parameter: Parameter, value: i64) -> AppModel {
        match parameter {
            Parameter::Frequency | Parameter::Amplitude | Parameter::Waveform => {
                match written(self.waveform_previews[self.selected_waveform], parameter, value) {
                    Some(next) => {
                        let store = self.audio.store;
                        let store2 = if 0 <= self.selected_waveform < store.len() {
                            match written(store[self.selected_waveform], parameter, value) {
                                Some(snext) => store.update(self.selected_waveform, snext),
                                None => store,
                            }
                        } else {
                            store
                        };
                        AppModel {
                            waveform_previews: self.waveform_previews.update(
                                self.selected_waveform,
                                next,
                            ),
                            audio: AudioModel { store: store2, ..self.audio },
                            ..self
                        }
                    },
                    None => self,
                }
            },
            _ => self.with_warning(Warning::ParameterNotImplemented),
        }
    }
}

/// The state the interface starts in: first tab, frequency row selected,
/// normal mode, two sine preview channels at 440 and 880 hertz, and an
/// unopened audio engine.
pub open spec fn initial_app() -> AppModel {
    AppModel {
        should_quit: false,
        tab_index: 0,
        selected_parameter: Parameter::Frequency,
        table_row: Some(0),
        mode: Mode::Normal,
        command: Seq::<char>::empty(),
        command_history: seq![Seq::<char>::empty()],
        command_history_index: 0,
        warning: None,
        waveform_previews: Seq::new(
            WAVEFORMS_COUNT as nat,
            |i: int| default_channel(PREVIEW_SAMPLE_RATE, i),
        ),
        selected_waveform: 0,
        audio: AudioModel {
            store: Seq::<WaveformState>::empty(),
            state: crate::audio::StreamPhase::Uninitialized,
            channels: 0,
            sample_rate: 0,
            last_error: None,
        },
    }
}

/// The interface state.
pub struct App {
    /// The main loop stops when this is set.
    pub should_quit: bool,
    /// The tab shown.
    pub tab_index: usize,
    /// The parameter the table highlights.
    pub selected_parameter: Parameter,
    /// The highlighted table row (models the table widget's selection).
    pub table_row: Option<usize>,
    /// The interface mode.
    pub mode: Mode,
    /// The command line being typed, without the leading colon.
    pub command: Vec<char>,
    /// Past commands; entry 0 is the empty scratch line, newer entries
    /// stand earlier.
    pub command_history: Vec<Vec<char>>,
    /// Where history recall stands; 0 is the scratch line.
    pub command_history_index: usize,
    /// The warning the status bar shows, if any.
    pub warning: Option<Warning>,
    /// The channels the preview canvas synthesizes from.
    pub waveform_previews: Vec<WaveformState>,
    /// Which preview channel edits apply to.
    pub selected_waveform: usize,
    /// The audio engine.
    pub audio: AudioStream,
}

impl View for App {
    type V = AppModel;

    open spec fn view(&self) -> AppModel {
        AppModel {
            should_quit: self.should_quit,
            tab_index: self.tab_index as int,
            selected_parameter: self.selected_parameter,
            table_row: match self.table_row {
                Some(r) => Some(r as int),
                None => None,
            },
            mode: self.mode,
            command: self.command@,
            command_history: views_of(self.command_history@),
            command_history_index: self.command_history_index as int,
            warning: self.warning,
            waveform_previews: self.waveform_previews@,
            selected_waveform: self.selected_waveform as int,
            audio: self.audio@,
        }
    }
}

impl App {
    /// A fresh interface.
    pub fn new() -> (app: Self)
        ensures
            app@ == initial_app(),
            app@.wf(),
    {
        let mut waveform_previews: Vec<WaveformState> = Vec::new();
        waveform_previews.push(WaveformState::new(PREVIEW_SAMPLE_RATE, 440000));
        waveform_previews.push(WaveformState::new(PREVIEW_SAMPLE_RATE, 880000));
        let mut command_history: Vec<Vec<char>> = Vec::new();
        command_history.push(Vec::new());
        let app = App {
            should_quit: false,
            tab_index: 0,
            selected_parameter: Parameter::Frequency,
            table_row: Some(0),
            mode: Mode::Normal,
            command: Vec::new(),
            command_history,
            command_history_index: 0,
            warning: None,
            waveform_previews,
            selected_waveform: 0,
            audio: AudioStream::default(),
        };
        proof {
            assert(app@.waveform_previews =~= initial_app().waveform_previews);
            assert(app@.command_history =~= initial_app().command_history);
            assert(app@.command =~= initial_app().command);
            assert(app@ =~= initial_app());
        }
        app
    }

    /// The periodic tick; the interface state does not change with time.
    pub fn tick(&self)
    {
    }

    /// Ask the main loop to stop.
    pub fn quit(&mut self)
        ensures
            final(self)@ == (AppModel { should_quit: true, ..old(self)@ }),
    {
        self.should_quit = true;
    }

    /// Select a tab by index; out-of-range indices change nothing.
    pub fn set_tab(&mut self, index: usize)
        ensures
            final(self)@ == old(self)@.tab_set(index as int),
    {
        if index < TAB_COUNT {
            self.tab_index = index;
        }
        if index < self.waveform_previews.len() {
            self.selected_waveform = index;
        }
    }

    /// The tab after the current one, wrapping.
    pub fn next_tab(&mut self)
        requires
            old(self)@.wf(),
        ensures
            final(self)@ == old(self)@.tab_set((old(self)@.tab_index + 1) % (TAB_COUNT as int)),
    {
        let index = (self.tab_index + 1) % TAB_COUNT;
        self.set_tab(index);
    }

    /// The tab before the current one, wrapping.
    pub fn previous_tab(&mut self)
        requires
            old(self)@.wf(),
        ensures
            final(self)@ == old(self)@.tab_set(
                if old(self)@.tab_index > 0 {
                    old(self)@.tab_index - 1
                } else {
                    TAB_COUNT - 1
                },
            ),
    {
        if self.tab_index > 0 {
            let index = self.tab_index - 1;
            self.set_tab(index);
        } else {
            self.set_tab(TAB_COUNT - 1);
        }
    }

    /// Highlight the next parameter row, wrapping.
    pub fn next_parameter(&mut self)
        ensures
            final(self)@ == old(self)@.parameter_selected(
                parameter_at((parameter_index(old(self)@.selected_parameter) + 1) % 6),
            ),
    {
        self.selected_parameter = self.selected_parameter.next();
        let value = self.selected_parameter.index();
        self.table_row = Some(value);
    }

    /// Highlight the previous parameter row, wrapping.
    pub fn previous_parameter(&mut self)
        ensures
            final(self)@ == old(self)@.parameter_selected(
                parameter_at((parameter_index(old(self)@.selected_parameter) + 5) % 6),
            ),
    {
        self.selected_parameter = self.selected_parameter.previous();
        let value = self.selected_parameter.index();
        self.table_row = Some(value);
    }

    /// Back to normal mode; the command line empties.
    pub fn set_normal_mode(&mut self)
        ensures
            final(self)@ == old(self)@.to_normal(),
    {
        self.mode = Mode::Normal;
        self.command.clear();
    }

    /// Put the help popup up.
    pub fn set_help_mode(&mut self)
        ensures
            final(self)@ == (AppModel { mode: Mode::Help, ..old(self)@ }),
    {
        self.mode = Mode::Help;
    }

    /// Into command mode; the command line empties.
    pub fn set_command_mode(&mut self)
        ensures
            final(self)@ == old(self)@.to_command(),
    {
        self.mode = Mode::Command;
        self.command.clear();
    }

    /// Show a warning in the status bar.
    pub fn set_warning(&mut self, warning: Warning)
        ensures
            final(self)@ == old(self)@.with_warning(warning),
    {
        self.warning = Some(warning);
    }

    /// Take the warning down.
    pub fn clear_warning(&mut self)
        ensures
            final(self)@ == (AppModel { warning: None, ..old(self)@ }),
    {
        self.warning = None;
    }

    /// Type one character into the command line; only letters, digits and
    /// the characters a command can hold are taken.
    pub fn push_command_char(&mut self, c: char)
        ensures
            final(self)@ == if pushable_char(c) {
                AppModel { command: old(self)@.command.push(c), ..old(self)@ }
            } else {
                old(self)@
            },
    {
        if c == ' ' || c == ',' || c == '.' || c == '-' || c == '+' {
            self.command.push(c);
        } else if c.is_alphanumeric() {
            self.command.push(c);
        }
    }

    /// Erase the last typed character, if any.
    pub fn pop_command_char(&mut self)
        ensures
            final(self)@ == (AppModel {
                command: if old(self)@.command.len() > 0 {
                    old(self)@.command.drop_last()
                } else {
                    old(self)@.command
                },
                ..old(self)@
            }),
    {
        let _ = self.command.pop();
    }

    /// Recall the next older history entry into the command line.
    pub fn command_history_last(&mut self)
        ensures
            final(self)@ == old(self)@.history_recalled_back(),
    {
        if self.command_history.len() == 0 {
            return;
        }
        if self.command_history_index < self.command_history.len() - 1 {
            self.command_history_index = self.command_history_index + 1;
            self.command = self.command_history[self.command_history_index].clone();
        }
    }

    /// Recall the next newer history entry into the command line.
    pub fn command_history_next(&mut self)
        requires
            old(self)@.wf(),
        ensures
            final(self)@ == old(self)@.history_recalled_forward(),
    {
        if self.command_history.len() == 0 {
            return;
        }
        if self.command_history_index > 0 {
            self.command_history_index = self.command_history_index - 1;
            self.command = self.command_history[self.command_history_index].clone();
        }
    }

    /// Step the selected channel's highlighted parameter up: frequency and
    /// amplitude by one whole unit, the waveform to the next shape (stopping
    /// at the last); other parameters only raise the not-implemented
    /// warning. Only the preview channel moves; a running stream keeps its
    /// sound until a set command commits a value.
    pub fn increase_parameter_value(&mut self, parameter: Parameter)
        requires
            old(self)@.wf(),
        ensures
            final(self)@ == old(self)@.increased(parameter),
            final(self)@.wf(),
    {
        let sel = self.selected_waveform;
        match parameter {
            Parameter::Frequency => {
                let cur = self.waveform_previews[sel];
                let f: i64 = if cur.frequency <= i64::MAX - 1000 {
                    cur.frequency + 1000
                } else {
                    cur.frequency
                };
                self.waveform_previews[sel] = WaveformState { frequency: f, ..cur };
            }
            Parameter::Amplitude => {
                let cur = self.waveform_previews[sel];
                let a: i64 = if cur.amplitude <= i64::MAX - 1000 {
                    cur.amplitude + 1000
                } else {
                    cur.amplitude
                };
                self.waveform_previews[sel] = WaveformState { amplitude: a, ..cur };
            }
            Parameter::Waveform => {
                let cur = self.waveform_previews[sel];
                let index = cur.waveform_type.index();
                match WaveformType::from_index(index + 1) {
                    Some(t) => {
                        self.waveform_previews[sel] = WaveformState { waveform_type: t, ..cur };
                        proof {
                            assert(t == waveform_at(waveform_index(cur.waveform_type) + 1));
                        }
                    }
                    None => {}
                }
            }
            _ => {
                self.set_warning(Warning::ParameterNotImplemented);
            }
        }
        proof {
            assert(self@ =~= old(self)@.increased(parameter));
            assert forall|i: int| 0 <= i < self@.waveform_previews.len() implies (
            #[trigger] self@.waveform_previews[i]).wf() by {
                assert(old(self)@.waveform_previews[i].wf());
            }
        }
    }

    /// Commit one parameter value, in thousandths, to the selected channel:
    /// the preview and the audio store together, so the next synthesized
    /// sample on either side sees it. A rejected waveform number changes
    /// nothing; parameters the commands cannot set only raise the
    /// not-implemented warning.
    pub fn set_parameter_value(&mut self, parameter: Parameter, value: i64)
        requires
            old(self)@.wf(),
        ensures
            final(self)@ == old(self)@.parameter_set(parameter, value),
            final(self)@.wf(),
    {
        match parameter {
            Parameter::Frequency | Parameter::Amplitude | Parameter::Waveform => {
                let sel = self.selected_waveform;
                let cur = self.waveform_previews[sel];
                match write_state(&cur, parameter, value) {
                    Some(next) => {
                        self.waveform_previews[sel] = next;
                        let _ = self.audio.store.write(sel, parameter, value);
                    }
                    None => {}
                }
            }
            _ => {
                self.set_warning(Warning::ParameterNotImplemented);
            }
        }
        proof {
            assert(self@ =~= old(self)@.parameter_set(parameter, value));
            assert forall|i: int| 0 <= i < self@.waveform_previews.len() implies (
            #[trigger] self@.waveform_previews[i]).wf() by {
                assert(old(self)@.waveform_previews[i].wf());
            }
        }
    }

    /// Run the typed command: the line is normalized (trimmed, lowercased),
    /// remembered in the history when not empty, and dispatched — quit,
    /// help, or a parameter write with its value; anything else raises a
    /// warning. The interface is back in normal mode afterwards, except that
    /// help leaves the help popup up.
    pub fn process_command(&mut self)
        requires
            old(self)@.wf(),
        ensures
            final(self)@ == old(self)@.processed(),
            final(self)@.wf(),
    {
        let ghost m0 = old(self)@;
        let ghost normg = lowered(trimmed(m0.command));
        let ghost hist = if normg.len() > 0 {
            AppModel {
                command_history: m0.command_history.insert(1, normg),
                command_history_index: 0,
                ..m0
            }
        } else {
            m0
        };
        let ghost base = AppModel { command: Seq::<char>::empty(), ..hist };
        let trimmed_line = trim(&self.command);
        let norm = lowercase(&trimmed_line);
        self.command.clear();
        if norm.len() > 0 {
            let stored = norm.clone();
            self.command_history.insert(1, stored);
            self.command_history_index = 0;
        }
        proof {
            assert(self@ =~= base);
        }
        let toks = tokenize(&norm);
        let ghost toksg = tokens_of(normg);
        proof {
            assert(toksg == views_of(toks@));
            assert(toksg.len() == toks@.len());
            if toks@.len() > 0 {
                assert(toksg[0] == toks@[0]@);
            }
            if toks@.len() > 1 {
                assert(toksg[1] == toks@[1]@);
            }
        }
        if toks.len() == 0 {
            self.set_warning(Warning::UnknownCommand);
            self.set_normal_mode();
            proof {
                assert(self@ =~= old(self)@.processed());
            }
            return;
        }
        if is_quit_tok(&toks[0]) {
            self.quit();
            self.set_normal_mode();
        } else if is_help_tok(&toks[0]) {
            self.set_help_mode();
            proof {
                assert(self@ =~= old(self)@.processed());
            }
            return;
        } else if is_freq_tok(&toks[0]) {
            if toks.len() > 1 {
                match parse_milli(&toks[1]) {
                    Some(v) => self.set_parameter_value(Parameter::Frequency, v),
                    None => self.set_warning(Warning::InvalidFrequency),
                }
            } else {
                self.set_warning(Warning::NoParameter);
            }
            self.set_normal_mode();
        } else if is_amp_tok(&toks[0]) {
            if toks.len() > 1 {
                match parse_milli(&toks[1]) {
                    Some(v) => self.set_parameter_value(Parameter::Amplitude, v),
                    None => self.set_warning(Warning::InvalidAmplitude),
                }
            } else {
                self.set_warning(Warning::NoParameter);
            }
            self.set_normal_mode();
        } else if is_wave_tok(&toks[0]) {
            if toks.len() > 1 {
                match parse_byte(&toks[1]) {
                    Some(n) => self.set_parameter_value(Parameter::Waveform, (n as i64) * 1000),
                    None => match wave_name_tok(&toks[1]) {
                        Some(k) => self.set_parameter_value(
                            Parameter::Waveform,
                            (k as i64) * 1000,
                        ),
                        None => self.set_warning(Warning::InvalidWaveform),
                    },
                }
            } else {
                self.set_warning(Warning::NoParameter);
            }
            self.set_normal_mode();
        } else {
            self.set_warning(Warning::UnknownCommand);
            self.set_normal_mode();
        }
        proof {
            assert(self@ =~= old(self)@.processed());
        }
    }
}

/// Whether the token is one of the quit words.
fn is_quit_tok(t: &Vec<char>) -> (b: bool)
    ensures
        b == is_quit_word(t@),
{
    let k1: Vec<char> = vec!['q'];
    let k2: Vec<char> = vec!['q', 'u', 'i', 't'];
    let k3: Vec<char> = vec!['e', 'x', 'i', 't'];
    proof {
        assert(k1@ =~= seq!['q']);
        assert(k2@ =~= seq!['q', 'u', 'i', 't']);
        assert(k3@ =~= seq!['e', 'x', 'i', 't']);
    }
    token_eq(t, &k1) || token_eq(t, &k2) || token_eq(t, &k3)
}

/// Whether the token is one of the help words.
fn is_help_tok(t: &Vec<char>) -> (b: bool)
    ensures
        b == is_help_word(t@),
{
    let k1: Vec<char> = vec!['h'];
    let k2: Vec<char> = vec!['h', 'e', 'l', 'p'];
    proof {
        assert(k1@ =~= seq!['h']);
        assert(k2@ =~= seq!['h', 'e', 'l', 'p']);
    }
    token_eq(t, &k1) || token_eq(t, &k2)
}

/// Whether the token is one of the frequency words.
fn is_freq_tok(t: &Vec<char>) -> (b: bool)
    ensures
        b == is_freq_word(t@),
{
    let k1: Vec<char> = vec!['f'];
    let k2: Vec<char> = vec!['f', 'r', 'e', 'q'];
    let k3: Vec<char> = vec!['f', 'r', 'e', 'q', 'u', 'e', 'n', 'c', 'y'];
    proof {
        assert(k1@ =~= seq!['f']);
        assert(k2@ =~= seq!['f', 'r', 'e', 'q']);
        assert(k3@ =~= seq!['f', 'r', 'e', 'q', 'u', 'e', 'n', 'c', 'y']);
    }
    token_eq(t, &k1) || token_eq(t, &k2) || token_eq(t, &k3)
}

/// Whether the token is one of the amplitude words.
fn is_amp_tok(t: &Vec<char>) -> (b: bool)
    ensures
        b == is_amp_word(t@),
{
    let k1: Vec<char> = vec!['a'];
    let k2: Vec<char> = vec!['a', 'm', 'p'];
    let k3: Vec<char> = vec!['a', 'm', 'p', 'l', 'i', 't', 'u', 'd', 'e'];
    proof {
        assert(k1@ =~= seq!['a']);
        assert(k2@ =~= seq!['a', 'm', 'p']);
        assert(k3@ =~= seq!['a', 'm', 'p', 'l', 'i', 't', 'u', 'd', 'e']);
    }
    token_eq(t, &k1) || token_eq(t, &k2) || token_eq(t, &k3)
}

/// Whether the token is one of the waveform words.
fn is_wave_tok(t: &Vec<char>) -> (b: bool)
    ensures
        b == is_wave_word(t@),
{
    let k1: Vec<char> = vec!['w'];
    let k2: Vec<char> = vec!['w', 'a', 'v', 'e'];
    let k3: Vec<char> = vec!['w', 'a', 'v', 'e', 'f', 'o', 'r', 'm'];
    proof {
        assert(k1@ =~= seq!['w']);
        assert(k2@ =~= seq!['w', 'a', 'v', 'e']);
        assert(k3@ =~= seq!['w', 'a', 'v', 'e', 'f', 'o', 'r', 'm']);
    }
    token_eq(t, &k1) || token_eq(t, &k2) || token_eq(t, &k3)
}

/// The 1-based number of the waveform the token names, if any.
fn wave_name_tok(t: &Vec<char>) -> (r: Option<u8>)
    ensures
        match r {
            Some(n) => wave_name_number(t@) == Some(n as int),
            None => wave_name_number(t@) is None,
        },
{
    let k1: Vec<char> = vec!['s', 'i', 'n', 'e'];
    let k2: Vec<char> = vec!['s', 'q', 'u', 'a', 'r', 'e'];
    let k3: Vec<char> = vec!['t', 'r', 'i', 'a', 'n', 'g', 'l', 'e'];
    let k4: Vec<char> = vec!['s', 'a', 'w', 't', 'o', 'o', 't', 'h'];
    let k5: Vec<char> = vec!['n', 'o', 'i', 's', 'e'];
    proof {
        assert(k1@ =~= seq!['s', 'i', 'n', 'e']);
        assert(k2@ =~= seq!['s', 'q', 'u', 'a', 'r', 'e']);
        assert(k3@ =~= seq!['t', 'r', 'i', 'a', 'n', 'g', 'l', 'e']);
        assert(k4@ =~= seq!['s', 'a', 'w', 't', 'o', 'o', 't', 'h']);
        assert(k5@ =~= seq!['n', 'o', 'i', 's', 'e']);
    }
    if token_eq(t, &k1) {
        Some(1)
    } else if token_eq(t, &k2) {
        Some(2)
    } else if token_eq(t, &k3) {
        Some(3)
    } else if token_eq(t, &k4) {
        Some(4)
    } else if token_eq(t, &k5) {
        Some(5)
    } else {
        None
    }
}

/// The characters the command line takes: letters and digits, and the
/// punctuation a command can hold.
pub open spec fn pushable_char(c: char) -> bool {
    ||| crate::text::char_is_alphanumeric(c)
    ||| c == ' '
    ||| c == ','
    ||| c == '.'
    ||| c == '-'
    ||| c == '+'
}

/// The words that quit.
pub open spec fn is_quit_word(t: Seq<char>) -> bool {
    t == seq!['q'] || t == seq!['q', 'u', 'i', 't'] || t == seq!['e', 'x', 'i', 't']
}

/// The words that open help.
pub open spec fn is_help_word(t: Seq<char>) -> bool {
    t == seq!['h'] || t == seq!['h', 'e', 'l', 'p']
}

/// The words that set the frequency.
pub open spec fn is_freq_word(t: Seq<char>) -> bool {
    t == seq!['f'] || t == seq!['f', 'r', 'e', 'q'] || t == seq![
        'f',
        'r',
        'e',
        'q',
        'u',
        'e',
        'n',
        'c',
        'y',
    ]
}

/// The words that set the amplitude.
pub open spec fn is_amp_word(t: Seq<char>) -> bool {
    t == seq!['a'] || t == seq!['a', 'm', 'p'] || t == seq![
        'a',
        'm',
        'p',
        'l',
        'i',
        't',
        'u',
        'd',
        'e',
    ]
}

/// The words that set the waveform.
pub open spec fn is_wave_word(t: Seq<char>) -> bool {
    t == seq!['w'] || t == seq!['w', 'a', 'v', 'e'] || t == seq![
        'w',
        'a',
        'v',
        'e',
        'f',
        'o',
        'r',
        'm',
    ]
}

/// The 1-based number of a waveform named by word, if any.
pub open spec fn wave_name_number(t: Seq<char>) -> Option<int> {
    if t == seq!['s', 'i', 'n', 'e'] {
        Some(1int)
    } else if t == seq!['s', 'q', 'u', 'a', 'r', 'e'] {
        Some(2int)
    } else if t == seq!['t', 'r', 'i', 'a', 'n', 'g', 'l', 'e'] {
        Some(3int)
    } else if t == seq!['s', 'a', 'w', 't', 'o', 'o', 't', 'h'] {
        Some(4int)
    } else if t == seq!['n', 'o', 'i', 's', 'e'] {
        Some(5int)
    } else {
        None
    }
}

impl AppModel {
    /// Recalling backwards through the history (towards older commands).
    pub open spec fn history_recalled_back(self) -> AppModel {
        if self.command_history.len() == 0 {
            self
        } else if self.command_history_index < self.command_history.len() - 1 {
            AppModel {
                command_history_index: self.command_history_index + 1,
                command: self.command_history[self.command_history_index + 1],
                ..self
            }
        } else {
            self
        }
    }

    /// Recalling forwards through the history (towards the scratch line).
    pub open spec fn history_recalled_forward(self) -> AppModel {
        if self.command_history.len() == 0 {
            self
        } else if self.command_history_index > 0 {
            AppModel {
                command_history_index: self.command_history_index - 1,
                command: self.command_history[self.command_history_index - 1],
                ..self
            }
        } else {
            self
        }
    }

    /// A frequency or amplitude stepped up by one whole unit, held at the
    /// top of the range instead of wrapping.
    pub open spec fn bump_milli(v: i64) -> i64 {
        if v <= i64::MAX - 1000 {
            (v + 1000) as i64
        } else {
            v
        }
    }

    /// Stepping the selected channel's parameter up, preview only.
    pub open spec fn increased(self, parameter: Parameter) -> AppModel {
        let cur = self.waveform_previews[self.selected_waveform];
        match parameter {
            Parameter::Frequency => AppModel {
                waveform_previews: self.waveform_previews.update(
                    self.selected_waveform,
                    WaveformState { frequency: AppModel::bump_milli(cur.frequency), ..cur },
                ),
                ..self
            },
            Parameter::Amplitude => AppModel {
                waveform_previews: self.waveform_previews.update(
                    self.selected_waveform,
                    WaveformState { amplitude: AppModel::bump_milli(cur.amplitude), ..cur },
                ),
                ..self
            },
            Parameter::Waveform => {
                if waveform_index(cur.waveform_type) + 1 <= 4 {
                    AppModel {
                        waveform_previews: self.waveform_previews.update(
                            self.selected_waveform,
                            WaveformState {
                                waveform_type: waveform_at(waveform_index(cur.waveform_type) + 1),
                                ..cur
                            },
                        ),
                        ..self
                    }
                } else {
                    self
                }
            },
            _ => self.with_warning(Warning::ParameterNotImplemented),
        }
    }

    /// Running a whole command line: normalize, remember, dispatch.
    pub open spec fn processed(self) -> AppModel {
        let norm = lowered(trimmed(self.command));
        let toks = tokens_of(norm);
        let hist = if norm.len() > 0 {
            AppModel {
                command_history: self.command_history.insert(1, norm),
                command_history_index: 0,
                ..self
            }
        } else {
            self
        };
        let base = AppModel { command: Seq::<char>::empty(), ..hist };
        if toks.len() == 0 {
            base.with_warning(Warning::UnknownCommand).to_normal()
        } else if is_quit_word(toks[0]) {
            AppModel { should_quit: true, ..base }.to_normal()
        } else if is_help_word(toks[0]) {
            AppModel { mode: Mode::Help, ..base }
        } else if is_freq_word(toks[0]) {
            if toks.len() > 1 {
                match milli_of(toks[1]) {
                    Some(v) => base.parameter_set(Parameter::Frequency, v as i64).to_normal(),
                    None => base.with_warning(Warning::InvalidFrequency).to_normal(),
                }
            } else {
                base.with_warning(Warning::NoParameter).to_normal()
            }
        } else if is_amp_word(toks[0]) {
            if toks.len() > 1 {
                match milli_of(toks[1]) {
                    Some(v) => base.parameter_set(Parameter::Amplitude, v as i64).to_normal(),
                    None => base.with_warning(Warning::InvalidAmplitude).to_normal(),
                }
            } else {
                base.with_warning(Warning::NoParameter).to_normal()
            }
        } else if is_wave_word(toks[0]) {
            if toks.len() > 1 {
                match whole_byte_of(toks[1]) {
                    Some(n) => base.parameter_set(
                        Parameter::Waveform,
                        (n * 1000) as i64,
                    ).to_normal(),
                    None => match wave_name_number(toks[1]) {
                        Some(k) => base.parameter_set(
                            Parameter::Waveform,
                            (k * 1000) as i64,
                        ).to_normal(),
                        None => base.with_warning(Warning::InvalidWaveform).to_normal(),
                    },
                }
            } else {
                base.with_warning(Warning::NoParameter).to_normal()
            }
        } else {
            base.with_warning(Warning::UnknownCommand).to_normal()
        }
    }
}

} // verus!
