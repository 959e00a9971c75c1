use signalgen::app::{App, Mode, Warning};
use signalgen::event::{Event, KeyCode, KeyEvent, KeyEventKind, Modifiers, MouseEvent};
use signalgen::parameter::Parameter;
use signalgen::update::{dispatch, update};
use signalgen::waveform::WaveformType;

fn plain_key(code: KeyCode) -> KeyEvent {
    KeyEvent {
        code,
        modifiers: Modifiers { ctrl: false, alt: false, shift: false },
        kind: KeyEventKind::Press,
    }
}

fn type_line(app: &mut App, line: &str) {
    for c in line.chars() {
        app.push_command_char(c);
    }
}

#[test]
fn test_app_quit() {
    let mut app = App::new();
    assert_eq!(app.should_quit, false);
    app.quit();
    assert_eq!(app.should_quit, true);
}

#[test]
fn test_app_next_tab() {
    let mut app = App::new();
    assert_eq!(app.tab_index, 0);
    app.next_tab();
    assert_eq!(app.tab_index, 1);
    app.next_tab();
    assert_eq!(app.tab_index, 2);
    app.next_tab();
    assert_eq!(app.tab_index, 0);
    app.next_tab();
    assert_eq!(app.tab_index, 1);
}

#[test]
fn test_app_previous_tab() {
    let mut app = App::new();
    assert_eq!(app.tab_index, 0);
    app.previous_tab();
    assert_eq!(app.tab_index, 2);
    app.previous_tab();
    assert_eq!(app.tab_index, 1);
    app.previous_tab();
    assert_eq!(app.tab_index, 0);
    app.previous_tab();
    assert_eq!(app.tab_index, 2);
}

#[test]
fn test_app_set_tab() {
    let mut app = App::new();
    assert_eq!(app.tab_index, 0);
    app.set_tab(2);
    assert_eq!(app.tab_index, 2);
    app.set_tab(5);
    assert_eq!(app.tab_index, 2);
}

#[test]
fn new_app_defaults() {
    let app = App::new();
    assert_eq!(app.mode, Mode::Normal);
    assert_eq!(app.selected_parameter, Parameter::Frequency);
    assert_eq!(app.table_row, Some(0));
    assert_eq!(app.selected_waveform, 0);
    assert_eq!(app.command.len(), 0);
    assert_eq!(app.command_history.len(), 1);
    assert!(app.warning.is_none());
    assert_eq!(app.waveform_previews.len(), 2);
    assert_eq!(app.waveform_previews[0].frequency, 440_000);
    assert_eq!(app.waveform_previews[1].frequency, 880_000);
    assert_eq!(app.waveform_previews[0].waveform_type, WaveformType::Sine);
}

#[test]
fn parameter_row_selection_moves_both_ways() {
    let mut app = App::new();
    app.next_parameter();
    assert_eq!(app.selected_parameter, Parameter::Amplitude);
    assert_eq!(app.table_row, Some(1));
    app.previous_parameter();
    assert_eq!(app.selected_parameter, Parameter::Frequency);
    assert_eq!(app.table_row, Some(0));
    app.previous_parameter();
    assert_eq!(app.selected_parameter, Parameter::Pan);
    assert_eq!(app.table_row, Some(5));
}

#[test]
fn command_frequency_sets_preview_value() {
    let mut app = App::new();
    app.set_command_mode();
    type_line(&mut app, "f 1000");
    app.process_command();
    assert_eq!(app.waveform_previews[0].frequency, 1_000_000);
    assert_eq!(app.mode, Mode::Normal);
    assert!(app.warning.is_none());
}

#[test]
fn command_fractional_frequency_keeps_thousandths() {
    let mut app = App::new();
    app.set_command_mode();
    type_line(&mut app, "freq 440.5");
    app.process_command();
    assert_eq!(app.waveform_previews[0].frequency, 440_500);
}

#[test]
fn command_amplitude_sets_preview_value() {
    let mut app = App::new();
    app.set_command_mode();
    type_line(&mut app, "amp 0.5");
    app.process_command();
    assert_eq!(app.waveform_previews[0].amplitude, 500);
}

#[test]
fn command_waveform_by_number_and_name() {
    let mut app = App::new();
    app.set_command_mode();
    type_line(&mut app, "w 2");
    app.process_command();
    assert_eq!(app.waveform_previews[0].waveform_type, WaveformType::Square);
    app.set_command_mode();
    type_line(&mut app, "wave sawtooth");
    app.process_command();
    assert_eq!(app.waveform_previews[0].waveform_type, WaveformType::Sawtooth);
}

#[test]
fn command_waveform_number_out_of_range_is_ignored() {
    let mut app = App::new();
    app.set_command_mode();
    type_line(&mut app, "w 9");
    app.process_command();
    assert_eq!(app.waveform_previews[0].waveform_type, WaveformType::Sine);
    assert!(app.warning.is_none());
    app.set_command_mode();
    type_line(&mut app, "w 0");
    app.process_command();
    assert_eq!(app.waveform_previews[0].waveform_type, WaveformType::Sine);
}

#[test]
fn command_errors_raise_the_right_warnings() {
    let mut app = App::new();
    app.set_command_mode();
    type_line(&mut app, "bogus");
    app.process_command();
    assert_eq!(app.warning, Some(Warning::UnknownCommand));

    app.set_command_mode();
    app.process_command();
    assert_eq!(app.warning, Some(Warning::UnknownCommand));

    app.set_command_mode();
    type_line(&mut app, "f");
    app.process_command();
    assert_eq!(app.warning, Some(Warning::NoParameter));

    app.set_command_mode();
    type_line(&mut app, "f abc");
    app.process_command();
    assert_eq!(app.warning, Some(Warning::InvalidFrequency));

    app.set_command_mode();
    type_line(&mut app, "a abc");
    app.process_command();
    assert_eq!(app.warning, Some(Warning::InvalidAmplitude));

    app.set_command_mode();
    type_line(&mut app, "w x");
    app.process_command();
    assert_eq!(app.warning, Some(Warning::InvalidWaveform));
}

#[test]
fn command_quit_and_help() {
    let mut app = App::new();
    app.set_command_mode();
    type_line(&mut app, "quit");
    app.process_command();
    assert!(app.should_quit);

    let mut app = App::new();
    app.set_command_mode();
    type_line(&mut app, "help");
    app.process_command();
    assert_eq!(app.mode, Mode::Help);
}

#[test]
fn command_uppercase_is_normalized() {
    let mut app = App::new();
    app.set_command_mode();
    type_line(&mut app, "  FREQ 250  ");
    app.process_command();
    assert_eq!(app.waveform_previews[0].frequency, 250_000);
}

#[test]
fn command_history_recall() {
    let mut app = App::new();
    app.set_command_mode();
    type_line(&mut app, "f 100");
    app.process_command();
    app.set_command_mode();
    type_line(&mut app, "a 2");
    app.process_command();

    app.set_command_mode();
    app.command_history_last();
    let recalled: String = app.command.iter().collect();
    assert_eq!(recalled, "a 2");
    app.command_history_last();
    let recalled: String = app.command.iter().collect();
    assert_eq!(recalled, "f 100");
    app.command_history_next();
    let recalled: String = app.command.iter().collect();
    assert_eq!(recalled, "a 2");
}

#[test]
fn increase_parameter_steps_preview_only() {
    let mut app = App::new();
    app.increase_parameter_value(Parameter::Frequency);
    assert_eq!(app.waveform_previews[0].frequency, 441_000);
    app.increase_parameter_value(Parameter::Amplitude);
    assert_eq!(app.waveform_previews[0].amplitude, 2_000);
    app.increase_parameter_value(Parameter::Waveform);
    assert_eq!(app.waveform_previews[0].waveform_type, WaveformType::Square);
    app.increase_parameter_value(Parameter::Pan);
    assert_eq!(app.warning, Some(Warning::ParameterNotImplemented));
}

#[test]
fn set_parameter_updates_audio_store_too() {
    let mut app = App::new();
    app.audio
        .create_stream(Ok((2, 44_100)))
        .expect("configuring from a negotiated format succeeds");
    app.set_parameter_value(Parameter::Frequency, 1_000_000);
    let snap = app.audio.store.read_snapshot(0).expect("channel 0 exists");
    assert_eq!(snap.frequency, 1_000_000);
    assert_eq!(app.waveform_previews[0].frequency, 1_000_000);
}

#[test]
fn update_escape_returns_to_normal_mode() {
    let mut app = App::new();
    app.set_help_mode();
    update(&mut app, plain_key(KeyCode::Esc));
    assert_eq!(app.mode, Mode::Normal);
}

#[test]
fn update_quit_keys() {
    let mut app = App::new();
    update(&mut app, plain_key(KeyCode::Char('q')));
    assert!(app.should_quit);

    let mut app = App::new();
    let ctrl_c = KeyEvent {
        code: KeyCode::Char('c'),
        modifiers: Modifiers { ctrl: true, alt: false, shift: false },
        kind: KeyEventKind::Press,
    };
    update(&mut app, ctrl_c);
    assert!(app.should_quit);

    let mut app = App::new();
    update(&mut app, plain_key(KeyCode::Char('c')));
    assert!(!app.should_quit);
}

#[test]
fn update_help_toggles() {
    let mut app = App::new();
    update(&mut app, plain_key(KeyCode::Char('h')));
    assert_eq!(app.mode, Mode::Help);
    update(&mut app, plain_key(KeyCode::Char('h')));
    assert_eq!(app.mode, Mode::Normal);
}

#[test]
fn update_parameter_shortcut_seeds_command() {
    let mut app = App::new();
    update(&mut app, plain_key(KeyCode::Char('f')));
    assert_eq!(app.mode, Mode::Command);
    let line: String = app.command.iter().collect();
    assert_eq!(line, "freq ");
}

#[test]
fn update_types_runs_and_ignores_repeats() {
    let mut app = App::new();
    update(&mut app, plain_key(KeyCode::Char(':')));
    assert_eq!(app.mode, Mode::Command);
    for c in ['f', ' ', '3', '1', '4', '.', '1'] {
        update(&mut app, plain_key(KeyCode::Char(c)));
    }
    update(&mut app, plain_key(KeyCode::Backspace));
    let repeat = KeyEvent {
        code: KeyCode::Char('9'),
        modifiers: Modifiers { ctrl: false, alt: false, shift: false },
        kind: KeyEventKind::Repeat,
    };
    update(&mut app, repeat);
    let line: String = app.command.iter().collect();
    assert_eq!(line, "f 314.");
    update(&mut app, plain_key(KeyCode::Enter));
    assert_eq!(app.waveform_previews[0].frequency, 314_000);
    assert_eq!(app.mode, Mode::Normal);
}

#[test]
fn update_tab_keys() {
    let mut app = App::new();
    update(&mut app, plain_key(KeyCode::Tab));
    assert_eq!(app.tab_index, 1);
    assert_eq!(app.selected_waveform, 1);
    update(&mut app, plain_key(KeyCode::BackTab));
    assert_eq!(app.tab_index, 0);
    update(&mut app, plain_key(KeyCode::Char('2')));
    assert_eq!(app.tab_index, 1);
    update(&mut app, plain_key(KeyCode::Char('1')));
    assert_eq!(app.tab_index, 0);
}

#[test]
fn push_command_char_filters() {
    let mut app = App::new();
    for c in ['q', '1', ' ', ',', '.', '-', '+'] {
        app.push_command_char(c);
    }
    app.push_command_char(';');
    app.push_command_char('\t');
    let line: String = app.command.iter().collect();
    assert_eq!(line, "q1 ,.-+");
}

#[test]
fn dispatch_routes_keys_and_leaves_the_rest_alone() {
    let mut app = App::new();
    dispatch(&mut app, Event::Tick);
    dispatch(&mut app, Event::Mouse(MouseEvent { column: 1, row: 2 }));
    dispatch(&mut app, Event::Resize(80, 24));
    assert_eq!(app.mode, Mode::Normal);
    assert!(!app.should_quit);
    dispatch(&mut app, Event::Key(plain_key(KeyCode::Char('q'))));
    assert!(app.should_quit);
}

#[test]
fn warning_messages() {
    assert_eq!(Warning::UnknownCommand.message(), "Unknown command");
    assert_eq!(Warning::NoParameter.message(), "No parameter");
    assert_eq!(Warning::InvalidFrequency.message(), "Invalid frequency");
    assert_eq!(Warning::InvalidAmplitude.message(), "Invalid amplitude");
    assert_eq!(Warning::InvalidWaveform.message(), "Invalid waveform");
    assert_eq!(
        Warning::ParameterNotImplemented.message(),
        "Parameter not implemented"
    );
}
