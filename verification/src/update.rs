//! Key dispatch: what one key event does to the interface state.

use vstd::prelude::*;

use crate::app::{pushable_char, App, AppModel, Mode, TAB_COUNT};
use crate::event::{Event, KeyCode, KeyEvent, KeyEventKind, Modifiers};

verus! {

/// The state after one key event. Auto-repeats are ignored; any other key
/// first takes the warning down. Escape always returns to normal mode. In
/// command mode keys type, erase, recall history or run the line; in the
/// other modes they quit, toggle help, open the command line (plain or
/// seeded with a parameter word), or switch tabs.
pub open spec fn updated(m: AppModel, key: KeyEvent) -> AppModel {
    if key.kind == KeyEventKind::Repeat {
        m
    } else {
        let m0 = AppModel { warning: None, ..m };
        if key.code == KeyCode::Esc {
            m0.to_normal()
        } else if m0.mode == Mode::Command {
            match key.code {
                KeyCode::Char(c) => if pushable_char(c) {
                    AppModel { command: m0.command.push(c), ..m0 }
                } else {
                    m0
                },
                KeyCode::Backspace => AppModel {
                    command: if m0.command.len() > 0 {
                        m0.command.drop_last()
                    } else {
                        m0.command
                    },
                    ..m0
                },
                KeyCode::Up => m0.history_recalled_back(),
                KeyCode::Down => m0.history_recalled_forward(),
                KeyCode::Enter => m0.processed(),
                _ => m0,
            }
        } else {
            match key.code {
                KeyCode::Char(c) => if c == 'q' || c == 'Q' {
                    if m0.mode == Mode::Normal {
                        AppModel { should_quit: true, ..m0 }
                    } else {
                        m0.to_normal()
                    }
                } else if c == 'c' || c == 'C' {
                    if key.modifiers == (Modifiers { ctrl: true, alt: false, shift: false }) {
                        AppModel { should_quit: true, ..m0 }
                    } else {
                        m0
                    }
                } else if c == 'h' || c == 'H' {
                    if m0.mode == Mode::Help {
                        m0.to_normal()
                    } else {
                        AppModel { mode: Mode::Help, ..m0 }
                    }
                } else if c == 'f' || c == 'F' {
                    AppModel { command: seq!['f', 'r', 'e', 'q', ' '], ..m0.to_command() }
                } else if c == 'a' || c == 'A' {
                    AppModel { command: seq!['a', 'm', 'p', ' '], ..m0.to_command() }
                } else if c == 'w' || c == 'W' {
                    AppModel { command: seq!['w', 'a', 'v', 'e', ' '], ..m0.to_command() }
                } else if c == ':' {
                    m0.to_command()
                } else if c == '1' {
                    m0.tab_set(0)
                } else if c == '2' {
                    m0.tab_set(1)
                } else {
                    m0
                },
                KeyCode::Tab => m0.tab_set((m0.tab_index + 1) % (TAB_COUNT as int)),
                KeyCode::BackTab => m0.tab_set(
                    if m0.tab_index > 0 {
                        m0.tab_index - 1
                    } else {
                        TAB_COUNT - 1
                    },
                ),
                _ => m0,
            }
        }
    }
}

/// Apply one key event to the interface.
pub fn update(app: &mut App, key_event: KeyEvent)
    requires
        old(app)@.wf(),
    ensures
        final(app)@ == updated(old(app)@, key_event),
        final(app)@.wf(),
{
    if matches!(key_event.kind, KeyEventKind::Repeat) {
        return;
    }
    app.clear_warning();

    if matches!(key_event.code, KeyCode::Esc) {
        app.set_normal_mode();
        return;
    } else if matches!(app.mode, Mode::Command) {
        match key_event.code {
            KeyCode::Char(c) => {
                app.push_command_char(c);
            }
            KeyCode::Backspace => {
                app.pop_command_char();
            }
            KeyCode::Up => {
                app.command_history_last();
            }
            KeyCode::Down => {
                app.command_history_next();
            }
            KeyCode::Enter => {
                app.process_command();
            }
            _ => {}
        }
        return;
    }
    match key_event.code {
        KeyCode::Char(c) => {
            if c == 'q' || c == 'Q' {
                if matches!(app.mode, Mode::Normal) {
                    app.quit();
                } else {
                    app.set_normal_mode();
                }
            } else if c == 'c' || c == 'C' {
                let m = key_event.modifiers;
                if m.ctrl && !m.alt && !m.shift {
                    app.quit();
                }
            } else if c == 'h' || c == 'H' {
                if matches!(app.mode, Mode::Help) {
                    app.set_normal_mode();
                } else {
                    app.set_help_mode();
                }
            } else if c == 'f' || c == 'F' {
                app.set_command_mode();
                app.command.push('f');
                app.command.push('r');
                app.command.push('e');
                app.command.push('q');
                app.command.push(' ');
                proof {
                    assert(app@.command =~= seq!['f', 'r', 'e', 'q', ' ']);
                }
            } else if c == 'a' || c == 'A' {
                app.set_command_mode();
                app.command.push('a');
                app.command.push('m');
                app.command.push('p');
                app.command.push(' ');
                proof {
                    assert(app@.command =~= seq!['a', 'm', 'p', ' ']);
                }
            } else if c == 'w' || c == 'W' {
                app.set_command_mode();
                app.command.push('w');
                app.command.push('a');
                app.command.push('v');
                app.command.push('e');
                app.command.push(' ');
                proof {
                    assert(app@.command =~= seq!['w', 'a', 'v', 'e', ' ']);
                }
            } else if c == ':' {
                app.set_command_mode();
            } else if c == '1' {
                app.set_tab(0);
            } else if c == '2' {
                app.set_tab(1);
            }
        }
        KeyCode::Tab => app.next_tab(),
        KeyCode::BackTab => app.previous_tab(),
        _ => {}
    }
    proof {
        assert(app@ =~= updated(old(app)@, key_event));
    }
}

/// What one event from the queue does to the interface: keys go through the
/// key map; a tick, a mouse notification or a resize leaves the state as it
/// is (the periodic redraw happens outside the state).
pub open spec fn dispatched(m: AppModel, event: Event) -> AppModel {
    match event {
        Event::Key(k) => updated(m, k),
        _ => m,
    }
}

/// The main loop's dispatch: apply one received event to the interface.
pub fn dispatch(app: &mut App, event: Event)
    requires
        old(app)@.wf(),
    ensures
        final(app)@ == dispatched(old(app)@, event),
        final(app)@.wf(),
{
    match event {
        Event::Tick => app.tick(),
        Event::Key(key_event) => update(app, key_event),
        Event::Mouse(_) => {}
        Event::Resize(_, _) => {}
    }
}

} // verus!
