use vstd::prelude::*;
use crate::tui_app::{App, CurrentView};

verus! {

/// A key press, as the interface understands it.
#[derive(Debug, Clone, Copy, PartialEq, Eq, Structural)]
pub enum Key {
    Char(char),
    Up,
    Down,
    Left,
    Right,
    Esc,
    Enter,
    PageUp,
    PageDown,
    Other,
}

/// The modifier held with a key press.
#[derive(Debug, Clone, Copy, PartialEq, Eq, Structural)]
pub enum Mods {
    Plain,
    Ctrl,
    Shift,
}

/// Whether no modal captures the keyboard.
pub open spec fn no_modal(app: App) -> bool {
    !app.help_modal_open && app.system_confirmation is None && !app.system_modal_open
}

/// Applies one key press to the interface. The help modal, a pending
/// system confirmation, and the system modal capture the keyboard in
/// that order; otherwise keys quit, switch views, toggle expansions,
/// scroll, and move the selections.
pub fn handle_key(app: &mut App, key: Key, mods: Mods)
    requires
        old(app).wf(),
    ensures
        final(app).wf(),
        no_modal(*old(app)) && key == Key::Char('q') && mods == Mods::Plain ==> final(app).should_quit,
        no_modal(*old(app)) && key == Key::Char('q') && mods == Mods::Ctrl ==> final(app).system_modal_open,
        no_modal(*old(app)) && mods == Mods::Plain && key == Key::Char('d') ==> final(app).current_view == CurrentView::Dashboard,
        no_modal(*old(app)) && mods == Mods::Plain && key == Key::Char('v') ==> final(app).current_view == CurrentView::VMs,
        no_modal(*old(app)) && mods == Mods::Plain && key == Key::Char('c') ==> final(app).current_view == CurrentView::Containers,
        no_modal(*old(app)) && mods == Mods::Plain && key == Key::Char('p') ==> final(app).current_view == CurrentView::IsolatedPods,
        no_modal(*old(app)) && mods == Mods::Plain && key == Key::Char('l') ==> final(app).current_view == CurrentView::Logs,
        old(app).help_modal_open && key == Key::Esc ==> !final(app).help_modal_open,
        !(key == Key::Char('q') && mods == Mods::Plain) ==> final(app).should_quit == old(app).should_quit,
{
    if app.help_modal_open {
        match key {
            Key::Char(c) => {
                if c == 'h' {
                    app.close_help_modal();
                }
            },
            Key::Esc => {
                app.close_help_modal();
            },
            Key::Up => {
                app.scroll_help_up();
            },
            Key::Down => {
                app.scroll_help_down();
            },
            Key::PageUp => {
                let mut i: u8 = 0;
                while i < 5
                    invariant
                        app.wf(),
                        app.should_quit == old(app).should_quit,
                        app.help_modal_open,
                    decreases 5 - i,
                {
                    app.scroll_help_up();
                    i = i + 1;
                }
            },
            Key::PageDown => {
                let mut i: u8 = 0;
                while i < 5
                    invariant
                        app.wf(),
                        app.should_quit == old(app).should_quit,
                        app.help_modal_open,
                    decreases 5 - i,
                {
                    app.scroll_help_down();
                    i = i + 1;
                }
            },
            _ => {},
        }
        return ;
    }
    if app.system_confirmation.is_some() {
        match key {
            Key::Char(c) => {
                if c == 'y' {
                    app.confirm_system_action();
                } else if c == 'n' {
                    app.cancel_system_action();
                }
            },
            Key::Esc => {
                app.cancel_system_action();
            },
            _ => {},
        }
        return ;
    }
    if app.system_modal_open {
        match key {
            Key::Up => {
                app.select_previous_system_action();
            },
            Key::Down => {
                app.select_next_system_action();
            },
            Key::Enter => {
                app.trigger_system_confirmation();
            },
            Key::Esc => {
                app.close_system_modal();
            },
            _ => {},
        }
        return ;
    }
    match (key, mods) {
        (Key::Char(c), Mods::Ctrl) => {
            if c == 'q' {
                app.open_system_modal();
            }
        },
        (Key::Char(c), Mods::Plain) => {
            if c == 'q' {
                app.should_quit = true;
            } else if c == 'h' {
                app.open_help_modal();
            } else if c == 'w' {
                match app.current_view {
                    CurrentView::IsolatedPods => {
                        if app.logs_expanded {
                            app.toggle_log_line_wrap();
                        }
                    },
                    CurrentView::Containers => {
                        if app.container_logs_expanded {
                            app.toggle_log_line_wrap();
                        }
                    },
                    CurrentView::Logs => {
                        if app.global_logs_expanded {
                            app.toggle_log_line_wrap();
                        }
                    },
                    _ => {},
                }
            } else if c == 'd' {
                app.current_view = CurrentView::Dashboard;
            } else if c == 'v' {
                app.current_view = CurrentView::VMs;
            } else if c == 'c' {
                app.current_view = CurrentView::Containers;
            } else if c == 'p' {
                app.current_view = CurrentView::IsolatedPods;
            } else if c == 'l' {
                app.current_view = CurrentView::Logs;
            } else if c == 'e' {
                match app.current_view {
                    CurrentView::IsolatedPods => {
                        app.toggle_logs_expanded();
                    },
                    CurrentView::Containers => {
                        app.toggle_container_logs_expanded();
                    },
                    CurrentView::Logs => {
                        app.toggle_global_logs_expanded();
                    },
                    _ => {},
                }
            }
        },
        (Key::Esc, Mods::Plain) => {
            match app.current_view {
                CurrentView::IsolatedPods => {
                    if app.logs_expanded {
                        app.toggle_logs_expanded();
                    }
                },
                CurrentView::Containers => {
                    if app.container_logs_expanded {
                        app.toggle_container_logs_expanded();
                    }
                },
                CurrentView::Logs => {
                    if app.global_logs_expanded {
                        app.toggle_global_logs_expanded();
                    }
                },
                _ => {},
            }
        },
        (Key::PageUp, Mods::Plain) => {
            match app.current_view {
                CurrentView::IsolatedPods => {
                    if app.logs_expanded {
                        app.scroll_logs_page_up();
                    }
                },
                CurrentView::Containers => {
                    if app.container_logs_expanded {
                        app.scroll_logs_page_up();
                    }
                },
                CurrentView::Logs => {
                    if app.global_logs_expanded {
                        app.scroll_logs_page_up();
                    }
                },
                _ => {},
            }
        },
        (Key::PageDown, Mods::Plain) => {
            match app.current_view {
                CurrentView::IsolatedPods => {
                    if app.logs_expanded {
                        app.scroll_logs_page_down();
                    }
                },
                CurrentView::Containers => {
                    if app.container_logs_expanded {
                        app.scroll_logs_page_down();
                    }
                },
                CurrentView::Logs => {
                    if app.global_logs_expanded {
                        app.scroll_logs_page_down();
                    }
                },
                _ => {},
            }
        },
        (Key::Up, Mods::Shift) => {
            match app.current_view {
                CurrentView::IsolatedPods => {
                    app.select_previous_pod_container();
                },
                _ => {},
            }
        },
        (Key::Down, Mods::Shift) => {
            match app.current_view {
                CurrentView::IsolatedPods => {
                    app.select_next_pod_container();
                },
                _ => {},
            }
        },
        (Key::Left, Mods::Shift) => {
            match app.current_view {
                CurrentView::IsolatedPods => {
                    app.switch_pod_log_tab();
                },
                CurrentView::Logs => {
                    app.switch_global_log_tab();
                },
                _ => {},
            }
        },
        (Key::Right, Mods::Shift) => {
            match app.current_view {
                CurrentView::IsolatedPods => {
                    app.switch_pod_log_tab();
                },
                CurrentView::Logs => {
                    app.switch_global_log_tab();
                },
                _ => {},
            }
        },
        (Key::Left, _) => {
            let current_index = app.current_view.to_index();
            let new_index = if current_index == 0 {
                4
            } else {
                current_index - 1
            };
            app.current_view = CurrentView::from_index(new_index);
        },
        (Key::Right, _) => {
            let current_index = app.current_view.to_index();
            let new_index = (current_index + 1) % 5;
            app.current_view = CurrentView::from_index(new_index);
        },
        (Key::Up, _) => {
            match app.current_view {
                CurrentView::VMs => {
                    app.select_previous_vm();
                },
                CurrentView::Containers => {
                    if app.container_logs_expanded {
                        app.scroll_logs_up();
                    } else {
                        app.select_previous_container();
                    }
                },
                CurrentView::IsolatedPods => {
                    if app.logs_expanded {
                        app.scroll_logs_up();
                    } else {
                        app.select_previous_isolated_pod();
                    }
                },
                CurrentView::Logs => {
                    if app.global_logs_expanded {
                        app.scroll_logs_up();
                    }
                },
                _ => {},
            }
        },
        (Key::Down, _) => {
            match app.current_view {
                CurrentView::VMs => {
                    app.select_next_vm();
                },
                CurrentView::Containers => {
                    if app.container_logs_expanded {
                        app.scroll_logs_down();
                    } else {
                        app.select_next_container();
                    }
                },
                CurrentView::IsolatedPods => {
                    if app.logs_expanded {
                        app.scroll_logs_down();
                    } else {
                        app.select_next_isolated_pod();
                    }
                },
                CurrentView::Logs => {
                    if app.global_logs_expanded {
                        app.scroll_logs_down();
                    }
                },
                _ => {},
            }
        },
        _ => {},
    }
}

} // verus!
