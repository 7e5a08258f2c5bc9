//! Key bindings of the interface.
use vstd::prelude::*;

verus! {

/// A key press, as far as the interface tells keys apart.
#[derive(Clone, Copy, Debug, PartialEq, Eq, Structural)]
pub enum Key {
    Char(char),
    Enter,
    Esc,
    Backspace,
    Left,
    Right,
    Up,
    Down,
    Tab,
    Other,
}

/// The key bound to each command.
#[derive(Clone, Copy, Debug, PartialEq, Eq, Structural)]
pub struct KeyBindings {
    pub quit: Key,
    pub show_help: Key,
    pub status_mode: Key,
    pub log_mode: Key,
    pub select_next: Key,
    pub select_prev: Key,
    pub select_first: Key,
    pub select_last: Key,
    pub stage_item: Key,
    pub unstage_item: Key,
    pub stage_all: Key,
    pub unstage_all: Key,
    pub commit: Key,
    pub push: Key,
    pub refresh: Key,
    pub add_remote: Key,
    pub init_repo: Key,
    pub confirm: Key,
    pub close_popup: Key,
    pub panel_right: Key,
    pub panel_left: Key,
}

/// The bindings the interface starts with.
pub open spec fn default_bindings() -> KeyBindings {
    KeyBindings {
        quit: Key::Char('q'),
        show_help: Key::Char('?'),
        status_mode: Key::Char('s'),
        log_mode: Key::Char('g'),
        select_next: Key::Char('j'),
        select_prev: Key::Char('k'),
        select_first: Key::Char('<'),
        select_last: Key::Char('>'),
        stage_item: Key::Char(' '),
        unstage_item: Key::Char('u'),
        stage_all: Key::Char('a'),
        unstage_all: Key::Char('A'),
        commit: Key::Char('c'),
        push: Key::Char('p'),
        refresh: Key::Char('r'),
        add_remote: Key::Char('R'),
        init_repo: Key::Char('i'),
        confirm: Key::Enter,
        close_popup: Key::Esc,
        panel_right: Key::Char('l'),
        panel_left: Key::Char('h'),
    }
}

impl Default for KeyBindings {
    fn default() -> (r: KeyBindings)
        ensures
            r == default_bindings(),
    {
        KeyBindings {
            quit: Key::Char('q'),
            show_help: Key::Char('?'),
            status_mode: Key::Char('s'),
            log_mode: Key::Char('g'),
            select_next: Key::Char('j'),
            select_prev: Key::Char('k'),
            select_first: Key::Char('<'),
            select_last: Key::Char('>'),
            stage_item: Key::Char(' '),
            unstage_item: Key::Char('u'),
            stage_all: Key::Char('a'),
            unstage_all: Key::Char('A'),
            commit: Key::Char('c'),
            push: Key::Char('p'),
            refresh: Key::Char('r'),
            add_remote: Key::Char('R'),
            init_repo: Key::Char('i'),
            confirm: Key::Enter,
            close_popup: Key::Esc,
            panel_right: Key::Char('l'),
            panel_left: Key::Char('h'),
        }
    }
}

} // verus!
