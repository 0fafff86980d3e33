use vstd::prelude::*;

use crate::point::{move_target, Direction, HookFamily, catalog_entry};

verus! {

/// Whether the visualizer keeps running after an input.
#[derive(Clone, Copy, Debug, PartialEq, Eq, Structural)]
pub enum AppMessage {
    Running,
    Quitting,
}

impl Default for AppMessage {
    fn default() -> (r: AppMessage)
        ensures
            r == AppMessage::Running,
    {
        AppMessage::Running
    }
}

/// A key, as far as the visualizer tells keys apart.
#[derive(Clone, Copy, Debug, PartialEq, Eq, Structural)]
pub enum Key {
    Char(char),
    Up,
    Down,
    Left,
    Right,
    Other,
}

/// A keyboard event: the key, whether Control was held, and whether the key
/// went down (rather than being released or repeated).
#[derive(Clone, Copy, Debug, PartialEq, Eq, Structural)]
pub struct KeyEvent {
    pub key: Key,
    pub ctrl: bool,
    pub pressed: bool,
}

/// What an input asks of the visualizer.
#[derive(Clone, Copy, Debug, PartialEq, Eq, Structural)]
pub enum Intent {
    Move(Direction),
    Quit,
    Ignore,
}

/// The intent of a key event: `q`, or Control with `c`, quits; an arrow key
/// moves; anything else, and any event other than a key going down, is
/// ignored.
pub open spec fn intent_of(e: KeyEvent) -> Intent {
    if !e.pressed {
        Intent::Ignore
    } else {
        match e.key {
            Key::Char(c) => if c == 'q' || (c == 'c' && e.ctrl) {
                Intent::Quit
            } else {
                Intent::Ignore
            },
            Key::Up => Intent::Move(Direction::Up),
            Key::Down => Intent::Move(Direction::Down),
            Key::Left => Intent::Move(Direction::Left),
            Key::Right => Intent::Move(Direction::Right),
            Key::Other => Intent::Ignore,
        }
    }
}

/// The direction an arrow key stands for.
pub open spec fn key_direction(k: Key) -> Option<Direction> {
    match k {
        Key::Up => Some(Direction::Up),
        Key::Down => Some(Direction::Down),
        Key::Left => Some(Direction::Left),
        Key::Right => Some(Direction::Right),
        _ => None,
    }
}

impl Key {
    /// The direction of an arrow key; `None` for any other key.
    pub fn direction(self) -> (r: Option<Direction>)
        ensures
            r == key_direction(self),
    {
        match self {
            Key::Up => Some(Direction::Up),
            Key::Down => Some(Direction::Down),
            Key::Left => Some(Direction::Left),
            Key::Right => Some(Direction::Right),
            _ => None,
        }
    }
}

impl KeyEvent {
    /// What this event asks of the visualizer.
    pub fn intent(self) -> (r: Intent)
        ensures
            r == intent_of(self),
    {
        if !self.pressed {
            return Intent::Ignore;
        }
        match self.key {
            Key::Char(c) => {
                if c == 'q' || (c == 'c' && self.ctrl) {
                    Intent::Quit
                } else {
                    Intent::Ignore
                }
            },
            _ => match self.key.direction() {
                Some(d) => Intent::Move(d),
                None => Intent::Ignore,
            },
        }
    }
}

/// The visualizer's state: the selected point.
#[derive(Clone, Copy, Debug)]
pub struct App {
    pub(crate) hook_family: HookFamily,
}

impl Default for App {
    fn default() -> (r: App)
        ensures
            r.spec_hook_family() == catalog_entry(0),
    {
        App::new()
    }
}

impl App {
    pub open(crate) spec fn spec_hook_family(self) -> HookFamily {
        self.hook_family
    }

    /// A visualizer with the first catalog entry selected.
    pub fn new() -> (r: App)
        ensures
            r.spec_hook_family() == catalog_entry(0),
    {
        App { hook_family: HookFamily::new() }
    }

    /// The selected point.
    pub fn hook_family(&self) -> (r: HookFamily)
        ensures
            r == self.spec_hook_family(),
    {
        self.hook_family
    }

    /// Carries out an intent: a move changes the selection, quitting and
    /// ignored input leave it as it is.
    pub fn handle_intent(&mut self, intent: Intent) -> (r: AppMessage)
        ensures
            match intent {
                Intent::Move(d) => {
                    &&& final(self).spec_hook_family() == move_target(old(self).spec_hook_family(), d)
                    &&& r == AppMessage::Running
                },
                Intent::Quit => {
                    &&& final(self).spec_hook_family() == old(self).spec_hook_family()
                    &&& r == AppMessage::Quitting
                },
                Intent::Ignore => {
                    &&& final(self).spec_hook_family() == old(self).spec_hook_family()
                    &&& r == AppMessage::Running
                },
            },
    {
        match intent {
            Intent::Move(d) => {
                self.hook_family = self.hook_family.move_by_direction(d);
                AppMessage::Running
            },
            Intent::Quit => AppMessage::Quitting,
            Intent::Ignore => AppMessage::Running,
        }
    }

    /// Handles one key event.
    pub fn handle_key(&mut self, event: KeyEvent) -> (r: AppMessage)
        ensures
            match intent_of(event) {
                Intent::Move(d) => {
                    &&& final(self).spec_hook_family() == move_target(old(self).spec_hook_family(), d)
                    &&& r == AppMessage::Running
                },
                Intent::Quit => {
                    &&& final(self).spec_hook_family() == old(self).spec_hook_family()
                    &&& r == AppMessage::Quitting
                },
                Intent::Ignore => {
                    &&& final(self).spec_hook_family() == old(self).spec_hook_family()
                    &&& r == AppMessage::Running
                },
            },
    {
        let intent = event.intent();
        self.handle_intent(intent)
    }
}

} // verus!
