//! The logical commands a player gives, and which of them are in force.
use vstd::prelude::*;
use crate::tetromino::SlideDirection;
use crate::transform::RotationDirection;

verus! {

/// A logical command, as mapped from a key.
#[derive(Debug, Clone, Copy, PartialEq, Eq, Structural)]
pub enum Command {
    RotateClockwise,
    RotateCounterClockwise,
    DownFast,
    SlideLeft,
    SlideRight,
    Lock,
    Swap,
}

/// How fast the active piece falls.
#[derive(Debug, Clone, Copy, PartialEq, Eq, Structural)]
pub enum DropSpeed {
    Slow,
    Fast,
}

/// The commands in force: a command holds from its key's press to its release,
/// and all are dropped when a piece locks.
#[derive(Debug, Clone, Copy, PartialEq, Eq, Structural)]
pub struct CommandState {
    pub lock_held: bool,
    pub swap_held: bool,
    pub fast_held: bool,
    pub slide_held: Option<SlideDirection>,
    pub rotate_held: Option<RotationDirection>,
}

/// No command in force.
pub open spec fn idle_commands() -> CommandState {
    CommandState {
        lock_held: false,
        swap_held: false,
        fast_held: false,
        slide_held: None,
        rotate_held: None,
    }
}

impl CommandState {
    /// No command in force.
    pub fn new() -> (r: CommandState)
        ensures
            r == idle_commands(),
    {
        CommandState {
            lock_held: false,
            swap_held: false,
            fast_held: false,
            slide_held: None,
            rotate_held: None,
        }
    }

    /// Puts `c` in force; a slide or a turn replaces the one held before.
    pub fn key_press(&mut self, c: Command)
        ensures
            *final(self) == match c {
                Command::Lock => CommandState { lock_held: true, ..*old(self) },
                Command::Swap => CommandState { swap_held: true, ..*old(self) },
                Command::DownFast => CommandState { fast_held: true, ..*old(self) },
                Command::SlideLeft => CommandState {
                    slide_held: Some(SlideDirection::Left),
                    ..*old(self)
                },
                Command::SlideRight => CommandState {
                    slide_held: Some(SlideDirection::Right),
                    ..*old(self)
                },
                Command::RotateClockwise => CommandState {
                    rotate_held: Some(RotationDirection::Clockwise),
                    ..*old(self)
                },
                Command::RotateCounterClockwise => CommandState {
                    rotate_held: Some(RotationDirection::CounterClockwise),
                    ..*old(self)
                },
            },
    {
        match c {
            Command::Lock => self.lock_held = true,
            Command::Swap => self.swap_held = true,
            Command::DownFast => self.fast_held = true,
            Command::SlideLeft => self.slide_held = Some(SlideDirection::Left),
            Command::SlideRight => self.slide_held = Some(SlideDirection::Right),
            Command::RotateClockwise => self.rotate_held = Some(RotationDirection::Clockwise),
            Command::RotateCounterClockwise => self.rotate_held = Some(
                RotationDirection::CounterClockwise,
            ),
        }
    }

    /// Takes `c` out of force; releasing a slide or turn other than the one
    /// held changes nothing.
    pub fn key_release(&mut self, c: Command)
        ensures
            *final(self) == match c {
                Command::Lock => CommandState { lock_held: false, ..*old(self) },
                Command::Swap => CommandState { swap_held: false, ..*old(self) },
                Command::DownFast => CommandState { fast_held: false, ..*old(self) },
                Command::SlideLeft => if old(self).slide_held == Some(SlideDirection::Left) {
                    CommandState { slide_held: None, ..*old(self) }
                } else {
                    *old(self)
                },
                Command::SlideRight => if old(self).slide_held == Some(SlideDirection::Right) {
                    CommandState { slide_held: None, ..*old(self) }
                } else {
                    *old(self)
                },
                Command::RotateClockwise => if old(self).rotate_held == Some(
                    RotationDirection::Clockwise,
                ) {
                    CommandState { rotate_held: None, ..*old(self) }
                } else {
                    *old(self)
                },
                Command::RotateCounterClockwise => if old(self).rotate_held == Some(
                    RotationDirection::CounterClockwise,
                ) {
                    CommandState { rotate_held: None, ..*old(self) }
                } else {
                    *old(self)
                },
            },
    {
        match c {
            Command::Lock => self.lock_held = false,
            Command::Swap => self.swap_held = false,
            Command::DownFast => self.fast_held = false,
            Command::SlideLeft => {
                if self.slide_held == Some(SlideDirection::Left) {
                    self.slide_held = None;
                }
            },
            Command::SlideRight => {
                if self.slide_held == Some(SlideDirection::Right) {
                    self.slide_held = None;
                }
            },
            Command::RotateClockwise => {
                if self.rotate_held == Some(RotationDirection::Clockwise) {
                    self.rotate_held = None;
                }
            },
            Command::RotateCounterClockwise => {
                if self.rotate_held == Some(RotationDirection::CounterClockwise) {
                    self.rotate_held = None;
                }
            },
        }
    }

    /// Whether an immediate lock is asked for.
    pub fn lock(&self) -> (r: bool)
        ensures
            r == self.lock_held,
    {
        self.lock_held
    }

    /// Whether a swap with the held piece is asked for.
    pub fn swap(&self) -> (r: bool)
        ensures
            r == self.swap_held,
    {
        self.swap_held
    }

    /// The fall speed asked for.
    pub fn get_drop_speed(&self) -> (r: DropSpeed)
        ensures
            r == if self.fast_held {
                DropSpeed::Fast
            } else {
                DropSpeed::Slow
            },
    {
        if self.fast_held {
            DropSpeed::Fast
        } else {
            DropSpeed::Slow
        }
    }

    /// The slide asked for, if any.
    pub fn do_slide(&self) -> (r: Option<SlideDirection>)
        ensures
            r == self.slide_held,
    {
        self.slide_held
    }

    /// The turn asked for, if any.
    pub fn do_rotate(&self) -> (r: Option<RotationDirection>)
        ensures
            r == self.rotate_held,
    {
        self.rotate_held
    }

    /// Takes every command out of force.
    pub fn clear_state(&mut self)
        ensures
            *final(self) == idle_commands(),
    {
        *self = CommandState::new();
    }
}

} // verus!
