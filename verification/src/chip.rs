//! The chip: a compact pill that can be toggled and, optionally,
//! removed through a small button at its end.

use vstd::prelude::*;
use crate::interaction::{HoverPress, PointerEvent, press_step};
use crate::space::Space;

verus! {

/// The size of a chip.
#[derive(Clone, Copy, Debug, PartialEq, Eq, Structural)]
pub enum ChipSize {
    /// Small label.
    Sm,
    /// Medium label (the default).
    Md,
    /// Large label.
    Lg,
}

impl Default for ChipSize {
    fn default() -> (res: ChipSize)
        ensures
            res == ChipSize::Md,
    {
        ChipSize::Md
    }
}

impl ChipSize {
    /// The `(horizontal, vertical)` padding tokens for this size;
    /// larger sizes get roomier padding.
    pub fn padding(self) -> (res: (Space, Space))
        ensures
            res == match self {
                ChipSize::Sm => (Space::sx_quarters(4), Space::sx_quarters(2)),
                ChipSize::Md => (Space::sx_quarters(5), Space::sx_quarters(3)),
                ChipSize::Lg => (Space::sx_quarters(6), Space::sx_quarters(4)),
            },
    {
        match self {
            ChipSize::Sm => (Space::quarters(4), Space::quarters(2)),
            ChipSize::Md => (Space::quarters(5), Space::quarters(3)),
            ChipSize::Lg => (Space::quarters(6), Space::quarters(4)),
        }
    }
}

/// The interaction status of a chip.
#[derive(Clone, Copy, Debug, PartialEq, Eq, Structural)]
pub enum Status {
    Active,
    Hovered,
    Pressed,
    Disabled,
}

/// A chip: its size, whether it responds, and the messages of a toggle
/// (click on the body) and of a removal (click on the remove button).
pub struct Chip<M> {
    /// The size.
    pub size: ChipSize,
    /// Whether the chip responds.
    pub enabled: bool,
    /// The message of a click on the body.
    pub on_toggle: Option<M>,
    /// The message of a click on the remove button; the button is
    /// shown only when set.
    pub on_remove: Option<M>,
}

impl<M> Chip<M> {
    /// Whether the body responds to clicks.
    pub open spec fn spec_body_interactive(&self) -> bool {
        self.enabled && self.on_toggle is Some
    }

    /// The status shown for the given flags.
    pub open spec fn spec_status(&self, flags: HoverPress) -> Status {
        if !self.enabled {
            Status::Disabled
        } else if self.spec_body_interactive() && flags.is_pressed {
            Status::Pressed
        } else if self.spec_body_interactive() && flags.is_hovered {
            Status::Hovered
        } else {
            Status::Active
        }
    }

    /// A medium, enabled chip without messages.
    pub fn new() -> (res: Chip<M>)
        ensures
            res.size == ChipSize::Md,
            res.enabled,
            res.on_toggle is None,
            res.on_remove is None,
    {
        Chip { size: ChipSize::Md, enabled: true, on_toggle: None, on_remove: None }
    }

    /// Sets the size.
    pub fn size(self, size: ChipSize) -> (res: Chip<M>)
        ensures
            res == (Chip { size, ..self }),
    {
        Chip { size, ..self }
    }

    /// Enables or disables the chip.
    pub fn enabled(self, enabled: bool) -> (res: Chip<M>)
        ensures
            res == (Chip { enabled, ..self }),
    {
        Chip { enabled, ..self }
    }

    /// Sets the message of a click on the body.
    pub fn on_toggle(self, message: M) -> (res: Chip<M>)
        ensures
            res == (Chip { on_toggle: Some(message), ..self }),
    {
        Chip { on_toggle: Some(message), ..self }
    }

    /// Sets or clears the message of a click on the body.
    pub fn on_toggle_maybe(self, message: Option<M>) -> (res: Chip<M>)
        ensures
            res == (Chip { on_toggle: message, ..self }),
    {
        Chip { on_toggle: message, ..self }
    }

    /// Sets the message of the remove button, which shows it.
    pub fn on_remove(self, message: M) -> (res: Chip<M>)
        ensures
            res == (Chip { on_remove: Some(message), ..self }),
    {
        Chip { on_remove: Some(message), ..self }
    }

    /// Whether the body responds to clicks (pointer and hover/press
    /// feedback).
    pub fn body_interactive(&self) -> (res: bool)
        ensures
            res == self.spec_body_interactive(),
    {
        self.enabled && self.on_toggle.is_some()
    }

    /// Whether the remove button is shown.
    pub fn removable(&self) -> (res: bool)
        ensures
            res == self.on_remove is Some,
    {
        self.on_remove.is_some()
    }

    /// The status shown: disabled, else pressed or hovered while the
    /// body responds, else active.
    pub fn status(&self, flags: HoverPress) -> (res: Status)
        ensures
            res == self.spec_status(flags),
    {
        if !self.enabled {
            Status::Disabled
        } else if self.body_interactive() && flags.is_pressed {
            Status::Pressed
        } else if self.body_interactive() && flags.is_hovered {
            Status::Hovered
        } else {
            Status::Active
        }
    }
}

impl<M: Clone> Chip<M> {
    /// Applies a pointer event; `over` tells whether the pointer is over
    /// the chip and `over_remove` whether it is over the remove button.
    /// A disabled chip, or one with neither message, ignores events. A
    /// completed click publishes the removal when it ends over a shown
    /// remove button, else the toggle.
    pub fn update(&self, flags: &mut HoverPress, event: PointerEvent, over: bool, over_remove: bool) -> (res: Option<M>)
        ensures
            (!self.enabled || (self.on_toggle is None && self.on_remove is None)) ==> *final(flags) == *old(flags)
                && res is None,
            (self.enabled && (self.on_toggle is Some || self.on_remove is Some)) ==> {
                let (next, clicked) = press_step(*old(flags), event, over, self.on_toggle is Some);
                let on_remove_button = self.on_remove is Some && over_remove;
                &&& *final(flags) == next
                &&& (clicked && on_remove_button) ==> (res matches Some(m) && cloned::<M>(self.on_remove.unwrap(), m))
                &&& (clicked && !on_remove_button && self.on_toggle is Some) ==> (res matches Some(m)
                    && cloned::<M>(self.on_toggle.unwrap(), m))
                &&& (!clicked || (!on_remove_button && self.on_toggle is None)) ==> res is None
            },
    {
        if !self.enabled || (self.on_toggle.is_none() && self.on_remove.is_none()) {
            return None;
        }
        let clicked = flags.update(event, over, self.on_toggle.is_some());
        if !clicked {
            return None;
        }
        if self.removable() && over_remove {
            match &self.on_remove {
                Some(m) => Some(m.clone()),
                None => None,
            }
        } else {
            match &self.on_toggle {
                Some(m) => Some(m.clone()),
                None => None,
            }
        }
    }
}

} // verus!
