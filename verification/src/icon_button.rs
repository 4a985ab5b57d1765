//! The icon button: its variants, status and click.

use vstd::prelude::*;
use crate::interaction::{HoverPress, PointerEvent, press_step};

verus! {

/// The visual variant of an icon button.
#[derive(Clone, Copy, Debug, PartialEq, Eq, Structural)]
pub enum Variant {
    /// No container (the default).
    Standard,
    /// A filled container.
    Filled,
    /// A tonal filled container.
    FilledTonal,
    /// An outlined container.
    Outlined,
}

impl Default for Variant {
    fn default() -> (res: Variant)
        ensures
            res == Variant::Standard,
    {
        Variant::Standard
    }
}

/// The interaction status of an icon button.
#[derive(Clone, Copy, Debug, PartialEq, Eq, Structural)]
pub enum Status {
    Active,
    Hovered,
    Pressed,
    Disabled,
}

/// An icon button: its variant and message; it is enabled exactly when
/// it has a message.
pub struct IconButton<M> {
    /// The variant.
    pub variant: Variant,
    /// Whether the button is shown in its selected (toggled) state.
    pub toggled: bool,
    /// The message published on a click.
    pub on_press: Option<M>,
}

impl<M> IconButton<M> {
    /// The status shown for the given flags.
    pub open spec fn spec_status(&self, flags: HoverPress) -> Status {
        if self.on_press is None {
            Status::Disabled
        } else if flags.is_pressed {
            Status::Pressed
        } else if flags.is_hovered {
            Status::Hovered
        } else {
            Status::Active
        }
    }

    /// A standard, untoggled icon button without a message (disabled).
    pub fn new() -> (res: IconButton<M>)
        ensures
            res.variant == Variant::Standard,
            !res.toggled,
            res.on_press is None,
    {
        IconButton { variant: Variant::Standard, toggled: false, on_press: None }
    }

    /// Shows or clears the selected (toggled) state.
    pub fn toggled(self, toggled: bool) -> (res: IconButton<M>)
        ensures
            res == (IconButton { toggled, ..self }),
    {
        IconButton { toggled, ..self }
    }

    /// Sets the variant.
    pub fn variant(self, variant: Variant) -> (res: IconButton<M>)
        ensures
            res == (IconButton { variant, ..self }),
    {
        IconButton { variant, ..self }
    }

    /// Sets the message published on a click.
    pub fn on_press(self, message: M) -> (res: IconButton<M>)
        ensures
            res == (IconButton { on_press: Some(message), ..self }),
    {
        IconButton { on_press: Some(message), ..self }
    }

    /// Sets or clears the message published on a click.
    pub fn on_press_maybe(self, message: Option<M>) -> (res: IconButton<M>)
        ensures
            res == (IconButton { on_press: message, ..self }),
    {
        IconButton { on_press: message, ..self }
    }

    /// Whether the button responds: it has a message.
    pub fn is_enabled(&self) -> (res: bool)
        ensures
            res == self.on_press is Some,
    {
        self.on_press.is_some()
    }

    /// The status shown: disabled, else pressed, else hovered, else
    /// active.
    pub fn status(&self, flags: HoverPress) -> (res: Status)
        ensures
            res == self.spec_status(flags),
    {
        if !self.is_enabled() {
            Status::Disabled
        } else if flags.is_pressed {
            Status::Pressed
        } else if flags.is_hovered {
            Status::Hovered
        } else {
            Status::Active
        }
    }
}

impl<M: Clone> IconButton<M> {
    /// Applies a pointer event; `over` tells whether the pointer is over
    /// the button. A disabled button ignores events; a completed click
    /// publishes the message.
    pub fn update(&self, flags: &mut HoverPress, event: PointerEvent, over: bool) -> (res: Option<M>)
        ensures
            self.on_press is None ==> *final(flags) == *old(flags) && res is None,
            self.on_press is Some ==> {
                let (next, clicked) = press_step(*old(flags), event, over, true);
                &&& *final(flags) == next
                &&& clicked ==> (res matches Some(m) && cloned::<M>(self.on_press.unwrap(), m))
                &&& !clicked ==> res is None
            },
    {
        match &self.on_press {
            None => None,
            Some(m) => {
                if flags.update(event, over, true) {
                    Some(m.clone())
                } else {
                    None
                }
            },
        }
    }
}

} // verus!
