//! The floating action button: its sizes, status and click.

use vstd::prelude::*;
use crate::interaction::{HoverPress, PointerEvent, press_step};

verus! {

/// The size of a floating action button.
#[derive(Clone, Copy, Debug, PartialEq, Eq, Structural)]
pub enum FabSize {
    /// 40x40 logical pixels.
    Small,
    /// 56x56 logical pixels (the default).
    Regular,
    /// 96x96 logical pixels.
    Large,
}

impl Default for FabSize {
    fn default() -> (res: FabSize)
        ensures
            res == FabSize::Regular,
    {
        FabSize::Regular
    }
}

impl FabSize {
    /// The side length in logical pixels.
    pub fn pixels(self) -> (res: u32)
        ensures
            res == match self {
                FabSize::Small => 40u32,
                FabSize::Regular => 56u32,
                FabSize::Large => 96u32,
            },
    {
        match self {
            FabSize::Small => 40,
            FabSize::Regular => 56,
            FabSize::Large => 96,
        }
    }

    /// The icon size in logical pixels.
    pub fn icon_size(self) -> (res: u32)
        ensures
            res == match self {
                FabSize::Small => 24u32,
                FabSize::Regular => 24u32,
                FabSize::Large => 36u32,
            },
    {
        match self {
            FabSize::Small => 24,
            FabSize::Regular => 24,
            FabSize::Large => 36,
        }
    }
}

/// The interaction status of a floating action button.
#[derive(Clone, Copy, Debug, PartialEq, Eq, Structural)]
pub enum Status {
    Active,
    Hovered,
    Pressed,
}

/// The status shown: pressed, else hovered, else active.
pub fn status(flags: HoverPress) -> (res: Status)
    ensures
        res == (if flags.is_pressed {
            Status::Pressed
        } else if flags.is_hovered {
            Status::Hovered
        } else {
            Status::Active
        }),
{
    if flags.is_pressed {
        Status::Pressed
    } else if flags.is_hovered {
        Status::Hovered
    } else {
        Status::Active
    }
}

/// A floating action button: its size, whether it sits lower, whether
/// it shows a label (extended), and its message.
pub struct Fab<M> {
    /// The size.
    pub size: FabSize,
    /// Whether the button is drawn with a lower elevation.
    pub lowered: bool,
    /// Whether a text label follows the icon.
    pub extended: bool,
    /// The message published on a click.
    pub on_press: Option<M>,
}

impl<M> Fab<M> {
    /// A regular, raised, icon-only button without a message.
    pub fn new() -> (res: Fab<M>)
        ensures
            res.size == FabSize::Regular,
            !res.lowered,
            !res.extended,
            res.on_press is None,
    {
        Fab { size: FabSize::Regular, lowered: false, extended: false, on_press: None }
    }

    /// Sets the size.
    pub fn size(self, size: FabSize) -> (res: Fab<M>)
        ensures
            res == (Fab { size, ..self }),
    {
        Fab { size, ..self }
    }

    /// Sets whether the button sits lower.
    pub fn lowered(self, lowered: bool) -> (res: Fab<M>)
        ensures
            res == (Fab { lowered, ..self }),
    {
        Fab { lowered, ..self }
    }

    /// Records whether a label follows the icon.
    pub fn with_label(self, present: bool) -> (res: Fab<M>)
        ensures
            res == (Fab { extended: present, ..self }),
    {
        Fab { extended: present, ..self }
    }

    /// Sets the message published on a click.
    pub fn on_press(self, message: M) -> (res: Fab<M>)
        ensures
            res == (Fab { on_press: Some(message), ..self }),
    {
        Fab { on_press: Some(message), ..self }
    }

    /// Sets or clears the message published on a click.
    pub fn on_press_maybe(self, message: Option<M>) -> (res: Fab<M>)
        ensures
            res == (Fab { on_press: message, ..self }),
    {
        Fab { on_press: message, ..self }
    }

    /// Whether the button shows a label.
    pub fn is_extended(&self) -> (res: bool)
        ensures
            res == self.extended,
    {
        self.extended
    }
}

impl<M: Clone> Fab<M> {
    /// Applies a pointer event; `over` tells whether the pointer is over
    /// the button. A completed click publishes the message, if any.
    pub fn update(&self, flags: &mut HoverPress, event: PointerEvent, over: bool) -> (res: Option<M>)
        ensures
            ({
                let (next, clicked) = press_step(*old(flags), event, over, true);
                &&& *final(flags) == next
                &&& (clicked && self.on_press is Some) ==> (res matches Some(m) && cloned::<M>(self.on_press.unwrap(), m))
                &&& (!clicked || self.on_press is None) ==> res is None
            }),
    {
        if flags.update(event, over, true) {
            match &self.on_press {
                Some(m) => Some(m.clone()),
                None => None,
            }
        } else {
            None
        }
    }
}

} // verus!
