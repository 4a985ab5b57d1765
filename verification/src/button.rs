//! The push button: its variants and sizes, its interaction status,
//! and when a click publishes its message.

use vstd::prelude::*;
use crate::interaction::PointerEvent;

verus! {

/// The visual variant of a button.
#[derive(Clone, Copy, Debug, PartialEq, Eq, Structural)]
pub enum Variant {
    /// Filled background with contrasting text (the default).
    Solid,
    /// Border outline with no fill.
    Outline,
    /// Transparent at rest; gains a subtle background on hover.
    Ghosted,
}

impl Default for Variant {
    fn default() -> (res: Variant)
        ensures
            res == Variant::Solid,
    {
        Variant::Solid
    }
}

/// The size of a button.
#[derive(Clone, Copy, Debug, PartialEq, Eq, Structural)]
pub enum ButtonSize {
    /// Small: 24px high.
    Sm,
    /// Medium: 32px high (the default).
    Md,
    /// Large: 40px high.
    Lg,
}

impl Default for ButtonSize {
    fn default() -> (res: ButtonSize)
        ensures
            res == ButtonSize::Md,
    {
        ButtonSize::Md
    }
}

impl ButtonSize {
    /// The button height in logical pixels.
    pub fn height(self) -> (res: u32)
        ensures
            res == match self {
                ButtonSize::Sm => 24u32,
                ButtonSize::Md => 32u32,
                ButtonSize::Lg => 40u32,
            },
    {
        match self {
            ButtonSize::Sm => 24,
            ButtonSize::Md => 32,
            ButtonSize::Lg => 40,
        }
    }

    /// The horizontal padding in logical pixels.
    pub fn h_padding(self) -> (res: u32)
        ensures
            res == match self {
                ButtonSize::Sm => 8u32,
                ButtonSize::Md => 12u32,
                ButtonSize::Lg => 16u32,
            },
    {
        match self {
            ButtonSize::Sm => 8,
            ButtonSize::Md => 12,
            ButtonSize::Lg => 16,
        }
    }
}

/// The interaction status of a button.
#[derive(Clone, Copy, Debug, PartialEq, Eq, Structural)]
pub enum Status {
    Active,
    Hovered,
    Pressed,
    Focused,
    Disabled,
}

/// The status shown for a button.
pub open spec fn spec_status(enabled: bool, pressed: bool, over: bool) -> Status {
    if !enabled {
        Status::Disabled
    } else if pressed {
        Status::Pressed
    } else if over {
        Status::Hovered
    } else {
        Status::Active
    }
}

/// The status shown for a button: disabled, else pressed, else hovered
/// while the pointer is over it, else active.
pub fn status(enabled: bool, pressed: bool, over: bool) -> (res: Status)
    ensures
        res == spec_status(enabled, pressed, over),
{
    if !enabled {
        Status::Disabled
    } else if pressed {
        Status::Pressed
    } else if over {
        Status::Hovered
    } else {
        Status::Active
    }
}

/// The events a button reacts to.
#[derive(Clone, Copy, Debug, PartialEq, Eq, Structural)]
pub enum ButtonEvent {
    /// A pointer event.
    Pointer(PointerEvent),
    /// The window is about to be redrawn.
    RedrawRequested,
}

/// The interaction state of a button.
#[derive(Clone, Copy, Debug, PartialEq, Eq, Structural)]
pub struct ButtonState {
    /// The button went down over the button and has not come up.
    pub is_pressed: bool,
    /// The status drawn in the last frame.
    pub last_status: Option<Status>,
}

impl ButtonState {
    /// Not pressed, nothing drawn yet.
    pub fn new() -> (res: ButtonState)
        ensures
            res == (ButtonState { is_pressed: false, last_status: None }),
    {
        ButtonState { is_pressed: false, last_status: None }
    }
}

/// A push button: its look and the message it publishes when clicked.
pub struct Button<M> {
    /// The visual variant.
    pub variant: Variant,
    /// The size.
    pub size: ButtonSize,
    /// The message published on a click.
    pub on_press: Option<M>,
    /// Whether the button responds.
    pub enabled: bool,
}

impl<M> Button<M> {
    /// Whether the button reacts to clicks: enabled and with a message.
    pub open spec fn spec_interactive(&self) -> bool {
        self.enabled && self.on_press is Some
    }

    /// The pressed flag after a pointer event.
    pub open spec fn next_pressed(&self, pressed: bool, event: ButtonEvent, over: bool) -> bool {
        if !self.spec_interactive() {
            pressed
        } else {
            match event {
                ButtonEvent::Pointer(PointerEvent::Pressed) => pressed || over,
                ButtonEvent::Pointer(PointerEvent::Released) => false,
                ButtonEvent::Pointer(PointerEvent::Moved) => pressed && over,
                _ => pressed,
            }
        }
    }

    /// A solid, medium, enabled button without a message.
    pub fn new() -> (res: Button<M>)
        ensures
            res.variant == Variant::Solid,
            res.size == ButtonSize::Md,
            res.on_press is None,
            res.enabled,
    {
        Button { variant: Variant::Solid, size: ButtonSize::Md, on_press: None, enabled: true }
    }

    /// Sets the variant.
    pub fn variant(self, variant: Variant) -> (res: Button<M>)
        ensures
            res == (Button { variant, ..self }),
    {
        Button { variant, ..self }
    }

    /// Sets the size.
    pub fn size(self, size: ButtonSize) -> (res: Button<M>)
        ensures
            res == (Button { size, ..self }),
    {
        Button { size, ..self }
    }

    /// Sets the message published on a click.
    pub fn on_press(self, message: M) -> (res: Button<M>)
        ensures
            res == (Button { on_press: Some(message), ..self }),
    {
        Button { on_press: Some(message), ..self }
    }

    /// Sets or clears the message published on a click.
    pub fn on_press_maybe(self, message: Option<M>) -> (res: Button<M>)
        ensures
            res == (Button { on_press: message, ..self }),
    {
        Button { on_press: message, ..self }
    }

    /// Enables or disables the button.
    pub fn enabled(self, enabled: bool) -> (res: Button<M>)
        ensures
            res == (Button { enabled, ..self }),
    {
        Button { enabled, ..self }
    }

    /// Whether the button reacts to clicks.
    pub fn is_interactive(&self) -> (res: bool)
        ensures
            res == self.spec_interactive(),
    {
        self.enabled && self.on_press.is_some()
    }
}

impl<M: Clone> Button<M> {
    /// Applies an event; `over` tells whether the pointer is over the
    /// button. Returns the message to publish (a click of an
    /// interactive button: down and up over it) and whether a redraw is
    /// needed because the status differs from the last one drawn. A
    /// redraw request records the current status.
    pub fn update(&self, state: &mut ButtonState, event: ButtonEvent, over: bool) -> (res: (Option<M>, bool))
        ensures
            final(state).is_pressed == self.next_pressed(old(state).is_pressed, event, over),
            ({
                let clicked = self.spec_interactive() && event == ButtonEvent::Pointer(PointerEvent::Released)
                    && old(state).is_pressed && over;
                &&& clicked ==> (res.0 matches Some(m) && cloned::<M>(self.on_press.unwrap(), m))
                &&& !clicked ==> res.0 is None
            }),
            ({
                let current = spec_status(self.enabled, final(state).is_pressed, over);
                if event == ButtonEvent::RedrawRequested {
                    final(state).last_status == Some(current) && !res.1
                } else {
                    final(state).last_status == old(state).last_status
                        && res.1 == (old(state).last_status matches Some(s) && s != current)
                }
            }),
    {
        let mut message: Option<M> = None;
        if self.is_interactive() {
            match event {
                ButtonEvent::Pointer(PointerEvent::Pressed) => {
                    if over {
                        state.is_pressed = true;
                    }
                },
                ButtonEvent::Pointer(PointerEvent::Released) => {
                    if state.is_pressed && over {
                        message = match &self.on_press {
                            Some(m) => Some(m.clone()),
                            None => None,
                        };
                    }
                    state.is_pressed = false;
                },
                ButtonEvent::Pointer(PointerEvent::Moved) => {
                    if !over {
                        state.is_pressed = false;
                    }
                },
                _ => {},
            }
        }
        let current = status(self.enabled, state.is_pressed, over);
        let mut redraw = false;
        match event {
            ButtonEvent::RedrawRequested => {
                state.last_status = Some(current);
            },
            _ => {
                if let Some(s) = state.last_status {
                    redraw = s != current;
                }
            },
        }
        (message, redraw)
    }
}

} // verus!
