//! The dialog: a modal card over a scrim, with default action buttons,
//! dismissed by a click on the scrim.

use vstd::prelude::*;
use crate::button::Variant;
use crate::interaction::PointerEvent;

verus! {

/// A button of the default action row.
#[derive(Clone, Copy, Debug, PartialEq, Eq, Structural)]
pub enum DialogButton {
    /// Dismisses the dialog.
    Cancel,
    /// Confirms the dialog.
    Confirm,
}

impl DialogButton {
    /// The label of the button.
    pub fn label(self) -> (res: &'static str)
        ensures
            res@ == match self {
                DialogButton::Cancel => "Cancel"@,
                DialogButton::Confirm => "OK"@,
            },
    {
        match self {
            DialogButton::Cancel => "Cancel",
            DialogButton::Confirm => "OK",
        }
    }

    /// The variant of the button: a ghost Cancel, a solid OK.
    pub fn variant(self) -> (res: Variant)
        ensures
            res == match self {
                DialogButton::Cancel => Variant::Ghosted,
                DialogButton::Confirm => Variant::Solid,
            },
    {
        match self {
            DialogButton::Cancel => Variant::Ghosted,
            DialogButton::Confirm => Variant::Solid,
        }
    }
}

/// The default action row, right-aligned: Cancel when there is a
/// dismiss message, then OK when there is a confirm message; no row at
/// all when there is neither.
pub fn default_actions(has_dismiss: bool, has_confirm: bool) -> (res: Option<Vec<DialogButton>>)
    ensures
        !has_dismiss && !has_confirm ==> res is None,
        has_dismiss || has_confirm ==> (res matches Some(v) && v@ == (if has_dismiss {
            seq![DialogButton::Cancel]
        } else {
            Seq::empty()
        }) + (if has_confirm { seq![DialogButton::Confirm] } else { Seq::empty() })),
{
    if !has_dismiss && !has_confirm {
        return None;
    }
    let mut row: Vec<DialogButton> = Vec::new();
    if has_dismiss {
        row.push(DialogButton::Cancel);
    }
    if has_confirm {
        row.push(DialogButton::Confirm);
    }
    proof {
        let expected = (if has_dismiss { seq![DialogButton::Cancel] } else { Seq::empty() }) + (if has_confirm {
            seq![DialogButton::Confirm]
        } else {
            Seq::empty()
        });
        assert(row@ =~= expected);
    }
    Some(row)
}

/// The press state of a scrim.
#[derive(Clone, Copy, Debug, PartialEq, Eq, Structural)]
pub struct ScrimState {
    /// The button went down over the scrim.
    pub scrim_pressed: bool,
}

impl ScrimState {
    /// Not pressed.
    pub fn new() -> (res: ScrimState)
        ensures
            !res.scrim_pressed,
    {
        ScrimState { scrim_pressed: false }
    }

    /// Applies a pointer event the dialog card did not consume;
    /// `over_scrim` tells whether the pointer is over the scrim (outside
    /// the card). Returns whether the scrim was clicked (down and up on
    /// it), which dismisses the dialog.
    pub fn update(&mut self, event: PointerEvent, over_scrim: bool) -> (clicked: bool)
        ensures
            match event {
                PointerEvent::Pressed => final(self).scrim_pressed == (old(self).scrim_pressed || over_scrim) && !clicked,
                PointerEvent::Released => !final(self).scrim_pressed && clicked == (old(self).scrim_pressed && over_scrim),
                _ => *final(self) == *old(self) && !clicked,
            },
    {
        match event {
            PointerEvent::Pressed => {
                if over_scrim {
                    self.scrim_pressed = true;
                }
                false
            },
            PointerEvent::Released => {
                let clicked = self.scrim_pressed && over_scrim;
                self.scrim_pressed = false;
                clicked
            },
            _ => false,
        }
    }
}

} // verus!
