//! The bottom sheet: a panel sliding up from the bottom edge, resized by
//! dragging its handle and dismissed by a click on the scrim or by
//! dragging it below its minimum height. The heights (fractions of the
//! host) stay with the caller, which tells the sheet whether a drag
//! ended below the minimum.

use vstd::prelude::*;

verus! {

/// The configuration of a bottom sheet that is not geometry.
#[derive(Clone, Copy, Debug, PartialEq, Eq, Structural)]
pub struct BottomSheet {
    /// Whether the sheet covers the content with a scrim.
    pub modal: bool,
    /// Whether the sheet is shown.
    pub expanded: bool,
    /// Whether the drag handle is shown (and the sheet can be dragged).
    pub drag_handle: bool,
}

impl BottomSheet {
    /// A collapsed, non-modal sheet with a drag handle.
    pub fn new() -> (res: BottomSheet)
        ensures
            res == (BottomSheet { modal: false, expanded: false, drag_handle: true }),
    {
        BottomSheet { modal: false, expanded: false, drag_handle: true }
    }

    /// Sets whether the sheet is modal.
    pub fn modal(self, modal: bool) -> (res: BottomSheet)
        ensures
            res == (BottomSheet { modal, ..self }),
    {
        BottomSheet { modal, ..self }
    }

    /// Sets whether the sheet is shown.
    pub fn expanded(self, expanded: bool) -> (res: BottomSheet)
        ensures
            res == (BottomSheet { expanded, ..self }),
    {
        BottomSheet { expanded, ..self }
    }

    /// Shows or hides the drag handle.
    pub fn drag_handle(self, show: bool) -> (res: BottomSheet)
        ensures
            res == (BottomSheet { drag_handle: show, ..self }),
    {
        BottomSheet { drag_handle: show, ..self }
    }

    /// Whether the sheet takes the events of the content below it: it
    /// is expanded and modal.
    pub fn covers_host(&self) -> (res: bool)
        ensures
            res == (self.expanded && self.modal),
    {
        self.expanded && self.modal
    }
}

/// The pointer events an open sheet reacts to.
#[derive(Clone, Copy, Debug, PartialEq, Eq, Structural)]
pub enum SheetEvent {
    /// The left button went down: whether on the drag handle, whether
    /// over the scrim, and whether the pointer position is known.
    Pressed { on_handle: bool, over_scrim: bool, known: bool },
    /// The pointer moved (`true` when its position is known).
    Moved(bool),
    /// The left button came up: whether over the scrim, and whether the
    /// height the sheet was dragged to is below its minimum.
    Released { over_scrim: bool, below_min: bool },
    /// Any other event.
    Other,
}

/// What the caller must do after a sheet event.
#[derive(Clone, Copy, Debug, PartialEq, Eq, Structural)]
pub enum SheetAction {
    /// Nothing.
    Nothing,
    /// Remember where the drag started.
    StartDrag,
    /// Follow the pointer with the sheet's height.
    Drag,
    /// Forget the dragged height and dismiss the sheet.
    Dismiss,
    /// Forget the dragged height and publish it as the new height.
    Resize,
}

/// The interaction state of an open sheet.
#[derive(Clone, Copy, Debug, PartialEq, Eq, Structural)]
pub struct SheetState {
    /// The button went down over the scrim.
    pub scrim_pressed: bool,
    /// The handle is being dragged.
    pub dragging: bool,
}

impl SheetState {
    /// Nothing pressed or dragged.
    pub fn new() -> (res: SheetState)
        ensures
            res == (SheetState { scrim_pressed: false, dragging: false }),
    {
        SheetState { scrim_pressed: false, dragging: false }
    }

    /// Applies an event to the open sheet `sheet`. Pressing the handle
    /// starts a drag; moving drags; releasing a drag dismisses the sheet
    /// when it ends below the minimum height and resizes it otherwise.
    /// On a modal sheet, a press and release on the scrim dismisses it.
    pub fn update(&mut self, sheet: &BottomSheet, event: SheetEvent) -> (res: SheetAction)
        ensures
            match event {
                SheetEvent::Pressed { on_handle, over_scrim, known } => if on_handle && sheet.drag_handle {
                    if known {
                        *final(self) == (SheetState { dragging: true, ..*old(self) }) && res == SheetAction::StartDrag
                    } else {
                        *final(self) == *old(self) && res == SheetAction::Nothing
                    }
                } else if over_scrim && sheet.modal && !old(self).dragging {
                    *final(self) == (SheetState { scrim_pressed: true, ..*old(self) }) && res == SheetAction::Nothing
                } else {
                    *final(self) == *old(self) && res == SheetAction::Nothing
                },
                SheetEvent::Moved(known) => *final(self) == *old(self) && res == (if old(self).dragging && known {
                    SheetAction::Drag
                } else {
                    SheetAction::Nothing
                }),
                SheetEvent::Released { over_scrim, below_min } => if old(self).dragging {
                    *final(self) == (SheetState { dragging: false, ..*old(self) }) && res == (if below_min {
                        SheetAction::Dismiss
                    } else {
                        SheetAction::Resize
                    })
                } else {
                    *final(self) == (SheetState { scrim_pressed: false, ..*old(self) }) && res == (if old(
                        self,
                    ).scrim_pressed && over_scrim {
                        SheetAction::Dismiss
                    } else {
                        SheetAction::Nothing
                    })
                },
                SheetEvent::Other => *final(self) == *old(self) && res == SheetAction::Nothing,
            },
    {
        match event {
            SheetEvent::Pressed { on_handle, over_scrim, known } => {
                if on_handle && sheet.drag_handle {
                    if known {
                        self.dragging = true;
                        SheetAction::StartDrag
                    } else {
                        SheetAction::Nothing
                    }
                } else if over_scrim && sheet.modal && !self.dragging {
                    self.scrim_pressed = true;
                    SheetAction::Nothing
                } else {
                    SheetAction::Nothing
                }
            },
            SheetEvent::Moved(known) => {
                if self.dragging && known {
                    SheetAction::Drag
                } else {
                    SheetAction::Nothing
                }
            },
            SheetEvent::Released { over_scrim, below_min } => {
                if self.dragging {
                    self.dragging = false;
                    if below_min {
                        SheetAction::Dismiss
                    } else {
                        SheetAction::Resize
                    }
                } else {
                    let dismiss = self.scrim_pressed && over_scrim;
                    self.scrim_pressed = false;
                    if dismiss {
                        SheetAction::Dismiss
                    } else {
                        SheetAction::Nothing
                    }
                }
            },
            SheetEvent::Other => SheetAction::Nothing,
        }
    }
}

} // verus!
