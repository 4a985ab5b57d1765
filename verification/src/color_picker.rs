//! The color picker: the code formats of its color readout and the
//! state machine of its popup. The color itself (hue, saturation,
//! value) and the geometry of the popup stay with the caller.

use vstd::prelude::*;
use crate::text::{decimal, push_char, write_decimal};

verus! {

/// The status of the color picker's swatch.
#[derive(Clone, Copy, Debug, PartialEq, Eq, Structural)]
pub enum Status {
    /// The popup is closed.
    Idle,
    /// The popup is open.
    Open,
}

/// The status shown for the swatch.
pub fn status(open: bool) -> (res: Status)
    ensures
        res == (if open { Status::Open } else { Status::Idle }),
{
    if open { Status::Open } else { Status::Idle }
}

/// The notation of the color code shown in the popup.
#[derive(Clone, Copy, Debug, PartialEq, Eq, Structural)]
pub enum ColorFormat {
    /// `#RRGGBB` (the default).
    Hex,
    /// `rgb(r g b)`.
    Rgb,
    /// `hsl(h s% l%)`.
    Hsl,
    /// `oklch(l% c h)`.
    Oklch,
}

impl Default for ColorFormat {
    fn default() -> (res: ColorFormat)
        ensures
            res == ColorFormat::Hex,
    {
        ColorFormat::Hex
    }
}

impl ColorFormat {
    /// The format after this one in the cycle Hex → Rgb → Hsl → Oklch →
    /// Hex.
    pub open spec fn spec_next(self) -> ColorFormat {
        match self {
            ColorFormat::Hex => ColorFormat::Rgb,
            ColorFormat::Rgb => ColorFormat::Hsl,
            ColorFormat::Hsl => ColorFormat::Oklch,
            ColorFormat::Oklch => ColorFormat::Hex,
        }
    }

    /// The format shown after a click on the code.
    pub fn next(self) -> (res: ColorFormat)
        ensures
            res == self.spec_next(),
    {
        match self {
            ColorFormat::Hex => ColorFormat::Rgb,
            ColorFormat::Rgb => ColorFormat::Hsl,
            ColorFormat::Hsl => ColorFormat::Oklch,
            ColorFormat::Oklch => ColorFormat::Hex,
        }
    }
}

/// Four clicks on the code bring back the format, and all four formats
/// are visited on the way.
pub proof fn lemma_format_cycle(f: ColorFormat)
    ensures
        f.spec_next().spec_next().spec_next().spec_next() == f,
        f != f.spec_next(),
        f != f.spec_next().spec_next(),
        f != f.spec_next().spec_next().spec_next(),
{
}

/// The upper-case hexadecimal digit of a value below sixteen.
pub open spec fn hex_digit(d: int) -> char {
    if d < 10 { ((d + 48) as u32) as char } else { ((d + 55) as u32) as char }
}

/// Two upper-case hexadecimal digits of a byte.
pub open spec fn hex_byte(b: u8) -> Seq<char> {
    seq![hex_digit(b as int / 16), hex_digit(b as int % 16)]
}

/// The `#RRGGBB` code of a color.
pub open spec fn hex_code(r: u8, g: u8, b: u8) -> Seq<char> {
    seq!['#'] + hex_byte(r) + hex_byte(g) + hex_byte(b)
}

/// The `rgb(r g b)` code of a color.
pub open spec fn rgb_code(r: u8, g: u8, b: u8) -> Seq<char> {
    "rgb("@ + decimal(r as nat) + seq![' '] + decimal(g as nat) + seq![' '] + decimal(b as nat) + seq![')']
}

/// The hexadecimal digit of a value below sixteen.
fn hex_char(d: u8) -> (res: char)
    requires
        d < 16,
    ensures
        res == hex_digit(d as int),
{
    let code: u8 = if d < 10 { d + 48 } else { d + 55 };
    code as char
}

/// Appends the two hexadecimal digits of a byte.
fn push_hex_byte(s: &mut String, b: u8)
    ensures
        final(s)@ == old(s)@ + hex_byte(b),
{
    push_char(s, hex_char(b / 16));
    push_char(s, hex_char(b % 16));
    assert(final(s)@ =~= old(s)@ + hex_byte(b));
}

/// The `#RRGGBB` code of a color, upper-case.
pub fn hex_label(r: u8, g: u8, b: u8) -> (res: String)
    ensures
        res@ == hex_code(r, g, b),
{
    let mut s = String::new();
    push_char(&mut s, '#');
    push_hex_byte(&mut s, r);
    push_hex_byte(&mut s, g);
    push_hex_byte(&mut s, b);
    assert(s@ =~= hex_code(r, g, b));
    s
}

/// The `rgb(r g b)` code of a color, channels in decimal.
pub fn rgb_label(r: u8, g: u8, b: u8) -> (res: String)
    ensures
        res@ == rgb_code(r, g, b),
{
    let mut s = String::new();
    push_char(&mut s, 'r');
    push_char(&mut s, 'g');
    push_char(&mut s, 'b');
    push_char(&mut s, '(');
    proof {
        reveal_strlit("rgb(");
    }
    write_decimal(&mut s, r as u64);
    push_char(&mut s, ' ');
    write_decimal(&mut s, g as u64);
    push_char(&mut s, ' ');
    write_decimal(&mut s, b as u64);
    push_char(&mut s, ')');
    assert(s@ =~= rgb_code(r, g, b));
    s
}

/// The control being dragged in the popup.
#[derive(Clone, Copy, Debug, PartialEq, Eq, Structural)]
pub enum DragTarget {
    /// The saturation/value square.
    SaturationValue,
    /// The hue bar.
    Hue,
}

/// Where a press in the open popup landed.
#[derive(Clone, Copy, Debug, PartialEq, Eq, Structural)]
pub enum PopupPress {
    /// Outside the popup and the swatch.
    Outside,
    /// On the color code.
    Code,
    /// On the copy button.
    Copy,
    /// On the saturation/value square.
    SaturationValue,
    /// On the hue bar.
    Hue,
    /// Elsewhere in the popup (or on the swatch).
    Elsewhere,
    /// The pointer position is unknown.
    NoPosition,
}

/// The events the open popup reacts to.
#[derive(Clone, Copy, Debug, PartialEq, Eq, Structural)]
pub enum PopupEvent {
    /// The left button went down.
    Press(PopupPress),
    /// The pointer moved (`true` when its position is known).
    Moved(bool),
    /// The left button came up.
    Released,
    /// Escape was pressed.
    Escape,
    /// Any other event.
    Other,
}

/// What the caller must do after a popup event.
#[derive(Clone, Copy, Debug, PartialEq, Eq, Structural)]
pub enum PopupAction {
    /// Nothing.
    Nothing,
    /// Publish the edited color.
    Publish,
    /// Copy the color code in the given format to the clipboard.
    Copy(ColorFormat),
    /// Move the dragged control to the pointer.
    Drag(DragTarget),
}

/// The state of a color picker: whether the popup is open, what is
/// being dragged, and the format of the code.
#[derive(Clone, Copy, Debug, PartialEq, Eq, Structural)]
pub struct PickerState {
    /// The popup is open.
    pub open: bool,
    /// The control being dragged.
    pub dragging: Option<DragTarget>,
    /// The format of the color code.
    pub color_format: ColorFormat,
}

impl PickerState {
    /// Closed, nothing dragged, hexadecimal code.
    pub fn new() -> (res: PickerState)
        ensures
            res == (PickerState { open: false, dragging: None, color_format: ColorFormat::Hex }),
    {
        PickerState { open: false, dragging: None, color_format: ColorFormat::Hex }
    }

    /// A press on the swatch opens the closed popup; returns whether it
    /// did (the caller then loads the current color for editing).
    pub fn swatch_pressed(&mut self, over_swatch: bool) -> (opened: bool)
        ensures
            opened == (over_swatch && !old(self).open),
            opened ==> *final(self) == (PickerState { open: true, ..*old(self) }),
            !opened ==> *final(self) == *old(self),
    {
        if over_swatch && !self.open {
            self.open = true;
            true
        } else {
            false
        }
    }

    /// Applies an event to the open popup. A press outside, a press
    /// without a position, Escape, and releasing a drag publish the
    /// color (the first three also close the popup); a press on the
    /// code switches its format; a press on the copy button copies the
    /// code; a press on a control starts dragging it, and moving drags
    /// it.
    pub fn update(&mut self, event: PopupEvent) -> (res: PopupAction)
        ensures
            match event {
                PopupEvent::Press(PopupPress::Outside) | PopupEvent::Press(PopupPress::NoPosition)
                | PopupEvent::Escape => *final(self) == (PickerState { open: false, ..*old(self) })
                    && res == PopupAction::Publish,
                PopupEvent::Press(PopupPress::Code) => *final(self) == (PickerState {
                    color_format: old(self).color_format.spec_next(),
                    ..*old(self)
                }) && res == PopupAction::Nothing,
                PopupEvent::Press(PopupPress::Copy) => *final(self) == *old(self) && res == PopupAction::Copy(
                    old(self).color_format,
                ),
                PopupEvent::Press(PopupPress::SaturationValue) => *final(self) == (PickerState {
                    dragging: Some(DragTarget::SaturationValue),
                    ..*old(self)
                }) && res == PopupAction::Drag(DragTarget::SaturationValue),
                PopupEvent::Press(PopupPress::Hue) => *final(self) == (PickerState {
                    dragging: Some(DragTarget::Hue),
                    ..*old(self)
                }) && res == PopupAction::Drag(DragTarget::Hue),
                PopupEvent::Press(PopupPress::Elsewhere) => *final(self) == *old(self) && res == PopupAction::Nothing,
                PopupEvent::Moved(known) => *final(self) == *old(self) && res == (match old(self).dragging {
                    Some(t) => if known { PopupAction::Drag(t) } else { PopupAction::Nothing },
                    None => PopupAction::Nothing,
                }),
                PopupEvent::Released => if old(self).dragging is Some {
                    *final(self) == (PickerState { dragging: None, ..*old(self) }) && res == PopupAction::Publish
                } else {
                    *final(self) == *old(self) && res == PopupAction::Nothing
                },
                PopupEvent::Other => *final(self) == *old(self) && res == PopupAction::Nothing,
            },
    {
        match event {
            PopupEvent::Press(press) => match press {
                PopupPress::Outside | PopupPress::NoPosition => {
                    self.open = false;
                    PopupAction::Publish
                },
                PopupPress::Code => {
                    self.color_format = self.color_format.next();
                    PopupAction::Nothing
                },
                PopupPress::Copy => PopupAction::Copy(self.color_format),
                PopupPress::SaturationValue => {
                    self.dragging = Some(DragTarget::SaturationValue);
                    PopupAction::Drag(DragTarget::SaturationValue)
                },
                PopupPress::Hue => {
                    self.dragging = Some(DragTarget::Hue);
                    PopupAction::Drag(DragTarget::Hue)
                },
                PopupPress::Elsewhere => PopupAction::Nothing,
            },
            PopupEvent::Moved(known) => match self.dragging {
                Some(t) => if known { PopupAction::Drag(t) } else { PopupAction::Nothing },
                None => PopupAction::Nothing,
            },
            PopupEvent::Released => {
                if self.dragging.is_some() {
                    self.dragging = None;
                    PopupAction::Publish
                } else {
                    PopupAction::Nothing
                }
            },
            PopupEvent::Escape => {
                self.open = false;
                PopupAction::Publish
            },
            PopupEvent::Other => PopupAction::Nothing,
        }
    }
}

} // verus!
