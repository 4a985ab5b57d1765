//! The navigation drawer: a side sheet listing destinations, dividers
//! and section headers, dismissed by a click on the scrim.

use vstd::prelude::*;
use crate::interaction::PointerEvent;

verus! {

/// An entry of a navigation drawer.
#[derive(Clone, Debug)]
pub enum DrawerItem {
    /// A selectable destination with its label.
    Destination(String),
    /// A horizontal divider.
    Divider,
    /// A section header with its text.
    Header(String),
}

impl DrawerItem {
    /// A destination with the given label.
    pub fn destination(label: String) -> (res: DrawerItem)
        ensures
            res == DrawerItem::Destination(label),
    {
        DrawerItem::Destination(label)
    }

    /// A divider.
    pub fn divider() -> (res: DrawerItem)
        ensures
            res == DrawerItem::Divider,
    {
        DrawerItem::Divider
    }

    /// A section header with the given text.
    pub fn header(text: String) -> (res: DrawerItem)
        ensures
            res == DrawerItem::Header(text),
    {
        DrawerItem::Header(text)
    }
}

/// The number of destinations among `items`.
pub open spec fn destination_count(items: Seq<DrawerItem>) -> nat
    decreases items.len(),
{
    if items.len() == 0 {
        0
    } else {
        destination_count(items.drop_last()) + if items.last() is Destination { 1nat } else { 0nat }
    }
}

/// The destination number of item `index`: how many destinations come
/// before it, when it is a destination itself; `None` otherwise or out
/// of range.
pub open spec fn spec_destination_index_at(items: Seq<DrawerItem>, index: int) -> Option<nat> {
    if 0 <= index < items.len() && items[index] is Destination {
        Some(destination_count(items.take(index)))
    } else {
        None
    }
}

/// The destination number of item `index`, counting destinations only
/// (dividers and headers are skipped).
pub fn destination_index_at(items: &Vec<DrawerItem>, index: usize) -> (res: Option<usize>)
    ensures
        res matches Some(d) ==> spec_destination_index_at(items@, index as int) == Some(d as nat),
        res is None ==> spec_destination_index_at(items@, index as int) is None,
{
    let mut dest: usize = 0;
    let mut i: usize = 0;
    while i < items.len()
        invariant
            i <= items@.len(),
            i <= index,
            dest as nat == destination_count(items@.take(i as int)),
            dest <= i,
        decreases items@.len() - i,
    {
        assert(items@.take(i + 1).drop_last() =~= items@.take(i as int));
        if i == index {
            return match &items[i] {
                DrawerItem::Destination(_) => Some(dest),
                _ => None,
            };
        }
        if let DrawerItem::Destination(_) = &items[i] {
            dest = dest + 1;
        }
        i = i + 1;
    }
    None
}

/// The height of a drawer item in logical pixels.
pub open spec fn item_height(item: DrawerItem) -> nat {
    match item {
        DrawerItem::Destination(_) => 56,
        DrawerItem::Header(_) => 56,
        DrawerItem::Divider => 17,
    }
}

/// Where the band of item `count` starts: the heights of the items
/// before it, stacked.
pub open spec fn band_start(items: Seq<DrawerItem>, count: int) -> nat
    decreases count,
{
    if count <= 0 || items.len() == 0 {
        0
    } else if count > items.len() {
        band_start(items, items.len() as int)
    } else {
        band_start(items, count - 1) + item_height(items[count - 1])
    }
}

/// The height of a drawer item in logical pixels.
pub fn height_of(item: &DrawerItem) -> (res: u64)
    ensures
        res == item_height(*item),
{
    match item {
        DrawerItem::Destination(_) => 56,
        DrawerItem::Header(_) => 56,
        DrawerItem::Divider => 17,
    }
}

/// The item whose band holds `offset` (pixels below the top of the
/// first item), the items being stacked top to bottom; `None` below the
/// last one.
pub fn item_at_offset(items: &Vec<DrawerItem>, offset: u64) -> (res: Option<usize>)
    ensures
        res matches Some(i) ==> i < items@.len() && band_start(items@, i as int) <= offset
            < band_start(items@, i as int) + item_height(items@[i as int]),
        res is None ==> offset >= band_start(items@, items@.len() as int),
{
    let mut y: u64 = 0;
    let mut i: usize = 0;
    while i < items.len()
        invariant
            i <= items@.len(),
            y == band_start(items@, i as int),
            offset >= y,
        decreases items@.len() - i,
    {
        let h = height_of(&items[i]);
        assert(band_start(items@, i + 1) == band_start(items@, i as int) + item_height(items@[i as int]));
        if offset - y < h {
            return Some(i);
        }
        y = y + h;
        i = i + 1;
    }
    None
}

/// The destination under the pointer, from its offset below the top of
/// the first item.
pub fn destination_at_offset(items: &Vec<DrawerItem>, offset: u64) -> (res: Option<usize>)
    ensures
        res matches Some(d) ==> exists|i: int| 0 <= i < items@.len() && band_start(items@, i) <= offset
            < band_start(items@, i) + item_height(items@[i]) && spec_destination_index_at(items@, i) == Some(d as nat),
        res is None ==> forall|i: int| 0 <= i < items@.len() && band_start(items@, i) <= offset
            < band_start(items@, i) + item_height(items@[i]) ==> !(items@[i] is Destination),
{
    match item_at_offset(items, offset) {
        Some(i) => {
            let d = destination_index_at(items, i);
            proof {
                lemma_bands_disjoint(items@, i as int);
            }
            d
        },
        None => {
            proof {
                assert forall|j: int| 0 <= j < items@.len() implies band_start(items@, j) + item_height(items@[j])
                    <= band_start(items@, items@.len() as int) by {
                    lemma_band_monotone(items@, j + 1, items@.len() as int);
                }
            }
            None
        },
    }
}

/// Bands start no earlier for later items.
proof fn lemma_band_monotone(items: Seq<DrawerItem>, a: int, b: int)
    requires
        0 <= a <= b <= items.len(),
    ensures
        band_start(items, a) <= band_start(items, b),
    decreases b - a,
{
    if a < b {
        lemma_band_monotone(items, a, b - 1);
    }
}

/// No other item's band holds an offset inside the band of item `i`.
proof fn lemma_bands_disjoint(items: Seq<DrawerItem>, i: int)
    requires
        0 <= i < items.len(),
    ensures
        forall|j: int| 0 <= j < items.len() && j != i ==> band_start(items, j) + item_height(items[j])
            <= band_start(items, i) || band_start(items, i) + item_height(items[i]) <= band_start(items, j),
{
    assert forall|j: int| 0 <= j < items.len() && j != i implies band_start(items, j) + item_height(items[j])
        <= band_start(items, i) || band_start(items, i) + item_height(items[i]) <= band_start(items, j) by {
        if j < i {
            lemma_band_monotone(items, j + 1, i);
        } else {
            lemma_band_monotone(items, i + 1, j);
        }
    }
}

/// What a drawer event asks of the application.
#[derive(Clone, Copy, Debug, PartialEq, Eq, Structural)]
pub enum DrawerAction {
    /// Nothing.
    Nothing,
    /// Destination `n` was selected.
    Select(usize),
    /// The drawer should be dismissed.
    Dismiss,
}

/// The interaction state of an open drawer.
#[derive(Clone, Copy, Debug, PartialEq, Eq, Structural)]
pub struct DrawerState {
    /// The button went down over the scrim.
    pub scrim_pressed: bool,
    /// The destination under the pointer.
    pub hovered_destination: Option<usize>,
    /// The destination the button went down on.
    pub pressed_destination: Option<usize>,
}

impl DrawerState {
    /// Nothing pressed or hovered.
    pub fn new() -> (res: DrawerState)
        ensures
            res == (DrawerState { scrim_pressed: false, hovered_destination: None, pressed_destination: None }),
    {
        DrawerState { scrim_pressed: false, hovered_destination: None, pressed_destination: None }
    }

    /// Applies a pointer event to an open modal drawer; `hovered` is the
    /// destination under the pointer and `over_scrim` tells whether the
    /// pointer is over the scrim. A destination is selected when the
    /// button goes down and comes up on it; a press and release on the
    /// scrim dismisses the drawer.
    pub fn update(&mut self, event: PointerEvent, hovered: Option<usize>, over_scrim: bool) -> (res: DrawerAction)
        ensures
            match event {
                PointerEvent::Moved => *final(self) == (DrawerState { hovered_destination: hovered, ..*old(self) })
                    && res == DrawerAction::Nothing,
                PointerEvent::Pressed => res == DrawerAction::Nothing && (if hovered is Some {
                    *final(self) == (DrawerState { pressed_destination: hovered, ..*old(self) })
                } else if over_scrim {
                    *final(self) == (DrawerState { scrim_pressed: true, ..*old(self) })
                } else {
                    *final(self) == *old(self)
                }),
                PointerEvent::Released => {
                    &&& *final(self) == (DrawerState { scrim_pressed: false, pressed_destination: None, ..*old(self) })
                    &&& res == match old(self).pressed_destination {
                        Some(p) => if old(self).hovered_destination == Some(p) {
                            DrawerAction::Select(p)
                        } else {
                            DrawerAction::Nothing
                        },
                        None => if old(self).scrim_pressed && over_scrim {
                            DrawerAction::Dismiss
                        } else {
                            DrawerAction::Nothing
                        },
                    }
                },
                PointerEvent::Other => *final(self) == *old(self) && res == DrawerAction::Nothing,
            },
    {
        match event {
            PointerEvent::Moved => {
                self.hovered_destination = hovered;
                DrawerAction::Nothing
            },
            PointerEvent::Pressed => {
                if hovered.is_some() {
                    self.pressed_destination = hovered;
                } else if over_scrim {
                    self.scrim_pressed = true;
                }
                DrawerAction::Nothing
            },
            PointerEvent::Released => {
                let action = match self.pressed_destination {
                    Some(p) => {
                        if self.hovered_destination == Some(p) {
                            DrawerAction::Select(p)
                        } else {
                            DrawerAction::Nothing
                        }
                    },
                    None => {
                        if self.scrim_pressed && over_scrim {
                            DrawerAction::Dismiss
                        } else {
                            DrawerAction::Nothing
                        }
                    },
                };
                self.scrim_pressed = false;
                self.pressed_destination = None;
                action
            },
            PointerEvent::Other => DrawerAction::Nothing,
        }
    }
}

/// A navigation drawer: its items, the active destination, and whether
/// it is modal and expanded.
pub struct NavigationDrawer {
    /// The items, top to bottom.
    pub items: Vec<DrawerItem>,
    /// The active destination.
    pub active: Option<usize>,
    /// Whether the drawer covers the content with a scrim.
    pub modal: bool,
    /// Whether the drawer is shown.
    pub expanded: bool,
}

impl NavigationDrawer {
    /// An empty, collapsed, non-modal drawer.
    pub fn new() -> (res: NavigationDrawer)
        ensures
            res.items@.len() == 0,
            res.active is None,
            !res.modal,
            !res.expanded,
    {
        NavigationDrawer { items: Vec::new(), active: None, modal: false, expanded: false }
    }

    /// Appends an item.
    pub fn push(self, item: DrawerItem) -> (res: NavigationDrawer)
        ensures
            res.items@ == self.items@.push(item),
            res.active == self.active,
            res.modal == self.modal,
            res.expanded == self.expanded,
    {
        let mut d = self;
        d.items.push(item);
        d
    }

    /// Sets the active destination.
    pub fn active(self, index: usize) -> (res: NavigationDrawer)
        ensures
            res.items@ == self.items@,
            res.active == Some(index),
            res.modal == self.modal,
            res.expanded == self.expanded,
    {
        NavigationDrawer { active: Some(index), ..self }
    }

    /// Sets whether the drawer is modal.
    pub fn modal(self, modal: bool) -> (res: NavigationDrawer)
        ensures
            res.items@ == self.items@,
            res.active == self.active,
            res.modal == modal,
            res.expanded == self.expanded,
    {
        NavigationDrawer { modal, ..self }
    }

    /// Sets whether the drawer is shown.
    pub fn expanded(self, expanded: bool) -> (res: NavigationDrawer)
        ensures
            res.items@ == self.items@,
            res.active == self.active,
            res.modal == self.modal,
            res.expanded == expanded,
    {
        NavigationDrawer { expanded, ..self }
    }

    /// Whether the drawer overlays the content and takes its events: it
    /// is expanded and modal.
    pub fn covers_host(&self) -> (res: bool)
        ensures
            res == (self.expanded && self.modal),
    {
        self.expanded && self.modal
    }
}

} // verus!
