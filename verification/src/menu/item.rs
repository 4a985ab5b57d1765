//! The entries of a menu: items, separators and nested submenus, and
//! the shortcuts they declare.

use vstd::prelude::*;
use crate::menu::shortcut::{Key, KeyBinding, Modifiers};
use crate::text::push_char;

verus! {

/// A leading icon of a menu item: a glyph or short text.
#[derive(Clone, Debug)]
pub struct Icon {
    /// The text drawn as the icon.
    pub content: String,
}

impl Icon {
    /// An icon showing one character.
    pub fn from_char(glyph: char) -> (res: Icon)
        ensures
            res.content@ == seq![glyph],
    {
        let mut content = String::new();
        push_char(&mut content, glyph);
        assert(content@ =~= seq![glyph]);
        Icon { content }
    }

    /// An icon showing a text.
    pub fn from_text(content: String) -> (res: Icon)
        ensures
            res.content == content,
    {
        Icon { content }
    }
}

/// A clickable entry of a menu.
pub struct Item<M> {
    /// The text of the entry.
    pub label: String,
    /// An optional leading icon.
    pub icon: Option<Icon>,
    /// The shortcut shown on the right, also collected by the menu bar.
    pub shortcut: Option<KeyBinding>,
    /// The message published when the entry is activated.
    pub on_press: Option<M>,
    /// Whether the entry can be activated.
    pub enabled: bool,
    /// Whether a check mark is shown.
    pub checked: bool,
}

impl<M> Item<M> {
    /// Whether clicking or pressing Enter on the entry activates it.
    pub open spec fn spec_activatable(self) -> bool {
        self.enabled && self.on_press is Some
    }

    /// A new enabled, unchecked entry with the given label and nothing
    /// else.
    pub fn new(label: String) -> (res: Item<M>)
        ensures
            res.label == label,
            res.icon is None,
            res.shortcut is None,
            res.on_press is None,
            res.enabled,
            !res.checked,
    {
        Item { label, icon: None, shortcut: None, on_press: None, enabled: true, checked: false }
    }

    /// Sets the icon.
    pub fn icon(self, icon: Icon) -> (res: Item<M>)
        ensures
            res == (Item { icon: Some(icon), ..self }),
    {
        Item { icon: Some(icon), ..self }
    }

    /// Sets the shortcut.
    pub fn shortcut(self, binding: KeyBinding) -> (res: Item<M>)
        ensures
            res == (Item { shortcut: Some(binding), ..self }),
    {
        Item { shortcut: Some(binding), ..self }
    }

    /// Sets the message published on activation.
    pub fn on_press(self, message: M) -> (res: Item<M>)
        ensures
            res == (Item { on_press: Some(message), ..self }),
    {
        Item { on_press: Some(message), ..self }
    }

    /// Enables or disables the entry.
    pub fn enabled(self, enabled: bool) -> (res: Item<M>)
        ensures
            res == (Item { enabled, ..self }),
    {
        Item { enabled, ..self }
    }

    /// Shows or hides the check mark.
    pub fn checked(self, checked: bool) -> (res: Item<M>)
        ensures
            res == (Item { checked, ..self }),
    {
        Item { checked, ..self }
    }

    /// Whether the entry can be activated: enabled and with a message.
    pub fn is_activatable(&self) -> (res: bool)
        ensures
            res == self.spec_activatable(),
    {
        self.enabled && self.on_press.is_some()
    }
}

/// A horizontal line between groups of entries.
#[derive(Clone, Copy, Debug)]
pub struct Separator;

/// A titled list of entries, shown as a drop-down from the menu bar or
/// as a submenu.
pub struct Menu<M> {
    /// The title.
    pub label: String,
    /// The entries, top to bottom.
    pub entries: Vec<Entry<M>>,
}

/// One entry of a menu.
pub enum Entry<M> {
    /// A clickable item.
    Item(Item<M>),
    /// A separator line.
    Separator,
    /// A nested menu.
    Submenu(Menu<M>),
}

/// What can be pushed onto a menu as an entry.
pub trait IntoEntry<M>: Sized {
    /// The entry this value becomes.
    spec fn spec_entry(self) -> Entry<M>;

    /// Converts the value into an entry.
    fn into_entry(self) -> (res: Entry<M>)
        ensures
            res == self.spec_entry(),
    ;
}

impl<M> IntoEntry<M> for Item<M> {
    open spec fn spec_entry(self) -> Entry<M> {
        Entry::Item(self)
    }

    fn into_entry(self) -> (res: Entry<M>) {
        Entry::Item(self)
    }
}

impl<M> IntoEntry<M> for Separator {
    open spec fn spec_entry(self) -> Entry<M> {
        Entry::Separator
    }

    fn into_entry(self) -> (res: Entry<M>) {
        Entry::Separator
    }
}

impl<M> IntoEntry<M> for Menu<M> {
    open spec fn spec_entry(self) -> Entry<M> {
        Entry::Submenu(self)
    }

    fn into_entry(self) -> (res: Entry<M>) {
        Entry::Submenu(self)
    }
}

impl<M> IntoEntry<M> for Entry<M> {
    open spec fn spec_entry(self) -> Entry<M> {
        self
    }

    fn into_entry(self) -> (res: Entry<M>) {
        self
    }
}

impl<M> Menu<M> {
    /// An empty menu with the given title.
    pub fn new(label: String) -> (res: Menu<M>)
        ensures
            res.label == label,
            res.entries@ == Seq::<Entry<M>>::empty(),
    {
        Menu { label, entries: Vec::new() }
    }

    /// Appends an entry.
    pub fn push<E: IntoEntry<M>>(self, item: E) -> (res: Menu<M>)
        ensures
            res.label == self.label,
            res.entries@ == self.entries@.push(item.spec_entry()),
    {
        let mut menu = self;
        menu.entries.push(item.into_entry());
        menu
    }

    /// Appends a separator.
    pub fn separator(self) -> (res: Menu<M>)
        ensures
            res.label == self.label,
            res.entries@ == self.entries@.push(Entry::Separator),
    {
        self.push(Separator)
    }

    /// Appends a nested menu.
    pub fn submenu(self, submenu: Menu<M>) -> (res: Menu<M>)
        ensures
            res.label == self.label,
            res.entries@ == self.entries@.push(Entry::Submenu(submenu)),
    {
        self.push(submenu)
    }
}

/// The shortcuts declared in a list of entries, depth first: each
/// enabled item that has both a shortcut and a message contributes its
/// pair; submenus contribute theirs in place.
pub open spec fn entries_shortcuts<M>(entries: Seq<Entry<M>>) -> Seq<(KeyBinding, M)>
    decreases entries,
{
    if entries.len() == 0 {
        Seq::empty()
    } else {
        let last = entries.last();
        let before = entries_shortcuts(entries.drop_last());
        match last {
            Entry::Item(item) => {
                if item.enabled && item.shortcut is Some && item.on_press is Some {
                    before.push((item.shortcut.unwrap(), item.on_press.unwrap()))
                } else {
                    before
                }
            },
            Entry::Separator => before,
            Entry::Submenu(sub) => before + entries_shortcuts(sub.entries@),
        }
    }
}

/// The shortcuts declared by a list of menus, menu after menu.
pub open spec fn menus_shortcuts<M>(menus: Seq<Menu<M>>) -> Seq<(KeyBinding, M)>
    decreases menus.len(),
{
    if menus.len() == 0 {
        Seq::empty()
    } else {
        menus_shortcuts(menus.drop_last()) + entries_shortcuts(menus.last().entries@)
    }
}

/// Whether `out` holds copies of the pairs of `expected`, in order.
pub open spec fn copies_of<M: Clone>(out: Seq<(KeyBinding, M)>, expected: Seq<(KeyBinding, M)>) -> bool {
    &&& out.len() == expected.len()
    &&& forall|i: int| 0 <= i < out.len() ==> (#[trigger] out[i]).0.same(expected[i].0)
    &&& forall|i: int| 0 <= i < out.len() ==> cloned::<M>(expected[i].1, #[trigger] out[i].1)
}

/// Appends the shortcuts of `entries` to `out`.
fn visit_entries<M: Clone>(entries: &Vec<Entry<M>>, out: &mut Vec<(KeyBinding, M)>, Ghost(expected): Ghost<Seq<(KeyBinding, M)>>)
    requires
        copies_of(old(out)@, expected),
    ensures
        copies_of(final(out)@, expected + entries_shortcuts(entries@)),
    decreases entries@,
{
    let mut i: usize = 0;
    while i < entries.len()
        invariant
            i <= entries@.len(),
            copies_of(out@, expected + entries_shortcuts(entries@.take(i as int))),
        decreases entries@.len() - i,
    {
        let ghost before = out@;
        let ghost prefix = expected + entries_shortcuts(entries@.take(i as int));
        assert(entries@.take(i + 1).drop_last() =~= entries@.take(i as int));
        assert(entries@.take(i + 1).last() == entries@[i as int]);
        match &entries[i] {
            Entry::Item(item) => {
                if item.enabled {
                    match (&item.shortcut, &item.on_press) {
                        (Some(binding), Some(msg)) => {
                            out.push((binding.duplicate(), msg.clone()));
                            assert(prefix.push((*binding, *msg)) =~= expected
                                + entries_shortcuts(entries@.take(i + 1)));
                        },
                        _ => {},
                    }
                }
            },
            Entry::Separator => {},
            Entry::Submenu(sub) => {
                proof {
                    assert(decreases_to!(entries@ => entries@[i as int]));
                }
                visit_entries(&sub.entries, out, Ghost(prefix));
                assert(prefix + entries_shortcuts(sub.entries@) =~= expected
                    + entries_shortcuts(entries@.take(i + 1)));
            },
        }
        i = i + 1;
    }
    assert(entries@.take(entries@.len() as int) =~= entries@);
}

/// Every shortcut declared in the menus, with the message it sends:
/// items are visited depth first through submenus; disabled items and
/// items without a message or without a shortcut are skipped.
pub fn collect_shortcuts<M: Clone>(menus: &Vec<Menu<M>>) -> (res: Vec<(KeyBinding, M)>)
    ensures
        copies_of(res@, menus_shortcuts(menus@)),
{
    let mut out: Vec<(KeyBinding, M)> = Vec::new();
    let mut i: usize = 0;
    while i < menus.len()
        invariant
            i <= menus@.len(),
            copies_of(out@, menus_shortcuts(menus@.take(i as int))),
        decreases menus@.len() - i,
    {
        assert(menus@.take(i + 1).drop_last() =~= menus@.take(i as int));
        visit_entries(&menus[i].entries, &mut out, Ghost(menus_shortcuts(menus@.take(i as int))));
        i = i + 1;
    }
    assert(menus@.take(menus@.len() as int) =~= menus@);
    out
}

/// A menu bar: its menus, left to right.
pub struct MenuBar<M> {
    /// The menus, in bar order.
    pub menus: Vec<Menu<M>>,
}

impl<M> MenuBar<M> {
    /// An empty menu bar.
    pub fn new() -> (res: MenuBar<M>)
        ensures
            res.menus@ == Seq::<Menu<M>>::empty(),
    {
        MenuBar { menus: Vec::new() }
    }

    /// A menu bar holding the given menus, in order.
    pub fn with_menus(menus: Vec<Menu<M>>) -> (res: MenuBar<M>)
        ensures
            res.menus@ == menus@,
    {
        MenuBar { menus }
    }

    /// Appends a menu.
    pub fn push(self, menu: Menu<M>) -> (res: MenuBar<M>)
        ensures
            res.menus@ == self.menus@.push(menu),
    {
        let mut bar = self;
        bar.menus.push(menu);
        bar
    }
}

impl<M: Clone> MenuBar<M> {
    /// Every shortcut of the bar with the message it sends, as
    /// [`collect_shortcuts`] finds them.
    pub fn shortcuts(&self) -> (res: Vec<(KeyBinding, M)>)
        ensures
            copies_of(res@, menus_shortcuts(self.menus@)),
    {
        collect_shortcuts(&self.menus)
    }
}

/// The index of the first binding that a key press triggers.
pub open spec fn first_match<M>(bindings: Seq<(KeyBinding, M)>, modifiers: Modifiers, key: Key) -> Option<int>
    decreases bindings.len(),
{
    if bindings.len() == 0 {
        None
    } else {
        match first_match(bindings.drop_last(), modifiers, key) {
            Some(i) => Some(i),
            None => {
                let b = bindings.last().0;
                if b.modifiers == modifiers && b.key.spec_equal(key) {
                    Some(bindings.len() - 1)
                } else {
                    None
                }
            },
        }
    }
}

/// The message of the first binding that a key press triggers, copied;
/// `None` when no binding matches.
pub fn find_shortcut<M: Clone>(bindings: &Vec<(KeyBinding, M)>, modifiers: Modifiers, key: &Key) -> (res: Option<M>)
    ensures
        first_match(bindings@, modifiers, *key) matches Some(i) ==> (res matches Some(m)
            && cloned::<M>(bindings@[i].1, m)),
        first_match(bindings@, modifiers, *key) is None ==> res is None,
{
    let mut i: usize = 0;
    while i < bindings.len()
        invariant
            i <= bindings@.len(),
            first_match(bindings@.take(i as int), modifiers, *key) is None,
        decreases bindings@.len() - i,
    {
        assert(bindings@.take(i + 1).drop_last() =~= bindings@.take(i as int));
        if bindings[i].0.matches(modifiers, key) {
            proof {
                lemma_first_match_prefix(bindings@, modifiers, *key, i as int);
            }
            return Some(bindings[i].1.clone());
        }
        i = i + 1;
    }
    assert(bindings@.take(bindings@.len() as int) =~= bindings@);
    None
}

/// A match found in a prefix is the first match of the whole list.
proof fn lemma_first_match_prefix<M>(bindings: Seq<(KeyBinding, M)>, modifiers: Modifiers, key: Key, i: int)
    requires
        0 <= i < bindings.len(),
        first_match(bindings.take(i), modifiers, key) is None,
        bindings[i].0.modifiers == modifiers && bindings[i].0.key.spec_equal(key),
    ensures
        first_match(bindings, modifiers, key) == Some(i),
    decreases bindings.len(),
{
    if bindings.len() == i + 1 {
        assert(bindings.drop_last() =~= bindings.take(i));
    } else {
        assert(bindings.drop_last().take(i) =~= bindings.take(i));
        lemma_first_match_prefix(bindings.drop_last(), modifiers, key, i);
    }
}

/// The shortcuts of a list of entries are those of its parts in order:
/// an enabled item with a shortcut and a message contributes that pair,
/// any other item and a separator contribute nothing, and a submenu
/// contributes the shortcuts of all its entries, however deeply nested.
pub proof fn lemma_shortcuts_of_entries<M>(a: Seq<Entry<M>>, b: Seq<Entry<M>>, item: Item<M>, sub: Menu<M>)
    ensures
        entries_shortcuts(a + b) == entries_shortcuts(a) + entries_shortcuts(b),
        entries_shortcuts(Seq::<Entry<M>>::empty()) == Seq::<(KeyBinding, M)>::empty(),
        entries_shortcuts(seq![Entry::<M>::Separator]) == Seq::<(KeyBinding, M)>::empty(),
        entries_shortcuts(seq![Entry::Submenu(sub)]) == entries_shortcuts(sub.entries@),
        entries_shortcuts(seq![Entry::Item(item)]) == (if item.enabled && item.shortcut is Some && item.on_press is Some {
            seq![(item.shortcut.unwrap(), item.on_press.unwrap())]
        } else {
            Seq::empty()
        }),
{
    lemma_shortcuts_append(a, b);
    let none = entries_shortcuts(Seq::<Entry<M>>::empty());
    assert(none =~= Seq::<(KeyBinding, M)>::empty());
    assert(seq![Entry::<M>::Separator].drop_last() =~= Seq::<Entry<M>>::empty());
    assert(entries_shortcuts(seq![Entry::<M>::Separator]) == entries_shortcuts(seq![Entry::<M>::Separator].drop_last()));
    assert(seq![Entry::Submenu(sub)].drop_last() =~= Seq::<Entry<M>>::empty());
    assert(seq![Entry::Item(item)].drop_last() =~= Seq::<Entry<M>>::empty());
    assert(entries_shortcuts(seq![Entry::Submenu(sub)]) == entries_shortcuts(seq![Entry::Submenu(sub)].drop_last())
        + entries_shortcuts(sub.entries@));
    assert(Seq::<(KeyBinding, M)>::empty() + entries_shortcuts(sub.entries@) =~= entries_shortcuts(sub.entries@));
    assert(Seq::<(KeyBinding, M)>::empty().push((item.shortcut.unwrap(), item.on_press.unwrap())) =~= seq![
        (item.shortcut.unwrap(), item.on_press.unwrap()),
    ]);
}

/// The shortcuts of the menu bar are those of its menus, menu after
/// menu: a single menu gives the shortcuts of its entries, and lists
/// of menus concatenate.
pub proof fn lemma_shortcuts_of_menus<M>(a: Seq<Menu<M>>, b: Seq<Menu<M>>, menu: Menu<M>)
    ensures
        menus_shortcuts(a + b) == menus_shortcuts(a) + menus_shortcuts(b),
        menus_shortcuts(seq![menu]) == entries_shortcuts(menu.entries@),
    decreases b.len(),
{
    if b.len() == 0 {
        assert(a + b =~= a);
        assert(menus_shortcuts(b) =~= Seq::<(KeyBinding, M)>::empty());
        assert(menus_shortcuts(a) + menus_shortcuts(b) =~= menus_shortcuts(a));
    } else {
        lemma_shortcuts_of_menus(a, b.drop_last(), menu);
        assert((a + b).drop_last() =~= a + b.drop_last());
        assert((a + b).last() == b.last());
        let x = menus_shortcuts(a);
        let y = menus_shortcuts(b.drop_last());
        assert((x + y) + entries_shortcuts(b.last().entries@) =~= x + (y + entries_shortcuts(b.last().entries@)));
    }
    assert(seq![menu].drop_last() =~= Seq::<Menu<M>>::empty());
    assert(menus_shortcuts(Seq::<Menu<M>>::empty()) =~= Seq::<(KeyBinding, M)>::empty());
    assert(Seq::<(KeyBinding, M)>::empty() + entries_shortcuts(menu.entries@) =~= entries_shortcuts(menu.entries@));
}

/// Shortcuts of concatenated entry lists concatenate.
proof fn lemma_shortcuts_append<M>(a: Seq<Entry<M>>, b: Seq<Entry<M>>)
    ensures
        entries_shortcuts(a + b) == entries_shortcuts(a) + entries_shortcuts(b),
    decreases b.len(),
{
    if b.len() == 0 {
        assert(a + b =~= a);
        assert(entries_shortcuts(b) =~= Seq::<(KeyBinding, M)>::empty());
        assert(entries_shortcuts(a) + entries_shortcuts(b) =~= entries_shortcuts(a));
    } else {
        lemma_shortcuts_append(a, b.drop_last());
        assert((a + b).drop_last() =~= a + b.drop_last());
        assert((a + b).last() == b.last());
        let x = entries_shortcuts(a);
        let y = entries_shortcuts(b.drop_last());
        match b.last() {
            Entry::Item(it) => {
                if it.enabled && it.shortcut is Some && it.on_press is Some {
                    assert((x + y).push((it.shortcut.unwrap(), it.on_press.unwrap())) =~= x + y.push(
                        (it.shortcut.unwrap(), it.on_press.unwrap()),
                    ));
                }
            },
            Entry::Separator => {},
            Entry::Submenu(sub) => {
                assert((x + y) + entries_shortcuts(sub.entries@) =~= x + (y + entries_shortcuts(sub.entries@)));
            },
        }
    }
}

/// A key press triggers the first binding that matches it: the index
/// found matches, no earlier binding does, and there is none exactly
/// when no binding matches.
pub proof fn lemma_first_match_is_first<M>(bindings: Seq<(KeyBinding, M)>, modifiers: Modifiers, key: Key)
    ensures
        first_match(bindings, modifiers, key) matches Some(i) ==> {
            &&& 0 <= i < bindings.len()
            &&& bindings[i].0.modifiers == modifiers && bindings[i].0.key.spec_equal(key)
            &&& forall|j: int| 0 <= j < i ==> !(#[trigger] bindings[j].0.modifiers == modifiers
                && bindings[j].0.key.spec_equal(key))
        },
        first_match(bindings, modifiers, key) is None ==> forall|j: int| 0 <= j < bindings.len() ==> !(
            #[trigger] bindings[j].0.modifiers == modifiers && bindings[j].0.key.spec_equal(key)),
    decreases bindings.len(),
{
    if bindings.len() > 0 {
        let init = bindings.drop_last();
        lemma_first_match_is_first(init, modifiers, key);
        assert(forall|j: int| 0 <= j < init.len() ==> #[trigger] init[j] == bindings[j]);
        match first_match(init, modifiers, key) {
            Some(i) => {
                assert(first_match(bindings, modifiers, key) == Some(i));
                assert(init[i] == bindings[i]);
                assert forall|j: int| 0 <= j < i implies !(#[trigger] bindings[j].0.modifiers == modifiers
                    && bindings[j].0.key.spec_equal(key)) by {
                    assert(init[j] == bindings[j]);
                }
            },
            None => {
                assert forall|j: int| 0 <= j < bindings.len() - 1 implies !(#[trigger] bindings[j].0.modifiers
                    == modifiers && bindings[j].0.key.spec_equal(key)) by {
                    assert(init[j] == bindings[j]);
                }
            },
        }
    }
}

} // verus!
