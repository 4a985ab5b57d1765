//! The open/closed state of a menu bar and how it reacts to the
//! pointer and keyboard. Hit-testing stays with the caller, which
//! reports which bar label and which row of each open popup the
//! pointer is over.

use vstd::prelude::*;
use crate::menu::item::{Entry, Item, Menu};

verus! {

/// The state of a menu bar: which menus are open (a path of entry
/// indices, starting with the bar index), which bar label is active or
/// hovered, and the row hovered in each open popup.
pub struct MenuState {
    /// The open menus: the bar index, then the index of each opened
    /// submenu entry. `None` when every menu is closed.
    pub open_path: Option<Vec<usize>>,
    /// The bar label drawn as active.
    pub bar_active: Option<usize>,
    /// The bar label under the pointer.
    pub bar_hover: Option<usize>,
    /// The row under the pointer in each open popup.
    pub hover_path: Vec<Option<usize>>,
}

/// What an event did besides changing the state: whether it was
/// consumed, and whether a redraw was asked for.
#[derive(Clone, Copy, Debug, PartialEq, Eq, Structural)]
pub struct Handled {
    /// The event was consumed.
    pub captured: bool,
    /// A redraw was requested.
    pub redraw: bool,
}

/// The keys that navigate the open menus.
#[derive(Clone, Copy, Debug, PartialEq, Eq, Structural)]
pub enum NavKey {
    Escape,
    ArrowLeft,
    ArrowRight,
    Enter,
    /// Any other key.
    Other,
}

/// The menu reached from `menu` by following the submenu entries at
/// the indices of `rest`, stopping at the first index that is not a
/// submenu.
pub open spec fn walk_entries<M>(menu: Menu<M>, rest: Seq<usize>) -> Menu<M>
    decreases rest.len(),
{
    if rest.len() == 0 {
        menu
    } else {
        let i = rest[0] as int;
        if 0 <= i < menu.entries@.len() {
            match menu.entries@[i] {
                Entry::Submenu(sub) => walk_entries(sub, rest.drop_first()),
                _ => menu,
            }
        } else {
            menu
        }
    }
}

/// The innermost open menu of a path.
pub open spec fn spec_walk_menu<M>(menus: Seq<Menu<M>>, path: Seq<usize>) -> Menu<M> {
    walk_entries(menus[path[0] as int], path.drop_first())
}

/// The entry at `row` of `menu`, if `row` is in range.
pub open spec fn entry_at<M>(menu: Menu<M>, row: usize) -> Option<Entry<M>> {
    if row < menu.entries@.len() { Some(menu.entries@[row as int]) } else { None }
}

/// Whether `row` of `menu` is a submenu entry.
pub open spec fn is_submenu_at<M>(menu: Menu<M>, row: usize) -> bool {
    entry_at(menu, row) matches Some(Entry::Submenu(_))
}

/// Whether `row` of `menu` is an item that can be activated.
pub open spec fn is_activatable_at<M>(menu: Menu<M>, row: usize) -> bool {
    entry_at(menu, row) matches Some(Entry::Item(item)) && item.spec_activatable()
}

/// The message of the item at `row` of `menu`.
pub open spec fn message_at<M>(menu: Menu<M>, row: usize) -> M {
    match entry_at(menu, row) {
        Some(Entry::Item(item)) => item.on_press.unwrap(),
        _ => arbitrary(),
    }
}

/// The submenu path opened by hovering: from `menu`, each hovered row
/// that is a submenu entry is followed, until a popup has no hovered
/// row or the hovered row is not a submenu.
pub open spec fn hover_descent<M>(menu: Menu<M>, hovered: Seq<Option<usize>>) -> Seq<usize>
    decreases hovered.len(),
{
    if hovered.len() == 0 {
        Seq::empty()
    } else {
        match hovered[0] {
            Some(r) => {
                if r < menu.entries@.len() {
                    match menu.entries@[r as int] {
                        Entry::Submenu(sub) => seq![r].add(hover_descent(sub, hovered.drop_first())),
                        _ => Seq::empty(),
                    }
                } else {
                    Seq::empty()
                }
            },
            None => Seq::empty(),
        }
    }
}

/// The rows of a hover sequence, a missing row read as row 0.
pub open spec fn hovered_rows(hovered: Seq<Option<usize>>) -> Seq<usize> {
    hovered.map_values(|o: Option<usize>| match o {
        Some(r) => r,
        None => 0,
    })
}

/// Whether every hovered row is a submenu entry of the popup reached by
/// following the rows hovered before it.
pub open spec fn hovers_submenu_chain<M>(menu: Menu<M>, hovered: Seq<Option<usize>>) -> bool {
    forall|k: int| 0 <= k < hovered.len() ==> (#[trigger] hovered[k] matches Some(r) && entry_at(
        walk_entries(menu, hovered_rows(hovered).take(k)),
        r,
    ) matches Some(Entry::Submenu(_)))
}

/// Hovering a chain of submenu rows opens every one of them: the path
/// opened below `menu` is exactly the hovered rows, one per popup.
pub proof fn lemma_hover_opens_chain<M>(menu: Menu<M>, hovered: Seq<Option<usize>>)
    requires
        hovers_submenu_chain(menu, hovered),
    ensures
        hover_descent(menu, hovered) == hovered_rows(hovered),
        hover_descent(menu, hovered).len() == hovered.len(),
    decreases hovered.len(),
{
    if hovered.len() > 0 {
        assert(hovered[0] matches Some(_));
        assert(hovered_rows(hovered).take(0) =~= Seq::<usize>::empty());
        let r = hovered[0]->Some_0;
        let sub = match menu.entries@[r as int] {
            Entry::Submenu(sub) => sub,
            _ => menu,
        };
        let rest = hovered.drop_first();
        assert(hovered_rows(rest) =~= hovered_rows(hovered).drop_first());
        assert forall|k: int| 0 <= k < rest.len() implies (#[trigger] rest[k] matches Some(q) && entry_at(
            walk_entries(sub, hovered_rows(rest).take(k)),
            q,
        ) matches Some(Entry::Submenu(_))) by {
            assert(rest[k] == hovered[k + 1]);
            let pre = hovered_rows(hovered).take(k + 1);
            assert(pre.drop_first() =~= hovered_rows(rest).take(k));
            assert(pre[0] == r);
        }
        lemma_hover_opens_chain(sub, rest);
        assert(hovered_rows(hovered) =~= seq![r].add(hovered_rows(rest)));
    } else {
        assert(hovered_rows(hovered) =~= Seq::<usize>::empty());
    }
}

/// A click lands on the outermost popup, counting from `depth`, whose
/// hovered row is an activatable item or a submenu: the row found is
/// the one hovered in the popup open at that depth, and no popup before
/// it had such a row hovered.
pub proof fn lemma_press_lands_outermost<M>(menu: Menu<M>, rest: Seq<usize>, hits: Seq<Option<usize>>, depth: nat)
    ensures
        press_target(menu, rest, hits, depth) matches Some((d, r)) ==> {
            let k = d - depth;
            &&& 0 <= k < hits.len()
            &&& hits[k] == Some(r)
            &&& (is_activatable_at(popup_at(menu, rest, k as nat), r) || is_submenu_at(popup_at(menu, rest, k as nat), r))
            &&& forall|j: int| 0 <= j < k ==> !(#[trigger] hits[j] matches Some(q) && (is_activatable_at(
                popup_at(menu, rest, j as nat),
                q,
            ) || is_submenu_at(popup_at(menu, rest, j as nat), q)))
        },
    decreases hits.len(),
{
    if hits.len() > 0 {
        let here = match hits[0] {
            Some(r) => if is_activatable_at(menu, r) || is_submenu_at(menu, r) { Some((depth, r)) } else { None },
            None => None,
        };
        if here is None {
            let tail = hits.drop_first();
            let (m2, r2) = if rest.len() == 0 {
                (menu, rest)
            } else {
                match entry_at(menu, rest[0]) {
                    Some(Entry::Submenu(sub)) => (sub, rest.drop_first()),
                    _ => (menu, rest),
                }
            };
            let follows = rest.len() == 0 || entry_at(menu, rest[0]) matches Some(Entry::Submenu(_));
            if follows {
                lemma_press_lands_outermost(m2, r2, tail, depth + 1);
                assert(press_target(menu, rest, hits, depth) == press_target(m2, r2, tail, depth + 1));
                if let Some((d, r)) = press_target(menu, rest, hits, depth) {
                    let k = d - depth;
                    assert(k >= 1);
                    assert(tail[k - 1] == hits[k]);
                    assert(popup_at(menu, rest, k as nat) == popup_at(m2, r2, (k - 1) as nat));
                    assert forall|j: int| 0 <= j < k implies !(#[trigger] hits[j] matches Some(q) && (is_activatable_at(
                        popup_at(menu, rest, j as nat),
                        q,
                    ) || is_submenu_at(popup_at(menu, rest, j as nat), q))) by {
                        if j == 0 {
                            assert(popup_at(menu, rest, 0) == menu);
                        } else {
                            assert(tail[j - 1] == hits[j]);
                            assert(popup_at(menu, rest, j as nat) == popup_at(m2, r2, (j - 1) as nat));
                        }
                    }
                }
            }
        }
    }
}

/// Where a click in the open popups lands: scanning the popups from
/// the outermost, the first hovered row that is an activatable item or
/// a submenu, as `(depth, row)`. The scan follows the open path into
/// each deeper popup and stops where the path does not lead into a
/// submenu.
pub open spec fn press_target<M>(menu: Menu<M>, rest: Seq<usize>, hits: Seq<Option<usize>>, depth: nat) -> Option<(nat, usize)>
    decreases hits.len(),
{
    if hits.len() == 0 {
        None
    } else {
        let here = match hits[0] {
            Some(r) => if is_activatable_at(menu, r) || is_submenu_at(menu, r) { Some((depth, r)) } else { None },
            None => None,
        };
        if here is Some {
            here
        } else if rest.len() == 0 {
            press_target(menu, rest, hits.drop_first(), depth + 1)
        } else {
            match entry_at(menu, rest[0]) {
                Some(Entry::Submenu(sub)) => press_target(sub, rest.drop_first(), hits.drop_first(), depth + 1),
                _ => None,
            }
        }
    }
}

/// The popup open at `depth` while scanning as [`press_target`] does.
pub open spec fn popup_at<M>(menu: Menu<M>, rest: Seq<usize>, depth: nat) -> Menu<M>
    decreases depth,
{
    if depth == 0 {
        menu
    } else if rest.len() == 0 {
        menu
    } else {
        match entry_at(menu, rest[0]) {
            Some(Entry::Submenu(sub)) => popup_at(sub, rest.drop_first(), (depth - 1) as nat),
            _ => menu,
        }
    }
}

/// Whether `p` is exactly the one-element path `[i]`.
pub open spec fn is_single(p: Option<Vec<usize>>, i: usize) -> bool {
    p matches Some(v) && v@ == seq![i]
}

impl MenuState {
    /// Whether the state is one the bar can be in for `n` menus: an open
    /// path starts at a valid bar index.
    pub open spec fn wf(&self, n: nat) -> bool {
        self.open_path matches Some(p) ==> p@.len() >= 1 && p@[0] < n
    }

    /// The open path, when a menu is open.
    pub open spec fn path(&self) -> Seq<usize> {
        match self.open_path {
            Some(p) => p@,
            None => Seq::empty(),
        }
    }

    /// Every menu closed, nothing hovered or active.
    pub fn new() -> (res: MenuState)
        ensures
            res.open_path is None,
            res.bar_active is None,
            res.bar_hover is None,
            res.hover_path@ == Seq::<Option<usize>>::empty(),
    {
        MenuState { open_path: None, bar_active: None, bar_hover: None, hover_path: Vec::new() }
    }

    /// Closes every open menu and forgets the hovered rows.
    pub fn close(&mut self)
        ensures
            final(self).open_path is None,
            final(self).hover_path@ == Seq::<Option<usize>>::empty(),
            final(self).bar_active == old(self).bar_active,
            final(self).bar_hover == old(self).bar_hover,
    {
        self.open_path = None;
        self.hover_path = Vec::new();
    }

    /// Opens the menu of bar label `i` alone.
    fn open_top(&mut self, i: usize)
        ensures
            is_single(final(self).open_path, i),
            final(self).bar_active == Some(i),
            final(self).hover_path@ == seq![Some(i)],
            final(self).bar_hover == old(self).bar_hover,
    {
        let path = vec![i];
        let rows = vec![Some(i)];
        assert(path@ =~= seq![i]);
        assert(rows@ =~= seq![Some(i)]);
        self.open_path = Some(path);
        self.bar_active = Some(i);
        self.hover_path = rows;
    }

    /// The pointer moved over the bar; `new_hover` is the label under
    /// it. While a menu is open, hovering another label opens that one
    /// instead.
    pub fn bar_cursor_moved(&mut self, new_hover: Option<usize>) -> (res: Handled)
        ensures
            ({
                let switch = old(self).open_path is Some && (new_hover matches Some(i) && old(self).bar_active != Some(i));
                &&& switch ==> is_single(final(self).open_path, new_hover.unwrap())
                    && final(self).bar_active == new_hover
                    && final(self).hover_path@ == seq![new_hover]
                &&& !switch ==> final(self).open_path == old(self).open_path
                    && final(self).bar_active == old(self).bar_active
                    && final(self).hover_path == old(self).hover_path
                &&& final(self).bar_hover == new_hover
                &&& !res.captured
                &&& res.redraw == (switch || old(self).bar_hover != new_hover)
            }),
    {
        let mut redraw = false;
        if self.open_path.is_some() {
            if let Some(i) = new_hover {
                if self.bar_active != Some(i) {
                    self.open_top(i);
                    redraw = true;
                }
            }
        }
        if self.bar_hover != new_hover {
            self.bar_hover = new_hover;
            redraw = true;
        }
        Handled { captured: false, redraw }
    }

    /// The pointer left the bar.
    pub fn bar_cursor_left(&mut self) -> (res: Handled)
        ensures
            final(self).bar_hover is None,
            final(self).open_path == old(self).open_path,
            final(self).bar_active == old(self).bar_active,
            final(self).hover_path == old(self).hover_path,
            res == (Handled { captured: false, redraw: old(self).bar_hover is Some }),
    {
        let redraw = self.bar_hover.is_some();
        self.bar_hover = None;
        Handled { captured: false, redraw }
    }

    /// The left button was pressed; `hit` is the bar label under the
    /// pointer. Pressing the label of the only open menu closes it;
    /// pressing any other label opens its menu.
    pub fn bar_pressed(&mut self, hit: Option<usize>) -> (res: Handled)
        ensures
            hit is None ==> *final(self) == *old(self) && res == (Handled { captured: false, redraw: false }),
            hit matches Some(i) ==> res == (Handled { captured: true, redraw: true }) && final(self).bar_hover == old(self).bar_hover
                && (if is_single(old(self).open_path, i) {
                    final(self).open_path is None && final(self).bar_active is None
                        && final(self).hover_path@ == Seq::<Option<usize>>::empty()
                } else {
                    is_single(final(self).open_path, i) && final(self).bar_active == Some(i)
                        && final(self).hover_path@ == seq![Some(i)]
                }),
    {
        match hit {
            Some(i) => {
                let single = match &self.open_path {
                    Some(p) => {
                        let one = p.len() == 1 && p[0] == i;
                        assert(one ==> p@ =~= seq![i]);
                        one
                    },
                    None => false,
                };
                if single {
                    self.close();
                    self.bar_active = None;
                } else {
                    self.open_top(i);
                }
                Handled { captured: true, redraw: true }
            },
            None => Handled { captured: false, redraw: false },
        }
    }
}

/// Whether two index sequences are equal.
fn same_path(a: &Vec<usize>, b: &Vec<usize>) -> (res: bool)
    ensures
        res == (a@ == b@),
{
    if a.len() != b.len() {
        return false;
    }
    let mut i: usize = 0;
    while i < a.len()
        invariant
            a@.len() == b@.len(),
            i <= a@.len(),
            forall|j: int| 0 <= j < i ==> a@[j] == b@[j],
        decreases a@.len() - i,
    {
        if a[i] != b[i] {
            return false;
        }
        i = i + 1;
    }
    assert(a@ =~= b@);
    true
}

/// Whether two hovered-row sequences are equal.
fn same_rows(a: &Vec<Option<usize>>, b: &Vec<Option<usize>>) -> (res: bool)
    ensures
        res == (a@ == b@),
{
    if a.len() != b.len() {
        return false;
    }
    let mut i: usize = 0;
    while i < a.len()
        invariant
            a@.len() == b@.len(),
            i <= a@.len(),
            forall|j: int| 0 <= j < i ==> a@[j] == b@[j],
        decreases a@.len() - i,
    {
        let eq = match (a[i], b[i]) {
            (Some(x), Some(y)) => x == y,
            (None, None) => true,
            _ => false,
        };
        if !eq {
            return false;
        }
        i = i + 1;
    }
    assert(a@ =~= b@);
    true
}

/// A copy of a hovered-row sequence.
fn copy_rows(a: &Vec<Option<usize>>) -> (res: Vec<Option<usize>>)
    ensures
        res@ == a@,
{
    let mut out: Vec<Option<usize>> = Vec::new();
    let mut i: usize = 0;
    while i < a.len()
        invariant
            i <= a@.len(),
            out@ == a@.take(i as int),
        decreases a@.len() - i,
    {
        out.push(a[i]);
        i = i + 1;
        assert(out@ =~= a@.take(i as int));
    }
    assert(a@.take(a@.len() as int) =~= a@);
    out
}

/// The innermost menu reached from `menu` by the submenu indices
/// `path[k..]`.
fn walk_from<'m, M>(menu: &'m Menu<M>, path: &Vec<usize>, k: usize) -> (res: &'m Menu<M>)
    requires
        k <= path@.len(),
    ensures
        *res == walk_entries(*menu, path@.subrange(k as int, path@.len() as int)),
    decreases path@.len() - k,
{
    if k == path.len() {
        return menu;
    }
    let i = path[k];
    proof {
        assert(path@.subrange(k as int, path@.len() as int).drop_first()
            =~= path@.subrange(k + 1, path@.len() as int));
    }
    if i < menu.entries.len() {
        match &menu.entries[i] {
            Entry::Submenu(sub) => walk_from(sub, path, k + 1),
            _ => menu,
        }
    } else {
        menu
    }
}

/// The innermost open menu of `path`: the bar menu at `path[0]`, then
/// each submenu entry at the following indices, stopping at the first
/// index that is not a submenu.
pub fn walk_menu<'m, M>(menus: &'m Vec<Menu<M>>, path: &Vec<usize>) -> (res: &'m Menu<M>)
    requires
        path@.len() >= 1,
        path@[0] < menus@.len(),
    ensures
        *res == spec_walk_menu(menus@, path@),
{
    proof {
        assert(path@.drop_first() =~= path@.subrange(1, path@.len() as int));
    }
    walk_from(&menus[path[0]], path, 1)
}

/// The submenu path opened by hovering, as [`hover_descent`].
fn descend<M>(menu: &Menu<M>, hovered: &Vec<Option<usize>>, k: usize, out: &mut Vec<usize>)
    requires
        k <= hovered@.len(),
    ensures
        final(out)@ == old(out)@ + hover_descent(*menu, hovered@.subrange(k as int, hovered@.len() as int)),
    decreases hovered@.len() - k,
{
    let ghost rest = hovered@.subrange(k as int, hovered@.len() as int);
    if k == hovered.len() {
        assert(out@ =~= old(out)@ + hover_descent(*menu, rest));
        return;
    }
    assert(rest.drop_first() =~= hovered@.subrange(k + 1, hovered@.len() as int));
    match hovered[k] {
        Some(r) => {
            if r < menu.entries.len() {
                match &menu.entries[r] {
                    Entry::Submenu(sub) => {
                        out.push(r);
                        let ghost mid = out@;
                        descend(sub, hovered, k + 1, out);
                        assert(out@ =~= old(out)@ + hover_descent(*menu, rest));
                    },
                    _ => {
                        assert(out@ =~= old(out)@ + hover_descent(*menu, rest));
                    },
                }
            } else {
                assert(out@ =~= old(out)@ + hover_descent(*menu, rest));
            }
        },
        None => {
            assert(out@ =~= old(out)@ + hover_descent(*menu, rest));
        },
    }
}

/// The first popup row hit by a click, as [`press_target`].
fn scan_press<M>(menu: &Menu<M>, path: &Vec<usize>, k: usize, hits: &Vec<Option<usize>>, j: usize, depth: usize) -> (res: Option<(usize, usize)>)
    requires
        k <= path@.len(),
        j <= hits@.len(),
        depth + (hits@.len() - j) <= usize::MAX,
    ensures
        res matches Some((d, r)) ==> press_target(*menu, path@.subrange(k as int, path@.len() as int),
            hits@.subrange(j as int, hits@.len() as int), depth as nat) == Some((d as nat, r)),
        res is None ==> press_target(*menu, path@.subrange(k as int, path@.len() as int),
            hits@.subrange(j as int, hits@.len() as int), depth as nat) is None,
    decreases hits@.len() - j,
{
    let ghost rest = path@.subrange(k as int, path@.len() as int);
    let ghost hs = hits@.subrange(j as int, hits@.len() as int);
    if j == hits.len() {
        return None;
    }
    assert(hs.drop_first() =~= hits@.subrange(j + 1, hits@.len() as int));
    assert(hs[0] == hits@[j as int]);
    if let Some(r) = hits[j] {
        if r < menu.entries.len() {
            match &menu.entries[r] {
                Entry::Item(item) => {
                    if item.is_activatable() {
                        return Some((depth, r));
                    }
                },
                Entry::Submenu(_) => {
                    return Some((depth, r));
                },
                Entry::Separator => {},
            }
        }
    }
    if k == path.len() {
        scan_press(menu, path, k, hits, j + 1, depth + 1)
    } else {
        assert(rest.drop_first() =~= path@.subrange(k + 1, path@.len() as int));
        let next = path[k];
        if next < menu.entries.len() {
            match &menu.entries[next] {
                Entry::Submenu(sub) => scan_press(sub, path, k + 1, hits, j + 1, depth + 1),
                _ => None,
            }
        } else {
            None
        }
    }
}

/// The popup open at `depth`, as [`popup_at`].
fn popup_from<'m, M>(menu: &'m Menu<M>, path: &Vec<usize>, k: usize, depth: usize) -> (res: &'m Menu<M>)
    requires
        k <= path@.len(),
    ensures
        *res == popup_at(*menu, path@.subrange(k as int, path@.len() as int), depth as nat),
    decreases depth,
{
    if depth == 0 || k == path.len() {
        return menu;
    }
    proof {
        assert(path@.subrange(k as int, path@.len() as int).drop_first()
            =~= path@.subrange(k + 1, path@.len() as int));
    }
    let next = path[k];
    if next < menu.entries.len() {
        match &menu.entries[next] {
            Entry::Submenu(sub) => popup_from(sub, path, k + 1, depth - 1),
            _ => menu,
        }
    } else {
        menu
    }
}

/// The message of an activatable item, copied.
fn item_message<M: Clone>(menu: &Menu<M>, row: usize) -> (res: Option<M>)
    requires
        is_activatable_at(*menu, row),
    ensures
        res matches Some(m) && cloned::<M>(message_at(*menu, row), m),
{
    match &menu.entries[row] {
        Entry::Item(item) => match &item.on_press {
            Some(m) => Some(m.clone()),
            None => None,
        },
        _ => None,
    }
}

/// A click target found by [`press_target`] is an activatable item or
/// a submenu of the popup at its depth.
proof fn lemma_press_target<M>(menu: Menu<M>, rest: Seq<usize>, hits: Seq<Option<usize>>, depth: nat)
    ensures
        press_target(menu, rest, hits, depth) matches Some((d, r)) ==> d >= depth && ({
            let popup = popup_at(menu, rest, (d - depth) as nat);
            is_activatable_at(popup, r) || is_submenu_at(popup, r)
        }),
    decreases hits.len(),
{
    if hits.len() > 0 {
        let here = match hits[0] {
            Some(r) => if is_activatable_at(menu, r) || is_submenu_at(menu, r) { Some((depth, r)) } else { None },
            None => None,
        };
        if here is None {
            if rest.len() == 0 {
                lemma_press_target(menu, rest, hits.drop_first(), depth + 1);
                if let Some((d, r)) = press_target(menu, rest, hits, depth) {
                    lemma_popup_at_empty(menu, (d - depth) as nat);
                    lemma_popup_at_empty(menu, (d - (depth + 1)) as nat);
                }
            } else {
                match entry_at(menu, rest[0]) {
                    Some(Entry::Submenu(sub)) => {
                        lemma_press_target(sub, rest.drop_first(), hits.drop_first(), depth + 1);
                    },
                    _ => {},
                }
            }
        }
    }
}

/// With no path left, every depth shows the same popup.
proof fn lemma_popup_at_empty<M>(menu: Menu<M>, depth: nat)
    ensures
        popup_at(menu, Seq::<usize>::empty(), depth) == menu,
{
}

impl MenuState {
    /// The pointer moved while menus are open. `label_hit` is the first
    /// bar label under the pointer other than the open one; `hovered`
    /// holds the row under the pointer in each open popup. Hovering
    /// another bar label opens its menu; otherwise the open path
    /// follows the hovered submenu rows, and the hovered rows are
    /// remembered.
    pub fn overlay_cursor_moved<M>(&mut self, menus: &Vec<Menu<M>>, label_hit: Option<usize>, hovered: Vec<Option<usize>>) -> (res: Handled)
        requires
            old(self).wf(menus@.len()),
            old(self).open_path is Some,
            label_hit matches Some(i) ==> i < menus@.len(),
        ensures
            final(self).wf(menus@.len()),
            final(self).bar_hover == old(self).bar_hover,
            label_hit matches Some(i) ==> is_single(final(self).open_path, i)
                && final(self).bar_active == Some(i) && final(self).hover_path@ == seq![Some(i)]
                && res == (Handled { captured: false, redraw: true }),
            label_hit is None ==> {
                let path = old(self).path();
                &&& final(self).open_path matches Some(p)
                    && p@ == seq![path[0]].add(hover_descent(menus@[path[0] as int], hovered@))
                &&& final(self).bar_active == old(self).bar_active
                &&& final(self).hover_path@ == hovered@
                &&& res == (Handled { captured: false, redraw: old(self).hover_path@ != hovered@ })
            },
    {
        let path = match &self.open_path {
            Some(p) => p,
            None => { return Handled { captured: false, redraw: false }; },
        };
        if let Some(i) = label_hit {
            self.open_top(i);
            return Handled { captured: false, redraw: true };
        }
        let first = path[0];
        let mut new_path: Vec<usize> = vec![first];
        descend(&menus[first], &hovered, 0, &mut new_path);
        proof {
            assert(hovered@.subrange(0, hovered@.len() as int) =~= hovered@);
            assert(new_path@ =~= seq![first].add(hover_descent(menus@[first as int], hovered@)));
        }
        let changed = !same_path(&new_path, path);
        if changed {
            self.open_path = Some(new_path);
        }
        let redraw = !same_rows(&self.hover_path, &hovered);
        if redraw {
            self.hover_path = hovered;
        }
        Handled { captured: false, redraw }
    }

    /// The left button was pressed while menus are open. `hits` holds
    /// the row under the pointer in each open popup, outermost first;
    /// `in_popup` and `in_bar` tell whether the pointer is over a popup
    /// or over the bar. The first hit row that is an activatable item
    /// activates it (its message is returned and the menus close); the
    /// first hit submenu row opens that submenu. A press outside every
    /// popup and the bar closes the menus.
    pub fn overlay_pressed<M: Clone>(&mut self, menus: &Vec<Menu<M>>, hits: &Vec<Option<usize>>, in_popup: bool, in_bar: bool) -> (res: (Option<M>, Handled))
        requires
            old(self).wf(menus@.len()),
            old(self).open_path is Some,
            hits@.len() <= usize::MAX,
        ensures
            final(self).wf(menus@.len()),
            final(self).bar_hover == old(self).bar_hover,
            ({
                let path = old(self).path();
                let top = menus@[path[0] as int];
                let rest = path.drop_first();
                match press_target(top, rest, hits@, 0) {
                    Some((d, r)) => {
                        let popup = popup_at(top, rest, d);
                        if is_activatable_at(popup, r) {
                            &&& res.0 matches Some(m) && cloned::<M>(message_at(popup, r), m)
                            &&& final(self).open_path is None
                            &&& final(self).bar_active is None
                            &&& final(self).hover_path@ == Seq::<Option<usize>>::empty()
                            &&& res.1 == (Handled { captured: true, redraw: true })
                        } else {
                            &&& res.0 is None
                            &&& final(self).open_path matches Some(p)
                                && p@ == path.take(if d + 1 <= path.len() { (d + 1) as int } else { path.len() as int }).push(r)
                            &&& final(self).bar_active == old(self).bar_active
                            &&& final(self).hover_path == old(self).hover_path
                            &&& res.1 == (Handled { captured: true, redraw: true })
                        }
                    },
                    None => {
                        &&& res.0 is None
                        &&& res.1.captured == false
                        &&& if !in_popup && !in_bar {
                            &&& final(self).open_path is None
                            &&& final(self).bar_active is None
                            &&& final(self).hover_path@ == Seq::<Option<usize>>::empty()
                            &&& res.1.redraw
                        } else {
                            &&& *final(self) == *old(self)
                            &&& !res.1.redraw
                        }
                    },
                }
            }),
    {
        let path = match &self.open_path {
            Some(p) => p,
            None => { return (None, Handled { captured: false, redraw: false }); },
        };
        let ghost gpath = path@;
        let top = &menus[path[0]];
        proof {
            assert(path@.subrange(1, path@.len() as int) =~= path@.drop_first());
            assert(hits@.subrange(0, hits@.len() as int) =~= hits@);
        }
        match scan_press(top, path, 1, hits, 0, 0) {
            Some((d, r)) => {
                let popup = popup_from(top, path, 1, d);
                proof {
                    lemma_press_target(menus@[gpath[0] as int], gpath.drop_first(), hits@, 0);
                }
                if r < popup.entries.len() && is_item_activatable(&popup.entries[r]) {
                    let msg = item_message(popup, r);
                    self.close();
                    self.bar_active = None;
                    (msg, Handled { captured: true, redraw: true })
                } else {
                    let mut new_path: Vec<usize> = Vec::new();
                    let mut i: usize = 0;
                    while i <= d && i < path.len()
                        invariant
                            path@ == gpath,
                            i <= path@.len(),
                            i <= d + 1,
                            new_path@ == gpath.take(i as int),
                        decreases path@.len() - i,
                    {
                        new_path.push(path[i]);
                        i = i + 1;
                        assert(new_path@ =~= gpath.take(i as int));
                    }
                    new_path.push(r);
                    self.open_path = Some(new_path);
                    (None, Handled { captured: true, redraw: true })
                }
            },
            None => {
                if !in_popup && !in_bar {
                    self.close();
                    self.bar_active = None;
                    (None, Handled { captured: false, redraw: true })
                } else {
                    (None, Handled { captured: false, redraw: false })
                }
            },
        }
    }
}

/// Whether an entry is an item that can be activated.
fn is_item_activatable<M>(entry: &Entry<M>) -> (res: bool)
    ensures
        res == (entry matches Entry::Item(item) && item.spec_activatable()),
{
    match entry {
        Entry::Item(item) => item.is_activatable(),
        _ => false,
    }
}

/// The row under the pointer in the innermost popup, if any.
pub open spec fn last_hovered(hovered: Seq<Option<usize>>) -> Option<usize> {
    if hovered.len() == 0 { None } else { hovered.last() }
}

impl MenuState {
    /// A navigation key was pressed while menus are open; `hovered`
    /// holds the row under the pointer in each open popup.
    ///
    /// - Escape closes the innermost submenu, or every menu when only a
    ///   bar menu is open.
    /// - Left closes the innermost submenu, or opens the previous bar
    ///   menu (wrapping around).
    /// - Right opens the hovered submenu of the innermost popup, or
    ///   else the next bar menu (wrapping around).
    /// - Enter activates the hovered item of the innermost popup (its
    ///   message is returned and the menus close), or opens the hovered
    ///   submenu.
    pub fn overlay_key<M: Clone>(&mut self, menus: &Vec<Menu<M>>, key: NavKey, hovered: &Vec<Option<usize>>) -> (res: (Option<M>, Handled))
        requires
            old(self).wf(menus@.len()),
            old(self).open_path is Some,
        ensures
            final(self).wf(menus@.len()),
            final(self).bar_hover == old(self).bar_hover,
            ({
                let path = old(self).path();
                let n = menus@.len() as int;
                let cur = path[0] as int;
                let tail = spec_walk_menu(menus@, path);
                let row = last_hovered(hovered@);
                match key {
                    NavKey::Escape => {
                        &&& res == (None::<M>, Handled { captured: true, redraw: true })
                        &&& if path.len() > 1 {
                            &&& final(self).open_path matches Some(p) && p@ == path.drop_last()
                            &&& final(self).bar_active == old(self).bar_active
                            &&& final(self).hover_path == old(self).hover_path
                        } else {
                            &&& final(self).open_path is None
                            &&& final(self).bar_active is None
                            &&& final(self).hover_path@ == Seq::<Option<usize>>::empty()
                        }
                    },
                    NavKey::ArrowLeft => {
                        &&& res == (None::<M>, Handled { captured: true, redraw: true })
                        &&& final(self).hover_path == old(self).hover_path
                        &&& if path.len() > 1 {
                            &&& final(self).open_path matches Some(p) && p@ == path.drop_last()
                            &&& final(self).bar_active == old(self).bar_active
                        } else {
                            &&& final(self).open_path matches Some(p) && p@ == seq![((cur + n - 1) % n) as usize]
                            &&& final(self).bar_active == Some(((cur + n - 1) % n) as usize)
                        }
                    },
                    NavKey::ArrowRight => {
                        &&& res == (None::<M>, Handled { captured: true, redraw: true })
                        &&& final(self).hover_path == old(self).hover_path
                        &&& if row matches Some(r) && is_submenu_at(tail, r) {
                            &&& final(self).open_path matches Some(p) && p@ == path.push(row.unwrap())
                            &&& final(self).bar_active == old(self).bar_active
                        } else {
                            &&& final(self).open_path matches Some(p) && p@ == seq![((cur + 1) % n) as usize]
                            &&& final(self).bar_active == Some(((cur + 1) % n) as usize)
                        }
                    },
                    NavKey::Enter => {
                        if row matches Some(r) && is_activatable_at(tail, r) {
                            &&& res.0 matches Some(m) && cloned::<M>(message_at(tail, row.unwrap()), m)
                            &&& res.1 == (Handled { captured: true, redraw: true })
                            &&& final(self).open_path is None
                            &&& final(self).bar_active is None
                            &&& final(self).hover_path@ == Seq::<Option<usize>>::empty()
                        } else if row matches Some(r) && is_submenu_at(tail, r) {
                            &&& res == (None::<M>, Handled { captured: true, redraw: true })
                            &&& final(self).open_path matches Some(p) && p@ == path.push(row.unwrap())
                            &&& final(self).bar_active == old(self).bar_active
                            &&& final(self).hover_path == old(self).hover_path
                        } else {
                            &&& res == (None::<M>, Handled { captured: false, redraw: false })
                            &&& *final(self) == *old(self)
                        }
                    },
                    NavKey::Other => {
                        &&& res == (None::<M>, Handled { captured: false, redraw: false })
                        &&& *final(self) == *old(self)
                    },
                }
            }),
    {
        let path = match &self.open_path {
            Some(p) => p,
            None => { return (None, Handled { captured: false, redraw: false }); },
        };
        let ghost gpath = path@;
        let n = menus.len();
        let cur = path[0];
        let row: Option<usize> = if hovered.len() == 0 { None } else { hovered[hovered.len() - 1] };
        match key {
            NavKey::Escape => {
                if path.len() > 1 {
                    let shorter = drop_last_index(path);
                    self.open_path = Some(shorter);
                } else {
                    self.close();
                    self.bar_active = None;
                }
                (None, Handled { captured: true, redraw: true })
            },
            NavKey::ArrowLeft => {
                if path.len() > 1 {
                    let shorter = drop_last_index(path);
                    self.open_path = Some(shorter);
                } else {
                    let prev = if cur == 0 { n - 1 } else { cur - 1 };
                    assert(prev == (cur + n - 1) % (n as int)) by {
                        if cur == 0 {
                            vstd::arithmetic::div_mod::lemma_small_mod((n - 1) as nat, n as nat);
                        } else {
                            assert((cur + n - 1) as int == (cur - 1) + n);
                            vstd::arithmetic::div_mod::lemma_mod_add_multiples_vanish((cur - 1) as int, n as int);
                            vstd::arithmetic::div_mod::lemma_small_mod((cur - 1) as nat, n as nat);
                        }
                    }
                    self.set_single(prev);
                }
                (None, Handled { captured: true, redraw: true })
            },
            NavKey::ArrowRight => {
                let tail = walk_menu(menus, path);
                if let Some(r) = row {
                    if r < tail.entries.len() && is_submenu_entry(&tail.entries[r]) {
                        let longer = push_index(path, r);
                        self.open_path = Some(longer);
                        return (None, Handled { captured: true, redraw: true });
                    }
                }
                let next = if cur + 1 == n { 0 } else { cur + 1 };
                assert(next == (cur + 1) % (n as int)) by {
                    if cur + 1 == n {
                        vstd::arithmetic::div_mod::lemma_mod_self_0(n as int);
                    } else {
                        vstd::arithmetic::div_mod::lemma_small_mod((cur + 1) as nat, n as nat);
                    }
                }
                self.set_single(next);
                (None, Handled { captured: true, redraw: true })
            },
            NavKey::Enter => {
                let tail = walk_menu(menus, path);
                if let Some(r) = row {
                    if r < tail.entries.len() {
                        if is_item_activatable(&tail.entries[r]) {
                            let msg = item_message(tail, r);
                            self.close();
                            self.bar_active = None;
                            return (msg, Handled { captured: true, redraw: true });
                        } else if is_submenu_entry(&tail.entries[r]) {
                            let longer = push_index(path, r);
                            self.open_path = Some(longer);
                            return (None, Handled { captured: true, redraw: true });
                        }
                    }
                }
                (None, Handled { captured: false, redraw: false })
            },
            NavKey::Other => (None, Handled { captured: false, redraw: false }),
        }
    }

    /// Opens bar menu `i` alone without touching the hovered rows.
    fn set_single(&mut self, i: usize)
        ensures
            final(self).open_path matches Some(p) && p@ == seq![i],
            final(self).bar_active == Some(i),
            final(self).hover_path == old(self).hover_path,
            final(self).bar_hover == old(self).bar_hover,
    {
        let path = vec![i];
        assert(path@ =~= seq![i]);
        self.open_path = Some(path);
        self.bar_active = Some(i);
    }
}

/// Whether an entry is a submenu.
fn is_submenu_entry<M>(entry: &Entry<M>) -> (res: bool)
    ensures
        res == (entry matches Entry::Submenu(_)),
{
    match entry {
        Entry::Submenu(_) => true,
        _ => false,
    }
}

/// A copy of `path` without its last index.
fn drop_last_index(path: &Vec<usize>) -> (res: Vec<usize>)
    requires
        path@.len() >= 1,
    ensures
        res@ == path@.drop_last(),
{
    let mut out: Vec<usize> = Vec::new();
    let mut i: usize = 0;
    let keep = path.len() - 1;
    while i < keep
        invariant
            path@.len() >= 1,
            keep == path@.len() - 1,
            i <= keep,
            out@ == path@.take(i as int),
        decreases path@.len() - i,
    {
        out.push(path[i]);
        i = i + 1;
        assert(out@ =~= path@.take(i as int));
    }
    assert(out@ =~= path@.drop_last());
    out
}

/// A copy of `path` with `index` appended.
fn push_index(path: &Vec<usize>, index: usize) -> (res: Vec<usize>)
    ensures
        res@ == path@.push(index),
{
    let mut out: Vec<usize> = Vec::new();
    let mut i: usize = 0;
    while i < path.len()
        invariant
            i <= path@.len(),
            out@ == path@.take(i as int),
        decreases path@.len() - i,
    {
        out.push(path[i]);
        i = i + 1;
        assert(out@ =~= path@.take(i as int));
    }
    out.push(index);
    assert(out@ =~= path@.push(index));
    out
}

} // verus!
