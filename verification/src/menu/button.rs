//! The menu button: a trigger that opens a drop-down of menu entries,
//! with nested submenus opening as the pointer rests on them.

use vstd::prelude::*;
use crate::menu::bar::Handled;
use crate::menu::item::{Entry, Menu};

verus! {

/// A menu button: the entries of its drop-down.
pub struct MenuButton<M> {
    /// The entries, top to bottom.
    pub entries: Vec<Entry<M>>,
}

/// The state of a menu button: whether the drop-down is open, the
/// submenu entries opened at each depth, and the hovered row of each
/// popup.
pub struct MenuButtonState {
    /// The drop-down is open.
    pub open: bool,
    /// The index of the opened submenu entry at each depth.
    pub open_path: Vec<usize>,
    /// The row under the pointer in each popup.
    pub hover_path: Vec<Option<usize>>,
}

/// What a press in the drop-down did.
pub enum ButtonPress<M> {
    /// An item was activated; its message, copied.
    Activated(M),
    /// A submenu was opened.
    Opened,
    /// The press landed in a popup without effect.
    Inert,
    /// The press landed outside every popup.
    Missed,
}

/// The entries of the submenu at `row` of `entries`, if it is one.
pub open spec fn sub_entries<M>(entries: Seq<Entry<M>>, row: int) -> Option<Seq<Entry<M>>> {
    if 0 <= row < entries.len() {
        match entries[row] {
            Entry::Submenu(sub) => Some(sub.entries@),
            _ => None,
        }
    } else {
        None
    }
}

/// Whether `a` differs from `b` at some depth below `d` that `a` reaches.
pub open spec fn differs_below(a: Seq<usize>, b: Seq<usize>, d: int) -> bool {
    exists|k: int| 0 <= k < d && #[trigger] differs_at(a, b, k)
}

/// Whether `a` reaches depth `k` and differs from `b` there.
pub open spec fn differs_at(a: Seq<usize>, b: Seq<usize>, k: int) -> bool {
    0 <= k < a.len() && (k >= b.len() || a[k] != b[k])
}

/// `path` cut to at most `n` indices.
pub open spec fn truncated(path: Seq<usize>, n: int) -> Seq<usize> {
    if n < path.len() { path.take(n) } else { path }
}

/// The open path after the pointer moved: popup by popup from depth
/// `d`, a hovered submenu row opens that submenu (cutting deeper
/// levels); otherwise, when the pointer is inside a popup whose opened
/// submenu it is not hovering, deeper levels close; the scan follows
/// the opened submenus and stops where neither applies. Also returns
/// how many popups were scanned.
pub open spec fn moved_scan<M>(
    entries: Seq<Entry<M>>,
    path: Seq<usize>,
    hits: Seq<Option<usize>>,
    inside: Seq<bool>,
    d: nat,
) -> (Seq<usize>, nat)
    decreases hits.len() - d,
{
    if d >= hits.len() || d >= inside.len() {
        (path, d)
    } else {
        match hits[d as int] {
            Some(idx) if sub_entries(entries, idx as int) is Some => {
                let p2 = if d < path.len() && path[d as int] == idx { path } else { truncated(path, d as int).push(idx) };
                moved_scan(sub_entries(entries, idx as int).unwrap(), p2, hits, inside, d + 1)
            },
            _ => {
                if d < path.len() && sub_entries(entries, path[d as int] as int) is Some {
                    if inside[d as int] {
                        (path.take(d as int), d + 1)
                    } else {
                        moved_scan(sub_entries(entries, path[d as int] as int).unwrap(), path, hits, inside, d + 1)
                    }
                } else {
                    (path, d + 1)
                }
            },
        }
    }
}

/// Whether, from depth `d` on, every hit row is a submenu entry of the
/// popup reached through the rows hit before it (`entries` being the
/// popup at depth `d`).
pub open spec fn hits_submenu_chain<M>(entries: Seq<Entry<M>>, hits: Seq<Option<usize>>, d: nat) -> bool
    decreases hits.len() - d,
{
    if d >= hits.len() {
        true
    } else {
        match hits[d as int] {
            Some(idx) => match sub_entries(entries, idx as int) {
                Some(sub) => hits_submenu_chain(sub, hits, d + 1),
                None => false,
            },
            None => false,
        }
    }
}

/// Hovering a chain of submenu rows opens every one of them: the
/// levels above `d` are kept, every popup scanned is scanned, and from
/// depth `d` on the opened path holds exactly the hovered rows.
pub proof fn lemma_button_hover_opens_chain<M>(
    entries: Seq<Entry<M>>,
    path: Seq<usize>,
    hits: Seq<Option<usize>>,
    inside: Seq<bool>,
    d: nat,
)
    requires
        hits.len() <= inside.len(),
        d <= hits.len(),
        d <= path.len(),
        hits_submenu_chain(entries, hits, d),
    ensures
        ({
            let (p, count) = moved_scan(entries, path, hits, inside, d);
            &&& count == hits.len()
            &&& p.len() >= hits.len()
            &&& p.take(d as int) == path.take(d as int)
            &&& forall|k: int| d <= k < hits.len() ==> hits[k] == Some(#[trigger] p[k])
        }),
    decreases hits.len() - d,
{
    if d < hits.len() {
        let idx = hits[d as int]->Some_0;
        let sub = sub_entries(entries, idx as int).unwrap();
        let p2 = if d < path.len() && path[d as int] == idx { path } else { truncated(path, d as int).push(idx) };
        assert(p2.take(d as int) =~= path.take(d as int));
        assert(p2[d as int] == idx);
        lemma_button_hover_opens_chain(sub, p2, hits, inside, d + 1);
        let p = moved_scan(sub, p2, hits, inside, d + 1).0;
        assert(p.take(d + 1 as int).take(d as int) =~= p.take(d as int));
        assert(p2.take(d + 1 as int).take(d as int) =~= p2.take(d as int));
        assert(p.take(d + 1 as int)[d as int] == p[d as int]);
        assert(p2.take(d + 1 as int)[d as int] == p2[d as int]);
    }
}

/// The first popup, from depth `d`, that the pointer is inside, with
/// the entries it shows; the scan follows the opened submenus and
/// stops where the path does not lead into one.
pub open spec fn press_scan<M>(entries: Seq<Entry<M>>, path: Seq<usize>, inside: Seq<bool>, d: nat) -> Option<(nat, Seq<Entry<M>>)>
    decreases inside.len() - d,
{
    if d >= inside.len() {
        None
    } else if inside[d as int] {
        Some((d, entries))
    } else if d < path.len() && sub_entries(entries, path[d as int] as int) is Some {
        press_scan(sub_entries(entries, path[d as int] as int).unwrap(), path, inside, d + 1)
    } else {
        None
    }
}

/// A press is handled by the outermost popup, from depth `d`, that the
/// pointer is inside: every popup before it is one the pointer is
/// outside of; when the pointer is inside none of the popups, there is
/// no such popup.
pub proof fn lemma_press_goes_to_outermost<M>(entries: Seq<Entry<M>>, path: Seq<usize>, inside: Seq<bool>, d: nat)
    ensures
        press_scan(entries, path, inside, d) matches Some((k, shown)) ==> {
            &&& d <= k < inside.len()
            &&& inside[k as int]
            &&& forall|j: int| d <= j < k ==> !#[trigger] inside[j]
        },
        (forall|j: int| d <= j < inside.len() ==> !#[trigger] inside[j]) ==> press_scan(entries, path, inside, d) is None,
        d < inside.len() && inside[d as int] ==> press_scan(entries, path, inside, d) == Some((d, entries)),
    decreases inside.len() - d,
{
    if d < inside.len() && !inside[d as int] && d < path.len() && sub_entries(entries, path[d as int] as int) is Some {
        lemma_press_goes_to_outermost(sub_entries(entries, path[d as int] as int).unwrap(), path, inside, d + 1);
    }
}

impl<M> MenuButton<M> {
    /// A menu button showing the given entries.
    pub fn new(entries: Vec<Entry<M>>) -> (res: MenuButton<M>)
        ensures
            res.entries@ == entries@,
    {
        MenuButton { entries }
    }
}

impl MenuButtonState {
    /// Closed, nothing opened or hovered.
    pub fn new() -> (res: MenuButtonState)
        ensures
            !res.open,
            res.open_path@.len() == 0,
            res.hover_path@.len() == 0,
    {
        MenuButtonState { open: false, open_path: Vec::new(), hover_path: Vec::new() }
    }

    /// Closes the drop-down and forgets the opened and hovered rows.
    pub fn close(&mut self)
        ensures
            !final(self).open,
            final(self).open_path@.len() == 0,
            final(self).hover_path@.len() == 0,
    {
        self.open = false;
        self.open_path = Vec::new();
        self.hover_path = Vec::new();
    }

    /// A press on the trigger toggles the drop-down; opening starts with
    /// no submenu opened and nothing hovered.
    pub fn trigger_pressed(&mut self, over_trigger: bool) -> (res: Handled)
        ensures
            !over_trigger ==> final(self).open == old(self).open && final(self).open_path@ == old(self).open_path@
                && final(self).hover_path@ == old(self).hover_path@ && res == (Handled { captured: false, redraw: false }),
            over_trigger ==> {
                &&& final(self).open == !old(self).open
                &&& final(self).open ==> final(self).open_path@.len() == 0 && final(self).hover_path@.len() == 0
                &&& !final(self).open ==> final(self).open_path@ == old(self).open_path@
                    && final(self).hover_path@ == old(self).hover_path@
                &&& res == (Handled { captured: true, redraw: true })
            },
    {
        if !over_trigger {
            return Handled { captured: false, redraw: false };
        }
        self.open = !self.open;
        if self.open {
            self.open_path = Vec::new();
            self.hover_path = Vec::new();
        }
        Handled { captured: true, redraw: true }
    }

    /// Escape closes the drop-down.
    pub fn escape(&mut self) -> (res: Handled)
        ensures
            !final(self).open,
            final(self).open_path@.len() == 0,
            final(self).hover_path@.len() == 0,
            res == (Handled { captured: true, redraw: true }),
    {
        self.close();
        Handled { captured: true, redraw: true }
    }
}

/// A difference below `d` is a difference below `d + 1`.
proof fn lemma_differs_extend(a: Seq<usize>, b: Seq<usize>, d: int)
    requires
        differs_below(a, b, d),
    ensures
        differs_below(a, b, d + 1),
{
    let k = choose|k: int| 0 <= k < d && #[trigger] differs_at(a, b, k);
    assert(0 <= k < d + 1 && differs_at(a, b, k));
}

/// Opening a submenu other than the one opened at depth `d` leaves a
/// path that differs from `b` below `d + 1`, given that `a` reaches `d`
/// and any difference from `b` lies below `d`.
proof fn lemma_differs_after_push(a: Seq<usize>, b: Seq<usize>, d: int, idx: usize)
    requires
        0 <= d <= a.len(),
        a != b ==> differs_below(a, b, d),
        !(d < a.len() && a[d] == idx),
    ensures
        differs_below(truncated(a, d).push(idx), b, d + 1),
{
    let c = truncated(a, d).push(idx);
    assert(c.len() == d + 1);
    if a != b {
        let k = choose|k: int| 0 <= k < d && #[trigger] differs_at(a, b, k);
        assert(c[k] == a[k]);
        assert(0 <= k < d + 1 && differs_at(c, b, k));
    } else {
        assert(c[d] == idx);
        assert(0 <= d < d + 1 && differs_at(c, b, d));
    }
}

/// `path` cut to at most `n` indices.
fn truncate_path(path: &mut Vec<usize>, n: usize)
    ensures
        final(path)@ == truncated(old(path)@, n as int),
{
    if n < path.len() {
        path.truncate(n);
    }
}

/// The entries of the submenu at `row`, if it is one.
fn submenu_entries<'a, M>(entries: &'a Vec<Entry<M>>, row: usize) -> (res: Option<&'a Vec<Entry<M>>>)
    ensures
        match sub_entries(entries@, row as int) {
            Some(s) => res matches Some(v) && v@ == s,
            None => res is None,
        },
{
    if row < entries.len() {
        match &entries[row] {
            Entry::Submenu(sub) => Some(&sub.entries),
            _ => None,
        }
    } else {
        None
    }
}

/// Whether two hovered-row sequences are equal.
fn same_rows(a: &Vec<Option<usize>>, b: &Vec<Option<usize>>) -> (res: bool)
    ensures
        res == (a@ == b@),
{
    if a.len() != b.len() {
        return false;
    }
    let mut i: usize = 0;
    while i < a.len()
        invariant
            a@.len() == b@.len(),
            i <= a@.len(),
            forall|j: int| 0 <= j < i ==> a@[j] == b@[j],
        decreases a@.len() - i,
    {
        let eq = match (a[i], b[i]) {
            (Some(x), Some(y)) => x == y,
            (None, None) => true,
            _ => false,
        };
        if !eq {
            return false;
        }
        i = i + 1;
    }
    assert(a@ =~= b@);
    true
}

impl<M> MenuButton<M> {
    /// The pointer moved while the drop-down is open. `hits[d]` is the
    /// row under the pointer in the popup at depth `d` (none when the
    /// pointer is outside it) and `inside[d]` whether the pointer is
    /// inside that popup, for each popup shown. The opened submenus
    /// follow [`moved_scan`]; the hovered rows of the scanned popups
    /// are remembered.
    pub fn pointer_moved(&self, state: &mut MenuButtonState, hits: &Vec<Option<usize>>, inside: &Vec<bool>) -> (res: Handled)
        ensures
            final(state).open == old(state).open,
            ({
                let (path, count) = moved_scan(self.entries@, old(state).open_path@, hits@, inside@, 0);
                &&& final(state).open_path@ == path
                &&& final(state).hover_path@ == (if old(state).hover_path@ == hits@.take(count as int) {
                    old(state).hover_path@
                } else {
                    hits@.take(count as int)
                })
                &&& res.captured == false
                &&& res.redraw == (old(state).hover_path@ != hits@.take(count as int) || old(state).open_path@ != path)
            }),
    {
        let n = if hits.len() < inside.len() { hits.len() } else { inside.len() };
        let mut current: &Vec<Entry<M>> = &self.entries;
        let mut new_hover: Vec<Option<usize>> = Vec::new();
        let mut redraw = false;
        let mut d: usize = 0;
        let ghost goal = moved_scan(self.entries@, state.open_path@, hits@, inside@, 0);
        loop
            invariant_except_break
                d <= n,
                moved_scan(current@, state.open_path@, hits@, inside@, d as nat) == goal,
                new_hover@ == hits@.take(d as int),
                d <= state.open_path@.len(),
                state.open_path@ != old(state).open_path@ ==> differs_below(state.open_path@, old(state).open_path@, d as int),
            invariant
                n == if hits@.len() < inside@.len() { hits@.len() } else { inside@.len() },
                goal == moved_scan(self.entries@, old(state).open_path@, hits@, inside@, 0),
                state.open == old(state).open,
                state.hover_path@ == old(state).hover_path@,
                redraw == (state.open_path@ != old(state).open_path@),
            ensures
                state.open_path@ == goal.0,
                new_hover@ == hits@.take(goal.1 as int),
                goal.1 <= hits@.len(),
                state.open == old(state).open,
                state.hover_path@ == old(state).hover_path@,
                redraw == (state.open_path@ != old(state).open_path@),
            decreases n - d,
        {
            if d >= n {
                break;
            }
            let row = hits[d];
            new_hover.push(row);
            assert(new_hover@ =~= hits@.take(d + 1 as int));
            let mut followed = false;
            if let Some(idx) = row {
                if let Some(sub) = submenu_entries(current, idx) {
                    let same = d < state.open_path.len() && state.open_path[d] == idx;
                    let ghost before = state.open_path@;
                    if !same {
                        truncate_path(&mut state.open_path, d);
                        state.open_path.push(idx);
                        redraw = true;
                        proof {
                            lemma_differs_after_push(before, old(state).open_path@, d as int, idx);
                        }
                    } else {
                        proof {
                            if before != old(state).open_path@ {
                                lemma_differs_extend(before, old(state).open_path@, d as int);
                            }
                        }
                    }
                    current = sub;
                    followed = true;
                }
            }
            if !followed {
                let opened = if d < state.open_path.len() { submenu_entries(current, state.open_path[d]) } else { None };
                match opened {
                    Some(sub) => {
                        if inside[d] {
                            truncate_path(&mut state.open_path, d);
                            redraw = true;
                            d = d + 1;
                            break;
                        }
                        current = sub;
                        proof {
                            if state.open_path@ != old(state).open_path@ {
                                lemma_differs_extend(state.open_path@, old(state).open_path@, d as int);
                            }
                        }
                    },
                    None => {
                        d = d + 1;
                        break;
                    },
                }
            }
            d = d + 1;
        }
        if !same_rows(&new_hover, &state.hover_path) {
            state.hover_path = new_hover;
            redraw = true;
        }
        Handled { captured: false, redraw }
    }
}

impl<M: Clone> MenuButton<M> {
    /// The left button was pressed while the drop-down is open (with a
    /// known pointer position). `inside[d]` tells whether the pointer is
    /// inside the popup at depth `d`, and `hits[d]` which row it is on
    /// there. In the first popup the pointer is inside (see
    /// [`press_scan`]), an activatable item is activated (the drop-down
    /// closes), a submenu row opens that submenu, anything else does
    /// nothing; a press inside no popup and not on the trigger closes
    /// the drop-down.
    pub fn pointer_pressed(
        &self,
        state: &mut MenuButtonState,
        hits: &Vec<Option<usize>>,
        inside: &Vec<bool>,
        over_trigger: bool,
    ) -> (res: ButtonPress<M>)
        requires
            hits@.len() == inside@.len(),
        ensures
            match press_scan(self.entries@, old(state).open_path@, inside@, 0) {
                Some((d, shown)) => match hits@[d as int] {
                    Some(r) if r < shown.len() && (shown[r as int] matches Entry::Item(item) && item.spec_activatable()) => {
                        &&& res matches ButtonPress::Activated(m) && cloned::<M>(
                            match shown[r as int] { Entry::Item(item) => item.on_press.unwrap(), _ => arbitrary() },
                            m,
                        )
                        &&& !final(state).open
                        &&& final(state).open_path@.len() == 0
                        &&& final(state).hover_path@.len() == 0
                    },
                    Some(r) if sub_entries(shown, r as int) is Some => {
                        &&& res is Opened
                        &&& final(state).open == old(state).open
                        &&& final(state).open_path@ == truncated(old(state).open_path@, d as int).push(r)
                        &&& final(state).hover_path@ == old(state).hover_path@
                    },
                    _ => {
                        &&& res is Inert
                        &&& final(state).open == old(state).open
                        &&& final(state).open_path@ == old(state).open_path@
                        &&& final(state).hover_path@ == old(state).hover_path@
                    },
                },
                None => {
                    &&& res is Missed
                    &&& !over_trigger ==> !final(state).open && final(state).open_path@.len() == 0
                        && final(state).hover_path@.len() == 0
                    &&& over_trigger ==> final(state).open == old(state).open
                        && final(state).open_path@ == old(state).open_path@
                        && final(state).hover_path@ == old(state).hover_path@
                },
            },
    {
        let mut current: &Vec<Entry<M>> = &self.entries;
        let mut d: usize = 0;
        let ghost goal = press_scan(self.entries@, state.open_path@, inside@, 0);
        while d < inside.len()
            invariant
                hits@.len() == inside@.len(),
                d <= inside@.len(),
                goal == press_scan(self.entries@, old(state).open_path@, inside@, 0),
                press_scan(current@, state.open_path@, inside@, d as nat) == goal,
                state.open_path@ == old(state).open_path@,
                state.open == old(state).open,
                state.hover_path@ == old(state).hover_path@,
            ensures
                goal is None,
            decreases inside@.len() - d,
        {
            if inside[d] {
                if let Some(r) = hits[d] {
                    if r < current.len() {
                        match &current[r] {
                            Entry::Item(item) => {
                                if item.is_activatable() {
                                    match &item.on_press {
                                        Some(m) => {
                                            let msg = m.clone();
                                            state.close();
                                            return ButtonPress::Activated(msg);
                                        },
                                        None => {},
                                    }
                                }
                            },
                            Entry::Submenu(_) => {
                                truncate_path(&mut state.open_path, d);
                                state.open_path.push(r);
                                return ButtonPress::Opened;
                            },
                            Entry::Separator => {},
                        }
                    }
                }
                return ButtonPress::Inert;
            }
            let opened = if d < state.open_path.len() { submenu_entries(current, state.open_path[d]) } else { None };
            match opened {
                Some(sub) => {
                    current = sub;
                },
                None => {
                    break;
                },
            }
            d = d + 1;
        }
        if !over_trigger {
            state.close();
        }
        ButtonPress::Missed
    }
}

} // verus!
