//! Keyboard shortcuts of menu items: which key presses a binding
//! answers to, and the compact label shown next to the item.

use vstd::prelude::*;
use crate::text::push_char;
use vstd::string::StringExecFns;

verus! {

/// The modifier keys held with a key press.
#[derive(Clone, Copy, Debug, PartialEq, Eq, Structural, Hash)]
pub struct Modifiers {
    /// Control.
    pub ctrl: bool,
    /// Alt / Option.
    pub alt: bool,
    /// Shift.
    pub shift: bool,
    /// The platform "logo" key (Command on macOS, Super elsewhere).
    pub logo: bool,
}

impl Modifiers {
    /// No modifier held.
    pub fn empty() -> (res: Modifiers)
        ensures
            res == (Modifiers { ctrl: false, alt: false, shift: false, logo: false }),
    {
        Modifiers { ctrl: false, alt: false, shift: false, logo: false }
    }

    /// Control alone.
    pub fn ctrl_only() -> (res: Modifiers)
        ensures
            res == (Modifiers { ctrl: true, alt: false, shift: false, logo: false }),
    {
        Modifiers { ctrl: true, alt: false, shift: false, logo: false }
    }

    /// The platform's command modifier alone: the logo key on macOS,
    /// Control elsewhere.
    pub fn command(on_macos: bool) -> (res: Modifiers)
        ensures
            res == (Modifiers { ctrl: !on_macos, alt: false, shift: false, logo: on_macos }),
    {
        Modifiers { ctrl: !on_macos, alt: false, shift: false, logo: on_macos }
    }
}

/// A named (non-character) key. Keys without a label of their own are
/// carried as `Other` with a number that tells them apart.
#[derive(Clone, Copy, Debug, PartialEq, Eq, Structural, Hash)]
pub enum NamedKey {
    Enter,
    Tab,
    Space,
    Backspace,
    Delete,
    Escape,
    ArrowLeft,
    ArrowRight,
    ArrowUp,
    ArrowDown,
    Home,
    End,
    PageUp,
    PageDown,
    Insert,
    F1,
    F2,
    F3,
    F4,
    F5,
    F6,
    F7,
    F8,
    F9,
    F10,
    F11,
    F12,
    /// Any other named key.
    Other(u32),
}

/// A key as reported by the keyboard.
#[derive(Clone, Debug, Hash)]
pub enum Key {
    /// A key that produces text.
    Character(String),
    /// A named key.
    Named(NamedKey),
    /// A key the platform could not identify.
    Unidentified,
}

/// `c` with ASCII upper-case letters mapped to lower case.
pub open spec fn ascii_lower(c: char) -> char {
    if 'A' <= c <= 'Z' { ((c as u32) + 32) as char } else { c }
}

/// `c` with ASCII lower-case letters mapped to upper case.
pub open spec fn ascii_upper(c: char) -> char {
    if 'a' <= c <= 'z' { ((c as u32) - 32) as char } else { c }
}

/// Whether every character of `s` is ASCII.
pub open spec fn all_ascii(s: Seq<char>) -> bool {
    forall|i: int| 0 <= i < s.len() ==> (#[trigger] s[i] as u32) < 128
}

/// Whether two texts are equal ignoring ASCII case (what
/// `str::eq_ignore_ascii_case` decides).
pub open spec fn eq_ignore_ascii_case(a: Seq<char>, b: Seq<char>) -> bool {
    a.len() == b.len() && forall|i: int| 0 <= i < a.len() ==> ascii_lower(#[trigger] a[i]) == ascii_lower(b[i])
}

/// What `char::to_lowercase` yields for `c` (the Unicode lower-case
/// mapping, one or more characters).
pub uninterp spec fn char_lowercase(c: char) -> Seq<char>;

/// What `char::to_uppercase` yields for `c` (the Unicode upper-case
/// mapping, one or more characters).
pub uninterp spec fn char_uppercase(c: char) -> Seq<char>;

/// The lower-case mapping of a character as a string
/// (`char::to_lowercase`, collected into a `String`); an ASCII
/// character maps to its ASCII lower case alone.
#[verifier::external_body]
fn lowercase_string(c: char) -> (res: String)
    ensures
        res@ == char_lowercase(c),
        (c as u32) < 128 ==> res@ == seq![ascii_lower(c)],
{
    c.to_lowercase().to_string()
}

/// The upper-case mapping of a character as a string
/// (`char::to_uppercase`, collected into a `String`); an ASCII
/// character maps to its ASCII upper case alone.
#[verifier::external_body]
fn uppercase_string(c: char) -> (res: String)
    ensures
        res@ == char_uppercase(c),
        (c as u32) < 128 ==> res@ == seq![ascii_upper(c)],
{
    c.to_uppercase().to_string()
}

/// The ASCII lower case of one character.
pub fn to_ascii_lower(c: char) -> (res: char)
    ensures
        res == ascii_lower(c),
{
    if 'A' <= c && c <= 'Z' {
        let code: u32 = c as u32 + 32;
        assert(code < 0xD800);
        char_from_ascii_code(code)
    } else {
        c
    }
}

/// The character with a code below 128.
fn char_from_ascii_code(code: u32) -> (res: char)
    requires
        code < 128,
    ensures
        res == code as char,
{
    let b: u8 = code as u8;
    b as char
}

/// Whether two strings match ignoring ASCII case.
pub fn eq_ignore_case(a: &str, b: &str) -> (res: bool)
    ensures
        res == eq_ignore_ascii_case(a@, b@),
{
    let n = a.unicode_len();
    if n != b.unicode_len() {
        return false;
    }
    let mut i: usize = 0;
    while i < n
        invariant
            n == a@.len(),
            n == b@.len(),
            i <= n,
            forall|j: int| 0 <= j < i ==> ascii_lower(#[trigger] a@[j]) == ascii_lower(b@[j]),
        decreases n - i,
    {
        if to_ascii_lower(a.get_char(i)) != to_ascii_lower(b.get_char(i)) {
            return false;
        }
        i = i + 1;
    }
    true
}

impl Key {
    /// Whether two keys are the same key: equal text, equal name, or
    /// both unidentified.
    pub open spec fn same(self, other: Key) -> bool {
        match (self, other) {
            (Key::Character(a), Key::Character(b)) => a@ == b@,
            (Key::Named(a), Key::Named(b)) => a == b,
            (Key::Unidentified, Key::Unidentified) => true,
            _ => false,
        }
    }

    /// Whether a key press of `other` counts as this key: text compared
    /// ignoring ASCII case, names compared exactly.
    pub open spec fn spec_equal(self, other: Key) -> bool {
        match (self, other) {
            (Key::Character(a), Key::Character(b)) => eq_ignore_ascii_case(a@, b@),
            (Key::Named(a), Key::Named(b)) => a == b,
            (Key::Unidentified, Key::Unidentified) => true,
            _ => false,
        }
    }

    /// A copy of the key.
    pub fn duplicate(&self) -> (res: Key)
        ensures
            res.same(*self),
    {
        match self {
            Key::Character(s) => Key::Character(s.clone()),
            Key::Named(n) => Key::Named(*n),
            Key::Unidentified => Key::Unidentified,
        }
    }
}

/// Whether two keys match for shortcut purposes.
pub fn keys_equal(a: &Key, b: &Key) -> (res: bool)
    ensures
        res == a.spec_equal(*b),
{
    match (a, b) {
        (Key::Character(x), Key::Character(y)) => eq_ignore_case(x.as_str(), y.as_str()),
        (Key::Named(x), Key::Named(y)) => *x == *y,
        (Key::Unidentified, Key::Unidentified) => true,
        _ => false,
    }
}

/// A keyboard shortcut: a key together with the modifiers that must be
/// held.
#[derive(Clone, Debug, Hash)]
pub struct KeyBinding {
    /// The modifiers that must be held.
    pub modifiers: Modifiers,
    /// The key.
    pub key: Key,
}

/// The label of a named key.
pub open spec fn named_label_text(named: NamedKey) -> Seq<char> {
    match named {
        NamedKey::Enter => "Enter"@,
        NamedKey::Tab => "Tab"@,
        NamedKey::Space => "Space"@,
        NamedKey::Backspace => "Backspace"@,
        NamedKey::Delete => "Delete"@,
        NamedKey::Escape => "Esc"@,
        NamedKey::ArrowLeft => "←"@,
        NamedKey::ArrowRight => "→"@,
        NamedKey::ArrowUp => "↑"@,
        NamedKey::ArrowDown => "↓"@,
        NamedKey::Home => "Home"@,
        NamedKey::End => "End"@,
        NamedKey::PageUp => "PgUp"@,
        NamedKey::PageDown => "PgDn"@,
        NamedKey::Insert => "Ins"@,
        NamedKey::F1 => "F1"@,
        NamedKey::F2 => "F2"@,
        NamedKey::F3 => "F3"@,
        NamedKey::F4 => "F4"@,
        NamedKey::F5 => "F5"@,
        NamedKey::F6 => "F6"@,
        NamedKey::F7 => "F7"@,
        NamedKey::F8 => "F8"@,
        NamedKey::F9 => "F9"@,
        NamedKey::F10 => "F10"@,
        NamedKey::F11 => "F11"@,
        NamedKey::F12 => "F12"@,
        NamedKey::Other(_) => "?"@,
    }
}

/// The label of a named key.
pub fn named_label(named: NamedKey) -> (res: &'static str)
    ensures
        res@ == named_label_text(named),
{
    match named {
        NamedKey::Enter => "Enter",
        NamedKey::Tab => "Tab",
        NamedKey::Space => "Space",
        NamedKey::Backspace => "Backspace",
        NamedKey::Delete => "Delete",
        NamedKey::Escape => "Esc",
        NamedKey::ArrowLeft => "←",
        NamedKey::ArrowRight => "→",
        NamedKey::ArrowUp => "↑",
        NamedKey::ArrowDown => "↓",
        NamedKey::Home => "Home",
        NamedKey::End => "End",
        NamedKey::PageUp => "PgUp",
        NamedKey::PageDown => "PgDn",
        NamedKey::Insert => "Ins",
        NamedKey::F1 => "F1",
        NamedKey::F2 => "F2",
        NamedKey::F3 => "F3",
        NamedKey::F4 => "F4",
        NamedKey::F5 => "F5",
        NamedKey::F6 => "F6",
        NamedKey::F7 => "F7",
        NamedKey::F8 => "F8",
        NamedKey::F9 => "F9",
        NamedKey::F10 => "F10",
        NamedKey::F11 => "F11",
        NamedKey::F12 => "F12",
        NamedKey::Other(_) => "?",
    }
}

/// The upper-case mapping of every character of `s`, concatenated.
pub open spec fn uppercase_text(s: Seq<char>) -> Seq<char>
    decreases s.len(),
{
    if s.len() == 0 {
        Seq::empty()
    } else {
        uppercase_text(s.drop_last()) + char_uppercase(s.last())
    }
}

/// The modifier symbols of a label, in the fixed order ⌃ ⌥ ⇧ and then
/// the logo key (⌘ on macOS, ❖ elsewhere).
pub open spec fn modifier_symbols(m: Modifiers, on_macos: bool) -> Seq<char> {
    (if m.ctrl { seq!['⌃'] } else { Seq::empty() })
        + (if m.alt { seq!['⌥'] } else { Seq::empty() })
        + (if m.shift { seq!['⇧'] } else { Seq::empty() })
        + (if m.logo { if on_macos { seq!['⌘'] } else { seq!['❖'] } } else { Seq::empty() })
}

/// The label of a key: text keys upper-cased, named keys by name,
/// unidentified keys as `?`.
pub open spec fn key_text(k: Key) -> Seq<char> {
    match k {
        Key::Character(s) => uppercase_text(s@),
        Key::Named(n) => named_label_text(n),
        Key::Unidentified => seq!['?'],
    }
}

impl KeyBinding {
    /// Whether two bindings are the same binding.
    pub open spec fn same(self, other: KeyBinding) -> bool {
        self.modifiers == other.modifiers && self.key.same(other.key)
    }

    /// The label shown for the binding.
    pub open spec fn spec_label(self, on_macos: bool) -> Seq<char> {
        modifier_symbols(self.modifiers, on_macos) + key_text(self.key)
    }

    /// Creates a binding from modifiers and a key.
    pub fn new(modifiers: Modifiers, key: Key) -> (res: KeyBinding)
        ensures
            res.modifiers == modifiers,
            res.key == key,
    {
        KeyBinding { modifiers, key }
    }

    /// The platform command modifier (the logo key on macOS, Control
    /// elsewhere) with the lower-cased character.
    pub fn command(character: char, on_macos: bool) -> (res: KeyBinding)
        ensures
            res.modifiers == Modifiers::command_spec(on_macos),
            res.key matches Key::Character(s) && s@ == char_lowercase(character),
            (character as u32) < 128 ==> (res.key matches Key::Character(s) && s@ == seq![ascii_lower(character)]),
    {
        KeyBinding { modifiers: Modifiers::command(on_macos), key: Key::Character(lowercase_string(character)) }
    }

    /// Control with the lower-cased character.
    pub fn ctrl(character: char) -> (res: KeyBinding)
        ensures
            res.modifiers == (Modifiers { ctrl: true, alt: false, shift: false, logo: false }),
            res.key matches Key::Character(s) && s@ == char_lowercase(character),
            (character as u32) < 128 ==> (res.key matches Key::Character(s) && s@ == seq![ascii_lower(character)]),
    {
        KeyBinding { modifiers: Modifiers::ctrl_only(), key: Key::Character(lowercase_string(character)) }
    }

    /// Adds Shift to the modifiers.
    pub fn shift(self) -> (res: KeyBinding)
        ensures
            res.modifiers == (Modifiers { shift: true, ..self.modifiers }),
            res.key == self.key,
    {
        KeyBinding { modifiers: Modifiers { shift: true, ..self.modifiers }, key: self.key }
    }

    /// Adds Alt to the modifiers.
    pub fn alt(self) -> (res: KeyBinding)
        ensures
            res.modifiers == (Modifiers { alt: true, ..self.modifiers }),
            res.key == self.key,
    {
        KeyBinding { modifiers: Modifiers { alt: true, ..self.modifiers }, key: self.key }
    }

    /// Adds Control to the modifiers.
    pub fn with_ctrl(self) -> (res: KeyBinding)
        ensures
            res.modifiers == (Modifiers { ctrl: true, ..self.modifiers }),
            res.key == self.key,
    {
        KeyBinding { modifiers: Modifiers { ctrl: true, ..self.modifiers }, key: self.key }
    }

    /// Adds the logo key to the modifiers.
    pub fn logo(self) -> (res: KeyBinding)
        ensures
            res.modifiers == (Modifiers { logo: true, ..self.modifiers }),
            res.key == self.key,
    {
        KeyBinding { modifiers: Modifiers { logo: true, ..self.modifiers }, key: self.key }
    }

    /// Whether a key press with the given modifiers and key triggers
    /// this binding: the modifiers must be exactly the same, and the
    /// key must match (text ignoring ASCII case).
    pub fn matches(&self, modifiers: Modifiers, key: &Key) -> (res: bool)
        ensures
            res == (self.modifiers == modifiers && self.key.spec_equal(*key)),
    {
        self.modifiers == modifiers && keys_equal(&self.key, key)
    }

    /// A copy of the binding.
    pub fn duplicate(&self) -> (res: KeyBinding)
        ensures
            res.same(*self),
    {
        KeyBinding { modifiers: self.modifiers, key: self.key.duplicate() }
    }

    /// The compact label shown next to a menu item: modifier symbols
    /// (⌃ ⌥ ⇧, then ⌘ on macOS or ❖ elsewhere) followed by the key.
    pub fn label(&self, on_macos: bool) -> (res: String)
        ensures
            res@ == self.spec_label(on_macos),
            self.key matches Key::Character(t) ==> (all_ascii(t@) ==> res@ == modifier_symbols(self.modifiers, on_macos)
                + t@.map_values(|c: char| ascii_upper(c))),
    {
        let mut s = String::new();
        if self.modifiers.ctrl {
            push_char(&mut s, '⌃');
        }
        if self.modifiers.alt {
            push_char(&mut s, '⌥');
        }
        if self.modifiers.shift {
            push_char(&mut s, '⇧');
        }
        if self.modifiers.logo {
            if on_macos {
                push_char(&mut s, '⌘');
            } else {
                push_char(&mut s, '❖');
            }
        }
        assert(s@ =~= modifier_symbols(self.modifiers, on_macos));
        let ghost prefix = s@;
        match &self.key {
            Key::Character(text) => {
                let n = text.as_str().unicode_len();
                let mut i: usize = 0;
                while i < n
                    invariant
                        n == text@.len(),
                        i <= n,
                        s@ == prefix + uppercase_text(text@.take(i as int)),
                        all_ascii(text@) ==> uppercase_text(text@.take(i as int)) == text@.take(i as int).map_values(|c: char| ascii_upper(c)),
                    decreases n - i,
                {
                    let c = text.as_str().get_char(i);
                    let up = uppercase_string(c);
                    s.append(up.as_str());
                    proof {
                        assert(text@.take(i + 1).drop_last() =~= text@.take(i as int));
                        if all_ascii(text@) {
                            assert((text@[i as int] as u32) < 128);
                            assert(text@.take(i + 1).map_values(|c: char| ascii_upper(c)) =~= text@.take(i as int).map_values(
                                |c: char| ascii_upper(c),
                            ) + seq![ascii_upper(c)]);
                        }
                    }
                    i = i + 1;
                }
                assert(text@.take(n as int) =~= text@);
            },
            Key::Named(named) => {
                s.append(named_label(*named));
            },
            Key::Unidentified => {
                push_char(&mut s, '?');
            },
        }
        s
    }
}

impl Modifiers {
    /// The platform's command modifier alone.
    pub open spec fn command_spec(on_macos: bool) -> Modifiers {
        Modifiers { ctrl: !on_macos, alt: false, shift: false, logo: on_macos }
    }
}

/// Matching ignoring ASCII case is an equivalence relation.
pub proof fn lemma_ignore_case_equivalence(a: Seq<char>, b: Seq<char>, c: Seq<char>)
    ensures
        eq_ignore_ascii_case(a, a),
        eq_ignore_ascii_case(a, b) == eq_ignore_ascii_case(b, a),
        eq_ignore_ascii_case(a, b) && eq_ignore_ascii_case(b, c) ==> eq_ignore_ascii_case(a, c),
{
    if eq_ignore_ascii_case(a, b) {
        assert forall|i: int| 0 <= i < b.len() implies ascii_lower(#[trigger] b[i]) == ascii_lower(a[i]) by {
            assert(ascii_lower(a[i]) == ascii_lower(b[i]));
        }
    }
    if eq_ignore_ascii_case(b, a) {
        assert forall|i: int| 0 <= i < a.len() implies ascii_lower(#[trigger] a[i]) == ascii_lower(b[i]) by {
            assert(ascii_lower(b[i]) == ascii_lower(a[i]));
        }
    }
    if eq_ignore_ascii_case(a, b) && eq_ignore_ascii_case(b, c) {
        assert forall|i: int| 0 <= i < a.len() implies ascii_lower(#[trigger] a[i]) == ascii_lower(c[i]) by {
            assert(ascii_lower(a[i]) == ascii_lower(b[i]));
            assert(ascii_lower(b[i]) == ascii_lower(c[i]));
        }
    }
}

/// A binding is triggered by its own modifiers and key.
pub proof fn lemma_binding_matches_itself(b: KeyBinding)
    ensures
        b.key.spec_equal(b.key),
{
    match b.key {
        Key::Character(s) => lemma_ignore_case_equivalence(s@, s@, s@),
        _ => {},
    }
}

/// Texts match exactly when they agree letter by letter ignoring
/// ASCII case: a text matches itself with its lower-case ASCII letters
/// made upper case, and two lower-case ASCII letters match only when
/// they are the same letter.
pub proof fn lemma_ignore_case_letters(a: Seq<char>, x: char, y: char)
    ensures
        eq_ignore_ascii_case(a, a.map_values(|c: char| if 'a' <= c <= 'z' { ((c as u32) - 32) as char } else { c })),
        'a' <= x <= 'z' && 'a' <= y <= 'z' && eq_ignore_ascii_case(seq![x], seq![y]) ==> x == y,
        'a' <= x <= 'z' ==> eq_ignore_ascii_case(seq![x], seq![((x as u32) - 32) as char]),
{
    let b = a.map_values(|c: char| if 'a' <= c <= 'z' { ((c as u32) - 32) as char } else { c });
    assert forall|i: int| 0 <= i < a.len() implies ascii_lower(#[trigger] a[i]) == ascii_lower(b[i]) by {
        let c = a[i];
        if 'a' <= c <= 'z' {
            assert((((c as u32) - 32) as char) as u32 == (c as u32) - 32);
        }
    }
    if 'a' <= x <= 'z' {
        let u = ((x as u32) - 32) as char;
        assert(u as u32 == (x as u32) - 32);
        assert(seq![x][0] == x);
        assert(seq![u][0] == u);
    }
    if 'a' <= x <= 'z' && 'a' <= y <= 'z' && eq_ignore_ascii_case(seq![x], seq![y]) {
        assert(seq![x][0] == x);
        assert(seq![y][0] == y);
        assert(ascii_lower(x) == ascii_lower(y));
    }
}

} // verus!
