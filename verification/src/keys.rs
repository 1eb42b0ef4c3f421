//! Modifier sets and key codes, parsed from what a settings dialog sends.

use crate::error::ShortcutError;
use crate::text::{
    ascii_upper, char_ascii_upper, char_is_ascii, char_is_ascii_digit, char_is_ascii_letter,
    chars_of, is_ascii, is_ascii_digit, is_ascii_letter, same_chars, texts, trim, trimmed,
};
use keyboard_types::Code;
use std::str::FromStr;
use vstd::prelude::*;

verus! {

/// A set of modifier keys.
#[derive(Clone, Copy, Debug, PartialEq, Eq, Structural)]
pub struct ModifierSet {
    pub shift: bool,
    pub ctrl: bool,
    pub alt: bool,
    pub meta: bool,
}

/// The name of the shift key.
pub open spec fn names_shift(name: Seq<char>) -> bool {
    name == "Shift"@
}

/// The names of the control key.
pub open spec fn names_ctrl(name: Seq<char>) -> bool {
    name == "Ctrl"@ || name == "Control"@
}

/// The name of the alt key.
pub open spec fn names_alt(name: Seq<char>) -> bool {
    name == "Alt"@
}

/// The names of the meta key.
pub open spec fn names_meta(name: Seq<char>) -> bool {
    name == "Meta"@ || name == "Super"@ || name == "Command"@
}

/// The set that a list of modifier names stands for: a modifier is in it
/// where one of its names occurs in the list. Names that are not known add
/// nothing; order and repetition make no difference.
pub open spec fn modifier_set(names: Seq<String>) -> ModifierSet {
    ModifierSet {
        shift: exists|i: int| 0 <= i < names.len() && names_shift(#[trigger] names[i]@),
        ctrl: exists|i: int| 0 <= i < names.len() && names_ctrl(#[trigger] names[i]@),
        alt: exists|i: int| 0 <= i < names.len() && names_alt(#[trigger] names[i]@),
        meta: exists|i: int| 0 <= i < names.len() && names_meta(#[trigger] names[i]@),
    }
}

/// Reads a list of modifier names. It never fails.
pub fn parse_modifiers(modifiers: Vec<String>) -> (mods: ModifierSet)
    ensures
        mods == modifier_set(modifiers@),
{
    let shift = chars_of("Shift");
    let ctrl = chars_of("Ctrl");
    let control = chars_of("Control");
    let alt = chars_of("Alt");
    let meta = chars_of("Meta");
    let super_key = chars_of("Super");
    let command = chars_of("Command");
    let mut mods = ModifierSet { shift: false, ctrl: false, alt: false, meta: false };
    let mut i: usize = 0;
    while i < modifiers.len()
        invariant
            i <= modifiers.len(),
            shift@ == "Shift"@,
            ctrl@ == "Ctrl"@,
            control@ == "Control"@,
            alt@ == "Alt"@,
            meta@ == "Meta"@,
            super_key@ == "Super"@,
            command@ == "Command"@,
            mods == modifier_set(modifiers@.take(i as int)),
        decreases modifiers.len() - i,
    {
        let name = chars_of(modifiers[i].as_str());
        if same_chars(&name, &shift) {
            mods.shift = true;
        }
        if same_chars(&name, &ctrl) || same_chars(&name, &control) {
            mods.ctrl = true;
        }
        if same_chars(&name, &alt) {
            mods.alt = true;
        }
        if same_chars(&name, &meta) || same_chars(&name, &super_key) || same_chars(
            &name,
            &command,
        ) {
            mods.meta = true;
        }
        proof {
            let shorter = modifiers@.take(i as int);
            let longer = modifiers@.take(i + 1);
            assert(longer[i as int] == modifiers@[i as int]);
            assert(forall|j: int| 0 <= j < i ==> longer[j] == shorter[j]);
            assert(mods.shift == modifier_set(longer).shift);
            assert(mods.ctrl == modifier_set(longer).ctrl);
            assert(mods.alt == modifier_set(longer).alt);
            assert(mods.meta == modifier_set(longer).meta);
        }
        i += 1;
    }
    assert(modifiers@.take(modifiers.len() as int) =~= modifiers@);
    mods
}

/// Every name of `a` occurs in `b`.
pub open spec fn names_within(a: Seq<String>, b: Seq<String>) -> bool {
    forall|i: int| 0 <= i < a.len() ==> exists|j: int| 0 <= j < b.len() && (#[trigger] b[j])@ == (
    #[trigger] a[i])@
}

/// Two lists that hold the same names, in whatever order and however often,
/// stand for the same set of modifiers.
pub proof fn lemma_modifier_set_ignores_order_and_repetition(a: Seq<String>, b: Seq<String>)
    requires
        names_within(a, b),
        names_within(b, a),
    ensures
        modifier_set(a) == modifier_set(b),
{
    lemma_modifier_set_grows(a, b);
    lemma_modifier_set_grows(b, a);
}

/// A list that holds every name of another stands for every modifier that
/// the other stands for.
proof fn lemma_modifier_set_grows(a: Seq<String>, b: Seq<String>)
    requires
        names_within(a, b),
    ensures
        modifier_set(a).shift ==> modifier_set(b).shift,
        modifier_set(a).ctrl ==> modifier_set(b).ctrl,
        modifier_set(a).alt ==> modifier_set(b).alt,
        modifier_set(a).meta ==> modifier_set(b).meta,
{
    if modifier_set(a).shift {
        let i = choose|i: int| 0 <= i < a.len() && names_shift(#[trigger] a[i]@);
        let j = choose|j: int| 0 <= j < b.len() && (#[trigger] b[j])@ == a[i]@;
        assert(names_shift(b[j]@));
    }
    if modifier_set(a).ctrl {
        let i = choose|i: int| 0 <= i < a.len() && names_ctrl(#[trigger] a[i]@);
        let j = choose|j: int| 0 <= j < b.len() && (#[trigger] b[j])@ == a[i]@;
        assert(names_ctrl(b[j]@));
    }
    if modifier_set(a).alt {
        let i = choose|i: int| 0 <= i < a.len() && names_alt(#[trigger] a[i]@);
        let j = choose|j: int| 0 <= j < b.len() && (#[trigger] b[j])@ == a[i]@;
        assert(names_alt(b[j]@));
    }
    if modifier_set(a).meta {
        let i = choose|i: int| 0 <= i < a.len() && names_meta(#[trigger] a[i]@);
        let j = choose|j: int| 0 <= j < b.len() && (#[trigger] b[j])@ == a[i]@;
        assert(names_meta(b[j]@));
    }
}

/// The physical position of a key, held by its canonical code name
/// (`KeyP`, `Digit1`, `Tab`).
#[derive(Debug, PartialEq, Eq)]
pub struct KeyCode {
    pub name: String,
}

impl View for KeyCode {
    type V = Seq<char>;

    open spec fn view(&self) -> Seq<char> {
        self.name@
    }
}

impl Clone for KeyCode {
    fn clone(&self) -> (copy: KeyCode)
        ensures
            copy@ == self@,
    {
        KeyCode { name: self.name.clone() }
    }
}

impl KeyCode {
    /// Whether two key codes are the same key.
    pub fn same_as(&self, other: &KeyCode) -> (same: bool)
        ensures
            same == (self@ == other@),
    {
        self.name == other.name
    }
}

/// The key code that `keyboard_types::Code::from_str` reads from a token,
/// given by its canonical name, the one that the code's `Display` prints;
/// `None` where the token names no code.
pub uninterp spec fn code_name(token: Seq<char>) -> Option<Seq<char>>;

/// Looks a token up among the code names with
/// `keyboard_types::Code::from_str`. A code that was found is handed back as
/// the name that its `Display` prints, which is different for each code, so
/// that the aliases of a code all give the same name.
#[verifier::external_body]
fn resolve_code(token: &Vec<char>) -> (name: Option<String>)
    ensures
        match name {
            Some(found) => code_name(token@) == Some(found@),
            None => code_name(token@) is None,
        },
{
    let text: String = token.iter().collect();
    match Code::from_str(&text) {
        Ok(code) => Some(code.to_string()),
        Err(_) => None,
    }
}

/// The code names that are tried for a trimmed key token, in this order: the
/// token as it stands; for one ASCII letter `Key` and the upper-case letter,
/// for one decimal digit `Digit` and the digit; for `Key` followed by one
/// ASCII character `Key` and that character in upper case.
pub open spec fn key_candidates(raw: Seq<char>) -> Seq<Seq<char>> {
    let whole = if raw.len() > 0 {
        seq![raw]
    } else {
        Seq::empty()
    };
    let single = if raw.len() == 1 && is_ascii_letter(raw[0]) {
        seq!["Key"@.push(ascii_upper(raw[0]))]
    } else if raw.len() == 1 && is_ascii_digit(raw[0]) {
        seq!["Digit"@.push(raw[0])]
    } else {
        Seq::empty()
    };
    let prefixed = if raw.len() == 4 && raw.take(3) == "Key"@ && is_ascii(raw[3]) {
        seq!["Key"@.push(ascii_upper(raw[3]))]
    } else {
        Seq::empty()
    };
    whole + single + prefixed
}

/// The code of the first candidate that names one.
pub open spec fn first_code(candidates: Seq<Seq<char>>) -> Option<Seq<char>>
    decreases candidates.len(),
{
    if candidates.len() == 0 {
        None
    } else if code_name(candidates[0]) is Some {
        code_name(candidates[0])
    } else {
        first_code(candidates.drop_first())
    }
}

/// The key code that a key token stands for, if any: white space around the
/// token is ignored.
pub open spec fn key_code_of(key: Seq<char>) -> Option<Seq<char>> {
    first_code(key_candidates(trimmed(key)))
}

/// The code names to try for a key token, in order.
pub fn candidates_for(key: &str) -> (candidates: Vec<Vec<char>>)
    ensures
        texts(candidates@) == key_candidates(trimmed(key@)),
{
    let raw = trim(&chars_of(key));
    let prefix = chars_of("Key");
    let mut candidates: Vec<Vec<char>> = Vec::new();
    if raw.len() > 0 {
        candidates.push(raw.clone());
    }
    if raw.len() == 1 {
        let c = raw[0];
        if char_is_ascii_letter(c) {
            let mut name = chars_of("Key");
            name.push(char_ascii_upper(c));
            candidates.push(name);
        } else if char_is_ascii_digit(c) {
            let mut name = chars_of("Digit");
            name.push(c);
            candidates.push(name);
        }
    }
    if raw.len() == 4 {
        let mut head: Vec<char> = Vec::new();
        head.push(raw[0]);
        head.push(raw[1]);
        head.push(raw[2]);
        assert(head@ =~= raw@.take(3));
        if same_chars(&head, &prefix) && char_is_ascii(raw[3]) {
            let mut name = chars_of("Key");
            name.push(char_ascii_upper(raw[3]));
            candidates.push(name);
        }
    }
    assert(texts(candidates@) =~= key_candidates(trimmed(key@)));
    candidates
}

/// Reads a key token: the code of the first candidate that names one, or
/// `InvalidKeyCode` where none does.
pub fn parse_key_code(key: &str) -> (parsed: Result<KeyCode, ShortcutError>)
    ensures
        match parsed {
            Ok(code) => key_code_of(key@) == Some(code@),
            Err(error) => key_code_of(key@) is None && error == ShortcutError::InvalidKeyCode,
        },
{
    let candidates = candidates_for(key);
    let mut i: usize = 0;
    assert(texts(candidates@).skip(0) =~= texts(candidates@));
    while i < candidates.len()
        invariant
            i <= candidates.len(),
            key_code_of(key@) == first_code(texts(candidates@).skip(i as int)),
        decreases candidates.len() - i,
    {
        let ghost rest = texts(candidates@).skip(i as int);
        assert(rest[0] == candidates@[i as int]@);
        assert(rest.drop_first() =~= texts(candidates@).skip(i + 1));
        match resolve_code(&candidates[i]) {
            Some(name) => {
                return Ok(KeyCode { name });
            },
            None => {},
        }
        i += 1;
    }
    Err(ShortcutError::InvalidKeyCode)
}

} // verus!
