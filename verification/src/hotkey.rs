//! Formatting and the capture decision for the push-to-talk rebind: a key
//! press becomes a label like `Ctrl+Shift+D`, and a press while capturing
//! either binds a complete combo, keeps waiting, or cancels on Escape.

use vstd::prelude::*;

use crate::labels::str_eq;
use crate::text::{chars_of, push_str};

verus! {

/// The modifier keys held during a press.
#[derive(Debug, Clone, Copy, PartialEq, Eq, Structural)]
pub struct Modifiers {
    pub control: bool,
    pub alt: bool,
    pub shift: bool,
    pub logo: bool,
}

/// A pressed key: a character, a named key (by its name, e.g. `Space`,
/// `F5`, `Escape`), or an unidentified key.
#[derive(Debug)]
pub enum Key {
    Character(String),
    Named(String),
    Unidentified,
}

/// What `str::to_uppercase` returns for `s`.
pub uninterp spec fn uppercase_of(s: Seq<char>) -> Seq<char>;

/// `str::to_uppercase`: the Unicode upper-case mapping of `s`. Its result
/// is named [`uppercase_of`] of the argument; the mapping itself (Unicode's
/// case tables) is not spelled out.
#[verifier::external_body]
fn to_uppercase(s: &str) -> (u: String)
    ensures
        u@ == uppercase_of(s@),
{
    s.to_uppercase()
}

/// The modifier part of a combo label: each held modifier followed by `+`,
/// in the order Ctrl, Alt, Shift, Cmd.
pub open spec fn modifier_prefix(m: Modifiers) -> Seq<char> {
    (if m.control {
        "Ctrl+"@
    } else {
        Seq::empty()
    }) + (if m.alt {
        "Alt+"@
    } else {
        Seq::empty()
    }) + (if m.shift {
        "Shift+"@
    } else {
        Seq::empty()
    }) + (if m.logo {
        "Cmd+"@
    } else {
        Seq::empty()
    })
}

/// How a key reads in a combo label: characters upper-cased, named keys by
/// name, and `?` for an unidentified key.
pub open spec fn key_text_of(key: Key) -> Seq<char> {
    match key {
        Key::Character(c) => uppercase_of(c@),
        Key::Named(name) => name@,
        Key::Unidentified => "?"@,
    }
}

/// A combo label from the held modifiers and the key's text.
pub fn combo_label(modifiers: Modifiers, key_text: &str) -> (label: String)
    ensures
        label@ == modifier_prefix(modifiers) + key_text@,
{
    let mut out = String::new();
    if modifiers.control {
        push_str(&mut out, "Ctrl+");
    }
    if modifiers.alt {
        push_str(&mut out, "Alt+");
    }
    if modifiers.shift {
        push_str(&mut out, "Shift+");
    }
    if modifiers.logo {
        push_str(&mut out, "Cmd+");
    }
    push_str(&mut out, key_text);
    assert(out@ =~= modifier_prefix(modifiers) + key_text@);
    out
}

/// Formats a modifiers + key combination the way a hotkey display normally
/// looks, e.g. `Ctrl+Shift+D`. Named keys show their name; character keys
/// are upper-cased.
pub fn format_key_combo(modifiers: Modifiers, key: &Key) -> (label: String)
    ensures
        label@ == modifier_prefix(modifiers) + key_text_of(*key),
{
    match key {
        Key::Character(c) => {
            let upper = to_uppercase(c.as_str());
            combo_label(modifiers, upper.as_str())
        },
        Key::Named(name) => combo_label(modifiers, name.as_str()),
        Key::Unidentified => combo_label(modifiers, "?"),
    }
}

/// What a key press received while capturing a new hotkey means.
#[derive(Debug)]
pub enum CaptureOutcome {
    /// A complete, registerable combo: persist it and stop capturing.
    Bound(String),
    /// A bare modifier or an unusable key: keep listening.
    Incomplete,
    /// Escape was pressed: cancel without changing the hotkey.
    Cancelled,
}

/// The key is Escape.
pub open spec fn is_escape(key: Key) -> bool {
    key matches Key::Named(name) && name@ == "Escape"@
}

/// The decision for a press: cancel on Escape, bind a combo that carries a
/// modifier (a `+`) and can be registered, keep waiting otherwise.
pub open spec fn capture_decision(modifiers: Modifiers, key: Key, registerable: bool) -> Option<
    Option<Seq<char>>,
> {
    let combo = modifier_prefix(modifiers) + key_text_of(key);
    if is_escape(key) {
        None
    } else if combo.contains('+') && registerable {
        Some(Some(combo))
    } else {
        Some(None)
    }
}

/// A capture outcome as plain data: cancelled (`None`), bound to a combo,
/// or incomplete (`Some(None)`).
pub open spec fn outcome_view(o: CaptureOutcome) -> Option<Option<Seq<char>>> {
    match o {
        CaptureOutcome::Cancelled => None,
        CaptureOutcome::Bound(c) => Some(Some(c@)),
        CaptureOutcome::Incomplete => Some(None),
    }
}

fn contains_plus(s: &str) -> (b: bool)
    ensures
        b == s@.contains('+'),
{
    let v = chars_of(s);
    let mut i: usize = 0;
    while i < v.len()
        invariant
            v@ == s@,
            i <= v.len(),
            forall|j: int| 0 <= j < i ==> v@[j] != '+',
        decreases v.len() - i,
    {
        if v[i] == '+' {
            return true;
        }
        i += 1;
    }
    false
}

/// Decides what a captured press means. A combo is only bound when it
/// carries at least one modifier (a bare key would hijack normal typing)
/// and the injector can register it: `registerable` says whether it can
/// register `format_key_combo(modifiers, key)`. Escape cancels; anything
/// else keeps capturing.
pub fn capture_outcome(modifiers: Modifiers, key: &Key, registerable: bool) -> (o: CaptureOutcome)
    ensures
        outcome_view(o) == capture_decision(modifiers, *key, registerable),
{
    if let Key::Named(name) = key {
        if str_eq(name.as_str(), "Escape") {
            return CaptureOutcome::Cancelled;
        }
    }
    let combo = format_key_combo(modifiers, key);
    if contains_plus(combo.as_str()) && registerable {
        CaptureOutcome::Bound(combo)
    } else {
        CaptureOutcome::Incomplete
    }
}

/// The combo the push-to-talk listener registers: the persisted choice, or
/// the platform default when the user has not rebound it.
pub fn current_hotkey_label<'a>(configured: &'a Option<String>, default_label: &'a str) -> (label:
    &'a str)
    ensures
        label@ == match *configured {
            Some(c) => c@,
            None => default_label@,
        },
{
    match configured {
        Some(c) => c.as_str(),
        None => default_label,
    }
}

/// A press with no modifier held is never bound: it would hijack that key
/// everywhere.
pub proof fn a_bare_key_is_never_bound(modifiers: Modifiers, key: Key, registerable: bool)
    requires
        !modifiers.control && !modifiers.alt && !modifiers.shift && !modifiers.logo,
        !key_text_of(key).contains('+'),
    ensures
        !(capture_decision(modifiers, key, registerable) matches Some(Some(_))),
{
    assert(modifier_prefix(modifiers) + key_text_of(key) =~= key_text_of(key));
}

/// Escape always cancels, whatever modifiers are held.
pub proof fn escape_always_cancels(modifiers: Modifiers, key: Key, registerable: bool)
    requires
        is_escape(key),
    ensures
        capture_decision(modifiers, key, registerable) is None,
{
}

/// A combo that is bound is exactly the formatted label of the press.
pub proof fn a_bound_combo_is_the_formatted_press(
    modifiers: Modifiers,
    key: Key,
    registerable: bool,
)
    requires
        capture_decision(modifiers, key, registerable) matches Some(Some(_)),
    ensures
        capture_decision(modifiers, key, registerable) == Some(
            Some(modifier_prefix(modifiers) + key_text_of(key)),
        ),
        registerable,
{
}

} // verus!
