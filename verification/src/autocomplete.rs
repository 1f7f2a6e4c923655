//! The keyboard of the tag autocompletion: moving the highlight among the
//! proposed terms, choosing one, closing the list.
use crate::text::same_text;
use vstd::prelude::*;

verus! {

/// A key that the autocompletion answers to.
#[derive(Clone, Copy, Debug, PartialEq, Eq, Structural)]
pub enum Key {
    ArrowDown,
    ArrowUp,
    Backspace,
    Enter,
    Escape,
    Other,
}

/// What a key press does.
#[derive(Clone, Copy, Debug, PartialEq, Eq, Structural)]
pub enum KeyOutcome {
    /// Highlights the term at this position.
    Highlight(usize),
    /// Deletes the last tag.
    DeleteLast,
    /// Chooses the term at this position.
    ChooseTerm(usize),
    /// Chooses the text typed.
    ChooseTyped,
    /// Closes the list of terms, with no highlight.
    Close,
    /// Does nothing.
    Nothing,
}

/// The key named `name` by the browser.
pub open spec fn key_of(name: Seq<char>) -> Key {
    if name == "ArrowDown"@ {
        Key::ArrowDown
    } else if name == "ArrowUp"@ {
        Key::ArrowUp
    } else if name == "Backspace"@ {
        Key::Backspace
    } else if name == "Enter"@ {
        Key::Enter
    } else if name == "Escape"@ {
        Key::Escape
    } else {
        Key::Other
    }
}

/// The press of `key` can be answered: the list is not empty when the
/// highlight moves or wraps around, and a chosen highlighted term exists.
pub open spec fn answerable(key: Key, active: Option<usize>, terms: nat) -> bool {
    match key {
        Key::ArrowDown => active matches Some(a) ==> terms > 0 && a < usize::MAX,
        Key::ArrowUp => (active is None || active == Some(0usize)) ==> terms > 0,
        Key::Enter => active matches Some(a) ==> a < terms,
        _ => true,
    }
}

/// What pressing `key` does, with `active` the highlighted term, `terms`
/// terms proposed and `typed_empty` whether nothing is typed: the arrows
/// move the highlight down and up, wrapping around the list; Backspace in
/// an empty field deletes the last tag; Enter chooses the highlighted term,
/// or the typed text when none is highlighted; Escape closes the list.
pub open spec fn key_outcome(key: Key, active: Option<usize>, terms: nat, typed_empty: bool) -> KeyOutcome {
    match key {
        Key::ArrowDown => match active {
            Some(a) => KeyOutcome::Highlight(((a + 1) % (terms as int)) as usize),
            None => KeyOutcome::Highlight(0),
        },
        Key::ArrowUp => match active {
            Some(a) => if a > 0 {
                KeyOutcome::Highlight((a - 1) as usize)
            } else {
                KeyOutcome::Highlight((terms - 1) as usize)
            },
            None => KeyOutcome::Highlight((terms - 1) as usize),
        },
        Key::Backspace => if typed_empty {
            KeyOutcome::DeleteLast
        } else {
            KeyOutcome::Nothing
        },
        Key::Enter => match active {
            Some(a) => KeyOutcome::ChooseTerm(a),
            None => KeyOutcome::ChooseTyped,
        },
        Key::Escape => KeyOutcome::Close,
        Key::Other => KeyOutcome::Nothing,
    }
}

impl Key {
    /// The key named `name`.
    pub fn from_name(name: &str) -> (key: Key)
        ensures
            key == key_of(name@),
    {
        if same_text(name, "ArrowDown") {
            Key::ArrowDown
        } else if same_text(name, "ArrowUp") {
            Key::ArrowUp
        } else if same_text(name, "Backspace") {
            Key::Backspace
        } else if same_text(name, "Enter") {
            Key::Enter
        } else if same_text(name, "Escape") {
            Key::Escape
        } else {
            Key::Other
        }
    }
}

/// What pressing `key` does.
pub fn on_keydown(key: Key, active: Option<usize>, terms: usize, typed_empty: bool) -> (outcome: KeyOutcome)
    requires
        answerable(key, active, terms as nat),
    ensures
        outcome == key_outcome(key, active, terms as nat, typed_empty),
{
    match key {
        Key::ArrowDown => {
            if let Some(active) = active {
                KeyOutcome::Highlight((active + 1) % terms)
            } else {
                KeyOutcome::Highlight(0)
            }
        },
        Key::ArrowUp => {
            if let Some(active) = active {
                if active > 0 {
                    KeyOutcome::Highlight(active - 1)
                } else {
                    KeyOutcome::Highlight(terms - 1)
                }
            } else {
                KeyOutcome::Highlight(terms - 1)
            }
        },
        Key::Backspace => {
            if typed_empty {
                KeyOutcome::DeleteLast
            } else {
                KeyOutcome::Nothing
            }
        },
        Key::Enter => {
            if let Some(active) = active {
                KeyOutcome::ChooseTerm(active)
            } else {
                KeyOutcome::ChooseTyped
            }
        },
        Key::Escape => KeyOutcome::Close,
        Key::Other => KeyOutcome::Nothing,
    }
}

} // verus!

verus! {

/// The arrows keep the highlight on a proposed term.
pub proof fn lemma_arrows_stay_in_list(key: Key, active: Option<usize>, terms: nat, typed_empty: bool)
    requires
        key == Key::ArrowDown || key == Key::ArrowUp,
        terms > 0,
        terms <= usize::MAX,
        active matches Some(a) ==> a < terms,
    ensures
        key_outcome(key, active, terms, typed_empty) matches KeyOutcome::Highlight(h) && h < terms,
{
}

/// Up after down gives back the highlighted term.
pub proof fn lemma_down_then_up(a: usize, terms: nat, typed_empty: bool)
    requires
        a < terms,
        terms <= usize::MAX,
    ensures
        key_outcome(Key::ArrowDown, Some(a), terms, typed_empty) matches KeyOutcome::Highlight(h)
            && key_outcome(Key::ArrowUp, Some(h), terms, typed_empty) == KeyOutcome::Highlight(a),
{
    if a + 1 < terms {
        vstd::arithmetic::div_mod::lemma_small_mod((a + 1) as nat, terms);
    } else {
        vstd::arithmetic::div_mod::lemma_mod_self_0(terms as int);
    }
}

} // verus!
