//! Planning the synthetic keystrokes that replay a text.

use vstd::prelude::*;
use crate::text::chars_of;

verus! {

/// One thing the keyboard driver is asked to do.
#[derive(Debug, Clone, Copy, PartialEq, Eq, Structural)]
pub enum TypingAction {
    /// Press and release the Enter key.
    Enter,
    /// Type one character.
    Char(char),
    /// Wait for so many milliseconds.
    Pause(u64),
}

/// The key for a character: Enter for a newline, else the character itself.
pub open spec fn key_of(c: char) -> TypingAction {
    if c == '\n' {
        TypingAction::Enter
    } else {
        TypingAction::Char(c)
    }
}

/// What one character asks for: its key, then the pause if there is one.
pub open spec fn actions_of(c: char, delay_ms: u64) -> Seq<TypingAction> {
    if delay_ms > 0 {
        seq![key_of(c), TypingAction::Pause(delay_ms)]
    } else {
        seq![key_of(c)]
    }
}

/// The actions that type a whole text, character by character.
pub open spec fn plan_of(text: Seq<char>, delay_ms: u64) -> Seq<TypingAction>
    decreases text.len(),
{
    if text.len() == 0 {
        Seq::empty()
    } else {
        plan_of(text.drop_last(), delay_ms) + actions_of(text.last(), delay_ms)
    }
}

/// Plans the typing of `text`: one key per character, Enter for each
/// newline, and a pause of `keystroke_delay_ms` after every key unless the
/// delay is zero.
pub fn type_text(text: &str, keystroke_delay_ms: u64) -> (plan: Vec<TypingAction>)
    ensures
        plan@ == plan_of(text@, keystroke_delay_ms),
{
    let chars = chars_of(text);
    let mut plan: Vec<TypingAction> = Vec::new();
    let mut i: usize = 0;
    while i < chars.len()
        invariant
            i <= chars.len(),
            plan@ == plan_of(chars@.take(i as int), keystroke_delay_ms),
        decreases chars.len() - i,
    {
        let c: char = chars[i];
        if c == '\n' {
            plan.push(TypingAction::Enter);
        } else {
            plan.push(TypingAction::Char(c));
        }
        if keystroke_delay_ms > 0 {
            plan.push(TypingAction::Pause(keystroke_delay_ms));
        }
        proof {
            let next = chars@.take(i as int + 1);
            assert(next.drop_last() =~= chars@.take(i as int));
            assert(next.last() == c);
            assert(plan@ =~= plan_of(chars@.take(i as int), keystroke_delay_ms) + actions_of(
                c,
                keystroke_delay_ms,
            ));
        }
        i = i + 1;
    }
    assert(chars@.take(chars.len() as int) =~= chars@);
    plan
}

} // verus!
