//! What the editor shows: the words and colours of its footer, the lines of
//! its list and the proportions of its popup. Drawing them is left to the
//! caller.

use vstd::prelude::*;
use crate::editor::{CurrentScreen, CurrentlyEditing};
use crate::pairs::Pairs;

verus! {

/// The colours that the editor uses.
#[derive(Clone, Copy, Debug, PartialEq, Eq)]
pub enum Color {
    Green,
    LightGreen,
    Yellow,
    Red,
    LightRed,
    White,
    DarkGray,
}

/// A piece of text with its colour.
#[derive(Clone, Copy, Debug, PartialEq, Eq)]
pub struct Label {
    pub text: &'static str,
    pub color: Color,
}

/// The width to which a key is padded in the list.
pub const KEY_COLUMN_WIDTH: usize = 25;

/// `key` followed by as many blanks as it lacks to fill the key column.
pub open spec fn padded_key(key: Seq<char>) -> Seq<char> {
    if key.len() >= KEY_COLUMN_WIDTH {
        key
    } else {
        key + Seq::new((KEY_COLUMN_WIDTH - key.len()) as nat, |i: int| ' ')
    }
}

/// The line that shows a pair in the list: the padded key, a colon between
/// two blanks, and the value.
pub open spec fn pair_line_of(key: Seq<char>, value: Seq<char>) -> Seq<char> {
    padded_key(key) + seq![' ', ':', ' '] + value
}

/// `format!` with a left-aligned field of 25 characters for `key`, then
/// ` : `, then `value`. Assumed: the field is `key` padded with blanks on
/// the right up to 25 characters, and never cut.
#[verifier::external_body]
pub(crate) fn format_pair(key: &str, value: &str) -> (line: String)
    ensures
        line@ == pair_line_of(key@, value@),
{
    format!("{: <25} : {}", key, value)
}

/// The line that shows `entry` in the list.
pub fn pair_line(entry: &(String, String)) -> (line: String)
    ensures
        line@ == pair_line_of(entry.0@, entry.1@),
{
    format_pair(entry.0.as_str(), entry.1.as_str())
}

/// The lines of the list: one for each pair, in the order of the pairs.
pub fn list_lines(pairs: &Pairs) -> (lines: Vec<String>)
    ensures
        lines@.len() == pairs@.len(),
        forall|i: int|
            0 <= i < lines@.len() ==> (#[trigger] lines@[i])@ == pair_line_of(
                pairs@[i].0,
                pairs@[i].1,
            ),
{
    let entries = pairs.entries();
    let mut lines: Vec<String> = Vec::new();
    let mut i: usize = 0;
    while i < entries.len()
        invariant
            i <= entries@.len(),
            entries@.len() == pairs@.len(),
            lines@.len() == i,
            forall|j: int|
                0 <= j < entries@.len() ==> (#[trigger] entries@[j]).0@ == pairs@[j].0
                    && entries@[j].1@ == pairs@[j].1,
            forall|j: int|
                0 <= j < i ==> (#[trigger] lines@[j])@ == pair_line_of(pairs@[j].0, pairs@[j].1),
        decreases entries@.len() - i,
    {
        let line = pair_line(&entries[i]);
        lines.push(line);
        i = i + 1;
    }
    lines
}

/// The name of the mode in the footer, by screen.
pub fn screen_label(screen: CurrentScreen) -> (label: Label)
    ensures
        screen is Main ==> label.text@ == "Normal Mode"@ && label.color is Green,
        screen is Editing ==> label.text@ == "Editing Mode"@ && label.color is Yellow,
        screen is Exiting ==> label.text@ == "Exiting"@ && label.color is LightRed,
{
    match screen {
        CurrentScreen::Main => Label { text: "Normal Mode", color: Color::Green },
        CurrentScreen::Editing => Label { text: "Editing Mode", color: Color::Yellow },
        CurrentScreen::Exiting => Label { text: "Exiting", color: Color::LightRed },
    }
}

/// What the footer says of the field being edited.
pub fn editing_label(editing: Option<CurrentlyEditing>) -> (label: Label)
    ensures
        editing == Some(CurrentlyEditing::Key) ==> label.text@ == "Editing Json Key"@
            && label.color is Green,
        editing == Some(CurrentlyEditing::Value) ==> label.text@ == "Editing Json Value"@
            && label.color is LightGreen,
        editing is None ==> label.text@ == "No Editing Anything"@ && label.color is DarkGray,
{
    match editing {
        Some(CurrentlyEditing::Key) => Label { text: "Editing Json Key", color: Color::Green },
        Some(CurrentlyEditing::Value) => Label {
            text: "Editing Json Value",
            color: Color::LightGreen,
        },
        None => Label { text: "No Editing Anything", color: Color::DarkGray },
    }
}

/// The keys that the footer offers, by screen.
pub fn key_hint(screen: CurrentScreen) -> (label: Label)
    ensures
        label.color is Red,
        screen is Editing ==> label.text@
            == "(ESC) to cancel/(Tab) to switch boxes/enter to complete"@,
        !(screen is Editing) ==> label.text@ == "(q) to quit / (e) to make new pair"@,
{
    match screen {
        CurrentScreen::Main => Label {
            text: "(q) to quit / (e) to make new pair",
            color: Color::Red,
        },
        CurrentScreen::Editing => Label {
            text: "(ESC) to cancel/(Tab) to switch boxes/enter to complete",
            color: Color::Red,
        },
        CurrentScreen::Exiting => Label {
            text: "(q) to quit / (e) to make new pair",
            color: Color::Red,
        },
    }
}

/// The share, in percent, given to each side of a popup that takes
/// `percent` of its area: a hundred less half of `percent`.
pub fn side_percent(percent: u16) -> (side: u16)
    requires
        percent <= 201,
    ensures
        side == 100 - percent / 2,
{
    100 - percent / 2
}

} // verus!
