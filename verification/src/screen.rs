//! What the terminal front end shows of a controller: a title, the lines of
//! the panel and the key bindings in its footer, as plain text. How the
//! text is styled and laid out is up to the front end.

use vstd::prelude::*;

verus! {

/// The title of the panel.
pub const TITLE: &'static str = " wuerfel App ";

/// What stands for the summary of an empty registry.
pub const NO_DICE: &'static str = "None";

/// The label in front of the summary of the registry.
pub const DICE_LABEL: &'static str = "Dice: ";

/// The label in front of the name of the selected die.
pub const SELECTED_LABEL: &'static str = "Currently selected die: ";

/// The label in front of the last roll.
pub const ROLL_LABEL: &'static str = "Current roll: ";

/// One line of the panel: a label and the value that follows it.
pub struct TextLine {
    pub label: &'static str,
    pub value: String,
}

impl View for TextLine {
    type V = (Seq<char>, Seq<char>);

    open spec fn view(&self) -> (Seq<char>, Seq<char>) {
        (self.label@, self.value@)
    }
}

/// One key binding of the footer: what the key does, and how the key is
/// written.
#[derive(Clone, Copy, Debug)]
pub struct KeyHint {
    pub action: &'static str,
    pub key: &'static str,
}

impl View for KeyHint {
    type V = (Seq<char>, Seq<char>);

    open spec fn view(&self) -> (Seq<char>, Seq<char>) {
        (self.action@, self.key@)
    }
}

/// What a screen is, mathematically: its title, its lines and its key
/// bindings, each line and binding as a pair of texts.
pub struct ScreenModel {
    pub title: Seq<char>,
    pub lines: Seq<(Seq<char>, Seq<char>)>,
    pub hints: Seq<(Seq<char>, Seq<char>)>,
}

/// The text of the terminal front end's panel.
pub struct Screen {
    pub title: &'static str,
    pub lines: Vec<TextLine>,
    pub hints: Vec<KeyHint>,
}

impl View for Screen {
    type V = ScreenModel;

    open spec fn view(&self) -> ScreenModel {
        ScreenModel {
            title: self.title@,
            lines: self.lines@.map_values(|line: TextLine| line@),
            hints: self.hints@.map_values(|hint: KeyHint| hint@),
        }
    }
}

/// The key bindings that the footer lists: moving the selection and
/// quitting always, rolling only while a die is selected.
pub open spec fn key_hints(die_selected: bool) -> Seq<(Seq<char>, Seq<char>)> {
    if die_selected {
        seq![
            (" Previous "@, "<Left>"@),
            (" Roll die "@, "<Enter>"@),
            (" Next "@, "<Right>"@),
            (" Quit "@, "<Q> "@),
        ]
    } else {
        seq![(" Previous "@, "<Left>"@), (" Next "@, "<Right>"@), (" Quit "@, "<Q> "@)]
    }
}

/// Builds the list of key bindings for the footer.
pub fn footer(die_selected: bool) -> (hints: Vec<KeyHint>)
    ensures
        hints@.map_values(|hint: KeyHint| hint@) == key_hints(die_selected),
{
    let mut hints: Vec<KeyHint> = Vec::new();
    hints.push(KeyHint { action: " Previous ", key: "<Left>" });
    if die_selected {
        hints.push(KeyHint { action: " Roll die ", key: "<Enter>" });
    }
    hints.push(KeyHint { action: " Next ", key: "<Right>" });
    hints.push(KeyHint { action: " Quit ", key: "<Q> " });
    assert(hints@.map_values(|hint: KeyHint| hint@) =~= key_hints(die_selected));
    hints
}

} // verus!
