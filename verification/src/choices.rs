//! The fixed, ordered table of carousel choices: three action slots
//! (delete, show, enter) followed by the ten digit slots, and the pure
//! mapping from a selector index to the item shown and the action fired.

use vstd::prelude::*;

verus! {

/// Number of entries in the choice table.
pub const CHOICE_LENGTH: usize = 13;

/// Index of the first digit slot; digits occupy `[3, 12]`.
pub const NUMBER_START_INDEX: usize = 3;

/// What committing a carousel choice asks the PIN entry machine to do.
#[derive(Clone, Copy, PartialEq, Eq, Structural, Debug)]
pub enum PinAction {
    Delete,
    Show,
    Enter,
    Digit(char),
}

/// Icon shown beside an action slot; digit slots carry none.
#[derive(Clone, Copy, PartialEq, Eq, Structural, Debug)]
pub enum ChoiceIcon {
    Delete,
    Eye,
    Tick,
}

/// One carousel item as the selector displays it: its label, an optional
/// armed middle-button label, whether the middle button fires on a
/// long press without release, and an optional icon.
#[derive(Clone, Copy, Debug)]
pub struct ChoiceItem {
    pub label: &'static str,
    pub middle_button_label: Option<&'static str>,
    pub fires_without_release: bool,
    pub icon: Option<ChoiceIcon>,
}

/// Whether `c` is a decimal digit character, the only characters the digit
/// slots commit.
pub open spec fn is_pin_digit(c: char) -> bool {
    48 <= c as u32 && c as u32 <= 57
}

/// The decimal digit character for a value in `[0, 9]`.
pub open spec fn digit_char(d: int) -> char {
    if d == 0 {
        '0'
    } else if d == 1 {
        '1'
    } else if d == 2 {
        '2'
    } else if d == 3 {
        '3'
    } else if d == 4 {
        '4'
    } else if d == 5 {
        '5'
    } else if d == 6 {
        '6'
    } else if d == 7 {
        '7'
    } else if d == 8 {
        '8'
    } else {
        '9'
    }
}

/// The action of the table entry at `index`.
pub open spec fn choice_action(index: int) -> PinAction {
    if index == 0 {
        PinAction::Delete
    } else if index == 1 {
        PinAction::Show
    } else if index == 2 {
        PinAction::Enter
    } else {
        PinAction::Digit(digit_char(index - 3))
    }
}

/// The label of the table entry at `index`.
pub open spec fn choice_label(index: int) -> Seq<char> {
    if index == 0 {
        "DELETE"@
    } else if index == 1 {
        "SHOW"@
    } else if index == 2 {
        "ENTER"@
    } else if index == 3 {
        "0"@
    } else if index == 4 {
        "1"@
    } else if index == 5 {
        "2"@
    } else if index == 6 {
        "3"@
    } else if index == 7 {
        "4"@
    } else if index == 8 {
        "5"@
    } else if index == 9 {
        "6"@
    } else if index == 10 {
        "7"@
    } else if index == 11 {
        "8"@
    } else {
        "9"@
    }
}

/// The icon of the table entry at `index`.
pub open spec fn choice_icon(index: int) -> Option<ChoiceIcon> {
    if index == 0 {
        Some(ChoiceIcon::Delete)
    } else if index == 1 {
        Some(ChoiceIcon::Eye)
    } else if index == 2 {
        Some(ChoiceIcon::Tick)
    } else {
        None
    }
}

/// Whether the entry at `index` commits on a long press without release.
/// Only the delete slot does, enabling the "hold to clear all" gesture.
pub open spec fn choice_fires_without_release(index: int) -> bool {
    index == 0
}

/// Number of entries in the table.
pub fn count() -> (n: usize)
    ensures
        n == CHOICE_LENGTH,
{
    CHOICE_LENGTH
}

/// Pure lookup of the table entry at `choice_index`: the displayed item and
/// the action it commits. Non-digit actions get an armed "CONFIRM" middle
/// button; only the delete slot fires without release.
pub fn get(choice_index: usize) -> (r: (ChoiceItem, PinAction))
    requires
        choice_index < CHOICE_LENGTH,
    ensures
        r.1 == choice_action(choice_index as int),
        r.0.label@ == choice_label(choice_index as int),
        r.0.icon == choice_icon(choice_index as int),
        r.0.fires_without_release == choice_fires_without_release(choice_index as int),
        r.0.middle_button_label matches Some(m) ==> m@ == "CONFIRM"@,
        r.0.middle_button_label is Some <==> !(r.1 is Digit),
{
    let confirm: Option<&'static str> = Some("CONFIRM");
    match choice_index {
        0 => (
            ChoiceItem {
                label: "DELETE",
                middle_button_label: confirm,
                fires_without_release: true,
                icon: Some(ChoiceIcon::Delete),
            },
            PinAction::Delete,
        ),
        1 => (
            ChoiceItem {
                label: "SHOW",
                middle_button_label: confirm,
                fires_without_release: false,
                icon: Some(ChoiceIcon::Eye),
            },
            PinAction::Show,
        ),
        2 => (
            ChoiceItem {
                label: "ENTER",
                middle_button_label: confirm,
                fires_without_release: false,
                icon: Some(ChoiceIcon::Tick),
            },
            PinAction::Enter,
        ),
        3 => (
            ChoiceItem {
                label: "0",
                middle_button_label: None,
                fires_without_release: false,
                icon: None,
            },
            PinAction::Digit('0'),
        ),
        4 => (
            ChoiceItem {
                label: "1",
                middle_button_label: None,
                fires_without_release: false,
                icon: None,
            },
            PinAction::Digit('1'),
        ),
        5 => (
            ChoiceItem {
                label: "2",
                middle_button_label: None,
                fires_without_release: false,
                icon: None,
            },
            PinAction::Digit('2'),
        ),
        6 => (
            ChoiceItem {
                label: "3",
                middle_button_label: None,
                fires_without_release: false,
                icon: None,
            },
            PinAction::Digit('3'),
        ),
        7 => (
            ChoiceItem {
                label: "4",
                middle_button_label: None,
                fires_without_release: false,
                icon: None,
            },
            PinAction::Digit('4'),
        ),
        8 => (
            ChoiceItem {
                label: "5",
                middle_button_label: None,
                fires_without_release: false,
                icon: None,
            },
            PinAction::Digit('5'),
        ),
        9 => (
            ChoiceItem {
                label: "6",
                middle_button_label: None,
                fires_without_release: false,
                icon: None,
            },
            PinAction::Digit('6'),
        ),
        10 => (
            ChoiceItem {
                label: "7",
                middle_button_label: None,
                fires_without_release: false,
                icon: None,
            },
            PinAction::Digit('7'),
        ),
        11 => (
            ChoiceItem {
                label: "8",
                middle_button_label: None,
                fires_without_release: false,
                icon: None,
            },
            PinAction::Digit('8'),
        ),
        _ => (
            ChoiceItem {
                label: "9",
                middle_button_label: None,
                fires_without_release: false,
                icon: None,
            },
            PinAction::Digit('9'),
        ),
    }
}

/// Every digit slot index yields the digit action whose character is the
/// decimal digit `index - 3`.
pub proof fn lemma_digit_slots(index: int)
    requires
        NUMBER_START_INDEX <= index <= 12,
    ensures
        choice_action(index) == PinAction::Digit(digit_char(index - 3)),
        digit_char(index - 3) as int == 48 + (index - 3),
        is_pin_digit(digit_char(index - 3)),
{
}

/// The delete slot is the only table entry that fires without release.
pub proof fn lemma_delete_only_fires_without_release(index: int)
    requires
        0 <= index < CHOICE_LENGTH,
    ensures
        choice_fires_without_release(index) <==> choice_action(index) == PinAction::Delete,
{
}

} // verus!
