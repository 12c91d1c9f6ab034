use pin_entry::choices::PinAction;
use pin_entry::display::LineFont;
use pin_entry::entry::{CancelConfirmMsg, PinEntry, PinEvent, SelectorMsg};

fn digit(c: char) -> SelectorMsg {
    SelectorMsg::Committed(PinAction::Digit(c), false)
}

fn delete(long_press: bool) -> SelectorMsg {
    SelectorMsg::Committed(PinAction::Delete, long_press)
}

fn enter() -> SelectorMsg {
    SelectorMsg::Committed(PinAction::Enter, false)
}

fn show() -> SelectorMsg {
    SelectorMsg::Committed(PinAction::Show, false)
}

#[test]
fn scenario_fresh_session() {
    let e = PinEntry::new("Enter PIN", "", 4);
    assert_eq!(e.header_text(), "Enter PIN");
    assert_eq!(e.pin_line_text(), "_");
    assert_eq!(e.pin_line_font(), LineFont::Bold);
    assert!(e.showing_real_prompt());
    assert!(!e.show_real_pin());
    assert!(!e.show_last_digit());
    assert!(e.is_empty());
}

#[test]
fn scenario_retry_session() {
    let mut e = PinEntry::new("Enter PIN", "1234", 4);
    assert_eq!(e.header_text(), "WRONG PIN");
    assert_eq!(e.pin_line_text(), "1234");
    assert_eq!(e.pin_line_font(), LineFont::Normal);
    assert!(!e.showing_real_prompt());

    let msg = e.event(PinEvent::Button, SelectorMsg::Consumed, 9);
    assert_eq!(msg, None);
    assert_eq!(e.header_text(), "Enter PIN");
    assert!(e.showing_real_prompt());

    // The transition is permanent.
    let _ = e.event(PinEvent::Other, SelectorMsg::Consumed, 9);
    let _ = e.event(PinEvent::Button, SelectorMsg::Consumed, 9);
    assert_eq!(e.header_text(), "Enter PIN");
    assert!(e.showing_real_prompt());
}

#[test]
fn only_button_events_fire_the_prompt_transition() {
    let mut e = PinEntry::new("Enter PIN", "1234", 4);
    let _ = e.event(PinEvent::Timer, SelectorMsg::Consumed, 9);
    let _ = e.event(PinEvent::Other, SelectorMsg::Consumed, 9);
    assert_eq!(e.header_text(), "WRONG PIN");
    assert!(!e.showing_real_prompt());

    let _ = e.event(PinEvent::Button, SelectorMsg::Consumed, 9);
    assert_eq!(e.header_text(), "Enter PIN");
}

#[test]
fn scenario_first_digit_reveals_then_masks() {
    let mut e = PinEntry::new("Enter PIN", "", 0);
    let msg = e.event(PinEvent::Button, digit('5'), 23);
    assert_eq!(msg, None);
    assert_eq!(e.pin(), "5");
    assert!(e.show_last_digit());
    assert_eq!(e.pin_line_text(), "5");
    let position = e.selector_position();
    assert!((3..=12).contains(&position));

    let msg = e.event(PinEvent::Other, SelectorMsg::Consumed, 1);
    assert_eq!(msg, None);
    assert!(!e.show_last_digit());
    assert_eq!(e.pin_line_text(), "*");
    assert_eq!(e.pin(), "5");
}

#[test]
fn scenario_delete_short_and_long() {
    let mut e = PinEntry::new("Enter PIN", "", 0);
    let _ = e.event(PinEvent::Button, digit('1'), 5);
    let _ = e.event(PinEvent::Button, digit('2'), 6);
    assert_eq!(e.pin(), "12");

    let msg = e.event(PinEvent::Button, delete(false), 7);
    assert_eq!(msg, None);
    assert_eq!(e.pin(), "1");

    let _ = e.event(PinEvent::Button, digit('2'), 8);
    assert_eq!(e.pin(), "12");
    let msg = e.event(PinEvent::Button, delete(true), 9);
    assert_eq!(msg, None);
    assert_eq!(e.pin(), "");
    assert!(e.is_empty());
}

#[test]
fn scenario_enter_gated_on_buffer() {
    let mut e = PinEntry::new("Enter PIN", "", 0);
    let msg = e.event(PinEvent::Button, enter(), 3);
    assert_eq!(msg, None);
    assert!(e.is_empty());
    assert_eq!(e.pin(), "");

    let _ = e.event(PinEvent::Button, digit('9'), 4);
    let msg = e.event(PinEvent::Button, enter(), 5);
    assert_eq!(msg, Some(CancelConfirmMsg::Confirmed));
    assert_eq!(e.pin(), "9");
}

#[test]
fn delete_on_empty_buffer_is_a_no_op() {
    let mut e = PinEntry::new("Enter PIN", "", 0);
    let msg = e.event(PinEvent::Button, delete(false), 3);
    assert_eq!(msg, None);
    assert!(e.is_empty());
    assert_eq!(e.pin_line_text(), "_");

    let msg = e.event(PinEvent::Button, delete(true), 3);
    assert_eq!(msg, None);
    assert!(e.is_empty());
}

#[test]
fn buffer_capacity_is_fifty() {
    let mut e = PinEntry::new("Enter PIN", "", 0);
    for i in 0..50u32 {
        assert!(!e.is_full());
        let _ = e.event(PinEvent::Button, digit('7'), i);
    }
    assert!(e.is_full());
    assert_eq!(e.pin_len(), 50);
    assert_eq!(e.pin(), "7".repeat(50));

    // The next attempted append is a no-op leaving the buffer unchanged.
    let msg = e.event(PinEvent::Button, digit('8'), 99);
    assert_eq!(msg, None);
    assert_eq!(e.pin_len(), 50);
    assert_eq!(e.pin(), "7".repeat(50));
    assert!(!e.show_last_digit());
}

#[test]
fn selector_reseeded_into_digit_slots() {
    let entropies = [0u32, 1, 9, 10, 42, 999, u32::MAX];
    for (i, entropy) in entropies.iter().enumerate() {
        let mut e = PinEntry::new("Enter PIN", "", *entropy);
        assert!((3..=12).contains(&e.selector_position()));
        let _ = e.event(PinEvent::Button, digit('3'), entropies[(i + 1) % entropies.len()]);
        assert!((3..=12).contains(&e.selector_position()));
    }
}

#[test]
fn show_reveals_until_next_non_timer_event() {
    let mut e = PinEntry::new("Enter PIN", "", 0);
    let _ = e.event(PinEvent::Button, digit('1'), 5);
    let _ = e.event(PinEvent::Button, digit('2'), 6);
    let _ = e.event(PinEvent::Button, digit('3'), 7);
    let _ = e.event(PinEvent::Other, SelectorMsg::Consumed, 0);
    assert_eq!(e.pin_line_text(), "***");

    let msg = e.event(PinEvent::Button, show(), 8);
    assert_eq!(msg, None);
    assert!(e.show_real_pin());
    assert_eq!(e.pin_line_text(), "123");
    assert_eq!(e.pin_line_font(), LineFont::Bold);

    // A timer tick keeps the reveal alive.
    let _ = e.event(PinEvent::Timer, SelectorMsg::Consumed, 0);
    assert!(e.show_real_pin());
    assert_eq!(e.pin_line_text(), "123");

    // Any other event collapses it.
    let _ = e.event(PinEvent::Other, SelectorMsg::Consumed, 0);
    assert!(!e.show_real_pin());
    assert_eq!(e.pin_line_text(), "***");
}

#[test]
fn last_digit_reveal_masks_all_but_last() {
    let mut e = PinEntry::new("Enter PIN", "", 0);
    let _ = e.event(PinEvent::Button, digit('1'), 5);
    let _ = e.event(PinEvent::Button, digit('2'), 6);
    assert!(e.show_last_digit());
    assert_eq!(e.pin_line_text(), "*2");

    let _ = e.event(PinEvent::Button, digit('3'), 7);
    assert_eq!(e.pin_line_text(), "**3");

    // The reveal survives timer ticks and collapses on the next real event.
    let _ = e.event(PinEvent::Timer, SelectorMsg::Consumed, 0);
    assert_eq!(e.pin_line_text(), "**3");
    let _ = e.event(PinEvent::Button, SelectorMsg::Consumed, 0);
    assert_eq!(e.pin_line_text(), "***");
}

#[test]
fn empty_buffer_falls_back_to_subprompt() {
    let mut e = PinEntry::new("Enter PIN", "retry hint", 0);
    let _ = e.event(PinEvent::Button, digit('4'), 5);
    assert_eq!(e.pin_line_text(), "4");
    assert_eq!(e.pin_line_font(), LineFont::Bold);

    // Deleting the only digit brings the subprompt back in normal weight.
    let _ = e.event(PinEvent::Button, delete(false), 6);
    assert_eq!(e.pin_line_text(), "retry hint");
    assert_eq!(e.pin_line_font(), LineFont::Normal);
}

#[test]
fn paint_acknowledges_repaint_requests() {
    let mut e = PinEntry::new("Enter PIN", "", 0);
    let (header_dirty, pin_dirty) = e.paint();
    assert!(header_dirty);
    assert!(pin_dirty);
    let (header_dirty, pin_dirty) = e.paint();
    assert!(!header_dirty);
    assert!(!pin_dirty);

    // A digit commit repaints the PIN line but not the header.
    let _ = e.event(PinEvent::Button, digit('5'), 5);
    let (header_dirty, pin_dirty) = e.paint();
    assert!(!header_dirty);
    assert!(pin_dirty);
}

#[test]
fn enter_commit_never_cancels() {
    let mut e = PinEntry::new("Enter PIN", "", 0);
    let _ = e.event(PinEvent::Button, digit('1'), 5);
    let msg = e.event(PinEvent::Button, enter(), 6);
    assert_ne!(msg, Some(CancelConfirmMsg::Cancelled));
    assert_eq!(msg, Some(CancelConfirmMsg::Confirmed));
}
