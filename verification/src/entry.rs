//! The PIN entry state machine: owns the bounded PIN buffer, the two
//! display lines, the seeded carousel position and the transient reveal
//! flags, and drives them from framework events and carousel commits.
//!
//! Event processing order: a non-timer event first collapses any active
//! reveal; a button event then makes the one-way warning-to-prompt header
//! transition; last, a committed carousel action is dispatched.

use vstd::prelude::*;
use vstd::string::StringExecFns;
use crate::buffer::PinBuffer;
use crate::choices::{PinAction, is_pin_digit};
use crate::display::{ChangingTextLine, LineFont};
use crate::random::{get_random_digit_position, spec_digit_position};
use crate::text::{MAX_PIN_LENGTH, seq_is_ascii, text_chars, text_clone, text_from_str, text_new,
    text_push};

verus! {

/// Terminal outcome of a PIN entry session. Confirmation comes from an
/// enter commit on a non-empty buffer; cancellation is driven by the
/// caller's surrounding screen.
#[derive(Clone, Copy, PartialEq, Eq, Structural, Debug)]
pub enum CancelConfirmMsg {
    Confirmed,
    Cancelled,
}

/// The category of a framework event, as far as this machine reads one:
/// timer ticks leave reveals alone, button events fire the header
/// transition, anything else only collapses reveals.
#[derive(Clone, Copy, PartialEq, Eq, Structural, Debug)]
pub enum PinEvent {
    Timer,
    Button,
    Other,
}

/// What the carousel selector reported for an event: a committed action
/// with its long-press flag, or that it consumed the event internally
/// (navigation).
#[derive(Clone, Copy, PartialEq, Eq, Structural, Debug)]
pub enum SelectorMsg {
    Committed(PinAction, bool),
    Consumed,
}

/// The header text shown before the warning-to-prompt transition.
pub open spec fn wrong_pin_header() -> Seq<char> {
    "WRONG PIN"@
}

/// The single placeholder glyph the PIN line shows for an empty buffer
/// without a subprompt.
pub open spec fn empty_pin_placeholder() -> Seq<char> {
    "_"@
}

/// Whether the committed selector message appends a digit to `pin`: a digit
/// commit on a buffer below capacity.
pub open spec fn digit_appended(pin: Seq<char>, sel: SelectorMsg) -> bool {
    (sel matches SelectorMsg::Committed(PinAction::Digit(_), _)) && pin.len() < MAX_PIN_LENGTH
}

/// The PIN buffer after dispatching a selector message on `pin`: a delete
/// long-press clears it, a short press drops the last character, a digit
/// below capacity is appended; everything else leaves it unchanged.
pub open spec fn spec_next_pin(pin: Seq<char>, sel: SelectorMsg) -> Seq<char> {
    match sel {
        SelectorMsg::Committed(action, long_press) => match action {
            PinAction::Delete => if long_press {
                Seq::<char>::empty()
            } else if pin.len() > 0 {
                pin.drop_last()
            } else {
                pin
            },
            PinAction::Digit(c) => if pin.len() < MAX_PIN_LENGTH {
                pin.push(c)
            } else {
                pin
            },
            _ => pin,
        },
        SelectorMsg::Consumed => pin,
    }
}

/// The outcome of dispatching a selector message on `pin`: confirmed
/// exactly for an enter commit on a non-empty buffer.
pub open spec fn spec_outcome(pin: Seq<char>, sel: SelectorMsg) -> Option<CancelConfirmMsg> {
    if (sel matches SelectorMsg::Committed(PinAction::Enter, _)) && pin.len() > 0 {
        Some(CancelConfirmMsg::Confirmed)
    } else {
        None
    }
}

/// The full-PIN reveal flag after an event: set by a show commit, kept
/// across a timer tick, cleared by any other event.
pub open spec fn spec_next_show_real_pin(was: bool, event: PinEvent, sel: SelectorMsg) -> bool {
    (sel matches SelectorMsg::Committed(PinAction::Show, _)) || (was && event is Timer)
}

/// The last-digit reveal flag after an event: set by a successful digit
/// append, kept across a timer tick, cleared by any other event.
pub open spec fn spec_next_show_last_digit(
    was: bool,
    pin: Seq<char>,
    event: PinEvent,
    sel: SelectorMsg,
) -> bool {
    digit_appended(pin, sel) || (was && event is Timer)
}

/// The header flag after an event: a button event turns the warning into
/// the real prompt, and the transition never reverts.
pub open spec fn spec_next_showing_real_prompt(was: bool, event: PinEvent) -> bool {
    was || event is Button
}

/// Whether processing an event recomputes the PIN line and requests its
/// repaint: a collapsed reveal, or a dispatched delete, show or successful
/// digit append.
pub open spec fn spec_pin_line_repaint(
    was_real: bool,
    was_last: bool,
    pin: Seq<char>,
    event: PinEvent,
    sel: SelectorMsg,
) -> bool {
    ||| (!(event is Timer) && (was_real || was_last))
    ||| (sel matches SelectorMsg::Committed(PinAction::Delete, _))
    ||| (sel matches SelectorMsg::Committed(PinAction::Show, _))
    ||| digit_appended(pin, sel)
}

/// Component for entering a PIN.
pub struct PinEntry {
    header_line: ChangingTextLine,
    pin_line: ChangingTextLine,
    prompt: heapless::String<50>,
    subprompt: heapless::String<50>,
    /// Whether we already show the "real" prompt (not the warning).
    showing_real_prompt: bool,
    show_real_pin: bool,
    show_last_digit: bool,
    textbox: PinBuffer,
    /// The digit slot the carousel was last seeded to.
    selector_position: usize,
}

impl PinEntry {
    /// The PIN characters entered so far.
    pub closed spec fn pin_view(&self) -> Seq<char> {
        self.textbox@
    }

    /// The prompt supplied at construction.
    pub closed spec fn prompt_view(&self) -> Seq<char> {
        text_chars(self.prompt)
    }

    /// The subprompt supplied at construction; non-empty means the previous
    /// attempt failed.
    pub closed spec fn subprompt_view(&self) -> Seq<char> {
        text_chars(self.subprompt)
    }

    /// Whether the header already shows the real prompt.
    pub closed spec fn spec_showing_real_prompt(&self) -> bool {
        self.showing_real_prompt
    }

    /// Whether the PIN line reveals the whole buffer.
    pub closed spec fn spec_show_real_pin(&self) -> bool {
        self.show_real_pin
    }

    /// Whether the PIN line reveals the last entered digit.
    pub closed spec fn spec_show_last_digit(&self) -> bool {
        self.show_last_digit
    }

    /// The digit slot the carousel was last seeded to.
    pub closed spec fn spec_selector_position(&self) -> int {
        self.selector_position as int
    }

    /// The text the header line shows.
    pub closed spec fn header_view(&self) -> Seq<char> {
        self.header_line.text_view()
    }

    /// The text the PIN line shows.
    pub closed spec fn pin_line_view(&self) -> Seq<char> {
        self.pin_line.text_view()
    }

    /// The font the PIN line is drawn with.
    pub closed spec fn pin_line_font_view(&self) -> LineFont {
        self.pin_line.font_view()
    }

    /// The font the header line is drawn with.
    pub closed spec fn header_font_view(&self) -> LineFont {
        self.header_line.font_view()
    }

    /// Whether the header line has a repaint pending.
    pub closed spec fn header_dirty_view(&self) -> bool {
        self.header_line.dirty_view()
    }

    /// Whether the PIN line has a repaint pending.
    pub closed spec fn pin_line_dirty_view(&self) -> bool {
        self.pin_line.dirty_view()
    }

    /// The header text owed to the current state: the warning until the
    /// transition, the real prompt from then on.
    pub open spec fn spec_header_text(&self) -> Seq<char> {
        if self.spec_showing_real_prompt() {
            self.prompt_view()
        } else {
            wrong_pin_header()
        }
    }

    /// The PIN line text owed to the current state, by priority: the
    /// subprompt on an empty buffer when one was given, else a placeholder
    /// glyph on an empty buffer, else the buffer in clear during a full
    /// reveal, else one mask per character with the last character in clear
    /// during a last-digit reveal.
    pub open spec fn spec_pin_line_text(&self) -> Seq<char> {
        if self.pin_view().len() == 0 && self.subprompt_view().len() > 0 {
            self.subprompt_view()
        } else if self.pin_view().len() == 0 {
            empty_pin_placeholder()
        } else if self.spec_show_real_pin() {
            self.pin_view()
        } else {
            Seq::new((self.pin_view().len() - 1) as nat, |i: int| '*').push(
                if self.spec_show_last_digit() {
                    self.pin_view().last()
                } else {
                    '*'
                },
            )
        }
    }

    /// The PIN line font owed to the current state: normal weight only for
    /// the subprompt, bold otherwise.
    pub open spec fn spec_pin_line_font(&self) -> LineFont {
        if self.pin_view().len() == 0 && self.subprompt_view().len() > 0 {
            LineFont::Normal
        } else {
            LineFont::Bold
        }
    }

    /// Structural invariants: the PIN is at most `MAX_PIN_LENGTH` decimal
    /// digits, the prompts fit a line buffer as ASCII text, the carousel
    /// is seeded to a digit slot, and an empty subprompt means the real
    /// prompt shows from the start.
    pub open spec fn wf_state(&self) -> bool {
        &&& self.pin_view().len() <= MAX_PIN_LENGTH
        &&& forall|i: int| 0 <= i < self.pin_view().len() ==> is_pin_digit(#[trigger] self.pin_view()[i])
        &&& self.prompt_view().len() <= MAX_PIN_LENGTH
        &&& seq_is_ascii(self.prompt_view())
        &&& self.subprompt_view().len() <= MAX_PIN_LENGTH
        &&& seq_is_ascii(self.subprompt_view())
        &&& 3 <= self.spec_selector_position() <= 12
        &&& (self.subprompt_view().len() == 0 ==> self.spec_showing_real_prompt())
    }

    /// The display lines show exactly what the current state owes them.
    pub open spec fn display_ok(&self) -> bool {
        &&& self.header_view() == self.spec_header_text()
        &&& self.header_font_view() == LineFont::Bold
        &&& self.pin_line_view() == self.spec_pin_line_text()
        &&& self.pin_line_font_view() == self.spec_pin_line_font()
    }

    /// Well-formedness: structural invariants and a display that matches
    /// the state. Established by `new` and preserved by every event.
    pub open spec fn wf(&self) -> bool {
        self.wf_state() && self.display_ok()
    }
}

/// The parts of the state that display recomputation leaves untouched.
pub open spec fn same_state(a: PinEntry, b: PinEntry) -> bool {
    &&& a.pin_view() == b.pin_view()
    &&& a.prompt_view() == b.prompt_view()
    &&& a.subprompt_view() == b.subprompt_view()
    &&& a.spec_showing_real_prompt() == b.spec_showing_real_prompt()
    &&& a.spec_show_real_pin() == b.spec_show_real_pin()
    &&& a.spec_show_last_digit() == b.spec_show_last_digit()
    &&& a.spec_selector_position() == b.spec_selector_position()
}

impl PinEntry {
    /// A new PIN entry session. A non-empty `subprompt` signals a failed
    /// previous attempt: the header then starts on the warning and the PIN
    /// line on the subprompt; otherwise the header starts on the prompt and
    /// the PIN line on the placeholder. The carousel starts on the digit
    /// slot that the fresh random draw `entropy` selects. The prompts must
    /// fit the fixed line buffers as ASCII text.
    pub fn new(prompt: &str, subprompt: &str, entropy: u32) -> (r: Self)
        requires
            prompt@.len() <= MAX_PIN_LENGTH,
            seq_is_ascii(prompt@),
            subprompt@.len() <= MAX_PIN_LENGTH,
            seq_is_ascii(subprompt@),
        ensures
            r.wf(),
            r.pin_view() == Seq::<char>::empty(),
            r.prompt_view() == prompt@,
            r.subprompt_view() == subprompt@,
            r.spec_showing_real_prompt() == (subprompt@.len() == 0),
            !r.spec_show_real_pin(),
            !r.spec_show_last_digit(),
            r.spec_selector_position() == spec_digit_position(entropy),
    {
        proof {
            reveal_strlit("WRONG PIN");
            reveal_strlit("_");
            assert(seq_is_ascii("WRONG PIN"@));
            assert(seq_is_ascii("_"@));
        }
        let show_subprompt = !subprompt.is_empty();
        let showing_real_prompt: bool;
        let header_content: heapless::String<50>;
        let pin_content: heapless::String<50>;
        let pin_font: LineFont;
        if show_subprompt {
            showing_real_prompt = false;
            header_content = text_from_str("WRONG PIN");
            pin_content = text_from_str(subprompt);
            pin_font = LineFont::Normal;
        } else {
            showing_real_prompt = true;
            header_content = text_from_str(prompt);
            pin_content = text_from_str("_");
            pin_font = LineFont::Bold;
        }
        PinEntry {
            header_line: ChangingTextLine::new(header_content, LineFont::Bold),
            pin_line: ChangingTextLine::new(pin_content, pin_font),
            prompt: text_from_str(prompt),
            subprompt: text_from_str(subprompt),
            showing_real_prompt,
            show_real_pin: false,
            show_last_digit: false,
            textbox: PinBuffer::new(),
            selector_position: get_random_digit_position(entropy),
        }
    }

    /// Recomputes the PIN line text and font from the current state and
    /// requests a repaint.
    fn update_pin_line(&mut self)
        requires
            old(self).wf_state(),
        ensures
            same_state(*old(self), *final(self)),
            final(self).header_view() == old(self).header_view(),
            final(self).header_font_view() == old(self).header_font_view(),
            final(self).header_dirty_view() == old(self).header_dirty_view(),
            final(self).pin_line_view() == final(self).spec_pin_line_text(),
            final(self).pin_line_font_view() == final(self).spec_pin_line_font(),
            final(self).pin_line_dirty_view(),
    {
        let mut used_font = LineFont::Bold;
        let pin_line_text: heapless::String<50>;
        if self.textbox.is_empty() && !self.subprompt_is_empty() {
            used_font = LineFont::Normal;
            pin_line_text = text_clone(&self.subprompt);
        } else if self.textbox.is_empty() {
            proof {
                reveal_strlit("_");
                assert(seq_is_ascii("_"@));
            }
            pin_line_text = text_from_str("_");
        } else if self.show_real_pin {
            let mut shown = text_new();
            let n = self.textbox.len();
            let mut i: usize = 0;
            while i < n
                invariant
                    i <= n,
                    n == self.pin_view().len(),
                    self.wf_state(),
                    text_chars(shown) == self.pin_view().subrange(0, i as int),
                decreases n - i,
            {
                text_push(&mut shown, self.textbox.char_at(i));
                proof {
                    assert(text_chars(shown) =~= self.pin_view().subrange(0, i as int + 1));
                }
                i += 1;
            }
            proof {
                assert(text_chars(shown) =~= self.pin_view());
            }
            pin_line_text = shown;
        } else {
            // One mask per character, with the real last character only
            // during a last-digit reveal.
            let mut dots = text_new();
            let n = self.textbox.len();
            let mut i: usize = 0;
            while i < n - 1
                invariant
                    n >= 1,
                    i <= n - 1,
                    n == self.pin_view().len(),
                    self.wf_state(),
                    text_chars(dots) == Seq::new(i as nat, |j: int| '*'),
                decreases n - i,
            {
                text_push(&mut dots, '*');
                proof {
                    assert(text_chars(dots) =~= Seq::new((i + 1) as nat, |j: int| '*'));
                }
                i += 1;
            }
            let last_char = if self.show_last_digit {
                self.textbox.char_at(n - 1)
            } else {
                '*'
            };
            text_push(&mut dots, last_char);
            pin_line_text = dots;
        }
        self.pin_line.update_font(used_font);
        self.pin_line.update_text(pin_line_text);
    }

    /// Performs overall update of the screen.
    fn update(&mut self)
        requires
            old(self).wf_state(),
        ensures
            same_state(*old(self), *final(self)),
            final(self).header_view() == old(self).header_view(),
            final(self).header_font_view() == old(self).header_font_view(),
            final(self).header_dirty_view() == old(self).header_dirty_view(),
            final(self).pin_line_view() == final(self).spec_pin_line_text(),
            final(self).pin_line_font_view() == final(self).spec_pin_line_font(),
            final(self).pin_line_dirty_view(),
    {
        self.update_pin_line();
    }

    /// Replaces the warning header with the real prompt and requests a
    /// repaint of the header line.
    fn show_prompt(&mut self)
        ensures
            same_state(*old(self), *final(self)),
            final(self).header_view() == old(self).prompt_view(),
            final(self).header_font_view() == old(self).header_font_view(),
            final(self).pin_line_view() == old(self).pin_line_view(),
            final(self).pin_line_font_view() == old(self).pin_line_font_view(),
            final(self).pin_line_dirty_view() == old(self).pin_line_dirty_view(),
            final(self).header_dirty_view(),
    {
        let content = text_clone(&self.prompt);
        self.header_line.update_text(content);
    }

    /// Processes one framework event together with what the carousel
    /// selector reported for it, and the fresh random draw `entropy` used
    /// to re-seed the carousel if a digit is appended. Returns the terminal
    /// outcome, if this event ends the session.
    ///
    /// A non-timer event first collapses any active reveal; a button event
    /// then makes the one-way warning-to-prompt transition; a committed
    /// action is dispatched last, so a reveal lives exactly until the next
    /// non-timer event. The selector commits only actions from the choice
    /// table, so a committed digit is a decimal digit character.
    pub fn event(&mut self, event: PinEvent, selector: SelectorMsg, entropy: u32) -> (msg: Option<
        CancelConfirmMsg,
    >)
        requires
            old(self).wf(),
            selector matches SelectorMsg::Committed(PinAction::Digit(c), _) ==> is_pin_digit(c),
        ensures
            final(self).wf(),
            final(self).prompt_view() == old(self).prompt_view(),
            final(self).subprompt_view() == old(self).subprompt_view(),
            final(self).pin_view() == spec_next_pin(old(self).pin_view(), selector),
            final(self).spec_showing_real_prompt() == spec_next_showing_real_prompt(
                old(self).spec_showing_real_prompt(),
                event,
            ),
            final(self).spec_show_real_pin() == spec_next_show_real_pin(
                old(self).spec_show_real_pin(),
                event,
                selector,
            ),
            final(self).spec_show_last_digit() == spec_next_show_last_digit(
                old(self).spec_show_last_digit(),
                old(self).pin_view(),
                event,
                selector,
            ),
            digit_appended(old(self).pin_view(), selector) ==> final(self).spec_selector_position()
                == spec_digit_position(entropy),
            !digit_appended(old(self).pin_view(), selector) ==> final(self).spec_selector_position()
                == old(self).spec_selector_position(),
            msg == spec_outcome(old(self).pin_view(), selector),
            final(self).header_dirty_view() == (old(self).header_dirty_view() || (!old(
                self,
            ).spec_showing_real_prompt() && event is Button)),
            final(self).pin_line_dirty_view() == (old(self).pin_line_dirty_view()
                || spec_pin_line_repaint(
                old(self).spec_show_real_pin(),
                old(self).spec_show_last_digit(),
                old(self).pin_view(),
                event,
                selector,
            )),
    {
        // Any non-timer event when showing the real PIN should hide it;
        // same with showing the last digit.
        if !matches!(event, PinEvent::Timer) {
            if self.show_real_pin {
                self.show_real_pin = false;
                self.update();
            }
            if self.show_last_digit {
                self.show_last_digit = false;
                self.update();
            }
        }
        // Any button event will show the "real" prompt.
        if !self.showing_real_prompt {
            if matches!(event, PinEvent::Button) {
                self.show_prompt();
                self.showing_real_prompt = true;
            }
        }
        match selector {
            SelectorMsg::Committed(action, long_press) => match action {
                PinAction::Delete => {
                    // Deleting all when long-pressed.
                    if long_press {
                        self.textbox.clear();
                    } else {
                        self.textbox.delete_last();
                    }
                    self.update();
                },
                PinAction::Show => {
                    self.show_real_pin = true;
                    self.update();
                },
                PinAction::Enter => {
                    // ENTER is not valid when the PIN is empty.
                    if !self.textbox.is_empty() {
                        return Some(CancelConfirmMsg::Confirmed);
                    }
                },
                PinAction::Digit(ch) => {
                    if !self.textbox.is_full() {
                        self.textbox.append(ch);
                        // Choosing a random digit slot to be shown next.
                        self.selector_position = get_random_digit_position(entropy);
                        self.show_last_digit = true;
                        self.update();
                    }
                },
            },
            SelectorMsg::Consumed => {},
        }
        None
    }

    /// The PIN entered so far, in clear text.
    pub fn pin(&self) -> (r: String)
        requires
            self.wf(),
        ensures
            r@ == self.pin_view(),
    {
        let mut out = String::new();
        let n = self.textbox.len();
        let mut i: usize = 0;
        while i < n
            invariant
                i <= n,
                n == self.pin_view().len(),
                self.wf(),
                out@ == self.pin_view().subrange(0, i as int),
            decreases n - i,
        {
            let c = self.textbox.char_at(i);
            let piece = digit_str(c);
            out.append(piece);
            proof {
                assert(out@ =~= self.pin_view().subrange(0, i as int + 1));
            }
            i += 1;
        }
        proof {
            assert(out@ =~= self.pin_view());
        }
        out
    }

    /// Length of the PIN entered so far.
    pub fn pin_len(&self) -> (n: usize)
        ensures
            n == self.pin_view().len(),
    {
        self.textbox.len()
    }

    /// Whether the buffer is empty.
    pub fn is_empty(&self) -> (b: bool)
        ensures
            b == (self.pin_view().len() == 0),
    {
        self.textbox.is_empty()
    }

    /// Whether the buffer is at capacity.
    pub fn is_full(&self) -> (b: bool)
        ensures
            b == (self.pin_view().len() >= MAX_PIN_LENGTH),
    {
        self.textbox.is_full()
    }

    /// The text the header line shows.
    pub fn header_text(&self) -> (r: &str)
        ensures
            r@ == self.header_view(),
    {
        self.header_line.text()
    }

    /// The text the PIN line shows.
    pub fn pin_line_text(&self) -> (r: &str)
        ensures
            r@ == self.pin_line_view(),
    {
        self.pin_line.text()
    }

    /// The font the PIN line is drawn with.
    pub fn pin_line_font(&self) -> (r: LineFont)
        ensures
            r == self.pin_line_font_view(),
    {
        self.pin_line.font()
    }

    /// Whether the header already shows the real prompt.
    pub fn showing_real_prompt(&self) -> (b: bool)
        ensures
            b == self.spec_showing_real_prompt(),
    {
        self.showing_real_prompt
    }

    /// Whether the PIN line reveals the whole buffer.
    pub fn show_real_pin(&self) -> (b: bool)
        ensures
            b == self.spec_show_real_pin(),
    {
        self.show_real_pin
    }

    /// Whether the PIN line reveals the last entered digit.
    pub fn show_last_digit(&self) -> (b: bool)
        ensures
            b == self.spec_show_last_digit(),
    {
        self.show_last_digit
    }

    /// The digit slot the carousel was last seeded to.
    pub fn selector_position(&self) -> (p: usize)
        ensures
            p == self.spec_selector_position(),
    {
        self.selector_position
    }

    /// Whether the subprompt supplied at construction is empty.
    fn subprompt_is_empty(&self) -> (b: bool)
        ensures
            b == (self.subprompt_view().len() == 0),
    {
        crate::text::text_as_str(&self.subprompt).is_empty()
    }

    /// Acknowledges both lines' pending repaint requests, returning whether
    /// the header and the PIN line had one; the caller then draws them.
    pub fn paint(&mut self) -> (r: (bool, bool))
        ensures
            same_state(*old(self), *final(self)),
            final(self).header_view() == old(self).header_view(),
            final(self).pin_line_view() == old(self).pin_line_view(),
            final(self).pin_line_font_view() == old(self).pin_line_font_view(),
            r.0 == old(self).header_dirty_view(),
            r.1 == old(self).pin_line_dirty_view(),
            !final(self).header_dirty_view(),
            !final(self).pin_line_dirty_view(),
    {
        let header_was = self.header_line.take_dirty();
        let pin_was = self.pin_line.take_dirty();
        (header_was, pin_was)
    }
}

/// However a selector message drives the buffer, the PIN never grows beyond
/// `MAX_PIN_LENGTH` characters, and a digit commit arriving at capacity
/// leaves the buffer unchanged.
pub proof fn lemma_pin_never_overflows(pin: Seq<char>, sel: SelectorMsg)
    requires
        pin.len() <= MAX_PIN_LENGTH,
    ensures
        spec_next_pin(pin, sel).len() <= MAX_PIN_LENGTH,
        pin.len() == MAX_PIN_LENGTH && (sel matches SelectorMsg::Committed(
            PinAction::Digit(_),
            _,
        )) ==> spec_next_pin(pin, sel) == pin,
{
}

/// After any event that is not a timer tick, a reveal flag is set only if
/// that very event set it: the full reveal only by a show commit, the
/// last-digit reveal only by a successful digit append.
pub proof fn lemma_reveals_are_one_shot(
    was_real: bool,
    was_last: bool,
    pin: Seq<char>,
    event: PinEvent,
    sel: SelectorMsg,
)
    requires
        !(event is Timer),
    ensures
        spec_next_show_real_pin(was_real, event, sel) ==> (sel matches SelectorMsg::Committed(
            PinAction::Show,
            _,
        )),
        spec_next_show_last_digit(was_last, pin, event, sel) ==> digit_appended(pin, sel),
{
}

/// An enter commit confirms the session exactly when the buffer is
/// non-empty; on an empty buffer it is swallowed with no outcome, and no
/// other message ends the session.
pub proof fn lemma_enter_gated_on_buffer(pin: Seq<char>, sel: SelectorMsg)
    ensures
        spec_outcome(pin, sel) == Some(CancelConfirmMsg::Confirmed) <==> ((sel
            matches SelectorMsg::Committed(PinAction::Enter, _)) && pin.len() > 0),
        spec_outcome(pin, sel) is Some ==> spec_outcome(pin, sel) == Some(
            CancelConfirmMsg::Confirmed,
        ),
{
}

/// A delete long-press empties the buffer in one step; a short press
/// removes exactly the last character, and does nothing when the buffer is
/// already empty.
pub proof fn lemma_delete_behaviour(pin: Seq<char>, long_press: bool)
    ensures
        long_press ==> spec_next_pin(pin, SelectorMsg::Committed(PinAction::Delete, long_press))
            == Seq::<char>::empty(),
        !long_press && pin.len() > 0 ==> spec_next_pin(
            pin,
            SelectorMsg::Committed(PinAction::Delete, long_press),
        ) == pin.drop_last(),
        !long_press && pin.len() == 0 ==> spec_next_pin(
            pin,
            SelectorMsg::Committed(PinAction::Delete, long_press),
        ) == pin,
{
}

/// The warning-to-prompt transition is one-way: once the real prompt shows,
/// no event reverts the header to the warning.
pub proof fn lemma_prompt_transition_monotonic(was: bool, event: PinEvent)
    ensures
        was ==> spec_next_showing_real_prompt(was, event),
{
}

/// The one-character text of a decimal digit character.
fn digit_str(c: char) -> (r: &'static str)
    requires
        is_pin_digit(c),
    ensures
        r@ == seq![c],
{
    proof {
        reveal_strlit("0");
        reveal_strlit("1");
        reveal_strlit("2");
        reveal_strlit("3");
        reveal_strlit("4");
        reveal_strlit("5");
        reveal_strlit("6");
        reveal_strlit("7");
        reveal_strlit("8");
        reveal_strlit("9");
    }
    match c {
        '0' => "0",
        '1' => "1",
        '2' => "2",
        '3' => "3",
        '4' => "4",
        '5' => "5",
        '6' => "6",
        '7' => "7",
        '8' => "8",
        _ => "9",
    }
}

} // verus!
