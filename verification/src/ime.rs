//! Text committed by the composition interpreter, and the glyphs the host reserves.

use vstd::prelude::*;
use vstd::string::StrSliceExecFns;
use crate::event::{Event, WindowEvent};
use crate::queue::{EventQueue, EventWrapper};
use crate::view::ViewState;

verus! {

/// `String::push` of the standard library appends one character to the
/// string and leaves what was there in place.
pub assume_specification[ String::push ](text: &mut String, ch: char)
    ensures
        final(text)@ == old(text)@.push(ch),
;

/// A range of text, counted in UTF-16 code units as the host counts them.
#[derive(Clone, Copy, Debug, PartialEq, Eq, Structural, Hash)]
pub struct TextRange {
    pub location: u64,
    pub length: u64,
}

/// The location that the host reads as "no text".
pub const NOT_FOUND: u64 = 0x7FFF_FFFF_FFFF_FFFF;

/// Whether `c` lies in one of the private-use ranges that the host vendor
/// reserves for function keys and control glyphs.
pub open spec fn spec_is_corporate_character(c: char) -> bool {
    let n = c as u32;
    ||| 0xF700 <= n <= 0xF747
    ||| 0xF802 <= n <= 0xF84F
    ||| n == 0xF850
    ||| n == 0xF85C
    ||| n == 0xF85D
    ||| n == 0xF85F
    ||| 0xF860 <= n <= 0xF86B
    ||| 0xF870 <= n <= 0xF8FF
}

/// Tells a reserved private-use character from one that may be delivered as text.
pub fn is_corporate_character(c: char) -> (reserved: bool)
    ensures
        reserved == spec_is_corporate_character(c),
{
    let n: u32 = c as u32;
    (0xF700 <= n && n <= 0xF747) || (0xF802 <= n && n <= 0xF850) || n == 0xF85C || n == 0xF85D
        || n == 0xF85F || (0xF860 <= n && n <= 0xF86B) || (0xF870 <= n && n <= 0xF8FF)
}

/// The text that may be delivered from `text`: its characters in their order,
/// without the reserved ones.
pub open spec fn spec_deliverable_text(text: Seq<char>) -> Seq<char> {
    text.filter(|c: char| !spec_is_corporate_character(c))
}

/// The number of UTF-16 code units that `text` takes: two for a character
/// outside the basic plane and one for any other.
pub open spec fn spec_utf16_len(text: Seq<char>) -> nat
    decreases text.len(),
{
    if text.len() == 0 {
        0
    } else {
        spec_utf16_len(text.drop_last()) + if text.last() as u32 >= 0x10000 {
            2nat
        } else {
            1nat
        }
    }
}

/// The range that stands for "no text".
pub open spec fn spec_empty_range() -> TextRange {
    TextRange { location: NOT_FOUND, length: 0 }
}

/// No reserved character is left in text that may be delivered.
pub proof fn lemma_deliverable_text_is_clean(text: Seq<char>)
    ensures
        forall|i: int|
            0 <= i < spec_deliverable_text(text).len() ==> !spec_is_corporate_character(
                #[trigger] spec_deliverable_text(text)[i],
            ),
        spec_deliverable_text(text).len() <= text.len(),
{
    text.filter_lemma(|c: char| !spec_is_corporate_character(c));
}

/// Text without reserved characters is delivered as it is.
pub proof fn lemma_clean_text_is_kept(text: Seq<char>)
    requires
        forall|i: int| 0 <= i < text.len() ==> !spec_is_corporate_character(#[trigger] text[i]),
    ensures
        spec_deliverable_text(text) == text,
    decreases text.len(),
{
    reveal(Seq::filter);
    if text.len() > 0 {
        lemma_clean_text_is_kept(text.drop_last());
        assert(text.drop_last().push(text.last()) =~= text);
    }
}

/// The range that stands for "no text".
pub fn empty_range() -> (range: TextRange)
    ensures
        range == spec_empty_range(),
{
    TextRange { location: NOT_FOUND, length: 0 }
}

/// Copies `text` without the reserved characters.
pub fn deliverable_text(text: &str) -> (kept: String)
    ensures
        kept@ == spec_deliverable_text(text@),
{
    let count = text.unicode_len();
    let mut kept = String::new();
    let mut i: usize = 0;
    while i < count
        invariant
            i <= count,
            count == text@.len(),
            kept@ == spec_deliverable_text(text@.take(i as int)),
        decreases count - i,
    {
        let c = text.get_char(i);
        proof {
            reveal(Seq::filter);
            assert(text@.take(i + 1).drop_last() =~= text@.take(i as int));
            assert(text@.take(i + 1).last() == c);
        }
        if !is_corporate_character(c) {
            kept.push(c);
        }
        i += 1;
    }
    proof {
        reveal(Seq::filter);
        assert(text@.take(count as int) =~= text@);
    }
    kept
}

/// The number of UTF-16 code units that `text` takes, as far as it can be counted.
pub fn utf16_len(text: &str) -> (units: u64)
    ensures
        spec_utf16_len(text@) <= u64::MAX ==> units == spec_utf16_len(text@),
        spec_utf16_len(text@) > u64::MAX ==> units == u64::MAX,
{
    let count = text.unicode_len();
    let mut units: u64 = 0;
    let mut i: usize = 0;
    while i < count
        invariant
            i <= count,
            count == text@.len(),
            spec_utf16_len(text@.take(i as int)) <= u64::MAX ==> units == spec_utf16_len(
                text@.take(i as int),
            ),
            spec_utf16_len(text@.take(i as int)) > u64::MAX ==> units == u64::MAX,
        decreases count - i,
    {
        let c = text.get_char(i);
        proof {
            assert(text@.take(i + 1).drop_last() =~= text@.take(i as int));
            assert(text@.take(i + 1).last() == c);
        }
        let step: u64 = if c as u32 >= 0x10000 {
            2
        } else {
            1
        };
        units = units.saturating_add(step);
        i += 1;
    }
    proof {
        assert(text@.take(count as int) =~= text@);
    }
    units
}

impl ViewState {
    /// What the state is after the interpreter has set the text under
    /// composition to `text`.
    pub open spec fn spec_with_marked_text(self, text: Seq<char>, after: ViewState) -> bool {
        &&& after.marked_text@ == text
        &&& after.in_ime_preedit
        &&& after.key_triggered_ime
        &&& after.window_id == self.window_id
        &&& after.cursor_state == self.cursor_state
        &&& after.ime_spot == self.ime_spot
        &&& after.is_key_down == self.is_key_down
        &&& after.modifiers == self.modifiers
        &&& after.phys_modifiers == self.phys_modifiers
        &&& after.tracking_rect == self.tracking_rect
        &&& after.traffic_light_inset == self.traffic_light_inset
    }

    /// Whether text is under composition.
    pub fn has_marked_text(&self) -> (marked: bool)
        ensures
            marked == (self.marked_text@.len() > 0),
    {
        !self.marked_text.as_str().is_empty()
    }

    /// The range that the text under composition takes: it starts at 0 and is
    /// reported one unit short of the text's length; without such text it is
    /// the empty range.
    pub fn marked_range(&self) -> (range: TextRange)
        ensures
            self.marked_text@.len() == 0 ==> range == spec_empty_range(),
            self.marked_text@.len() > 0 && spec_utf16_len(self.marked_text@) <= u64::MAX ==> range
                == (TextRange {
                location: 0,
                length: (spec_utf16_len(self.marked_text@) - 1) as u64,
            }),
            self.marked_text@.len() > 0 && spec_utf16_len(self.marked_text@) > u64::MAX ==> range
                == (TextRange { location: 0, length: (u64::MAX - 1) as u64 }),
    {
        let length = utf16_len(self.marked_text.as_str());
        proof {
            lemma_utf16_len_positive(self.marked_text@);
        }
        if length > 0 {
            TextRange { location: 0, length: length - 1 }
        } else {
            empty_range()
        }
    }

    /// The range of the selection: always the empty range.
    pub fn selected_range(&self) -> (range: TextRange)
        ensures
            range == spec_empty_range(),
    {
        empty_range()
    }

    /// The interpreter changes the text under composition to `text`. The text
    /// held before is dropped, a composition is under way from now on, and the
    /// key press at hand is marked as having reached the interpreter.
    pub fn set_marked_text(&mut self, text: &str)
        ensures
            old(self).spec_with_marked_text(text@, *final(self)),
    {
        self.marked_text = text.to_owned();
        self.in_ime_preedit = true;
        self.key_triggered_ime = true;
    }

    /// Drops the text under composition. The caller tells the host's input
    /// context to discard its own copy.
    pub fn unmark_text(&mut self)
        ensures
            final(self).marked_text@ == Seq::<char>::empty(),
            final(self).in_ime_preedit == old(self).in_ime_preedit,
            final(self).key_triggered_ime == old(self).key_triggered_ime,
            final(self).window_id == old(self).window_id,
            final(self).cursor_state == old(self).cursor_state,
            final(self).ime_spot == old(self).ime_spot,
            final(self).is_key_down == old(self).is_key_down,
            final(self).modifiers == old(self).modifiers,
            final(self).phys_modifiers == old(self).phys_modifiers,
            final(self).tracking_rect == old(self).tracking_rect,
            final(self).traffic_light_inset == old(self).traffic_light_inset,
    {
        self.marked_text = String::new();
    }

    /// The interpreter commits `text`. What may be delivered of it is queued as
    /// one `ReceivedImeText`, and a composition that was under way ends.
    pub fn insert_text(&mut self, queue: &mut EventQueue, text: &str)
        ensures
            final(queue)@.len() == old(queue)@.len() + 1,
            final(queue)@.drop_last() == old(queue)@,
            final(queue)@.last() matches EventWrapper::StaticEvent(
                Event::WindowEvent { window_id, event: WindowEvent::ReceivedImeText(delivered) },
            ) && window_id == old(self).window_id && delivered@ == spec_deliverable_text(text@),
            final(self).is_key_down,
            final(self).in_ime_preedit == false,
            final(self).key_triggered_ime == (old(self).key_triggered_ime || old(self).in_ime_preedit),
            final(self).marked_text == old(self).marked_text,
            final(self).window_id == old(self).window_id,
            final(self).cursor_state == old(self).cursor_state,
            final(self).ime_spot == old(self).ime_spot,
            final(self).modifiers == old(self).modifiers,
            final(self).phys_modifiers == old(self).phys_modifiers,
            final(self).tracking_rect == old(self).tracking_rect,
            final(self).traffic_light_inset == old(self).traffic_light_inset,
    {
        let delivered = deliverable_text(text);
        self.is_key_down = true;
        queue.queue_event(
            EventWrapper::StaticEvent(
                Event::WindowEvent {
                    window_id: self.window_id,
                    event: WindowEvent::ReceivedImeText(delivered),
                },
            ),
        );
        proof {
            assert(queue@.drop_last() =~= old(queue)@);
        }
        if self.in_ime_preedit {
            self.in_ime_preedit = false;
            self.key_triggered_ime = true;
        }
    }
}

/// Text that is not empty takes at least one code unit.
proof fn lemma_utf16_len_positive(text: Seq<char>)
    ensures
        text.len() > 0 ==> spec_utf16_len(text) > 0,
        text.len() == 0 ==> spec_utf16_len(text) == 0,
{
}

} // verus!
