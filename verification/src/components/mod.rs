//! The widget set: shared contract, event outcome, and display-width
//! helpers used to place the cursor.

use vstd::prelude::*;
use crate::app::GlobalMessageQueue;
use crate::err::UiError;
use crate::event::Key;

pub mod completion;
pub mod databases;
pub mod debug;
pub mod error;
pub mod tab;
pub mod properties;
pub mod record_table;
pub mod sql_editor;
pub mod table;
pub mod table_filter;
pub mod table_status;
pub mod table_value;

verus! {

/// Whether a component handled a key.
#[derive(Debug, Clone, Copy, PartialEq, Eq, Structural)]
pub enum EventState {
    Consumed,
    NotConsumed,
}

impl EventState {
    pub fn is_consumed(&self) -> (r: bool)
        ensures
            r == (*self == EventState::Consumed),
    {
        matches!(self, EventState::Consumed)
    }
}

impl From<bool> for EventState {
    fn from(consumed: bool) -> (r: EventState)
        ensures
            r == (if consumed {
                EventState::Consumed
            } else {
                EventState::NotConsumed
            }),
    {
        if consumed {
            EventState::Consumed
        } else {
            EventState::NotConsumed
        }
    }
}

impl vstd::std_specs::convert::FromSpecImpl<bool> for EventState {
    open spec fn obeys_from_spec() -> bool {
        true
    }

    open spec fn from_spec(consumed: bool) -> EventState {
        if consumed {
            EventState::Consumed
        } else {
            EventState::NotConsumed
        }
    }
}

/// One line of the help overlay.
#[derive(Debug)]
pub struct CommandInfo {
    pub group: String,
    pub name: String,
}

impl CommandInfo {
    pub fn new(group: String, name: String) -> (r: CommandInfo)
        ensures
            r.group@ == group@,
            r.name@ == name@,
    {
        CommandInfo { group, name }
    }
}

/// The contract every widget obeys: its invariant survives each key event
/// and each reset.
pub trait Component {
    /// The widget's well-formedness invariant.
    spec fn inv(&self) -> bool;

    /// Appends the widget's command descriptions for the help overlay.
    fn commands(&self, out: &mut Vec<CommandInfo>);

    /// Handles one key; may enqueue broadcast messages.
    fn event(&mut self, key: Key, message_queue: &mut GlobalMessageQueue) -> (r: Result<
        EventState,
        UiError,
    >)
        requires
            old(self).inv(),
        ensures
            final(self).inv(),
    ;

    /// Returns the widget to a freshly-built state.
    fn reset(&mut self)
        requires
            old(self).inv(),
        ensures
            final(self).inv(),
    {
    }

    fn is_visible(&self) -> bool {
        true
    }

    fn dismiss(&mut self)
        requires
            old(self).inv(),
        ensures
            final(self).inv(),
    {
    }

    fn show(&mut self) -> (r: Result<(), UiError>)
        requires
            old(self).inv(),
        ensures
            final(self).inv(),
    {
        Ok(())
    }
}

/// How many columns a character occupies on screen.  The exact table is the
/// Unicode width data; see `compute_character_width` for what is pinned down.
pub uninterp spec fn char_width(c: char) -> usize;

/// Relies on `unicode_width::UnicodeWidthChar::width`: the displayed width
/// of a character in columns, `None` for control characters (rendered 0
/// here).  Printable ASCII is one column wide; ASCII control characters are
/// zero.
#[verifier::external_body]
pub fn compute_character_width(c: &char) -> (r: usize)
    ensures
        r == char_width(*c),
        (0x20 <= (*c as u32) && (*c as u32) < 0x7f) ==> r == 1,
        (*c as u32) < 0x20 ==> r == 0,
{
    unicode_width::UnicodeWidthChar::width(*c).unwrap_or(0)
}

/// Sum of the display widths of `s`, as an unbounded integer.
pub open spec fn width_sum(s: Seq<char>) -> int
    decreases s.len(),
{
    if s.len() == 0 {
        0
    } else {
        width_sum(s.drop_last()) + char_width(s.last())
    }
}

/// Display width of the first `upto` characters, clamped to `u16::MAX`:
/// a cursor column never overflows the terminal coordinate space.
pub fn display_width_upto(chars: &Vec<char>, upto: usize) -> (r: u16)
    requires
        upto <= chars@.len(),
    ensures
        r == if width_sum(chars@.subrange(0, upto as int)) < u16::MAX as int {
            width_sum(chars@.subrange(0, upto as int))
        } else {
            u16::MAX as int
        },
{
    let mut acc: usize = 0;
    let mut i: usize = 0;
    while i < upto
        invariant
            upto <= chars@.len(),
            i <= upto,
            acc == if width_sum(chars@.subrange(0, i as int)) < u16::MAX as int {
                width_sum(chars@.subrange(0, i as int))
            } else {
                u16::MAX as int
            },
            acc <= u16::MAX,
        decreases upto - i,
    {
        let w = compute_character_width(&chars[i]);
        if w >= u16::MAX as usize - acc {
            acc = u16::MAX as usize;
        } else {
            acc = acc + w;
        }
        i = i + 1;
        proof {
            assert(chars@.subrange(0, i as int).drop_last() =~= chars@.subrange(0, i - 1));
            assert(chars@.subrange(0, i as int).last() == chars@[i - 1]);
        }
    }
    acc as u16
}

} // verus!
