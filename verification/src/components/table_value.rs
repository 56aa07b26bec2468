//! The strip above the grid that shows the selected cell's full value.

use vstd::prelude::*;
use crate::err::UiError;
use crate::event::Key;

verus! {

use crate::app::GlobalMessageQueue;
use crate::components::{CommandInfo, Component, EventState};

pub struct TableValueComponent {
    pub value: String,
}

impl TableValueComponent {
    pub fn new(value: String) -> (r: TableValueComponent)
        ensures
            r.value@ == value@,
    {
        TableValueComponent { value }
    }
}

impl Component for TableValueComponent {
    open spec fn inv(&self) -> bool {
        true
    }

    fn commands(&self, _out: &mut Vec<CommandInfo>) {
    }

    /// The strip is passive: scrolling it is not offered yet, so no key is
    /// consumed.
    fn event(&mut self, _key: Key, _message_queue: &mut GlobalMessageQueue) -> (r: Result<
        EventState,
        UiError,
    >)
        ensures
            *final(self) == *old(self),
            r matches Ok(s) && s == EventState::NotConsumed,
    {
        Ok(EventState::NotConsumed)
    }
}

} // verus!
