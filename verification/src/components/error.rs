//! The modal error overlay.  While visible it swallows every key; the
//! configured dismiss key clears it.

use vstd::prelude::*;
use crate::config::KeyConfig;
use crate::err::UiError;
use crate::event::Key;

verus! {

use crate::app::GlobalMessageQueue;
use crate::components::{CommandInfo, Component, EventState};

pub struct ErrorComponent {
    pub error: String,
    pub visible: bool,
    pub key_config: KeyConfig,
}

impl ErrorComponent {
    pub fn new(key_config: KeyConfig) -> (r: ErrorComponent)
        ensures
            r.error@.len() == 0,
            !r.visible,
            r.key_config == key_config,
    {
        ErrorComponent { error: String::new(), visible: false, key_config }
    }

    /// Shows the overlay with this message.
    pub fn set(&mut self, error: String) -> (r: Result<(), UiError>)
        ensures
            final(self).error@ == error@,
            final(self).visible,
            final(self).key_config == old(self).key_config,
            r is Ok,
    {
        self.error = error;
        self.visible = true;
        Ok(())
    }
}

impl Component for ErrorComponent {
    open spec fn inv(&self) -> bool {
        true
    }

    fn commands(&self, _out: &mut Vec<CommandInfo>) {
    }

    /// A visible overlay consumes every key; the dismiss key also clears it.
    /// Hidden, it consumes nothing.
    fn event(&mut self, key: Key, _message_queue: &mut GlobalMessageQueue) -> (r: Result<
        EventState,
        UiError,
    >)
        ensures
            final(_message_queue).event_queue == old(_message_queue).event_queue,
            final(self).key_config == old(self).key_config,
            !old(self).visible ==> *final(self) == *old(self) && (r matches Ok(s) && s
                == EventState::NotConsumed),
            old(self).visible && key == old(self).key_config.exit_popup ==> !final(self).visible
                && final(self).error@.len() == 0 && (r matches Ok(s) && s
                == EventState::Consumed),
            old(self).visible && key != old(self).key_config.exit_popup ==> *final(self) == *old(
                self,
            ) && (r matches Ok(s) && s == EventState::Consumed),
    {
        if self.visible {
            if key == self.key_config.exit_popup {
                self.error = String::new();
                self.visible = false;
                return Ok(EventState::Consumed);
            }
            return Ok(EventState::Consumed);
        }
        Ok(EventState::NotConsumed)
    }

    fn is_visible(&self) -> (r: bool)
        ensures
            r == self.visible,
    {
        self.visible
    }

    fn dismiss(&mut self)
        ensures
            !final(self).visible,
            final(self).error == old(self).error,
            final(self).key_config == old(self).key_config,
    {
        self.visible = false;
    }

    fn show(&mut self) -> (r: Result<(), UiError>)
        ensures
            final(self).visible,
            final(self).error == old(self).error,
            final(self).key_config == old(self).key_config,
            r is Ok,
    {
        self.visible = true;
        Ok(())
    }
}

} // verus!
