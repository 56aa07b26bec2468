//! A development overlay that shows one message.

use vstd::prelude::*;
use crate::config::KeyConfig;
use crate::err::UiError;
use crate::event::Key;

verus! {

use crate::app::GlobalMessageQueue;
use crate::components::{CommandInfo, Component, EventState};

pub struct DebugComponent {
    pub msg: String,
    pub visible: bool,
    pub key_config: KeyConfig,
}

impl DebugComponent {
    pub fn new(key_config: KeyConfig, msg: String) -> (r: DebugComponent)
        ensures
            r.msg@ == msg@,
            !r.visible,
            r.key_config == key_config,
    {
        DebugComponent { msg, visible: false, key_config }
    }
}

impl Component for DebugComponent {
    open spec fn inv(&self) -> bool {
        true
    }

    fn commands(&self, _out: &mut Vec<CommandInfo>) {
    }

    /// Only the dismiss key does anything, and only while visible.
    fn event(&mut self, key: Key, _message_queue: &mut GlobalMessageQueue) -> (r: Result<
        EventState,
        UiError,
    >)
        ensures
            old(self).visible && key == old(self).key_config.exit_popup ==> !final(self).visible
                && final(self).msg@.len() == 0 && (r matches Ok(s) && s == EventState::Consumed),
            !(old(self).visible && key == old(self).key_config.exit_popup) ==> *final(self)
                == *old(self) && (r matches Ok(s) && s == EventState::NotConsumed),
    {
        if self.visible {
            if key == self.key_config.exit_popup {
                self.msg = String::new();
                self.visible = false;
                return Ok(EventState::Consumed);
            }
            return Ok(EventState::NotConsumed);
        }
        Ok(EventState::NotConsumed)
    }

    fn is_visible(&self) -> (r: bool)
        ensures
            r == self.visible,
    {
        self.visible
    }

    fn dismiss(&mut self)
        ensures
            !final(self).visible,
            final(self).msg == old(self).msg,
    {
        self.visible = false;
    }
}

} // verus!
