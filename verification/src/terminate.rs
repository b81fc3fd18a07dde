//! The confirmation of a process termination: a selected process id, and
//! the keys that confirm or deny.

use vstd::prelude::*;
use crate::key::{EventState, Key};

verus! {

/// An answer to the confirmation.
#[derive(Debug, Clone, Copy, PartialEq, Eq, Structural)]
pub enum Event {
    Confirm,
    Deny,
}

/// The process id to terminate, if one is selected.
#[derive(Debug, Default, Clone, Copy)]
pub struct Model {
    pid: Option<u32>,
}

impl Model {
    pub closed spec fn pid_view(&self) -> Option<u32> {
        self.pid
    }

    /// A confirmation gives the selected process id; a denial, or a
    /// confirmation without one, is just used.
    pub fn event(&self, event: Event) -> (r: EventState)
        ensures
            r == match (event, self.pid_view()) {
                (Event::Confirm, Some(pid)) => EventState::ReturnPID(pid),
                _ => EventState::Consumed,
            },
    {
        match event {
            Event::Confirm => {
                if let Some(pid) = self.pid {
                    EventState::ReturnPID(pid)
                } else {
                    EventState::Consumed
                }
            },
            Event::Deny => EventState::Consumed,
        }
    }

    pub fn set(&mut self, pid: Option<u32>)
        ensures
            final(self).pid_view() == pid,
    {
        self.pid = pid;
    }

    pub fn get(&self) -> (r: Option<u32>)
        ensures
            r == self.pid_view(),
    {
        self.pid
    }
}

/// Maps keys to answers: `y` confirms, `n` denies.
#[derive(Debug, Default, Clone, Copy)]
pub struct Controller;

impl Controller {
    pub fn key_event(&self, key: Key) -> (r: Option<Event>)
        ensures
            r == match key {
                Key::Char('y') => Some(Event::Confirm),
                Key::Char('n') => Some(Event::Deny),
                _ => None,
            },
    {
        match key {
            Key::Char('y') => Some(Event::Confirm),
            Key::Char('n') => Some(Event::Deny),
            _ => None,
        }
    }
}

/// The confirmation with its keys.
#[derive(Debug, Default)]
pub struct Component {
    model: Model,
    controller: Controller,
}

impl Component {
    pub closed spec fn pid_view(&self) -> Option<u32> {
        self.model.pid_view()
    }

    /// `y` gives the selected process id (or is just used without one), `n`
    /// is used, and other keys are not.
    pub fn event(&self, key: Key) -> (r: EventState)
        ensures
            r == match (key, self.pid_view()) {
                (Key::Char('y'), Some(pid)) => EventState::ReturnPID(pid),
                (Key::Char('y'), None) => EventState::Consumed,
                (Key::Char('n'), _) => EventState::Consumed,
                _ => EventState::NotConsumed,
            },
    {
        if let Some(event) = self.controller.key_event(key) {
            self.model.event(event)
        } else {
            EventState::NotConsumed
        }
    }

    pub fn set(&mut self, pid: Option<u32>)
        ensures
            final(self).pid_view() == pid,
    {
        self.model.set(pid);
    }

    pub fn get(&self) -> (r: Option<u32>)
        ensures
            r == self.pid_view(),
    {
        self.model.get()
    }
}

} // verus!
