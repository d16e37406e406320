//! The hook interface through which plugins observe and steer events.
use vstd::prelude::*;
use crate::key_defs::Key;
use crate::key_event::KeyEvent;

verus! {

/// What a hook returns instead of `Ok(())`.
#[derive(Clone, Copy, Debug, PartialEq, Eq, Structural)]
pub enum EventHandlerError {
    /// Stop calling further handlers; the event counts as handled.
    EventConsumed,
    /// Stop calling further handlers; the event counts as not having happened.
    Abort,
    /// Stop calling further handlers; unspecified failure.
    Error,
}

/// The hook chain of the firmware.
///
/// Each method stands for all plugins' handlers called in order; the first
/// one that does not return `Ok(())` ends the chain with its result. Every
/// method has a default that accepts the event, so a plugin set implements
/// only the hooks it uses.
pub trait EventHandler {
    /// Called once at setup.
    fn on_setup() -> Result<(), EventHandlerError> {
        Ok(())
    }

    /// Called at the start of each cycle.
    fn before_each_cycle() -> Result<(), EventHandlerError> {
        Ok(())
    }

    /// Called for every physical keyswitch event; may rewrite its key.
    fn on_keyswitch_event(event: &mut KeyEvent) -> Result<(), EventHandlerError> {
        Ok(())
    }

    /// Called for every logical key event; may rewrite its key.
    fn on_key_event(event: &mut KeyEvent) -> Result<(), EventHandlerError> {
        Ok(())
    }

    /// Called before a key is added to the report being built.
    fn on_add_to_report(key: Key) -> Result<(), EventHandlerError> {
        Ok(())
    }

    /// Called with a command of the host-side configuration protocol.
    fn on_focus_event(input: &str) -> Result<(), EventHandlerError> {
        Ok(())
    }

    /// Called after the active-layer stack changed.
    fn on_layer_change() -> Result<(), EventHandlerError> {
        Ok(())
    }

    /// Called before the reports of an event are sent.
    fn before_reporting_state(event: &KeyEvent) -> Result<(), EventHandlerError> {
        Ok(())
    }

    /// Called after the reports of an event were sent.
    fn after_reporting_state(event: &KeyEvent) -> Result<(), EventHandlerError> {
        Ok(())
    }

    /// Called at the end of each cycle.
    fn after_each_cycle() -> Result<(), EventHandlerError> {
        Ok(())
    }
}

/// The empty plugin set: every hook accepts.
pub struct NoHooks;

impl EventHandler for NoHooks {

}

} // verus!
