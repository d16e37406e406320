//! The library's error kinds.
use vstd::prelude::*;
use crate::event_handler::EventHandlerError;

verus! {

/// Error kinds of the firmware.
#[derive(Clone, Copy, Debug, PartialEq, Eq, Structural)]
pub enum Error {
    Peripherals,
    USB,
    CPU,
    HID,
    TC1,
    WDT,
    Layer,
    EventConsumed,
    EventAbort,
    EventError,
}

/// The error kind that a hook's result becomes.
pub open spec fn error_of_event(e: EventHandlerError) -> Error {
    match e {
        EventHandlerError::EventConsumed => Error::EventConsumed,
        EventHandlerError::Abort => Error::EventAbort,
        EventHandlerError::Error => Error::EventError,
    }
}

impl Error {
    /// True for the three kinds that hooks produce.
    pub open spec fn is_event_kind(self) -> bool {
        self is EventConsumed || self is EventAbort || self is EventError
    }

    /// A short description of the error.
    pub fn message(&self) -> (r: &'static str)
        ensures
            r@.len() > 0,
    {
        let r = match self {
            Error::Peripherals => "unable to acquire peripherals",
            Error::USB => "USB error",
            Error::HID => "HID error",
            Error::CPU => "CPU error",
            Error::TC1 => "TC1 error",
            Error::WDT => "WDT error",
            Error::Layer => "Layer error",
            Error::EventConsumed => "Event handler consumed the event",
            Error::EventAbort => "Event handler aborted",
            Error::EventError => "Event handler raised an unknown error",
        };
        proof {
            reveal_strlit("unable to acquire peripherals");
            reveal_strlit("USB error");
            reveal_strlit("HID error");
            reveal_strlit("CPU error");
            reveal_strlit("TC1 error");
            reveal_strlit("WDT error");
            reveal_strlit("Layer error");
            reveal_strlit("Event handler consumed the event");
            reveal_strlit("Event handler aborted");
            reveal_strlit("Event handler raised an unknown error");
        }
        r
    }
}

impl From<EventHandlerError> for Error {
    fn from(event: EventHandlerError) -> (r: Error)
        ensures
            r == error_of_event(event),
    {
        match event {
            EventHandlerError::EventConsumed => Error::EventConsumed,
            EventHandlerError::Abort => Error::EventAbort,
            EventHandlerError::Error => Error::EventError,
        }
    }
}

impl vstd::std_specs::convert::FromSpecImpl<EventHandlerError> for Error {
    open spec fn obeys_from_spec() -> bool {
        true
    }

    open spec fn from_spec(event: EventHandlerError) -> Error {
        error_of_event(event)
    }
}

} // verus!
