//! Key-event processing and layer resolution for keyboard firmware.
//!
//! The library turns debounced matrix samples into ordered key events,
//! resolves each event through a stack of keymap layers, keeps the live
//! state of every key and builds the HID reports that describe it.

pub mod bits;
pub mod key_defs;
pub mod keyswitch_state;
pub mod key_event;
pub mod event_handler;
pub mod error;
pub mod key_addr_map;
pub mod live_keys;
pub mod layers;
pub mod debounce;
pub mod hid;
pub mod runtime;
pub mod keyscanner;
pub mod usb;
pub mod keymaps;
pub mod mcu;
