use kaleidoscope::error::Error;
use kaleidoscope::event_handler::{EventHandler, EventHandlerError};
use kaleidoscope::key_defs::{Key, KeyAddr, KEY_UNDEFINED};
use kaleidoscope::key_event::{KeyEvent, KeyEventId, KeyEventOps};
use kaleidoscope::keyscanner::{scan_cycle_ticks, AtreusProps, KeyScannerProps};
use kaleidoscope::keyswitch_state::KeyswitchState;
use kaleidoscope::layers::{Keymap, Layer, NUM_KEYS};
use kaleidoscope::mcu::UsbResetDetector;
use kaleidoscope::runtime::Runtime;

#[test]
fn usb_reset_is_a_lost_configuration() {
    let mut d = UsbResetDetector::new();
    assert!(!d.poll_usb_reset(false));
    assert!(!d.poll_usb_reset(true));
    assert!(!d.poll_usb_reset(true));
    assert!(d.poll_usb_reset(false));
    assert!(!d.poll_usb_reset(false));
}

#[test]
fn scan_timer_ticks() {
    assert_eq!(scan_cycle_ticks(AtreusProps::keyscan_interval()), 12000);
    assert_eq!(scan_cycle_ticks(8192), 0);
    assert_eq!(AtreusProps::rows() * AtreusProps::cols(), 48);
}

#[test]
fn next_event_takes_the_next_identity() {
    let template = KeyEvent::new(KeyEventId(0));
    let mut last = KeyEventId(-1);
    let e = template.next_event(&mut last, KeyAddr::create(1, 0), KeyswitchState::from(1));
    assert_eq!(e.id(), KeyEventId(0));
    assert_eq!(last, KeyEventId(0));
    assert_eq!(e.addr(), KeyAddr::create(1, 0));
    assert!(e.state().key_toggled_off());
    assert_eq!(e.key(), Key::from_raw(KEY_UNDEFINED));
}

struct FailingSetup;

impl EventHandler for FailingSetup {
    fn on_setup() -> Result<(), EventHandlerError> {
        Err(EventHandlerError::Error)
    }
}

struct ConsumingLayerChange;

impl EventHandler for ConsumingLayerChange {
    fn on_layer_change() -> Result<(), EventHandlerError> {
        Err(EventHandlerError::EventConsumed)
    }
}

fn keymap() -> Keymap {
    Keymap::new(vec![vec![Key::from_raw(4); NUM_KEYS], vec![Key::from_raw(5); NUM_KEYS]])
}

#[test]
fn setup_hook_error_leaves_live_keys_undefined() {
    let mut rt = Runtime::new(keymap(), 0);
    assert_eq!(rt.setup::<FailingSetup>(), Err(Error::EventError));
    assert_eq!(rt.live_keys().get(KeyAddr::create(0, 0)), Key::from_raw(KEY_UNDEFINED));
}

#[test]
fn layer_change_hook_result_is_returned_after_the_change() {
    let mut layer = Layer::new(keymap());
    assert_eq!(layer.activate::<ConsumingLayerChange>(1), Err(Error::EventConsumed));
    assert_eq!(layer.lookup_on_active_layer(&KeyAddr::create(0, 0)), Key::from_raw(5));
}
