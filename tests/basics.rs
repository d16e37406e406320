use kaleidoscope::bits::{bit_clear, bit_read, bit_set, bit_write};
use kaleidoscope::debounce::Debouncer;
use kaleidoscope::error::Error;
use kaleidoscope::event_handler::EventHandlerError;
use kaleidoscope::hid::{ActiveKeyboard, Keyboardio};
use kaleidoscope::key_addr_map::KeyAddrMap;
use kaleidoscope::key_defs::{Key, KeyAddr, KEY_INACTIVE, KEY_MASKED, KEY_UNDEFINED};
use kaleidoscope::key_event::{KeyEvent, KeyEventId};
use kaleidoscope::keyswitch_state::KeyswitchState;
use kaleidoscope::live_keys::LiveKeys;
use kaleidoscope::usb::{usb_config_power_ma, ConfigDescriptor, DeviceDescriptor, StandardRequest, USBSetup};

#[test]
fn bit_helpers() {
    assert_eq!(bit_read(0b1010, 1), 1);
    assert_eq!(bit_read(0b1010, 2), 0);
    assert_eq!(bit_set(0b1010, 0), 0b1011);
    assert_eq!(bit_clear(0b1010, 3), 0b0010);
    assert_eq!(bit_write(0, 7, 5), 0x80);
    assert_eq!(bit_write(0xff, 7, 0), 0x7f);
}

#[test]
fn keyswitch_state_predicates() {
    let on = KeyswitchState::from(0b10);
    assert!(on.key_toggled_on() && !on.key_toggled_off() && on.key_is_pressed());
    let off = KeyswitchState::from(0b01);
    assert!(off.key_toggled_off() && off.key_was_pressed() && !off.key_is_pressed());
    let held = KeyswitchState::from(0b11);
    assert!(!held.key_toggled_on() && !held.key_toggled_off());
    let injected = KeyswitchState::from(0xfe);
    assert_eq!(injected.0, 0x82);
    assert!(injected.key_is_injected());
    assert_eq!(KeyswitchState::default().0, 0);
}

#[test]
fn event_ids_wrap_and_stay_ordered() {
    let mut last = KeyEventId(126);
    let a = KeyEvent::next(&mut last, KeyAddr::create(0, 0), KeyswitchState::from(2));
    let b = KeyEvent::next(&mut last, KeyAddr::create(0, 1), KeyswitchState::from(2));
    assert_eq!(a.id(), KeyEventId(127));
    assert_eq!(b.id(), KeyEventId(-128));
    assert!(b.id().is_later_than(&a.id()));
    assert!(!a.id().is_later_than(&b.id()));
    assert_eq!(last, b.id());
    assert_eq!(a.key(), Key::from_raw(KEY_UNDEFINED));
    let mut seen = std::collections::HashSet::new();
    let mut id = KeyEventId::default();
    for _ in 0..256 {
        id = id.next();
        assert!(seen.insert(id.0));
    }
}

#[test]
fn fresh_event_has_no_address() {
    let e = KeyEvent::new(KeyEventId(5));
    assert!(!e.addr().is_valid());
    assert_eq!(e.id(), KeyEventId(5));
    assert_eq!(e.last_id(), KeyEventId(0));
    let mut e = e;
    e.set_key(Key::from_raw(0x04));
    assert_eq!(e.key().raw(), 0x04);
}

#[test]
fn debounce_needs_four_passes_from_rest() {
    let mut db = Debouncer::new();
    assert_eq!(db.debounce(1), 0);
    assert_eq!(db.debounce(1), 0);
    assert_eq!(db.debounce(1), 0);
    assert_eq!(db.debounce(1), 1);
    assert_eq!(db.debounced_state, 1);
    assert_eq!(db.debounce(1), 0);
    assert_eq!(db.debounced_state, 1);
}

#[test]
fn debounce_held_twice_after_counting_settles() {
    let mut db = Debouncer { db0: 1, db1: 1, debounced_state: 0 };
    db.debounce(1);
    assert_eq!(db.debounce(1), 0);
    assert_eq!(db.debounced_state, 1);
}

#[test]
fn debounce_ignores_a_single_glitch() {
    let mut db = Debouncer::new();
    assert_eq!(db.debounce(0b100), 0);
    assert_eq!(db.debounce(0), 0);
    assert_eq!(db.debounced_state, 0);
    assert_eq!(db.db0, 0);
    assert_eq!(db.db1, 0);
}

#[test]
fn live_keys_entries() {
    let mut live = LiveKeys::new();
    let a = KeyAddr::create(3, 11);
    assert_eq!(live.get(a), Key::from_raw(KEY_UNDEFINED));
    live.activate(a, Key::from_raw(0x04));
    assert_eq!(live.get(a), Key::from_raw(0x04));
    live.mask(a);
    assert_eq!(live.get(a), Key::from_raw(KEY_MASKED));
    live.clear(a);
    assert_eq!(live.get(a), Key::from_raw(KEY_INACTIVE));
    // Out of range: the dummy cell.
    assert_eq!(live.get(KeyAddr::none()), Key::from_raw(KEY_MASKED));
    live.activate(KeyAddr::none(), Key::from_raw(0x04));
    assert_eq!(live.get(KeyAddr::none()), Key::from_raw(KEY_MASKED));
    live.set(KeyAddr::none(), Key::from_raw(0x05));
    assert_eq!(live.get(KeyAddr::none()), Key::from_raw(0x05));
    live.clear_all();
    let mut it = live.iter();
    let mut n = 0;
    while let Some(k) = it.next() {
        assert_eq!(k, Key::from_raw(KEY_INACTIVE));
        n += 1;
    }
    assert_eq!(n, 48);
    let mut cursor = live.iter_mut();
    assert!(cursor.set_next(Key::from_raw(0x07)));
    assert_eq!(live.get(KeyAddr::new(0)), Key::from_raw(0x07));
}

#[test]
fn key_addr_map_len_and_cursor() {
    assert_eq!(KeyAddrMap::<3>::len(), 3);
    let mut map = KeyAddrMap::<2>::new();
    let mut cursor = map.iter_mut();
    assert!(cursor.set_next(Key::from_raw(1)));
    assert!(cursor.set_next(Key::from_raw(2)));
    assert!(!cursor.set_next(Key::from_raw(3)));
    assert_eq!(map.get(KeyAddr::new(1)), Key::from_raw(2));
}

#[test]
fn key_categories() {
    assert!(Key::from_raw(0x04).is_keyboard_key());
    assert!(Key::from_raw(0xe1).is_keyboard_modifier());
    assert!(Key::from_raw(0x442b).is_layer_key());
    assert!(Key::from_raw(0x4611).is_mod_layer_key());
    assert!(Key::from_raw(0x4181).is_system_control_key());
    assert!(Key::from_raw(0x48e9).is_consumer_control_key());
    assert!(!Key::from_raw(0x48e9).is_system_control_key());
    assert_eq!(Key::from_raw(0x49cd).consumer(), 0x1cd);
    assert_eq!(Key::default(), Key::from_raw(KEY_UNDEFINED));
    assert_eq!(KeyAddr::create(2, 3).index(), 27);
    assert_eq!(KeyAddr::create(2, 3).row(), 2);
    assert_eq!(KeyAddr::create(2, 3).col(), 3);
}

#[test]
fn hid_modifiers_and_consumer() {
    let mut hid = Keyboardio::new(ActiveKeyboard::NKRO);
    hid.press_key(Key::from_raw(0x0b04));
    assert!(hid.is_key_pressed(&Key::from_raw(0x04)));
    assert!(hid.is_key_pressed(&Key::from_raw(0xe0)));
    assert!(hid.is_key_pressed(&Key::from_raw(0xe1)));
    assert!(hid.is_key_pressed(&Key::from_raw(0xe2)));
    hid.clear_modifiers();
    assert!(!hid.is_key_pressed(&Key::from_raw(0xe1)));
    assert!(hid.is_key_pressed(&Key::from_raw(0x04)));
    hid.release_key(Key::from_raw(0x04));
    assert!(!hid.is_key_pressed(&Key::from_raw(0x04)));
    hid.set_active_keyboard(ActiveKeyboard::Media);
    hid.press_consumer_control(Key::from_raw(0x48e9));
    assert!(hid.is_key_pressed(&Key::from_raw(0xe9)));
    hid.release_consumer_control(Key::from_raw(0x48e9));
    assert!(!hid.is_key_pressed(&Key::from_raw(0xe9)));
    hid.set_active_keyboard(ActiveKeyboard::Disabled);
    hid.send_report().unwrap();
    assert_eq!(hid.sent_count(), 0);
}

#[test]
fn hid_system_control_release_needs_the_last_key() {
    let mut hid = Keyboardio::new(ActiveKeyboard::Boot);
    hid.press_system_control(Key::from_raw(0x4181));
    assert_eq!(hid.last_system_control_keycode(), 0x81);
    hid.release_system_control(Key::from_raw(0x4182));
    assert_eq!(hid.sent_count(), 1);
    hid.release_system_control(Key::from_raw(0x4181));
    assert_eq!(hid.sent_count(), 2);
    let reports = hid.take_sent();
    assert!(reports[0].keys[0x81]);
    assert!(!reports[1].keys[0x81]);
}

#[test]
fn error_kinds() {
    assert_eq!(Error::from(EventHandlerError::EventConsumed), Error::EventConsumed);
    assert_eq!(Error::from(EventHandlerError::Abort), Error::EventAbort);
    assert_eq!(Error::from(EventHandlerError::Error), Error::EventError);
    assert_eq!(Error::Layer.message(), "Layer error");
    assert_eq!(Error::USB.message(), "USB error");
}

#[test]
fn usb_setup_fields() {
    let s = USBSetup::from_array([0x80, 6, 0x00, 0x01, 0x09, 0x04, 0x12, 0x00]);
    assert_eq!(s.request_type(), 0x80);
    assert_eq!(StandardRequest::from(s.request()), StandardRequest::GetDescriptor);
    assert_eq!(s.value(), 0x0100);
    assert_eq!(s.value_l(), 0);
    assert_eq!(s.value_h(), 1);
    assert_eq!(s.index(), 0x0409);
    assert_eq!(s.length(), 0x12);
    let short = USBSetup::from_bytes(&[1, 2, 3]);
    assert_eq!(short.as_bytes(), &[1, 2, 3, 0, 0, 0, 0, 0]);
    assert_eq!(USBSetup::new().as_bytes(), &[0u8; 8]);
    assert_eq!(StandardRequest::from(2), StandardRequest::Unknown);
    assert_eq!(StandardRequest::SetInterface.code(), 11);
}

#[test]
fn usb_descriptors() {
    assert_eq!(usb_config_power_ma(500), 250);
    let c = ConfigDescriptor::new(0x0123, 2);
    assert_eq!(c.as_bytes(), &[9, 2, 0x23, 0x01, 2, 1, 0, 0xa0, 250]);
    assert_eq!(c.clen(), 0x0123);
    assert_eq!(c.max_power(), 250);
    let d = DeviceDescriptor::new(0xef, 2, 1, 64, 0x1209, 0x2303, 0x0100, 1, 2, 3, 1);
    assert_eq!(d.len(), 18);
    assert_eq!(d.usb_version(), 0x200);
    assert_eq!(d.id_vendor(), 0x1209);
    assert_eq!(d.id_product(), 0x2303);
    assert_eq!(d.device_version(), 0x0100);
    assert_eq!(d.as_bytes()[8], 0x09);
    assert_eq!(d.num_configurations(), 1);
}
