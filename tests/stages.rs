use kaleidoscope::error::Error;
use kaleidoscope::event_handler::{EventHandlerError, NoHooks};
use kaleidoscope::hid::HidReport;
use kaleidoscope::key_defs::{shift_to_layer, Key, KeyAddr, KEY_INACTIVE, KEY_MASKED, KEY_NO_KEY, KEY_UNDEFINED};
use kaleidoscope::key_event::{KeyEvent, KeyEventId};
use kaleidoscope::keyscanner::Atmega;
use kaleidoscope::keyswitch_state::KeyswitchState;
use kaleidoscope::layers::{Keymap, Layer, NUM_KEYS};
use kaleidoscope::live_keys::LiveKeys;
use kaleidoscope::runtime::Runtime;

const KEY_A: u16 = 0x04;
const KEY_B: u16 = 0x05;

fn runtime_with(entries: &[(KeyAddr, u16)]) -> Runtime {
    let mut base = vec![Key::from_raw(0); NUM_KEYS];
    for (addr, raw) in entries {
        base[addr.index()] = Key::from_raw(*raw);
    }
    let mut rt = Runtime::new(Keymap::new(vec![base, vec![Key::from_raw(0x1e); NUM_KEYS]]), 0);
    rt.setup::<NoHooks>().unwrap();
    rt
}

fn event(addr: KeyAddr, was: bool, is: bool, key: Key) -> KeyEvent {
    let mut e = KeyEvent::new(KeyEventId::default());
    e.addr = addr;
    e.state = KeyswitchState::new(was, is, false);
    e.key = key;
    e
}

fn sent(rt: &mut Runtime) -> Vec<HidReport> {
    rt.hid_mut().take_sent()
}

#[test]
fn build_report_skips_vetoed_and_own_address() {
    let a = KeyAddr::create(0, 0);
    let b = KeyAddr::create(0, 1);
    let c = KeyAddr::create(0, 2);
    let mut rt = runtime_with(&[]);
    rt.live_keys_mut().activate(a, Key::from_raw(KEY_A));
    rt.live_keys_mut().activate(b, Key::from_raw(KEY_B));
    rt.live_keys_mut().activate(c, Key::from_raw(0x06));
    let mut hooks = vec![Ok(()); 48];
    hooks[b.index()] = Err(EventHandlerError::Abort);
    hooks[a.index()] = Err(EventHandlerError::Error);
    rt.build_keyboard_report(&event(c, false, true, Key::from_raw(0x06)), &hooks);
    rt.hid_mut().send_report().unwrap();
    let reports = sent(&mut rt);
    assert!(reports[0].keys[KEY_A as usize]);
    assert!(!reports[0].keys[KEY_B as usize]);
    assert!(!reports[0].keys[0x06]);
}

#[test]
fn add_to_report_with_follows_the_hook() {
    let mut rt = runtime_with(&[]);
    rt.add_to_report_with(Key::from_raw(0x0804), Err(EventHandlerError::Abort));
    assert!(!rt.hid().is_key_pressed(&Key::from_raw(KEY_A)));
    rt.add_to_report_with(Key::from_raw(0x0804), Ok(()));
    assert!(rt.hid().is_key_pressed(&Key::from_raw(KEY_A)));
    // Flags of a plain key are stripped.
    assert!(!rt.hid().is_key_pressed(&Key::from_raw(0xe1)));
    // A mod-layer key stands for its modifier (index 1: left shift).
    rt.add_to_report_with(Key::from_raw(0x4611), Ok(()));
    assert!(rt.hid().is_key_pressed(&Key::from_raw(0xe1)));
}

#[test]
fn send_with_pre_report_abort_sends_nothing_final() {
    let a = KeyAddr::create(0, 0);
    let mut rt = runtime_with(&[]);
    rt.send_keyboard_report_with(
        &event(a, false, true, Key::from_raw(KEY_A)),
        Ok(()),
        Err(EventHandlerError::Abort),
    );
    assert_eq!(rt.hid().sent_count(), 0);
    assert!(rt.hid().is_key_pressed(&Key::from_raw(KEY_A)));
    assert_eq!(rt.last_addr_toggled_on(), a);
}

#[test]
fn send_with_rollover_ends_with_key_and_shift() {
    let a = KeyAddr::create(0, 0);
    let mut rt = runtime_with(&[]);
    rt.add_to_report_with(Key::from_raw(KEY_A), Ok(()));
    rt.send_keyboard_report_with(&event(a, false, true, Key::from_raw(0x0804)), Ok(()), Ok(()));
    let reports = sent(&mut rt);
    assert_eq!(reports.len(), 3);
    assert!(!reports[0].keys[KEY_A as usize]);
    let last = &reports[2];
    assert!(last.keys[KEY_A as usize] && last.keys[0xe1]);
}

#[test]
fn keys_handed_to_the_hooks() {
    let a = KeyAddr::create(1, 1);
    let mut rt = runtime_with(&[(a, KEY_A)]);
    let press = event(a, false, true, Key::from_raw(KEY_UNDEFINED));
    assert_eq!(rt.keyswitch_event_key(&press), Key::from_raw(KEY_A));
    let preset = event(a, false, true, Key::from_raw(KEY_B));
    assert_eq!(rt.keyswitch_event_key(&preset), Key::from_raw(KEY_B));
    assert_eq!(rt.key_event_key(&preset), Key::from_raw(KEY_B));
    rt.live_keys_mut().activate(a, Key::from_raw(KEY_B));
    let release = event(a, true, false, Key::from_raw(KEY_UNDEFINED));
    assert_eq!(rt.keyswitch_event_key(&release), Key::from_raw(KEY_B));
    assert_eq!(rt.key_event_key(&release), Key::from_raw(KEY_B));
    let synthetic = event(KeyAddr::none(), false, true, Key::from_raw(KEY_UNDEFINED));
    assert_eq!(rt.key_event_key(&synthetic), Key::from_raw(KEY_UNDEFINED));
}

#[test]
fn lookup_key_out_of_range_reads_the_dummy() {
    let mut rt = runtime_with(&[]);
    assert_eq!(rt.lookup_key(&KeyAddr::none()), Key::from_raw(KEY_MASKED));
    rt.live_keys_mut().set(KeyAddr::none(), Key::from_raw(0xffff));
    assert_eq!(rt.lookup_key(&KeyAddr::none()), Key::from_raw(KEY_NO_KEY));
}

#[test]
fn apply_writes_the_live_entry_whatever_the_hook_error() {
    let a = KeyAddr::create(2, 2);
    let mut rt = runtime_with(&[]);
    rt.apply_key_event::<NoHooks>(&event(a, false, true, Key::from_raw(KEY_A)), Err(EventHandlerError::Error));
    assert_eq!(rt.live_keys().get(a), Key::from_raw(KEY_A));
    assert_eq!(rt.hid().sent_count(), 0);
    rt.apply_key_event::<NoHooks>(&event(a, true, false, Key::from_raw(KEY_A)), Err(EventHandlerError::Abort));
    assert_eq!(rt.live_keys().get(a), Key::from_raw(KEY_A));
    rt.apply_key_event::<NoHooks>(&event(a, true, false, Key::from_raw(KEY_A)), Ok(()));
    assert_eq!(rt.live_keys().get(a), Key::from_raw(KEY_INACTIVE));
    assert_eq!(rt.hid().sent_count(), 1);
}

#[test]
fn releasing_an_absent_shift_layer_is_a_layer_error() {
    let km = Keymap::new(vec![vec![Key::from_raw(4); NUM_KEYS], vec![Key::from_raw(5); NUM_KEYS]]);
    let mut layer = Layer::new(km);
    let mut live = LiveKeys::new();
    let addr = KeyAddr::create(0, 0);
    let r = layer.handle_layer_key_event::<NoHooks>(&mut live, event(addr, true, false, shift_to_layer(1)));
    assert_eq!(r, Err(Error::Layer));
    let r = layer.handle_layer_key_event::<NoHooks>(&mut live, event(addr, false, true, shift_to_layer(1)));
    assert_eq!(r, Ok(()));
    // Pressing it again while held changes nothing.
    let r = layer.handle_layer_key_event::<NoHooks>(&mut live, event(addr, false, true, shift_to_layer(1)));
    assert_eq!(r, Ok(()));
    assert!(layer.deactivate::<NoHooks>(1 + 42).is_ok());
    assert_eq!(layer.deactivate::<NoHooks>(1 + 42), Err(Error::Layer));
}

#[test]
fn transitions_are_listed_in_address_order() {
    let mut scanner = Atmega::new();
    let samples = vec![0b101u16, 0, 0, 0b1000_0000_0000];
    for _ in 0..4 {
        scanner.read_matrix(&samples);
    }
    let t = scanner.matrix_transitions();
    assert_eq!(t.len(), 3);
    assert_eq!(t[0], (KeyAddr::create(0, 0), KeyswitchState::new(false, true, false)));
    assert_eq!(t[1], (KeyAddr::create(0, 2), KeyswitchState::new(false, true, false)));
    assert_eq!(t[2], (KeyAddr::create(3, 11), KeyswitchState::new(false, true, false)));
}

#[test]
fn keyswitch_hook_error_ends_the_event() {
    let a = KeyAddr::create(1, 0);
    let mut rt = runtime_with(&[(a, KEY_A)]);
    let mut e = event(a, false, true, Key::from_raw(KEY_A));
    let r = rt.continue_keyswitch_event::<NoHooks>(&mut e, Err(EventHandlerError::EventConsumed));
    assert_eq!(r, Err(EventHandlerError::EventConsumed));
    assert_eq!(rt.live_keys().get(a), Key::from_raw(KEY_INACTIVE));
    assert_eq!(rt.hid().sent_count(), 0);
    let r = rt.continue_keyswitch_event::<NoHooks>(&mut e, Ok(()));
    assert_eq!(r, Ok(()));
    assert_eq!(rt.live_keys().get(a), Key::from_raw(KEY_A));
    assert_eq!(rt.hid().sent_count(), 1);
}

#[test]
fn release_of_an_inactive_mapped_key_keeps_live_keys() {
    let a = KeyAddr::create(1, 0);
    let b = KeyAddr::create(1, 1);
    let mut rt = runtime_with(&[(a, KEY_A), (b, KEY_B)]);
    rt.live_keys_mut().activate(b, Key::from_raw(KEY_B));
    let mut e = event(a, true, false, Key::from_raw(KEY_UNDEFINED));
    let r = rt.handle_key_event::<NoHooks>(&mut e);
    assert_eq!(r, Ok(()));
    assert_eq!(rt.live_keys().get(a), Key::from_raw(KEY_INACTIVE));
    assert_eq!(rt.live_keys().get(b), Key::from_raw(KEY_B));
}
