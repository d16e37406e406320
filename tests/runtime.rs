use kaleidoscope::event_handler::{EventHandler, EventHandlerError, NoHooks};
use kaleidoscope::hid::{ActiveKeyboard, HidReport};
use kaleidoscope::key_defs::{Key, KeyAddr, KEY_INACTIVE, KEY_MASKED};
use kaleidoscope::key_event::KeyEvent;
use kaleidoscope::keyscanner::Atmega;
use kaleidoscope::keyswitch_state::KeyswitchState;
use kaleidoscope::layers::{Keymap, NUM_KEYS};
use kaleidoscope::runtime::Runtime;

const KEY_A: u16 = 0x04;
const SHIFTED_A: u16 = 0x0804;
const KEYCODE_LEFT_SHIFT: usize = 0xe1;

fn runtime_with(entries: &[(KeyAddr, u16)]) -> Runtime {
    let mut base = vec![Key::from_raw(0); NUM_KEYS];
    for (addr, raw) in entries {
        base[addr.index()] = Key::from_raw(*raw);
    }
    let mut rt = Runtime::new(Keymap::new(vec![base, vec![Key::from_raw(0x1e); NUM_KEYS]]), 0);
    rt.setup::<NoHooks>().unwrap();
    rt
}

fn pressed() -> KeyswitchState {
    KeyswitchState::new(false, true, false)
}

fn released() -> KeyswitchState {
    KeyswitchState::new(true, false, false)
}

fn switch(rt: &mut Runtime, addr: KeyAddr, state: KeyswitchState) {
    let event = rt.next_event(addr, state);
    rt.handle_keyswitch_event::<NoHooks>(event);
}

fn sent(rt: &mut Runtime) -> Vec<HidReport> {
    rt.hid_mut().take_sent()
}

#[test]
fn press_and_release_send_reports() {
    let a = KeyAddr::create(0, 0);
    let mut rt = runtime_with(&[(a, KEY_A)]);
    switch(&mut rt, a, pressed());
    assert_eq!(rt.live_keys().get(a), Key::from_raw(KEY_A));
    let reports = sent(&mut rt);
    assert_eq!(reports.len(), 1);
    assert_eq!(reports[0].kind, ActiveKeyboard::Boot);
    assert!(reports[0].keys[KEY_A as usize]);
    assert_eq!(rt.last_addr_toggled_on(), a);
    switch(&mut rt, a, released());
    assert_eq!(rt.live_keys().get(a), Key::from_raw(KEY_INACTIVE));
    let reports = sent(&mut rt);
    assert_eq!(reports.len(), 1);
    assert!(!reports[0].keys[KEY_A as usize]);
}

#[test]
fn same_keycode_with_shift_sends_a_release_report_first() {
    let plain = KeyAddr::create(0, 0);
    let shifted = KeyAddr::create(0, 1);
    let mut rt = runtime_with(&[(plain, KEY_A), (shifted, SHIFTED_A)]);
    switch(&mut rt, plain, pressed());
    sent(&mut rt);
    switch(&mut rt, shifted, pressed());
    let reports = sent(&mut rt);
    assert!(reports.len() >= 2);
    // The first report releases the keycode; shift comes before it is
    // pressed again.
    assert!(!reports[0].keys[KEY_A as usize]);
    assert_eq!(reports.len(), 3);
    assert!(reports[1].keys[KEYCODE_LEFT_SHIFT]);
    assert!(!reports[1].keys[KEY_A as usize]);
    assert!(reports[2].keys[KEYCODE_LEFT_SHIFT]);
    assert!(reports[2].keys[KEY_A as usize]);
}

#[test]
fn masked_key_release_only_clears_it() {
    let a = KeyAddr::create(1, 2);
    let mut rt = runtime_with(&[(a, KEY_A)]);
    switch(&mut rt, a, pressed());
    sent(&mut rt);
    rt.live_keys_mut().mask(a);
    assert_eq!(rt.live_keys().get(a), Key::from_raw(KEY_MASKED));
    switch(&mut rt, a, released());
    assert_eq!(rt.live_keys().get(a), Key::from_raw(KEY_INACTIVE));
    assert_eq!(rt.hid().sent_count(), 0);
}

#[test]
fn second_release_of_an_unmapped_key_changes_nothing() {
    let a = KeyAddr::create(1, 2);
    let mut rt = runtime_with(&[]);
    rt.live_keys_mut().mask(a);
    switch(&mut rt, a, released());
    assert_eq!(rt.live_keys().get(a), Key::from_raw(KEY_INACTIVE));
    switch(&mut rt, a, released());
    assert_eq!(rt.live_keys().get(a), Key::from_raw(KEY_INACTIVE));
    assert_eq!(rt.hid().sent_count(), 0);
}

#[test]
fn invalid_address_and_held_state_are_dropped() {
    let mut rt = runtime_with(&[]);
    let mut event = KeyEvent::new(rt.last_event_id());
    event.state = pressed();
    rt.handle_keyswitch_event::<NoHooks>(event);
    assert_eq!(rt.hid().sent_count(), 0);
    let a = KeyAddr::create(0, 0);
    let held = rt.next_event(a, KeyswitchState::new(true, true, false));
    rt.handle_keyswitch_event::<NoHooks>(held);
    assert_eq!(rt.live_keys().get(a), Key::from_raw(KEY_INACTIVE));
}

#[test]
fn lookup_key_prefers_live_entries() {
    let a = KeyAddr::create(0, 0);
    let mut rt = runtime_with(&[(a, KEY_A)]);
    assert_eq!(rt.lookup_key(&a), Key::from_raw(KEY_A));
    rt.live_keys_mut().activate(a, Key::from_raw(0x05));
    assert_eq!(rt.lookup_key(&a), Key::from_raw(0x05));
}

#[test]
fn layer_shift_key_changes_layers_without_a_report() {
    let a = KeyAddr::create(0, 0);
    let shift = KeyAddr::create(3, 0);
    let mut rt = runtime_with(&[(a, KEY_A), (shift, 0x4400 | (42 + 1))]);
    switch(&mut rt, shift, pressed());
    assert_eq!(rt.hid().sent_count(), 0);
    assert_eq!(rt.lookup_key(&a), Key::from_raw(0x1e));
    switch(&mut rt, shift, released());
    assert_eq!(rt.lookup_key(&a), Key::from_raw(KEY_A));
}

#[test]
fn system_control_key_is_sent_at_once() {
    let a = KeyAddr::create(2, 0);
    let mut rt = runtime_with(&[(a, 0x4181)]);
    switch(&mut rt, a, pressed());
    let reports = sent(&mut rt);
    assert_eq!(reports.len(), 1);
    assert_eq!(reports[0].kind, ActiveKeyboard::System);
    assert!(reports[0].keys[0x81]);
    switch(&mut rt, a, released());
    let reports = sent(&mut rt);
    assert_eq!(reports.len(), 1);
    assert!(!reports[0].keys[0x81]);
}

struct AbortKeyEvents;

impl EventHandler for AbortKeyEvents {
    fn on_key_event(_event: &mut KeyEvent) -> Result<(), EventHandlerError> {
        Err(EventHandlerError::Abort)
    }
}

#[test]
fn aborted_event_leaves_live_keys_alone() {
    let a = KeyAddr::create(0, 0);
    let mut rt = runtime_with(&[(a, KEY_A)]);
    let event = rt.next_event(a, pressed());
    rt.handle_keyswitch_event::<AbortKeyEvents>(event);
    assert_eq!(rt.live_keys().get(a), Key::from_raw(KEY_INACTIVE));
    assert_eq!(rt.hid().sent_count(), 0);
}

#[test]
fn scanner_turns_debounced_changes_into_events() {
    let a = KeyAddr::create(0, 0);
    let mut rt = runtime_with(&[(a, KEY_A)]);
    let mut scanner = Atmega::new();
    let start = rt.last_event_id();
    let samples = vec![1u16, 0, 0, 0];
    for _ in 0..3 {
        scanner.read_matrix(&samples);
        scanner.act_on_matrix_scan::<NoHooks>(&mut rt);
        assert_eq!(rt.live_keys().get(a), Key::from_raw(KEY_INACTIVE));
    }
    scanner.read_matrix(&samples);
    scanner.act_on_matrix_scan::<NoHooks>(&mut rt);
    assert_eq!(rt.live_keys().get(a), Key::from_raw(KEY_A));
    assert_eq!(rt.last_event_id(), start.next());
    // Held: no further event.
    scanner.read_matrix(&samples);
    scanner.act_on_matrix_scan::<NoHooks>(&mut rt);
    assert_eq!(rt.last_event_id(), start.next());
}

#[test]
fn cycle_hooks_and_clock() {
    let mut rt = runtime_with(&[]);
    assert_eq!(rt.begin_cycle::<NoHooks>(1234), Ok(()));
    assert_eq!(rt.millis_at_cycle_start(), 1234);
    assert_eq!(rt.end_cycle::<NoHooks>(), Ok(()));
    assert_eq!(Runtime::on_focus_event::<NoHooks>("version"), Ok(()));
    assert!(!rt.has_leds());
}
