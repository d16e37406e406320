use kaleidoscope::error::Error;
use kaleidoscope::event_handler::NoHooks;
use kaleidoscope::key_defs::{
    lock_layer, move_to_layer, shift_to_layer, Key, KeyAddr, KEY_MASKED, KEY_NO_KEY, KEY_TRANSPARENT, LAYER_SHIFT_OFFSET,
};
use kaleidoscope::key_event::{KeyEvent, KeyEventId};
use kaleidoscope::keymaps::atreus_keymap;
use kaleidoscope::keyswitch_state::KeyswitchState;
use kaleidoscope::layers::{Keymap, Layer, MAX_ACTIVE_LAYERS, NUM_KEYS};
use kaleidoscope::live_keys::LiveKeys;

const KEY_A: u16 = 0x04;
const KEY_B: u16 = 0x05;

fn uniform_layer(raw: u16) -> Vec<Key> {
    vec![Key::from_raw(raw); NUM_KEYS]
}

/// `n` layers; layer `l` holds keycode `0x10 + l` everywhere.
fn numbered_keymap(n: usize) -> Keymap {
    let mut layers = Vec::new();
    for l in 0..n {
        layers.push(uniform_layer(0x10 + l as u16));
    }
    Keymap::new(layers)
}

/// The active layers, bottom first, unshifted.
fn stack_of(layer: &Layer) -> Vec<u8> {
    let cell = std::cell::RefCell::new(Vec::new());
    layer.for_each_active_layer(|i, v| {
        assert_eq!(i, cell.borrow().len());
        cell.borrow_mut().push(v);
    });
    cell.into_inner()
}

fn press(addr: KeyAddr, key: Key) -> KeyEvent {
    let mut e = KeyEvent::new(KeyEventId::default());
    e.addr = addr;
    e.state = KeyswitchState::new(false, true, false);
    e.key = key;
    e
}

fn release(addr: KeyAddr, key: Key) -> KeyEvent {
    let mut e = KeyEvent::new(KeyEventId::default());
    e.addr = addr;
    e.state = KeyswitchState::new(true, false, false);
    e.key = key;
    e
}

#[test]
fn shifted_layer_falls_through_to_base() {
    // Layer 2's entry at (1, 1) is transparent, layer 0's is Key_A.
    let addr = KeyAddr::create(1, 1);
    let mut base = uniform_layer(KEY_B);
    base[addr.index()] = Key::from_raw(KEY_A);
    let mut top = uniform_layer(0x20);
    top[addr.index()] = Key::transparent();
    let keymap = Keymap::new(vec![base, uniform_layer(0x30), top]);
    let mut layer = Layer::new(keymap);
    assert_eq!(layer.activate::<NoHooks>(2 + LAYER_SHIFT_OFFSET), Ok(()));
    assert_eq!(layer.lookup_on_active_layer(&addr), Key::from_raw(KEY_A));
    assert_eq!(layer.lookup_active_layer(&addr), 0);
    // Elsewhere the shifted layer wins.
    let other = KeyAddr::create(0, 0);
    assert_eq!(layer.lookup_on_active_layer(&other), Key::from_raw(0x20));
    assert_eq!(layer.lookup_active_layer(&other), 2);
}

#[test]
fn all_transparent_resolves_to_base_entry() {
    let addr = KeyAddr::create(2, 5);
    let mut base = uniform_layer(KEY_B);
    base[addr.index()] = Key::transparent();
    let keymap = Keymap::new(vec![base, uniform_layer(KEY_TRANSPARENT), uniform_layer(KEY_TRANSPARENT)]);
    let mut layer = Layer::new(keymap);
    layer.activate::<NoHooks>(1).unwrap();
    layer.activate::<NoHooks>(2).unwrap();
    // Every active layer is transparent here: the base entry is returned.
    assert_eq!(layer.lookup_on_active_layer(&addr), Key::transparent());
    assert_eq!(layer.lookup_active_layer(&addr), 0);
    assert_eq!(layer.lookup_on_active_layer(&KeyAddr::create(0, 0)), Key::from_raw(KEY_B));
}

#[test]
fn activating_a_seventeenth_layer_evicts_the_bottom() {
    let mut layer = Layer::new(numbered_keymap(40));
    for l in 1..MAX_ACTIVE_LAYERS as u8 {
        layer.activate::<NoHooks>(l).unwrap();
    }
    assert_eq!(stack_of(&layer), (0..16).collect::<Vec<u8>>());
    layer.activate::<NoHooks>(30).unwrap();
    let mut expected: Vec<u8> = (1..16).collect();
    expected.push(30);
    assert_eq!(stack_of(&layer), expected);
    assert_eq!(stack_of(&layer).len(), MAX_ACTIVE_LAYERS);
    assert_eq!(layer.lookup_on_active_layer(&KeyAddr::create(0, 0)), Key::from_raw(0x10 + 30));
}

#[test]
fn reactivating_moves_a_layer_to_the_top() {
    let mut layer = Layer::new(numbered_keymap(5));
    layer.activate::<NoHooks>(1).unwrap();
    layer.activate::<NoHooks>(2).unwrap();
    layer.activate::<NoHooks>(1).unwrap();
    assert_eq!(stack_of(&layer), vec![0, 2, 1]);
}

#[test]
fn activating_a_missing_layer_is_a_no_op() {
    let mut layer = Layer::new(numbered_keymap(3));
    assert_eq!(layer.activate::<NoHooks>(3), Ok(()));
    assert_eq!(layer.activate::<NoHooks>(3 + LAYER_SHIFT_OFFSET), Ok(()));
    assert_eq!(stack_of(&layer), vec![0]);
}

#[test]
fn deactivating_the_sole_layer_leaves_base() {
    let mut layer = Layer::new(numbered_keymap(3));
    layer.move_layer::<NoHooks>(2).unwrap();
    assert_eq!(stack_of(&layer), vec![2]);
    assert_eq!(layer.deactivate::<NoHooks>(2), Ok(()));
    assert_eq!(stack_of(&layer), vec![0]);
    assert_eq!(layer.deactivate::<NoHooks>(0), Ok(()));
    assert_eq!(stack_of(&layer), vec![0]);
}

#[test]
fn deactivating_an_absent_layer_is_a_layer_error() {
    let mut layer = Layer::new(numbered_keymap(3));
    layer.activate::<NoHooks>(1).unwrap();
    assert_eq!(layer.deactivate::<NoHooks>(2), Err(Error::Layer));
    assert_eq!(stack_of(&layer), vec![0, 1]);
}

#[test]
fn deactivating_keeps_the_order_of_the_rest() {
    let mut layer = Layer::new(numbered_keymap(6));
    for l in 1..5u8 {
        layer.activate::<NoHooks>(l).unwrap();
    }
    layer.deactivate::<NoHooks>(2).unwrap();
    assert_eq!(stack_of(&layer), vec![0, 1, 3, 4]);
    layer.deactivate_most_recent::<NoHooks>().unwrap();
    assert_eq!(stack_of(&layer), vec![0, 1, 3]);
    layer.activate_next::<NoHooks>().unwrap();
    assert_eq!(stack_of(&layer), vec![0, 1, 3, 4]);
}

#[test]
fn move_layer_replaces_the_stack_unless_out_of_range() {
    let mut layer = Layer::new(numbered_keymap(3));
    layer.activate::<NoHooks>(1).unwrap();
    layer.move_layer::<NoHooks>(2).unwrap();
    assert_eq!(stack_of(&layer), vec![2]);
    // Four exceeds the layer count of three: nothing changes.
    layer.move_layer::<NoHooks>(4).unwrap();
    assert_eq!(stack_of(&layer), vec![2]);
}

#[test]
fn is_active_needs_both_encodings() {
    let mut layer = Layer::new(numbered_keymap(3));
    layer.activate::<NoHooks>(1).unwrap();
    assert!(!layer.is_active(1));
    layer.activate::<NoHooks>(1 + LAYER_SHIFT_OFFSET).unwrap();
    assert!(layer.is_active(1));
    assert!(!layer.is_active(2));
    assert!(!layer.is_active(250));
}

#[test]
fn layer_count_is_kept_to_eight_bits() {
    let mut layer = Layer::new(numbered_keymap(3));
    assert_eq!(layer.layer_count(), 3);
    layer.set_layer_count(300);
    assert_eq!(layer.layer_count(), 44);
}

#[test]
fn key_out_of_table_is_no_key() {
    let layer = Layer::new(numbered_keymap(2));
    assert_eq!(layer.key(5, &KeyAddr::create(0, 0)), Key::from_raw(KEY_NO_KEY));
    assert_eq!(layer.key(1, &KeyAddr::none()), Key::from_raw(KEY_NO_KEY));
    assert_eq!(layer.key(1, &KeyAddr::create(3, 11)), Key::from_raw(0x11));
}

#[test]
fn shift_key_holds_its_layer() {
    let mut layer = Layer::new(numbered_keymap(3));
    let mut live = LiveKeys::new();
    let addr = KeyAddr::create(0, 3);
    let key = shift_to_layer(2);
    layer.handle_layer_key_event::<NoHooks>(&mut live, press(addr, key)).unwrap();
    assert_eq!(stack_of(&layer), vec![0, 2]);
    layer.handle_layer_key_event::<NoHooks>(&mut live, release(addr, key)).unwrap();
    assert_eq!(stack_of(&layer), vec![0]);
}

#[test]
fn lock_key_toggles_its_layer() {
    let mut layer = Layer::new(numbered_keymap(3));
    let mut live = LiveKeys::new();
    let addr = KeyAddr::create(0, 3);
    let key = lock_layer(2);
    layer.handle_layer_key_event::<NoHooks>(&mut live, press(addr, key)).unwrap();
    assert_eq!(stack_of(&layer), vec![0, 2]);
    layer.handle_layer_key_event::<NoHooks>(&mut live, release(addr, key)).unwrap();
    assert_eq!(stack_of(&layer), vec![0, 2]);
    layer.handle_layer_key_event::<NoHooks>(&mut live, press(addr, key)).unwrap();
    assert_eq!(stack_of(&layer), vec![0]);
}

#[test]
fn move_key_moves_on_press_only() {
    let mut layer = Layer::new(numbered_keymap(3));
    let mut live = LiveKeys::new();
    let addr = KeyAddr::create(1, 0);
    let key = move_to_layer(1);
    layer.handle_layer_key_event::<NoHooks>(&mut live, release(addr, key)).unwrap();
    assert_eq!(stack_of(&layer), vec![0]);
    layer.handle_layer_key_event::<NoHooks>(&mut live, press(addr, key)).unwrap();
    assert_eq!(stack_of(&layer), vec![1]);
}

#[test]
fn keymap_next_shifts_up_or_masks_at_the_end() {
    let mut layer = Layer::new(numbered_keymap(2));
    let mut live = LiveKeys::new();
    live.clear_all();
    let addr = KeyAddr::create(2, 2);
    let next = Key::new(LAYER_SHIFT_OFFSET + 34, 0x44);
    layer.handle_layer_key_event::<NoHooks>(&mut live, press(addr, next)).unwrap();
    assert_eq!(stack_of(&layer), vec![0, 1]);
    assert_eq!(live.get(addr), shift_to_layer(1));
    // Layer 2 does not exist: the key is masked instead.
    let addr2 = KeyAddr::create(2, 3);
    layer.handle_layer_key_event::<NoHooks>(&mut live, press(addr2, next)).unwrap();
    assert_eq!(stack_of(&layer), vec![0, 1]);
    assert_eq!(live.get(addr2), Key::from_raw(KEY_MASKED));
}

#[test]
fn keymap_previous_below_base_masks() {
    let mut layer = Layer::new(numbered_keymap(3));
    let mut live = LiveKeys::new();
    live.clear_all();
    let addr = KeyAddr::create(2, 2);
    let previous = Key::new(LAYER_SHIFT_OFFSET + 33, 0x44);
    layer.handle_layer_key_event::<NoHooks>(&mut live, press(addr, previous)).unwrap();
    assert_eq!(stack_of(&layer), vec![0]);
    assert_eq!(live.get(addr), Key::from_raw(KEY_MASKED));
}

#[test]
fn mod_layer_key_shifts_to_its_layer() {
    let mut layer = Layer::new(numbered_keymap(3));
    let mut live = LiveKeys::new();
    let addr = KeyAddr::create(3, 0);
    // Layer 2, modifier index 1: keycode 2 * 8 + 1.
    let key = Key::new(17, 0x46);
    layer.handle_layer_key_event::<NoHooks>(&mut live, press(addr, key)).unwrap();
    assert_eq!(stack_of(&layer), vec![0, 2]);
    layer.handle_layer_key_event::<NoHooks>(&mut live, release(addr, key)).unwrap();
    assert_eq!(stack_of(&layer), vec![0]);
}

#[test]
fn atreus_keymap_has_three_full_layers() {
    let mut layer = Layer::new(atreus_keymap());
    assert_eq!(layer.layer_count(), 3);
    // Q at the first address of the base layer.
    assert_eq!(layer.lookup_on_active_layer(&KeyAddr::new(0)), Key::from_raw(0x14));
    layer.activate::<NoHooks>(1 + LAYER_SHIFT_OFFSET).unwrap();
    // The function layer has the up arrow there and is transparent at 31.
    assert_eq!(layer.lookup_on_active_layer(&KeyAddr::new(2)), Key::from_raw(0x52));
    assert_eq!(layer.lookup_on_active_layer(&KeyAddr::new(31)), Key::from_raw(0x33));
}
