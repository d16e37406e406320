//! The HID reports of the keyboard, kept as plain values.
//!
//! [`Keyboardio`] holds the state of each report (the keycodes pressed in
//! the boot and N-key-rollover keyboard reports, the consumer-control
//! usages, the system-control keycode) and queues a snapshot whenever a
//! report is to be sent. The USB transport takes the queued reports in
//! order and transmits them.
use vstd::prelude::*;
use crate::error::Error;
use crate::key_defs::{
    Key, CTRL_HELD, GUI_HELD, KEYCODE_LEFT_ALT, KEYCODE_LEFT_CONTROL, KEYCODE_LEFT_GUI,
    KEYCODE_LEFT_SHIFT, KEYCODE_RIGHT_ALT, LALT_HELD, RALT_HELD, SHIFT_HELD,
};

verus! {

/// Number of distinct keycodes in a report.
pub const KEYCODES: usize = 256;

/// The report that presses and releases go to and that is sent.
#[derive(Clone, Copy, Debug, PartialEq, Eq, Structural)]
pub enum ActiveKeyboard {
    Boot,
    NKRO,
    Media,
    System,
    Disabled,
}

impl Default for ActiveKeyboard {
    fn default() -> (r: ActiveKeyboard)
        ensures
            r == ActiveKeyboard::Boot,
    {
        ActiveKeyboard::Boot
    }
}

/// A report queued for transmission: its kind and the codes set in it.
pub struct HidReport {
    pub kind: ActiveKeyboard,
    pub keys: Vec<bool>,
}

/// The state of the reports, as values.
pub struct HidView {
    pub active: ActiveKeyboard,
    pub boot: Seq<bool>,
    pub nkro: Seq<bool>,
    pub consumer: Seq<bool>,
    pub system_key: u8,
    pub last_system_control_keycode: u8,
    pub sent: Seq<(ActiveKeyboard, Seq<bool>)>,
}

/// The set of codes that holds exactly `code`, or nothing for code 0.
pub open spec fn single_code(code: u8) -> Seq<bool> {
    Seq::new(KEYCODES as nat, |i: int| code != 0 && i == code)
}

/// `v` with keycode `code` set to `on` in the keyboard report.
pub open spec fn with_code(v: HidView, code: u8, on: bool) -> HidView {
    if v.active is Boot {
        HidView { boot: v.boot.update(code as int, on), ..v }
    } else {
        HidView { nkro: v.nkro.update(code as int, on), ..v }
    }
}

/// `v` with the modifier keycodes of `flags` set to `on`: shift, control,
/// left alt, right alt, GUI, in that order.
pub open spec fn with_modifiers(v: HidView, flags: u8, on: bool) -> HidView {
    let v1 = if flags & SHIFT_HELD != 0 {
        with_code(v, KEYCODE_LEFT_SHIFT, on)
    } else {
        v
    };
    let v2 = if flags & CTRL_HELD != 0 {
        with_code(v1, KEYCODE_LEFT_CONTROL, on)
    } else {
        v1
    };
    let v3 = if flags & LALT_HELD != 0 {
        with_code(v2, KEYCODE_LEFT_ALT, on)
    } else {
        v2
    };
    let v4 = if flags & RALT_HELD != 0 {
        with_code(v3, KEYCODE_RIGHT_ALT, on)
    } else {
        v3
    };
    if flags & GUI_HELD != 0 {
        with_code(v4, KEYCODE_LEFT_GUI, on)
    } else {
        v4
    }
}

/// The codes of the report that is active, as `send_report` sends them.
pub open spec fn active_codes(v: HidView) -> Seq<bool> {
    match v.active {
        ActiveKeyboard::Boot => v.boot,
        ActiveKeyboard::NKRO => v.nkro,
        ActiveKeyboard::Media => v.consumer,
        ActiveKeyboard::System => single_code(v.system_key),
        ActiveKeyboard::Disabled => v.boot,
    }
}

/// `v` after `send_report`: a snapshot of the active report is queued,
/// unless no report is active.
pub open spec fn sent_report(v: HidView) -> HidView {
    if v.active is Disabled {
        v
    } else {
        HidView { sent: v.sent.push((v.active, active_codes(v))), ..v }
    }
}

/// `v` after `release_all_keys`: the active report is emptied.
pub open spec fn released_all(v: HidView) -> HidView {
    let none = Seq::new(KEYCODES as nat, |i: int| false);
    match v.active {
        ActiveKeyboard::NKRO => HidView { nkro: none, ..v },
        ActiveKeyboard::Media => HidView { consumer: none, ..v },
        ActiveKeyboard::System => HidView { system_key: 0, ..v },
        _ => HidView { boot: none, ..v },
    }
}

/// `v` after pressing system-control key `key`: its report is queued at once.
pub open spec fn pressed_system(v: HidView, key: Key) -> HidView {
    HidView {
        system_key: key.key_code,
        last_system_control_keycode: key.key_code,
        sent: v.sent.push((ActiveKeyboard::System, single_code(key.key_code))),
        ..v
    }
}

/// `v` after releasing system-control key `key`: only the last one pressed
/// is released, and the emptied report is queued at once.
pub open spec fn released_system(v: HidView, key: Key) -> HidView {
    if key.key_code == v.last_system_control_keycode {
        HidView {
            system_key: 0,
            sent: v.sent.push((ActiveKeyboard::System, single_code(0))),
            ..v
        }
    } else {
        v
    }
}

/// Whether the keycode of `key` is set in the active report.
pub open spec fn is_key_pressed_spec(v: HidView, key: Key) -> bool {
    match v.active {
        ActiveKeyboard::Boot => v.boot[key.key_code as int],
        ActiveKeyboard::NKRO => v.nkro[key.key_code as int],
        ActiveKeyboard::Media => v.consumer[key.key_code as int],
        ActiveKeyboard::System => v.system_key == key.key_code,
        ActiveKeyboard::Disabled => false,
    }
}

/// The keyboard, consumer-control and system-control reports.
pub struct Keyboardio {
    boot: Vec<bool>,
    nkro: Vec<bool>,
    consumer: Vec<bool>,
    system_key: u8,
    active_keyboard: ActiveKeyboard,
    last_system_control_keycode: u8,
    sent: Vec<HidReport>,
}

fn no_codes() -> (r: Vec<bool>)
    ensures
        r@ == Seq::new(KEYCODES as nat, |i: int| false),
{
    let mut r: Vec<bool> = Vec::new();
    let mut i: usize = 0;
    while i < KEYCODES
        invariant
            i <= KEYCODES,
            r@.len() == i,
            forall|j: int| 0 <= j < i ==> !#[trigger] r@[j],
        decreases KEYCODES - i,
    {
        r.push(false);
        i = i + 1;
    }
    assert(r@ =~= Seq::new(KEYCODES as nat, |i: int| false));
    r
}

fn copy_codes(v: &Vec<bool>) -> (r: Vec<bool>)
    ensures
        r@ == v@,
{
    let mut r: Vec<bool> = Vec::new();
    let mut i: usize = 0;
    while i < v.len()
        invariant
            i <= v@.len(),
            r@ == v@.subrange(0, i as int),
        decreases v@.len() - i,
    {
        r.push(v[i]);
        i = i + 1;
    }
    assert(r@ =~= v@);
    r
}

impl View for Keyboardio {
    type V = HidView;

    closed spec fn view(&self) -> HidView {
        HidView {
            active: self.active_keyboard,
            boot: self.boot@,
            nkro: self.nkro@,
            consumer: self.consumer@,
            system_key: self.system_key,
            last_system_control_keycode: self.last_system_control_keycode,
            sent: Seq::new(self.sent@.len(), |i: int| (self.sent@[i].kind, self.sent@[i].keys@)),
        }
    }
}

impl Keyboardio {
    /// Each report holds one entry per keycode.
    pub open spec fn wf(&self) -> bool {
        &&& self@.boot.len() == KEYCODES
        &&& self@.nkro.len() == KEYCODES
        &&& self@.consumer.len() == KEYCODES
    }

    /// Empty reports with `active_keyboard` active and nothing queued.
    pub fn new(active_keyboard: ActiveKeyboard) -> (r: Keyboardio)
        ensures
            r.wf(),
            r@.active == active_keyboard,
            r@.boot == Seq::new(KEYCODES as nat, |i: int| false),
            r@.nkro == Seq::new(KEYCODES as nat, |i: int| false),
            r@.consumer == Seq::new(KEYCODES as nat, |i: int| false),
            r@.system_key == 0,
            r@.last_system_control_keycode == 0,
            r@.sent.len() == 0,
    {
        let r = Keyboardio {
            boot: no_codes(),
            nkro: no_codes(),
            consumer: no_codes(),
            system_key: 0,
            active_keyboard,
            last_system_control_keycode: 0,
            sent: Vec::new(),
        };
        assert(r@.sent =~= Seq::<(ActiveKeyboard, Seq<bool>)>::empty());
        r
    }

    pub fn active_keyboard(&self) -> (r: ActiveKeyboard)
        ensures
            r == self@.active,
    {
        self.active_keyboard
    }

    pub fn set_active_keyboard(&mut self, active_keyboard: ActiveKeyboard)
        ensures
            final(self)@ == (HidView { active: active_keyboard, ..old(self)@ }),
    {
        self.active_keyboard = active_keyboard;
        assert(self@.sent =~= old(self)@.sent);
    }

    pub fn last_system_control_keycode(&self) -> (r: u8)
        ensures
            r == self@.last_system_control_keycode,
    {
        self.last_system_control_keycode
    }

    /// Queues a snapshot of the active report; nothing when no report is
    /// active.
    pub fn send_report(&mut self) -> (r: Result<(), Error>)
        requires
            old(self).wf(),
        ensures
            final(self).wf(),
            final(self)@ == sent_report(old(self)@),
            r is Ok,
    {
        let keys = match self.active_keyboard {
            ActiveKeyboard::Boot => copy_codes(&self.boot),
            ActiveKeyboard::NKRO => copy_codes(&self.nkro),
            ActiveKeyboard::Media => copy_codes(&self.consumer),
            ActiveKeyboard::System => {
                let mut k = no_codes();
                if self.system_key != 0 {
                    k.set(self.system_key as usize, true);
                }
                assert(k@ =~= single_code(self.system_key));
                k
            },
            ActiveKeyboard::Disabled => {
                return Ok(());
            },
        };
        let ghost before = self@;
        self.sent.push(HidReport { kind: self.active_keyboard, keys });
        assert(self@.sent =~= before.sent.push((before.active, active_codes(before))));
        Ok(())
    }

    /// Whether the keycode of `key` is set in the active report.
    pub fn is_key_pressed(&self, key: &Key) -> (r: bool)
        requires
            self.wf(),
        ensures
            r == is_key_pressed_spec(self@, *key),
    {
        let key_code = key.key_code();
        match self.active_keyboard {
            ActiveKeyboard::Boot => self.boot[key_code as usize],
            ActiveKeyboard::NKRO => self.nkro[key_code as usize],
            ActiveKeyboard::Media => self.consumer[key_code as usize],
            ActiveKeyboard::System => self.system_key == key_code,
            ActiveKeyboard::Disabled => false,
        }
    }

    fn set_code(&mut self, code: u8, on: bool)
        requires
            old(self).wf(),
        ensures
            final(self).wf(),
            final(self)@ == with_code(old(self)@, code, on),
    {
        let ghost before = self@;
        if self.active_keyboard == ActiveKeyboard::Boot {
            self.boot.set(code as usize, on);
        } else {
            self.nkro.set(code as usize, on);
        }
        assert(self@.sent =~= before.sent);
    }

    /// Sets `key`'s keycode, flags ignored, in the keyboard report.
    pub fn press_raw_key(&mut self, pressed_key: Key)
        requires
            old(self).wf(),
        ensures
            final(self).wf(),
            final(self)@ == with_code(old(self)@, pressed_key.key_code, true),
    {
        self.set_code(pressed_key.key_code(), true);
    }

    /// Clears `key`'s keycode, flags ignored, in the keyboard report.
    pub fn release_raw_key(&mut self, released_key: Key)
        requires
            old(self).wf(),
        ensures
            final(self).wf(),
            final(self)@ == with_code(old(self)@, released_key.key_code, false),
    {
        self.set_code(released_key.key_code(), false);
    }

    fn set_modifiers(&mut self, flags: u8, on: bool)
        requires
            old(self).wf(),
        ensures
            final(self).wf(),
            final(self)@ == with_modifiers(old(self)@, flags, on),
    {
        if flags & SHIFT_HELD != 0 {
            self.set_code(KEYCODE_LEFT_SHIFT, on);
        }
        if flags & CTRL_HELD != 0 {
            self.set_code(KEYCODE_LEFT_CONTROL, on);
        }
        if flags & LALT_HELD != 0 {
            self.set_code(KEYCODE_LEFT_ALT, on);
        }
        if flags & RALT_HELD != 0 {
            self.set_code(KEYCODE_RIGHT_ALT, on);
        }
        if flags & GUI_HELD != 0 {
            self.set_code(KEYCODE_LEFT_GUI, on);
        }
    }

    /// Sets the modifier keycodes that `key`'s flags hold.
    pub fn press_modifiers(&mut self, pressed_key: Key)
        requires
            old(self).wf(),
        ensures
            final(self).wf(),
            final(self)@ == with_modifiers(old(self)@, pressed_key.flags, true),
    {
        self.set_modifiers(pressed_key.flags(), true);
    }

    /// Clears the modifier keycodes that `key`'s flags hold.
    pub fn release_modifiers(&mut self, released_key: Key)
        requires
            old(self).wf(),
        ensures
            final(self).wf(),
            final(self)@ == with_modifiers(old(self)@, released_key.flags, false),
    {
        self.set_modifiers(released_key.flags(), false);
    }

    /// Sets `key`'s modifiers, then its keycode.
    pub fn press_key(&mut self, pressed_key: Key)
        requires
            old(self).wf(),
        ensures
            final(self).wf(),
            final(self)@ == with_code(
                with_modifiers(old(self)@, pressed_key.flags, true),
                pressed_key.key_code,
                true,
            ),
    {
        self.set_modifiers(pressed_key.flags(), true);
        self.set_code(pressed_key.key_code(), true);
    }

    /// Clears `key`'s modifiers, then its keycode.
    pub fn release_key(&mut self, released_key: Key)
        requires
            old(self).wf(),
        ensures
            final(self).wf(),
            final(self)@ == with_code(
                with_modifiers(old(self)@, released_key.flags, false),
                released_key.key_code,
                false,
            ),
    {
        self.set_modifiers(released_key.flags(), false);
        self.set_code(released_key.key_code(), false);
    }

    /// Clears all five modifier keycodes.
    pub fn clear_modifiers(&mut self)
        requires
            old(self).wf(),
        ensures
            final(self).wf(),
            final(self)@ == with_modifiers(old(self)@, 0x1f, false),
    {
        assert(0x1fu8 & SHIFT_HELD != 0 && 0x1fu8 & CTRL_HELD != 0 && 0x1fu8 & LALT_HELD != 0
            && 0x1fu8 & RALT_HELD != 0 && 0x1fu8 & GUI_HELD != 0) by (bit_vector);
        self.set_modifiers(0x1f, false);
    }

    /// Sets the consumer-control usage of `key` (its low eight bits).
    pub fn press_consumer_control(&mut self, mapped_key: Key)
        requires
            old(self).wf(),
        ensures
            final(self).wf(),
            final(self)@ == (HidView {
                consumer: old(self)@.consumer.update((mapped_key.consumer_spec() % 256) as int, true),
                ..old(self)@
            }),
    {
        let ghost before = self@;
        let code = mapped_key.consumer() % 256;
        self.consumer.set(code as usize, true);
        assert(self@.sent =~= before.sent);
    }

    /// Clears the consumer-control usage of `key` (its low eight bits).
    pub fn release_consumer_control(&mut self, mapped_key: Key)
        requires
            old(self).wf(),
        ensures
            final(self).wf(),
            final(self)@ == (HidView {
                consumer: old(self)@.consumer.update((mapped_key.consumer_spec() % 256) as int, false),
                ..old(self)@
            }),
    {
        let ghost before = self@;
        let code = mapped_key.consumer() % 256;
        self.consumer.set(code as usize, false);
        assert(self@.sent =~= before.sent);
    }

    fn queue_system_report(&mut self)
        requires
            old(self).wf(),
        ensures
            final(self).wf(),
            final(self)@ == (HidView {
                sent: old(self)@.sent.push((ActiveKeyboard::System, single_code(old(self)@.system_key))),
                ..old(self)@
            }),
    {
        let mut k = no_codes();
        if self.system_key != 0 {
            k.set(self.system_key as usize, true);
        }
        assert(k@ =~= single_code(self.system_key));
        let ghost before = self@;
        self.sent.push(HidReport { kind: ActiveKeyboard::System, keys: k });
        assert(self@.sent =~= before.sent.push((ActiveKeyboard::System, single_code(before.system_key))));
    }

    /// Presses a system-control key; the single-keycode system-control
    /// report is queued at once.
    pub fn press_system_control(&mut self, mapped_key: Key)
        requires
            old(self).wf(),
        ensures
            final(self).wf(),
            final(self)@ == pressed_system(old(self)@, mapped_key),
    {
        let keycode = mapped_key.key_code();
        self.system_key = keycode;
        self.last_system_control_keycode = keycode;
        self.queue_system_report();
    }

    /// Releases a system-control key if it is the last one pressed; the
    /// emptied report is then queued at once.
    pub fn release_system_control(&mut self, mapped_key: Key)
        requires
            old(self).wf(),
        ensures
            final(self).wf(),
            final(self)@ == released_system(old(self)@, mapped_key),
    {
        let keycode = mapped_key.key_code();
        if keycode == self.last_system_control_keycode {
            self.system_key = 0;
            self.queue_system_report();
        }
    }

    /// Empties the active report.
    pub fn release_all_keys(&mut self) -> (r: Result<(), Error>)
        requires
            old(self).wf(),
        ensures
            final(self).wf(),
            final(self)@ == released_all(old(self)@),
            r is Ok,
    {
        let ghost before = self@;
        match self.active_keyboard {
            ActiveKeyboard::NKRO => {
                self.nkro = no_codes();
            },
            ActiveKeyboard::Media => {
                self.consumer = no_codes();
            },
            ActiveKeyboard::System => {
                self.system_key = 0;
            },
            _ => {
                self.boot = no_codes();
            },
        }
        assert(self@.sent =~= before.sent);
        Ok(())
    }

    /// Removes and returns the queued reports, oldest first.
    pub fn take_sent(&mut self) -> (r: Vec<HidReport>)
        requires
            old(self).wf(),
        ensures
            final(self).wf(),
            final(self)@ == (HidView { sent: Seq::empty(), ..old(self)@ }),
            r@.len() == old(self)@.sent.len(),
            forall|i: int|
                0 <= i < r@.len() ==> (#[trigger] r@[i].kind, r@[i].keys@) == old(self)@.sent[i],
    {
        let mut r: Vec<HidReport> = Vec::new();
        std::mem::swap(&mut r, &mut self.sent);
        assert(self@.sent =~= Seq::<(ActiveKeyboard, Seq<bool>)>::empty());
        r
    }

    /// The number of queued reports.
    pub fn sent_count(&self) -> (r: usize)
        ensures
            r == self@.sent.len(),
    {
        self.sent.len()
    }
}

} // verus!
