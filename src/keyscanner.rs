//! The key scanner: debounced matrix rows and the events of their changes.
use vstd::prelude::*;
use crate::debounce::{Debouncer, bit16, debounce_step};
use crate::event_handler::EventHandler;
use crate::key_defs::{KeyAddr, COLS, ROWS};
use crate::key_event::{KeyEventId, lemma_advance_next};
use crate::keyswitch_state::KeyswitchState;
use crate::key_defs::undefined;
use crate::key_event::KeyEvent;
use crate::runtime::{Runtime, id_taken, keyswitch_handled};

verus! {

/// The shape of a key matrix and its scan interval.
pub trait KeyScannerProps {
    /// Number of rows.
    fn rows() -> usize;

    /// Number of columns.
    fn cols() -> usize;

    /// Scan interval, roughly in microseconds.
    fn keyscan_interval() -> u16;
}

/// The Atreus: four rows of twelve columns.
pub struct AtreusProps;

impl KeyScannerProps for AtreusProps {
    fn rows() -> usize {
        4
    }

    fn cols() -> usize {
        12
    }

    fn keyscan_interval() -> u16 {
        1500
    }
}

/// Clock frequency of the microcontroller, in hertz.
pub const F_CPU: u32 = 16_000_000;

/// The timer top value for a scan interval of `interval` (roughly in
/// microseconds): `F_CPU / 2_000_000` timer ticks per unit, kept to the
/// sixteen bits of the timer register.
pub fn scan_cycle_ticks(interval: u16) -> (r: u16)
    ensures
        r == (8 * interval as int) % 65536,
{
    let cycles: u32 = (F_CPU / 2_000_000) * interval as u32;
    (cycles % 65536) as u16
}

/// One matrix row: the debounced bits of this scan and of the previous
/// one, and the filter state.
#[derive(Clone, Copy, Debug, PartialEq, Eq, Structural)]
pub struct MatrixRowState {
    pub current: u16,
    pub previous: u16,
    pub debouncer: Debouncer,
}

/// Whether the key at `col` of `row` changed between two scans.
pub open spec fn is_transition(row: MatrixRowState, col: int) -> bool {
    bit16(row.previous, col as u16) != bit16(row.current, col as u16)
}

/// The state of the key at `col` of `row`: bit 0 pressed in the previous
/// scan, bit 1 pressed in this one.
pub open spec fn cell_state(row: MatrixRowState, col: int) -> KeyswitchState {
    KeyswitchState(
        ((if bit16(row.previous, col as u16) {
            1int
        } else {
            0int
        }) + (if bit16(row.current, col as u16) {
            2int
        } else {
            0int
        })) as u8,
    )
}

/// The keys that changed among the first `k` addresses, in address order,
/// each with its keyswitch state.
pub open spec fn transitions(rows: Seq<MatrixRowState>, k: nat) -> Seq<(KeyAddr, KeyswitchState)>
    decreases k,
{
    if k == 0 {
        Seq::empty()
    } else {
        let prev = transitions(rows, (k - 1) as nat);
        let i = k - 1;
        let row = rows[i / COLS as int];
        let col = i % COLS as int;
        if is_transition(row, col) {
            prev.push((KeyAddr { offset: i as u8 }, cell_state(row, col)))
        } else {
            prev
        }
    }
}

/// The event that the scanner makes for transition `t` with identity `id`.
pub open spec fn scan_event(t: (KeyAddr, KeyswitchState), id: KeyEventId) -> KeyEvent {
    KeyEvent { addr: t.0, state: t.1, key: undefined(), last_id: KeyEventId(0), id }
}

/// The runtime went through the events of `ts` in order: `states[i]` is
/// the state before the `i`-th event takes its identity (`start` advanced
/// by `i + 1`), `taken[i]` the state after, and `states[i + 1]` the state
/// after the keyswitch stage handled it.
pub open spec fn scan_handled(
    states: Seq<Runtime>,
    taken: Seq<Runtime>,
    ts: Seq<(KeyAddr, KeyswitchState)>,
    start: KeyEventId,
) -> bool {
    &&& states.len() == ts.len() + 1
    &&& taken.len() == ts.len()
    &&& forall|i: int|
        0 <= i < ts.len() ==> id_taken(states[i], #[trigger] taken[i]) && keyswitch_handled(
            taken[i],
            states[i + 1],
            scan_event(ts[i], start.advanced_spec((i + 1) as nat)),
        )
}

/// The matrix state of the key scanner.
pub struct Atmega {
    matrix_state: Vec<MatrixRowState>,
    do_scan: bool,
}

impl Atmega {
    /// The rows, top first.
    pub closed spec fn rows(&self) -> Seq<MatrixRowState> {
        self.matrix_state@
    }

    pub closed spec fn do_scan_spec(&self) -> bool {
        self.do_scan
    }

    pub open spec fn wf(&self) -> bool {
        self.rows().len() == ROWS
    }

    /// Every key released, no scan pending.
    pub fn new() -> (r: Atmega)
        ensures
            r.wf(),
            forall|i: int|
                0 <= i < ROWS ==> #[trigger] r.rows()[i] == (MatrixRowState {
                    current: 0,
                    previous: 0,
                    debouncer: Debouncer { db0: 0, db1: 0, debounced_state: 0 },
                }),
            !r.do_scan_spec(),
    {
        let mut matrix_state: Vec<MatrixRowState> = Vec::new();
        let mut i: usize = 0;
        while i < ROWS as usize
            invariant
                i <= ROWS,
                matrix_state@.len() == i,
                forall|j: int|
                    0 <= j < i ==> #[trigger] matrix_state@[j] == (MatrixRowState {
                        current: 0,
                        previous: 0,
                        debouncer: Debouncer { db0: 0, db1: 0, debounced_state: 0 },
                    }),
            decreases ROWS - i,
        {
            matrix_state.push(MatrixRowState { current: 0, previous: 0, debouncer: Debouncer::new() });
            i = i + 1;
        }
        Atmega { matrix_state, do_scan: false }
    }

    /// Whether a scan is pending.
    pub fn do_scan(&self) -> (r: bool)
        ensures
            r == self.do_scan_spec(),
    {
        self.do_scan
    }

    /// Marks a scan as pending or done.
    pub fn set_do_scan(&mut self, do_scan: bool)
        ensures
            final(self).do_scan_spec() == do_scan,
            final(self).rows() == old(self).rows(),
    {
        self.do_scan = do_scan;
    }

    /// Runs one debounce pass per row on the column samples of that row;
    /// when any debounced bit changed, every row's current state becomes
    /// its debounced state.
    pub fn read_matrix(&mut self, samples: &Vec<u16>)
        requires
            old(self).wf(),
            samples@.len() == ROWS,
        ensures
            final(self).wf(),
            final(self).do_scan_spec() == old(self).do_scan_spec(),
            forall|i: int|
                0 <= i < ROWS ==> #[trigger] final(self).rows()[i].debouncer == debounce_step(
                    old(self).rows()[i].debouncer,
                    samples@[i],
                ).0,
            forall|i: int|
                0 <= i < ROWS ==> #[trigger] final(self).rows()[i].previous == old(
                    self,
                ).rows()[i].previous,
            forall|i: int|
                0 <= i < ROWS ==> #[trigger] final(self).rows()[i].current == (if exists|j: int|
                    0 <= j < ROWS && debounce_step(old(self).rows()[j].debouncer, samples@[j]).1
                        != 0 {
                    final(self).rows()[i].debouncer.debounced_state
                } else {
                    old(self).rows()[i].current
                }),
    {
        let mut any_debounced_changes: u16 = 0;
        let mut i: usize = 0;
        while i < ROWS as usize
            invariant
                i <= ROWS,
                samples@.len() == ROWS,
                self.wf(),
                self.do_scan == old(self).do_scan,
                forall|j: int|
                    0 <= j < i ==> #[trigger] self.matrix_state@[j].debouncer == debounce_step(
                        old(self).matrix_state@[j].debouncer,
                        samples@[j],
                    ).0,
                forall|j: int| i <= j < ROWS ==> #[trigger] self.matrix_state@[j] == old(self).matrix_state@[j],
                forall|j: int|
                    0 <= j < ROWS ==> #[trigger] self.matrix_state@[j].previous == old(
                        self,
                    ).matrix_state@[j].previous,
                forall|j: int|
                    0 <= j < ROWS ==> #[trigger] self.matrix_state@[j].current == old(
                        self,
                    ).matrix_state@[j].current,
                (any_debounced_changes != 0) == exists|j: int|
                    0 <= j < i && debounce_step(old(self).matrix_state@[j].debouncer, samples@[j]).1
                        != 0,
            decreases ROWS - i,
        {
            let mut row = self.matrix_state[i];
            let changes = row.debouncer.debounce(samples[i]);
            self.matrix_state.set(i, row);
            let ghost prev = any_debounced_changes;
            any_debounced_changes = any_debounced_changes | changes;
            assert((any_debounced_changes != 0) == (prev != 0 || changes != 0)) by (bit_vector)
                requires
                    any_debounced_changes == prev | changes,
            ;
            assert((exists|j: int|
                0 <= j < i + 1 && debounce_step(old(self).matrix_state@[j].debouncer, samples@[j]).1
                    != 0) == ((exists|j: int|
                0 <= j < i && debounce_step(old(self).matrix_state@[j].debouncer, samples@[j]).1
                    != 0) || changes != 0));
            i = i + 1;
        }
        if any_debounced_changes != 0 {
            let mut i: usize = 0;
            while i < ROWS as usize
                invariant
                    i <= ROWS,
                    samples@.len() == ROWS,
                    self.wf(),
                    self.do_scan == old(self).do_scan,
                    forall|j: int|
                        0 <= j < ROWS ==> #[trigger] self.matrix_state@[j].debouncer == debounce_step(
                            old(self).matrix_state@[j].debouncer,
                            samples@[j],
                        ).0,
                    forall|j: int|
                        0 <= j < ROWS ==> #[trigger] self.matrix_state@[j].previous == old(
                            self,
                        ).matrix_state@[j].previous,
                    forall|j: int|
                        0 <= j < i ==> #[trigger] self.matrix_state@[j].current
                            == self.matrix_state@[j].debouncer.debounced_state,
                    forall|j: int|
                        i <= j < ROWS ==> #[trigger] self.matrix_state@[j].current == old(
                            self,
                        ).matrix_state@[j].current,
                decreases ROWS - i,
            {
                let mut row = self.matrix_state[i];
                row.current = row.debouncer.debounced_state;
                self.matrix_state.set(i, row);
                i = i + 1;
            }
        }
    }

    /// The keys whose state changed between the previous and the current
    /// scan, in address order, with their keyswitch states.
    pub fn matrix_transitions(&self) -> (r: Vec<(KeyAddr, KeyswitchState)>)
        requires
            self.wf(),
        ensures
            r@ == transitions(self.rows(), (ROWS * COLS) as nat),
    {
        let mut r: Vec<(KeyAddr, KeyswitchState)> = Vec::new();
        let mut row: u8 = 0;
        while row < ROWS
            invariant
                row <= ROWS,
                self.wf(),
                r@ == transitions(self.rows(), (row * COLS) as nat),
            decreases ROWS - row,
        {
            let state = self.matrix_state[row as usize];
            let mut col: u8 = 0;
            while col < COLS
                invariant
                    row < ROWS,
                    col <= COLS,
                    self.wf(),
                    state == self.rows()[row as int],
                    r@ == transitions(self.rows(), (row * COLS + col) as nat),
                decreases COLS - col,
            {
                let prev = state.previous;
                let cur = state.current;
                let was = (prev >> col) & 1;
                let is = (cur >> col) & 1;
                let key_state: u8 = (was as u8) | ((is as u8) << 1u8);
                let ghost k = (row * COLS + col) as nat;
                assert((k as int) / 12 == row && (k as int) % 12 == col) by (nonlinear_arith)
                    requires
                        k == row * 12 + col,
                        col < 12,
                ;
                assert(was <= 1 && is <= 1) by (bit_vector)
                    requires
                        was == (prev >> col) & 1,
                        is == (cur >> col) & 1,
                ;
                assert(key_state & 0x83 == was + 2 * is) by (bit_vector)
                    requires
                        key_state == (was as u8) | ((is as u8) << 1u8),
                        was <= 1,
                        is <= 1,
                ;
                let ks = KeyswitchState::from(key_state);
                assert(ks == cell_state(state, col as int));
                if was != is {
                    r.push((KeyAddr::create(row, col), ks));
                }
                col = col + 1;
            }
            row = row + 1;
        }
        r
    }

    /// Turns every change between the previous and the current scan into a
    /// keyswitch event, in address order, each with the next identity;
    /// then the current scan becomes the previous one.
    pub fn act_on_matrix_scan<H: EventHandler>(&mut self, runtime: &mut Runtime)
        requires
            old(self).wf(),
            old(runtime).wf(),
        ensures
            final(self).wf(),
            final(runtime).wf(),
            final(self).do_scan_spec() == old(self).do_scan_spec(),
            forall|i: int|
                0 <= i < ROWS ==> #[trigger] final(self).rows()[i] == (MatrixRowState {
                    previous: old(self).rows()[i].current,
                    ..old(self).rows()[i]
                }),
            final(runtime).last_event_id_spec() == old(runtime).last_event_id_spec().advanced_spec(
                transitions(old(self).rows(), (ROWS * COLS) as nat).len(),
            ),
            exists|states: Seq<Runtime>, taken: Seq<Runtime>|
                #[trigger] scan_handled(
                    states,
                    taken,
                    transitions(old(self).rows(), (ROWS * COLS) as nat),
                    old(runtime).last_event_id_spec(),
                ) && states[0] == *old(runtime) && states.last() == *final(runtime),
    {
        let ghost start = runtime.last_event_id_spec();
        let changes = self.matrix_transitions();
        let ghost mut states: Seq<Runtime> = seq![*runtime];
        let ghost mut taken: Seq<Runtime> = Seq::empty();
        let mut i: usize = 0;
        while i < changes.len()
            invariant
                i <= changes@.len(),
                runtime.wf(),
                runtime.last_event_id_spec() == start.advanced_spec(i as nat),
                states.len() == i + 1,
                taken.len() == i,
                states[0] == *old(runtime),
                states.last() == *runtime,
                start == old(runtime).last_event_id_spec(),
                forall|j: int|
                    0 <= j < i ==> id_taken(states[j], #[trigger] taken[j]) && keyswitch_handled(
                        taken[j],
                        states[j + 1],
                        scan_event(changes@[j], start.advanced_spec((j + 1) as nat)),
                    ),
            decreases changes@.len() - i,
        {
            let (addr, state) = changes[i];
            proof {
                lemma_advance_next(start, i as nat);
            }
            let event = runtime.next_event(addr, state);
            proof {
                taken = taken.push(*runtime);
                assert(event == scan_event(changes@[i as int], start.advanced_spec((i + 1) as nat)));
            }
            runtime.handle_keyswitch_event::<H>(event);
            proof {
                states = states.push(*runtime);
            }
            i = i + 1;
        }
        assert(scan_handled(states, taken, changes@, start));
        let ghost rows0 = self.matrix_state@;
        let mut row: usize = 0;
        while row < ROWS as usize
            invariant
                row <= ROWS,
                self.wf(),
                self.do_scan == old(self).do_scan,
                rows0 == old(self).matrix_state@,
                forall|i: int|
                    0 <= i < row ==> #[trigger] self.matrix_state@[i] == (MatrixRowState {
                        previous: rows0[i].current,
                        ..rows0[i]
                    }),
                forall|i: int| row <= i < ROWS ==> #[trigger] self.matrix_state@[i] == rows0[i],
            decreases ROWS - row,
        {
            let mut s = self.matrix_state[row];
            s.previous = s.current;
            self.matrix_state.set(row, s);
            row = row + 1;
        }
    }
}

} // verus!
