//! The per-row debounce filter of the key matrix.
use vstd::prelude::*;

verus! {

/// A two-bit counter per column (`db0`, `db1`) and the debounced bits.
#[derive(Clone, Copy, Debug, PartialEq, Eq, Structural)]
pub struct Debouncer {
    pub db0: u16,
    pub db1: u16,
    pub debounced_state: u16,
}

/// Bit `j` of `x`.
pub open spec fn bit16(x: u16, j: u16) -> bool {
    (x >> j) & 1 == 1
}

/// One debounce pass: the new filter state and the columns whose debounced
/// state changed.
///
/// `delta` marks the columns whose sample disagrees with the debounced
/// state; the counter of each such column counts up, the others reset; a
/// column changes when its counter wraps back to zero while it still
/// disagrees.
pub open spec fn debounce_step(db: Debouncer, sample: u16) -> (Debouncer, u16) {
    let delta = sample ^ db.debounced_state;
    let db1 = (db.db1 ^ db.db0) & delta;
    let db0 = !db.db0 & delta;
    let changes = !(!delta | (db0 | db1));
    (Debouncer { db0, db1, debounced_state: db.debounced_state ^ changes }, changes)
}

/// The filter after the passes on `samples[0]`, ..., `samples[n - 1]`.
pub open spec fn debounce_run(db: Debouncer, samples: Seq<u16>, n: nat) -> Debouncer
    decreases n,
{
    if n == 0 {
        db
    } else {
        debounce_step(debounce_run(db, samples, (n - 1) as nat), samples[n - 1]).0
    }
}

/// The changes reported by the `n`-th pass (`n >= 1`).
pub open spec fn debounce_changes(db: Debouncer, samples: Seq<u16>, n: nat) -> u16 {
    debounce_step(debounce_run(db, samples, (n - 1) as nat), samples[n - 1]).1
}

/// Bit `j` of the first `n` samples is `v`.
pub open spec fn column_held(samples: Seq<u16>, n: nat, j: u16, v: bool) -> bool {
    n <= samples.len() && forall|k: int| 0 <= k < n ==> #[trigger] bit16(samples[k], j) == v
}

impl Debouncer {
    /// No column counting, every column released.
    pub fn new() -> (r: Debouncer)
        ensures
            r.db0 == 0,
            r.db1 == 0,
            r.debounced_state == 0,
    {
        Debouncer { db0: 0, db1: 0, debounced_state: 0 }
    }

    /// Runs one pass on `sample` and returns the columns whose debounced
    /// state changed.
    pub fn debounce(&mut self, sample: u16) -> (changes: u16)
        ensures
            (*final(self), changes) == debounce_step(*old(self), sample),
    {
        let delta = sample ^ self.debounced_state;
        self.db1 = (self.db1 ^ self.db0) & delta;
        self.db0 = !self.db0 & delta;
        let changes = !(!delta | (self.db0 | self.db1));
        self.debounced_state = self.debounced_state ^ changes;
        changes
    }
}

/// A column that agrees with the sample stays as it is: no change, and
/// its counter is reset.
proof fn lemma_step_agreeing(db: Debouncer, sample: u16, j: u16)
    requires
        j < 16,
        bit16(db.debounced_state, j) == bit16(sample, j),
    ensures
        bit16(debounce_step(db, sample).0.debounced_state, j) == bit16(sample, j),
        !bit16(debounce_step(db, sample).1, j),
        !bit16(debounce_step(db, sample).0.db0, j),
        !bit16(debounce_step(db, sample).0.db1, j),
{
    let d = db.debounced_state;
    let c0 = db.db0;
    let c1 = db.db1;
    assert({
        let delta = sample ^ d;
        let n1 = (c1 ^ c0) & delta;
        let n0 = !c0 & delta;
        let ch = !(!delta | (n0 | n1));
        &&& ((d ^ ch) >> j) & 1 == (sample >> j) & 1
        &&& (ch >> j) & 1 == 0
        &&& (n0 >> j) & 1 == 0
        &&& (n1 >> j) & 1 == 0
    }) by (bit_vector)
        requires
            j < 16,
            ((d >> j) & 1 == 1) == ((sample >> j) & 1 == 1),
    ;
}

/// A disagreeing column whose counter is at three flips to the sample.
proof fn lemma_step_flip(db: Debouncer, sample: u16, j: u16)
    requires
        j < 16,
        bit16(db.debounced_state, j) != bit16(sample, j),
        bit16(db.db0, j) && bit16(db.db1, j),
    ensures
        bit16(debounce_step(db, sample).0.debounced_state, j) == bit16(sample, j),
        bit16(debounce_step(db, sample).1, j),
{
    let d = db.debounced_state;
    let c0 = db.db0;
    let c1 = db.db1;
    assert({
        let delta = sample ^ d;
        let n1 = (c1 ^ c0) & delta;
        let n0 = !c0 & delta;
        let ch = !(!delta | (n0 | n1));
        &&& ((d ^ ch) >> j) & 1 == (sample >> j) & 1
        &&& (ch >> j) & 1 == 1
    }) by (bit_vector)
        requires
            j < 16,
            ((d >> j) & 1 == 1) != ((sample >> j) & 1 == 1),
            (c0 >> j) & 1 == 1,
            (c1 >> j) & 1 == 1,
    ;
}

/// A disagreeing column whose counter is below three counts up by one and
/// keeps its debounced state.
proof fn lemma_step_count(db: Debouncer, sample: u16, j: u16)
    requires
        j < 16,
        bit16(db.debounced_state, j) != bit16(sample, j),
        !(bit16(db.db0, j) && bit16(db.db1, j)),
    ensures
        bit16(debounce_step(db, sample).0.debounced_state, j) == bit16(db.debounced_state, j),
        !bit16(debounce_step(db, sample).1, j),
        bit16(debounce_step(db, sample).0.db0, j) == !bit16(db.db0, j),
        bit16(debounce_step(db, sample).0.db1, j) == (bit16(db.db1, j) != bit16(db.db0, j)),
{
    let d = db.debounced_state;
    let c0 = db.db0;
    let c1 = db.db1;
    assert({
        let delta = sample ^ d;
        let n1 = (c1 ^ c0) & delta;
        let n0 = !c0 & delta;
        let ch = !(!delta | (n0 | n1));
        &&& ((d ^ ch) >> j) & 1 == (d >> j) & 1
        &&& (ch >> j) & 1 == 0
        &&& ((n0 >> j) & 1 == 1) == !((c0 >> j) & 1 == 1)
        &&& ((n1 >> j) & 1 == 1) == (((c1 >> j) & 1 == 1) != ((c0 >> j) & 1 == 1))
    }) by (bit_vector)
        requires
            j < 16,
            ((d >> j) & 1 == 1) != ((sample >> j) & 1 == 1),
            !((c0 >> j) & 1 == 1 && (c1 >> j) & 1 == 1),
    ;
}

/// Once a column agrees with its held sample bit it keeps agreeing and
/// reports no change on every later pass.
proof fn lemma_settled_stays(db: Debouncer, samples: Seq<u16>, m: nat, n: nat, j: u16, v: bool)
    requires
        j < 16,
        1 <= m <= n,
        column_held(samples, n, j, v),
        bit16(debounce_run(db, samples, m).debounced_state, j) == v,
    ensures
        bit16(debounce_run(db, samples, n).debounced_state, j) == v,
        n > m ==> !bit16(debounce_changes(db, samples, n), j),
    decreases n - m,
{
    if n > m {
        lemma_settled_stays(db, samples, m, (n - 1) as nat, j, v);
        assert(bit16(samples[n - 1], j) == v);
        lemma_step_agreeing(debounce_run(db, samples, (n - 1) as nat), samples[n - 1], j);
    }
}

/// A column whose sample bit is held at `v` for two or more passes (the
/// other bits of the samples may vary) reports no change on the last of
/// them and holds `v`, provided it already agreed with `v` or its counter
/// stood at three. (From a counter below three a disagreeing column needs
/// up to four passes to flip.)
pub proof fn lemma_debounce_stability(db: Debouncer, samples: Seq<u16>, n: nat, j: u16, v: bool)
    requires
        j < 16,
        n >= 2,
        column_held(samples, n, j, v),
        bit16(db.debounced_state, j) == v || (bit16(db.db0, j) && bit16(db.db1, j)),
    ensures
        bit16(debounce_run(db, samples, n).debounced_state, j) == v,
        !bit16(debounce_changes(db, samples, n), j),
{
    assert(debounce_run(db, samples, 0) == db);
    assert(bit16(samples[0], j) == v);
    if bit16(db.debounced_state, j) == v {
        lemma_step_agreeing(db, samples[0], j);
    } else {
        lemma_step_flip(db, samples[0], j);
    }
    lemma_settled_stays(db, samples, 1, n, j, v);
}

/// From any filter state, a column whose sample bit is held at `v` for
/// four passes (the other bits may vary) holds `v`, and reports no change
/// on every later pass.
pub proof fn lemma_debounce_settles(db: Debouncer, samples: Seq<u16>, n: nat, j: u16, v: bool)
    requires
        j < 16,
        n >= 4,
        column_held(samples, n, j, v),
    ensures
        bit16(debounce_run(db, samples, n).debounced_state, j) == v,
        n >= 5 ==> !bit16(debounce_changes(db, samples, n), j),
{
    let r1 = debounce_run(db, samples, 1);
    let r2 = debounce_run(db, samples, 2);
    let r3 = debounce_run(db, samples, 3);
    assert(debounce_run(db, samples, 0) == db);
    assert(bit16(samples[0], j) == v);
    assert(bit16(samples[1], j) == v);
    assert(bit16(samples[2], j) == v);
    assert(bit16(samples[3], j) == v);
    if bit16(db.debounced_state, j) == v {
        lemma_step_agreeing(db, samples[0], j);
        lemma_settled_stays(db, samples, 1, n, j, v);
    } else {
        // The counter counts up to three within three passes; the next
        // pass flips the column.
        if bit16(db.db0, j) && bit16(db.db1, j) {
            lemma_step_flip(db, samples[0], j);
            lemma_settled_stays(db, samples, 1, n, j, v);
        } else {
            lemma_step_count(db, samples[0], j);
            if bit16(r1.db0, j) && bit16(r1.db1, j) {
                lemma_step_flip(r1, samples[1], j);
                lemma_settled_stays(db, samples, 2, n, j, v);
            } else {
                lemma_step_count(r1, samples[1], j);
                if bit16(r2.db0, j) && bit16(r2.db1, j) {
                    lemma_step_flip(r2, samples[2], j);
                    lemma_settled_stays(db, samples, 3, n, j, v);
                } else {
                    lemma_step_count(r2, samples[2], j);
                    lemma_step_flip(r3, samples[3], j);
                    lemma_settled_stays(db, samples, 4, n, j, v);
                }
            }
        }
    }
}

/// A one-pass glitch on a column that agreed with its sample before (its
/// counter below three) leaves its debounced state unchanged once the
/// sample returns.
pub proof fn lemma_debounce_transient(db: Debouncer, glitch: u16, steady: u16, j: u16)
    requires
        j < 16,
        bit16(db.debounced_state, j) == bit16(steady, j),
        !(bit16(db.db0, j) && bit16(db.db1, j)),
    ensures
        bit16(debounce_step(debounce_step(db, glitch).0, steady).0.debounced_state, j) == bit16(
            db.debounced_state,
            j,
        ),
        !bit16(debounce_step(db, glitch).1, j),
        !bit16(debounce_step(debounce_step(db, glitch).0, steady).1, j),
        !bit16(debounce_step(debounce_step(db, glitch).0, steady).0.db0, j),
        !bit16(debounce_step(debounce_step(db, glitch).0, steady).0.db1, j),
{
    if bit16(db.debounced_state, j) == bit16(glitch, j) {
        lemma_step_agreeing(db, glitch, j);
    } else {
        lemma_step_count(db, glitch, j);
    }
    lemma_step_agreeing(debounce_step(db, glitch).0, steady, j);
}

} // verus!
