//! The step sequencer: a counter that walks the commutation table, one
//! step per timer period.
//!
//! The six steps form a cyclic state machine with a single transition,
//! `tick`. The counter is free to run over the end of its integer range:
//! only its residue modulo six is ever used.

use vstd::prelude::*;
use vstd::arithmetic::div_mod::lemma_fundamental_div_mod;
use vstd::arithmetic::div_mod::lemma_fundamental_div_mod_converse_mod;
use vstd::arithmetic::div_mod::lemma_mod_bound;
use vstd::arithmetic::div_mod::lemma_small_mod;
use crate::pwm::PwmState;
use crate::pwm::PWM;
use crate::table::step_in_range;
use crate::table::Step;

verus! {

/// The counter value that follows `i`: one more, or zero after the largest
/// value the counter can hold.
pub open spec fn next_index(i: usize) -> usize {
    if i == usize::MAX {
        0usize
    } else {
        (i + 1) as usize
    }
}

/// The counter value reached from `i` by `n` increments, each of which
/// wraps like `next_index`.
pub open spec fn index_after(i: usize, n: nat) -> usize {
    ((i + n) % (usize::MAX + 1)) as usize
}

/// The channels, the table and the step counter.
pub struct SequencerState {
    pub pwm: PwmState,
    pub step_index: usize,
}

impl SequencerState {
    /// The step that the counter selects now, and that the next tick
    /// applies.
    pub open spec fn active_step(self) -> Step {
        self.pwm.step_at(self.step_index as int)
    }

    /// The state after one tick: the active step has been applied to the
    /// channels and the counter has moved on by one.
    pub open spec fn tick(self) -> SequencerState {
        SequencerState {
            pwm: self.pwm.set_step(self.step_index as int),
            step_index: next_index(self.step_index),
        }
    }

    /// The state after `n` ticks.
    pub open spec fn ticks(self, n: nat) -> SequencerState
        decreases n,
    {
        if n == 0 {
            self
        } else {
            self.ticks((n - 1) as nat).tick()
        }
    }
}

/// The commutation engine: three channels, their table and the counter
/// that a periodic timer advances.
#[derive(Debug)]
pub struct Sequencer {
    pwm: PWM,
    step_index: usize,
}

impl View for Sequencer {
    type V = SequencerState;

    closed spec fn view(&self) -> SequencerState {
        SequencerState { pwm: self.pwm@, step_index: self.step_index }
    }
}

impl Sequencer {
    /// A sequencer over `pwm` that starts at step zero.
    pub fn new(pwm: PWM) -> (s: Sequencer)
        ensures
            s@ == (SequencerState { pwm: pwm@, step_index: 0 }),
    {
        Sequencer::starting_at(pwm, 0)
    }

    /// A sequencer over `pwm` whose counter starts at `step_index`.
    pub fn starting_at(pwm: PWM, step_index: usize) -> (s: Sequencer)
        ensures
            s@ == (SequencerState { pwm: pwm@, step_index }),
    {
        Sequencer { pwm, step_index }
    }

    /// One timer period: applies the active step to the three channels,
    /// enabling each channel whose duty is nonzero and disabling each whose
    /// duty is zero, then advances the counter by one. At the counter's
    /// largest value the increment wraps to zero.
    pub fn tick(&mut self)
        ensures
            final(self)@ == old(self)@.tick(),
            final(self)@.pwm.duties() == old(self)@.active_step(),
            final(self)@.pwm.u.enabled == (final(self)@.pwm.u.duty != 0),
            final(self)@.pwm.v.enabled == (final(self)@.pwm.v.duty != 0),
            final(self)@.pwm.w.enabled == (final(self)@.pwm.w.duty != 0),
            final(self)@.step_index == next_index(old(self)@.step_index),
            final(self)@.pwm.in_range(),
            step_in_range(final(self)@.pwm.duties(), final(self)@.pwm.max_duty()),
    {
        self.pwm.set_step(self.step_index);
        self.step_index = self.step_index.wrapping_add(1);
    }

    /// The channels and the table.
    pub fn pwm(&self) -> (p: &PWM)
        ensures
            p@ == self@.pwm,
    {
        &self.pwm
    }

    /// The current value of the step counter.
    pub fn step_index(&self) -> (i: usize)
        ensures
            i == self@.step_index,
    {
        self.step_index
    }

    /// The step that the next tick applies.
    pub fn active_step(&self) -> (s: Step)
        ensures
            s == self@.active_step(),
            step_in_range(s, self@.pwm.max_duty()),
    {
        let table = self.pwm.steps();
        table[self.step_index % 6]
    }
}

/// The remainder of a successor: one more than the remainder of `a`, or
/// zero where that remainder was the largest one.
proof fn lemma_succ_mod(a: int, m: int)
    requires
        m > 0,
    ensures
        (a + 1) % m == if a % m == m - 1 {
            0
        } else {
            a % m + 1
        },
{
    let q = a / m;
    let r = a % m;
    lemma_fundamental_div_mod(a, m);
    lemma_mod_bound(a, m);
    if r == m - 1 {
        assert(a + 1 == (q + 1) * m + 0) by (nonlinear_arith)
            requires
                a == m * q + r,
                r == m - 1,
        ;
        lemma_fundamental_div_mod_converse_mod(a + 1, m, q + 1, 0);
    } else {
        assert(a + 1 == q * m + (r + 1)) by (nonlinear_arith)
            requires
                a == m * q + r,
        ;
        lemma_fundamental_div_mod_converse_mod(a + 1, m, q, r + 1);
    }
}

/// After `n` ticks from any state the table is unchanged, the counter
/// stands at its starting value plus `n`, wrapped to the counter's range,
/// and the active step is the table's entry at that value modulo six. As
/// long as the counter has not wrapped, that is the entry at
/// `(step_index + n) mod 6`.
pub proof fn lemma_cyclic_advance(s: SequencerState, n: nat)
    ensures
        s.ticks(n).pwm.table == s.pwm.table,
        s.ticks(n).step_index == index_after(s.step_index, n),
        s.ticks(n).active_step() == s.pwm.step_at(index_after(s.step_index, n) as int),
        s.step_index + n <= usize::MAX ==> s.ticks(n).active_step() == s.pwm.table[(s.step_index
            + n) % 6],
    decreases n,
{
    let m = usize::MAX + 1;
    if n == 0 {
        lemma_small_mod(s.step_index as nat, m as nat);
    } else {
        let before = (n - 1) as nat;
        lemma_cyclic_advance(s, before);
        lemma_succ_mod(s.step_index + before, m);
        lemma_mod_bound(s.step_index + n, m);
        if s.step_index + n <= usize::MAX {
            lemma_small_mod((s.step_index + n) as nat, m as nat);
        }
    }
}

/// After any positive number of ticks the three commanded duties are the
/// step applied last, and each channel is driven exactly when its duty is
/// nonzero.
pub proof fn lemma_outputs_after_ticks(s: SequencerState, n: nat)
    requires
        n > 0,
    ensures
        s.ticks(n).pwm.duties() == s.pwm.step_at(index_after(s.step_index, (n - 1) as nat) as int),
        s.ticks(n).pwm.u.enabled == (s.ticks(n).pwm.u.duty != 0),
        s.ticks(n).pwm.v.enabled == (s.ticks(n).pwm.v.duty != 0),
        s.ticks(n).pwm.w.enabled == (s.ticks(n).pwm.w.duty != 0),
{
    lemma_cyclic_advance(s, (n - 1) as nat);
}

/// Where the table is in range at the start, it is in range after any
/// number of ticks, and after any positive number of ticks the three
/// commanded duties lie in `[0, max_duty]`.
pub proof fn lemma_range_after_ticks(s: SequencerState, n: nat)
    requires
        s.pwm.in_range(),
    ensures
        s.ticks(n).pwm.in_range(),
        s.ticks(n).pwm.max_duty() == s.pwm.max_duty(),
        n > 0 ==> step_in_range(s.ticks(n).pwm.duties(), s.pwm.max_duty()),
    decreases n,
{
    if n > 0 {
        let before = s.ticks((n - 1) as nat);
        lemma_range_after_ticks(s, (n - 1) as nat);
        assert(step_in_range(before.pwm.table[before.step_index as int % 6], before.pwm.max_duty()));
    }
}

/// A tick at the counter's largest value applies the step that this value
/// selects and leaves the counter at zero, so the active step is the
/// table's first entry.
pub proof fn lemma_tick_across_wrap(s: SequencerState)
    requires
        s.step_index == usize::MAX,
    ensures
        s.tick().pwm.duties() == s.pwm.step_at(usize::MAX as int),
        s.tick().step_index == 0,
        s.tick().active_step() == s.pwm.table[0],
{
}

/// A full electrical revolution: six ticks that do not wrap the counter
/// bring the active step back to where it was.
pub proof fn lemma_full_revolution(s: SequencerState)
    requires
        s.step_index + 6 <= usize::MAX,
    ensures
        s.ticks(6).active_step() == s.active_step(),
        s.ticks(6).step_index == s.step_index + 6,
{
    lemma_cyclic_advance(s, 6);
    lemma_small_mod((s.step_index + 6) as nat, (usize::MAX + 1) as nat);
    assert((s.step_index + 6) % 6 == s.step_index % 6);
}

} // verus!
