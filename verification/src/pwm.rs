//! The three output channels together with the commutation table that
//! drives them.

use vstd::prelude::*;
use crate::channel::Channel;
use crate::channel::ChannelState;
use crate::table::build;
use crate::table::step_in_range;
use crate::table::table_in_range;
use crate::table::table_of;
use crate::table::ConfigError;
use crate::table::Pattern;
use crate::table::Step;
use crate::table::Table;

verus! {

/// The state a channel is left in once `duty` has been applied to it: the
/// duty is stored, and the output is driven exactly when the duty is
/// nonzero. A phase commanded to zero is floated, not driven low.
pub open spec fn driven(c: ChannelState, duty: u16) -> ChannelState {
    ChannelState { duty, enabled: duty != 0, ..c }
}

/// The commutation table and the commanded state of the three channels.
pub struct PwmState {
    pub table: Seq<Step>,
    pub u: ChannelState,
    pub v: ChannelState,
    pub w: ChannelState,
}

impl PwmState {
    /// The maximum duty of the timer behind the three channels, read from
    /// channel `u`.
    pub open spec fn max_duty(self) -> u16 {
        self.u.max_duty
    }

    /// The duties currently commanded, as a step.
    pub open spec fn duties(self) -> Step {
        (self.u.duty, self.v.duty, self.w.duty)
    }

    /// Whether the table holds six steps within `[0, max_duty]` and the
    /// maximum duty is positive.
    pub open spec fn in_range(self) -> bool {
        self.max_duty() > 0 && table_in_range(self.table, self.max_duty())
    }

    /// The step that a counter value of `step` selects: only its residue
    /// modulo six counts.
    pub open spec fn step_at(self, step: int) -> Step {
        self.table[step % 6]
    }

    /// The state after the step selected by `step` has been applied to the
    /// three channels.
    pub open spec fn set_step(self, step: int) -> PwmState {
        let s = self.step_at(step);
        PwmState {
            u: driven(self.u, s.0),
            v: driven(self.v, s.1),
            w: driven(self.w, s.2),
            ..self
        }
    }
}

/// Three complementary PWM channels and the six-step table applied to them.
#[derive(Debug)]
pub struct PWM {
    u: Channel,
    v: Channel,
    w: Channel,
    steps: Table,
}

impl View for PWM {
    type V = PwmState;

    closed spec fn view(&self) -> PwmState {
        PwmState { table: self.steps@, u: self.u@, v: self.v@, w: self.w@ }
    }
}

impl PWM {
    #[verifier::type_invariant]
    spec fn table_fits(self) -> bool {
        self@.in_range()
    }

    /// Takes ownership of the three channels and builds the table of
    /// `pattern` from the maximum duty that channel `u` reports. The
    /// channels are left as they were handed in. A maximum duty of zero is
    /// a configuration error.
    pub fn new(u: Channel, v: Channel, w: Channel, pattern: Pattern) -> (r: Result<PWM, ConfigError>)
        ensures
            r is Ok <==> u@.max_duty > 0,
            r matches Err(e) ==> e == ConfigError::ZeroMaxDuty,
            r matches Ok(p) ==> p@ == (PwmState {
                table: table_of(pattern, u@.max_duty),
                u: u@,
                v: v@,
                w: w@,
            }) && p@.in_range(),
    {
        match build(u.get_max_duty(), pattern) {
            Ok(steps) => Ok(PWM { u, v, w, steps }),
            Err(e) => Err(e),
        }
    }

    /// Applies the step selected by `step` (taken modulo six) to the three
    /// channels, in the order u, v, w: each channel gets its duty, and is
    /// enabled if that duty is nonzero and disabled if it is zero, whatever
    /// its state was before.
    pub fn set_step(&mut self, step: usize)
        ensures
            final(self)@ == old(self)@.set_step(step as int),
            final(self)@.duties() == old(self)@.step_at(step as int),
            final(self)@.u.enabled == (final(self)@.u.duty != 0),
            final(self)@.v.enabled == (final(self)@.v.duty != 0),
            final(self)@.w.enabled == (final(self)@.w.duty != 0),
            final(self)@.in_range(),
            step_in_range(final(self)@.duties(), final(self)@.max_duty()),
    {
        proof {
            use_type_invariant(&*self);
        }
        let (u, v, w) = self.steps[step % 6];
        self.u.set_duty(u);
        if u > 0 {
            self.u.enable();
        } else {
            self.u.disable();
        }
        self.v.set_duty(v);
        if v > 0 {
            self.v.enable();
        } else {
            self.v.disable();
        }
        self.w.set_duty(w);
        if w > 0 {
            self.w.enable();
        } else {
            self.w.disable();
        }
    }

    /// Channel `u`.
    pub fn u(&self) -> (c: &Channel)
        ensures
            c@ == self@.u,
    {
        &self.u
    }

    /// Channel `v`.
    pub fn v(&self) -> (c: &Channel)
        ensures
            c@ == self@.v,
    {
        &self.v
    }

    /// Channel `w`.
    pub fn w(&self) -> (c: &Channel)
        ensures
            c@ == self@.w,
    {
        &self.w
    }

    /// The commutation table.
    pub fn steps(&self) -> (t: &Table)
        ensures
            t@ == self@.table,
            table_in_range(t@, self@.max_duty()),
    {
        proof {
            use_type_invariant(self);
        }
        &self.steps
    }
}

/// Applying a step keeps the table and the maximum duty, so a state that is
/// in range stays in range, and the duties it commands lie in
/// `[0, max_duty]`.
pub proof fn lemma_set_step_in_range(s: PwmState, step: int)
    requires
        s.in_range(),
    ensures
        s.set_step(step).in_range(),
        s.set_step(step).table == s.table,
        s.set_step(step).max_duty() == s.max_duty(),
        step_in_range(s.set_step(step).duties(), s.max_duty()),
{
    assert(step_in_range(s.table[step % 6], s.max_duty()));
}

/// After a step has been applied, each channel is driven exactly when the
/// duty applied to it is nonzero, whatever its state was before.
pub proof fn lemma_enable_policy(s: PwmState, step: int)
    ensures
        s.set_step(step).duties() == s.step_at(step),
        s.set_step(step).u.enabled == (s.step_at(step).0 != 0),
        s.set_step(step).v.enabled == (s.step_at(step).1 != 0),
        s.set_step(step).w.enabled == (s.step_at(step).2 != 0),
{
}

/// Only the residue of the counter modulo six selects the step: a counter
/// value six further on applies the same step.
pub proof fn lemma_set_step_cyclic(s: PwmState, step: int)
    ensures
        s.step_at(step + 6) == s.step_at(step),
        s.set_step(step + 6) == s.set_step(step),
{
    assert((step + 6) % 6 == step % 6);
}

} // verus!
