//! One complementary PWM output pair, as the commutation engine sees it.
//!
//! A `Channel` records what the engine has commanded: the compare value and
//! whether the output stage is switched on. The firmware copies that state
//! into the timer's registers.

use vstd::prelude::*;

verus! {

/// The commanded state of one output channel.
pub struct ChannelState {
    /// The timer's maximum duty value, fixed when the channel is made.
    pub max_duty: u16,
    /// The duty value last commanded.
    pub duty: u16,
    /// Whether the output pair is driven (`true`) or floated (`false`).
    pub enabled: bool,
}

/// A handle to one complementary PWM output pair.
#[derive(Debug)]
pub struct Channel {
    max_duty: u16,
    duty: u16,
    enabled: bool,
}

impl View for Channel {
    type V = ChannelState;

    closed spec fn view(&self) -> ChannelState {
        ChannelState { max_duty: self.max_duty, duty: self.duty, enabled: self.enabled }
    }
}

impl Channel {
    /// A channel of a timer whose maximum duty is `max_duty`. Like the
    /// hardware after configuration, it starts at duty zero with its output
    /// floated.
    pub fn new(max_duty: u16) -> (c: Channel)
        ensures
            c@ == (ChannelState { max_duty, duty: 0, enabled: false }),
    {
        Channel { max_duty, duty: 0, enabled: false }
    }

    /// The maximum duty value of the channel's timer.
    pub fn get_max_duty(&self) -> (m: u16)
        ensures
            m == self@.max_duty,
    {
        self.max_duty
    }

    /// The duty value last commanded.
    pub fn get_duty(&self) -> (d: u16)
        ensures
            d == self@.duty,
    {
        self.duty
    }

    /// Whether the output pair is driven.
    pub fn is_enabled(&self) -> (e: bool)
        ensures
            e == self@.enabled,
    {
        self.enabled
    }

    /// Commands a new duty value and leaves the output stage as it is.
    pub fn set_duty(&mut self, duty: u16)
        ensures
            final(self)@ == (ChannelState { duty, ..old(self)@ }),
        no_unwind
    {
        self.duty = duty;
    }

    /// Switches the output pair on.
    pub fn enable(&mut self)
        ensures
            final(self)@ == (ChannelState { enabled: true, ..old(self)@ }),
        no_unwind
    {
        self.enabled = true;
    }

    /// Floats the output pair: both switches of the half-bridge off.
    pub fn disable(&mut self)
        ensures
            final(self)@ == (ChannelState { enabled: false, ..old(self)@ }),
        no_unwind
    {
        self.enabled = false;
    }
}

} // verus!
