//! The commutation table: six duty-cycle triples, one per conduction
//! interval of an electrical revolution, derived from the timer's maximum
//! duty value and a commutation pattern.

use vstd::prelude::*;

verus! {

/// Number of steps in one electrical revolution.
pub const STEPS: usize = 6;

/// One commutation step: the duty values `(duty_u, duty_v, duty_w)` of the
/// three output channels.
pub type Step = (u16, u16, u16);

/// One electrical revolution, step by step.
pub type Table = [Step; STEPS];

/// The shape of the six-step waveform.
#[derive(Clone, Copy, Debug, PartialEq, Eq, Structural)]
pub enum Pattern {
    /// Two phases conduct in every step, one at the high level and one at
    /// the low level; the third phase is commanded to zero.
    TwoPhaseHighLow,
    /// All three phases are commanded in every step, each walking through
    /// the high, the middle and the low level.
    ThreeLevelTrapezoidal,
}

/// Why a commutation engine could not be configured.
#[derive(Clone, Copy, Debug, PartialEq, Eq, Structural)]
pub enum ConfigError {
    /// The timer reports a maximum duty of zero, so no duty split exists.
    ZeroMaxDuty,
}

/// The high level of both patterns: half of the maximum duty, rounded down.
pub open spec fn high_level(max_duty: u16) -> u16 {
    (max_duty / 2) as u16
}

/// The middle level of the trapezoidal pattern: a quarter of the maximum
/// duty, rounded down.
pub open spec fn mid_level(max_duty: u16) -> u16 {
    (max_duty / 4) as u16
}

/// The low level of both patterns: the smallest duty that still drives a
/// half-bridge.
pub open spec fn low_level() -> u16 {
    1
}

/// The six steps of `pattern` for a timer whose maximum duty is `max_duty`.
pub open spec fn table_of(pattern: Pattern, max_duty: u16) -> Seq<Step> {
    let h = high_level(max_duty);
    let l = low_level();
    match pattern {
        Pattern::TwoPhaseHighLow => seq![
            (0u16, h, l),
            (l, h, 0u16),
            (l, 0u16, h),
            (0u16, l, h),
            (h, l, 0u16),
            (h, 0u16, l),
        ],
        Pattern::ThreeLevelTrapezoidal => {
            let m = mid_level(max_duty);
            seq![(m, h, l), (l, h, m), (l, m, h), (m, l, h), (h, l, m), (h, m, l)]
        },
    }
}

/// Whether every duty of `step` lies in `[0, max_duty]`.
pub open spec fn step_in_range(step: Step, max_duty: u16) -> bool {
    step.0 <= max_duty && step.1 <= max_duty && step.2 <= max_duty
}

/// Whether `table` has exactly six steps, each within `[0, max_duty]`.
pub open spec fn table_in_range(table: Seq<Step>, max_duty: u16) -> bool {
    &&& table.len() == STEPS
    &&& forall|i: int| 0 <= i < table.len() ==> step_in_range(#[trigger] table[i], max_duty)
}

/// How many of the three duties of `step` are nonzero, that is, how many
/// phases the step drives.
pub open spec fn driven_phases(step: Step) -> nat {
    let u: nat = if step.0 != 0 { 1 } else { 0 };
    let v: nat = if step.1 != 0 { 1 } else { 0 };
    let w: nat = if step.2 != 0 { 1 } else { 0 };
    u + v + w
}

/// What `build` owes for each input: the configuration error on a maximum
/// duty of zero, the pattern's table otherwise.
pub open spec fn build_outcome(max_duty: u16, pattern: Pattern) -> Result<Seq<Step>, ConfigError> {
    if max_duty == 0 {
        Err(ConfigError::ZeroMaxDuty)
    } else {
        Ok(table_of(pattern, max_duty))
    }
}

/// The outcome of a `build` call with the table taken by its view.
pub open spec fn outcome_view(r: Result<Table, ConfigError>) -> Result<Seq<Step>, ConfigError> {
    match r {
        Ok(t) => Ok(t@),
        Err(e) => Err(e),
    }
}

/// Builds the commutation table of `pattern` for a timer whose maximum duty
/// is `max_duty`. A maximum duty of zero is a configuration error; every
/// other value yields six steps whose duties all lie in `[0, max_duty]`.
pub fn build(max_duty: u16, pattern: Pattern) -> (r: Result<Table, ConfigError>)
    ensures
        outcome_view(r) == build_outcome(max_duty, pattern),
        r is Ok <==> max_duty > 0,
        r matches Ok(t) ==> table_in_range(t@, max_duty),
{
    if max_duty == 0 {
        return Err(ConfigError::ZeroMaxDuty);
    }
    let h: u16 = max_duty / 2;
    let l: u16 = 1;
    let t: Table = match pattern {
        Pattern::TwoPhaseHighLow => [(0, h, l), (l, h, 0), (l, 0, h), (0, l, h), (h, l, 0), (h, 0, l)],
        Pattern::ThreeLevelTrapezoidal => {
            let m: u16 = max_duty / 4;
            [(m, h, l), (l, h, m), (l, m, h), (m, l, h), (h, l, m), (h, m, l)]
        },
    };
    assert(t@ =~= table_of(pattern, max_duty));
    Ok(t)
}

/// Every pattern's table for a positive maximum duty has exactly six steps,
/// and each of the eighteen duties in it lies in `[0, max_duty]`.
pub proof fn lemma_table_in_range(pattern: Pattern, max_duty: u16)
    requires
        max_duty > 0,
    ensures
        table_of(pattern, max_duty).len() == 6,
        table_in_range(table_of(pattern, max_duty), max_duty),
{
}

/// In the two-phase pattern one duty of every step is zero, so no step
/// drives more than two phases.
pub proof fn lemma_two_phase_floats_a_phase(max_duty: u16, i: int)
    requires
        0 <= i < 6,
    ensures
        driven_phases(table_of(Pattern::TwoPhaseHighLow, max_duty)[i]) <= 2,
{
}

/// In the trapezoidal pattern every step drives all three phases once the
/// maximum duty is large enough for a nonzero quarter.
pub proof fn lemma_trapezoidal_drives_all(max_duty: u16, i: int)
    requires
        max_duty >= 4,
        0 <= i < 6,
    ensures
        driven_phases(table_of(Pattern::ThreeLevelTrapezoidal, max_duty)[i]) == 3,
{
}

/// Building is deterministic: two outcomes of `build` for the same maximum
/// duty and the same pattern are equal, table for table and error for error.
pub proof fn lemma_build_deterministic(
    max_duty: u16,
    pattern: Pattern,
    first: Result<Table, ConfigError>,
    second: Result<Table, ConfigError>,
)
    requires
        outcome_view(first) == build_outcome(max_duty, pattern),
        outcome_view(second) == build_outcome(max_duty, pattern),
    ensures
        first == second,
{
    if let Ok(a) = first {
        let b = second->Ok_0;
        assert(a@ == b@);
        assert(a =~= b);
    }
}

} // verus!
