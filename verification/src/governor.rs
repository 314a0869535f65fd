//! The decision rule: a three-band controller that moves the frequency cap
//! one step at a time and never leaves the hardware's range.

use vstd::prelude::*;

verus! {

/// Step by which the cap moves, in the platform's frequency unit.
pub const STEP_FREQ: u64 = 100000;

/// Width of the band below the target in which the cap is left alone, in
/// degrees.
pub const DEADBAND: u64 = 5;

/// Time between two temperature readings, in milliseconds.
pub const SLEEP_TIME_MILLI: u64 = 3000;

/// The tunable constants of the governor.
#[derive(Clone, Copy, Debug, PartialEq, Eq, Structural)]
pub struct Config {
    /// How far one decision moves the cap.
    pub step: u64,
    /// How far below the target the temperature must fall before the cap
    /// is raised again.
    pub deadband: u64,
    /// How long the loop sleeps between two readings, in milliseconds.
    pub interval_ms: u64,
}

impl Default for Config {
    fn default() -> (config: Config)
        ensures
            config == (Config {
                step: STEP_FREQ,
                deadband: DEADBAND,
                interval_ms: SLEEP_TIME_MILLI,
            }),
    {
        Config { step: STEP_FREQ, deadband: DEADBAND, interval_ms: SLEEP_TIME_MILLI }
    }
}

/// The governor as a mathematical value: the range of the hardware, the
/// target temperature, the two constants of the rule and the cap in force.
pub struct State {
    pub min: nat,
    pub max: nat,
    pub target: nat,
    pub step: nat,
    pub deadband: nat,
    pub cap: nat,
}

impl State {
    /// The state in which the governor starts: unconstrained, with the cap
    /// at the maximum.
    pub open spec fn initial(min: nat, max: nat, target: nat, step: nat, deadband: nat) -> State {
        State { min, max, target, step, deadband, cap: max }
    }

    /// The cap lies in the hardware's range.
    pub open spec fn within_bounds(self) -> bool {
        self.min <= self.cap <= self.max
    }

    /// `temp` is above the target.
    pub open spec fn too_hot(self, temp: nat) -> bool {
        temp > self.target
    }

    /// `temp` is below the target by more than the deadband.
    pub open spec fn cool_enough(self, temp: nat) -> bool {
        temp + self.deadband < self.target
    }

    /// `temp` makes the governor lower the cap.
    pub open spec fn lowers(self, temp: nat) -> bool {
        self.too_hot(temp) && self.cap > self.min
    }

    /// `temp` makes the governor raise the cap.
    pub open spec fn raises(self, temp: nat) -> bool {
        !self.lowers(temp) && self.cool_enough(temp) && self.cap < self.max
    }

    /// `temp` makes the governor write a cap to the cores.
    pub open spec fn actuates(self, temp: nat) -> bool {
        self.lowers(temp) || self.raises(temp)
    }

    /// The cap one step down, but not below the minimum.
    pub open spec fn lowered_cap(self) -> nat {
        if self.cap - self.step < self.min {
            self.min
        } else {
            (self.cap - self.step) as nat
        }
    }

    /// The cap one step up, but not above the maximum.
    pub open spec fn raised_cap(self) -> nat {
        if self.cap + self.step > self.max {
            self.max
        } else {
            self.cap + self.step
        }
    }

    /// The cap in force after `temp` was read.
    pub open spec fn next_cap(self, temp: nat) -> nat {
        if self.lowers(temp) {
            self.lowered_cap()
        } else if self.raises(temp) {
            self.raised_cap()
        } else {
            self.cap
        }
    }

    /// The state after `temp` was read: only the cap can differ.
    pub open spec fn next(self, temp: nat) -> State {
        State { cap: self.next_cap(temp), ..self }
    }

    /// The state after each of `temps` was read in turn.
    pub open spec fn run(self, temps: Seq<nat>) -> State
        decreases temps.len(),
    {
        if temps.len() == 0 {
            self
        } else {
            self.run(temps.drop_last()).next(temps.last())
        }
    }
}

/// The governor's state: the cap it enforces, and what it was set up with.
#[derive(Clone, Copy, Debug)]
pub struct Governor {
    min: u64,
    max: u64,
    target: u64,
    step: u64,
    deadband: u64,
    current_cap: u64,
}

impl View for Governor {
    type V = State;

    closed spec fn view(&self) -> State {
        State {
            min: self.min as nat,
            max: self.max as nat,
            target: self.target as nat,
            step: self.step as nat,
            deadband: self.deadband as nat,
            cap: self.current_cap as nat,
        }
    }
}

impl Governor {
    /// A governor for hardware that runs between `min` and `max`, keeping
    /// the temperature at or below `target`. It starts at the maximum.
    pub fn new(min: u64, max: u64, target: u64, config: Config) -> (governor: Governor)
        ensures
            governor@ == State::initial(
                min as nat,
                max as nat,
                target as nat,
                config.step as nat,
                config.deadband as nat,
            ),
            min <= max ==> governor@.within_bounds(),
    {
        Governor {
            min,
            max,
            target,
            step: config.step,
            deadband: config.deadband,
            current_cap: max,
        }
    }

    /// A governor that takes over while `cap` is in force.
    pub fn with_cap(min: u64, max: u64, target: u64, config: Config, cap: u64) -> (governor:
        Governor)
        ensures
            governor@ == (State {
                min: min as nat,
                max: max as nat,
                target: target as nat,
                step: config.step as nat,
                deadband: config.deadband as nat,
                cap: cap as nat,
            }),
    {
        Governor {
            min,
            max,
            target,
            step: config.step,
            deadband: config.deadband,
            current_cap: cap,
        }
    }

    /// The cap now in force.
    pub fn current_cap(&self) -> (cap: u64)
        ensures
            cap == self@.cap,
    {
        self.current_cap
    }

    /// The lowest frequency the hardware supports.
    pub fn min(&self) -> (min: u64)
        ensures
            min == self@.min,
    {
        self.min
    }

    /// The highest frequency the hardware supports.
    pub fn max(&self) -> (max: u64)
        ensures
            max == self@.max,
    {
        self.max
    }

    /// The temperature that should not be exceeded.
    pub fn target(&self) -> (target: u64)
        ensures
            target == self@.target,
    {
        self.target
    }

    /// Takes in one temperature reading and moves the cap as the rule says.
    /// Returns the cap to write to the cores, or `None` where nothing is to
    /// be written.
    pub fn observe(&mut self, temp: u64) -> (actuate: Option<u64>)
        ensures
            final(self)@ == old(self)@.next(temp as nat),
            old(self)@.within_bounds() ==> final(self)@.within_bounds(),
            match actuate {
                Some(cap) => old(self)@.actuates(temp as nat) && cap == final(self)@.cap,
                None => !old(self)@.actuates(temp as nat),
            },
    {
        if temp > self.target && self.current_cap > self.min {
            if self.current_cap - self.min <= self.step {
                self.current_cap = self.min;
            } else {
                self.current_cap = self.current_cap - self.step;
            }
            Some(self.current_cap)
        } else if self.deadband < self.target && temp < self.target - self.deadband
            && self.current_cap < self.max {
            if self.max - self.current_cap <= self.step {
                self.current_cap = self.max;
            } else {
                self.current_cap = self.current_cap + self.step;
            }
            Some(self.current_cap)
        } else {
            None
        }
    }
}

/// One reading keeps the cap in the hardware's range.
pub proof fn lemma_next_within_bounds(state: State, temp: nat)
    requires
        state.within_bounds(),
    ensures
        state.next(temp).within_bounds(),
{
}

/// A run changes nothing but the cap.
pub proof fn lemma_run_keeps_setup(state: State, temps: Seq<nat>)
    ensures
        state.run(temps) == (State { cap: state.run(temps).cap, ..state }),
    decreases temps.len(),
{
    if temps.len() > 0 {
        lemma_run_keeps_setup(state, temps.drop_last());
    }
}

/// Whatever is read, and however often, a cap that lies in the hardware's
/// range stays there.
pub proof fn lemma_run_within_bounds(state: State, temps: Seq<nat>)
    requires
        state.within_bounds(),
    ensures
        state.run(temps).within_bounds(),
    decreases temps.len(),
{
    if temps.len() > 0 {
        lemma_run_within_bounds(state, temps.drop_last());
        lemma_next_within_bounds(state.run(temps.drop_last()), temps.last());
    }
}

/// Every state that the governor can reach from its start has its cap in
/// the hardware's range, provided that the range is one: `min <= max`.
pub proof fn lemma_reachable_within_bounds(
    min: nat,
    max: nat,
    target: nat,
    step: nat,
    deadband: nat,
    temps: Seq<nat>,
)
    requires
        min <= max,
    ensures
        State::initial(min, max, target, step, deadband).run(temps).within_bounds(),
{
    lemma_run_within_bounds(State::initial(min, max, target, step, deadband), temps);
}

/// At the maximum, readings that are cool enough neither move the cap nor
/// cause a write, however many of them come.
pub proof fn lemma_cool_readings_at_max(state: State, temps: Seq<nat>)
    requires
        state.cap == state.max,
        forall|i: int| 0 <= i < temps.len() ==> state.cool_enough(#[trigger] temps[i]),
    ensures
        state.run(temps) == state,
        forall|i: int|
            0 <= i < temps.len() ==> state.run(#[trigger] temps.take(i)) == state
                && !state.actuates(temps[i]),
    decreases temps.len(),
{
    if temps.len() > 0 {
        let before = temps.drop_last();
        lemma_cool_readings_at_max(state, before);
        assert forall|i: int| 0 <= i < temps.len() implies state.run(#[trigger] temps.take(i))
            == state && !state.actuates(temps[i]) by {
            if i < before.len() {
                assert(before.take(i) =~= temps.take(i));
                assert(before[i] == temps[i]);
            } else {
                assert(temps.take(i) =~= before);
            }
        }
    }
}

/// At the minimum, readings that are too hot neither move the cap nor cause
/// a write, however many of them come.
pub proof fn lemma_hot_readings_at_min(state: State, temps: Seq<nat>)
    requires
        state.cap == state.min,
        forall|i: int| 0 <= i < temps.len() ==> state.too_hot(#[trigger] temps[i]),
    ensures
        state.run(temps) == state,
        forall|i: int|
            0 <= i < temps.len() ==> state.run(#[trigger] temps.take(i)) == state
                && !state.actuates(temps[i]),
    decreases temps.len(),
{
    if temps.len() > 0 {
        let before = temps.drop_last();
        lemma_hot_readings_at_min(state, before);
        assert forall|i: int| 0 <= i < temps.len() implies state.run(#[trigger] temps.take(i))
            == state && !state.actuates(temps[i]) by {
            if i < before.len() {
                assert(before.take(i) =~= temps.take(i));
                assert(before[i] == temps[i]);
            } else {
                assert(temps.take(i) =~= before);
            }
        }
    }
}

/// A reading in the deadband, from `target - deadband` up to `target`,
/// changes nothing and causes no write.
pub proof fn lemma_deadband_holds(state: State, temp: nat)
    requires
        temp <= state.target,
        state.target <= temp + state.deadband,
    ensures
        state.next(temp) == state,
        !state.actuates(temp),
{
}

/// A reading above the target lowers a cap that is above the minimum: by
/// one step, or to the minimum where a step would pass it.
pub proof fn lemma_hot_reading_lowers(state: State, temp: nat)
    requires
        temp > state.target,
        state.cap > state.min,
    ensures
        state.actuates(temp),
        state.cap >= state.min + state.step ==> state.next(temp).cap == state.cap - state.step,
        state.cap < state.min + state.step ==> state.next(temp).cap == state.min,
{
}

/// A reading below the deadband raises a cap that is below the maximum: by
/// one step, or to the maximum where a step would pass it.
pub proof fn lemma_cool_reading_raises(state: State, temp: nat)
    requires
        temp + state.deadband < state.target,
        state.cap < state.max,
    ensures
        state.actuates(temp),
        state.cap + state.step <= state.max ==> state.next(temp).cap == state.cap + state.step,
        state.cap + state.step > state.max ==> state.next(temp).cap == state.max,
{
}

} // verus!
