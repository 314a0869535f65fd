//! The control loop as a state machine. It says what is to be done next:
//! which file to read, look for or write, how long to sleep, when to stop. It
//! takes in what came of that, and whoever drives it does the work.
//!
//! The loop reads the two frequency bounds, writes the maximum to every
//! core, and then, again and again, finds the sensor, reads it, moves the cap
//! if the reading calls for it, and sleeps. Any failure ends the run.

use vstd::prelude::*;
use crate::actuator::{cap_file, cap_line, core_write, cpu_count, CoreWrite};
use crate::bounds::{bound, max_frequency, min_frequency, MAX_FREQ_FILE, MIN_FREQ_FILE};
use crate::error::GovernorError;
use crate::governor::{Config, Governor, State};
use crate::sensor::{
    after_probe, begin_scan, candidates, get_temp, is_first_present, possible_temp_files,
    step_after, temperature, Scan, CANDIDATES,
};

verus! {

/// Where the loop stands.
#[derive(Clone, Copy, Debug, PartialEq, Eq, Structural)]
pub enum Phase {
    /// The lowest supported frequency is being read.
    ReadingMin,
    /// The highest supported frequency is being read; the lowest is this.
    ReadingMax(u64),
    /// The first cap, the maximum, is being written to the core with this
    /// index.
    Startup(usize),
    /// The sensor is being searched for, or read: this step of the search
    /// is being carried out.
    Locating(Scan),
    /// A cap that a reading called for is being written to the core with
    /// this index.
    Adjusting(usize),
    /// The loop rests until the next reading is due.
    Sleeping,
    /// The run has ended with this error.
    Halted(GovernorError),
}

/// What the driver reports back.
#[derive(Debug, PartialEq, Eq)]
pub enum Event {
    /// What the file holds that was to be read; `None` where it could not
    /// be read.
    Content(Option<String>),
    /// Whether the file that was to be looked for is there.
    Present(bool),
    /// The write was done.
    Written,
    /// The write could not be done.
    WriteFailed,
    /// The time to sleep has passed.
    Woke,
}

/// What the driver is asked to do.
#[derive(Debug, PartialEq, Eq)]
pub enum Action {
    /// Read the file with this path, and report its content.
    ReadFile(String),
    /// Look whether the file with this path is there, and report that.
    Probe(String),
    /// Write this, and report whether it was done.
    Write(CoreWrite),
    /// Sleep for this many milliseconds, and report back.
    Sleep(u64),
    /// Stop: the run has ended with this error.
    Halt(GovernorError),
}

/// An action as a mathematical value.
pub enum Step {
    ReadFile(Seq<char>),
    Probe(Seq<char>),
    Write(Seq<char>, Seq<char>),
    Sleep(nat),
    Halt(GovernorError),
}

impl View for Action {
    type V = Step;

    open spec fn view(&self) -> Step {
        match *self {
            Action::ReadFile(path) => Step::ReadFile(path@),
            Action::Probe(path) => Step::Probe(path@),
            Action::Write(write) => Step::Write(write.path@, write.content@),
            Action::Sleep(millis) => Step::Sleep(millis as nat),
            Action::Halt(error) => Step::Halt(error),
        }
    }
}

/// The characters that a file was found to hold.
pub open spec fn text_of(content: Option<String>) -> Option<Seq<char>> {
    match content {
        Some(text) => Some(text@),
        None => None,
    }
}

/// The loop as a mathematical value: the governor, the constants it was set
/// up with, the number of cores, and the phase. Until both bounds are read
/// the governor's range and cap are zero.
pub struct LoopState {
    pub governor: State,
    pub config: Config,
    pub cores: usize,
    pub phase: Phase,
}

impl LoopState {
    /// The loop before anything was done.
    pub open spec fn initial(target: nat, config: Config, cores: usize) -> LoopState {
        LoopState {
            governor: State::initial(0, 0, target, config.step as nat, config.deadband as nat),
            config,
            cores,
            phase: Phase::ReadingMin,
        }
    }

    /// This loop in another phase.
    pub open spec fn at(self, phase: Phase) -> LoopState {
        LoopState { phase, ..self }
    }

    /// The phase in which the cap is written to the core `core`; where there
    /// is no such core, the phase that follows the writing.
    pub open spec fn writing(self, core: nat, startup: bool) -> Phase {
        if core < self.cores {
            if startup {
                Phase::Startup(core as usize)
            } else {
                Phase::Adjusting(core as usize)
            }
        } else if startup {
            Phase::Locating(Scan::Probe(0))
        } else {
            Phase::Sleeping
        }
    }

    /// The cap lies in the hardware's range, if that range is one.
    pub open spec fn cap_in_range(self) -> bool {
        self.governor.min <= self.governor.max ==> self.governor.within_bounds()
    }

    /// The action that the loop is waiting on.
    pub open spec fn pending(self) -> Step {
        match self.phase {
            Phase::ReadingMin => Step::ReadFile(MIN_FREQ_FILE@),
            Phase::ReadingMax(_) => Step::ReadFile(MAX_FREQ_FILE@),
            Phase::Startup(core) => Step::Write(
                cap_file(core as nat),
                cap_line(self.governor.cap),
            ),
            Phase::Locating(Scan::Probe(index)) => Step::Probe(candidates()[index as int]),
            Phase::Locating(Scan::Read(index)) => Step::ReadFile(candidates()[index as int]),
            Phase::Adjusting(core) => Step::Write(
                cap_file(core as nat),
                cap_line(self.governor.cap),
            ),
            Phase::Sleeping => Step::Sleep(self.config.interval_ms as nat),
            Phase::Halted(error) => Step::Halt(error),
        }
    }

    /// The loop after `event` was reported. The event that answers the
    /// pending action moves the loop on, or halts it where it reports a
    /// failure; a halted loop stays as it is; any other event is out of turn
    /// and changes nothing.
    pub open spec fn after(self, event: Event) -> LoopState {
        match (self.phase, event) {
            (Phase::ReadingMin, Event::Content(content)) => match bound(text_of(content)) {
                Ok(min) => self.at(Phase::ReadingMax(min)),
                Err(error) => self.at(Phase::Halted(error)),
            },
            (Phase::ReadingMax(min), Event::Content(content)) => match bound(text_of(content)) {
                Ok(max) => LoopState {
                    governor: State::initial(
                        min as nat,
                        max as nat,
                        self.governor.target,
                        self.config.step as nat,
                        self.config.deadband as nat,
                    ),
                    phase: self.writing(0, true),
                    ..self
                },
                Err(error) => self.at(Phase::Halted(error)),
            },
            (Phase::Startup(core), Event::Written) => self.at(self.writing(core as nat + 1, true)),
            (Phase::Startup(_), Event::WriteFailed) => self.at(
                Phase::Halted(GovernorError::ActuationError),
            ),
            (Phase::Locating(Scan::Probe(index)), Event::Present(present)) => match step_after(
                index,
                present,
            ) {
                Ok(step) => self.at(Phase::Locating(step)),
                Err(error) => self.at(Phase::Halted(error)),
            },
            (Phase::Locating(Scan::Read(_)), Event::Content(content)) => match temperature(
                text_of(content),
            ) {
                Ok(temp) => LoopState {
                    governor: self.governor.next(temp as nat),
                    phase: if self.governor.actuates(temp as nat) {
                        self.writing(0, false)
                    } else {
                        Phase::Sleeping
                    },
                    ..self
                },
                Err(error) => self.at(Phase::Halted(error)),
            },
            (Phase::Adjusting(core), Event::Written) => self.at(
                self.writing(core as nat + 1, false),
            ),
            (Phase::Adjusting(_), Event::WriteFailed) => self.at(
                Phase::Halted(GovernorError::ActuationError),
            ),
            (Phase::Sleeping, Event::Woke) => self.at(Phase::Locating(Scan::Probe(0))),
            _ => self,
        }
    }

    /// The loop after each of `events` was reported in turn.
    pub open spec fn run(self, events: Seq<Event>) -> LoopState
        decreases events.len(),
    {
        if events.len() == 0 {
            self
        } else {
            self.run(events.drop_last()).after(events.last())
        }
    }
}

/// `count` reports of a write that was done.
pub open spec fn writes_done(count: nat) -> Seq<Event> {
    Seq::new(count, |i: int| Event::Written)
}

/// The reports of a driver that looks for the first `count` candidates in a
/// file system in which `present` says which of them are there.
pub open spec fn looks(present: Seq<bool>, count: nat) -> Seq<Event> {
    Seq::new(count, |i: int| Event::Present(present[i]))
}

/// The control loop: the governor, and where in its cycle the loop stands.
pub struct ControlLoop {
    governor: Governor,
    config: Config,
    cores: usize,
    phase: Phase,
}

impl View for ControlLoop {
    type V = LoopState;

    closed spec fn view(&self) -> LoopState {
        LoopState {
            governor: self.governor@,
            config: self.config,
            cores: self.cores,
            phase: self.phase,
        }
    }
}

impl ControlLoop {
    /// Every index that a phase holds names a candidate or a core.
    #[verifier::type_invariant]
    spec fn indices_in_range(self) -> bool {
        match self.phase {
            Phase::Startup(core) => core < self.cores,
            Phase::Adjusting(core) => core < self.cores,
            Phase::Locating(Scan::Probe(index)) => index < CANDIDATES,
            Phase::Locating(Scan::Read(index)) => index < CANDIDATES,
            _ => true,
        }
    }

    /// A loop that keeps the temperature at or below `target` on a machine
    /// with `cores` logical cores.
    pub fn with_cores(target: u64, config: Config, cores: usize) -> (control: ControlLoop)
        ensures
            control@ == LoopState::initial(target as nat, config, cores),
    {
        ControlLoop {
            governor: Governor::new(0, 0, target, config),
            config,
            cores,
            phase: Phase::ReadingMin,
        }
    }

    /// A loop that keeps the temperature at or below `target` on this
    /// machine. The number of logical cores is asked for once, here; it is
    /// at least one.
    pub fn new(target: u64, config: Config) -> (control: ControlLoop)
        ensures
            control@ == LoopState::initial(target as nat, config, control@.cores),
            control@.cores >= 1,
    {
        ControlLoop::with_cores(target, config, cpu_count())
    }

    /// Where the loop stands.
    pub fn phase(&self) -> (phase: Phase)
        ensures
            phase == self@.phase,
    {
        self.phase
    }

    /// The cap now in force; zero until both bounds are read.
    pub fn current_cap(&self) -> (cap: u64)
        ensures
            cap == self@.governor.cap,
    {
        self.governor.current_cap()
    }

    /// The number of logical cores that a cap is written to.
    pub fn cores(&self) -> (cores: usize)
        ensures
            cores == self@.cores,
    {
        self.cores
    }

    /// The phase in which the cap is written to the core `core`; where there
    /// is no such core, the phase that follows the writing.
    fn writing(&self, core: usize, startup: bool) -> (phase: Phase)
        ensures
            phase == self@.writing(core as nat, startup),
            phase matches Phase::Startup(index) ==> index < self.cores,
            phase matches Phase::Adjusting(index) ==> index < self.cores,
    {
        if core < self.cores {
            if startup {
                Phase::Startup(core)
            } else {
                Phase::Adjusting(core)
            }
        } else if startup {
            Phase::Locating(begin_scan())
        } else {
            Phase::Sleeping
        }
    }

    /// The action that the loop is waiting on.
    pub fn pending(&self) -> (action: Action)
        ensures
            action@ == self@.pending(),
    {
        proof {
            use_type_invariant(self);
        }
        match self.phase {
            Phase::ReadingMin => Action::ReadFile(String::from_str(MIN_FREQ_FILE)),
            Phase::ReadingMax(_) => Action::ReadFile(String::from_str(MAX_FREQ_FILE)),
            Phase::Startup(core) => Action::Write(core_write(self.governor.current_cap(), core)),
            Phase::Locating(Scan::Probe(index)) => {
                let files = possible_temp_files();
                Action::Probe(String::from_str(files[index]))
            },
            Phase::Locating(Scan::Read(index)) => {
                let files = possible_temp_files();
                Action::ReadFile(String::from_str(files[index]))
            },
            Phase::Adjusting(core) => Action::Write(
                core_write(self.governor.current_cap(), core),
            ),
            Phase::Sleeping => Action::Sleep(self.config.interval_ms),
            Phase::Halted(error) => Action::Halt(error),
        }
    }

    /// Takes in what the driver reports and says what is to be done next.
    pub fn advance(&mut self, event: Event) -> (action: Action)
        ensures
            final(self)@ == old(self)@.after(event),
            action@ == final(self)@.pending(),
            old(self)@.cap_in_range() ==> final(self)@.cap_in_range(),
    {
        proof {
            use_type_invariant(&*self);
        }
        let phase = self.phase;
        match event {
            Event::Content(content) => {
                let text: Option<&str> = match &content {
                    Some(text) => Some(text.as_str()),
                    None => None,
                };
                match phase {
                    Phase::ReadingMin => match min_frequency(text) {
                        Ok(min) => {
                            self.phase = Phase::ReadingMax(min);
                        },
                        Err(error) => {
                            self.phase = Phase::Halted(error);
                        },
                    },
                    Phase::ReadingMax(min) => match max_frequency(text) {
                        Ok(max) => {
                            let target = self.governor.target();
                            let next = self.writing(0, true);
                            self.governor = Governor::new(min, max, target, self.config);
                            self.phase = next;
                        },
                        Err(error) => {
                            self.phase = Phase::Halted(error);
                        },
                    },
                    Phase::Locating(Scan::Read(_)) => match get_temp(text) {
                        Ok(temp) => {
                            let mut governor = self.governor;
                            let verdict = governor.observe(temp);
                            self.governor = governor;
                            match verdict {
                                Some(_) => {
                                    self.phase = self.writing(0, false);
                                },
                                None => {
                                    self.phase = Phase::Sleeping;
                                },
                            }
                        },
                        Err(error) => {
                            self.phase = Phase::Halted(error);
                        },
                    },
                    _ => {},
                }
            },
            Event::Present(present) => match phase {
                Phase::Locating(Scan::Probe(index)) => match after_probe(index, present) {
                    Ok(step) => {
                        self.phase = Phase::Locating(step);
                    },
                    Err(error) => {
                        self.phase = Phase::Halted(error);
                    },
                },
                _ => {},
            },
            Event::Written => match phase {
                Phase::Startup(core) => {
                    self.phase = self.writing(core + 1, true);
                },
                Phase::Adjusting(core) => {
                    self.phase = self.writing(core + 1, false);
                },
                _ => {},
            },
            Event::WriteFailed => match phase {
                Phase::Startup(_) => {
                    self.phase = Phase::Halted(GovernorError::ActuationError);
                },
                Phase::Adjusting(_) => {
                    self.phase = Phase::Halted(GovernorError::ActuationError);
                },
                _ => {},
            },
            Event::Woke => match phase {
                Phase::Sleeping => {
                    self.phase = Phase::Locating(begin_scan());
                },
                _ => {},
            },
        }
        self.pending()
    }
}

/// Whatever the driver reports, and whatever the capability files hold, a
/// cap that lies in the hardware's range stays there.
pub proof fn lemma_run_keeps_cap_in_range(state: LoopState, events: Seq<Event>)
    requires
        state.cap_in_range(),
    ensures
        state.run(events).cap_in_range(),
    decreases events.len(),
{
    if events.len() > 0 {
        lemma_run_keeps_cap_in_range(state, events.drop_last());
    }
}

/// In every state that the loop can reach, the cap lies between the
/// minimum and the maximum that were read, provided that the minimum is not
/// above the maximum.
pub proof fn lemma_reachable_cap_in_range(
    target: nat,
    config: Config,
    cores: usize,
    events: Seq<Event>,
)
    ensures
        ({
            let reached = LoopState::initial(target, config, cores).run(events).governor;
            reached.min <= reached.max ==> reached.min <= reached.cap <= reached.max
        }),
{
    lemma_run_keeps_cap_in_range(LoopState::initial(target, config, cores), events);
}

/// A halted loop stays halted whatever is reported: it asks for no write,
/// no reading and no sleep again.
pub proof fn lemma_halted_is_final(state: LoopState, events: Seq<Event>)
    requires
        state.phase is Halted,
    ensures
        state.run(events) == state,
    decreases events.len(),
{
    if events.len() > 0 {
        lemma_halted_is_final(state, events.drop_last());
    }
}

/// Once both bounds are read the cap is the maximum, and the loop turns to
/// writing it to the cores, the first core first.
pub proof fn lemma_bounds_start_at_max(
    state: LoopState,
    lowest: Option<String>,
    highest: Option<String>,
    min: u64,
    max: u64,
)
    requires
        state.phase == Phase::ReadingMin,
        bound(text_of(lowest)) == Ok::<u64, GovernorError>(min),
        bound(text_of(highest)) == Ok::<u64, GovernorError>(max),
    ensures
        ({
            let started = state.after(Event::Content(lowest)).after(Event::Content(highest));
            &&& started.governor == State::initial(
                min as nat,
                max as nat,
                state.governor.target,
                state.config.step as nat,
                state.config.deadband as nat,
            )
            &&& started.phase == state.writing(0, true)
            &&& state.cores > 0 ==> started.pending() == Step::Write(
                cap_file(0),
                cap_line(max as nat),
            )
        }),
{
}

/// Once both bounds are read they are frozen: the loop never reads a
/// capability file again, and the range, the target, the constants and the
/// number of cores stay as they are whatever is reported.
pub proof fn lemma_bounds_are_read_once(state: LoopState, events: Seq<Event>)
    requires
        !(state.phase is ReadingMin),
        !(state.phase is ReadingMax),
    ensures
        ({
            let reached = state.run(events);
            &&& !(reached.phase is ReadingMin)
            &&& !(reached.phase is ReadingMax)
            &&& reached.governor == (State { cap: reached.governor.cap, ..state.governor })
            &&& reached.config == state.config
            &&& reached.cores == state.cores
        }),
    decreases events.len(),
{
    if events.len() > 0 {
        lemma_bounds_are_read_once(state, events.drop_last());
    }
}

/// A capability file that is missing or holds no number halts the loop
/// before anything is written.
pub proof fn lemma_unreadable_bound_halts(state: LoopState, content: Option<String>)
    requires
        state.phase == Phase::ReadingMin || state.phase is ReadingMax,
        bound(text_of(content)) is Err,
    ensures
        state.after(Event::Content(content)) == state.at(
            Phase::Halted(GovernorError::BoundsReadError),
        ),
{
}

/// A cap is written to every core, in the order of the cores and each
/// write after the one before it was done: after `done` writes the loop
/// asks for the write to the core `done`, with the same cap; after the last
/// it goes on, to the search for the sensor at startup and to sleep later.
pub proof fn lemma_cap_is_written_to_every_core(state: LoopState, startup: bool, done: nat)
    requires
        state.cores > 0,
        state.phase == state.writing(0, startup),
        done <= state.cores,
    ensures
        state.run(writes_done(done)) == state.at(state.writing(done, startup)),
        done < state.cores ==> state.run(writes_done(done)).pending() == Step::Write(
            cap_file(done),
            cap_line(state.governor.cap),
        ),
    decreases done,
{
    if done > 0 {
        lemma_cap_is_written_to_every_core(state, startup, (done - 1) as nat);
        assert(writes_done(done).drop_last() =~= writes_done((done - 1) as nat));
    }
}

/// While a cap is being written to a core, only the report on that write
/// moves the loop: nothing is read or looked for before the write is done.
pub proof fn lemma_write_is_awaited(state: LoopState, event: Event)
    requires
        state.phase is Startup || state.phase is Adjusting,
        event != Event::Written,
        event != Event::WriteFailed,
    ensures
        state.after(event) == state,
{
}

/// A write that fails halts the loop at once: the cores behind it are not
/// written.
pub proof fn lemma_failed_write_halts(state: LoopState)
    requires
        state.phase is Startup || state.phase is Adjusting,
    ensures
        state.after(Event::WriteFailed) == state.at(Phase::Halted(GovernorError::ActuationError)),
{
}

/// A search in a file system whose first present candidate is `first` looks
/// at the candidates up to `first`, one after the other, and then reads
/// `first`: no candidate behind it is looked at or read.
pub proof fn lemma_first_present_sensor_is_read(
    state: LoopState,
    present: Seq<bool>,
    first: nat,
    looked: nat,
)
    requires
        state.phase == Phase::Locating(Scan::Probe(0)),
        is_first_present(present, first),
        first < CANDIDATES,
        looked <= first + 1,
    ensures
        looked <= first ==> state.run(looks(present, looked)) == state.at(
            Phase::Locating(Scan::Probe(looked as usize)),
        ),
        looked == first + 1 ==> state.run(looks(present, looked)) == state.at(
            Phase::Locating(Scan::Read(first as usize)),
        ),
    decreases looked,
{
    if looked > 0 {
        let before = (looked - 1) as nat;
        lemma_first_present_sensor_is_read(state, present, first, before);
        assert(looks(present, looked).drop_last() =~= looks(present, before));
        assert(looks(present, looked).last() == Event::Present(present[before as int]));
    }
}

/// A search in a file system that holds none of the candidates looks at
/// each of them once, in order, and then halts the loop: there is no
/// sensor. Nothing is written on the way, and the cap stays as it was.
pub proof fn lemma_no_sensor_halts(state: LoopState, present: Seq<bool>, looked: nat)
    requires
        state.phase == Phase::Locating(Scan::Probe(0)),
        present.len() == CANDIDATES,
        forall|k: int| 0 <= k < present.len() ==> !#[trigger] present[k],
        looked <= CANDIDATES,
    ensures
        looked < CANDIDATES ==> state.run(looks(present, looked)) == state.at(
            Phase::Locating(Scan::Probe(looked as usize)),
        ),
        looked == CANDIDATES ==> state.run(looks(present, looked)) == state.at(
            Phase::Halted(GovernorError::SensorUnavailable),
        ),
    decreases looked,
{
    if looked > 0 {
        let before = (looked - 1) as nat;
        lemma_no_sensor_halts(state, present, before);
        assert(looks(present, looked).drop_last() =~= looks(present, before));
        assert(looks(present, looked).last() == Event::Present(present[before as int]));
    }
}

/// What the sensor holds decides what comes next. A reading that the rule
/// acts on moves the cap and has it written to the cores; any other reading
/// leaves the cap alone and sends the loop to sleep; a sensor that cannot be
/// read as a number halts the loop.
pub proof fn lemma_reading_decides(state: LoopState, content: Option<String>)
    requires
        state.phase matches Phase::Locating(Scan::Read(_)),
        state.cores > 0,
    ensures
        ({
            let next = state.after(Event::Content(content));
            match temperature(text_of(content)) {
                Ok(temp) => if state.governor.actuates(temp as nat) {
                    &&& next.governor == state.governor.next(temp as nat)
                    &&& next.pending() == Step::Write(
                        cap_file(0),
                        cap_line(state.governor.next_cap(temp as nat)),
                    )
                } else {
                    &&& next.governor == state.governor
                    &&& next.pending() == Step::Sleep(state.config.interval_ms as nat)
                },
                Err(error) => next == state.at(Phase::Halted(GovernorError::SensorReadError)),
            }
        }),
{
}

/// When the loop wakes up it searches for the sensor anew, from the first
/// candidate on.
pub proof fn lemma_waking_searches_anew(state: LoopState)
    requires
        state.phase == Phase::Sleeping,
    ensures
        state.after(Event::Woke).pending() == Step::Probe(candidates()[0]),
        state.after(Event::Woke).governor == state.governor,
{
}

} // verus!
