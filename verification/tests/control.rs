use std::collections::HashMap;

use thermal_governor::actuator::CoreWrite;
use thermal_governor::bounds::{MAX_FREQ_FILE, MIN_FREQ_FILE};
use thermal_governor::control::{Action, ControlLoop, Event, Phase};
use thermal_governor::error::GovernorError;
use thermal_governor::governor::Config;
use thermal_governor::sensor::{possible_temp_files, Scan};

/// A file system in memory, which does what the loop asks and keeps a
/// record of it.
struct Machine {
    files: HashMap<String, String>,
    failing: Vec<String>,
    actions: Vec<Action>,
}

impl Machine {
    fn new(files: &[(&str, &str)]) -> Machine {
        Machine {
            files: files.iter().map(|(path, content)| (path.to_string(), content.to_string())).collect(),
            failing: Vec::new(),
            actions: Vec::new(),
        }
    }

    /// A machine with both capability files and one sensor.
    fn usual() -> Machine {
        Machine::new(&[
            (MIN_FREQ_FILE, "800000\n"),
            (MAX_FREQ_FILE, "2000000\n"),
            ("/sys/class/thermal/thermal_zone0/temp", "45000\n"),
        ])
    }

    fn set(&mut self, path: &str, content: &str) {
        self.files.insert(path.to_string(), content.to_string());
    }

    fn perform(&mut self, action: Action) -> Option<Event> {
        let event = match &action {
            Action::ReadFile(path) => Some(Event::Content(self.files.get(path).cloned())),
            Action::Probe(path) => Some(Event::Present(self.files.contains_key(path))),
            Action::Write(write) => {
                if self.failing.contains(&write.path) {
                    Some(Event::WriteFailed)
                } else {
                    self.files.insert(write.path.clone(), write.content.clone());
                    Some(Event::Written)
                }
            }
            Action::Sleep(_) => Some(Event::Woke),
            Action::Halt(_) => None,
        };
        self.actions.push(action);
        event
    }

    /// Drives the loop until it has slept `naps` times or has halted.
    fn drive(&mut self, control: &mut ControlLoop, naps: usize) {
        let mut slept = 0;
        let mut action = control.pending();
        loop {
            if matches!(action, Action::Sleep(_)) {
                if slept == naps {
                    return;
                }
                slept += 1;
            }
            match self.perform(action) {
                Some(event) => action = control.advance(event),
                None => return,
            }
        }
    }
}

fn cap_file(core: usize) -> String {
    format!("/sys/devices/system/cpu/cpu{}/cpufreq/scaling_max_freq", core)
}

fn write(core: usize, cap: u64) -> Action {
    Action::Write(CoreWrite { path: cap_file(core), content: format!("{}\n", cap) })
}

fn read(path: &str) -> Action {
    Action::ReadFile(path.to_string())
}

fn probe(path: &str) -> Action {
    Action::Probe(path.to_string())
}

fn content(text: &str) -> Event {
    Event::Content(Some(text.to_string()))
}

/// A loop on four cores that has read its bounds and written the maximum,
/// and now looks for the sensor.
fn started() -> ControlLoop {
    let mut control = ControlLoop::with_cores(70, Config::default(), 4);
    control.advance(content("800000\n"));
    control.advance(content("2000000\n"));
    for _ in 0..4 {
        control.advance(Event::Written);
    }
    assert_eq!(control.phase(), Phase::Locating(Scan::Probe(0)));
    control
}

/// A loop on four cores that is reading the sensor.
fn reading() -> ControlLoop {
    let mut control = started();
    control.advance(Event::Present(true));
    assert_eq!(control.phase(), Phase::Locating(Scan::Read(0)));
    control
}

#[test]
fn loop_begins_by_reading_the_minimum() {
    let control = ControlLoop::with_cores(70, Config::default(), 4);
    assert_eq!(control.phase(), Phase::ReadingMin);
    assert_eq!(control.cores(), 4);
    assert_eq!(control.current_cap(), 0);
    assert_eq!(control.pending(), read(MIN_FREQ_FILE));
}

#[test]
fn loop_counts_the_cores_of_the_machine() {
    let control = ControlLoop::new(70, Config::default());
    assert!(control.cores() >= 1);
    assert_eq!(control.cores(), num_cpus::get());
    assert_eq!(control.phase(), Phase::ReadingMin);
}

#[test]
fn startup_writes_the_maximum_to_every_core_first() {
    let mut machine = Machine::usual();
    let mut control = ControlLoop::with_cores(70, Config::default(), 4);
    machine.drive(&mut control, 0);
    assert_eq!(
        machine.actions,
        vec![
            read(MIN_FREQ_FILE),
            read(MAX_FREQ_FILE),
            write(0, 2000000),
            write(1, 2000000),
            write(2, 2000000),
            write(3, 2000000),
            probe("/sys/class/thermal/thermal_zone0/temp"),
            read("/sys/class/thermal/thermal_zone0/temp"),
        ]
    );
    assert_eq!(control.current_cap(), 2000000);
    for core in 0..4 {
        assert_eq!(machine.files[&cap_file(core)], "2000000\n");
    }
    assert_eq!(control.pending(), Action::Sleep(3000));
}

#[test]
fn startup_on_this_machine_writes_every_logical_core() {
    let mut machine = Machine::usual();
    let mut control = ControlLoop::new(70, Config::default());
    machine.drive(&mut control, 0);
    let cores = num_cpus::get();
    let mut expected = vec![read(MIN_FREQ_FILE), read(MAX_FREQ_FILE)];
    for core in 0..cores {
        expected.push(write(core, 2000000));
    }
    expected.push(probe("/sys/class/thermal/thermal_zone0/temp"));
    expected.push(read("/sys/class/thermal/thermal_zone0/temp"));
    assert_eq!(machine.actions, expected);
}

#[test]
fn no_sensor_is_looked_for_before_the_first_writes_are_done() {
    let mut control = ControlLoop::with_cores(70, Config::default(), 2);
    assert_eq!(control.advance(content("800000\n")), read(MAX_FREQ_FILE));
    assert_eq!(control.phase(), Phase::ReadingMax(800000));
    assert_eq!(control.advance(content("2000000\n")), write(0, 2000000));
    assert_eq!(control.phase(), Phase::Startup(0));
    assert_eq!(control.advance(Event::Present(true)), write(0, 2000000));
    assert_eq!(control.advance(content("99000\n")), write(0, 2000000));
    assert_eq!(control.advance(Event::Woke), write(0, 2000000));
    assert_eq!(control.advance(Event::Written), write(1, 2000000));
    assert_eq!(control.advance(content("99000\n")), write(1, 2000000));
    assert_eq!(control.advance(Event::Written), probe("/sys/class/thermal/thermal_zone0/temp"));
    assert_eq!(control.current_cap(), 2000000);
}

#[test]
fn missing_sensor_ends_the_run_without_another_write() {
    let mut machine = Machine::new(&[(MIN_FREQ_FILE, "800000\n"), (MAX_FREQ_FILE, "2000000\n")]);
    let mut control = ControlLoop::with_cores(70, Config::default(), 2);
    machine.drive(&mut control, 5);
    let mut expected =
        vec![read(MIN_FREQ_FILE), read(MAX_FREQ_FILE), write(0, 2000000), write(1, 2000000)];
    for file in possible_temp_files() {
        expected.push(probe(file));
    }
    expected.push(Action::Halt(GovernorError::SensorUnavailable));
    assert_eq!(machine.actions, expected);
    assert_eq!(control.phase(), Phase::Halted(GovernorError::SensorUnavailable));
    assert_eq!(control.current_cap(), 2000000);
}

#[test]
fn halted_loop_stays_halted() {
    let mut control = started();
    for _ in 0..9 {
        control.advance(Event::Present(false));
    }
    let halt = Action::Halt(GovernorError::SensorUnavailable);
    assert_eq!(control.pending(), halt);
    for _ in 0..3 {
        assert_eq!(control.advance(Event::Written), halt);
        assert_eq!(control.advance(Event::Present(true)), halt);
        assert_eq!(control.advance(content("99000\n")), halt);
        assert_eq!(control.advance(Event::Woke), halt);
        assert_eq!(control.advance(Event::WriteFailed), halt);
        assert_eq!(control.advance(Event::Content(None)), halt);
    }
    assert_eq!(control.current_cap(), 2000000);
}

#[test]
fn first_of_two_present_sensors_is_the_only_one_consulted() {
    let mut machine = Machine::usual();
    machine.set("/sys/class/thermal/thermal_zone0/temp", "64999\n");
    machine.set("/sys/class/thermal/thermal_zone2/temp", "99000\n");
    let mut control = started();
    machine.drive(&mut control, 0);
    assert_eq!(
        machine.actions,
        vec![
            probe("/sys/class/thermal/thermal_zone0/temp"),
            read("/sys/class/thermal/thermal_zone0/temp"),
        ]
    );
    assert_eq!(control.pending(), Action::Sleep(3000));
    assert_eq!(control.current_cap(), 2000000);
}

#[test]
fn candidates_are_looked_at_in_order_until_one_is_there() {
    let mut machine =
        Machine::new(&[("/sys/class/hwmon/hwmon1/temp1_input", "71000\n"), ("/sys/class/hwmon/hwmon2/device/temp1_input", "20000\n")]);
    let mut control = started();
    machine.drive(&mut control, 0);
    assert_eq!(
        machine.actions,
        vec![
            probe("/sys/class/thermal/thermal_zone0/temp"),
            probe("/sys/class/thermal/thermal_zone1/temp"),
            probe("/sys/class/thermal/thermal_zone2/temp"),
            probe("/sys/class/hwmon/hwmon0/temp1_input"),
            probe("/sys/class/hwmon/hwmon1/temp1_input"),
            read("/sys/class/hwmon/hwmon1/temp1_input"),
            write(0, 1900000),
            write(1, 1900000),
            write(2, 1900000),
            write(3, 1900000),
        ]
    );
}

#[test]
fn sensor_is_searched_anew_at_every_poll() {
    let mut machine = Machine::usual();
    machine.set("/sys/class/thermal/thermal_zone0/temp", "90000\n");
    let mut control = started();
    machine.drive(&mut control, 0);
    assert_eq!(control.current_cap(), 1900000);
    machine.files.remove("/sys/class/thermal/thermal_zone0/temp");
    machine.set("/sys/class/thermal/thermal_zone1/temp", "30000\n");
    machine.actions.clear();
    machine.drive(&mut control, 1);
    assert_eq!(
        machine.actions,
        vec![
            Action::Sleep(3000),
            probe("/sys/class/thermal/thermal_zone0/temp"),
            probe("/sys/class/thermal/thermal_zone1/temp"),
            read("/sys/class/thermal/thermal_zone1/temp"),
            write(0, 2000000),
            write(1, 2000000),
            write(2, 2000000),
            write(3, 2000000),
        ]
    );
    assert_eq!(control.current_cap(), 2000000);
}

#[test]
fn hot_reading_is_written_to_every_core_before_the_loop_sleeps() {
    let mut control = reading();
    assert_eq!(control.advance(content("71000\n")), write(0, 1900000));
    assert_eq!(control.phase(), Phase::Adjusting(0));
    assert_eq!(control.current_cap(), 1900000);
    assert_eq!(control.advance(Event::Written), write(1, 1900000));
    assert_eq!(control.advance(Event::Written), write(2, 1900000));
    assert_eq!(control.advance(Event::Written), write(3, 1900000));
    assert_eq!(control.phase(), Phase::Adjusting(3));
    assert_eq!(control.advance(Event::Written), Action::Sleep(3000));
    assert_eq!(control.phase(), Phase::Sleeping);
    assert_eq!(control.advance(Event::Woke), probe("/sys/class/thermal/thermal_zone0/temp"));
    assert_eq!(control.phase(), Phase::Locating(Scan::Probe(0)));
}

#[test]
fn reading_in_the_deadband_goes_straight_to_sleep() {
    for reading_text in ["70000\n", "70999\n", "65000\n", "67500\n"] {
        let mut control = reading();
        assert_eq!(control.advance(content(reading_text)), Action::Sleep(3000));
        assert_eq!(control.current_cap(), 2000000);
    }
}

#[test]
fn cool_reading_at_the_maximum_goes_straight_to_sleep() {
    let mut control = reading();
    assert_eq!(control.advance(content("20000\n")), Action::Sleep(3000));
    assert_eq!(control.current_cap(), 2000000);
}

#[test]
fn thousandths_are_dropped_before_the_rule_is_applied() {
    let mut control = reading();
    assert_eq!(control.advance(content("70999\n")), Action::Sleep(3000));
    let mut control = reading();
    assert_eq!(control.advance(content("71000\n")), write(0, 1900000));
}

#[test]
fn loop_cools_down_and_warms_up_again() {
    let mut machine = Machine::usual();
    let mut control = ControlLoop::with_cores(70, Config::default(), 1);
    machine.set("/sys/class/thermal/thermal_zone0/temp", "80000\n");
    machine.drive(&mut control, 3);
    assert_eq!(control.current_cap(), 1600000);
    assert_eq!(machine.files[&cap_file(0)], "1600000\n");
    machine.set("/sys/class/thermal/thermal_zone0/temp", "68000\n");
    machine.drive(&mut control, 2);
    assert_eq!(control.current_cap(), 1600000);
    machine.set("/sys/class/thermal/thermal_zone0/temp", "64999\n");
    machine.drive(&mut control, 10);
    assert_eq!(control.current_cap(), 2000000);
    assert_eq!(machine.files[&cap_file(0)], "2000000\n");
}

#[test]
fn cap_stops_at_the_minimum() {
    let mut machine = Machine::usual();
    machine.set(MAX_FREQ_FILE, "850000\n");
    machine.set("/sys/class/thermal/thermal_zone0/temp", "95000\n");
    let mut control = ControlLoop::with_cores(70, Config::default(), 1);
    machine.drive(&mut control, 1);
    assert_eq!(control.current_cap(), 800000);
    assert_eq!(machine.files[&cap_file(0)], "800000\n");
    machine.actions.clear();
    machine.drive(&mut control, 4);
    assert_eq!(control.current_cap(), 800000);
    assert!(machine.actions.iter().all(|action| !matches!(action, Action::Write(_))));
}

#[test]
fn missing_minimum_ends_the_run_before_anything_is_written() {
    let mut machine = Machine::new(&[(MAX_FREQ_FILE, "2000000\n")]);
    let mut control = ControlLoop::with_cores(70, Config::default(), 4);
    machine.drive(&mut control, 1);
    assert_eq!(
        machine.actions,
        vec![read(MIN_FREQ_FILE), Action::Halt(GovernorError::BoundsReadError)]
    );
}

#[test]
fn maximum_that_is_no_number_ends_the_run_before_anything_is_written() {
    let mut machine = Machine::new(&[(MIN_FREQ_FILE, "800000\n"), (MAX_FREQ_FILE, "fast\n")]);
    let mut control = ControlLoop::with_cores(70, Config::default(), 4);
    machine.drive(&mut control, 1);
    assert_eq!(
        machine.actions,
        vec![read(MIN_FREQ_FILE), read(MAX_FREQ_FILE), Action::Halt(GovernorError::BoundsReadError)]
    );
    assert_eq!(control.phase(), Phase::Halted(GovernorError::BoundsReadError));
}

#[test]
fn failed_write_at_startup_ends_the_run_at_once() {
    let mut machine = Machine::usual();
    machine.failing.push(cap_file(2));
    let mut control = ControlLoop::with_cores(70, Config::default(), 4);
    machine.drive(&mut control, 1);
    assert_eq!(
        machine.actions,
        vec![
            read(MIN_FREQ_FILE),
            read(MAX_FREQ_FILE),
            write(0, 2000000),
            write(1, 2000000),
            write(2, 2000000),
            Action::Halt(GovernorError::ActuationError),
        ]
    );
    assert!(!machine.files.contains_key(&cap_file(3)));
}

#[test]
fn failed_write_after_a_reading_ends_the_run_at_once() {
    let mut control = reading();
    assert_eq!(control.advance(content("90000\n")), write(0, 1900000));
    assert_eq!(control.advance(Event::Written), write(1, 1900000));
    let halt = Action::Halt(GovernorError::ActuationError);
    assert_eq!(control.advance(Event::WriteFailed), halt);
    assert_eq!(control.advance(Event::Written), halt);
    assert_eq!(control.phase(), Phase::Halted(GovernorError::ActuationError));
}

#[test]
fn sensor_that_cannot_be_read_ends_the_run() {
    let mut control = reading();
    assert_eq!(
        control.advance(Event::Content(None)),
        Action::Halt(GovernorError::SensorReadError)
    );
    let mut control = reading();
    assert_eq!(control.advance(content("warm\n")), Action::Halt(GovernorError::SensorReadError));
    let mut control = reading();
    assert_eq!(control.advance(content("")), Action::Halt(GovernorError::SensorReadError));
}

#[test]
fn events_out_of_turn_are_ignored() {
    let mut control = ControlLoop::with_cores(70, Config::default(), 1);
    assert_eq!(control.advance(Event::Written), read(MIN_FREQ_FILE));
    assert_eq!(control.advance(Event::WriteFailed), read(MIN_FREQ_FILE));
    assert_eq!(control.advance(Event::Present(true)), read(MIN_FREQ_FILE));
    assert_eq!(control.advance(Event::Woke), read(MIN_FREQ_FILE));
    let mut control = started();
    let look = probe("/sys/class/thermal/thermal_zone0/temp");
    assert_eq!(control.advance(Event::Written), look);
    assert_eq!(control.advance(Event::WriteFailed), look);
    assert_eq!(control.advance(content("99000\n")), look);
    assert_eq!(control.advance(Event::Woke), look);
    let mut control = reading();
    let fetch = read("/sys/class/thermal/thermal_zone0/temp");
    assert_eq!(control.advance(Event::Present(false)), fetch);
    assert_eq!(control.advance(Event::WriteFailed), fetch);
    assert_eq!(control.advance(Event::Woke), fetch);
    assert_eq!(control.advance(content("70000\n")), Action::Sleep(3000));
    assert_eq!(control.advance(content("99000\n")), Action::Sleep(3000));
    assert_eq!(control.advance(Event::Present(true)), Action::Sleep(3000));
    assert_eq!(control.advance(Event::WriteFailed), Action::Sleep(3000));
    assert_eq!(control.current_cap(), 2000000);
}

#[test]
fn sleep_lasts_as_long_as_the_config_says() {
    let config = Config { step: 250000, deadband: 2, interval_ms: 125 };
    let mut machine = Machine::usual();
    machine.set("/sys/class/thermal/thermal_zone0/temp", "61000\n");
    let mut control = ControlLoop::with_cores(60, config, 1);
    machine.drive(&mut control, 1);
    assert_eq!(control.current_cap(), 1500000);
    assert!(machine.actions.contains(&Action::Sleep(125)));
    machine.set("/sys/class/thermal/thermal_zone0/temp", "58000\n");
    machine.drive(&mut control, 1);
    assert_eq!(control.current_cap(), 1500000);
    machine.set("/sys/class/thermal/thermal_zone0/temp", "57999\n");
    machine.drive(&mut control, 1);
    assert_eq!(control.current_cap(), 1750000);
}

#[test]
fn loop_without_cores_writes_nothing() {
    let mut machine = Machine::usual();
    machine.set("/sys/class/thermal/thermal_zone0/temp", "90000\n");
    let mut control = ControlLoop::with_cores(70, Config::default(), 0);
    machine.drive(&mut control, 2);
    assert_eq!(control.current_cap(), 1700000);
    assert!(machine.actions.iter().all(|action| !matches!(action, Action::Write(_))));
}
