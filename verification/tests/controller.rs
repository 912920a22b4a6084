use fireplace_api::backend::{Action, Backend, Pending};
use fireplace_api::command::{Command, Outcome};
use fireplace_api::error::ApiError;
use fireplace_api::gpio::{GpioController, PinState, PinStatus, Step};
use std::collections::HashMap;

const ALL: [Backend; 6] = [
    Backend::Gpio,
    Backend::GpioBcm,
    Backend::GpiosetTimed,
    Backend::GpiosetExit,
    Backend::GpiosetPulse,
    Backend::RaspiGpio,
];

/// A board of pins that answers commands the way the tools would.
struct Board {
    levels: HashMap<String, bool>,
    log: Vec<String>,
    fail_at: Option<usize>,
    missing: bool,
}

impl Board {
    fn new() -> Board {
        Board { levels: HashMap::new(), log: Vec::new(), fail_at: None, missing: false }
    }

    fn level(&self, line: &str) -> bool {
        self.levels.get(line).copied().unwrap_or(false)
    }

    fn ok(stdout: String) -> Outcome {
        Outcome::Exited { success: true, stdout, stderr: String::new() }
    }

    fn run(&mut self, command: &Command) -> Outcome {
        let mut line = command.program.clone();
        for arg in &command.args {
            line.push(' ');
            line.push_str(arg);
        }
        let index = self.log.len();
        self.log.push(line);
        if self.missing {
            return Outcome::NotStarted("No such file or directory (os error 2)".to_string());
        }
        if self.fail_at == Some(index) {
            return Outcome::Exited {
                success: false,
                stdout: String::new(),
                stderr: "device busy".to_string(),
            };
        }
        let args: Vec<&str> = command.args.iter().map(|arg| arg.as_str()).collect();
        let args = if args.first() == Some(&"-g") { &args[1..] } else { &args[..] };
        match (command.program.as_str(), args) {
            ("gpio", ["mode", _, _]) => Board::ok(String::new()),
            ("gpio", ["write", line, value]) => {
                self.levels.insert(line.to_string(), *value == "1");
                Board::ok(String::new())
            }
            ("gpio", ["read", line]) => {
                Board::ok(if self.level(line) { "1\n".to_string() } else { "0\n".to_string() })
            }
            ("gpioset", [.., assignment]) => {
                let (line, value) = assignment.split_once('=').unwrap();
                self.levels.insert(line.to_string(), value == "1");
                if command.wait {
                    Board::ok(String::new())
                } else {
                    Outcome::Launched
                }
            }
            ("gpioget", [.., line]) => {
                Board::ok(if self.level(line) { "1\n".to_string() } else { "0\n".to_string() })
            }
            ("raspi-gpio", ["set", line, "op", drive]) => {
                self.levels.insert(line.to_string(), *drive == "dh");
                Board::ok(String::new())
            }
            ("raspi-gpio", ["get", line]) => Board::ok(format!(
                "GPIO {}: level={} fsel=1 func=OUTPUT\n",
                line,
                if self.level(line) { 1 } else { 0 }
            )),
            other => panic!("unexpected command {:?}", other),
        }
    }
}

fn drive(controller: &mut GpioController, board: &mut Board, first: Pending) -> Result<(), ApiError> {
    let mut pending = first;
    loop {
        let outcome = board.run(&pending.command());
        match controller.resume(pending, &outcome) {
            Step::Run(next) => pending = next,
            Step::Done(result) => return result,
        }
    }
}

fn set(
    controller: &mut GpioController,
    board: &mut Board,
    pin: u32,
    on: bool,
    active_low: bool,
) -> Result<(), ApiError> {
    let first = controller.set_pin(pin, on, active_low);
    drive(controller, board, first)
}

fn toggle(controller: &mut GpioController, board: &mut Board, pin: u32) -> Result<(), ApiError> {
    let first = controller.toggle_pin(pin);
    drive(controller, board, first)
}

fn pins_of(all: &[PinStatus]) -> Vec<u32> {
    let mut pins: Vec<u32> = all.iter().map(|status| status.pin).collect();
    pins.sort();
    pins
}

#[test]
fn new_controller_uses_the_gpio_utility_with_broadcom_lines() {
    assert_eq!(GpioController::new().backend(), Backend::GpioBcm);
    for backend in ALL {
        assert_eq!(GpioController::with_backend(backend).backend(), backend);
    }
}

#[test]
fn untouched_pins_are_unknown() {
    let controller = GpioController::new();
    for pin in [0u32, 1, 17, 27, 37, 38, u32::MAX] {
        assert_eq!(controller.get_pin_state(pin), PinState::Unknown);
    }
    assert!(controller.get_all_pin_states().is_empty());
}

#[test]
fn pins_stay_unknown_while_others_are_driven() {
    for backend in ALL {
        let mut controller = GpioController::with_backend(backend);
        let mut board = Board::new();
        set(&mut controller, &mut board, 17, true, false).unwrap();
        toggle(&mut controller, &mut board, 22).unwrap();
        for pin in [0u32, 16, 18, 23, 27, 37] {
            assert_eq!(controller.get_pin_state(pin), PinState::Unknown);
        }
    }
}

#[test]
fn set_pin_plans_the_write_of_the_driven_level() {
    for backend in ALL {
        let controller = GpioController::with_backend(backend);
        for (on, active_low, high) in [
            (true, false, true),
            (false, false, false),
            (true, true, false),
            (false, true, true),
        ] {
            assert_eq!(
                controller.set_pin(17, on, active_low),
                Pending { backend, pin: 17, action: Action::Write { high }, prepared: false }
            );
        }
    }
}

#[test]
fn toggle_pin_plans_a_read() {
    for backend in ALL {
        let controller = GpioController::with_backend(backend);
        assert_eq!(
            controller.toggle_pin(38),
            Pending { backend, pin: 38, action: Action::Read, prepared: false }
        );
    }
}

#[test]
fn set_pin_on_records_high() {
    for backend in ALL {
        let mut controller = GpioController::with_backend(backend);
        let mut board = Board::new();
        assert_eq!(set(&mut controller, &mut board, 17, true, false), Ok(()));
        assert_eq!(controller.get_pin_state(17), PinState::High);
        assert_eq!(set(&mut controller, &mut board, 17, false, false), Ok(()));
        assert_eq!(controller.get_pin_state(17), PinState::Low);
    }
}

#[test]
fn set_pin_on_with_active_low_records_low() {
    for backend in ALL {
        let mut controller = GpioController::with_backend(backend);
        let mut board = Board::new();
        assert_eq!(set(&mut controller, &mut board, 17, true, true), Ok(()));
        assert_eq!(controller.get_pin_state(17), PinState::Low);
        assert!(!board.level("17"));
        assert_eq!(set(&mut controller, &mut board, 17, false, true), Ok(()));
        assert_eq!(controller.get_pin_state(17), PinState::High);
        assert!(board.level("17"));
    }
}

#[test]
fn nothing_is_recorded_before_the_last_command_succeeds() {
    let mut controller = GpioController::with_backend(Backend::Gpio);
    let pending = controller.set_pin(17, true, false);
    assert_eq!(controller.get_pin_state(17), PinState::Unknown);
    let step = controller.resume(pending, &Board::ok(String::new()));
    assert_eq!(step, Step::Run(Pending { prepared: true, ..pending }));
    assert_eq!(controller.get_pin_state(17), PinState::Unknown);
    let Step::Run(next) = step else { panic!("the write is still due") };
    assert_eq!(controller.resume(next, &Board::ok(String::new())), Step::Done(Ok(())));
    assert_eq!(controller.get_pin_state(17), PinState::High);
}

#[test]
fn toggle_reads_then_writes_the_opposite() {
    for backend in ALL {
        let mut controller = GpioController::with_backend(backend);
        let mut board = Board::new();
        board.levels.insert(backend.line(37).to_string(), true);
        assert_eq!(toggle(&mut controller, &mut board, 37), Ok(()));
        assert_eq!(controller.get_pin_state(37), PinState::Low);
        assert!(!board.level(&backend.line(37).to_string()));
        let commands = if backend.sets_mode() { 4 } else { 2 };
        assert_eq!(board.log.len(), commands);
    }
}

#[test]
fn toggle_twice_restores_the_recorded_state() {
    for backend in ALL {
        for start in [true, false] {
            let mut controller = GpioController::with_backend(backend);
            let mut board = Board::new();
            set(&mut controller, &mut board, 38, start, false).unwrap();
            let before = controller.get_pin_state(38);
            let all_before = controller.snapshot("t");
            toggle(&mut controller, &mut board, 38).unwrap();
            assert_ne!(controller.get_pin_state(38), before);
            toggle(&mut controller, &mut board, 38).unwrap();
            assert_eq!(controller.get_pin_state(38), before);
            assert_eq!(controller.snapshot("t"), all_before);
        }
    }
}

#[test]
fn toggle_of_an_unreadable_level_drives_high() {
    let mut controller = GpioController::with_backend(Backend::GpiosetExit);
    let pending = controller.toggle_pin(5);
    let step = controller.resume(pending, &Board::ok("garbage".to_string()));
    assert_eq!(
        step,
        Step::Run(Pending {
            backend: Backend::GpiosetExit,
            pin: 5,
            action: Action::Write { high: true },
            prepared: false
        })
    );
    assert_eq!(controller.get_pin_state(5), PinState::Unknown);
}

#[test]
fn toggle_of_a_high_pin_drives_low() {
    let mut controller = GpioController::with_backend(Backend::RaspiGpio);
    let pending = controller.toggle_pin(5);
    let step = controller.resume(pending, &Board::ok("GPIO 5: level=1 fsel=1\n".to_string()));
    assert_eq!(step, Step::Run(Backend::RaspiGpio.write(5, false)));
}

#[test]
fn failed_write_leaves_the_record_unchanged() {
    for backend in ALL {
        let stages = if backend.sets_mode() { 2 } else { 1 };
        for fail_at in 0..stages {
            let mut controller = GpioController::with_backend(backend);
            let mut board = Board::new();
            set(&mut controller, &mut board, 17, true, false).unwrap();
            set(&mut controller, &mut board, 27, false, false).unwrap();
            let before = controller.snapshot("t");
            board.fail_at = Some(board.log.len() + fail_at);
            let result = set(&mut controller, &mut board, 17, false, false);
            assert!(matches!(result, Err(ApiError::GpioError(_))), "{:?}", result);
            let mut after = controller.snapshot("t");
            let mut expected = before.clone();
            after.sort_by_key(|status| status.pin);
            expected.sort_by_key(|status| status.pin);
            assert_eq!(after, expected);
            assert_eq!(controller.get_pin_state(17), PinState::High);
        }
    }
}

#[test]
fn failed_first_write_leaves_the_pin_unknown() {
    for backend in ALL {
        let mut controller = GpioController::with_backend(backend);
        let mut board = Board::new();
        board.fail_at = Some(0);
        let result = set(&mut controller, &mut board, 17, true, false);
        assert!(matches!(result, Err(ApiError::GpioError(_))));
        assert_eq!(controller.get_pin_state(17), PinState::Unknown);
        assert!(controller.get_all_pin_states().is_empty());
        assert_eq!(board.log.len(), 1);
    }
}

#[test]
fn unreachable_tool_yields_a_gpio_error() {
    for backend in ALL {
        let mut controller = GpioController::with_backend(backend);
        let mut board = Board::new();
        board.missing = true;
        let expected = if backend == Backend::Gpio {
            "Failed to execute gpio command: No such file or directory (os error 2)"
        } else {
            "GPIO command failed: No such file or directory (os error 2)"
        };
        assert_eq!(
            set(&mut controller, &mut board, 17, true, false),
            Err(ApiError::GpioError(expected.to_string()))
        );
        assert_eq!(controller.get_pin_state(17), PinState::Unknown);
        assert!(matches!(
            toggle(&mut controller, &mut board, 17),
            Err(ApiError::GpioError(_))
        ));
        assert_eq!(controller.get_pin_state(17), PinState::Unknown);
    }
}

#[test]
fn failed_toggle_leaves_the_record_unchanged() {
    for backend in ALL {
        let commands = if backend.sets_mode() { 4 } else { 2 };
        for fail_at in 0..commands {
            let mut controller = GpioController::with_backend(backend);
            let mut board = Board::new();
            set(&mut controller, &mut board, 23, true, false).unwrap();
            board.fail_at = Some(board.log.len() + fail_at);
            let result = toggle(&mut controller, &mut board, 23);
            assert!(matches!(result, Err(ApiError::GpioError(_))), "{:?}", result);
            assert_eq!(controller.get_pin_state(23), PinState::High);
            assert_eq!(controller.snapshot("t").len(), 1);
        }
    }
}

#[test]
fn failure_message_carries_the_tools_complaint() {
    let mut controller = GpioController::new();
    let mut board = Board::new();
    board.fail_at = Some(1);
    assert_eq!(
        set(&mut controller, &mut board, 37, true, false),
        Err(ApiError::GpioError("Failed to write: device busy".to_string()))
    );
    board.fail_at = Some(2);
    assert_eq!(
        set(&mut controller, &mut board, 37, true, false),
        Err(ApiError::GpioError("Failed to set mode: device busy".to_string()))
    );
    board.fail_at = Some(4);
    assert_eq!(
        toggle(&mut controller, &mut board, 37),
        Err(ApiError::GpioError("Failed to read: device busy".to_string()))
    );
}

#[test]
fn pulse_write_succeeds_once_launched() {
    let mut controller = GpioController::with_backend(Backend::GpiosetPulse);
    let pending = controller.set_pin(17, true, false);
    assert!(!pending.command().wait);
    assert_eq!(controller.resume(pending, &Outcome::Launched), Step::Done(Ok(())));
    assert_eq!(controller.get_pin_state(17), PinState::High);
    let pending = controller.set_pin(17, false, false);
    let step = controller.resume(pending, &Outcome::NotStarted("busy".to_string()));
    assert_eq!(
        step,
        Step::Done(Err(ApiError::GpioError("GPIO command failed: busy".to_string())))
    );
    assert_eq!(controller.get_pin_state(17), PinState::High);
}

#[test]
fn snapshot_lists_each_recorded_pin_once() {
    for backend in ALL {
        let mut controller = GpioController::with_backend(backend);
        let mut board = Board::new();
        for pin in [27u32, 17, 27, 38, 17, 37, 27] {
            set(&mut controller, &mut board, pin, pin % 2 == 1, false).unwrap();
        }
        toggle(&mut controller, &mut board, 22).unwrap();
        board.fail_at = Some(board.log.len());
        assert!(set(&mut controller, &mut board, 5, true, false).is_err());
        let all = controller.snapshot("2024-01-01T00:00:00+00:00");
        assert_eq!(pins_of(&all), [17, 22, 27, 37, 38]);
        for status in &all {
            assert_eq!(status.state, controller.get_pin_state(status.pin));
            assert_eq!(status.last_toggled.as_deref(), Some("2024-01-01T00:00:00+00:00"));
        }
    }
}

#[test]
fn snapshot_does_not_depend_on_the_order_of_writes() {
    let orders: [[u32; 4]; 3] = [[17, 27, 37, 38], [38, 37, 27, 17], [27, 38, 17, 37]];
    let mut seen: Vec<Vec<(u32, PinState)>> = Vec::new();
    for order in orders {
        let mut controller = GpioController::new();
        let mut board = Board::new();
        for pin in order {
            set(&mut controller, &mut board, pin, pin > 30, false).unwrap();
        }
        let mut all: Vec<(u32, PinState)> = controller
            .snapshot("now")
            .iter()
            .map(|status| (status.pin, status.state))
            .collect();
        all.sort_by_key(|entry| entry.0);
        seen.push(all);
    }
    assert_eq!(seen[0], seen[1]);
    assert_eq!(seen[1], seen[2]);
    assert_eq!(
        seen[0],
        [
            (17, PinState::Low),
            (27, PinState::Low),
            (37, PinState::High),
            (38, PinState::High)
        ]
    );
}

#[test]
fn all_pin_states_are_stamped_with_the_time_of_the_call() {
    let mut controller = GpioController::new();
    let mut board = Board::new();
    set(&mut controller, &mut board, 17, true, false).unwrap();
    set(&mut controller, &mut board, 27, false, false).unwrap();
    let before = chrono::Local::now();
    let all = controller.get_all_pin_states();
    let after = chrono::Local::now();
    assert_eq!(pins_of(&all), [17, 27]);
    let first = all[0].last_toggled.clone().expect("a timestamp");
    for status in &all {
        assert_eq!(status.last_toggled.as_ref(), Some(&first));
        assert_eq!(status.state, controller.get_pin_state(status.pin));
    }
    let stamp = chrono::DateTime::parse_from_rfc3339(&first).expect("an RFC 3339 timestamp");
    assert!(before <= stamp && stamp <= after);
}

#[test]
fn fireplace_on_leaves_the_fan_untouched() {
    let mut controller = GpioController::new();
    let mut board = Board::new();
    assert_eq!(set(&mut controller, &mut board, 17, true, false), Ok(()));
    assert_eq!(controller.get_pin_state(17), PinState::High);
    assert_eq!(controller.get_pin_state(27), PinState::Unknown);
    assert_eq!(board.log, ["gpio -g mode 17 out", "gpio -g write 17 1"]);
    assert!(board.level("17"));
    assert!(!board.levels.contains_key("27"));
}

#[test]
fn fireplace_on_with_every_tool() {
    let expected: [(Backend, &[&str]); 6] = [
        (Backend::Gpio, &["gpio mode 17 out", "gpio write 17 1"]),
        (Backend::GpioBcm, &["gpio -g mode 17 out", "gpio -g write 17 1"]),
        (Backend::GpiosetTimed, &["gpioset -c gpiochip0 -t 200ms,0 17=1"]),
        (Backend::GpiosetExit, &["gpioset --mode=exit --chip=gpiochip0 17=1"]),
        (Backend::GpiosetPulse, &["gpioset --chip gpiochip0 --hold-period 50ms 17=1"]),
        (Backend::RaspiGpio, &["raspi-gpio set 17 op dh"]),
    ];
    for (backend, log) in expected {
        let mut controller = GpioController::with_backend(backend);
        let mut board = Board::new();
        assert_eq!(set(&mut controller, &mut board, 17, true, false), Ok(()));
        assert_eq!(board.log, log);
        assert_eq!(controller.get_pin_state(17), PinState::High);
        assert_eq!(controller.get_pin_state(27), PinState::Unknown);
    }
}

#[test]
fn record_is_keyed_by_the_callers_pin_number() {
    let mut controller = GpioController::new();
    let mut board = Board::new();
    set(&mut controller, &mut board, 37, true, false).unwrap();
    assert_eq!(board.log, ["gpio -g mode 26 out", "gpio -g write 26 1"]);
    assert_eq!(controller.get_pin_state(37), PinState::High);
    assert_eq!(controller.get_pin_state(26), PinState::Unknown);
}

#[test]
fn no_pin_is_listed_as_unknown() {
    for backend in ALL {
        let mut controller = GpioController::with_backend(backend);
        let mut board = Board::new();
        set(&mut controller, &mut board, 17, true, false).unwrap();
        set(&mut controller, &mut board, 27, false, false).unwrap();
        toggle(&mut controller, &mut board, 22).unwrap();
        board.fail_at = Some(board.log.len());
        assert!(toggle(&mut controller, &mut board, 5).is_err());
        board.fail_at = None;
        let pending = controller.toggle_pin(6);
        if !backend.sets_mode() {
            let step = controller.resume(pending, &Board::ok("?".to_string()));
            assert!(matches!(step, Step::Run(_)));
        }
        for all in [controller.snapshot("t"), controller.get_all_pin_states()] {
            assert_eq!(pins_of(&all), [17, 22, 27]);
            for status in &all {
                assert_ne!(status.state, PinState::Unknown);
                assert_eq!(status.state, controller.get_pin_state(status.pin));
            }
        }
        assert_eq!(controller.get_pin_state(5), PinState::Unknown);
        assert_eq!(controller.get_pin_state(6), PinState::Unknown);
    }
}
