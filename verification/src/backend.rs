//! The backend tools and the procedures that drive a pin through them.
//!
//! A procedure writes a level to a pin or reads the pin's level. Depending on
//! the tool it takes one command or two: the `gpio` utility wants the pin's
//! direction set before every transfer. A [`Pending`] value is a procedure that
//! still has a command to run; [`Pending::command`] says which, and
//! [`Pending::advance`] judges what came of it.

use crate::command::{push_text, push_word, Command, CommandView, Outcome, OutcomeView};
use crate::gpio::PinState;
use crate::pins::{bcm_line, is_mapped, is_mapped_pin, physical_to_bcm};
use crate::text::{
    contains, contains_text, decimal, decimal_string, same_text, trimmed, trimmed_is,
};
use vstd::prelude::*;

verus! {

/// The command-line tool family that drives the pins.
#[derive(Clone, Copy, Debug, PartialEq, Eq, Structural)]
pub enum Backend {
    /// The `gpio` utility, addressed by the pin number as given.
    Gpio,
    /// The `gpio` utility with `-g`, addressed by Broadcom line.
    GpioBcm,
    /// `gpioset`/`gpioget` with short flags and a timed pulse, addressed by
    /// Broadcom line.
    GpiosetTimed,
    /// `gpioset`/`gpioget` with long flags; `gpioset` sets the line and exits.
    GpiosetExit,
    /// `gpioset` with a hold period, started and not waited for.
    GpiosetPulse,
    /// The `raspi-gpio` utility.
    RaspiGpio,
}

/// What a procedure does to its pin.
#[derive(Clone, Copy, Debug, PartialEq, Eq, Structural)]
pub enum Action {
    /// Drive the pin high or low.
    Write { high: bool },
    /// Sample the pin's level.
    Read,
}

/// Which command of a procedure is due.
#[derive(Clone, Copy, Debug, PartialEq, Eq, Structural)]
pub enum Stage {
    /// Setting the pin's direction.
    Mode,
    /// The write or the read itself.
    Transfer,
}

/// A procedure with a command still to run.
#[derive(Clone, Copy, Debug, PartialEq, Eq, Structural)]
pub struct Pending {
    pub backend: Backend,
    /// The pin as the caller numbers it.
    pub pin: u32,
    pub action: Action,
    /// Whether the pin's direction has been set already.
    pub prepared: bool,
}

/// What a judged command leads to.
#[derive(Clone, Debug, PartialEq, Eq)]
pub enum Advance {
    /// The procedure goes on with another command.
    Continue(Pending),
    /// The write is done; the pin was driven to `high`.
    Wrote { high: bool },
    /// The read is done and gave this level.
    Sampled(PinState),
    /// The procedure failed; holds the message.
    Failed(String),
}

/// An [`Advance`] as plain text.
pub enum AdvanceView {
    Continue(Pending),
    Wrote { high: bool },
    Sampled(PinState),
    Failed(Seq<char>),
}

impl View for Advance {
    type V = AdvanceView;

    open spec fn view(&self) -> AdvanceView {
        match self {
            Advance::Continue(next) => AdvanceView::Continue(*next),
            Advance::Wrote { high } => AdvanceView::Wrote { high: *high },
            Advance::Sampled(state) => AdvanceView::Sampled(*state),
            Advance::Failed(message) => AdvanceView::Failed(message@),
        }
    }
}

/// How a level is written on a command line.
pub open spec fn bit(high: bool) -> Seq<char> {
    if high {
        "1"@
    } else {
        "0"@
    }
}

/// The arguments that the `gpio` utility takes after its flags.
pub open spec fn gpio_words(stage: Stage, action: Action, line: Seq<char>) -> Seq<Seq<char>> {
    match stage {
        Stage::Mode => match action {
            Action::Write { .. } => seq!["mode"@, line, "out"@],
            Action::Read => seq!["mode"@, line, "in"@],
        },
        Stage::Transfer => match action {
            Action::Write { high } => seq!["write"@, line, bit(high)],
            Action::Read => seq!["read"@, line],
        },
    }
}

impl Backend {
    /// The backend that a deployment selects by `name`.
    pub open spec fn spec_named(name: Seq<char>) -> Option<Backend> {
        if name == "gpio"@ {
            Some(Backend::Gpio)
        } else if name == "gpio-bcm"@ {
            Some(Backend::GpioBcm)
        } else if name == "gpioset-timed"@ {
            Some(Backend::GpiosetTimed)
        } else if name == "gpioset-exit"@ {
            Some(Backend::GpiosetExit)
        } else if name == "gpioset-pulse"@ {
            Some(Backend::GpiosetPulse)
        } else if name == "raspi-gpio"@ {
            Some(Backend::RaspiGpio)
        } else {
            None
        }
    }

    /// The backend that a deployment selects by `name`, if there is one of
    /// that name.
    pub fn named(name: &str) -> (backend: Option<Backend>)
        ensures
            backend == Backend::spec_named(name@),
    {
        if same_text(name, "gpio") {
            Some(Backend::Gpio)
        } else if same_text(name, "gpio-bcm") {
            Some(Backend::GpioBcm)
        } else if same_text(name, "gpioset-timed") {
            Some(Backend::GpiosetTimed)
        } else if same_text(name, "gpioset-exit") {
            Some(Backend::GpiosetExit)
        } else if same_text(name, "gpioset-pulse") {
            Some(Backend::GpiosetPulse)
        } else if same_text(name, "raspi-gpio") {
            Some(Backend::RaspiGpio)
        } else {
            None
        }
    }

    /// Whether the tool is addressed by Broadcom line.
    pub open spec fn spec_translates(&self) -> bool {
        *self == Backend::GpioBcm || *self == Backend::GpiosetTimed
    }

    /// Whether the tool is addressed by Broadcom line.
    #[verifier::when_used_as_spec(spec_translates)]
    pub fn translates(&self) -> (yes: bool)
        ensures
            yes == self.spec_translates(),
    {
        match self {
            Backend::GpioBcm | Backend::GpiosetTimed => true,
            _ => false,
        }
    }

    /// Whether the tool wants the pin's direction set before a transfer.
    pub open spec fn spec_sets_mode(&self) -> bool {
        *self == Backend::Gpio || *self == Backend::GpioBcm
    }

    /// Whether the tool wants the pin's direction set before a transfer.
    #[verifier::when_used_as_spec(spec_sets_mode)]
    pub fn sets_mode(&self) -> (yes: bool)
        ensures
            yes == self.spec_sets_mode(),
    {
        match self {
            Backend::Gpio | Backend::GpioBcm => true,
            _ => false,
        }
    }

    /// The number by which the tool knows `pin`.
    pub open spec fn spec_line(&self, pin: u32) -> u32 {
        if self.spec_translates() {
            bcm_line(pin)
        } else {
            pin
        }
    }

    /// The number by which the tool knows `pin`.
    #[verifier::when_used_as_spec(spec_line)]
    pub fn line(&self, pin: u32) -> (line: u32)
        ensures
            line == self.spec_line(pin),
    {
        if self.translates() {
            physical_to_bcm(pin)
        } else {
            pin
        }
    }

    /// Whether `pin` goes to a tool that is addressed by Broadcom line
    /// although the table has no line for it. The pin is then handed over
    /// under its own number, which is worth a warning.
    pub open spec fn spec_guesses_line(&self, pin: u32) -> bool {
        self.spec_translates() && !is_mapped(pin)
    }

    /// Whether `pin` goes to a tool that is addressed by Broadcom line
    /// although the table has no line for it.
    #[verifier::when_used_as_spec(spec_guesses_line)]
    pub fn guesses_line(&self, pin: u32) -> (guessed: bool)
        ensures
            guessed == self.spec_guesses_line(pin),
            guessed ==> self.spec_line(pin) == pin,
    {
        self.translates() && !is_mapped_pin(pin)
    }

    /// The level that the tool's read output stands for.
    ///
    /// The `gpio` utility and the timed `gpioget` print `1` for high and
    /// anything else counts as low. The long-flag `gpioget` prints `1` or `0`,
    /// and anything else leaves the level unknown. `raspi-gpio` prints a line
    /// of free text that holds `level=1` or `level=0`.
    pub open spec fn level(&self, output: Seq<char>) -> PinState {
        match self {
            Backend::Gpio | Backend::GpioBcm | Backend::GpiosetTimed => if trimmed(output)
                == "1"@ {
                PinState::High
            } else {
                PinState::Low
            },
            Backend::GpiosetExit | Backend::GpiosetPulse => if trimmed(output) == "1"@ {
                PinState::High
            } else if trimmed(output) == "0"@ {
                PinState::Low
            } else {
                PinState::Unknown
            },
            Backend::RaspiGpio => if contains(output, "level=1"@) {
                PinState::High
            } else if contains(output, "level=0"@) {
                PinState::Low
            } else {
                PinState::Unknown
            },
        }
    }

    /// Reads the level out of what the tool's read command printed.
    pub fn read_level(&self, output: &str) -> (state: PinState)
        ensures
            state == self.level(output@),
    {
        match self {
            Backend::Gpio | Backend::GpioBcm | Backend::GpiosetTimed => {
                if trimmed_is(output, "1") {
                    PinState::High
                } else {
                    PinState::Low
                }
            },
            Backend::GpiosetExit | Backend::GpiosetPulse => {
                if trimmed_is(output, "1") {
                    PinState::High
                } else if trimmed_is(output, "0") {
                    PinState::Low
                } else {
                    PinState::Unknown
                }
            },
            Backend::RaspiGpio => {
                if contains_text(output, "level=1") {
                    PinState::High
                } else if contains_text(output, "level=0") {
                    PinState::Low
                } else {
                    PinState::Unknown
                }
            },
        }
    }

    /// The procedure that drives `pin` to `high`, at its first command.
    pub open spec fn spec_write(&self, pin: u32, high: bool) -> Pending {
        Pending { backend: *self, pin, action: Action::Write { high }, prepared: false }
    }

    /// The procedure that drives `pin` to `high`, at its first command.
    #[verifier::when_used_as_spec(spec_write)]
    pub fn write(&self, pin: u32, high: bool) -> (pending: Pending)
        ensures
            pending == self.spec_write(pin, high),
    {
        Pending { backend: *self, pin, action: Action::Write { high }, prepared: false }
    }

    /// The procedure that samples `pin`, at its first command.
    pub open spec fn spec_read(&self, pin: u32) -> Pending {
        Pending { backend: *self, pin, action: Action::Read, prepared: false }
    }

    /// The procedure that samples `pin`, at its first command.
    #[verifier::when_used_as_spec(spec_read)]
    pub fn read(&self, pin: u32) -> (pending: Pending)
        ensures
            pending == self.spec_read(pin),
    {
        Pending { backend: *self, pin, action: Action::Read, prepared: false }
    }
}

impl Pending {
    /// The command that is due.
    pub open spec fn spec_stage(&self) -> Stage {
        if self.backend.spec_sets_mode() && !self.prepared {
            Stage::Mode
        } else {
            Stage::Transfer
        }
    }

    /// The command that is due.
    #[verifier::when_used_as_spec(spec_stage)]
    pub fn stage(&self) -> (stage: Stage)
        ensures
            stage == self.spec_stage(),
    {
        if self.backend.sets_mode() && !self.prepared {
            Stage::Mode
        } else {
            Stage::Transfer
        }
    }

    /// The command line that is due, word for word.
    pub open spec fn command_line(&self) -> CommandView {
        let line = decimal(self.backend.spec_line(self.pin) as nat);
        match self.backend {
            Backend::Gpio => CommandView {
                program: "gpio"@,
                args: gpio_words(self.spec_stage(), self.action, line),
                wait: true,
            },
            Backend::GpioBcm => CommandView {
                program: "gpio"@,
                args: seq!["-g"@] + gpio_words(self.spec_stage(), self.action, line),
                wait: true,
            },
            Backend::GpiosetTimed => match self.action {
                Action::Write { high } => CommandView {
                    program: "gpioset"@,
                    args: seq!["-c"@, "gpiochip0"@, "-t"@, "200ms,0"@, line + "="@ + bit(high)],
                    wait: true,
                },
                Action::Read => CommandView {
                    program: "gpioget"@,
                    args: seq!["-c"@, "gpiochip0"@, line],
                    wait: true,
                },
            },
            Backend::GpiosetExit => match self.action {
                Action::Write { high } => CommandView {
                    program: "gpioset"@,
                    args: seq!["--mode=exit"@, "--chip=gpiochip0"@, line + "="@ + bit(high)],
                    wait: true,
                },
                Action::Read => CommandView {
                    program: "gpioget"@,
                    args: seq!["--chip=gpiochip0"@, line],
                    wait: true,
                },
            },
            Backend::GpiosetPulse => match self.action {
                Action::Write { high } => CommandView {
                    program: "gpioset"@,
                    args: seq![
                        "--chip"@,
                        "gpiochip0"@,
                        "--hold-period"@,
                        "50ms"@,
                        line + "="@ + bit(high),
                    ],
                    wait: false,
                },
                Action::Read => CommandView {
                    program: "gpioget"@,
                    args: seq!["--chip"@, "gpiochip0"@, line],
                    wait: true,
                },
            },
            Backend::RaspiGpio => match self.action {
                Action::Write { high } => CommandView {
                    program: "raspi-gpio"@,
                    args: seq!["set"@, line, "op"@, if high {
                        "dh"@
                    } else {
                        "dl"@
                    }],
                    wait: true,
                },
                Action::Read => CommandView {
                    program: "raspi-gpio"@,
                    args: seq!["get"@, line],
                    wait: true,
                },
            },
        }
    }

    /// How the message of a failure at the command that is due begins.
    /// `started` tells a process that ran and failed from one that never ran.
    pub open spec fn failure_prefix(&self, started: bool) -> Seq<char> {
        if self.backend == Backend::Gpio {
            match self.spec_stage() {
                Stage::Mode => if started || self.action == Action::Read {
                    "Failed to set GPIO mode: "@
                } else {
                    "Failed to execute gpio command: "@
                },
                Stage::Transfer => match self.action {
                    Action::Write { .. } => "Failed to write GPIO pin: "@,
                    Action::Read => "Failed to read GPIO pin: "@,
                },
            }
        } else if !started {
            "GPIO command failed: "@
        } else {
            match self.spec_stage() {
                Stage::Mode => "Failed to set mode: "@,
                Stage::Transfer => match self.action {
                    Action::Write { .. } => "Failed to write: "@,
                    Action::Read => "Failed to read: "@,
                },
            }
        }
    }

    /// Where the procedure stands once the command that was due has come to
    /// `outcome`.
    ///
    /// A command that did not succeed fails the procedure, with a message made
    /// of [`Pending::failure_prefix`] and the outcome's complaint. A mode
    /// command that succeeded leaves the transfer to run. A transfer that
    /// succeeded ends the procedure.
    pub open spec fn advanced(&self, outcome: OutcomeView) -> AdvanceView {
        if !outcome.succeeded() {
            AdvanceView::Failed(
                self.failure_prefix(!(outcome is NotStarted)) + outcome.complaint(),
            )
        } else if self.spec_stage() == Stage::Mode {
            AdvanceView::Continue(Pending { prepared: true, ..*self })
        } else {
            match self.action {
                Action::Write { high } => AdvanceView::Wrote { high },
                Action::Read => AdvanceView::Sampled(self.backend.level(outcome.output())),
            }
        }
    }

    /// Builds the command that is due.
    pub fn command(&self) -> (command: Command)
        ensures
            command@ == self.command_line(),
    {
        let line = decimal_string(self.backend.line(self.pin));
        let mut args: Vec<String> = Vec::new();
        let program: &str;
        let mut wait = true;
        match self.backend {
            Backend::Gpio | Backend::GpioBcm => {
                program = "gpio";
                if self.backend.translates() {
                    push_word(&mut args, "-g");
                }
                match self.stage() {
                    Stage::Mode => {
                        push_word(&mut args, "mode");
                        push_text(&mut args, line);
                        match self.action {
                            Action::Write { .. } => push_word(&mut args, "out"),
                            Action::Read => push_word(&mut args, "in"),
                        }
                    },
                    Stage::Transfer => match self.action {
                        Action::Write { high } => {
                            push_word(&mut args, "write");
                            push_text(&mut args, line);
                            push_word(&mut args, bit_text(high));
                        },
                        Action::Read => {
                            push_word(&mut args, "read");
                            push_text(&mut args, line);
                        },
                    },
                }
            },
            Backend::GpiosetTimed => match self.action {
                Action::Write { high } => {
                    program = "gpioset";
                    push_word(&mut args, "-c");
                    push_word(&mut args, "gpiochip0");
                    push_word(&mut args, "-t");
                    push_word(&mut args, "200ms,0");
                    push_text(&mut args, assignment(line, high));
                },
                Action::Read => {
                    program = "gpioget";
                    push_word(&mut args, "-c");
                    push_word(&mut args, "gpiochip0");
                    push_text(&mut args, line);
                },
            },
            Backend::GpiosetExit => match self.action {
                Action::Write { high } => {
                    program = "gpioset";
                    push_word(&mut args, "--mode=exit");
                    push_word(&mut args, "--chip=gpiochip0");
                    push_text(&mut args, assignment(line, high));
                },
                Action::Read => {
                    program = "gpioget";
                    push_word(&mut args, "--chip=gpiochip0");
                    push_text(&mut args, line);
                },
            },
            Backend::GpiosetPulse => match self.action {
                Action::Write { high } => {
                    program = "gpioset";
                    wait = false;
                    push_word(&mut args, "--chip");
                    push_word(&mut args, "gpiochip0");
                    push_word(&mut args, "--hold-period");
                    push_word(&mut args, "50ms");
                    push_text(&mut args, assignment(line, high));
                },
                Action::Read => {
                    program = "gpioget";
                    push_word(&mut args, "--chip");
                    push_word(&mut args, "gpiochip0");
                    push_text(&mut args, line);
                },
            },
            Backend::RaspiGpio => {
                program = "raspi-gpio";
                match self.action {
                    Action::Write { high } => {
                        push_word(&mut args, "set");
                        push_text(&mut args, line);
                        push_word(&mut args, "op");
                        if high {
                            push_word(&mut args, "dh");
                        } else {
                            push_word(&mut args, "dl");
                        }
                    },
                    Action::Read => {
                        push_word(&mut args, "get");
                        push_text(&mut args, line);
                    },
                }
            },
        }
        let command = Command { program: String::from_str(program), args, wait };
        assert(command@.args =~= self.command_line().args);
        command
    }

    /// The text with which the message of a failure at the command that is
    /// due begins.
    pub fn failure_start(&self, started: bool) -> (text: &'static str)
        ensures
            text@ == self.failure_prefix(started),
    {
        if self.backend == Backend::Gpio {
            match self.stage() {
                Stage::Mode => {
                    if started || self.action == Action::Read {
                        "Failed to set GPIO mode: "
                    } else {
                        "Failed to execute gpio command: "
                    }
                },
                Stage::Transfer => match self.action {
                    Action::Write { .. } => "Failed to write GPIO pin: ",
                    Action::Read => "Failed to read GPIO pin: ",
                },
            }
        } else if !started {
            "GPIO command failed: "
        } else {
            match self.stage() {
                Stage::Mode => "Failed to set mode: ",
                Stage::Transfer => match self.action {
                    Action::Write { .. } => "Failed to write: ",
                    Action::Read => "Failed to read: ",
                },
            }
        }
    }

    /// Judges what came of the command that was due.
    pub fn advance(&self, outcome: &Outcome) -> (next: Advance)
        ensures
            next@ == self.advanced(outcome@),
    {
        match outcome {
            Outcome::NotStarted(reason) => {
                let mut message = String::from_str(self.failure_start(false));
                message.append(reason.as_str());
                Advance::Failed(message)
            },
            Outcome::Launched => {
                proof {
                    reveal_strlit("");
                    assert(""@ == Seq::<char>::empty());
                }
                self.proceed("")
            },
            Outcome::Exited { success, stdout, stderr } => {
                if *success {
                    self.proceed(stdout.as_str())
                } else {
                    let mut message = String::from_str(self.failure_start(true));
                    message.append(stderr.as_str());
                    Advance::Failed(message)
                }
            },
        }
    }

    /// Where the procedure stands once the command that was due has succeeded
    /// and printed `output`.
    fn proceed(&self, output: &str) -> (next: Advance)
        ensures
            next@ == (if self.spec_stage() == Stage::Mode {
                AdvanceView::Continue(Pending { prepared: true, ..*self })
            } else {
                match self.action {
                    Action::Write { high } => AdvanceView::Wrote { high },
                    Action::Read => AdvanceView::Sampled(self.backend.level(output@)),
                }
            }),
    {
        match self.stage() {
            Stage::Mode => Advance::Continue(
                Pending {
                    backend: self.backend,
                    pin: self.pin,
                    action: self.action,
                    prepared: true,
                },
            ),
            Stage::Transfer => match self.action {
                Action::Write { high } => Advance::Wrote { high },
                Action::Read => Advance::Sampled(self.backend.read_level(output)),
            },
        }
    }
}

/// The word that writes a level on a command line.
fn bit_text(high: bool) -> (text: &'static str)
    ensures
        text@ == bit(high),
{
    if high {
        "1"
    } else {
        "0"
    }
}

/// The `line=level` word that `gpioset` takes.
fn assignment(line: String, high: bool) -> (word: String)
    ensures
        word@ == line@ + "="@ + bit(high),
{
    let mut word = line;
    word.append("=");
    word.append(bit_text(high));
    word
}

} // verus!
