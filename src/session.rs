use vstd::prelude::*;
use crate::flags::{factory_flags, Stage, StageFlags};
use crate::keys::{command_of, map_key, Command};
use crate::pipeline::{plan, stages_for};
use crate::thresholds::{
    factory_thresholds, stepped_down, stepped_up, ThresholdField, ThresholdParams,
};

verus! {

/// The two states of the control loop.
#[derive(Clone, Copy, Debug, PartialEq, Eq, Structural)]
pub enum Phase {
    Running,
    Terminated,
}

/// What the loop has to do outside the session after a command was applied.
#[derive(Clone, Copy, Debug, PartialEq, Eq, Structural)]
pub enum Reaction {
    /// Nothing beyond the state change, if any.
    Nothing,
    /// Show the key bindings over the picture.
    ShowHelp,
    /// Note that a key without a binding was pressed; the state is unchanged.
    ReportUnmapped(i32),
    /// Leave the loop and save the settings.
    Stop,
}

/// The settings kept between sessions: the thresholds and the switches.
#[derive(Clone, Copy, Debug, PartialEq, Eq, Structural)]
pub struct ConfigurationSnapshot {
    pub thresholds: ThresholdParams,
    pub flags: StageFlags,
}

/// The state that the control loop owns and commands change.
#[derive(Clone, Copy, Debug, PartialEq, Eq, Structural)]
pub struct Session {
    pub thresholds: ThresholdParams,
    pub flags: StageFlags,
    pub phase: Phase,
}

/// The session at start-up: the loaded settings taken whole when there are
/// any, the factory values otherwise.
pub open spec fn initial_session(loaded: Option<ConfigurationSnapshot>) -> Session {
    match loaded {
        Some(c) => Session { thresholds: c.thresholds, flags: c.flags, phase: Phase::Running },
        None => Session {
            thresholds: factory_thresholds(),
            flags: factory_flags(),
            phase: Phase::Running,
        },
    }
}

/// The session after `cmd`.
pub open spec fn after_command(s: Session, cmd: Command) -> Session {
    match cmd {
        Command::Quit => Session { phase: Phase::Terminated, ..s },
        Command::ToggleGreyscale => Session {
            flags: s.flags.with(Stage::Greyscale, !s.flags.greyscale),
            ..s
        },
        Command::ToggleEdges => Session { flags: s.flags.with(Stage::Edges, !s.flags.edges), ..s },
        Command::ToggleBlur => Session { flags: s.flags.with(Stage::Blur, !s.flags.blur), ..s },
        Command::ToggleInvert => Session {
            flags: s.flags.with(Stage::Invert, !s.flags.invert),
            ..s
        },
        Command::ResetThresholds => Session { thresholds: factory_thresholds(), ..s },
        Command::IncreaseLow => Session {
            thresholds: ThresholdParams { low: stepped_up(s.thresholds.low), ..s.thresholds },
            ..s
        },
        Command::DecreaseLow => Session {
            thresholds: ThresholdParams { low: stepped_down(s.thresholds.low), ..s.thresholds },
            ..s
        },
        Command::IncreaseHigh => Session {
            thresholds: ThresholdParams { high: stepped_up(s.thresholds.high), ..s.thresholds },
            ..s
        },
        Command::DecreaseHigh => Session {
            thresholds: ThresholdParams { high: stepped_down(s.thresholds.high), ..s.thresholds },
            ..s
        },
        Command::ShowHelp | Command::Unmapped(_) | Command::NoKey => s,
    }
}

/// What the loop does outside the session after `cmd`.
pub open spec fn reaction_to(cmd: Command) -> Reaction {
    match cmd {
        Command::Quit => Reaction::Stop,
        Command::ShowHelp => Reaction::ShowHelp,
        Command::Unmapped(code) => Reaction::ReportUnmapped(code),
        _ => Reaction::Nothing,
    }
}

/// The session after the commands of `cmds`, applied in order.
pub open spec fn after_commands(s: Session, cmds: Seq<Command>) -> Session
    decreases cmds.len(),
{
    if cmds.len() == 0 {
        s
    } else {
        after_command(after_commands(s, cmds.drop_last()), cmds.last())
    }
}

/// The settings that a session holds.
pub open spec fn snapshot_of(s: Session) -> ConfigurationSnapshot {
    ConfigurationSnapshot { thresholds: s.thresholds, flags: s.flags }
}

impl Session {
    /// Starts a session from the settings loaded at start-up, if any were
    /// read and parsed; otherwise from the factory values.
    pub fn start(loaded: Option<ConfigurationSnapshot>) -> (r: Session)
        ensures
            r == initial_session(loaded),
    {
        match loaded {
            Some(c) => Session { thresholds: c.thresholds, flags: c.flags, phase: Phase::Running },
            None => Session {
                thresholds: ThresholdParams::defaults(),
                flags: StageFlags::all_enabled(),
                phase: Phase::Running,
            },
        }
    }

    /// Whether the loop goes on.
    pub fn is_running(&self) -> (r: bool)
        ensures
            r == (self.phase == Phase::Running),
    {
        match self.phase {
            Phase::Running => true,
            Phase::Terminated => false,
        }
    }

    /// Applies one command and says what the loop has to do besides.
    pub fn apply(&mut self, cmd: Command) -> (r: Reaction)
        ensures
            *final(self) == after_command(*old(self), cmd),
            r == reaction_to(cmd),
    {
        match cmd {
            Command::Quit => {
                self.phase = Phase::Terminated;
                Reaction::Stop
            },
            Command::ToggleGreyscale => {
                self.flags.toggle(Stage::Greyscale);
                Reaction::Nothing
            },
            Command::ToggleEdges => {
                self.flags.toggle(Stage::Edges);
                Reaction::Nothing
            },
            Command::ToggleBlur => {
                self.flags.toggle(Stage::Blur);
                Reaction::Nothing
            },
            Command::ToggleInvert => {
                self.flags.toggle(Stage::Invert);
                Reaction::Nothing
            },
            Command::ResetThresholds => {
                self.thresholds.reset_to_defaults();
                Reaction::Nothing
            },
            Command::IncreaseLow => {
                self.thresholds.increase(ThresholdField::Low);
                Reaction::Nothing
            },
            Command::DecreaseLow => {
                self.thresholds.decrease(ThresholdField::Low);
                Reaction::Nothing
            },
            Command::IncreaseHigh => {
                self.thresholds.increase(ThresholdField::High);
                Reaction::Nothing
            },
            Command::DecreaseHigh => {
                self.thresholds.decrease(ThresholdField::High);
                Reaction::Nothing
            },
            Command::ShowHelp => Reaction::ShowHelp,
            Command::Unmapped(code) => Reaction::ReportUnmapped(code),
            Command::NoKey => Reaction::Nothing,
        }
    }

    /// Decodes a polled key code and applies the command it stands for.
    pub fn handle_key(&mut self, code: i32) -> (r: Reaction)
        ensures
            *final(self) == after_command(*old(self), command_of(code)),
            r == reaction_to(command_of(code)),
    {
        let cmd = map_key(code);
        self.apply(cmd)
    }

    /// The stages to run on a captured frame of the given width, in order,
    /// or `None` when the frame is empty and the tick is skipped.
    pub fn stages_for_frame(&self, width: i32) -> (r: Option<Vec<Stage>>)
        ensures
            width <= 0 ==> r is None,
            width > 0 ==> r is Some && r->0@ == plan(self.flags),
    {
        if width > 0 {
            Some(stages_for(&self.flags))
        } else {
            None
        }
    }

    /// The settings to save when the loop has ended.
    pub fn snapshot(&self) -> (r: ConfigurationSnapshot)
        ensures
            r == snapshot_of(*self),
    {
        ConfigurationSnapshot { thresholds: self.thresholds, flags: self.flags }
    }
}

/// Whatever presses came before, from whatever state, resetting gives the
/// factory thresholds and leaves the switches and the phase as they were.
pub proof fn lemma_reset_forgets_history(s: Session, cmds: Seq<Command>)
    ensures
        after_command(after_commands(s, cmds), Command::ResetThresholds).thresholds
            == factory_thresholds(),
        after_command(after_commands(s, cmds), Command::ResetThresholds).flags == after_commands(
            s,
            cmds,
        ).flags,
        after_command(after_commands(s, cmds), Command::ResetThresholds).phase == after_commands(
            s,
            cmds,
        ).phase,
{
}

/// Saving the settings of a session and starting from them again gives the
/// same thresholds and switches, and a running loop.
pub proof fn lemma_snapshot_round_trip(s: Session)
    ensures
        initial_session(Some(snapshot_of(s))).thresholds == s.thresholds,
        initial_session(Some(snapshot_of(s))).flags == s.flags,
        initial_session(Some(snapshot_of(s))).phase == Phase::Running,
        snapshot_of(initial_session(Some(snapshot_of(s)))) == snapshot_of(s),
{
}

} // verus!
