//! When the daemon looks at the configuration file.
//!
//! The observer itself does no I/O. Its caller establishes the watch, waits
//! for notifications or for the clock, and reads the file; the observer is
//! told what happened as a [`Signal`] and answers with a [`Command`]. After a
//! [`Command::Read`] the caller reads and parses the file and asks
//! [`ChangeObserver::emission`] what to put into the channel.

use vstd::prelude::*;
use crate::config::{opt_view, Config, ConfigView};

verus! {

/// Milliseconds between two reads under [`Strategy::Polling`].
pub const POLL_INTERVAL_MILLIS: u64 = 1000;

/// How changes of the file are noticed.
#[derive(Clone, Copy, Debug, PartialEq, Eq, Structural)]
pub enum Strategy {
    /// By notifications of the file system for the file's directory.
    EventDriven,
    /// By reading the file once every [`POLL_INTERVAL_MILLIS`].
    Polling,
}

/// Where an observer stands.
#[derive(Clone, Copy, Debug, PartialEq, Eq, Structural)]
pub enum Phase {
    /// Created; the watch is not established yet.
    Idle,
    /// Established and waiting for signals.
    Watching,
    /// The watch could not be established. The observer never produced an
    /// event and never will.
    Failed,
    /// The session ended after it had been established.
    Ended,
}

/// What happened outside, as the caller reports it.
#[derive(Clone, Copy, Debug, PartialEq, Eq, Structural)]
pub enum Signal {
    /// The watch stands (or, when polling, the timer runs).
    Established,
    /// The watch could not be established.
    Refused,
    /// The file system notified a change in the directory, of whatever kind:
    /// a creation, a write, a rename.
    Changed,
    /// The polling interval has elapsed.
    Elapsed,
    /// The source of notifications reported an error or went away, or nobody
    /// listens to the channel any more.
    Lost,
}

/// What the caller does next.
#[derive(Clone, Copy, Debug, PartialEq, Eq, Structural)]
pub enum Command {
    /// The file may have changed: read and parse it now.
    Read,
    /// Nothing to do but wait for the next signal.
    Wait,
    /// Report upward that no watch could be established; the caller may start
    /// a polling observer instead, or give up with a diagnostic.
    Fail,
    /// The session is over: stop, and let go of the channel.
    Stop,
}

/// The phase after `signal` arrived in `phase`.
pub open spec fn next_phase(phase: Phase, signal: Signal) -> Phase {
    match phase {
        Phase::Idle => match signal {
            Signal::Established => Phase::Watching,
            Signal::Refused => Phase::Failed,
            Signal::Lost => Phase::Ended,
            _ => Phase::Idle,
        },
        Phase::Watching => match signal {
            Signal::Lost => Phase::Ended,
            _ => Phase::Watching,
        },
        Phase::Failed => Phase::Failed,
        Phase::Ended => Phase::Ended,
    }
}

/// The command that answers `signal` arriving in `phase`.
pub open spec fn next_command(phase: Phase, signal: Signal) -> Command {
    match phase {
        Phase::Idle => match signal {
            Signal::Established => Command::Read,
            Signal::Refused => Command::Fail,
            Signal::Lost => Command::Stop,
            _ => Command::Wait,
        },
        Phase::Watching => match signal {
            Signal::Changed => Command::Read,
            Signal::Elapsed => Command::Read,
            Signal::Lost => Command::Stop,
            _ => Command::Wait,
        },
        Phase::Failed => Command::Fail,
        Phase::Ended => Command::Stop,
    }
}

/// What an observer puts into the channel after a read that gave `read`
/// (`None`: the file is absent or cannot be parsed).
pub open spec fn emitted(strategy: Strategy, read: Option<ConfigView>) -> Option<ConfigView> {
    match strategy {
        Strategy::EventDriven => read,
        Strategy::Polling => match read {
            Some(config) => if config.background is Some {
                read
            } else {
                None
            },
            None => None,
        },
    }
}

/// The observer of one session.
#[derive(Clone, Copy, Debug)]
pub struct ChangeObserver {
    strategy: Strategy,
    phase: Phase,
}

impl ChangeObserver {
    /// The strategy the observer was made with.
    pub closed spec fn spec_strategy(&self) -> Strategy {
        self.strategy
    }

    /// The phase the observer is in.
    pub closed spec fn spec_phase(&self) -> Phase {
        self.phase
    }

    /// An observer that has not started yet.
    pub fn new(strategy: Strategy) -> (observer: ChangeObserver)
        ensures
            observer.spec_strategy() == strategy,
            observer.spec_phase() == Phase::Idle,
    {
        ChangeObserver { strategy, phase: Phase::Idle }
    }

    /// The strategy the observer was made with.
    #[verifier::when_used_as_spec(spec_strategy)]
    pub fn strategy(&self) -> (strategy: Strategy)
        ensures
            strategy == self.spec_strategy(),
    {
        self.strategy
    }

    /// The phase the observer is in.
    #[verifier::when_used_as_spec(spec_phase)]
    pub fn phase(&self) -> (phase: Phase)
        ensures
            phase == self.spec_phase(),
    {
        self.phase
    }

    /// Takes a signal and says what to do next.
    pub fn on_signal(&mut self, signal: Signal) -> (command: Command)
        ensures
            final(self).spec_strategy() == old(self).spec_strategy(),
            final(self).spec_phase() == next_phase(old(self).spec_phase(), signal),
            command == next_command(old(self).spec_phase(), signal),
    {
        let command = match self.phase {
            Phase::Idle => match signal {
                Signal::Established => Command::Read,
                Signal::Refused => Command::Fail,
                Signal::Lost => Command::Stop,
                _ => Command::Wait,
            },
            Phase::Watching => match signal {
                Signal::Changed => Command::Read,
                Signal::Elapsed => Command::Read,
                Signal::Lost => Command::Stop,
                _ => Command::Wait,
            },
            Phase::Failed => Command::Fail,
            Phase::Ended => Command::Stop,
        };
        self.phase = match self.phase {
            Phase::Idle => match signal {
                Signal::Established => Phase::Watching,
                Signal::Refused => Phase::Failed,
                Signal::Lost => Phase::Ended,
                _ => Phase::Idle,
            },
            Phase::Watching => match signal {
                Signal::Lost => Phase::Ended,
                _ => Phase::Watching,
            },
            Phase::Failed => Phase::Failed,
            Phase::Ended => Phase::Ended,
        };
        command
    }

    /// What to put into the channel after a read. Under
    /// [`Strategy::EventDriven`] every configuration that was read; under
    /// [`Strategy::Polling`] only one that names a background.
    pub fn emission(&self, read: Option<Config>) -> (emission: Option<Config>)
        ensures
            opt_view(emission) == emitted(self.spec_strategy(), opt_view(read)),
    {
        match self.strategy {
            Strategy::EventDriven => read,
            Strategy::Polling => match read {
                Some(config) => if config.background.is_some() {
                    Some(config)
                } else {
                    None
                },
                None => None,
            },
        }
    }
}

} // verus!
