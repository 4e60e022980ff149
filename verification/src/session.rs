//! An observation session from end to end: what the observer is told, what it
//! reads, what it puts into the channel, and what the render state shows.
//!
//! Nothing here runs; the functions describe runs of the functions in
//! [`crate::observer`], [`crate::bridge`] and [`crate::render`], and the
//! lemmas say what holds of every run.

use vstd::prelude::*;
use crate::bridge::{delivered, shown_after};
use crate::config::ConfigView;
use crate::observer::{emitted, next_command, next_phase, Command, Phase, Signal, Strategy};

verus! {

/// One thing that happens in a session: a signal, and what the file holds at
/// that moment (`None`: no file, or none that can be read as a configuration).
pub struct Step {
    /// What the observer is told.
    pub signal: Signal,
    /// What a read of the file yields at that moment.
    pub file: Option<ConfigView>,
}

/// The step at which the watch is established while the file holds `file`.
pub open spec fn start(file: Option<ConfigView>) -> Step {
    Step { signal: Signal::Established, file }
}

/// The step at which `signal` arrives while the file holds `file`.
pub open spec fn step(signal: Signal, file: Option<ConfigView>) -> Step {
    Step { signal, file }
}

/// What an observer in `phase` puts into the channel for one step.
pub open spec fn emitted_at(strategy: Strategy, phase: Phase, step: Step) -> Seq<ConfigView> {
    if next_command(phase, step.signal) == Command::Read {
        match emitted(strategy, step.file) {
            Some(config) => seq![config],
            None => Seq::empty(),
        }
    } else {
        Seq::empty()
    }
}

/// The phase of an observer that was in `phase` before `steps`.
pub open spec fn phase_after(phase: Phase, steps: Seq<Step>) -> Phase
    decreases steps.len(),
{
    if steps.len() == 0 {
        phase
    } else {
        next_phase(phase_after(phase, steps.drop_last()), steps.last().signal)
    }
}

/// What an observer that was in `phase` puts into the channel over `steps`,
/// in order.
pub open spec fn emissions(strategy: Strategy, phase: Phase, steps: Seq<Step>) -> Seq<ConfigView>
    decreases steps.len(),
{
    if steps.len() == 0 {
        Seq::empty()
    } else {
        emissions(strategy, phase, steps.drop_last()) + emitted_at(
            strategy,
            phase_after(phase, steps.drop_last()),
            steps.last(),
        )
    }
}

/// What the render state shows after a fresh observer went through `steps`,
/// where it showed `before` when the session began.
pub open spec fn shown(strategy: Strategy, before: Option<Seq<char>>, steps: Seq<Step>) -> Option<
    Seq<char>,
> {
    shown_after(before, delivered(emissions(strategy, Phase::Idle, steps)))
}

/// Startup immediacy: once its watch stands, a fresh observer reads the file
/// at once. If the file names a background, that background is delivered and
/// shown without any later change of the file.
pub proof fn lemma_startup_immediacy(
    strategy: Strategy,
    before: Option<Seq<char>>,
    config: ConfigView,
)
    requires
        config.background is Some,
    ensures
        next_command(Phase::Idle, Signal::Established) == Command::Read,
        emissions(strategy, Phase::Idle, seq![start(Some(config))]) == seq![config],
        delivered(emissions(strategy, Phase::Idle, seq![start(Some(config))]))
            == seq![config.background.unwrap()],
        shown(strategy, before, seq![start(Some(config))]) == config.background,
{
    let steps = seq![start(Some(config))];
    assert(emissions(strategy, Phase::Idle, steps.drop_last()) =~= Seq::empty());
    assert(emissions(strategy, Phase::Idle, steps) =~= seq![config]);
    lemma_delivered_one(config);
}

/// A file that appears later: an observer started before the file exists
/// stays in the session with nothing emitted, and the first notification (or
/// the first elapsed interval) after the file was created delivers the
/// background the file names.
pub proof fn lemma_file_created_later(
    strategy: Strategy,
    before: Option<Seq<char>>,
    signal: Signal,
    config: ConfigView,
)
    requires
        signal == Signal::Changed || signal == Signal::Elapsed,
        config.background is Some,
    ensures
        phase_after(Phase::Idle, seq![start(None)]) == Phase::Watching,
        emissions(strategy, Phase::Idle, seq![start(None)]) == Seq::<ConfigView>::empty(),
        shown(strategy, before, seq![start(None)]) == before,
        next_command(Phase::Watching, signal) == Command::Read,
        shown(strategy, before, seq![start(None), step(signal, Some(config))])
            == config.background,
{
    let first = seq![start(None)];
    let both = seq![start(None), step(signal, Some(config))];
    assert(emissions(strategy, Phase::Idle, first.drop_last()) =~= Seq::empty());
    assert(emissions(strategy, Phase::Idle, first) =~= Seq::empty());
    assert(both.drop_last() =~= first);
    assert(emissions(strategy, Phase::Idle, both) =~= seq![config]);
    lemma_delivered_one(config);
}

/// A watch that cannot be established is reported as such, and the observer
/// emits nothing afterwards, whatever it is told.
pub proof fn lemma_refusal_is_final(strategy: Strategy, steps: Seq<Step>)
    ensures
        next_command(Phase::Idle, Signal::Refused) == Command::Fail,
        next_phase(Phase::Idle, Signal::Refused) == Phase::Failed,
        phase_after(Phase::Failed, steps) == Phase::Failed,
        emissions(strategy, Phase::Failed, steps) == Seq::<ConfigView>::empty(),
    decreases steps.len(),
{
    if steps.len() > 0 {
        lemma_refusal_is_final(strategy, steps.drop_last());
    }
}

/// Emissions only grow: what was put into the channel for a run stays in
/// front when the run goes on.
pub proof fn lemma_emissions_extend(
    strategy: Strategy,
    phase: Phase,
    steps: Seq<Step>,
    more: Seq<Step>,
)
    ensures
        phase_after(phase, steps + more) == phase_after(phase_after(phase, steps), more),
        emissions(strategy, phase, steps + more) == emissions(strategy, phase, steps) + emissions(
            strategy,
            phase_after(phase, steps),
            more,
        ),
    decreases more.len(),
{
    if more.len() > 0 {
        lemma_emissions_extend(strategy, phase, steps, more.drop_last());
        assert((steps + more).drop_last() =~= steps + more.drop_last());
    }
}

/// One configuration that names a background gives exactly that delivery.
proof fn lemma_delivered_one(config: ConfigView)
    requires
        config.background is Some,
    ensures
        delivered(seq![config]) == seq![config.background.unwrap()],
{
    assert(delivered(seq![config].drop_last()) =~= Seq::empty());
}

} // verus!
