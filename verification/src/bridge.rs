//! The hand-off between the observer and the daemon's render state.
//!
//! The observer puts every configuration it read into a channel; the daemon's
//! main loop takes them out one by one. This module decides what becomes of
//! each: a configuration that names a background is delivered, one that names
//! none is passed over, so that the daemon keeps showing the last background
//! it was given. When the channel closes, the observation session is over and
//! a fresh one is opened.

use vstd::prelude::*;
use crate::config::{texts, Config, ConfigView};

verus! {

/// What the consumer's wait on the channel came back with.
#[derive(Debug)]
pub enum Handoff {
    /// The next configuration in the channel.
    Received(Config),
    /// The producer is gone: the observation session has ended.
    Closed,
}

/// What the consumer does with what it took out of the channel.
#[derive(Debug)]
pub enum Routing {
    /// Update the render state with this background.
    Deliver(String),
    /// Nothing to deliver; wait for the next configuration.
    Skip,
    /// Open a fresh channel and hand its sending end to a new observer.
    Reopen,
}

/// The values of a list of configurations, in order.
pub open spec fn views(configs: Seq<Config>) -> Seq<ConfigView> {
    configs.map_values(|config: Config| config@)
}

/// The background a configuration names, if any.
pub open spec fn background_of() -> spec_fn(ConfigView) -> Option<Seq<char>> {
    |config: ConfigView| config.background
}

/// The backgrounds delivered for a run of configurations: those that the
/// configurations name, one for each that names one, in the order of the run.
pub open spec fn delivered(configs: Seq<ConfigView>) -> Seq<Seq<char>> {
    configs.filter_map(background_of())
}

/// What the render state shows once `updates` were applied to it in order.
pub open spec fn shown_after(before: Option<Seq<char>>, updates: Seq<Seq<char>>) -> Option<
    Seq<char>,
> {
    if updates.len() == 0 {
        before
    } else {
        Some(updates.last())
    }
}

/// Decides what to do with what the channel handed over.
pub fn route(handoff: Handoff) -> (routing: Routing)
    ensures
        match handoff {
            Handoff::Received(config) => match config@.background {
                Some(background) => routing matches Routing::Deliver(path) && path@ == background,
                None => routing is Skip,
            },
            Handoff::Closed => routing is Reopen,
        },
{
    match handoff {
        Handoff::Received(config) => match config.background {
            Some(background) => Routing::Deliver(background),
            None => Routing::Skip,
        },
        Handoff::Closed => Routing::Reopen,
    }
}

/// The deliveries for a backlog of configurations taken out of the channel
/// together: none is dropped, merged or moved.
pub fn deliveries(configs: Vec<Config>) -> (updates: Vec<String>)
    ensures
        texts(updates@) == delivered(views(configs@)),
{
    let mut updates: Vec<String> = Vec::new();
    let mut i: usize = 0;
    while i < configs.len()
        invariant
            i <= configs.len(),
            texts(updates@) == delivered(views(configs@).take(i as int)),
        decreases configs.len() - i,
    {
        proof {
            views(configs@).lemma_filter_map_take_succ(background_of(), i as int);
        }
        if let Some(background) = &configs[i].background {
            updates.push(background.clone());
        }
        i += 1;
    }
    assert(views(configs@).take(i as int) =~= views(configs@));
    updates
}

/// Deliveries keep the order of arrival: what is delivered for two runs one
/// after the other is what is delivered for the first, then what is delivered
/// for the second.
pub proof fn lemma_delivered_in_order(first: Seq<ConfigView>, second: Seq<ConfigView>)
    ensures
        delivered(first + second) == delivered(first) + delivered(second),
    decreases second.len(),
{
    if second.len() > 0 {
        let front = second.drop_last();
        lemma_delivered_in_order(first, front);
        assert((first + second).drop_last() =~= first + front);
    }
}

/// Last known good: after one more configuration the render state shows the
/// background that configuration names, or, if it names none, what it showed
/// before.
pub proof fn lemma_last_known_good(
    before: Option<Seq<char>>,
    configs: Seq<ConfigView>,
    next: ConfigView,
)
    ensures
        shown_after(before, delivered(configs.push(next))) == match next.background {
            Some(background) => Some(background),
            None => shown_after(before, delivered(configs)),
        },
        delivered(configs.push(next)) == match next.background {
            Some(background) => delivered(configs).push(background),
            None => delivered(configs),
        },
{
    assert(configs.push(next).drop_last() =~= configs);
}

} // verus!
