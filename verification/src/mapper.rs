//! The conversion of decoded blocks into records, and the walk that turns a
//! block into its events.
pub mod babbage;
pub mod certificates;
pub mod collect;
pub mod crawl;
pub mod kinds;
pub mod laws;
pub mod map;
pub mod metadata;
pub mod params;
pub mod shelley;

use crate::model::{Event, EventContext, EventData, EventDataView, EventView};
use crate::views::{lemma_views_push, views};
use vstd::prelude::*;

verus! {

/// How much a conversion includes and which events a walk emits. No switch
/// has an effect on another.
#[derive(Debug, Clone, Copy, PartialEq, Eq, Structural)]
pub struct Config {
    /// Whether a walk closes each block with an event of its own.
    pub include_block_end_events: bool,
    /// Whether a transaction record carries its bundle of details.
    pub include_transaction_details: bool,
    /// Whether a walk closes each transaction with an event of its own.
    pub include_transaction_end_events: bool,
    /// Whether a block record carries the records of its transactions.
    pub include_block_details: bool,
    /// Whether a block record carries the block's original encoding.
    pub include_block_cbor: bool,
}

/// What the time collaborator says of the slot of the block at hand: the
/// epoch, the slot within the epoch, and the wall-clock time.
#[derive(Debug, Clone, Copy, PartialEq, Eq, Structural)]
pub struct SlotTime {
    pub epoch: u64,
    pub epoch_slot: u64,
    pub timestamp: u64,
}

/// Converts the parts of one block and writes the events of a walk, each
/// under the writer's context.
#[derive(Debug)]
pub struct EventWriter {
    pub context: EventContext,
    pub config: Config,
    /// The time of the block's slot; absent where no time collaborator is
    /// at hand.
    pub time: Option<SlotTime>,
}

/// The event that a writer of the given context makes of some data.
pub open spec fn event_of(context: crate::model::EventContextView, data: EventDataView) -> EventView {
    EventView { context, data, fingerprint: None }
}

impl EventWriter {
    /// A writer at the top of the hierarchy: no coordinate is known yet.
    pub fn new(config: Config, time: Option<SlotTime>) -> (writer: EventWriter)
        ensures
            writer.context@ == crate::model::EventContextView::empty(),
            writer.config == config,
            writer.time == time,
    {
        EventWriter { context: EventContext::empty(), config, time }
    }

    /// A writer one level down: its context is this writer's, with the
    /// coordinates that `extra_context` sets laid over it.
    pub fn child_writer(&self, extra_context: EventContext) -> (child: EventWriter)
        ensures
            child.context@ == self.context@.child(extra_context@),
            child.config == self.config,
            child.time == self.time,
    {
        EventWriter {
            context: self.context.derive_child(extra_context),
            config: self.config,
            time: self.time,
        }
    }

    /// Writes one event about `data` under this writer's context.
    pub fn append(&self, data: EventData, out: &mut Vec<Event>)
        ensures
            views(final(out)@) == views(old(out)@).push(event_of(self.context@, data@)),
    {
        let event = Event { context: self.context.clone(), data, fingerprint: None };
        assert(event@ == event_of(self.context@, data@));
        proof {
            lemma_views_push(out@, event);
        }
        out.push(event);
    }
}

} // verus!
