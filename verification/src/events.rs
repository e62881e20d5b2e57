//! The announcement of a recorded payment.

use vstd::prelude::*;
use vstd::string::StringExecFns;
use crate::model::EventView;
use crate::model::RecordView;
use crate::model::payment_recorded_topics;
use crate::record::PaymentRecord;

verus! {

/// The first topic of every announcement: the domain.
pub const TOPIC_PAYMENT: &'static str = "payment";

/// The second topic of an announcement of a recorded payment: the action.
pub const TOPIC_RECORDED: &'static str = "recorded";

/// One announcement: two topics, and as payload the whole record, so that
/// a subscriber needs no further query.
#[derive(Debug, PartialEq, Eq)]
pub struct PaymentEvent {
    /// The domain, then the action.
    pub topics: (String, String),
    /// The record that was stored.
    pub record: PaymentRecord,
}

impl View for PaymentEvent {
    type V = EventView;

    open spec fn view(&self) -> EventView {
        EventView { topics: (self.topics.0@, self.topics.1@), record: self.record@ }
    }
}

/// The announcement that `record` was stored.
pub open spec fn payment_recorded_event(record: RecordView) -> EventView {
    EventView { topics: payment_recorded_topics(), record }
}

/// The announcements of `events`, each as plain values.
pub open spec fn event_views(events: Seq<PaymentEvent>) -> Seq<EventView> {
    events.map_values(|e: PaymentEvent| e@)
}

/// The two topic literals spell the topics of the model.
pub proof fn lemma_topic_literals()
    ensures
        (TOPIC_PAYMENT@, TOPIC_RECORDED@) == payment_recorded_topics(),
{
    reveal_strlit("payment");
    reveal_strlit("recorded");
    assert(TOPIC_PAYMENT@ =~= payment_recorded_topics().0);
    assert(TOPIC_RECORDED@ =~= payment_recorded_topics().1);
}

/// Appends to `sink` the announcement that `record` was stored, under the
/// topics `("payment", "recorded")`. What was in the sink stays, in order.
pub fn emit_payment_recorded(sink: &mut Vec<PaymentEvent>, record: PaymentRecord)
    ensures
        event_views(final(sink)@) == event_views(old(sink)@).push(payment_recorded_event(record@)),
        final(sink)@.len() == old(sink)@.len() + 1,
        forall|i: int| 0 <= i < old(sink)@.len() ==> final(sink)@[i] == old(sink)@[i],
{
    let event = PaymentEvent {
        topics: (String::from_str(TOPIC_PAYMENT), String::from_str(TOPIC_RECORDED)),
        record,
    };
    proof {
        lemma_topic_literals();
    }
    sink.push(event);
    assert(event_views(sink@) =~= event_views(old(sink)@).push(payment_recorded_event(record@)));
}

} // verus!
