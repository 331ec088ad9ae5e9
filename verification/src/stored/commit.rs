//! Commit records.

use vstd::prelude::*;

use crate::records::{DurableEventView, StoredDurableEventV1};
use crate::stored::application::{
    copy_entity_reference_list, copy_event_list, entity_reference_views, event_views, CommitParts,
    CommitPartsView, CommittedEntityReferenceV2, EntityReferenceView, EventReferenceV2,
};

verus! {

/// What a commit record is.
#[verifier::ext_equal]
pub ghost struct CommitRecordView {
    pub parts: CommitPartsView,
    pub entity_references: Seq<EntityReferenceView>,
    pub events: Seq<DurableEventView>,
}

/// One complete authoritative commit-log record.
#[derive(Debug, PartialEq, Eq)]
pub struct StoredCommitRecordV1 {
    pub parts: CommitParts,
    pub entity_references: Vec<CommittedEntityReferenceV2>,
    pub events: Vec<StoredDurableEventV1>,
}

impl View for StoredCommitRecordV1 {
    type V = CommitRecordView;

    open spec fn view(&self) -> CommitRecordView {
        CommitRecordView {
            parts: self.parts@,
            entity_references: entity_reference_views(self.entity_references@),
            events: event_views(self.events@),
        }
    }
}

impl Clone for StoredCommitRecordV1 {
    fn clone(&self) -> (result: StoredCommitRecordV1)
        ensures
            result@ == self@,
    {
        StoredCommitRecordV1 {
            parts: self.parts.clone(),
            entity_references: copy_entity_reference_list(&self.entity_references),
            events: copy_event_list(&self.events),
        }
    }
}

/// The reference to an event.
pub open spec fn reference_to(event: DurableEventView) -> EventReferenceV2 {
    EventReferenceV2 { event_id: event.event_id, event_hash: event.event_hash }
}

/// The references to events, in order.
pub open spec fn references_to(events: Seq<DurableEventView>) -> Seq<EventReferenceV2> {
    Seq::new(events.len(), |i: int| reference_to(events[i]))
}

/// Returns the references to events, in order.
pub fn event_references_of(events: &[StoredDurableEventV1]) -> (result: Vec<EventReferenceV2>)
    ensures
        result@ == references_to(event_views(events@)),
{
    let mut result: Vec<EventReferenceV2> = Vec::new();
    let mut i: usize = 0;
    while i < events.len()
        invariant
            i <= events@.len(),
            result@ == references_to(event_views(events@)).take(i as int),
        decreases events@.len() - i,
    {
        result.push(
            EventReferenceV2 { event_id: events[i].event_id, event_hash: events[i].event_hash },
        );
        i += 1;
        assert(result@ =~= references_to(event_views(events@)).take(i as int));
    }
    assert(result@ =~= references_to(event_views(events@)));
    result
}

impl StoredCommitRecordV1 {
    /// Returns the ordered references to the commit's events.
    pub fn event_references(&self) -> (result: Vec<EventReferenceV2>)
        ensures
            result@ == references_to(self@.events),
    {
        event_references_of(&self.events)
    }

    /// Borrows the commit's events.
    pub fn events(&self) -> (result: &[StoredDurableEventV1])
        ensures
            result@ == self.events@,
    {
        self.events.as_slice()
    }
}

/// Decides equality of two lists of events.
pub fn same_events(a: &[StoredDurableEventV1], b: &[StoredDurableEventV1]) -> (result: bool)
    ensures
        result == (event_views(a@) == event_views(b@)),
{
    if a.len() != b.len() {
        assert(event_views(a@).len() != event_views(b@).len());
        return false;
    }
    let mut i: usize = 0;
    while i < a.len()
        invariant
            i <= a@.len(),
            a@.len() == b@.len(),
            forall|k: int| 0 <= k < i ==> a@[k]@ == b@[k]@,
        decreases a@.len() - i,
    {
        if !a[i].same(&b[i]) {
            assert(event_views(a@)[i as int] != event_views(b@)[i as int]);
            return false;
        }
        i += 1;
    }
    assert(event_views(a@) =~= event_views(b@));
    true
}

} // verus!
