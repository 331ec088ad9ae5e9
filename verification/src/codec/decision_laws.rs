//! What is held of deliveries, positions and rows, and what decides whether a record of
//! them is accepted.

use vstd::prelude::*;

use crate::codec::changelog::position_carries;
use crate::codec::command_record::{
    capsule_failure, head_over_limit, head_readable, invocation_readable,
};
use crate::codec::command_segment::manifest_entry_carries;
use crate::codec::contract_migration::journal_encoded;
use crate::codec::envelope::{OutgoingRecord, ReadAttempt};
use crate::codec::error::{value_failure, DurableCodecError, DurableCodecErrorKind};
use crate::codec::outbox::{current_intent_outcome, delivery_carries, delivery_valid};
use crate::codec::projection::{apply_carries, row_carries, StoredRowParts};
use crate::codec::record_type::RecordType;
use crate::codec::replication::{
    follower_failure, history_failure, source_hold_failure, source_hold_v2_failure,
    state_catalog_failure,
};
use crate::codec::segment_capsule::{form_defaults, joining_failure, CapsuleForm};
use crate::ids::Digest;
use crate::keys::{CanonicalRecordView, ProjectionApplyKeyView};
use crate::outbox::{DeliveryView, StoredOutboxIntentV1};
use crate::page::EncodedPageItem;
use crate::records::{DurableEventView, StoredDurableEventV1};
use crate::stored::changelog::ChangelogHistoryPointV3;
use crate::stored::command_segment::ManifestEntryView;
use crate::stored::contract_migration::MigrationJournalView;
use crate::stored::entity_transition::EntityTransitionView;
use crate::stored::segment::CompleteCommandView;
use crate::stored::segment_laws::live_version;
use crate::value_error::StorageValueError;
use crate::wire;

verus! {

/// Whether a message holds a point in time.
pub open spec fn holds_time(message: Option<wire::TimestampV1>, seconds: int, nanos: int) -> bool {
    message matches Some(part) && part.seconds == seconds && part.nanos == nanos
}

/// A delivery is held in its own state, with its attempts, its destination, and each of
/// its times in the field of that time.
pub proof fn deliveries_are_held_in_their_state(
    message: wire::StoredOutboxStatusV1State,
    value: DeliveryView,
)
    requires
        delivery_carries(message, value),
    ensures
        match message {
            wire::StoredOutboxStatusV1State::Pending(part) => value matches DeliveryView::Pending(
                held,
            ) && part.attempts == held.attempts.value && part.destination_id@
                == held.destination_id && holds_time(
                part.last_attempt_at,
                held.last_attempt_at.seconds as int,
                held.last_attempt_at.nanoseconds as int,
            ) && (held.next_attempt_at is None ==> part.next_attempt_at is None) && (
            held.next_attempt_at matches Some(next) ==> holds_time(
                part.next_attempt_at,
                next.seconds as int,
                next.nanoseconds as int,
            )),
            wire::StoredOutboxStatusV1State::Delivering(part) => value
                matches DeliveryView::Delivering {
                attempt,
                destination_id,
                started_at,
                lease_deadline,
            } && part.attempt == attempt.value && part.destination_id@ == destination_id
                && holds_time(
                part.started_at,
                started_at.seconds as int,
                started_at.nanoseconds as int,
            ) && holds_time(
                part.lease_deadline,
                lease_deadline.seconds as int,
                lease_deadline.nanoseconds as int,
            ),
            wire::StoredOutboxStatusV1State::Delivered(part) => value
                matches DeliveryView::Delivered { attempts, destination_id, delivered_at }
                && part.attempts == attempts.value && part.destination_id@ == destination_id
                && holds_time(
                part.delivered_at,
                delivered_at.seconds as int,
                delivered_at.nanoseconds as int,
            ),
            wire::StoredOutboxStatusV1State::DeadLetter(part) => value
                matches DeliveryView::DeadLetter {
                attempts,
                destination_id,
                failed_at,
                last_safe_error,
            } && part.attempts == attempts && part.destination_id@ == destination_id && holds_time(
                part.failed_at,
                failed_at.seconds as int,
                failed_at.nanoseconds as int,
            ),
        },
{
}

/// An attempt that was begun is counted from one; a delivery that was given up may not
/// have been begun at all.
pub proof fn begun_attempts_are_counted_from_one(value: DeliveryView)
    requires
        delivery_valid(value),
    ensures
        match value {
            DeliveryView::Pending(held) => held.attempts.value > 0,
            DeliveryView::Delivering { attempt, .. } => attempt.value > 0,
            DeliveryView::Delivered { attempts, .. } => attempts.value > 0,
            DeliveryView::DeadLetter { .. } => true,
        },
{
}

/// A point of the changelog is held with its own sequence and hash, and with the
/// application's and the administration's sequence, zero where there is none.
pub proof fn changelog_points_are_held_by_their_sequences(
    message: wire::ChangelogPositionV3,
    value: ChangelogHistoryPointV3,
)
    requires
        position_carries(message, value),
    ensures
        message.transaction_sequence == value.sequence.value,
        message.history_hash@ == value.history_hash.bytes@,
        message.application_sequence == (if value.application is Some {
            value.application->Some_0.value
        } else {
            0
        }),
        message.administration_sequence == (if value.administration is Some {
            value.administration->Some_0.value
        } else {
            0
        }),
{
}

/// An entry of a derived index is held with its exact key, the command's place in the
/// segment, the member's place in the command, and the segment's first commit.
pub proof fn manifest_entries_are_held_by_their_places(
    message: wire::CommandDerivedIndexManifestEntryV1,
    value: ManifestEntryView,
)
    requires
        manifest_entry_carries(message, value),
    ensures
        message.exact_key@ == value.exact_key,
        message.command_ordinal == value.command_ordinal,
        message.member_ordinal == value.member_ordinal,
        message.segment_first_commit_sequence == value.segment_first_commit_sequence.value,
{
}

/// A projection row is held with its generation and the sequence that last changed it,
/// and an apply marker with its generation, its sequence and its hash.
pub proof fn projection_records_are_held_by_their_sequences(
    row_message: wire::StoredProjectionStateV1,
    row: StoredRowParts,
    apply_message: wire::StoredProjectionApplyV1,
    key: ProjectionApplyKeyView,
    apply_hash: Digest,
)
    requires
        row_carries(row_message, row),
        apply_carries(apply_message, key, apply_hash),
    ensures
        row_message.generation == row.key.generation.value,
        row_message.last_changed_sequence == row.last_changed_sequence.value,
        row_message.canonical_group_values@.len() == row.key.components.len(),
        apply_message.generation == key.generation.value,
        apply_message.commit_sequence == key.sequence.value,
        apply_message.projection_apply_hash@ == apply_hash.bytes@,
{
}

/// A record of another state catalog is incompatible, and one whose catalog is no digest
/// is corrupt; only one of this catalog is accepted.
pub proof fn records_of_another_catalog_are_incompatible(
    catalog_message: wire::StoredAuthoritativeStateCatalogV1,
    history: wire::StoredChangelogHistoryStateV3,
    catalog: Digest,
)
    ensures
        state_catalog_failure(catalog_message, catalog) is None <==> catalog_message.catalog_digest@
            == catalog.bytes@,
        catalog_message.catalog_digest@.len() == 32 && catalog_message.catalog_digest@
            != catalog.bytes@ ==> state_catalog_failure(catalog_message, catalog) == Some(
            DurableCodecErrorKind::IncompatibleFormat,
        ),
        catalog_message.catalog_digest@.len() != 32 ==> state_catalog_failure(
            catalog_message,
            catalog,
        ) == Some(DurableCodecErrorKind::CorruptData),
        history.lineage.catalog_digest@.len() == 32 && history.lineage.catalog_digest@
            != catalog.bytes@ ==> history_failure(history, catalog) == Some(
            DurableCodecErrorKind::IncompatibleFormat,
        ),
        history_failure(history, catalog) is None && history.lineage.catalog_digest@.len() == 32
            ==> history.lineage.catalog_digest@ == catalog.bytes@,
{
    assert(catalog.bytes@.len() == 32);
}

/// A hold is accepted only with a kind of its own and under this catalog, and a
/// registered hold only with a phase of its own and with an expiry that is not zero; a
/// follower that is attached under another catalog is incompatible.
pub proof fn holds_are_accepted_under_their_catalog(
    hold: wire::StoredReplicationSourceHoldV1,
    registered: wire::StoredReplicationSourceHoldV2,
    follower: wire::StoredReplicationFollowerStateV3,
    catalog: Digest,
)
    ensures
        source_hold_failure(hold, catalog) is None ==> 1 <= hold.kind <= 3 && (
        hold.lineage.catalog_digest@.len() == 32 ==> hold.lineage.catalog_digest@
            == catalog.bytes@),
        !(1 <= hold.kind <= 3) ==> source_hold_failure(hold, catalog) == Some(
            DurableCodecErrorKind::CorruptData,
        ),
        source_hold_v2_failure(registered, catalog) is None ==> 1 <= registered.phase <= 3
            && registered.expires_at_application_sequence != Some(0u64)
            && registered.hold is Some && source_hold_failure(registered.hold->Some_0, catalog)
            is None,
        !(1 <= registered.phase <= 3) || registered.expires_at_application_sequence == Some(0u64)
            || registered.hold is None ==> source_hold_v2_failure(registered, catalog) == Some(
            DurableCodecErrorKind::CorruptData,
        ),
        (follower.state matches Some(wire::StoredReplicationFollowerStateV3State::Attached(part))
            && part.lineage.catalog_digest@.len() == 32 && part.lineage.catalog_digest@
            != catalog.bytes@) ==> follower_failure(follower, catalog) == Some(
            DurableCodecErrorKind::IncompatibleFormat,
        ),
{
    if source_hold_failure(hold, catalog) is None {
        let kind = choose|kind: crate::stored::changelog::ReplicationSourceHoldKindV1|
            hold.kind == #[trigger] crate::codec::changelog::hold_kind_code(kind);
    }
    if source_hold_v2_failure(registered, catalog) is None {
        let phase = choose|phase: crate::stored::changelog::FollowerRegistrationPhaseV1|
            registered.phase == #[trigger] crate::codec::changelog::hold_phase_code(phase);
    }
}

/// An intent is accepted beside an event exactly when it refers to that event by its
/// identity, which is not zero, and by its hash; it then holds the event, charged for
/// what was read.
pub proof fn intents_refer_to_their_event(
    message: wire::StoredOutboxIntentV2,
    encoded_len: usize,
    attempt: ReadAttempt<wire::StoredOutboxIntentV2>,
    event: StoredDurableEventV1,
    result: Result<EncodedPageItem<StoredOutboxIntentV1>, DurableCodecError>,
)
    requires
        attempt.typed == Some(message),
        attempt.encoded_len == encoded_len,
        current_intent_outcome(attempt, event, result),
    ensures
        result is Ok <==> encoded_len > 0 && event.event_id.commit_sequence.value > 0
            && message.event_reference is Some && message.event_reference->Some_0.event_id is Some
            && message.event_reference->Some_0.event_id->Some_0.commit_sequence
            == event.event_id.commit_sequence.value
            && message.event_reference->Some_0.event_id->Some_0.event_ordinal
            == event.event_id.event_ordinal && message.event_reference->Some_0.event_hash@
            == event.event_hash.bytes@,
        result matches Ok(item) ==> item.value.event == event && item.charge.bytes == encoded_len,
        result matches Err(error) ==> error.kind == DurableCodecErrorKind::CorruptData,
{
}

/// A migration journal is written only under its own hash.
pub proof fn journals_are_written_under_their_hash(
    value: MigrationJournalView,
    hash: Digest,
    result: Result<OutgoingRecord<wire::StoredContractMigrationJournalV1>, DurableCodecError>,
)
    requires
        journal_encoded(value, Ok(hash), result),
    ensures
        result is Ok <==> value.journal_hash == hash,
        result matches Ok(record) ==> record.record_type
            == RecordType::StoredContractMigrationJournalV1 && record.message.journal_hash@
            == hash.bytes@,
        result matches Err(error) ==> error.kind == DurableCodecErrorKind::CorruptData,
{
}

/// The parts of a command decide in their order: its head, its records, its audited
/// invocation, and last the command as a whole.
pub proof fn commands_are_refused_in_order(
    message: wire::StoredCommandCapsuleV1,
    events: Seq<DurableEventView>,
    records: Option<StorageValueError>,
    whole: Option<StorageValueError>,
)
    ensures
        ({
            let failure = capsule_failure(message, events, records, whole);
            let head = head_readable(message.head, events);
            let audit = invocation_readable(message.audit);
            &&& failure is None <==> head && records is None && audit && whole is None
            &&& head && records is Some ==> failure == Some(value_failure(records->Some_0))
            &&& head && records is None && !audit ==> failure == Some(
                DurableCodecErrorKind::CorruptData,
            )
            &&& head && records is None && audit && whole is Some ==> failure == Some(
                value_failure(whole->Some_0),
            )
            &&& !head && head_over_limit(message.head, events) ==> failure == Some(
                DurableCodecErrorKind::LimitExceeded,
            )
            &&& !head && !head_over_limit(message.head, events) ==> failure == Some(
                DurableCodecErrorKind::CorruptData,
            )
        }),
{
}

/// Transitions are joined to a command only where each of them leaves its entity in some
/// version; what the rules say of them comes second.
pub proof fn transitions_are_joined_where_they_leave_a_version(
    transitions: Seq<EntityTransitionView>,
    verdict: Option<StorageValueError>,
)
    ensures
        ({
            let all_leave = forall|i: int|
                0 <= i < transitions.len() ==> live_version((#[trigger] transitions[i]).next_state)
                    is Some || (transitions[i].next_state is Deleted && live_version(
                    transitions[i].prior_state,
                ) is Some);
            &&& !all_leave ==> joining_failure(transitions, verdict) == Some(
                DurableCodecErrorKind::CorruptData,
            )
            &&& all_leave && verdict is None ==> joining_failure(transitions, verdict) is None
            &&& all_leave && verdict is Some ==> joining_failure(transitions, verdict) == Some(
                value_failure(verdict->Some_0),
            )
        }),
{
    crate::stored::segment_laws::transitions_affect_their_entities(transitions);
}

/// A command of an earlier form has what that form cannot hold as if there were none: no
/// policy anchor before the fifth, no transitions before the fourth, and no service
/// values before the third.
pub proof fn earlier_forms_hold_less(
    form: CapsuleForm,
    no_service_values: CanonicalRecordView,
    command: CompleteCommandView,
)
    requires
        form_defaults(form, no_service_values, command),
    ensures
        form is V2 ==> command.service_values == no_service_values,
        form is V2 || form is V3 ==> command.transitions.len() == 0,
        form is V2 || form is V3 || form is V4 ==> command.policy_anchors.len()
            == command.base.commit.events.len() && forall|i: int|
            0 <= i < command.policy_anchors.len() ==> (#[trigger] command.policy_anchors[i])
                is None,
{
}

} // verus!
