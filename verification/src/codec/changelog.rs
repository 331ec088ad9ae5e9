//! Changelog and replication records as durable messages.

use vstd::prelude::*;

use crate::bytes::copy_bytes;
use crate::codec::audit::{
    follower_target_carries, follower_target_form_is_exact, follower_target_from_proto,
    follower_target_to_proto, follower_target_valid,
};
use crate::codec::common::{
    audit_principal_carries, audit_principal_form_is_exact, audit_principal_from_proto,
    audit_principal_to_proto, audit_principal_valid, timestamp_carries, timestamp_form_is_exact,
    timestamp_from_proto, timestamp_to_proto, timestamp_valid,
};
use crate::codec::envelope::{
    admitted_item, read_message, read_outcome, refusal_of, OutgoingRecord, ReadAttempt,
};
use crate::codec::error::{is_corrupt, require, DurableCodecError};
use crate::codec::parts::{
    counter_or_zero, counter_to_zero_form, digest_from_wire, identifier_carries,
    identifier_from_wire, identifier_to_wire, optional_sequence_carries,
    optional_sequence_from_wire, optional_sequence_to_wire, optional_text_carries,
    optional_text_from_wire, optional_text_to_wire, require_ref, sequence_or_zero,
    sequence_to_zero_form, tag_carries, tag_from_wire, tag_to_wire,
};
use crate::codec::record_type::RecordType;
use crate::ids::{CommitSequence, Id64};
use crate::limits::MAX_REPLICATION_PROMOTION_STEPS_V1;
use crate::page::EncodedPageItem;
use crate::stored::changelog::{
    ActiveAdmission, AttachedFollower, AuthoritativeStateCatalog, ChangelogHistoryPointV3,
    ChangelogHistoryStateV3, ChangelogLineageV3, ConfiguredExpiryOrigin, ExplicitOrigin,
    ExplicitOriginView, FollowerRegistrationPhaseV1, HoldBefore, LeadershipEpochV1,
    PrimaryAdmissionView, PrimaryFenceView, PromotionAdministrationView, PromotionAttempt,
    ReplicationAdministrationActionV1, ReplicationAdministrationOriginV1,
    ReplicationAdministrationView, ReplicationFollowerStateV3, ReplicationOriginView,
    ReplicationPrimaryAdmissionV1, ReplicationPromotionStepV1, ReplicationSourceHoldKindV1,
    ReplicationSourceHoldV1, ReplicationSourceHoldV2, StoredPrimaryFenceAdministrationV1,
    StoredPromotionAdministrationV1, StoredReplicationAdministrationV1,
};
use crate::wire;

verus! {

/// Whether a message is the form of a point of the changelog history.
pub open spec fn position_carries(
    message: wire::ChangelogPositionV3,
    value: ChangelogHistoryPointV3,
) -> bool {
    &&& message.transaction_sequence == value.sequence.value
    &&& message.history_hash@ == value.history_hash.bytes@
    &&& sequence_or_zero(value.application) == message.application_sequence
    &&& counter_or_zero(value.administration) == message.administration_sequence
}

/// The parts of a point of the changelog history are valid.
pub open spec fn position_valid(value: ChangelogHistoryPointV3) -> bool {
    &&& value.sequence.valid()
    &&& (value.application matches Some(part) ==> part.valid())
    &&& (value.administration matches Some(part) ==> part.valid())
}

/// A message is the form of at most one value.
pub proof fn position_form_is_exact(
    message: wire::ChangelogPositionV3,
    a: ChangelogHistoryPointV3,
    b: ChangelogHistoryPointV3,
)
    requires
        position_carries(message, a),
        position_carries(message, b),
        position_valid(a),
        position_valid(b),
    ensures
        a == b,
{
    assert(a.history_hash.bytes =~= b.history_hash.bytes);
}

/// The message form of a point of the changelog history.
pub fn position_to_proto(value: ChangelogHistoryPointV3) -> (result: wire::ChangelogPositionV3)
    ensures
        position_carries(result, value),
{
    wire::ChangelogPositionV3 {
        transaction_sequence: value.sequence.get(),
        history_hash: copy_bytes(value.history_hash.bytes.as_slice()),
        application_sequence: sequence_to_zero_form(value.application),
        administration_sequence: counter_to_zero_form(value.administration),
    }
}

/// Reads a point of the changelog history.
pub fn position_from_proto(value: &wire::ChangelogPositionV3) -> (result: Result<
    ChangelogHistoryPointV3,
    DurableCodecError,
>)
    ensures
        match result {
            Ok(held) => position_carries(*value, held) && position_valid(held),
            Err(error) => is_corrupt(error) && forall|other: ChangelogHistoryPointV3| #[trigger]
                position_carries(*value, other) ==> !position_valid(other),
        },
{
    let sequence = require(Id64::new(value.transaction_sequence))?;
    let history_hash = digest_from_wire(&value.history_hash)?;
    let application = CommitSequence::new(value.application_sequence);
    let administration = Id64::new(value.administration_sequence);
    Ok(ChangelogHistoryPointV3 { sequence, history_hash, application, administration })
}

/// Whether an optional message is the form of an optional value.
pub open spec fn optional_position_carries(
    message: Option<wire::ChangelogPositionV3>,
    value: Option<ChangelogHistoryPointV3>,
) -> bool {
    match (message, value) {
        (Some(form), Some(part)) => position_carries(form, part),
        (None, None) => true,
        _ => false,
    }
}

/// The optional message form of an optional value.
pub fn optional_position_to_proto(value: &Option<ChangelogHistoryPointV3>) -> (result: Option<
    wire::ChangelogPositionV3,
>)
    ensures
        optional_position_carries(result, *value),
{
    match value {
        Some(part) => Some(position_to_proto(*part)),
        None => None,
    }
}

/// Reads an optional value from its optional message form.
pub fn optional_position_from_proto(value: &Option<wire::ChangelogPositionV3>) -> (result: Result<
    Option<ChangelogHistoryPointV3>,
    DurableCodecError,
>)
    ensures
        match result {
            Ok(held) => optional_position_carries(*value, held) && (held matches Some(part)
                ==> position_valid(part)),
            Err(error) =>
                is_corrupt(error) && forall|other: Option<ChangelogHistoryPointV3>| #[trigger]
                optional_position_carries(*value, other)
                    ==> !(other matches Some(part) ==> position_valid(
                    part,
                )),
        },
{
    match value {
        Some(form) => {
            let part = position_from_proto(form)?;
            Ok(Some(part))
        },
        None => Ok(None),
    }
}

/// Whether a message is the form of a changelog lineage.
pub open spec fn changelog_lineage_carries(
    message: wire::ChangelogLineageV3,
    value: ChangelogLineageV3,
) -> bool {
    &&& identifier_carries(message.database_id, value.database_id)
    &&& message.history_incarnation == value.history_incarnation
    &&& message.leadership_epoch == value.leadership_epoch.value
    &&& message.catalog_digest@ == value.catalog_digest.bytes@
    &&& message.admitted
}

/// The parts of a changelog lineage are valid.
pub open spec fn changelog_lineage_valid(value: ChangelogLineageV3) -> bool {
    &&& value.leadership_epoch.valid()
}

/// A message is the form of at most one value.
pub proof fn changelog_lineage_form_is_exact(
    message: wire::ChangelogLineageV3,
    a: ChangelogLineageV3,
    b: ChangelogLineageV3,
)
    requires
        changelog_lineage_carries(message, a),
        changelog_lineage_carries(message, b),
    ensures
        a == b,
{
    assert(a.database_id.bytes =~= b.database_id.bytes);
    assert(a.catalog_digest.bytes =~= b.catalog_digest.bytes);
}

/// The message form of a changelog lineage.
pub fn changelog_lineage_to_proto(value: ChangelogLineageV3) -> (result: wire::ChangelogLineageV3)
    ensures
        changelog_lineage_carries(result, value),
{
    wire::ChangelogLineageV3 {
        database_id: identifier_to_wire(value.database_id),
        history_incarnation: value.history_incarnation,
        leadership_epoch: value.leadership_epoch.get(),
        catalog_digest: copy_bytes(value.catalog_digest.bytes.as_slice()),
        admitted: true,
    }
}

/// Reads a changelog lineage.
pub fn changelog_lineage_from_proto(value: &wire::ChangelogLineageV3) -> (result: Result<
    ChangelogLineageV3,
    DurableCodecError,
>)
    ensures
        match result {
            Ok(held) => changelog_lineage_carries(*value, held) && changelog_lineage_valid(held),
            Err(error) => is_corrupt(error) && forall|other: ChangelogLineageV3| #[trigger]
                changelog_lineage_carries(*value, other) ==> !changelog_lineage_valid(other),
        },
{
    let database_id = identifier_from_wire(&value.database_id)?;
    let history_incarnation = value.history_incarnation;
    let leadership_epoch = require(Id64::new(value.leadership_epoch))?;
    let catalog_digest = digest_from_wire(&value.catalog_digest)?;
    if !value.admitted {
        return Err(DurableCodecError::corrupt());
    }
    Ok(ChangelogLineageV3 { database_id, history_incarnation, leadership_epoch, catalog_digest })
}

/// The stable code of who owns a source hold.
pub open spec fn hold_kind_code(value: ReplicationSourceHoldKindV1) -> i32 {
    match value {
        ReplicationSourceHoldKindV1::FollowerAcknowledgement => 1,
        ReplicationSourceHoldKindV1::ArchiveAcknowledgement => 2,
        ReplicationSourceHoldKindV1::Bootstrap => 3,
    }
}

/// Returns the stable code of who owns a source hold.
pub fn hold_kind_to_code(value: ReplicationSourceHoldKindV1) -> (result: i32)
    ensures
        result == hold_kind_code(value),
{
    match value {
        ReplicationSourceHoldKindV1::FollowerAcknowledgement => 1,
        ReplicationSourceHoldKindV1::ArchiveAcknowledgement => 2,
        ReplicationSourceHoldKindV1::Bootstrap => 3,
    }
}

/// Reads who owns a source hold from its stable code.
pub fn hold_kind_from_code(
    value: i32,
) -> (result: Result<ReplicationSourceHoldKindV1, DurableCodecError>)
    ensures
        match result {
            Ok(held) => value == hold_kind_code(held),
            Err(error) => is_corrupt(error) && forall|other: ReplicationSourceHoldKindV1|
                value != #[trigger] hold_kind_code(other),
        },
{
    match value {
        1 => Ok(ReplicationSourceHoldKindV1::FollowerAcknowledgement),
        2 => Ok(ReplicationSourceHoldKindV1::ArchiveAcknowledgement),
        3 => Ok(ReplicationSourceHoldKindV1::Bootstrap),
        _ => Err(DurableCodecError::corrupt()),
    }
}

/// Whether a message is the form of a source hold.
pub open spec fn source_hold_carries(
    message: wire::StoredReplicationSourceHoldV1,
    value: ReplicationSourceHoldV1,
) -> bool {
    &&& message.kind == hold_kind_code(value.kind)
    &&& identifier_carries(message.hold_id, value.hold_id)
    &&& changelog_lineage_carries(message.lineage, value.lineage)
    &&& (message.fence matches Some(part) && position_carries(part, value.fence))
}

/// The parts of a source hold are valid.
pub open spec fn source_hold_valid(value: ReplicationSourceHoldV1) -> bool {
    &&& changelog_lineage_valid(value.lineage)
    &&& position_valid(value.fence)
}

/// A message is the form of at most one value.
pub proof fn source_hold_form_is_exact(
    message: wire::StoredReplicationSourceHoldV1,
    a: ReplicationSourceHoldV1,
    b: ReplicationSourceHoldV1,
)
    requires
        source_hold_carries(message, a),
        source_hold_carries(message, b),
        source_hold_valid(a),
        source_hold_valid(b),
    ensures
        a == b,
{
    assert(a.hold_id.bytes =~= b.hold_id.bytes);
    changelog_lineage_form_is_exact(message.lineage, a.lineage, b.lineage);
    position_form_is_exact(message.fence->Some_0, a.fence, b.fence);
}

/// The message form of a source hold.
pub fn source_hold_to_proto(
    value: ReplicationSourceHoldV1,
) -> (result: wire::StoredReplicationSourceHoldV1)
    ensures
        source_hold_carries(result, value),
{
    wire::StoredReplicationSourceHoldV1 {
        kind: hold_kind_to_code(value.kind),
        hold_id: identifier_to_wire(value.hold_id),
        lineage: changelog_lineage_to_proto(value.lineage),
        fence: Some(position_to_proto(value.fence)),
    }
}

/// What reading a message gives: the value that it is the form of, or a
/// corruption where it is the form of no valid one.
pub open spec fn source_hold_read(
    message: wire::StoredReplicationSourceHoldV1,
    result: Result<ReplicationSourceHoldV1, DurableCodecError>,
) -> bool {
    match result {
        Ok(held) => source_hold_carries(message, held) && source_hold_valid(held),
        Err(error) => is_corrupt(error) && forall|other: ReplicationSourceHoldV1| #[trigger]
            source_hold_carries(message, other) ==> !source_hold_valid(other),
    }
}

/// Reads a source hold.
pub fn source_hold_from_proto(value: &wire::StoredReplicationSourceHoldV1) -> (result: Result<
    ReplicationSourceHoldV1,
    DurableCodecError,
>)
    ensures
        source_hold_read(*value, result),
{
    let kind = hold_kind_from_code(value.kind)?;
    let hold_id = identifier_from_wire(&value.hold_id)?;
    let lineage = changelog_lineage_from_proto(&value.lineage)?;
    let fence = position_from_proto(require_ref(&value.fence)?)?;
    Ok(ReplicationSourceHoldV1 { kind, hold_id, lineage, fence })
}

/// Reading the message form of a source hold gives back what was written.
pub proof fn source_hold_round_trip(
    value: ReplicationSourceHoldV1,
    message: wire::StoredReplicationSourceHoldV1,
    read: Result<ReplicationSourceHoldV1, DurableCodecError>,
)
    requires
        source_hold_valid(value),
        source_hold_carries(message, value),
        source_hold_read(message, read),
    ensures
        read is Ok,
        read->Ok_0 == value,
{
    if let Ok(held) = read {
        source_hold_form_is_exact(message, held, value);
    }
}

/// The stable code of the phase of a follower registration.
pub open spec fn hold_phase_code(value: FollowerRegistrationPhaseV1) -> i32 {
    match value {
        FollowerRegistrationPhaseV1::AwaitingBootstrap => 1,
        FollowerRegistrationPhaseV1::Attached => 2,
        FollowerRegistrationPhaseV1::Retired => 3,
    }
}

/// Returns the stable code of the phase of a follower registration.
pub fn hold_phase_to_code(value: FollowerRegistrationPhaseV1) -> (result: i32)
    ensures
        result == hold_phase_code(value),
{
    match value {
        FollowerRegistrationPhaseV1::AwaitingBootstrap => 1,
        FollowerRegistrationPhaseV1::Attached => 2,
        FollowerRegistrationPhaseV1::Retired => 3,
    }
}

/// Reads the phase of a follower registration from its stable code.
pub fn hold_phase_from_code(
    value: i32,
) -> (result: Result<FollowerRegistrationPhaseV1, DurableCodecError>)
    ensures
        match result {
            Ok(held) => value == hold_phase_code(held),
            Err(error) => is_corrupt(error) && forall|other: FollowerRegistrationPhaseV1|
                value != #[trigger] hold_phase_code(other),
        },
{
    match value {
        1 => Ok(FollowerRegistrationPhaseV1::AwaitingBootstrap),
        2 => Ok(FollowerRegistrationPhaseV1::Attached),
        3 => Ok(FollowerRegistrationPhaseV1::Retired),
        _ => Err(DurableCodecError::corrupt()),
    }
}

/// Whether a message is the form of a registered source hold.
pub open spec fn source_hold_v2_carries(
    message: wire::StoredReplicationSourceHoldV2,
    value: ReplicationSourceHoldV2,
) -> bool {
    &&& (message.hold matches Some(part) && source_hold_carries(part, value.hold))
    &&& (message.registered_at matches Some(part) && position_carries(part, value.registered_at))
    &&& message.hold_budget_sequences == value.hold_budget_sequences
    &&& optional_sequence_carries(message.expires_at_application_sequence, value.expires_at)
    &&& message.phase == hold_phase_code(value.phase)
    &&& optional_position_carries(message.degraded_at, value.degraded_at)
    &&& message.generation == Some(value.generation)
}

/// The parts of a registered source hold are valid.
pub open spec fn source_hold_v2_valid(value: ReplicationSourceHoldV2) -> bool {
    &&& source_hold_valid(value.hold)
    &&& position_valid(value.registered_at)
    &&& (value.expires_at matches Some(part) ==> part.valid())
    &&& (value.degraded_at matches Some(part) ==> position_valid(part))
}

/// A message is the form of at most one value.
pub proof fn source_hold_v2_form_is_exact(
    message: wire::StoredReplicationSourceHoldV2,
    a: ReplicationSourceHoldV2,
    b: ReplicationSourceHoldV2,
)
    requires
        source_hold_v2_carries(message, a),
        source_hold_v2_carries(message, b),
        source_hold_v2_valid(a),
        source_hold_v2_valid(b),
    ensures
        a == b,
{
    source_hold_form_is_exact(message.hold->Some_0, a.hold, b.hold);
    position_form_is_exact(message.registered_at->Some_0, a.registered_at, b.registered_at);
    if a.degraded_at is Some {
        position_form_is_exact(
            message.degraded_at->Some_0,
            a.degraded_at->Some_0,
            b.degraded_at->Some_0,
        );
    }
}

/// The message form of a registered source hold.
pub fn source_hold_v2_to_proto(
    value: ReplicationSourceHoldV2,
) -> (result: wire::StoredReplicationSourceHoldV2)
    ensures
        source_hold_v2_carries(result, value),
{
    wire::StoredReplicationSourceHoldV2 {
        hold: Some(source_hold_to_proto(value.hold)),
        registered_at: Some(position_to_proto(value.registered_at)),
        hold_budget_sequences: value.hold_budget_sequences,
        expires_at_application_sequence: optional_sequence_to_wire(value.expires_at),
        phase: hold_phase_to_code(value.phase),
        degraded_at: optional_position_to_proto(&value.degraded_at),
        generation: Some(value.generation),
    }
}

/// What reading a message gives: the value that it is the form of, or a
/// corruption where it is the form of no valid one.
pub open spec fn source_hold_v2_read(
    message: wire::StoredReplicationSourceHoldV2,
    result: Result<ReplicationSourceHoldV2, DurableCodecError>,
) -> bool {
    match result {
        Ok(held) => source_hold_v2_carries(message, held) && source_hold_v2_valid(held),
        Err(error) => is_corrupt(error) && forall|other: ReplicationSourceHoldV2| #[trigger]
            source_hold_v2_carries(message, other) ==> !source_hold_v2_valid(other),
    }
}

/// Reads a registered source hold.
pub fn source_hold_v2_from_proto(value: &wire::StoredReplicationSourceHoldV2) -> (result: Result<
    ReplicationSourceHoldV2,
    DurableCodecError,
>)
    ensures
        source_hold_v2_read(*value, result),
{
    let hold = source_hold_from_proto(require_ref(&value.hold)?)?;
    let registered_at = position_from_proto(require_ref(&value.registered_at)?)?;
    let hold_budget_sequences = value.hold_budget_sequences;
    let expires_at = optional_sequence_from_wire(value.expires_at_application_sequence)?;
    let phase = hold_phase_from_code(value.phase)?;
    let degraded_at = optional_position_from_proto(&value.degraded_at)?;
    let generation = require(value.generation)?;
    Ok(
        ReplicationSourceHoldV2 {
            hold,
            registered_at,
            hold_budget_sequences,
            expires_at,
            phase,
            degraded_at,
            generation,
        },
    )
}

/// Reading the message form of a registered source hold gives back what was written.
pub proof fn source_hold_v2_round_trip(
    value: ReplicationSourceHoldV2,
    message: wire::StoredReplicationSourceHoldV2,
    read: Result<ReplicationSourceHoldV2, DurableCodecError>,
)
    requires
        source_hold_v2_valid(value),
        source_hold_v2_carries(message, value),
        source_hold_v2_read(message, read),
    ensures
        read is Ok,
        read->Ok_0 == value,
{
    if let Ok(held) = read {
        source_hold_v2_form_is_exact(message, held, value);
    }
}

/// Whether a message is the form of an authoritative state catalog by its digest.
pub open spec fn state_catalog_carries(
    message: wire::StoredAuthoritativeStateCatalogV1,
    value: AuthoritativeStateCatalog,
) -> bool {
    &&& message.catalog_digest@ == value.catalog_digest.bytes@
}

/// A message is the form of at most one value.
pub proof fn state_catalog_form_is_exact(
    message: wire::StoredAuthoritativeStateCatalogV1,
    a: AuthoritativeStateCatalog,
    b: AuthoritativeStateCatalog,
)
    requires
        state_catalog_carries(message, a),
        state_catalog_carries(message, b),
    ensures
        a == b,
{
    assert(a.catalog_digest.bytes =~= b.catalog_digest.bytes);
}

/// The message form of an authoritative state catalog by its digest.
pub fn state_catalog_to_proto(
    value: AuthoritativeStateCatalog,
) -> (result: wire::StoredAuthoritativeStateCatalogV1)
    ensures
        state_catalog_carries(result, value),
{
    wire::StoredAuthoritativeStateCatalogV1 {
        catalog_digest: copy_bytes(value.catalog_digest.bytes.as_slice()),
    }
}

/// What reading a message gives: the value that it is the form of, or a
/// corruption where it is the form of no valid one.
pub open spec fn state_catalog_read(
    message: wire::StoredAuthoritativeStateCatalogV1,
    result: Result<AuthoritativeStateCatalog, DurableCodecError>,
) -> bool {
    match result {
        Ok(held) => state_catalog_carries(message, held),
        Err(error) => is_corrupt(error) && forall|other: AuthoritativeStateCatalog|
            !#[trigger] state_catalog_carries(message, other),
    }
}

/// Reads an authoritative state catalog by its digest.
pub fn state_catalog_from_proto(value: &wire::StoredAuthoritativeStateCatalogV1) -> (result: Result<
    AuthoritativeStateCatalog,
    DurableCodecError,
>)
    ensures
        state_catalog_read(*value, result),
{
    let catalog_digest = digest_from_wire(&value.catalog_digest)?;
    Ok(AuthoritativeStateCatalog { catalog_digest })
}

/// Reading the message form of an authoritative state catalog by its digest gives back what
/// was written.
pub proof fn state_catalog_round_trip(
    value: AuthoritativeStateCatalog,
    message: wire::StoredAuthoritativeStateCatalogV1,
    read: Result<AuthoritativeStateCatalog, DurableCodecError>,
)
    requires
        state_catalog_carries(message, value),
        state_catalog_read(message, read),
    ensures
        read is Ok,
        read->Ok_0 == value,
{
    if let Ok(held) = read {
        state_catalog_form_is_exact(message, held, value);
    }
}

/// Whether a message is the form of a leadership epoch.
pub open spec fn leadership_carries(
    message: wire::StoredLeadershipEpochV1,
    value: LeadershipEpochV1,
) -> bool {
    &&& message.epoch == value.epoch.value
}

/// The parts of a leadership epoch are valid.
pub open spec fn leadership_valid(value: LeadershipEpochV1) -> bool {
    &&& value.epoch.valid()
}

/// A message is the form of at most one value.
pub proof fn leadership_form_is_exact(
    message: wire::StoredLeadershipEpochV1,
    a: LeadershipEpochV1,
    b: LeadershipEpochV1,
)
    requires
        leadership_carries(message, a),
        leadership_carries(message, b),
    ensures
        a == b,
{
}

/// The message form of a leadership epoch.
pub fn leadership_to_proto(value: LeadershipEpochV1) -> (result: wire::StoredLeadershipEpochV1)
    ensures
        leadership_carries(result, value),
{
    wire::StoredLeadershipEpochV1 {
        epoch: value.epoch.get(),
    }
}

/// What reading a message gives: the value that it is the form of, or a
/// corruption where it is the form of no valid one.
pub open spec fn leadership_read(
    message: wire::StoredLeadershipEpochV1,
    result: Result<LeadershipEpochV1, DurableCodecError>,
) -> bool {
    match result {
        Ok(held) => leadership_carries(message, held) && leadership_valid(held),
        Err(error) => is_corrupt(error) && forall|other: LeadershipEpochV1| #[trigger]
            leadership_carries(message, other) ==> !leadership_valid(other),
    }
}

/// Reads a leadership epoch.
pub fn leadership_from_proto(value: &wire::StoredLeadershipEpochV1) -> (result: Result<
    LeadershipEpochV1,
    DurableCodecError,
>)
    ensures
        leadership_read(*value, result),
{
    let epoch = require(Id64::new(value.epoch))?;
    Ok(LeadershipEpochV1 { epoch })
}

/// Reading the message form of a leadership epoch gives back what was written.
pub proof fn leadership_round_trip(
    value: LeadershipEpochV1,
    message: wire::StoredLeadershipEpochV1,
    read: Result<LeadershipEpochV1, DurableCodecError>,
)
    requires
        leadership_valid(value),
        leadership_carries(message, value),
        leadership_read(message, read),
    ensures
        read is Ok,
        read->Ok_0 == value,
{
    if let Ok(held) = read {
        leadership_form_is_exact(message, held, value);
    }
}

/// Whether a message is the form of the lineage-shared roots of the changelog history.
pub open spec fn history_carries(
    message: wire::StoredChangelogHistoryStateV3,
    value: ChangelogHistoryStateV3,
) -> bool {
    &&& changelog_lineage_carries(message.lineage, value.lineage)
    &&& (message.anchor matches Some(part) && position_carries(part, value.anchor))
    &&& (message.tail matches Some(part) && position_carries(part, value.tail))
    &&& (message.minimum_resume matches Some(part) && position_carries(part, value.minimum_resume))
    &&& message.admitted
}

/// The parts of the lineage-shared roots of the changelog history are valid.
pub open spec fn history_valid(value: ChangelogHistoryStateV3) -> bool {
    &&& changelog_lineage_valid(value.lineage)
    &&& position_valid(value.anchor)
    &&& position_valid(value.tail)
    &&& position_valid(value.minimum_resume)
}

/// A message is the form of at most one value.
pub proof fn history_form_is_exact(
    message: wire::StoredChangelogHistoryStateV3,
    a: ChangelogHistoryStateV3,
    b: ChangelogHistoryStateV3,
)
    requires
        history_carries(message, a),
        history_carries(message, b),
        history_valid(a),
        history_valid(b),
    ensures
        a == b,
{
    changelog_lineage_form_is_exact(message.lineage, a.lineage, b.lineage);
    position_form_is_exact(message.anchor->Some_0, a.anchor, b.anchor);
    position_form_is_exact(message.tail->Some_0, a.tail, b.tail);
    position_form_is_exact(message.minimum_resume->Some_0, a.minimum_resume, b.minimum_resume);
}

/// The message form of the lineage-shared roots of the changelog history.
pub fn history_to_proto(
    value: ChangelogHistoryStateV3,
) -> (result: wire::StoredChangelogHistoryStateV3)
    ensures
        history_carries(result, value),
{
    wire::StoredChangelogHistoryStateV3 {
        lineage: changelog_lineage_to_proto(value.lineage),
        anchor: Some(position_to_proto(value.anchor)),
        tail: Some(position_to_proto(value.tail)),
        minimum_resume: Some(position_to_proto(value.minimum_resume)),
        admitted: true,
    }
}

/// What reading a message gives: the value that it is the form of, or a
/// corruption where it is the form of no valid one.
pub open spec fn history_read(
    message: wire::StoredChangelogHistoryStateV3,
    result: Result<ChangelogHistoryStateV3, DurableCodecError>,
) -> bool {
    match result {
        Ok(held) => history_carries(message, held) && history_valid(held),
        Err(error) => is_corrupt(error) && forall|other: ChangelogHistoryStateV3| #[trigger]
            history_carries(message, other) ==> !history_valid(other),
    }
}

/// Reads the lineage-shared roots of the changelog history.
pub fn history_from_proto(value: &wire::StoredChangelogHistoryStateV3) -> (result: Result<
    ChangelogHistoryStateV3,
    DurableCodecError,
>)
    ensures
        history_read(*value, result),
{
    let lineage = changelog_lineage_from_proto(&value.lineage)?;
    let anchor = position_from_proto(require_ref(&value.anchor)?)?;
    let tail = position_from_proto(require_ref(&value.tail)?)?;
    let minimum_resume = position_from_proto(require_ref(&value.minimum_resume)?)?;
    if !value.admitted {
        return Err(DurableCodecError::corrupt());
    }
    Ok(ChangelogHistoryStateV3 { lineage, anchor, tail, minimum_resume })
}

/// Reading the message form of the lineage-shared roots of the changelog history gives back
/// what was written.
pub proof fn history_round_trip(
    value: ChangelogHistoryStateV3,
    message: wire::StoredChangelogHistoryStateV3,
    read: Result<ChangelogHistoryStateV3, DurableCodecError>,
)
    requires
        history_valid(value),
        history_carries(message, value),
        history_read(message, read),
    ensures
        read is Ok,
        read->Ok_0 == value,
{
    if let Ok(held) = read {
        history_form_is_exact(message, held, value);
    }
}

/// Whether a message is the form of an attached follower's progress.
pub open spec fn attached_carries(
    message: wire::AttachedFollowerV3,
    value: AttachedFollower,
) -> bool {
    &&& changelog_lineage_carries(message.lineage, value.lineage)
    &&& (message.applied matches Some(part) && position_carries(part, value.applied))
    &&& optional_position_carries(message.acknowledged, value.acknowledged)
    &&& message.admitted
}

/// The parts of an attached follower's progress are valid.
pub open spec fn attached_valid(value: AttachedFollower) -> bool {
    &&& changelog_lineage_valid(value.lineage)
    &&& position_valid(value.applied)
    &&& (value.acknowledged matches Some(part) ==> position_valid(part))
}

/// A message is the form of at most one value.
pub proof fn attached_form_is_exact(
    message: wire::AttachedFollowerV3,
    a: AttachedFollower,
    b: AttachedFollower,
)
    requires
        attached_carries(message, a),
        attached_carries(message, b),
        attached_valid(a),
        attached_valid(b),
    ensures
        a == b,
{
    changelog_lineage_form_is_exact(message.lineage, a.lineage, b.lineage);
    position_form_is_exact(message.applied->Some_0, a.applied, b.applied);
    if a.acknowledged is Some {
        position_form_is_exact(
            message.acknowledged->Some_0,
            a.acknowledged->Some_0,
            b.acknowledged->Some_0,
        );
    }
}

/// The message form of an attached follower's progress.
pub fn attached_to_proto(value: AttachedFollower) -> (result: wire::AttachedFollowerV3)
    ensures
        attached_carries(result, value),
{
    wire::AttachedFollowerV3 {
        lineage: changelog_lineage_to_proto(value.lineage),
        applied: Some(position_to_proto(value.applied)),
        acknowledged: optional_position_to_proto(&value.acknowledged),
        admitted: true,
    }
}

/// Reads an attached follower's progress.
pub fn attached_from_proto(value: &wire::AttachedFollowerV3) -> (result: Result<
    AttachedFollower,
    DurableCodecError,
>)
    ensures
        match result {
            Ok(held) => attached_carries(*value, held) && attached_valid(held),
            Err(error) => is_corrupt(error) && forall|other: AttachedFollower| #[trigger]
                attached_carries(*value, other) ==> !attached_valid(other),
        },
{
    let lineage = changelog_lineage_from_proto(&value.lineage)?;
    let applied = position_from_proto(require_ref(&value.applied)?)?;
    let acknowledged = optional_position_from_proto(&value.acknowledged)?;
    if !value.admitted {
        return Err(DurableCodecError::corrupt());
    }
    Ok(AttachedFollower { lineage, applied, acknowledged })
}

/// Whether a message is the form of a replication follower state.
pub open spec fn follower_carries(
    message: wire::StoredReplicationFollowerStateV3,
    value: ReplicationFollowerStateV3,
) -> bool {
    match value {
        ReplicationFollowerStateV3::Detached => message.state matches Some(
            wire::StoredReplicationFollowerStateV3State::Detached,
        ),
        ReplicationFollowerStateV3::Attached(part) => message.state matches Some(
            wire::StoredReplicationFollowerStateV3State::Attached(form),
        ) && attached_carries(form, part),
    }
}

/// The parts of a replication follower state are valid.
pub open spec fn follower_valid(value: ReplicationFollowerStateV3) -> bool {
    match value {
        ReplicationFollowerStateV3::Detached => true,
        ReplicationFollowerStateV3::Attached(part) => attached_valid(part),
    }
}

/// A message is the form of at most one value.
pub proof fn follower_form_is_exact(
    message: wire::StoredReplicationFollowerStateV3,
    a: ReplicationFollowerStateV3,
    b: ReplicationFollowerStateV3,
)
    requires
        follower_carries(message, a),
        follower_carries(message, b),
        follower_valid(a),
        follower_valid(b),
    ensures
        a == b,
{
    match (a, b) {
        (ReplicationFollowerStateV3::Attached(part),
            ReplicationFollowerStateV3::Attached(other)) => {
            if let Some(
                wire::StoredReplicationFollowerStateV3State::Attached(form),
            ) = message.state {
                attached_form_is_exact(form, part, other);
            }
        },
        _ => {},
    }
}

/// The message form of a replication follower state.
pub fn follower_to_proto(
    value: ReplicationFollowerStateV3,
) -> (result: wire::StoredReplicationFollowerStateV3)
    ensures
        follower_carries(result, value),
{
    let form = match value {
        ReplicationFollowerStateV3::Detached =>
            wire::StoredReplicationFollowerStateV3State::Detached,
        ReplicationFollowerStateV3::Attached(part) =>
            wire::StoredReplicationFollowerStateV3State::Attached(
            attached_to_proto(part),
        ),
    };
    wire::StoredReplicationFollowerStateV3 { state: Some(form) }
}

/// What reading a message gives: the value that it is the form of, or a
/// corruption where it is the form of no valid one.
pub open spec fn follower_read(
    message: wire::StoredReplicationFollowerStateV3,
    result: Result<ReplicationFollowerStateV3, DurableCodecError>,
) -> bool {
    match result {
        Ok(held) => follower_carries(message, held) && follower_valid(held),
        Err(error) => is_corrupt(error) && forall|other: ReplicationFollowerStateV3| #[trigger]
            follower_carries(message, other) ==> !follower_valid(other),
    }
}

/// Reads a replication follower state.
pub fn follower_from_proto(value: &wire::StoredReplicationFollowerStateV3) -> (result: Result<
    ReplicationFollowerStateV3,
    DurableCodecError,
>)
    ensures
        follower_read(*value, result),
{
    match require_ref(&value.state)? {
        wire::StoredReplicationFollowerStateV3State::Detached => Ok(
            ReplicationFollowerStateV3::Detached,
        ),
        wire::StoredReplicationFollowerStateV3State::Attached(form) => {
            let part = attached_from_proto(form)?;
            Ok(ReplicationFollowerStateV3::Attached(part))
        },
    }
}

/// Reading the message form of a replication follower state gives back what was written.
pub proof fn follower_round_trip(
    value: ReplicationFollowerStateV3,
    message: wire::StoredReplicationFollowerStateV3,
    read: Result<ReplicationFollowerStateV3, DurableCodecError>,
)
    requires
        follower_valid(value),
        follower_carries(message, value),
        follower_read(message, read),
    ensures
        read is Ok,
        read->Ok_0 == value,
{
    if let Ok(held) = read {
        follower_form_is_exact(message, held, value);
    }
}

/// Whether a message is the form of a source hold as it was before a change.
pub open spec fn before_carries(message: wire::ReplicationHoldBeforeV1, value: HoldBefore) -> bool {
    match value {
        HoldBefore::Absent => message.before matches Some(
            wire::ReplicationHoldBeforeV1Before::Absent,
        ),
        HoldBefore::Legacy(part) => message.before matches Some(
            wire::ReplicationHoldBeforeV1Before::Legacy(form),
        ) && source_hold_carries(form, part),
        HoldBefore::Registered(part) => message.before matches Some(
            wire::ReplicationHoldBeforeV1Before::Registered(form),
        ) && source_hold_v2_carries(form, part),
    }
}

/// The parts of a source hold as it was before a change are valid.
pub open spec fn before_valid(value: HoldBefore) -> bool {
    match value {
        HoldBefore::Absent => true,
        HoldBefore::Legacy(part) => source_hold_valid(part),
        HoldBefore::Registered(part) => source_hold_v2_valid(part),
    }
}

/// A message is the form of at most one value.
pub proof fn before_form_is_exact(
    message: wire::ReplicationHoldBeforeV1,
    a: HoldBefore,
    b: HoldBefore,
)
    requires
        before_carries(message, a),
        before_carries(message, b),
        before_valid(a),
        before_valid(b),
    ensures
        a == b,
{
    match (a, b) {
        (HoldBefore::Legacy(part), HoldBefore::Legacy(other)) => {
            if let Some(wire::ReplicationHoldBeforeV1Before::Legacy(form)) = message.before {
                source_hold_form_is_exact(form, part, other);
            }
        },
        (HoldBefore::Registered(part), HoldBefore::Registered(other)) => {
            if let Some(wire::ReplicationHoldBeforeV1Before::Registered(form)) = message.before {
                source_hold_v2_form_is_exact(form, part, other);
            }
        },
        _ => {},
    }
}

/// The message form of a source hold as it was before a change.
pub fn before_to_proto(value: HoldBefore) -> (result: wire::ReplicationHoldBeforeV1)
    ensures
        before_carries(result, value),
{
    let form = match value {
        HoldBefore::Absent => wire::ReplicationHoldBeforeV1Before::Absent,
        HoldBefore::Legacy(part) => wire::ReplicationHoldBeforeV1Before::Legacy(
            source_hold_to_proto(part),
        ),
        HoldBefore::Registered(part) => wire::ReplicationHoldBeforeV1Before::Registered(
            source_hold_v2_to_proto(part),
        ),
    };
    wire::ReplicationHoldBeforeV1 { before: Some(form) }
}

/// Reads a source hold as it was before a change.
pub fn before_from_proto(value: &wire::ReplicationHoldBeforeV1) -> (result: Result<
    HoldBefore,
    DurableCodecError,
>)
    ensures
        match result {
            Ok(held) => before_carries(*value, held) && before_valid(held),
            Err(error) => is_corrupt(error) && forall|other: HoldBefore| #[trigger]
                before_carries(*value, other) ==> !before_valid(other),
        },
{
    match require_ref(&value.before)? {
        wire::ReplicationHoldBeforeV1Before::Absent => Ok(HoldBefore::Absent),
        wire::ReplicationHoldBeforeV1Before::Legacy(form) => {
            let part = source_hold_from_proto(form)?;
            Ok(HoldBefore::Legacy(part))
        },
        wire::ReplicationHoldBeforeV1Before::Registered(form) => {
            let part = source_hold_v2_from_proto(form)?;
            Ok(HoldBefore::Registered(part))
        },
    }
}

/// Whether a message is the form of an explicit request for a change.
pub open spec fn explicit_origin_carries(
    message: wire::ExplicitOriginV1,
    value: ExplicitOriginView,
) -> bool {
    &&& identifier_carries(message.request_id, value.request_id)
    &&& (message.principal matches Some(part) && audit_principal_carries(part, value.principal))
    &&& optional_text_carries(message.approval_id, value.approval_id)
}

/// The parts of an explicit request for a change are valid.
pub open spec fn explicit_origin_valid(value: ExplicitOriginView) -> bool {
    &&& audit_principal_valid(value.principal)
}

/// A message is the form of at most one value.
pub proof fn explicit_origin_form_is_exact(
    message: wire::ExplicitOriginV1,
    a: ExplicitOriginView,
    b: ExplicitOriginView,
)
    requires
        explicit_origin_carries(message, a),
        explicit_origin_carries(message, b),
    ensures
        a == b,
{
    assert(a.request_id.bytes =~= b.request_id.bytes);
    audit_principal_form_is_exact(message.principal->Some_0, a.principal, b.principal);
}

/// The message form of an explicit request for a change.
pub fn explicit_origin_to_proto(value: &ExplicitOrigin) -> (result: wire::ExplicitOriginV1)
    ensures
        explicit_origin_carries(result, value@),
{
    wire::ExplicitOriginV1 {
        request_id: identifier_to_wire(value.request_id),
        principal: Some(audit_principal_to_proto(&value.principal)),
        approval_id: optional_text_to_wire(&value.approval_id),
    }
}

/// Reads an explicit request for a change.
pub fn explicit_origin_from_proto(value: &wire::ExplicitOriginV1) -> (result: Result<
    ExplicitOrigin,
    DurableCodecError,
>)
    ensures
        match result {
            Ok(held) => explicit_origin_carries(*value, held@) && explicit_origin_valid(held@),
            Err(error) => is_corrupt(error) && forall|other: ExplicitOriginView| #[trigger]
                explicit_origin_carries(*value, other) ==> !explicit_origin_valid(other),
        },
{
    let request_id = identifier_from_wire(&value.request_id)?;
    let principal = audit_principal_from_proto(require_ref(&value.principal)?)?;
    let approval_id = optional_text_from_wire(&value.approval_id)?;
    Ok(ExplicitOrigin { request_id, principal, approval_id })
}

/// Whether a message is the form of a configured expiry.
pub open spec fn expiry_origin_carries(
    message: wire::ConfiguredExpiryOriginV1,
    value: ConfiguredExpiryOrigin,
) -> bool {
    &&& message.registration_administration_sequence == value.registration.value
}

/// The parts of a configured expiry are valid.
pub open spec fn expiry_origin_valid(value: ConfiguredExpiryOrigin) -> bool {
    &&& value.registration.valid()
}

/// A message is the form of at most one value.
pub proof fn expiry_origin_form_is_exact(
    message: wire::ConfiguredExpiryOriginV1,
    a: ConfiguredExpiryOrigin,
    b: ConfiguredExpiryOrigin,
)
    requires
        expiry_origin_carries(message, a),
        expiry_origin_carries(message, b),
    ensures
        a == b,
{
}

/// The message form of a configured expiry.
pub fn expiry_origin_to_proto(
    value: ConfiguredExpiryOrigin,
) -> (result: wire::ConfiguredExpiryOriginV1)
    ensures
        expiry_origin_carries(result, value),
{
    wire::ConfiguredExpiryOriginV1 {
        registration_administration_sequence: value.registration.get(),
    }
}

/// Reads a configured expiry.
pub fn expiry_origin_from_proto(value: &wire::ConfiguredExpiryOriginV1) -> (result: Result<
    ConfiguredExpiryOrigin,
    DurableCodecError,
>)
    ensures
        match result {
            Ok(held) => expiry_origin_carries(*value, held) && expiry_origin_valid(held),
            Err(error) => is_corrupt(error) && forall|other: ConfiguredExpiryOrigin| #[trigger]
                expiry_origin_carries(*value, other) ==> !expiry_origin_valid(other),
        },
{
    let registration = require(Id64::new(value.registration_administration_sequence))?;
    Ok(ConfiguredExpiryOrigin { registration })
}

/// Whether a message is the form of the origin of a replication change.
pub open spec fn origin_carries(
    message: wire::ReplicationAdministrationOriginV1,
    value: ReplicationOriginView,
) -> bool {
    match value {
        ReplicationOriginView::Explicit(part) => message.origin matches Some(
            wire::ReplicationAdministrationOriginV1Origin::Explicit(form),
        ) && explicit_origin_carries(form, part),
        ReplicationOriginView::ConfiguredExpiry(part) => message.origin matches Some(
            wire::ReplicationAdministrationOriginV1Origin::ConfiguredExpiry(form),
        ) && expiry_origin_carries(form, part),
    }
}

/// The parts of the origin of a replication change are valid.
pub open spec fn origin_valid(value: ReplicationOriginView) -> bool {
    match value {
        ReplicationOriginView::Explicit(part) => explicit_origin_valid(part),
        ReplicationOriginView::ConfiguredExpiry(part) => expiry_origin_valid(part),
    }
}

/// A message is the form of at most one value.
pub proof fn origin_form_is_exact(
    message: wire::ReplicationAdministrationOriginV1,
    a: ReplicationOriginView,
    b: ReplicationOriginView,
)
    requires
        origin_carries(message, a),
        origin_carries(message, b),
    ensures
        a == b,
{
    match (a, b) {
        (ReplicationOriginView::Explicit(part), ReplicationOriginView::Explicit(other)) => {
            if let Some(
                wire::ReplicationAdministrationOriginV1Origin::Explicit(form),
            ) = message.origin {
                explicit_origin_form_is_exact(form, part, other);
            }
        },
        (ReplicationOriginView::ConfiguredExpiry(part),
            ReplicationOriginView::ConfiguredExpiry(other)) => {
            if let Some(
                wire::ReplicationAdministrationOriginV1Origin::ConfiguredExpiry(form),
            ) = message.origin {
                expiry_origin_form_is_exact(form, part, other);
            }
        },
        _ => {},
    }
}

/// The message form of the origin of a replication change.
pub fn origin_to_proto(
    value: &ReplicationAdministrationOriginV1,
) -> (result: wire::ReplicationAdministrationOriginV1)
    ensures
        origin_carries(result, value@),
{
    let form = match value {
        ReplicationAdministrationOriginV1::Explicit(part) =>
            wire::ReplicationAdministrationOriginV1Origin::Explicit(
            explicit_origin_to_proto(part),
        ),
        ReplicationAdministrationOriginV1::ConfiguredExpiry(part) =>
            wire::ReplicationAdministrationOriginV1Origin::ConfiguredExpiry(
            expiry_origin_to_proto(*part),
        ),
    };
    wire::ReplicationAdministrationOriginV1 { origin: Some(form) }
}

/// Reads the origin of a replication change.
pub fn origin_from_proto(value: &wire::ReplicationAdministrationOriginV1) -> (result: Result<
    ReplicationAdministrationOriginV1,
    DurableCodecError,
>)
    ensures
        match result {
            Ok(held) => origin_carries(*value, held@) && origin_valid(held@),
            Err(error) => is_corrupt(error) && forall|other: ReplicationOriginView| #[trigger]
                origin_carries(*value, other) ==> !origin_valid(other),
        },
{
    match require_ref(&value.origin)? {
        wire::ReplicationAdministrationOriginV1Origin::Explicit(form) => {
            let part = explicit_origin_from_proto(form)?;
            Ok(ReplicationAdministrationOriginV1::Explicit(part))
        },
        wire::ReplicationAdministrationOriginV1Origin::ConfiguredExpiry(form) => {
            let part = expiry_origin_from_proto(form)?;
            Ok(ReplicationAdministrationOriginV1::ConfiguredExpiry(part))
        },
    }
}

/// The stable code of what was done to a follower.
pub open spec fn replication_action_code(value: ReplicationAdministrationActionV1) -> i32 {
    match value {
        ReplicationAdministrationActionV1::RegisterFollower => 1,
        ReplicationAdministrationActionV1::RetireFollower => 2,
        ReplicationAdministrationActionV1::ExpireFollower => 3,
    }
}

/// Returns the stable code of what was done to a follower.
pub fn replication_action_to_code(value: ReplicationAdministrationActionV1) -> (result: i32)
    ensures
        result == replication_action_code(value),
{
    match value {
        ReplicationAdministrationActionV1::RegisterFollower => 1,
        ReplicationAdministrationActionV1::RetireFollower => 2,
        ReplicationAdministrationActionV1::ExpireFollower => 3,
    }
}

/// Reads what was done to a follower from its stable code.
pub fn replication_action_from_code(
    value: i32,
) -> (result: Result<ReplicationAdministrationActionV1, DurableCodecError>)
    ensures
        match result {
            Ok(held) => value == replication_action_code(held),
            Err(error) => is_corrupt(error) && forall|other: ReplicationAdministrationActionV1|
                value != #[trigger] replication_action_code(other),
        },
{
    match value {
        1 => Ok(ReplicationAdministrationActionV1::RegisterFollower),
        2 => Ok(ReplicationAdministrationActionV1::RetireFollower),
        3 => Ok(ReplicationAdministrationActionV1::ExpireFollower),
        _ => Err(DurableCodecError::corrupt()),
    }
}

/// Whether a message is the form of a replication administration record.
pub open spec fn replication_administration_carries(
    message: wire::StoredReplicationAdministrationV1,
    value: ReplicationAdministrationView,
) -> bool {
    &&& message.administration_sequence == value.administration_sequence.value
    &&& (message.timestamp matches Some(part) && timestamp_carries(part, value.timestamp))
    &&& message.action == replication_action_code(value.action)
    &&& (message.target matches Some(part) && follower_target_carries(part, value.target))
    &&& message.registration_generation == value.generation.value
    &&& (message.observed matches Some(part) && position_carries(part, value.observed))
    &&& before_carries(message.before, value.before)
    &&& (message.after matches Some(part) && source_hold_v2_carries(part, value.after))
    &&& origin_carries(message.origin, value.origin)
    &&& message.admitted
}

/// The parts of a replication administration record are valid.
pub open spec fn replication_administration_valid(value: ReplicationAdministrationView) -> bool {
    &&& value.administration_sequence.valid()
    &&& timestamp_valid(value.timestamp)
    &&& follower_target_valid(value.target)
    &&& value.generation.valid()
    &&& position_valid(value.observed)
    &&& before_valid(value.before)
    &&& source_hold_v2_valid(value.after)
    &&& origin_valid(value.origin)
    &&& value.generation == value.after.generation
}

/// A message is the form of at most one value.
pub proof fn replication_administration_form_is_exact(
    message: wire::StoredReplicationAdministrationV1,
    a: ReplicationAdministrationView,
    b: ReplicationAdministrationView,
)
    requires
        replication_administration_carries(message, a),
        replication_administration_carries(message, b),
        replication_administration_valid(a),
        replication_administration_valid(b),
    ensures
        a == b,
{
    timestamp_form_is_exact(message.timestamp->Some_0, a.timestamp, b.timestamp);
    follower_target_form_is_exact(message.target->Some_0, a.target, b.target);
    position_form_is_exact(message.observed->Some_0, a.observed, b.observed);
    before_form_is_exact(message.before, a.before, b.before);
    source_hold_v2_form_is_exact(message.after->Some_0, a.after, b.after);
    origin_form_is_exact(message.origin, a.origin, b.origin);
}

/// The message form of a replication administration record.
pub fn replication_administration_to_proto(
    value: &StoredReplicationAdministrationV1,
) -> (result: wire::StoredReplicationAdministrationV1)
    ensures
        replication_administration_carries(result, value@),
{
    wire::StoredReplicationAdministrationV1 {
        administration_sequence: value.administration_sequence.get(),
        timestamp: Some(timestamp_to_proto(value.timestamp)),
        action: replication_action_to_code(value.action),
        target: Some(follower_target_to_proto(value.target)),
        registration_generation: value.generation.get(),
        observed: Some(position_to_proto(value.observed)),
        before: before_to_proto(value.before),
        after: Some(source_hold_v2_to_proto(value.after)),
        origin: origin_to_proto(&value.origin),
        admitted: true,
    }
}

/// What reading a message gives: the value that it is the form of, or a
/// corruption where it is the form of no valid one.
pub open spec fn replication_administration_read(
    message: wire::StoredReplicationAdministrationV1,
    result: Result<StoredReplicationAdministrationV1, DurableCodecError>,
) -> bool {
    match result {
        Ok(held) =>
            replication_administration_carries(message, held@)
                && replication_administration_valid(held@),
        Err(error) => is_corrupt(error) && forall|other: ReplicationAdministrationView| #[trigger]
            replication_administration_carries(message, other)
                ==> !replication_administration_valid(other),
    }
}

/// Reads a replication administration record.
pub fn replication_administration_from_proto(
    value: &wire::StoredReplicationAdministrationV1,
) -> (result: Result<
    StoredReplicationAdministrationV1,
    DurableCodecError,
>)
    ensures
        replication_administration_read(*value, result),
{
    let administration_sequence = require(Id64::new(value.administration_sequence))?;
    let timestamp = timestamp_from_proto(require_ref(&value.timestamp)?)?;
    let action = replication_action_from_code(value.action)?;
    let target = follower_target_from_proto(require_ref(&value.target)?)?;
    let generation = require(Id64::new(value.registration_generation))?;
    let observed = position_from_proto(require_ref(&value.observed)?)?;
    let before = before_from_proto(&value.before)?;
    let after = source_hold_v2_from_proto(require_ref(&value.after)?)?;
    let origin = origin_from_proto(&value.origin)?;
    if !value.admitted {
        return Err(DurableCodecError::corrupt());
    }
    if !(generation == after.generation) {
        assert forall|other: ReplicationAdministrationView| #[trigger]
            replication_administration_carries(*value, other)
                implies !replication_administration_valid(other) by {
        }
        return Err(DurableCodecError::corrupt());
    }
    Ok(
        StoredReplicationAdministrationV1 {
            administration_sequence,
            timestamp,
            action,
            target,
            generation,
            observed,
            before,
            after,
            origin,
        },
    )
}

/// Reading the message form of a replication administration record gives back what was written.
pub proof fn replication_administration_round_trip(
    value: ReplicationAdministrationView,
    message: wire::StoredReplicationAdministrationV1,
    read: Result<StoredReplicationAdministrationV1, DurableCodecError>,
)
    requires
        replication_administration_valid(value),
        replication_administration_carries(message, value),
        replication_administration_read(message, read),
    ensures
        read is Ok,
        read->Ok_0@ == value,
{
    if let Ok(held) = read {
        replication_administration_form_is_exact(message, held@, value);
    }
}

/// Whether a message is the form of a primary fence record.
pub open spec fn primary_fence_carries(
    message: wire::StoredPrimaryFenceAdministrationV1,
    value: PrimaryFenceView,
) -> bool {
    &&& message.administration_sequence == value.administration_sequence.value
    &&& (message.timestamp matches Some(part) && timestamp_carries(part, value.timestamp))
    &&& identifier_carries(message.operation_id, value.operation_id)
    &&& identifier_carries(message.request_id, value.request_id)
    &&& (message.principal matches Some(part) && audit_principal_carries(part, value.principal))
    &&& optional_text_carries(message.approval_id, value.approval_id)
    &&& (message.target matches Some(part) && follower_target_carries(part, value.target))
    &&& message.registration_generation == value.generation.value
    &&& (message.observed matches Some(part) && position_carries(part, value.observed))
    &&& message.admitted
}

/// The parts of a primary fence record are valid.
pub open spec fn primary_fence_valid(value: PrimaryFenceView) -> bool {
    &&& value.administration_sequence.valid()
    &&& timestamp_valid(value.timestamp)
    &&& audit_principal_valid(value.principal)
    &&& follower_target_valid(value.target)
    &&& value.generation.valid()
    &&& position_valid(value.observed)
}

/// A message is the form of at most one value.
pub proof fn primary_fence_form_is_exact(
    message: wire::StoredPrimaryFenceAdministrationV1,
    a: PrimaryFenceView,
    b: PrimaryFenceView,
)
    requires
        primary_fence_carries(message, a),
        primary_fence_carries(message, b),
        primary_fence_valid(a),
        primary_fence_valid(b),
    ensures
        a == b,
{
    timestamp_form_is_exact(message.timestamp->Some_0, a.timestamp, b.timestamp);
    assert(a.operation_id.bytes =~= b.operation_id.bytes);
    assert(a.request_id.bytes =~= b.request_id.bytes);
    audit_principal_form_is_exact(message.principal->Some_0, a.principal, b.principal);
    follower_target_form_is_exact(message.target->Some_0, a.target, b.target);
    position_form_is_exact(message.observed->Some_0, a.observed, b.observed);
}

/// The message form of a primary fence record.
pub fn primary_fence_to_proto(
    value: &StoredPrimaryFenceAdministrationV1,
) -> (result: wire::StoredPrimaryFenceAdministrationV1)
    ensures
        primary_fence_carries(result, value@),
{
    wire::StoredPrimaryFenceAdministrationV1 {
        administration_sequence: value.administration_sequence.get(),
        timestamp: Some(timestamp_to_proto(value.timestamp)),
        operation_id: identifier_to_wire(value.operation_id),
        request_id: identifier_to_wire(value.request_id),
        principal: Some(audit_principal_to_proto(&value.principal)),
        approval_id: optional_text_to_wire(&value.approval_id),
        target: Some(follower_target_to_proto(value.target)),
        registration_generation: value.generation.get(),
        observed: Some(position_to_proto(value.observed)),
        admitted: true,
    }
}

/// What reading a message gives: the value that it is the form of, or a
/// corruption where it is the form of no valid one.
pub open spec fn primary_fence_read(
    message: wire::StoredPrimaryFenceAdministrationV1,
    result: Result<StoredPrimaryFenceAdministrationV1, DurableCodecError>,
) -> bool {
    match result {
        Ok(held) => primary_fence_carries(message, held@) && primary_fence_valid(held@),
        Err(error) => is_corrupt(error) && forall|other: PrimaryFenceView| #[trigger]
            primary_fence_carries(message, other) ==> !primary_fence_valid(other),
    }
}

/// Reads a primary fence record.
pub fn primary_fence_from_proto(
    value: &wire::StoredPrimaryFenceAdministrationV1,
) -> (result: Result<
    StoredPrimaryFenceAdministrationV1,
    DurableCodecError,
>)
    ensures
        primary_fence_read(*value, result),
{
    let administration_sequence = require(Id64::new(value.administration_sequence))?;
    let timestamp = timestamp_from_proto(require_ref(&value.timestamp)?)?;
    let operation_id = identifier_from_wire(&value.operation_id)?;
    let request_id = identifier_from_wire(&value.request_id)?;
    let principal = audit_principal_from_proto(require_ref(&value.principal)?)?;
    let approval_id = optional_text_from_wire(&value.approval_id)?;
    let target = follower_target_from_proto(require_ref(&value.target)?)?;
    let generation = require(Id64::new(value.registration_generation))?;
    let observed = position_from_proto(require_ref(&value.observed)?)?;
    if !value.admitted {
        return Err(DurableCodecError::corrupt());
    }
    Ok(
        StoredPrimaryFenceAdministrationV1 {
            administration_sequence,
            timestamp,
            operation_id,
            request_id,
            principal,
            approval_id,
            target,
            generation,
            observed,
        },
    )
}

/// Reading the message form of a primary fence record gives back what was written.
pub proof fn primary_fence_round_trip(
    value: PrimaryFenceView,
    message: wire::StoredPrimaryFenceAdministrationV1,
    read: Result<StoredPrimaryFenceAdministrationV1, DurableCodecError>,
)
    requires
        primary_fence_valid(value),
        primary_fence_carries(message, value),
        primary_fence_read(message, read),
    ensures
        read is Ok,
        read->Ok_0@ == value,
{
    if let Ok(held) = read {
        primary_fence_form_is_exact(message, held@, value);
    }
}

/// Whether a message is the form of an active primary's lineage.
pub open spec fn active_admission_carries(
    message: wire::ActiveAdmissionV1,
    value: ActiveAdmission,
) -> bool {
    &&& identifier_carries(message.database_id, value.database_id)
    &&& message.history_incarnation == value.history_incarnation
    &&& message.leadership_epoch == value.leadership_epoch.value
    &&& message.admitted
}

/// The parts of an active primary's lineage are valid.
pub open spec fn active_admission_valid(value: ActiveAdmission) -> bool {
    &&& value.leadership_epoch.valid()
}

/// A message is the form of at most one value.
pub proof fn active_admission_form_is_exact(
    message: wire::ActiveAdmissionV1,
    a: ActiveAdmission,
    b: ActiveAdmission,
)
    requires
        active_admission_carries(message, a),
        active_admission_carries(message, b),
    ensures
        a == b,
{
    assert(a.database_id.bytes =~= b.database_id.bytes);
}

/// The message form of an active primary's lineage.
pub fn active_admission_to_proto(value: ActiveAdmission) -> (result: wire::ActiveAdmissionV1)
    ensures
        active_admission_carries(result, value),
{
    wire::ActiveAdmissionV1 {
        database_id: identifier_to_wire(value.database_id),
        history_incarnation: value.history_incarnation,
        leadership_epoch: value.leadership_epoch.get(),
        admitted: true,
    }
}

/// Reads an active primary's lineage.
pub fn active_admission_from_proto(value: &wire::ActiveAdmissionV1) -> (result: Result<
    ActiveAdmission,
    DurableCodecError,
>)
    ensures
        match result {
            Ok(held) => active_admission_carries(*value, held) && active_admission_valid(held),
            Err(error) => is_corrupt(error) && forall|other: ActiveAdmission| #[trigger]
                active_admission_carries(*value, other) ==> !active_admission_valid(other),
        },
{
    let database_id = identifier_from_wire(&value.database_id)?;
    let history_incarnation = value.history_incarnation;
    let leadership_epoch = require(Id64::new(value.leadership_epoch))?;
    if !value.admitted {
        return Err(DurableCodecError::corrupt());
    }
    Ok(ActiveAdmission { database_id, history_incarnation, leadership_epoch })
}

/// Whether a message is the form of a primary's admission state.
pub open spec fn primary_admission_carries(
    message: wire::ReplicationPrimaryAdmissionV1,
    value: PrimaryAdmissionView,
) -> bool {
    match value {
        PrimaryAdmissionView::Active(part) => message.state matches Some(
            wire::ReplicationPrimaryAdmissionV1State::Active(form),
        ) && active_admission_carries(form, part),
        PrimaryAdmissionView::Fenced(part) => message.state matches Some(
            wire::ReplicationPrimaryAdmissionV1State::Fenced(form),
        ) && primary_fence_carries(form, part),
    }
}

/// The parts of a primary's admission state are valid.
pub open spec fn primary_admission_valid(value: PrimaryAdmissionView) -> bool {
    match value {
        PrimaryAdmissionView::Active(part) => active_admission_valid(part),
        PrimaryAdmissionView::Fenced(part) => primary_fence_valid(part),
    }
}

/// A message is the form of at most one value.
pub proof fn primary_admission_form_is_exact(
    message: wire::ReplicationPrimaryAdmissionV1,
    a: PrimaryAdmissionView,
    b: PrimaryAdmissionView,
)
    requires
        primary_admission_carries(message, a),
        primary_admission_carries(message, b),
        primary_admission_valid(a),
        primary_admission_valid(b),
    ensures
        a == b,
{
    match (a, b) {
        (PrimaryAdmissionView::Active(part), PrimaryAdmissionView::Active(other)) => {
            if let Some(wire::ReplicationPrimaryAdmissionV1State::Active(form)) = message.state {
                active_admission_form_is_exact(form, part, other);
            }
        },
        (PrimaryAdmissionView::Fenced(part), PrimaryAdmissionView::Fenced(other)) => {
            if let Some(wire::ReplicationPrimaryAdmissionV1State::Fenced(form)) = message.state {
                primary_fence_form_is_exact(form, part, other);
            }
        },
        _ => {},
    }
}

/// The message form of a primary's admission state.
pub fn primary_admission_to_proto(
    value: &ReplicationPrimaryAdmissionV1,
) -> (result: wire::ReplicationPrimaryAdmissionV1)
    ensures
        primary_admission_carries(result, value@),
{
    let form = match value {
        ReplicationPrimaryAdmissionV1::Active(part) =>
            wire::ReplicationPrimaryAdmissionV1State::Active(
            active_admission_to_proto(*part),
        ),
        ReplicationPrimaryAdmissionV1::Fenced(part) =>
            wire::ReplicationPrimaryAdmissionV1State::Fenced(
            primary_fence_to_proto(part),
        ),
    };
    wire::ReplicationPrimaryAdmissionV1 { state: Some(form) }
}

/// What reading a message gives: the value that it is the form of, or a
/// corruption where it is the form of no valid one.
pub open spec fn primary_admission_read(
    message: wire::ReplicationPrimaryAdmissionV1,
    result: Result<ReplicationPrimaryAdmissionV1, DurableCodecError>,
) -> bool {
    match result {
        Ok(held) => primary_admission_carries(message, held@) && primary_admission_valid(held@),
        Err(error) => is_corrupt(error) && forall|other: PrimaryAdmissionView| #[trigger]
            primary_admission_carries(message, other) ==> !primary_admission_valid(other),
    }
}

/// Reads a primary's admission state.
pub fn primary_admission_from_proto(value: &wire::ReplicationPrimaryAdmissionV1) -> (result: Result<
    ReplicationPrimaryAdmissionV1,
    DurableCodecError,
>)
    ensures
        primary_admission_read(*value, result),
{
    match require_ref(&value.state)? {
        wire::ReplicationPrimaryAdmissionV1State::Active(form) => {
            let part = active_admission_from_proto(form)?;
            Ok(ReplicationPrimaryAdmissionV1::Active(part))
        },
        wire::ReplicationPrimaryAdmissionV1State::Fenced(form) => {
            let part = primary_fence_from_proto(form)?;
            Ok(ReplicationPrimaryAdmissionV1::Fenced(part))
        },
    }
}

/// Reading the message form of a primary's admission state gives back what was written.
pub proof fn primary_admission_round_trip(
    value: PrimaryAdmissionView,
    message: wire::ReplicationPrimaryAdmissionV1,
    read: Result<ReplicationPrimaryAdmissionV1, DurableCodecError>,
)
    requires
        primary_admission_valid(value),
        primary_admission_carries(message, value),
        primary_admission_read(message, read),
    ensures
        read is Ok,
        read->Ok_0@ == value,
{
    if let Ok(held) = read {
        primary_admission_form_is_exact(message, held@, value);
    }
}

/// The stable code of a step of a promotion attempt.
pub open spec fn promotion_step_code(value: ReplicationPromotionStepV1) -> i32 {
    match value {
        ReplicationPromotionStepV1::Attempted => 1,
        ReplicationPromotionStepV1::Draining => 2,
        ReplicationPromotionStepV1::Offline => 3,
        ReplicationPromotionStepV1::Selected => 4,
        ReplicationPromotionStepV1::CutoverPending => 5,
        ReplicationPromotionStepV1::StorageUnavailable => 129,
        ReplicationPromotionStepV1::ValidationFailed => 130,
    }
}

/// Returns the stable code of a step of a promotion attempt.
pub fn promotion_step_to_code(value: ReplicationPromotionStepV1) -> (result: i32)
    ensures
        result == promotion_step_code(value),
{
    match value {
        ReplicationPromotionStepV1::Attempted => 1,
        ReplicationPromotionStepV1::Draining => 2,
        ReplicationPromotionStepV1::Offline => 3,
        ReplicationPromotionStepV1::Selected => 4,
        ReplicationPromotionStepV1::CutoverPending => 5,
        ReplicationPromotionStepV1::StorageUnavailable => 129,
        ReplicationPromotionStepV1::ValidationFailed => 130,
    }
}

/// Reads a step of a promotion attempt from its stable code.
pub fn promotion_step_from_code(
    value: i32,
) -> (result: Result<ReplicationPromotionStepV1, DurableCodecError>)
    ensures
        match result {
            Ok(held) => value == promotion_step_code(held),
            Err(error) => is_corrupt(error) && forall|other: ReplicationPromotionStepV1|
                value != #[trigger] promotion_step_code(other),
        },
{
    match value {
        1 => Ok(ReplicationPromotionStepV1::Attempted),
        2 => Ok(ReplicationPromotionStepV1::Draining),
        3 => Ok(ReplicationPromotionStepV1::Offline),
        4 => Ok(ReplicationPromotionStepV1::Selected),
        5 => Ok(ReplicationPromotionStepV1::CutoverPending),
        129 => Ok(ReplicationPromotionStepV1::StorageUnavailable),
        130 => Ok(ReplicationPromotionStepV1::ValidationFailed),
        _ => Err(DurableCodecError::corrupt()),
    }
}

/// Whether message codes are the codes of values, one by one.
pub open spec fn promotion_step_codes_carry(
    messages: Seq<i32>,
    values: Seq<ReplicationPromotionStepV1>,
) -> bool {
    &&& messages.len() == values.len()
    &&& forall|i: int| 0 <= i < messages.len()
        ==> (#[trigger] messages[i]) == promotion_step_code(values[i])
}

/// Message codes are the codes of at most one list of values.
pub proof fn promotion_step_codes_form_is_exact(
    messages: Seq<i32>,
    a: Seq<ReplicationPromotionStepV1>,
    b: Seq<ReplicationPromotionStepV1>,
)
    requires
        promotion_step_codes_carry(messages, a),
        promotion_step_codes_carry(messages, b),
    ensures
        a == b,
{
    assert forall|i: int| 0 <= i < a.len() implies a[i] == b[i] by {
        assert(messages[i] == promotion_step_code(a[i])
            && messages[i] == promotion_step_code(b[i]));
    }
    assert(a =~= b);
}

/// The codes of values.
pub fn promotion_step_codes_to_wire(values: &[ReplicationPromotionStepV1]) -> (result: Vec<i32>)
    ensures
        promotion_step_codes_carry(result@, values@),
{
    let mut result: Vec<i32> = Vec::new();
    let mut i: usize = 0;
    while i < values.len()
        invariant
            i <= values@.len(),
            result@.len() == i,
            forall|k: int| 0 <= k < i
                ==> (#[trigger] result@[k]) == promotion_step_code(values@[k]),
        decreases values@.len() - i,
    {
        result.push(promotion_step_to_code(values[i]));
        i += 1;
    }
    result
}

/// Reads values from their codes.
pub fn promotion_step_codes_from_wire(values: &[i32]) -> (result: Result<
    Vec<ReplicationPromotionStepV1>,
    DurableCodecError,
>)
    ensures
        match result {
            Ok(held) => promotion_step_codes_carry(values@, held@),
            Err(error) => is_corrupt(error) && forall|other: Seq<ReplicationPromotionStepV1>|
                !#[trigger] promotion_step_codes_carry(values@, other),
        },
{
    let mut result: Vec<ReplicationPromotionStepV1> = Vec::new();
    let mut i: usize = 0;
    while i < values.len()
        invariant
            i <= values@.len(),
            result@.len() == i,
            forall|k: int| 0 <= k < i
                ==> (#[trigger] values@[k]) == promotion_step_code(result@[k]),
        decreases values@.len() - i,
    {
        match promotion_step_from_code(values[i]) {
            Ok(held) => {
                result.push(held);
            },
            Err(error) => {
                assert forall|other: Seq<ReplicationPromotionStepV1>|
                    !#[trigger] promotion_step_codes_carry(values@, other) by {
                    assert(values@[i as int] != promotion_step_code(other[i as int]));
                }
                return Err(error);
            },
        }
        i += 1;
    }
    Ok(result)
}

/// Whether a message is the form of a promotion administration record.
pub open spec fn promotion_carries(
    message: wire::StoredPromotionAdministrationV1,
    value: PromotionAdministrationView,
) -> bool {
    &&& message.administration_sequence == value.administration_sequence.value
    &&& (message.timestamp matches Some(part) && timestamp_carries(part, value.timestamp))
    &&& identifier_carries(message.promotion_operation_id, value.promotion_operation_id)
    &&& identifier_carries(message.request_id, value.request_id)
    &&& (message.principal matches Some(part) && audit_principal_carries(part, value.principal))
    &&& optional_text_carries(message.approval_id, value.approval_id)
    &&& (message.attempted_at matches Some(part) && timestamp_carries(part, value.attempted_at))
    &&& (message.fence matches Some(part) && primary_fence_carries(part, value.fence))
    &&& (message.applied matches Some(part) && position_carries(part, value.applied))
    &&& (message.source_history matches Some(part) && history_carries(part, value.source_history))
    &&& message.published_incarnation == value.published_incarnation
    &&& message.published_epoch == value.published_epoch.value
    &&& message.application_rpo == value.application_rpo
    &&& promotion_step_codes_carry(message.attempt_steps@, value.steps)
    &&& tag_carries(message.ingress, value.ingress)
    &&& message.admitted
}

/// The parts of a promotion administration record are valid.
pub open spec fn promotion_valid(value: PromotionAdministrationView) -> bool {
    &&& value.administration_sequence.valid()
    &&& timestamp_valid(value.timestamp)
    &&& audit_principal_valid(value.principal)
    &&& timestamp_valid(value.attempted_at)
    &&& primary_fence_valid(value.fence)
    &&& position_valid(value.applied)
    &&& history_valid(value.source_history)
    &&& value.published_epoch.valid()
    &&& value.steps.len() <= MAX_REPLICATION_PROMOTION_STEPS_V1
}

/// A message is the form of at most one value.
pub proof fn promotion_form_is_exact(
    message: wire::StoredPromotionAdministrationV1,
    a: PromotionAdministrationView,
    b: PromotionAdministrationView,
)
    requires
        promotion_carries(message, a),
        promotion_carries(message, b),
        promotion_valid(a),
        promotion_valid(b),
    ensures
        a == b,
{
    timestamp_form_is_exact(message.timestamp->Some_0, a.timestamp, b.timestamp);
    assert(a.promotion_operation_id.bytes =~= b.promotion_operation_id.bytes);
    assert(a.request_id.bytes =~= b.request_id.bytes);
    audit_principal_form_is_exact(message.principal->Some_0, a.principal, b.principal);
    timestamp_form_is_exact(message.attempted_at->Some_0, a.attempted_at, b.attempted_at);
    primary_fence_form_is_exact(message.fence->Some_0, a.fence, b.fence);
    position_form_is_exact(message.applied->Some_0, a.applied, b.applied);
    history_form_is_exact(message.source_history->Some_0, a.source_history, b.source_history);
    promotion_step_codes_form_is_exact(message.attempt_steps@, a.steps, b.steps);
}

/// The message form of a promotion administration record.
pub fn promotion_to_proto(
    value: &StoredPromotionAdministrationV1,
) -> (result: wire::StoredPromotionAdministrationV1)
    ensures
        promotion_carries(result, value@),
{
    wire::StoredPromotionAdministrationV1 {
        administration_sequence: value.administration_sequence.get(),
        timestamp: Some(timestamp_to_proto(value.timestamp)),
        promotion_operation_id: identifier_to_wire(value.promotion_operation_id),
        request_id: identifier_to_wire(value.request_id),
        principal: Some(audit_principal_to_proto(&value.principal)),
        approval_id: optional_text_to_wire(&value.approval_id),
        attempted_at: Some(timestamp_to_proto(value.attempted_at)),
        fence: Some(primary_fence_to_proto(&value.fence)),
        applied: Some(position_to_proto(value.applied)),
        source_history: Some(history_to_proto(value.source_history)),
        published_incarnation: value.published_incarnation,
        published_epoch: value.published_epoch.get(),
        application_rpo: value.application_rpo,
        attempt_steps: promotion_step_codes_to_wire(&value.steps),
        ingress: tag_to_wire(value.ingress),
        admitted: true,
    }
}

/// What reading a message gives: the value that it is the form of, or a
/// corruption where it is the form of no valid one.
pub open spec fn promotion_read(
    message: wire::StoredPromotionAdministrationV1,
    result: Result<StoredPromotionAdministrationV1, DurableCodecError>,
) -> bool {
    match result {
        Ok(held) => promotion_carries(message, held@) && promotion_valid(held@),
        Err(error) => is_corrupt(error) && forall|other: PromotionAdministrationView| #[trigger]
            promotion_carries(message, other) ==> !promotion_valid(other),
    }
}

/// Reads a promotion administration record.
pub fn promotion_from_proto(value: &wire::StoredPromotionAdministrationV1) -> (result: Result<
    StoredPromotionAdministrationV1,
    DurableCodecError,
>)
    ensures
        promotion_read(*value, result),
{
    let administration_sequence = require(Id64::new(value.administration_sequence))?;
    let timestamp = timestamp_from_proto(require_ref(&value.timestamp)?)?;
    let promotion_operation_id = identifier_from_wire(&value.promotion_operation_id)?;
    let request_id = identifier_from_wire(&value.request_id)?;
    let principal = audit_principal_from_proto(require_ref(&value.principal)?)?;
    let approval_id = optional_text_from_wire(&value.approval_id)?;
    let attempted_at = timestamp_from_proto(require_ref(&value.attempted_at)?)?;
    let fence = primary_fence_from_proto(require_ref(&value.fence)?)?;
    let applied = position_from_proto(require_ref(&value.applied)?)?;
    let source_history = history_from_proto(require_ref(&value.source_history)?)?;
    let published_incarnation = value.published_incarnation;
    let published_epoch = require(Id64::new(value.published_epoch))?;
    let application_rpo = value.application_rpo;
    let steps = promotion_step_codes_from_wire(&value.attempt_steps)?;
    let ingress = tag_from_wire(&value.ingress)?;
    if !value.admitted {
        return Err(DurableCodecError::corrupt());
    }
    if !(steps.len() <= MAX_REPLICATION_PROMOTION_STEPS_V1) {
        assert forall|other: PromotionAdministrationView| #[trigger]
            promotion_carries(*value, other) implies !promotion_valid(other) by {
            promotion_step_codes_form_is_exact(value.attempt_steps@, other.steps, steps@);
        }
        return Err(DurableCodecError::corrupt());
    }
    Ok(
        StoredPromotionAdministrationV1 {
            administration_sequence,
            timestamp,
            promotion_operation_id,
            request_id,
            principal,
            approval_id,
            attempted_at,
            fence,
            applied,
            source_history,
            published_incarnation,
            published_epoch,
            application_rpo,
            steps,
            ingress,
        },
    )
}

/// Reading the message form of a promotion administration record gives back what was written.
pub proof fn promotion_round_trip(
    value: PromotionAdministrationView,
    message: wire::StoredPromotionAdministrationV1,
    read: Result<StoredPromotionAdministrationV1, DurableCodecError>,
)
    requires
        promotion_valid(value),
        promotion_carries(message, value),
        promotion_read(message, read),
    ensures
        read is Ok,
        read->Ok_0@ == value,
{
    if let Ok(held) = read {
        promotion_form_is_exact(message, held@, value);
    }
}

/// Encodes one source-only fence, not a reclamation or acknowledgement permit.
pub fn encode_replication_source_hold_v1(value: ReplicationSourceHoldV1) -> (result: OutgoingRecord<
    wire::StoredReplicationSourceHoldV1,
>)
    ensures
        result.record_type == RecordType::StoredReplicationSourceHoldV1,
        source_hold_carries(result.message, value),
{
    OutgoingRecord {
        record_type: RecordType::StoredReplicationSourceHoldV1,
        message: source_hold_to_proto(value),
    }
}

/// Encodes a checked registration policy without altering a plain hold.
pub fn encode_replication_source_hold_v2(value: ReplicationSourceHoldV2) -> (result: OutgoingRecord<
    wire::StoredReplicationSourceHoldV2,
>)
    ensures
        result.record_type == RecordType::StoredReplicationSourceHoldV2,
        source_hold_v2_carries(result.message, value),
{
    OutgoingRecord {
        record_type: RecordType::StoredReplicationSourceHoldV2,
        message: source_hold_v2_to_proto(value),
    }
}

/// Encodes the storage owner's closed catalog by its digest.
pub fn encode_authoritative_state_catalog_v1(
    value: AuthoritativeStateCatalog,
) -> (result: OutgoingRecord<
    wire::StoredAuthoritativeStateCatalogV1,
>)
    ensures
        result.record_type == RecordType::StoredAuthoritativeStateCatalogV1,
        state_catalog_carries(result.message, value),
{
    OutgoingRecord {
        record_type: RecordType::StoredAuthoritativeStateCatalogV1,
        message: state_catalog_to_proto(value),
    }
}

/// Encodes a nonzero leadership fence.
pub fn encode_leadership_epoch_v1(value: LeadershipEpochV1) -> (result: OutgoingRecord<
    wire::StoredLeadershipEpochV1,
>)
    ensures
        result.record_type == RecordType::StoredLeadershipEpochV1,
        leadership_carries(result.message, value),
{
    OutgoingRecord {
        record_type: RecordType::StoredLeadershipEpochV1,
        message: leadership_to_proto(value),
    }
}

/// Whether a message is the form of some valid value.
pub open spec fn leadership_readable(message: wire::StoredLeadershipEpochV1) -> bool {
    exists|value: LeadershipEpochV1| #[trigger] leadership_carries(message, value)
        && leadership_valid(value)
}

/// Decodes the exact leadership role, never a transaction or history-incarnation counter.
pub fn decode_leadership_epoch_v1(
    attempt: ReadAttempt<wire::StoredLeadershipEpochV1>,
) -> (result: Result<EncodedPageItem<LeadershipEpochV1>, DurableCodecError>)
    ensures
        match read_outcome(RecordType::StoredLeadershipEpochV1, attempt) {
            Err(kind) => result == Err::<EncodedPageItem<LeadershipEpochV1>, _>(
                DurableCodecError { kind },
            ),
            Ok(message) => match refusal_of(
                leadership_readable(message),
                None,
                attempt.encoded_len,
            ) {
                Some(kind) => result == Err::<EncodedPageItem<LeadershipEpochV1>, _>(
                    DurableCodecError { kind },
                ),
                None => result is Ok && leadership_carries(message, result->Ok_0.value)
                    && leadership_valid(result->Ok_0.value)
                    && result->Ok_0.charge.bytes == attempt.encoded_len,
            },
        },
{
    let encoded_len = attempt.encoded_len;
    let message = read_message(RecordType::StoredLeadershipEpochV1, attempt)?;
    let value = leadership_from_proto(&message)?;
    admitted_item(value, None, encoded_len)
}

/// Encodes bounded lineage-shared roots with their distinct current durable role.
pub fn encode_changelog_history_state_v3(value: ChangelogHistoryStateV3) -> (result: OutgoingRecord<
    wire::StoredChangelogHistoryStateV3,
>)
    ensures
        result.record_type == RecordType::StoredChangelogHistoryStateV3,
        history_carries(result.message, value),
{
    OutgoingRecord {
        record_type: RecordType::StoredChangelogHistoryStateV3,
        message: history_to_proto(value),
    }
}

/// Encodes explicit detached state or exact locally durable follower progress.
pub fn encode_replication_follower_state_v3(
    value: ReplicationFollowerStateV3,
) -> (result: OutgoingRecord<
    wire::StoredReplicationFollowerStateV3,
>)
    ensures
        result.record_type == RecordType::StoredReplicationFollowerStateV3,
        follower_carries(result.message, value),
{
    OutgoingRecord {
        record_type: RecordType::StoredReplicationFollowerStateV3,
        message: follower_to_proto(value),
    }
}

/// Encodes checked lifecycle evidence; this does not authorize a transition.
pub fn encode_replication_administration_v1(
    value: &StoredReplicationAdministrationV1,
) -> (result: OutgoingRecord<
    wire::StoredReplicationAdministrationV1,
>)
    ensures
        result.record_type == RecordType::StoredReplicationAdministrationV1,
        replication_administration_carries(result.message, value@),
{
    OutgoingRecord {
        record_type: RecordType::StoredReplicationAdministrationV1,
        message: replication_administration_to_proto(value),
    }
}

/// Encodes complete immutable evidence under its distinct administration role.
pub fn encode_primary_fence_administration_v1(
    value: &StoredPrimaryFenceAdministrationV1,
) -> (result: OutgoingRecord<
    wire::StoredPrimaryFenceAdministrationV1,
>)
    ensures
        result.record_type == RecordType::StoredPrimaryFenceAdministrationV1,
        primary_fence_carries(result.message, value@),
{
    OutgoingRecord {
        record_type: RecordType::StoredPrimaryFenceAdministrationV1,
        message: primary_fence_to_proto(value),
    }
}

/// Whether a message is the form of some valid value.
pub open spec fn primary_fence_readable(message: wire::StoredPrimaryFenceAdministrationV1) -> bool {
    exists|value: PrimaryFenceView| #[trigger] primary_fence_carries(message, value)
        && primary_fence_valid(value)
}

/// Refuses absent identities, unknown shapes and contradictory sequence facts.
pub fn decode_primary_fence_administration_v1(
    attempt: ReadAttempt<wire::StoredPrimaryFenceAdministrationV1>,
) -> (result: Result<EncodedPageItem<StoredPrimaryFenceAdministrationV1>, DurableCodecError>)
    ensures
        match read_outcome(RecordType::StoredPrimaryFenceAdministrationV1, attempt) {
            Err(kind) => result == Err::<EncodedPageItem<StoredPrimaryFenceAdministrationV1>, _>(
                DurableCodecError { kind },
            ),
            Ok(message) => match refusal_of(
                primary_fence_readable(message),
                None,
                attempt.encoded_len,
            ) {
                Some(kind) =>
                    result == Err::<EncodedPageItem<StoredPrimaryFenceAdministrationV1>, _>(
                    DurableCodecError { kind },
                ),
                None => result is Ok && primary_fence_carries(message, result->Ok_0.value@)
                    && primary_fence_valid(result->Ok_0.value@)
                    && result->Ok_0.charge.bytes == attempt.encoded_len,
            },
        },
{
    let encoded_len = attempt.encoded_len;
    let message = read_message(RecordType::StoredPrimaryFenceAdministrationV1, attempt)?;
    let value = primary_fence_from_proto(&message)?;
    admitted_item(value, None, encoded_len)
}

/// Encodes exactly one explicit state; there is no conversion of a missing one.
pub fn encode_replication_primary_admission_v1(
    value: &ReplicationPrimaryAdmissionV1,
) -> (result: OutgoingRecord<
    wire::ReplicationPrimaryAdmissionV1,
>)
    ensures
        result.record_type == RecordType::ReplicationPrimaryAdmissionV1,
        primary_admission_carries(result.message, value@),
{
    OutgoingRecord {
        record_type: RecordType::ReplicationPrimaryAdmissionV1,
        message: primary_admission_to_proto(value),
    }
}

/// Whether a message is the form of some valid value.
pub open spec fn primary_admission_readable(message: wire::ReplicationPrimaryAdmissionV1) -> bool {
    exists|value: PrimaryAdmissionView| #[trigger] primary_admission_carries(message, value)
        && primary_admission_valid(value)
}

/// Reconstructs evidence only; source startup validates lineage and head.
pub fn decode_replication_primary_admission_v1(
    attempt: ReadAttempt<wire::ReplicationPrimaryAdmissionV1>,
) -> (result: Result<EncodedPageItem<ReplicationPrimaryAdmissionV1>, DurableCodecError>)
    ensures
        match read_outcome(RecordType::ReplicationPrimaryAdmissionV1, attempt) {
            Err(kind) => result == Err::<EncodedPageItem<ReplicationPrimaryAdmissionV1>, _>(
                DurableCodecError { kind },
            ),
            Ok(message) => match refusal_of(
                primary_admission_readable(message),
                None,
                attempt.encoded_len,
            ) {
                Some(kind) => result == Err::<EncodedPageItem<ReplicationPrimaryAdmissionV1>, _>(
                    DurableCodecError { kind },
                ),
                None => result is Ok && primary_admission_carries(message, result->Ok_0.value@)
                    && primary_admission_valid(result->Ok_0.value@)
                    && result->Ok_0.charge.bytes == attempt.encoded_len,
            },
        },
{
    let encoded_len = attempt.encoded_len;
    let message = read_message(RecordType::ReplicationPrimaryAdmissionV1, attempt)?;
    let value = primary_admission_from_proto(&message)?;
    admitted_item(value, None, encoded_len)
}

/// Encodes the complete pending attempt and exact cutover result allocation. An attempt
/// that selected nothing, or that holds a step without a code, is refused as corrupt.
pub fn encode_promotion_administration_v1(value: &PromotionAttempt) -> (result: Result<
    OutgoingRecord<wire::StoredPromotionAdministrationV1>,
    DurableCodecError,
>)
    ensures
        match value@.record() {
            Some(held) => result is Ok && result->Ok_0.record_type
                == RecordType::StoredPromotionAdministrationV1 && promotion_carries(
                result->Ok_0.message,
                held,
            ),
            None => result is Err && is_corrupt(result->Err_0),
        },
{
    match value.record() {
        Some(record) => Ok(
            OutgoingRecord {
                record_type: RecordType::StoredPromotionAdministrationV1,
                message: promotion_to_proto(&record),
            },
        ),
        None => Err(DurableCodecError::corrupt()),
    }
}

} // verus!
