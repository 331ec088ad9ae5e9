//! Replication records that belong to one authoritative state catalog.
//!
//! A record of another catalog is incompatible rather than corrupt, once what is
//! read before its catalog is sound.

use vstd::prelude::*;

use crate::bytes::same_bytes;
use crate::codec::audit::{
    follower_target_carries, follower_target_from_proto, follower_target_valid,
};
use crate::codec::changelog::{
    follower_carries, follower_from_proto, follower_valid, history_carries, history_from_proto,
    history_valid, hold_kind_code, hold_kind_from_code, hold_phase_code, hold_phase_from_code,
    origin_carries, origin_from_proto, origin_valid, position_carries, position_from_proto,
    position_valid, primary_fence_carries, primary_fence_from_proto, primary_fence_valid,
    promotion_carries, promotion_from_proto, promotion_step_codes_carry,
    promotion_step_codes_from_wire, promotion_valid, replication_administration_carries,
    replication_administration_from_proto, replication_administration_valid, source_hold_carries,
    source_hold_from_proto, source_hold_v2_carries, source_hold_v2_from_proto, source_hold_v2_valid,
    source_hold_valid, state_catalog_carries, state_catalog_from_proto,
};
use crate::codec::envelope::{
    charged, decode_record_variant, read_message, read_outcome, variant_outcome, ReadAttempt,
};
use crate::codec::error::{is_corrupt, DurableCodecError, DurableCodecErrorKind, EnvelopeError};
use crate::codec::parts::{
    identifier_carries, identifier_from_wire, optional_sequence_from_wire, Identifier,
};
use crate::codec::record_type::RecordType;
use crate::ids::Digest;
use crate::limits::MAX_REPLICATION_PROMOTION_STEPS_V1;
use crate::page::EncodedPageItem;
use crate::stored::audit::ReplicationFollowerAuditTargetV1;
use crate::stored::changelog::{
    AuthoritativeStateCatalog, ChangelogHistoryPointV3, ChangelogHistoryStateV3,
    FollowerRegistrationPhaseV1, PrimaryFenceView, PromotionAdministrationView,
    ReplicationAdministrationView, ReplicationFollowerStateV3, ReplicationOriginView,
    ReplicationPromotionStepV1, ReplicationSourceHoldKindV1, ReplicationSourceHoldV1,
    ReplicationSourceHoldV2, StoredPromotionAdministrationV1, StoredReplicationAdministrationV1,
};
use crate::wire;

verus! {

/// Whether a digest field names a catalog, and another than this one.
pub open spec fn foreign_catalog(message: Seq<u8>, catalog: Digest) -> bool {
    message.len() == 32 && message != catalog.bytes@
}

fn is_foreign_catalog(message: &Vec<u8>, catalog: Digest) -> (result: bool)
    ensures
        result == foreign_catalog(message@, catalog),
{
    message.len() == 32 && !same_bytes(message, catalog.bytes.as_slice())
}

fn foreign() -> (result: DurableCodecError)
    ensures
        result.kind == DurableCodecErrorKind::IncompatibleFormat,
{
    DurableCodecError::new(DurableCodecErrorKind::IncompatibleFormat)
}

/// Whether message bytes are some identifier.
pub open spec fn identifier_readable(message: crate::codec::parts::Vetted<Vec<u8>>) -> bool {
    exists|value: Identifier| #[trigger] identifier_carries(message, value)
}

/// Whether a message is the form of some valid value.
pub open spec fn source_hold_readable(message: wire::StoredReplicationSourceHoldV1) -> bool {
    exists|value: ReplicationSourceHoldV1| #[trigger] source_hold_carries(message, value)
        && source_hold_valid(value)
}

/// Why a source hold is refused, if it is: an unknown owner or identity, then a
/// foreign catalog, then any other unsound part.
pub open spec fn source_hold_failure(
    message: wire::StoredReplicationSourceHoldV1,
    catalog: Digest,
) -> Option<DurableCodecErrorKind> {
    if (forall|kind: ReplicationSourceHoldKindV1| message.kind != #[trigger] hold_kind_code(kind))
        || !identifier_readable(message.hold_id) {
        Some(DurableCodecErrorKind::CorruptData)
    } else if foreign_catalog(message.lineage.catalog_digest@, catalog) {
        Some(DurableCodecErrorKind::IncompatibleFormat)
    } else if !source_hold_readable(message) {
        Some(DurableCodecErrorKind::CorruptData)
    } else {
        None
    }
}

fn source_hold_of_catalog(
    message: &wire::StoredReplicationSourceHoldV1,
    catalog: Digest,
) -> (result: Result<
    ReplicationSourceHoldV1,
    DurableCodecError,
>)
    ensures
        match source_hold_failure(*message, catalog) {
            Some(kind) => result == Err::<ReplicationSourceHoldV1, _>(DurableCodecError { kind }),
            None => result matches Ok(held) && source_hold_carries(*message, held)
                && source_hold_valid(held),
        },
{
    let kind = hold_kind_from_code(message.kind)?;
    let hold_id = identifier_from_wire(&message.hold_id)?;
    assert(message.kind == hold_kind_code(kind));
    assert(identifier_carries(message.hold_id, hold_id));
    if is_foreign_catalog(&message.lineage.catalog_digest, catalog) {
        return Err(foreign());
    }
    source_hold_from_proto(message)
}

/// Refuses unknown owners, unsound identities, malformed positions and foreign
/// catalogs. The storage owner additionally validates the key and the exact
/// retained fence.
pub fn decode_replication_source_hold_v1(
    attempt: ReadAttempt<wire::StoredReplicationSourceHoldV1>,
    catalog: Digest,
) -> (result: Result<EncodedPageItem<ReplicationSourceHoldV1>, DurableCodecError>)
    ensures
        match read_outcome(RecordType::StoredReplicationSourceHoldV1, attempt) {
            Err(kind) => result == Err::<EncodedPageItem<ReplicationSourceHoldV1>, _>(
                DurableCodecError { kind },
            ),
            Ok(message) => match source_hold_failure(message, catalog) {
                Some(kind) => result == Err::<EncodedPageItem<ReplicationSourceHoldV1>, _>(
                    DurableCodecError { kind },
                ),
                None => if attempt.encoded_len == 0 {
                    result is Err && is_corrupt(result->Err_0)
                } else {
                    result is Ok && source_hold_carries(message, result->Ok_0.value)
                        && source_hold_valid(result->Ok_0.value)
                        && result->Ok_0.charge.bytes == attempt.encoded_len
                },
            },
        },
{
    let encoded_len = attempt.encoded_len;
    let message = read_message(RecordType::StoredReplicationSourceHoldV1, attempt)?;
    let value = source_hold_of_catalog(&message, catalog)?;
    charged(value, encoded_len)
}

/// Whether a message is the form of some valid value.
pub open spec fn source_hold_v2_readable(message: wire::StoredReplicationSourceHoldV2) -> bool {
    exists|value: ReplicationSourceHoldV2| #[trigger] source_hold_v2_carries(message, value)
        && source_hold_v2_valid(value)
}

/// Why a registered source hold is refused, if it is: an unknown phase or a zero
/// expiry, then an unsound or foreign hold, then any other unsound part.
pub open spec fn source_hold_v2_failure(
    message: wire::StoredReplicationSourceHoldV2,
    catalog: Digest,
) -> Option<DurableCodecErrorKind> {
    if (forall|phase: FollowerRegistrationPhaseV1|
        message.phase != #[trigger] hold_phase_code(phase))
        || message.expires_at_application_sequence == Some(0u64) {
        Some(DurableCodecErrorKind::CorruptData)
    } else {
        match message.hold {
            None => Some(DurableCodecErrorKind::CorruptData),
            Some(hold) => match source_hold_failure(hold, catalog) {
                Some(kind) => Some(kind),
                None => if !source_hold_v2_readable(message) {
                    Some(DurableCodecErrorKind::CorruptData)
                } else {
                    None
                },
            },
        }
    }
}

fn source_hold_v2_of_catalog(
    message: &wire::StoredReplicationSourceHoldV2,
    catalog: Digest,
) -> (result: Result<
    ReplicationSourceHoldV2,
    DurableCodecError,
>)
    ensures
        match source_hold_v2_failure(*message, catalog) {
            Some(kind) => result == Err::<ReplicationSourceHoldV2, _>(DurableCodecError { kind }),
            None => result matches Ok(held) && source_hold_v2_carries(*message, held)
                && source_hold_v2_valid(held),
        },
{
    let phase = hold_phase_from_code(message.phase)?;
    assert(message.phase == hold_phase_code(phase));
    let expiry = optional_sequence_from_wire(message.expires_at_application_sequence)?;
    let hold = match &message.hold {
        Some(hold) => source_hold_of_catalog(hold, catalog)?,
        None => return Err(DurableCodecError::corrupt()),
    };
    source_hold_v2_from_proto(message)
}

/// Checks role, phase, budget, expiry and degradation of a registered hold. The
/// storage owner additionally binds the key, the retained ancestry and the audited
/// writer.
pub fn decode_replication_source_hold_v2(
    attempt: ReadAttempt<wire::StoredReplicationSourceHoldV2>,
    catalog: Digest,
) -> (result: Result<EncodedPageItem<ReplicationSourceHoldV2>, DurableCodecError>)
    ensures
        match read_outcome(RecordType::StoredReplicationSourceHoldV2, attempt) {
            Err(kind) => result == Err::<EncodedPageItem<ReplicationSourceHoldV2>, _>(
                DurableCodecError { kind },
            ),
            Ok(message) => match source_hold_v2_failure(message, catalog) {
                Some(kind) => result == Err::<EncodedPageItem<ReplicationSourceHoldV2>, _>(
                    DurableCodecError { kind },
                ),
                None => if attempt.encoded_len == 0 {
                    result is Err && is_corrupt(result->Err_0)
                } else {
                    result is Ok && source_hold_v2_carries(message, result->Ok_0.value)
                        && source_hold_v2_valid(result->Ok_0.value)
                        && result->Ok_0.charge.bytes == attempt.encoded_len
                },
            },
        },
{
    let encoded_len = attempt.encoded_len;
    let message = read_message(RecordType::StoredReplicationSourceHoldV2, attempt)?;
    let value = source_hold_v2_of_catalog(&message, catalog)?;
    charged(value, encoded_len)
}

/// Why a catalog record is refused, if it is.
pub open spec fn state_catalog_failure(
    message: wire::StoredAuthoritativeStateCatalogV1,
    catalog: Digest,
) -> Option<DurableCodecErrorKind> {
    if message.catalog_digest@.len() != 32 {
        Some(DurableCodecErrorKind::CorruptData)
    } else if foreign_catalog(message.catalog_digest@, catalog) {
        Some(DurableCodecErrorKind::IncompatibleFormat)
    } else {
        None
    }
}

fn state_catalog_of_catalog(
    message: &wire::StoredAuthoritativeStateCatalogV1,
    catalog: Digest,
) -> (result: Result<
    AuthoritativeStateCatalog,
    DurableCodecError,
>)
    ensures
        match state_catalog_failure(*message, catalog) {
            Some(kind) => result == Err::<AuthoritativeStateCatalog, _>(DurableCodecError { kind }),
            None => result matches Ok(held) && state_catalog_carries(*message, held) ,
        },
{
    if is_foreign_catalog(&message.catalog_digest, catalog) {
        return Err(foreign());
    }
    if message.catalog_digest.len() != 32 {
        return Err(DurableCodecError::corrupt());
    }
    proof {
        assert(message.catalog_digest@ == catalog.bytes@);
        assert(state_catalog_carries(
            *message,
            AuthoritativeStateCatalog { catalog_digest: catalog },
        ));
    }
    state_catalog_from_proto(message)
}

/// Refuses foreign catalogs without exposing their digest or accepting partial
/// authority.
pub fn decode_authoritative_state_catalog_v1(
    attempt: ReadAttempt<wire::StoredAuthoritativeStateCatalogV1>,
    catalog: Digest,
) -> (result: Result<EncodedPageItem<AuthoritativeStateCatalog>, DurableCodecError>)
    ensures
        match read_outcome(RecordType::StoredAuthoritativeStateCatalogV1, attempt) {
            Err(kind) => result == Err::<EncodedPageItem<AuthoritativeStateCatalog>, _>(
                DurableCodecError { kind },
            ),
            Ok(message) => match state_catalog_failure(message, catalog) {
                Some(kind) => result == Err::<EncodedPageItem<AuthoritativeStateCatalog>, _>(
                    DurableCodecError { kind },
                ),
                None => if attempt.encoded_len == 0 {
                    result is Err && is_corrupt(result->Err_0)
                } else {
                    result is Ok && state_catalog_carries(message, result->Ok_0.value) 
                        && result->Ok_0.charge.bytes == attempt.encoded_len
                },
            },
        },
{
    let encoded_len = attempt.encoded_len;
    let message = read_message(RecordType::StoredAuthoritativeStateCatalogV1, attempt)?;
    let value = state_catalog_of_catalog(&message, catalog)?;
    charged(value, encoded_len)
}

/// Whether a message is the form of some valid value.
pub open spec fn history_readable(message: wire::StoredChangelogHistoryStateV3) -> bool {
    exists|value: ChangelogHistoryStateV3| #[trigger] history_carries(message, value)
        && history_valid(value)
}

/// Why history roots are refused, if they are.
pub open spec fn history_failure(
    message: wire::StoredChangelogHistoryStateV3,
    catalog: Digest,
) -> Option<DurableCodecErrorKind> {
    if foreign_catalog(message.lineage.catalog_digest@, catalog) {
        Some(DurableCodecErrorKind::IncompatibleFormat)
    } else if !history_readable(message) {
        Some(DurableCodecErrorKind::CorruptData)
    } else {
        None
    }
}

fn history_of_catalog(
    message: &wire::StoredChangelogHistoryStateV3,
    catalog: Digest,
) -> (result: Result<
    ChangelogHistoryStateV3,
    DurableCodecError,
>)
    ensures
        match history_failure(*message, catalog) {
            Some(kind) => result == Err::<ChangelogHistoryStateV3, _>(DurableCodecError { kind }),
            None => result matches Ok(held) && history_carries(*message, held)
                && history_valid(held),
        },
{
    if is_foreign_catalog(&message.lineage.catalog_digest, catalog) {
        return Err(foreign());
    }
    history_from_proto(message)
}

/// Refuses missing roots, foreign catalogs, regressing or substituted positions.
/// A successful decode alone does not certify ancestry or permit reclamation.
pub fn decode_changelog_history_state_v3(
    attempt: ReadAttempt<wire::StoredChangelogHistoryStateV3>,
    catalog: Digest,
) -> (result: Result<EncodedPageItem<ChangelogHistoryStateV3>, DurableCodecError>)
    ensures
        match read_outcome(RecordType::StoredChangelogHistoryStateV3, attempt) {
            Err(kind) => result == Err::<EncodedPageItem<ChangelogHistoryStateV3>, _>(
                DurableCodecError { kind },
            ),
            Ok(message) => match history_failure(message, catalog) {
                Some(kind) => result == Err::<EncodedPageItem<ChangelogHistoryStateV3>, _>(
                    DurableCodecError { kind },
                ),
                None => if attempt.encoded_len == 0 {
                    result is Err && is_corrupt(result->Err_0)
                } else {
                    result is Ok && history_carries(message, result->Ok_0.value)
                        && history_valid(result->Ok_0.value)
                        && result->Ok_0.charge.bytes == attempt.encoded_len
                },
            },
        },
{
    let encoded_len = attempt.encoded_len;
    let message = read_message(RecordType::StoredChangelogHistoryStateV3, attempt)?;
    let value = history_of_catalog(&message, catalog)?;
    charged(value, encoded_len)
}

/// Whether a message is the form of some valid value.
pub open spec fn follower_readable(message: wire::StoredReplicationFollowerStateV3) -> bool {
    exists|value: ReplicationFollowerStateV3| #[trigger] follower_carries(message, value)
        && follower_valid(value)
}

/// Why a follower state is refused, if it is.
pub open spec fn follower_failure(
    message: wire::StoredReplicationFollowerStateV3,
    catalog: Digest,
) -> Option<DurableCodecErrorKind> {
    if message.state matches Some(wire::StoredReplicationFollowerStateV3State::Attached(part))
        && foreign_catalog(part.lineage.catalog_digest@, catalog) {
        Some(DurableCodecErrorKind::IncompatibleFormat)
    } else if !follower_readable(message) {
        Some(DurableCodecErrorKind::CorruptData)
    } else {
        None
    }
}

fn follower_of_catalog(
    message: &wire::StoredReplicationFollowerStateV3,
    catalog: Digest,
) -> (result: Result<
    ReplicationFollowerStateV3,
    DurableCodecError,
>)
    ensures
        match follower_failure(*message, catalog) {
            Some(kind) =>
                result == Err::<ReplicationFollowerStateV3, _>(DurableCodecError { kind }),
            None => result matches Ok(held) && follower_carries(*message, held)
                && follower_valid(held),
        },
{
    if let Some(wire::StoredReplicationFollowerStateV3State::Attached(part)) = &message.state {
        if is_foreign_catalog(&part.lineage.catalog_digest, catalog) {
            return Err(foreign());
        }
    }
    follower_from_proto(message)
}

/// Never interprets a missing or unknown state as detached, or acknowledgement as
/// apply.
pub fn decode_replication_follower_state_v3(
    attempt: ReadAttempt<wire::StoredReplicationFollowerStateV3>,
    catalog: Digest,
) -> (result: Result<EncodedPageItem<ReplicationFollowerStateV3>, DurableCodecError>)
    ensures
        match read_outcome(RecordType::StoredReplicationFollowerStateV3, attempt) {
            Err(kind) => result == Err::<EncodedPageItem<ReplicationFollowerStateV3>, _>(
                DurableCodecError { kind },
            ),
            Ok(message) => match follower_failure(message, catalog) {
                Some(kind) => result == Err::<EncodedPageItem<ReplicationFollowerStateV3>, _>(
                    DurableCodecError { kind },
                ),
                None => if attempt.encoded_len == 0 {
                    result is Err && is_corrupt(result->Err_0)
                } else {
                    result is Ok && follower_carries(message, result->Ok_0.value)
                        && follower_valid(result->Ok_0.value)
                        && result->Ok_0.charge.bytes == attempt.encoded_len
                },
            },
        },
{
    let encoded_len = attempt.encoded_len;
    let message = read_message(RecordType::StoredReplicationFollowerStateV3, attempt)?;
    let value = follower_of_catalog(&message, catalog)?;
    charged(value, encoded_len)
}

/// Whether a message is the form of some valid value.
pub open spec fn replication_administration_readable(
    message: wire::StoredReplicationAdministrationV1,
) -> bool {
    exists|value: ReplicationAdministrationView| #[trigger]
        replication_administration_carries(message, value)
            && replication_administration_valid(value)
}

/// Whether a target field is the form of some valid target.
pub open spec fn target_field_readable(
    message: Option<wire::ReplicationFollowerAuditTargetV3>,
) -> bool {
    message is Some && exists|value: ReplicationFollowerAuditTargetV1| #[trigger]
        follower_target_carries(message->Some_0, value) && follower_target_valid(value)
}

/// Whether an origin field is the form of some valid origin.
pub open spec fn origin_readable(message: wire::ReplicationAdministrationOriginV1) -> bool {
    exists|value: ReplicationOriginView| #[trigger]
        origin_carries(message, value) && origin_valid(value)
}

/// Why a hold as it was before a change is refused, if it is.
pub open spec fn before_failure(
    message: wire::ReplicationHoldBeforeV1,
    catalog: Digest,
) -> Option<DurableCodecErrorKind> {
    match message.before {
        None => Some(DurableCodecErrorKind::CorruptData),
        Some(wire::ReplicationHoldBeforeV1Before::Absent) => None,
        Some(wire::ReplicationHoldBeforeV1Before::Legacy(hold)) => source_hold_failure(
            hold,
            catalog,
        ),
        Some(wire::ReplicationHoldBeforeV1Before::Registered(hold)) => source_hold_v2_failure(
            hold,
            catalog,
        ),
    }
}

fn check_before(message: &wire::ReplicationHoldBeforeV1, catalog: Digest) -> (result: Result<
    (),
    DurableCodecError,
>)
    ensures
        match before_failure(*message, catalog) {
            Some(kind) => result == Err::<(), _>(DurableCodecError { kind }),
            None => result is Ok,
        },
{
    match &message.before {
        None => Err(DurableCodecError::corrupt()),
        Some(wire::ReplicationHoldBeforeV1Before::Absent) => Ok(()),
        Some(wire::ReplicationHoldBeforeV1Before::Legacy(hold)) => match source_hold_of_catalog(
            hold,
            catalog,
        ) {
            Ok(_) => Ok(()),
            Err(error) => Err(error),
        },
        Some(wire::ReplicationHoldBeforeV1Before::Registered(hold)) =>
        match source_hold_v2_of_catalog(hold, catalog) {
            Ok(_) => Ok(()),
            Err(error) => Err(error),
        },
    }
}

/// Why a replication administration record is refused, if it is: its target, the
/// hold before, its origin, the hold after and then every other part are checked.
pub open spec fn replication_administration_failure(
    message: wire::StoredReplicationAdministrationV1,
    catalog: Digest,
) -> Option<DurableCodecErrorKind> {
    if !target_field_readable(message.target) {
        Some(DurableCodecErrorKind::CorruptData)
    } else if before_failure(message.before, catalog) is Some {
        before_failure(message.before, catalog)
    } else if !origin_readable(message.origin) || message.after is None {
        Some(DurableCodecErrorKind::CorruptData)
    } else if source_hold_v2_failure(message.after->Some_0, catalog) is Some {
        source_hold_v2_failure(message.after->Some_0, catalog)
    } else if !replication_administration_readable(message) {
        Some(DurableCodecErrorKind::CorruptData)
    } else {
        None
    }
}

fn replication_administration_of_catalog(
    message: &wire::StoredReplicationAdministrationV1,
    catalog: Digest,
) -> (result: Result<
    StoredReplicationAdministrationV1,
    DurableCodecError,
>)
    ensures
        match replication_administration_failure(*message, catalog) {
            Some(kind) =>
                result == Err::<StoredReplicationAdministrationV1, _>(DurableCodecError { kind }),
            None => result matches Ok(held)
                && replication_administration_carries(*message, held@)
                    && replication_administration_valid(held@),
        },
{
    match &message.target {
        Some(part) => {
            let target = follower_target_from_proto(part)?;
            assert(follower_target_carries(*part, target) && follower_target_valid(target));
        },
        None => return Err(DurableCodecError::corrupt()),
    }
    check_before(&message.before, catalog)?;
    let origin = origin_from_proto(&message.origin)?;
    assert(origin_carries(message.origin, origin@) && origin_valid(origin@));
    let after = match &message.after {
        Some(part) => source_hold_v2_of_catalog(part, catalog)?,
        None => return Err(DurableCodecError::corrupt()),
    };
    replication_administration_from_proto(message)
}

/// Checks complete typed target, generation, origin and the transition. The storage
/// owner still verifies the exact retained receipt and current authorization.
pub fn decode_replication_administration_v1(
    attempt: ReadAttempt<wire::StoredReplicationAdministrationV1>,
    catalog: Digest,
) -> (result: Result<EncodedPageItem<StoredReplicationAdministrationV1>, DurableCodecError>)
    ensures
        match read_outcome(RecordType::StoredReplicationAdministrationV1, attempt) {
            Err(kind) => result == Err::<EncodedPageItem<StoredReplicationAdministrationV1>, _>(
                DurableCodecError { kind },
            ),
            Ok(message) => match replication_administration_failure(message, catalog) {
                Some(kind) =>
                    result == Err::<EncodedPageItem<StoredReplicationAdministrationV1>, _>(
                    DurableCodecError { kind },
                ),
                None => if attempt.encoded_len == 0 {
                    result is Err && is_corrupt(result->Err_0)
                } else {
                    result is Ok
                        && replication_administration_carries(message, result->Ok_0.value@)
                            && replication_administration_valid(result->Ok_0.value@)
                        && result->Ok_0.charge.bytes == attempt.encoded_len
                },
            },
        },
{
    let encoded_len = attempt.encoded_len;
    let message = read_message(RecordType::StoredReplicationAdministrationV1, attempt)?;
    let value = replication_administration_of_catalog(&message, catalog)?;
    charged(value, encoded_len)
}

/// Whether a message is the form of some valid value.
pub open spec fn promotion_readable(message: wire::StoredPromotionAdministrationV1) -> bool {
    exists|value: PromotionAdministrationView| #[trigger] promotion_carries(message, value)
        && promotion_valid(value)
}

/// Whether the parts of a promotion record that are read before its history are
/// sound: its steps, its fence, its operation and its applied position.
pub open spec fn promotion_head_readable(message: wire::StoredPromotionAdministrationV1) -> bool {
    &&& message.attempt_steps@.len() <= MAX_REPLICATION_PROMOTION_STEPS_V1
    &&& exists|steps: Seq<ReplicationPromotionStepV1>| #[trigger]
        promotion_step_codes_carry(message.attempt_steps@, steps)
    &&& (message.fence matches Some(part) && exists|fence: PrimaryFenceView| #[trigger]
        primary_fence_carries(part, fence) && primary_fence_valid(fence))
    &&& identifier_readable(message.promotion_operation_id)
    &&& (message.applied matches Some(part) && exists|point: ChangelogHistoryPointV3| #[trigger]
        position_carries(part, point) && position_valid(point))
}

fn check_promotion_head(message: &wire::StoredPromotionAdministrationV1) -> (result: Result<
    (),
    DurableCodecError,
>)
    ensures
        result is Ok <==> promotion_head_readable(*message),
        result is Err ==> is_corrupt(result->Err_0),
{
    if message.attempt_steps.len() > MAX_REPLICATION_PROMOTION_STEPS_V1 {
        return Err(DurableCodecError::corrupt());
    }
    let steps = promotion_step_codes_from_wire(&message.attempt_steps)?;
    assert(promotion_step_codes_carry(message.attempt_steps@, steps@));
    match &message.fence {
        Some(part) => {
            let fence = primary_fence_from_proto(part)?;
            assert(primary_fence_carries(*part, fence@) && primary_fence_valid(fence@));
        },
        None => return Err(DurableCodecError::corrupt()),
    }
    let operation = identifier_from_wire(&message.promotion_operation_id)?;
    assert(identifier_carries(message.promotion_operation_id, operation));
    match &message.applied {
        Some(part) => {
            let applied = position_from_proto(part)?;
            assert(position_carries(*part, applied) && position_valid(applied));
        },
        None => return Err(DurableCodecError::corrupt()),
    }
    Ok(())
}

/// Why a promotion record is refused, if it is.
pub open spec fn promotion_failure(
    message: wire::StoredPromotionAdministrationV1,
    catalog: Digest,
) -> Option<DurableCodecErrorKind> {
    if !promotion_head_readable(message) || message.source_history is None {
        Some(DurableCodecErrorKind::CorruptData)
    } else if history_failure(message.source_history->Some_0, catalog) is Some {
        history_failure(message.source_history->Some_0, catalog)
    } else if !promotion_readable(message) {
        Some(DurableCodecErrorKind::CorruptData)
    } else {
        None
    }
}

fn promotion_of_catalog(
    message: &wire::StoredPromotionAdministrationV1,
    catalog: Digest,
) -> (result: Result<
    StoredPromotionAdministrationV1,
    DurableCodecError,
>)
    ensures
        match promotion_failure(*message, catalog) {
            Some(kind) =>
                result == Err::<StoredPromotionAdministrationV1, _>(DurableCodecError { kind }),
            None => result matches Ok(held) && promotion_carries(*message, held@)
                && promotion_valid(held@),
        },
{
    check_promotion_head(message)?;
    let history = match &message.source_history {
        Some(part) => history_of_catalog(part, catalog)?,
        None => return Err(DurableCodecError::corrupt()),
    };
    promotion_from_proto(message)
}

/// Revalidates every nested identity, frontier, phase and derived result. Source
/// startup still needs the exact cutover and its retained receipt.
pub fn decode_promotion_administration_v1(
    attempt: ReadAttempt<wire::StoredPromotionAdministrationV1>,
    catalog: Digest,
) -> (result: Result<EncodedPageItem<StoredPromotionAdministrationV1>, DurableCodecError>)
    ensures
        match read_outcome(RecordType::StoredPromotionAdministrationV1, attempt) {
            Err(kind) => result == Err::<EncodedPageItem<StoredPromotionAdministrationV1>, _>(
                DurableCodecError { kind },
            ),
            Ok(message) => match promotion_failure(message, catalog) {
                Some(kind) => result == Err::<EncodedPageItem<StoredPromotionAdministrationV1>, _>(
                    DurableCodecError { kind },
                ),
                None => if attempt.encoded_len == 0 {
                    result is Err && is_corrupt(result->Err_0)
                } else {
                    result is Ok && promotion_carries(message, result->Ok_0.value@)
                        && promotion_valid(result->Ok_0.value@)
                        && result->Ok_0.charge.bytes == attempt.encoded_len
                },
            },
        },
{
    let encoded_len = attempt.encoded_len;
    let message = read_message(RecordType::StoredPromotionAdministrationV1, attempt)?;
    let value = promotion_of_catalog(&message, catalog)?;
    charged(value, encoded_len)
}

/// One of both accepted source-hold generations.
#[derive(Clone, Copy, Debug, PartialEq, Eq)]
pub enum ReplicationSourceHoldStateV1 {
    Legacy(ReplicationSourceHoldV1),
    Registered(ReplicationSourceHoldV2),
}

/// Reads both accepted source-hold generations while preserving the checked
/// charge. Registered tombstones remain explicit; callers do not treat them as
/// live pins.
pub fn decode_replication_source_hold(
    found: Result<RecordType, EnvelopeError>,
    legacy: ReadAttempt<wire::StoredReplicationSourceHoldV1>,
    registered: ReadAttempt<wire::StoredReplicationSourceHoldV2>,
    catalog: Digest,
) -> (result: Result<EncodedPageItem<ReplicationSourceHoldStateV1>, DurableCodecError>)
    ensures
        match variant_outcome(
            found,
            RecordType::StoredReplicationSourceHoldV2,
            RecordType::StoredReplicationSourceHoldV1,
        ) {
            Err(kind) => result == Err::<EncodedPageItem<ReplicationSourceHoldStateV1>, _>(
                DurableCodecError { kind },
            ),
            Ok(true) => match read_outcome(RecordType::StoredReplicationSourceHoldV2, registered) {
                Err(kind) => result == Err::<EncodedPageItem<ReplicationSourceHoldStateV1>, _>(
                    DurableCodecError { kind },
                ),
                Ok(message) => match source_hold_v2_failure(message, catalog) {
                    Some(kind) => result == Err::<
                        EncodedPageItem<ReplicationSourceHoldStateV1>,
                        DurableCodecError,
                    >(DurableCodecError { kind }),
                    None => if registered.encoded_len == 0 {
                        result is Err && is_corrupt(result->Err_0)
                    } else {
                        result is Ok && (result->Ok_0.value matches
                            ReplicationSourceHoldStateV1::Registered(hold)
                            && source_hold_v2_carries(message, hold) && source_hold_v2_valid(hold))
                            && result->Ok_0.charge.bytes == registered.encoded_len
                    },
                },
            },
            Ok(false) => match read_outcome(RecordType::StoredReplicationSourceHoldV1, legacy) {
                Err(kind) => result == Err::<EncodedPageItem<ReplicationSourceHoldStateV1>, _>(
                    DurableCodecError { kind },
                ),
                Ok(message) => match source_hold_failure(message, catalog) {
                    Some(kind) => result == Err::<
                        EncodedPageItem<ReplicationSourceHoldStateV1>,
                        DurableCodecError,
                    >(DurableCodecError { kind }),
                    None => if legacy.encoded_len == 0 {
                        result is Err && is_corrupt(result->Err_0)
                    } else {
                        result is Ok && (result->Ok_0.value matches
                            ReplicationSourceHoldStateV1::Legacy(hold)
                            && source_hold_carries(message, hold) && source_hold_valid(hold))
                            && result->Ok_0.charge.bytes == legacy.encoded_len
                    },
                },
            },
        },
{
    let current = decode_record_variant(
        found,
        RecordType::StoredReplicationSourceHoldV2,
        RecordType::StoredReplicationSourceHoldV1,
    )?;
    if current {
        let item = decode_replication_source_hold_v2(registered, catalog)?;
        Ok(
            EncodedPageItem::new(
                ReplicationSourceHoldStateV1::Registered(item.value),
                item.charge,
            ),
        )
    } else {
        let item = decode_replication_source_hold_v1(legacy, catalog)?;
        Ok(EncodedPageItem::new(ReplicationSourceHoldStateV1::Legacy(item.value), item.charge))
    }
}

/// A hold of this catalog never comes out of a record of another.
pub proof fn foreign_holds_are_refused(
    message: wire::StoredReplicationSourceHoldV1,
    catalog: Digest,
    hold: ReplicationSourceHoldV1,
)
    requires
        source_hold_failure(message, catalog) is None,
        source_hold_carries(message, hold),
    ensures
        hold.lineage.catalog_digest == catalog,
{
    assert(message.lineage.catalog_digest@ == hold.lineage.catalog_digest.bytes@);
    assert(hold.lineage.catalog_digest.bytes =~= catalog.bytes);
}

} // verus!
