//! Capability records as durable messages: the least form that holds a grant.

use vstd::prelude::*;

use super::capability::{
    capability_parts_carries, capability_parts_form_is_exact, capability_parts_from_proto,
    capability_parts_over_limit, capability_parts_to_proto, capability_parts_valid,
};
use super::envelope::{charged, ruled, ruled_item, OutgoingRecord, RegistryRecord};
use super::error::{
    read_failure, require, unread_failure, value_failure, DurableCodecError, DurableCodecErrorKind,
    EnvelopeError,
};
use super::record_type::RecordType;
use crate::page::{EncodedContentCharge, EncodedPageItem};
use crate::stored::capability::{
    optional_secret_extension_view, CapabilityPermissionKindV1, CapabilityPermissionV1,
    CapabilityRecordPartsView, SecretGrant, SecretGrantView,
};
use crate::stored::capability_record::{
    approvals_arrange_to, assemble_record, assembled, name_secrets, parts_of_record,
    permissions_arrange_to, records_come_together_again, records_without_secrets_stay, secretless,
    secrets_come_together_again, secrets_named, split_record, visibilities_distinct,
    CapabilityRecordView, StoredCapabilityRecordV1,
};
use crate::value_error::StorageValueError;
use crate::wire;

verus! {

/// The least record type that holds all extensions of a record: secret fields
/// need the last one, then exports, then row policies, then installations, then
/// migrations, and a record without extensions keeps the first.
pub open spec fn least_type(parts: CapabilityRecordPartsView) -> RecordType {
    if parts.secret is Some {
        RecordType::CapabilityRecordV6
    } else if parts.export is Some {
        RecordType::CapabilityRecordV5
    } else if parts.row_policy is Some {
        RecordType::CapabilityRecordV4
    } else if parts.installation is Some {
        RecordType::CapabilityRecordV3
    } else if parts.migration is Some {
        RecordType::CapabilityRecordV2
    } else {
        RecordType::CapabilityRecordV1
    }
}

/// Encodes one complete durable capability record.
///
/// The message holds the base record and every extension that the grant has;
/// the record type tells which of these fields the framed message has.
pub fn encode_capability_record_v1(value: &StoredCapabilityRecordV1) -> (result: OutgoingRecord<
    wire::CapabilityRecordV6,
>)
    ensures
        result.record_type == least_type(parts_of_record(value@)),
        capability_parts_carries(result.message, parts_of_record(value@)),
{
    let parts = split_record(value);
    let record_type = if parts.secret.is_some() {
        RecordType::CapabilityRecordV6
    } else if parts.export.is_some() {
        RecordType::CapabilityRecordV5
    } else if parts.row_policy.is_some() {
        RecordType::CapabilityRecordV4
    } else if parts.installation.is_some() {
        RecordType::CapabilityRecordV3
    } else if parts.migration.is_some() {
        RecordType::CapabilityRecordV2
    } else {
        RecordType::CapabilityRecordV1
    };
    OutgoingRecord { record_type, message: capability_parts_to_proto(&parts) }
}

/// Whether a record type is one of capability records.
pub open spec fn capability_type(record_type: RecordType) -> bool {
    record_type is CapabilityRecordV1 || record_type is CapabilityRecordV2 || record_type
        is CapabilityRecordV3 || record_type is CapabilityRecordV4 || record_type
        is CapabilityRecordV5 || record_type is CapabilityRecordV6
}

/// Whether a message has the extension that its record type is for.
pub open spec fn has_own_extension(
    record_type: RecordType,
    message: wire::CapabilityRecordV6,
) -> bool {
    match record_type {
        RecordType::CapabilityRecordV2 => message.migration is Some || message.installation
            is Some,
        RecordType::CapabilityRecordV3 => message.installation is Some,
        RecordType::CapabilityRecordV4 => message.row_policy is Some,
        RecordType::CapabilityRecordV5 => message.export is Some,
        RecordType::CapabilityRecordV6 => message.secret is Some,
        _ => true,
    }
}

/// The fields of a message that its record type has.
pub open spec fn own_fields(record_type: RecordType, message: wire::CapabilityRecordV6) ->
    wire::CapabilityRecordV6 {
    let last = record_type is CapabilityRecordV6;
    let fifth = last || record_type is CapabilityRecordV5;
    let fourth = fifth || record_type is CapabilityRecordV4;
    wire::CapabilityRecordV6 {
        base: message.base,
        migration: if record_type is CapabilityRecordV1 {
            None
        } else {
            message.migration
        },
        installation: if record_type is CapabilityRecordV1 {
            None
        } else {
            message.installation
        },
        row_policy: if fourth {
            message.row_policy
        } else {
            None
        },
        export: if fifth {
            message.export
        } else {
            None
        },
        secret: if last {
            message.secret
        } else {
            None
        },
    }
}

fn take_own_fields(record_type: RecordType, message: wire::CapabilityRecordV6) -> (result:
    wire::CapabilityRecordV6)
    ensures
        result == own_fields(record_type, message),
{
    let last = record_type == RecordType::CapabilityRecordV6;
    let fifth = last || record_type == RecordType::CapabilityRecordV5;
    let fourth = fifth || record_type == RecordType::CapabilityRecordV4;
    let mut message = message;
    if record_type == RecordType::CapabilityRecordV1 {
        message.migration = None;
        message.installation = None;
    }
    if !fourth {
        message.row_policy = None;
    }
    if !fifth {
        message.export = None;
    }
    if !last {
        message.secret = None;
    }
    message
}

/// Whether a message is the form of some valid parts of a record.
pub open spec fn capability_readable(message: wire::CapabilityRecordV6) -> bool {
    exists|parts: CapabilityRecordPartsView| #[trigger]
        capability_parts_carries(message, parts) && capability_parts_valid(parts)
}

/// What a record whose secret fields are named comes to: whatever its own rule refuses
/// is corrupt.
pub open spec fn named_record_read<R: Fn(&StoredCapabilityRecordV1) -> Option<StorageValueError>>(
    value: StoredCapabilityRecordV1,
    encoded_len: usize,
    rule: R,
    result: Result<EncodedPageItem<StoredCapabilityRecordV1>, DurableCodecError>,
) -> bool {
    exists|verdict: Option<StorageValueError>| #[trigger]
        rule.ensures((&value,), verdict) && result == if verdict is Some || encoded_len == 0 {
            Err::<EncodedPageItem<StoredCapabilityRecordV1>, _>(
                DurableCodecError { kind: DurableCodecErrorKind::CorruptData },
            )
        } else {
            Ok(EncodedPageItem { value, charge: EncodedContentCharge { bytes: encoded_len } })
        }
}

/// What a record whose secret fields are not named yet comes to: its own rule is asked
/// first, and then again once they are.
pub open spec fn plain_record_read<
    K: Fn(Vec<CapabilityPermissionKindV1>) -> Result<
        Vec<CapabilityPermissionKindV1>,
        StorageValueError,
    >,
    R: Fn(&StoredCapabilityRecordV1) -> Option<StorageValueError>,
>(
    value: StoredCapabilityRecordV1,
    secret: Option<SecretGrantView>,
    encoded_len: usize,
    arrange_approvals: K,
    rule: R,
    result: Result<EncodedPageItem<StoredCapabilityRecordV1>, DurableCodecError>,
) -> bool {
    match secret {
        None => ruled(rule, value, encoded_len, result),
        Some(secret) => exists|verdict: Option<StorageValueError>| #[trigger]
            rule.ensures((&value,), verdict) && match verdict {
                Some(error) => result == Err::<EncodedPageItem<StoredCapabilityRecordV1>, _>(
                    DurableCodecError { kind: value_failure(error) },
                ),
                None => secret_record_read(
                    value@,
                    secret,
                    encoded_len,
                    arrange_approvals,
                    rule,
                    result,
                ),
            },
    }
}

/// What naming the secret fields of an admitted record comes to.
pub open spec fn secret_record_read<
    K: Fn(Vec<CapabilityPermissionKindV1>) -> Result<
        Vec<CapabilityPermissionKindV1>,
        StorageValueError,
    >,
    R: Fn(&StoredCapabilityRecordV1) -> Option<StorageValueError>,
>(
    record: CapabilityRecordView,
    secret: SecretGrantView,
    encoded_len: usize,
    arrange_approvals: K,
    rule: R,
    result: Result<EncodedPageItem<StoredCapabilityRecordV1>, DurableCodecError>,
) -> bool {
    exists|outcome: Result<CapabilityRecordView, DurableCodecErrorKind>| #[trigger]
        secrets_named(arrange_approvals, record, secret, outcome) && match outcome {
            Err(kind) => result == Err::<EncodedPageItem<StoredCapabilityRecordV1>, _>(
                DurableCodecError { kind },
            ),
            Ok(named) => exists|value: StoredCapabilityRecordV1|
                value@ == named && #[trigger] named_record_read(value, encoded_len, rule, result),
        }
}

/// What putting the parts of a record together comes to: its refusal, or what the
/// record's own rule says of it.
pub open spec fn capability_parts_read<
    P: Fn(Vec<CapabilityPermissionV1>) -> Result<Vec<CapabilityPermissionV1>, StorageValueError>,
    K: Fn(Vec<CapabilityPermissionKindV1>) -> Result<
        Vec<CapabilityPermissionKindV1>,
        StorageValueError,
    >,
    R: Fn(&StoredCapabilityRecordV1) -> Option<StorageValueError>,
>(
    parts: CapabilityRecordPartsView,
    encoded_len: usize,
    arrange_permissions: P,
    arrange_approvals: K,
    rule: R,
    result: Result<EncodedPageItem<StoredCapabilityRecordV1>, DurableCodecError>,
) -> bool {
    exists|outcome: Result<CapabilityRecordView, DurableCodecErrorKind>| #[trigger]
        assembled(arrange_permissions, arrange_approvals, parts, outcome) && match outcome {
            Err(kind) => result == Err::<EncodedPageItem<StoredCapabilityRecordV1>, _>(
                DurableCodecError { kind },
            ),
            Ok(record) => exists|value: StoredCapabilityRecordV1|
                value@ == record && #[trigger] plain_record_read(
                    value,
                    parts.secret,
                    encoded_len,
                    arrange_approvals,
                    rule,
                    result,
                ),
        }
}

/// What decoding a capability record gives, for what the registry found.
pub open spec fn capability_outcome<
    P: Fn(Vec<CapabilityPermissionV1>) -> Result<Vec<CapabilityPermissionV1>, StorageValueError>,
    K: Fn(Vec<CapabilityPermissionKindV1>) -> Result<
        Vec<CapabilityPermissionKindV1>,
        StorageValueError,
    >,
    R: Fn(&StoredCapabilityRecordV1) -> Option<StorageValueError>,
>(
    found: Result<RegistryRecord<wire::CapabilityRecordV6>, EnvelopeError>,
    encoded_len: usize,
    arrange_permissions: P,
    arrange_approvals: K,
    rule: R,
    result: Result<EncodedPageItem<StoredCapabilityRecordV1>, DurableCodecError>,
) -> bool {
    match found {
        Err(error) => result == Err::<EncodedPageItem<StoredCapabilityRecordV1>, _>(
            DurableCodecError { kind: read_failure(error) },
        ),
        Ok(record) => if !capability_type(record.record_type) {
            result == Err::<EncodedPageItem<StoredCapabilityRecordV1>, _>(
                DurableCodecError { kind: DurableCodecErrorKind::UnexpectedRecordType },
            )
        } else if record.message is None || !has_own_extension(
            record.record_type,
            record.message->Some_0,
        ) {
            result == Err::<EncodedPageItem<StoredCapabilityRecordV1>, _>(
                DurableCodecError { kind: DurableCodecErrorKind::CorruptData },
            )
        } else if !capability_readable(own_fields(record.record_type, record.message->Some_0)) {
            result == Err::<EncodedPageItem<StoredCapabilityRecordV1>, _>(
                DurableCodecError {
                    kind: unread_failure(
                        capability_parts_over_limit(
                            own_fields(record.record_type, record.message->Some_0),
                        ),
                    ),
                },
            )
        } else {
            exists|parts: CapabilityRecordPartsView| #[trigger]
                capability_parts_carries(
                    own_fields(record.record_type, record.message->Some_0),
                    parts,
                ) && capability_parts_valid(parts) && capability_parts_read(
                    parts,
                    encoded_len,
                    arrange_permissions,
                    arrange_approvals,
                    rule,
                    result,
                )
        },
    }
}

/// Decodes one complete durable capability record, given the canonical arrangements
/// of permissions and of approvals and the record's own rule.
pub fn decode_capability_record_v1<
    P: Fn(Vec<CapabilityPermissionV1>) -> Result<Vec<CapabilityPermissionV1>, StorageValueError>,
    K: Fn(Vec<CapabilityPermissionKindV1>) -> Result<
        Vec<CapabilityPermissionKindV1>,
        StorageValueError,
    >,
    R: Fn(&StoredCapabilityRecordV1) -> Option<StorageValueError>,
>(
    found: Result<RegistryRecord<wire::CapabilityRecordV6>, EnvelopeError>,
    encoded_len: usize,
    arrange_permissions: P,
    arrange_approvals: K,
    rule: R,
) -> (result: Result<EncodedPageItem<StoredCapabilityRecordV1>, DurableCodecError>)
    requires
        forall|values: Vec<CapabilityPermissionV1>| #[trigger]
            arrange_permissions.requires((values,)),
        forall|values: Vec<CapabilityPermissionKindV1>| #[trigger]
            arrange_approvals.requires((values,)),
        forall|value: &StoredCapabilityRecordV1| #[trigger] rule.requires((value,)),
    ensures
        capability_outcome(
            found,
            encoded_len,
            arrange_permissions,
            arrange_approvals,
            rule,
            result,
        ),
{
    let record = match found {
        Ok(record) => record,
        Err(error) => {
            return Err(DurableCodecError::from_decode_envelope(error));
        },
    };
    let record_type = record.record_type;
    match record_type {
        RecordType::CapabilityRecordV1
        | RecordType::CapabilityRecordV2
        | RecordType::CapabilityRecordV3
        | RecordType::CapabilityRecordV4
        | RecordType::CapabilityRecordV5
        | RecordType::CapabilityRecordV6 => {},
        _ => {
            return Err(DurableCodecError::new(DurableCodecErrorKind::UnexpectedRecordType));
        },
    }
    let message = require(record.message)?;
    let present = match record_type {
        RecordType::CapabilityRecordV2 => message.migration.is_some()
            || message.installation.is_some(),
        RecordType::CapabilityRecordV3 => message.installation.is_some(),
        RecordType::CapabilityRecordV4 => message.row_policy.is_some(),
        RecordType::CapabilityRecordV5 => message.export.is_some(),
        RecordType::CapabilityRecordV6 => message.secret.is_some(),
        _ => true,
    };
    if !present {
        return Err(DurableCodecError::corrupt());
    }
    let own = take_own_fields(record_type, message);
    let parts = match capability_parts_from_proto(&own) {
        Ok(parts) => parts,
        Err(error) => {
            assert(!capability_readable(own));
            return Err(error);
        },
    };
    assert(capability_parts_carries(own, parts@));
    assert(capability_readable(own));
    let value = match assemble_record(&parts, &arrange_permissions, &arrange_approvals) {
        Ok(value) => value,
        Err(error) => {
            assert(assembled(
                arrange_permissions,
                arrange_approvals,
                parts@,
                Err(error.kind),
            ));
            return Err(error);
        },
    };
    assert(assembled(arrange_permissions, arrange_approvals, parts@, Ok(value@)));
    let result = finish_plain_record(value, &parts.secret, encoded_len, arrange_approvals, rule);
    assert(plain_record_read(
        value,
        parts@.secret,
        encoded_len,
        arrange_approvals,
        rule,
        result,
    ));
    result
}

fn finish_plain_record<
    K: Fn(Vec<CapabilityPermissionKindV1>) -> Result<
        Vec<CapabilityPermissionKindV1>,
        StorageValueError,
    >,
    R: Fn(&StoredCapabilityRecordV1) -> Option<StorageValueError>,
>(
    value: StoredCapabilityRecordV1,
    secret: &Option<SecretGrant>,
    encoded_len: usize,
    arrange_approvals: K,
    rule: R,
) -> (result: Result<EncodedPageItem<StoredCapabilityRecordV1>, DurableCodecError>)
    requires
        forall|values: Vec<CapabilityPermissionKindV1>| #[trigger]
            arrange_approvals.requires((values,)),
        forall|value: &StoredCapabilityRecordV1| #[trigger] rule.requires((value,)),
    ensures
        plain_record_read(
            value,
            optional_secret_extension_view(*secret),
            encoded_len,
            arrange_approvals,
            rule,
            result,
        ),
{
    let secret = match secret {
        None => return ruled_item(value, rule, encoded_len),
        Some(secret) => secret,
    };
    let verdict = rule(&value);
    assert(rule.ensures((&value,), verdict));
    match verdict {
        Some(error) => return Err(DurableCodecError::from_storage_value(error)),
        None => {},
    }
    let ghost plain = value@;
    let named = match name_secrets(value, secret, arrange_approvals) {
        Ok(named) => named,
        Err(error) => {
            assert(secrets_named(arrange_approvals, plain, secret@, Err(error.kind)));
            assert(secret_record_read(
                plain,
                secret@,
                encoded_len,
                arrange_approvals,
                rule,
                Err(error),
            ));
            return Err(error);
        },
    };
    assert(secrets_named(arrange_approvals, plain, secret@, Ok(named@)));
    let last = rule(&named);
    assert(rule.ensures((&named,), last));
    let result = match last {
        Some(_) => Err(DurableCodecError::corrupt()),
        None => charged(named, encoded_len),
    };
    assert(named_record_read(named, encoded_len, rule, result));
    assert(secret_record_read(plain, secret@, encoded_len, arrange_approvals, rule, result));
    result
}

/// Decoding the message that a record was encoded to gives back the record, where
/// the arrangements keep what they are given and give the record's own lists, and
/// where its rule admits it with and without its secret fields.
///
/// Approvals are listed once each, extended ones only beside a permission of
/// their kind, and no two visibilities are about the same entity type.
pub proof fn capability_record_round_trip<
    P: Fn(Vec<CapabilityPermissionV1>) -> Result<Vec<CapabilityPermissionV1>, StorageValueError>,
    K: Fn(Vec<CapabilityPermissionKindV1>) -> Result<
        Vec<CapabilityPermissionKindV1>,
        StorageValueError,
    >,
    R: Fn(&StoredCapabilityRecordV1) -> Option<StorageValueError>,
>(
    record: CapabilityRecordView,
    message: wire::CapabilityRecordV6,
    encoded_len: usize,
    arrange_permissions: P,
    arrange_approvals: K,
    rule: R,
    result: Result<EncodedPageItem<StoredCapabilityRecordV1>, DurableCodecError>,
)
    requires
        capability_parts_carries(message, parts_of_record(record)),
        capability_parts_valid(parts_of_record(record)),
        encoded_len > 0,
        visibilities_distinct(record.grant.field_visibility),
        record.grant.approval_required.no_duplicates(),
        record.grant.approval_required.contains(CapabilityPermissionKindV1::MigrateContract)
            ==> exists|i: int|
            0 <= i < record.grant.permissions.len() && (#[trigger] record.grant.permissions[i])
                is MigrateContract,
        record.grant.approval_required.contains(CapabilityPermissionKindV1::InstallApplication)
            ==> exists|i: int|
            0 <= i < record.grant.permissions.len() && (#[trigger] record.grant.permissions[i])
                is InstallApplication,
        permissions_arrange_to(arrange_permissions, record.grant.permissions),
        approvals_arrange_to(arrange_approvals, record.grant.approval_required),
        forall|value: StoredCapabilityRecordV1, verdict: Option<StorageValueError>|
            (value@ == record || value@ == secretless(record)) && #[trigger] rule.ensures(
                (&value,),
                verdict,
            ) ==> verdict is None,
        capability_outcome(
            Ok(
                RegistryRecord {
                    record_type: least_type(parts_of_record(record)),
                    message: Some(message),
                },
            ),
            encoded_len,
            arrange_permissions,
            arrange_approvals,
            rule,
            result,
        ),
    ensures
        result is Ok,
        result->Ok_0.value@ == record,
        result->Ok_0.charge.bytes == encoded_len,
{
    let parts = parts_of_record(record);
    let own = own_fields(least_type(parts), message);
    assert(own == message);
    assert(capability_readable(own));
    let chosen = choose|chosen: CapabilityRecordPartsView| #[trigger]
        capability_parts_carries(own, chosen) && capability_parts_valid(chosen)
            && capability_parts_read(
            chosen,
            encoded_len,
            arrange_permissions,
            arrange_approvals,
            rule,
            result,
        );
    capability_parts_form_is_exact(own, parts, chosen);
    let outcome = choose|outcome: Result<CapabilityRecordView, DurableCodecErrorKind>| #[trigger]
        assembled(arrange_permissions, arrange_approvals, parts, outcome) && match outcome {
            Err(kind) => result == Err::<EncodedPageItem<StoredCapabilityRecordV1>, _>(
                DurableCodecError { kind },
            ),
            Ok(record) => exists|value: StoredCapabilityRecordV1|
                value@ == record && #[trigger] plain_record_read(
                    value,
                    parts.secret,
                    encoded_len,
                    arrange_approvals,
                    rule,
                    result,
                ),
        };
    records_come_together_again(arrange_permissions, arrange_approvals, record, outcome);
    let plain = choose|value: StoredCapabilityRecordV1|
        value@ == secretless(record) && #[trigger] plain_record_read(
            value,
            parts.secret,
            encoded_len,
            arrange_approvals,
            rule,
            result,
        );
    match parts.secret {
        None => {
            records_without_secrets_stay(record);
        },
        Some(secret) => {
            assert(secret_record_read(
                plain@,
                secret,
                encoded_len,
                arrange_approvals,
                rule,
                result,
            ));
            let named = choose|named: Result<CapabilityRecordView, DurableCodecErrorKind>|
                #[trigger] secrets_named(arrange_approvals, plain@, secret, named)
                    && match named {
                    Err(kind) => result == Err::<EncodedPageItem<StoredCapabilityRecordV1>, _>(
                        DurableCodecError { kind },
                    ),
                    Ok(named) => exists|value: StoredCapabilityRecordV1|
                        value@ == named && #[trigger] named_record_read(
                            value,
                            encoded_len,
                            rule,
                            result,
                        ),
                };
            secrets_come_together_again(arrange_approvals, record, named);
        },
    }
}

} // verus!
