//! Capability permissions and records as durable messages.

use riffdb_storage_api::codec::capability::{permission_from_proto, permission_to_proto};
use riffdb_storage_api::codec::capability_record::{
    decode_capability_record_v1, encode_capability_record_v1,
};
use riffdb_storage_api::codec::envelope::RegistryRecord;
use riffdb_storage_api::codec::error::DurableCodecErrorKind;
use riffdb_storage_api::codec::parts::{Identifier, Vetted};
use riffdb_storage_api::codec::record_type::RecordType;
use riffdb_storage_api::ids::{Digest, Id32, Id64, Timestamp};
use riffdb_storage_api::page::NonZeroLimit;
use riffdb_storage_api::stored::capability::{
    CapabilityApplicationExportGrantV1, CapabilityExportGrantV1, CapabilityHeader,
    CapabilityLifecycleV1, CapabilityPermissionKindV1, CapabilityPermissionV1,
    CapabilityRowPolicyBindingV1, CapabilityRowPolicyGrantV1, CapabilityTokenDigest,
    ExplicitPartitionScope, PartitionScopeV1, ScopedPartitionV1, VisibleFields,
};
use riffdb_storage_api::stored::capability_record::{
    CapabilityGrantV1, EntityFieldVisibilityV1, StoredCapabilityRecordV1,
};
use riffdb_storage_api::stored::common::{ActorKind, TenantScope};
use riffdb_storage_api::value_error::StorageValueError;
use riffdb_storage_api::wire;

const CHECK_AD_HOC_QUERY: u8 = 20;
const EXPLAIN_AD_HOC_QUERY: u8 = 21;
const EXECUTE_AD_HOC_QUERY: u8 = 22;

#[test]
fn exact_named_and_ad_hoc_query_permissions_round_trip_durably() {
    let lineage = "ticketdesk".to_owned();
    let module = Digest::from_bytes([0x41; 32]);
    let name = "TicketPage".to_owned();
    for permission in [
        CapabilityPermissionV1::Unparameterized(CHECK_AD_HOC_QUERY),
        CapabilityPermissionV1::Unparameterized(EXPLAIN_AD_HOC_QUERY),
        CapabilityPermissionV1::Unparameterized(EXECUTE_AD_HOC_QUERY),
        CapabilityPermissionV1::ExplainNamedQuery(lineage.clone(), module, name.clone()),
        CapabilityPermissionV1::ExecuteNamedQuery(lineage.clone(), module, name.clone()),
        CapabilityPermissionV1::ApplicationRoleIdentity(Digest::from_bytes([0x42; 32])),
    ] {
        assert_eq!(
            permission_from_proto(&permission_to_proto(&permission)).expect("round trip"),
            permission
        );
    }
}

#[test]
fn exact_reactive_permissions_round_trip_durably() {
    let lineage = "ticketdesk".to_owned();
    let module = Digest::from_bytes([0x43; 32]);
    let name = "TicketActivity".to_owned();
    for permission in [
        CapabilityPermissionV1::ConsumeEventStream(lineage.clone(), module, name.clone()),
        CapabilityPermissionV1::SeekEventStreamConsumer(lineage.clone(), module, name.clone()),
        CapabilityPermissionV1::WatchNamedQuery(lineage.clone(), module, name.clone()),
        CapabilityPermissionV1::ConsumeContextualSubscription(
            lineage.clone(),
            module,
            name.clone(),
        ),
    ] {
        assert_eq!(
            permission_from_proto(&permission_to_proto(&permission)).expect("round trip"),
            permission
        );
    }
}

#[test]
fn stable_identities_are_part_of_a_permission() {
    let permission =
        CapabilityPermissionV1::InvokeCommand("ticketdesk".to_owned(), Id32::new(9).expect("id"));
    let message = permission_to_proto(&permission);
    assert_eq!(message.kind, Some(CapabilityPermissionKindV1::InvokeCommand));
    assert_eq!(message.stable_id, Some(9));
    assert_eq!(permission_from_proto(&message).expect("round trip"), permission);
}

#[test]
fn fields_of_another_parameter_are_corrupt() {
    let corrupt = Err(DurableCodecErrorKind::CorruptData);
    let kind = |message| {
        permission_from_proto(&message)
            .map(|_| ())
            .map_err(|error| error.kind())
    };
    let mut extra = permission_to_proto(&CapabilityPermissionV1::Unparameterized(1));
    extra.stable_id = Some(1);
    assert_eq!(kind(extra), corrupt);
    let mut zero = permission_to_proto(&CapabilityPermissionV1::ReadEntity(
        "ticketdesk".to_owned(),
        Id32::new(2).expect("id"),
    ));
    zero.stable_id = Some(0);
    assert_eq!(kind(zero), corrupt);
    let mut short = permission_to_proto(&CapabilityPermissionV1::ApplicationRoleIdentity(
        Digest::from_bytes([1; 32]),
    ));
    short.application_role_hash = Some(vec![1; 31]);
    assert_eq!(kind(short), corrupt);
    let mut unknown = permission_to_proto(&CapabilityPermissionV1::MigrateContract(
        "ticketdesk".to_owned(),
    ));
    unknown.kind = None;
    assert_eq!(kind(unknown), corrupt);
}

fn id32(value: u32) -> Id32 {
    Id32::new(value).expect("nonzero")
}

fn record(
    permissions: Vec<CapabilityPermissionV1>,
    approval_required: Vec<CapabilityPermissionKindV1>,
    secret_fields: Vec<Id32>,
) -> StoredCapabilityRecordV1 {
    StoredCapabilityRecordV1 {
        header: CapabilityHeader {
            capability_id: Identifier { bytes: [1; 16] },
            revision: Id64::new(2).expect("nonzero"),
            token_digest: CapabilityTokenDigest {
                key_id: id32(3),
                digest: Digest::from_bytes([4; 32]),
            },
            database_id: Identifier { bytes: [5; 16] },
            environment: "production".to_owned(),
            principal_id: "operator".to_owned(),
            actor_kind: ActorKind::Human,
            audiences: vec!["service".to_owned()],
            issued_at: Timestamp::new(10, 0).expect("time"),
            expires_at: Timestamp::new(20, 0).expect("time"),
            creation_sequence: Id64::new(6).expect("nonzero"),
            creation_request_id: Identifier { bytes: [7; 16] },
            lifecycle: CapabilityLifecycleV1::Active,
        },
        grant: CapabilityGrantV1 {
            tenant_scope: TenantScope::Tenant("acme".to_owned()),
            partition_scope: PartitionScopeV1::All,
            permissions,
            field_visibility: vec![EntityFieldVisibilityV1 {
                visible: VisibleFields {
                    lineage: "ticketdesk".to_owned(),
                    entity_type: id32(1),
                    fields: vec![id32(1), id32(2)],
                },
                secret_fields,
            }],
            max_scan_rows: NonZeroLimit::new(100).expect("nonzero"),
            approval_required,
            row_policy: None,
            export: None,
        },
    }
}

fn read_permission() -> CapabilityPermissionV1 {
    CapabilityPermissionV1::ReadEntity("ticketdesk".to_owned(), id32(1))
}

#[test]
fn capability_records_come_together_again() {
    let migrate = || CapabilityPermissionV1::MigrateContract("ticketdesk".to_owned());
    let install = || CapabilityPermissionV1::InstallApplication("ticketdesk".to_owned());
    for (value, record_type) in [
        (
            record(vec![read_permission()], vec![CapabilityPermissionKindV1::ReadEntity], vec![]),
            RecordType::CapabilityRecordV1,
        ),
        (
            record(
                vec![read_permission(), migrate()],
                vec![CapabilityPermissionKindV1::MigrateContract],
                vec![],
            ),
            RecordType::CapabilityRecordV2,
        ),
        (
            record(vec![read_permission(), install()], vec![], vec![]),
            RecordType::CapabilityRecordV3,
        ),
        (
            record(vec![read_permission(), migrate(), install()], vec![], vec![id32(2)]),
            RecordType::CapabilityRecordV6,
        ),
    ] {
        let outgoing = encode_capability_record_v1(&value);
        assert_eq!(outgoing.record_type, record_type);
        let found = Ok(RegistryRecord {
            record_type: outgoing.record_type,
            message: Some(outgoing.message),
        });
        let item = decode_capability_record_v1(found, 120, Ok, Ok, |_| None)
            .expect("round trip");
        assert_eq!(item.charge.bytes, 120);
        assert_eq!(item.value, value);
    }
}

#[test]
fn records_of_other_types_are_no_capabilities() {
    let found = Ok(RegistryRecord {
        record_type: RecordType::CapabilityTokenLookupV1,
        message: None,
    });
    assert_eq!(
        decode_capability_record_v1(found, 120, Ok, Ok, |_| None).map_err(|error| error.kind()),
        Err(DurableCodecErrorKind::UnexpectedRecordType)
    );
}

#[test]
fn permissions_are_read_in_their_canonical_order() {
    // Lists that put migrations first, wherever the message holds them.
    let permissions = |mut values: Vec<CapabilityPermissionV1>| {
        values.sort_by_key(|value| !matches!(value, CapabilityPermissionV1::MigrateContract(_)));
        Ok(values)
    };
    let approvals = |mut values: Vec<CapabilityPermissionKindV1>| {
        values.sort_by_key(|value| *value != CapabilityPermissionKindV1::MigrateContract);
        Ok(values)
    };
    let value = record(
        vec![
            CapabilityPermissionV1::MigrateContract("ticketdesk".to_owned()),
            read_permission(),
        ],
        vec![
            CapabilityPermissionKindV1::MigrateContract,
            CapabilityPermissionKindV1::ReadEntity,
        ],
        vec![id32(2)],
    );
    let found = || {
        let outgoing = encode_capability_record_v1(&value);
        Ok(RegistryRecord {
            record_type: outgoing.record_type,
            message: Some(outgoing.message),
        })
    };
    let item = decode_capability_record_v1(found(), 120, permissions, approvals, |_| None)
        .expect("round trip");
    assert_eq!(item.value, value);
    // What the arrangements and the record's own rule refuse is refused.
    let limit = Some(DurableCodecErrorKind::LimitExceeded);
    assert_eq!(
        decode_capability_record_v1(
            found(),
            120,
            |_| Err(StorageValueError::LimitExceeded),
            approvals,
            |_| None
        )
        .err()
        .map(|error| error.kind()),
        limit
    );
    assert_eq!(
        decode_capability_record_v1(found(), 120, permissions, approvals, |_| Some(
            StorageValueError::LimitExceeded
        ))
        .err()
        .map(|error| error.kind()),
        limit
    );
    // What the rule refuses only once secret fields are named is corrupt.
    assert_eq!(
        decode_capability_record_v1(found(), 120, permissions, approvals, |value| {
            let named = !value.grant.field_visibility[0].secret_fields.is_empty();
            Some(StorageValueError::LimitExceeded).filter(|_| named)
        })
        .err()
        .map(|error| error.kind()),
        Some(DurableCodecErrorKind::CorruptData)
    );
}

fn full_record() -> StoredCapabilityRecordV1 {
    let mut value = record(
        vec![read_permission()],
        vec![CapabilityPermissionKindV1::ReadEntity],
        vec![id32(2)],
    );
    let partition = |key| ScopedPartitionV1 {
        lineage: "ticketdesk".to_owned(),
        partition_key: vec![key],
    };
    value.grant.partition_scope = PartitionScopeV1::Explicit(ExplicitPartitionScope {
        partitions: vec![partition(1), partition(2)],
    });
    value.grant.row_policy = Some(CapabilityRowPolicyGrantV1 {
        application_role_hash: Digest::from_bytes([8; 32]),
        principal_facts: vec![14, 1],
        bindings: vec![CapabilityRowPolicyBindingV1 {
            lineage: "ticketdesk".to_owned(),
            policy_name: "own".to_owned(),
            entity_type: id32(1),
            operations: vec![1, 2],
        }],
    });
    value.grant.export = Some(CapabilityExportGrantV1 {
        applications: vec![CapabilityApplicationExportGrantV1 {
            lineage: "ticketdesk".to_owned(),
            scope: 1,
            entities: true,
            events: false,
            provenance: false,
            public_audit: false,
        }],
    });
    value
}

type Damage = fn(&mut wire::CapabilityRecordV6);

fn damaged(damage: Damage) -> Option<DurableCodecErrorKind> {
    let outgoing = encode_capability_record_v1(&full_record());
    let mut message = outgoing.message;
    damage(&mut message);
    let found = Ok(RegistryRecord {
        record_type: outgoing.record_type,
        message: Some(message),
    });
    decode_capability_record_v1(found, 120, Ok, Ok, |_| None)
        .err()
        .map(|error| error.kind())
}

fn grant(message: &mut wire::CapabilityRecordV6) -> &mut wire::CapabilityGrantV1 {
    let base = message.base.as_mut().expect("base");
    base.grant.as_mut().expect("grant")
}

fn scope(message: &mut wire::CapabilityRecordV6) -> &mut wire::ExplicitPartitionScopeV1 {
    let scope = grant(message).partition_scope.as_mut().expect("scope");
    match scope.scope.as_mut().expect("scope") {
        wire::PartitionScopeV1Scope::Explicit(list) => list,
        wire::PartitionScopeV1Scope::All => panic!("partitions are listed"),
    }
}

fn permissions(message: &mut wire::CapabilityRecordV6) -> &mut wire::CapabilityPermissionsV1 {
    grant(message).permissions.as_mut().expect("permissions")
}

fn rows(
    message: &mut wire::CapabilityRecordV6,
) -> &mut wire::CapabilityRowPolicyGrantExtensionV1 {
    message.row_policy.as_mut().expect("row policies")
}

fn exports(message: &mut wire::CapabilityRecordV6) -> &mut wire::CapabilityExportGrantExtensionV1 {
    message.export.as_mut().expect("exports")
}

fn secrets(message: &mut wire::CapabilityRecordV6) -> &mut wire::CapabilitySecretVisibilityV1 {
    &mut message.secret.as_mut().expect("secrets").entries[0]
}

#[test]
fn lists_that_are_not_what_their_type_makes_of_them_are_corrupt() {
    assert_eq!(damaged(|_| ()), None);
    let damages: [Damage; 8] = [
        |message| scope(message).rebuilt = Ok(Vec::new()),
        |message| permissions(message).rebuilt = Ok(Vec::new()),
        |message| grant(message).field_visibility[0].rebuilt = Ok(vec![id32(1)]),
        |message| {
            let lists = grant(message).rebuilt.as_mut().expect("grant");
            lists.approval_required.clear();
        },
        |message| {
            let lists = grant(message).rebuilt.as_mut().expect("grant");
            lists.field_visibility.clear();
        },
        |message| rows(message).rebuilt = Ok(Vec::new()),
        |message| exports(message).rebuilt = Ok(Vec::new()),
        |message| secrets(message).rebuilt = Ok(vec![id32(2), id32(2)]),
    ];
    for damage in damages {
        assert_eq!(damaged(damage), Some(DurableCodecErrorKind::CorruptData));
    }
    // Partitions that were stored out of their canonical order are such a list.
    assert_eq!(
        damaged(|message| scope(message).partitions.swap(0, 1)),
        Some(DurableCodecErrorKind::CorruptData)
    );
}

#[test]
fn lists_that_their_type_refuses_for_a_limit_exceed_it() {
    let damages: [Damage; 11] = [
        |message| scope(message).rebuilt = Err(StorageValueError::LimitExceeded),
        |message| permissions(message).rebuilt = Err(StorageValueError::LimitExceeded),
        |message| {
            grant(message).field_visibility[0].rebuilt = Err(StorageValueError::SizeOverflow);
        },
        |message| grant(message).rebuilt = Err(StorageValueError::LimitExceeded),
        |message| rows(message).rebuilt = Err(StorageValueError::LimitExceeded),
        |message| rows(message).refusal = Some(StorageValueError::LimitExceeded),
        |message| rows(message).policies[0].refusal = Some(StorageValueError::LimitExceeded),
        |message| exports(message).rebuilt = Err(StorageValueError::SizeOverflow),
        |message| exports(message).refusal = Some(StorageValueError::LimitExceeded),
        |message| exports(message).applications[0].refusal = Some(StorageValueError::LimitExceeded),
        |message| secrets(message).rebuilt = Err(StorageValueError::LimitExceeded),
    ];
    for damage in damages {
        assert_eq!(damaged(damage), Some(DurableCodecErrorKind::LimitExceeded));
    }
    // What is refused for another reason, or read after an unsound part, is corrupt.
    let corrupt = Some(DurableCodecErrorKind::CorruptData);
    assert_eq!(
        damaged(|message| permissions(message).rebuilt = Err(StorageValueError::Duplicate)),
        corrupt
    );
    assert_eq!(
        damaged(|message| {
            grant(message).tenant_scope = None;
            permissions(message).rebuilt = Err(StorageValueError::LimitExceeded);
        }),
        corrupt
    );
    assert_eq!(
        damaged(|message| {
            message.migration = Some(wire::CapabilityLineageGrantExtensionV1 {
                contract_lineages: Vec::new(),
                approval_required: false,
            });
            permissions(message).rebuilt = Err(StorageValueError::LimitExceeded);
        }),
        corrupt
    );
    // Row policies are read before what stands beside the grant, secret fields after it.
    assert_eq!(
        damaged(|message| {
            message.base.as_mut().expect("base").header.revision = 0;
            rows(message).rebuilt = Err(StorageValueError::LimitExceeded);
        }),
        Some(DurableCodecErrorKind::LimitExceeded)
    );
    assert_eq!(
        damaged(|message| {
            message.base.as_mut().expect("base").header.revision = 0;
            secrets(message).rebuilt = Err(StorageValueError::LimitExceeded);
        }),
        corrupt
    );
}

#[test]
fn tags_that_are_wider_than_a_byte_are_corrupt() {
    for value in [256, -1, i32::MAX] {
        let mut message = encode_capability_record_v1(&full_record()).message;
        exports(&mut message).applications[0].scope = Vetted {
            value,
            accepted: true,
        };
        let found = Ok(RegistryRecord {
            record_type: RecordType::CapabilityRecordV6,
            message: Some(message),
        });
        assert_eq!(
            decode_capability_record_v1(found, 120, Ok, Ok, |_| None)
                .err()
                .map(|error| error.kind()),
            Some(DurableCodecErrorKind::CorruptData)
        );
    }
}
