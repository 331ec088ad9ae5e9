//! Which parts a capability record is written in, under which type, and which of them
//! a type lets through.

use vstd::prelude::*;

use crate::codec::capability_record::{capability_outcome, least_type, own_fields};
use crate::codec::envelope::RegistryRecord;
use crate::codec::error::{DurableCodecError, DurableCodecErrorKind};
use crate::codec::record_type::RecordType;
use crate::page::EncodedPageItem;
use crate::stored::capability::{
    CapabilityPermissionKindV1, CapabilityPermissionV1, PermissionView, SecretFieldsView,
};
use crate::stored::capability_record::{
    base_kinds, base_permissions, installation_lineages, migration_lineages, parts_of_record,
    place_of_entry, secret_entries, with_entries, with_entry, CapabilityRecordView,
    FieldVisibilityView, StoredCapabilityRecordV1,
};
use crate::value_error::StorageValueError;
use crate::wire;

verus! {

/// The lineage that a permission lets migrate.
pub open spec fn migrated(permission: PermissionView) -> Option<Seq<char>> {
    match permission {
        PermissionView::MigrateContract(lineage) => Some(lineage),
        _ => None,
    }
}

/// The lineage that a permission lets install.
pub open spec fn installed(permission: PermissionView) -> Option<Seq<char>> {
    match permission {
        PermissionView::InstallApplication(lineage) => Some(lineage),
        _ => None,
    }
}

/// The secret fields that a visibility names, beside its lineage and entity type.
pub open spec fn secrets_in(visibility: FieldVisibilityView) -> Option<SecretFieldsView> {
    if visibility.secret_fields.len() == 0 {
        None
    } else {
        Some(
            SecretFieldsView {
                lineage: visibility.visible.lineage,
                entity_type: visibility.visible.entity_type,
                secret_fields: visibility.secret_fields,
            },
        )
    }
}

proof fn permissions_fall_into_parts(permissions: Seq<PermissionView>)
    ensures
        base_permissions(permissions) == permissions.filter(
            |permission: PermissionView| migrated(permission) is None && installed(permission)
                is None,
        ),
        migration_lineages(permissions) == permissions.filter_map(
            |permission: PermissionView| migrated(permission),
        ),
        installation_lineages(permissions) == permissions.filter_map(
            |permission: PermissionView| installed(permission),
        ),
    decreases permissions.len(),
{
    reveal(Seq::filter);
    if permissions.len() > 0 {
        permissions_fall_into_parts(permissions.drop_last());
        assert(migration_lineages(permissions) =~= permissions.filter_map(
            |permission: PermissionView| migrated(permission),
        ));
        assert(installation_lineages(permissions) =~= permissions.filter_map(
            |permission: PermissionView| installed(permission),
        ));
    } else {
        assert(base_permissions(permissions) =~= permissions);
    }
}

proof fn kinds_fall_into_parts(kinds: Seq<CapabilityPermissionKindV1>)
    ensures
        base_kinds(kinds) == kinds.filter(
            |kind: CapabilityPermissionKindV1| !(kind is MigrateContract)
                && !(kind is InstallApplication),
        ),
    decreases kinds.len(),
{
    reveal(Seq::filter);
    if kinds.len() > 0 {
        kinds_fall_into_parts(kinds.drop_last());
    } else {
        assert(base_kinds(kinds) =~= kinds);
    }
}

proof fn secrets_fall_into_entries(visibility: Seq<FieldVisibilityView>)
    ensures
        secret_entries(visibility) == visibility.filter_map(
            |visibility: FieldVisibilityView| secrets_in(visibility),
        ),
    decreases visibility.len(),
{
    if visibility.len() > 0 {
        secrets_fall_into_entries(visibility.drop_last());
        assert(secret_entries(visibility) =~= visibility.filter_map(
            |visibility: FieldVisibilityView| secrets_in(visibility),
        ));
    }
}

/// A record is written as its base and an extension for each thing that the base cannot
/// hold. The base keeps, in order, every permission and every approval but those of
/// migrations and installations, and every visibility without its secret fields. An
/// extension is there exactly where there is something for it.
pub proof fn records_are_written_in_parts(record: CapabilityRecordView)
    ensures
        ({
            let grant = record.grant;
            let parts = parts_of_record(record);
            let migrations = grant.permissions.filter_map(
                |permission: PermissionView| migrated(permission),
            );
            let installations = grant.permissions.filter_map(
                |permission: PermissionView| installed(permission),
            );
            let secrets = grant.field_visibility.filter_map(
                |visibility: FieldVisibilityView| secrets_in(visibility),
            );
            &&& parts.base.header == record.header
            &&& parts.base.grant.tenant_scope == grant.tenant_scope
            &&& parts.base.grant.partition_scope == grant.partition_scope
            &&& parts.base.grant.max_scan_rows == grant.max_scan_rows
            &&& parts.base.grant.permissions.values == grant.permissions.filter(
                |permission: PermissionView| migrated(permission) is None && installed(permission)
                    is None,
            )
            &&& parts.base.grant.approval_required == grant.approval_required.filter(
                |kind: CapabilityPermissionKindV1| !(kind is MigrateContract)
                    && !(kind is InstallApplication),
            )
            &&& parts.base.grant.field_visibility.len() == grant.field_visibility.len()
            &&& forall|i: int|
                0 <= i < grant.field_visibility.len()
                    ==> #[trigger] parts.base.grant.field_visibility[i]
                    == grant.field_visibility[i].visible
            &&& match parts.migration {
                None => migrations.len() == 0,
                Some(extension) => migrations.len() > 0 && extension.lineages == migrations && (
                extension.approval_required <==> exists|i: int|
                    0 <= i < grant.approval_required.len()
                        && (#[trigger] grant.approval_required[i]) is MigrateContract),
            }
            &&& match parts.installation {
                None => installations.len() == 0,
                Some(extension) => installations.len() > 0 && extension.lineages == installations
                    && (extension.approval_required <==> exists|i: int|
                    0 <= i < grant.approval_required.len()
                        && (#[trigger] grant.approval_required[i]) is InstallApplication),
            }
            &&& parts.row_policy == grant.row_policy
            &&& parts.export == grant.export
            &&& match parts.secret {
                None => secrets.len() == 0,
                Some(extension) => secrets.len() > 0 && extension.entries == secrets,
            }
        }),
{
    let grant = record.grant;
    permissions_fall_into_parts(grant.permissions);
    kinds_fall_into_parts(grant.approval_required);
    secrets_fall_into_entries(grant.field_visibility);
    let migrate = CapabilityPermissionKindV1::MigrateContract;
    let install = CapabilityPermissionKindV1::InstallApplication;
    if grant.approval_required.contains(migrate) {
        let i = choose|i: int|
            0 <= i < grant.approval_required.len() && grant.approval_required[i] == migrate;
        assert(grant.approval_required[i] is MigrateContract);
    }
    if grant.approval_required.contains(install) {
        let i = choose|i: int|
            0 <= i < grant.approval_required.len() && grant.approval_required[i] == install;
        assert(grant.approval_required[i] is InstallApplication);
    }
}

/// A record has the first type that holds its last extension: secret fields need the
/// sixth, exports the fifth, row policies the fourth, installations the third,
/// migrations the second, and a record without extensions has the first.
pub proof fn records_have_the_type_of_their_last_extension(record: CapabilityRecordView)
    ensures
        ({
            let parts = parts_of_record(record);
            let found = least_type(parts);
            &&& found == RecordType::CapabilityRecordV6 <==> parts.secret is Some
            &&& found == RecordType::CapabilityRecordV5 <==> parts.secret is None && parts.export
                is Some
            &&& found == RecordType::CapabilityRecordV4 <==> parts.secret is None && parts.export
                is None && parts.row_policy is Some
            &&& found == RecordType::CapabilityRecordV3 <==> parts.secret is None && parts.export
                is None && parts.row_policy is None && parts.installation is Some
            &&& found == RecordType::CapabilityRecordV2 <==> parts.secret is None && parts.export
                is None && parts.row_policy is None && parts.installation is None
                && parts.migration is Some
            &&& found == RecordType::CapabilityRecordV1 <==> parts.secret is None && parts.export
                is None && parts.row_policy is None && parts.installation is None
                && parts.migration is None
        }),
{
}

/// A type lets through the extensions that records of it can have: the first none, the
/// second and the third migrations and installations, the fourth row policies as well,
/// the fifth exports as well, and the sixth all.
pub proof fn types_let_their_extensions_through(message: wire::CapabilityRecordV6)
    ensures
        ({
            let none = own_fields(RecordType::CapabilityRecordV1, message);
            none.base == message.base && none.migration is None && none.installation is None
                && none.row_policy is None && none.export is None && none.secret is None
        }),
        own_fields(RecordType::CapabilityRecordV3, message) == own_fields(
            RecordType::CapabilityRecordV2,
            message,
        ),
        ({
            let third = own_fields(RecordType::CapabilityRecordV3, message);
            third.base == message.base && third.migration == message.migration
                && third.installation == message.installation && third.row_policy is None
                && third.export is None && third.secret is None
        }),
        ({
            let fourth = own_fields(RecordType::CapabilityRecordV4, message);
            fourth.base == message.base && fourth.migration == message.migration
                && fourth.installation == message.installation && fourth.row_policy
                == message.row_policy && fourth.export is None && fourth.secret is None
        }),
        ({
            let fifth = own_fields(RecordType::CapabilityRecordV5, message);
            fifth.base == message.base && fifth.migration == message.migration
                && fifth.installation == message.installation && fifth.row_policy
                == message.row_policy && fifth.export == message.export && fifth.secret is None
        }),
        own_fields(RecordType::CapabilityRecordV6, message) == message,
{
}

/// A record without the extension that its type is for is corrupt, and one of a type that
/// is not that of capability records is unexpected.
pub proof fn records_hold_what_their_type_is_for<
    P: Fn(Vec<CapabilityPermissionV1>) -> Result<Vec<CapabilityPermissionV1>, StorageValueError>,
    K: Fn(Vec<CapabilityPermissionKindV1>) -> Result<
        Vec<CapabilityPermissionKindV1>,
        StorageValueError,
    >,
    R: Fn(&StoredCapabilityRecordV1) -> Option<StorageValueError>,
>(
    found: RegistryRecord<wire::CapabilityRecordV6>,
    encoded_len: usize,
    arrange_permissions: P,
    arrange_approvals: K,
    rule: R,
    result: Result<EncodedPageItem<StoredCapabilityRecordV1>, DurableCodecError>,
)
    requires
        capability_outcome(
            Ok(found),
            encoded_len,
            arrange_permissions,
            arrange_approvals,
            rule,
            result,
        ),
    ensures
        match found.record_type {
            RecordType::CapabilityRecordV1 => true,
            RecordType::CapabilityRecordV2 => found.message matches Some(message)
                && message.migration is None && message.installation is None ==> result == Err::<
                EncodedPageItem<StoredCapabilityRecordV1>,
                _,
            >(DurableCodecError { kind: DurableCodecErrorKind::CorruptData }),
            RecordType::CapabilityRecordV3 => found.message matches Some(message)
                && message.installation is None ==> result == Err::<
                EncodedPageItem<StoredCapabilityRecordV1>,
                _,
            >(DurableCodecError { kind: DurableCodecErrorKind::CorruptData }),
            RecordType::CapabilityRecordV4 => found.message matches Some(message)
                && message.row_policy is None ==> result == Err::<
                EncodedPageItem<StoredCapabilityRecordV1>,
                _,
            >(DurableCodecError { kind: DurableCodecErrorKind::CorruptData }),
            RecordType::CapabilityRecordV5 => found.message matches Some(message) && message.export
                is None ==> result == Err::<EncodedPageItem<StoredCapabilityRecordV1>, _>(
                DurableCodecError { kind: DurableCodecErrorKind::CorruptData },
            ),
            RecordType::CapabilityRecordV6 => found.message matches Some(message) && message.secret
                is None ==> result == Err::<EncodedPageItem<StoredCapabilityRecordV1>, _>(
                DurableCodecError { kind: DurableCodecErrorKind::CorruptData },
            ),
            _ => result == Err::<EncodedPageItem<StoredCapabilityRecordV1>, _>(
                DurableCodecError { kind: DurableCodecErrorKind::UnexpectedRecordType },
            ),
        },
{
}

/// Whether an entry and a visibility are of one lineage and entity type.
pub open spec fn of_one_type(visibility: FieldVisibilityView, entry: SecretFieldsView) -> bool {
    visibility.visible.lineage == entry.lineage && visibility.visible.entity_type
        == entry.entity_type
}

/// Whether a place is the first one of an entry's type.
pub open spec fn is_first_of_its_type(
    visibility: Seq<FieldVisibilityView>,
    entry: SecretFieldsView,
    place: int,
) -> bool {
    &&& 0 <= place < visibility.len()
    &&& of_one_type(visibility[place], entry)
    &&& forall|i: int| 0 <= i < place ==> !of_one_type(#[trigger] visibility[i], entry)
}

proof fn places_are_the_first_of_their_type(
    visibility: Seq<FieldVisibilityView>,
    entry: SecretFieldsView,
)
    ensures
        match place_of_entry(visibility, entry) {
            Some(place) => is_first_of_its_type(visibility, entry, place),
            None => forall|i: int|
                0 <= i < visibility.len() ==> !of_one_type(#[trigger] visibility[i], entry),
        },
    decreases visibility.len(),
{
    if visibility.len() > 0 && !of_one_type(visibility[0], entry) {
        let rest = visibility.skip(1);
        places_are_the_first_of_their_type(rest, entry);
        assert forall|i: int| 0 < i < visibility.len() implies #[trigger] visibility[i] == rest[i
            - 1] by {}
    }
}

/// An entry of secret fields goes to the first visibility of its lineage and entity type,
/// which may not have any yet; it gets the entry's, and everything else stays. Without
/// such a visibility the entry is refused.
pub proof fn secrets_go_to_their_visibility(
    visibility: Seq<FieldVisibilityView>,
    entry: SecretFieldsView,
)
    ensures
        match with_entry(visibility, entry) {
            None => forall|place: int| #[trigger]
                is_first_of_its_type(visibility, entry, place)
                    ==> visibility[place].secret_fields.len() > 0,
            Some(next) => exists|place: int| #[trigger]
                is_first_of_its_type(visibility, entry, place)
                    && visibility[place].secret_fields.len() == 0 && next.len() == visibility.len()
                    && next[place].visible == visibility[place].visible
                    && next[place].secret_fields == entry.secret_fields && forall|i: int|
                    0 <= i < visibility.len() && i != place ==> #[trigger] next[i]
                        == visibility[i],
        },
{
    places_are_the_first_of_their_type(visibility, entry);
    if let Some(place) = place_of_entry(visibility, entry) {
        assert forall|other: int| #[trigger]
            is_first_of_its_type(visibility, entry, other) implies other == place by {
            if other < place {
                assert(!of_one_type(visibility[other], entry));
            } else if place < other {
                assert(!of_one_type(visibility[place], entry));
            }
        }
    }
}

proof fn named_types_are_refused(
    visibility: Seq<FieldVisibilityView>,
    entries: Seq<SecretFieldsView>,
    place: int,
    j: int,
)
    requires
        0 <= j < entries.len(),
        is_first_of_its_type(visibility, entries[j], place),
        visibility[place].secret_fields.len() > 0,
    ensures
        with_entries(visibility, entries) is None,
    decreases entries.len(),
{
    secrets_go_to_their_visibility(visibility, entries[0]);
    if let Some(next) = with_entry(visibility, entries[0]) {
        let named = choose|named: int| #[trigger]
            is_first_of_its_type(visibility, entries[0], named)
                && visibility[named].secret_fields.len() == 0 && next.len() == visibility.len()
                && next[named].visible == visibility[named].visible && next[named].secret_fields
                == entries[0].secret_fields && forall|i: int|
                0 <= i < visibility.len() && i != named ==> #[trigger] next[i] == visibility[i];
        if j > 0 {
            let rest = entries.skip(1);
            assert(rest[j - 1] == entries[j]);
            assert(named != place);
            assert forall|i: int| 0 <= i < place implies !of_one_type(
                #[trigger] next[i],
                entries[j],
            ) by {
                assert(!of_one_type(visibility[i], entries[j]));
            }
            assert(is_first_of_its_type(next, rest[j - 1], place));
            named_types_are_refused(next, rest, place, j - 1);
        } else {
            if named < place {
                assert(!of_one_type(visibility[named], entries[0]));
            } else if place < named {
                assert(!of_one_type(visibility[place], entries[0]));
            }
        }
    }
}

/// The secret fields of one lineage and entity type are named once: two entries of one
/// type are refused where the first of them names any.
pub proof fn secrets_are_named_once(
    visibility: Seq<FieldVisibilityView>,
    entries: Seq<SecretFieldsView>,
    i: int,
    j: int,
)
    requires
        0 <= i < j < entries.len(),
        entries[i].lineage == entries[j].lineage,
        entries[i].entity_type == entries[j].entity_type,
        entries[i].secret_fields.len() > 0,
    ensures
        with_entries(visibility, entries) is None,
    decreases entries.len(),
{
    secrets_go_to_their_visibility(visibility, entries[0]);
    if let Some(next) = with_entry(visibility, entries[0]) {
        let rest = entries.skip(1);
        assert(rest[j - 1] == entries[j]);
        if i > 0 {
            assert(rest[i - 1] == entries[i]);
            secrets_are_named_once(next, rest, i - 1, j - 1);
        } else {
            let named = choose|named: int| #[trigger]
                is_first_of_its_type(visibility, entries[0], named)
                    && visibility[named].secret_fields.len() == 0 && next.len() == visibility.len()
                    && next[named].visible == visibility[named].visible
                    && next[named].secret_fields == entries[0].secret_fields && forall|k: int|
                    0 <= k < visibility.len() && k != named ==> #[trigger] next[k]
                        == visibility[k];
            assert forall|k: int| 0 <= k < named implies !of_one_type(
                #[trigger] next[k],
                rest[j - 1],
            ) by {
                assert(!of_one_type(visibility[k], entries[0]));
            }
            assert(is_first_of_its_type(next, rest[j - 1], named));
            named_types_are_refused(next, rest, named, j - 1);
        }
    }
}

} // verus!
