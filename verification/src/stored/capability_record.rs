//! Complete capability records, and how a grant's extensions come apart from it.

use vstd::prelude::*;

use crate::codec::error::{is_corrupt, value_failure, DurableCodecError, DurableCodecErrorKind};
use crate::codec::parts::{copy_ids, text_views};
use crate::ids::Id32;
use crate::page::NonZeroLimit;
use crate::stored::capability::{
    copy_kinds, copy_optional_export_extension, copy_optional_row_policy, copy_permission_list,
    optional_export_extension_view, optional_lineage_extension_view, optional_row_policy_view,
    permission_views, secret_fields_views, visible_fields_views, CapabilityExportGrantV1,
    CapabilityHeader, CapabilityHeaderView, CapabilityPermissionKindV1, CapabilityPermissionV1,
    CapabilityPermissionsV1, CapabilityRecordBase, CapabilityRecordBaseView, CapabilityRecordParts,
    CapabilityRecordPartsView, CapabilityRowPolicyGrantV1, ExportGrantView, GrantBase,
    GrantBaseView, LineageGrant, LineageGrantView, PartitionScopeV1, PartitionScopeView,
    PermissionView, PermissionsView, RowPolicyGrantView, SecretFields, SecretFieldsView,
    SecretGrant, SecretGrantView, VisibleFields, VisibleFieldsView,
};
use crate::stored::common::{TenantScope, TenantScopeView};
use crate::value_error::StorageValueError;

verus! {

/// What the visibility of one entity type is.
#[verifier::ext_equal]
pub ghost struct FieldVisibilityView {
    pub visible: VisibleFieldsView,
    pub secret_fields: Seq<Id32>,
}

/// The fields of one entity type that a grant shows, and the secret ones that it
/// names.
#[derive(Debug, PartialEq, Eq)]
pub struct EntityFieldVisibilityV1 {
    pub visible: VisibleFields,
    pub secret_fields: Vec<Id32>,
}

impl View for EntityFieldVisibilityV1 {
    type V = FieldVisibilityView;

    open spec fn view(&self) -> FieldVisibilityView {
        FieldVisibilityView { visible: self.visible@, secret_fields: self.secret_fields@ }
    }
}

/// The views of visibilities.
pub open spec fn visibility_views(values: Seq<EntityFieldVisibilityV1>) -> Seq<
    FieldVisibilityView,
> {
    Seq::new(values.len(), |i: int| values[i]@)
}

/// What a complete grant is.
#[verifier::ext_equal]
pub ghost struct CapabilityGrantView {
    pub tenant_scope: TenantScopeView,
    pub partition_scope: PartitionScopeView,
    pub permissions: Seq<PermissionView>,
    pub field_visibility: Seq<FieldVisibilityView>,
    pub max_scan_rows: NonZeroLimit,
    pub approval_required: Seq<CapabilityPermissionKindV1>,
    pub row_policy: Option<RowPolicyGrantView>,
    pub export: Option<ExportGrantView>,
}

/// A complete grant.
#[derive(Debug, PartialEq, Eq)]
pub struct CapabilityGrantV1 {
    pub tenant_scope: TenantScope,
    pub partition_scope: PartitionScopeV1,
    pub permissions: Vec<CapabilityPermissionV1>,
    pub field_visibility: Vec<EntityFieldVisibilityV1>,
    pub max_scan_rows: NonZeroLimit,
    pub approval_required: Vec<CapabilityPermissionKindV1>,
    pub row_policy: Option<CapabilityRowPolicyGrantV1>,
    pub export: Option<CapabilityExportGrantV1>,
}

impl View for CapabilityGrantV1 {
    type V = CapabilityGrantView;

    open spec fn view(&self) -> CapabilityGrantView {
        CapabilityGrantView {
            tenant_scope: self.tenant_scope@,
            partition_scope: self.partition_scope@,
            permissions: permission_views(self.permissions@),
            field_visibility: visibility_views(self.field_visibility@),
            max_scan_rows: self.max_scan_rows,
            approval_required: self.approval_required@,
            row_policy: optional_row_policy_view(self.row_policy),
            export: optional_export_extension_view(self.export),
        }
    }
}

/// What a capability record is.
#[verifier::ext_equal]
pub ghost struct CapabilityRecordView {
    pub header: CapabilityHeaderView,
    pub grant: CapabilityGrantView,
}

/// One complete durable capability record.
#[derive(Debug, PartialEq, Eq)]
pub struct StoredCapabilityRecordV1 {
    pub header: CapabilityHeader,
    pub grant: CapabilityGrantV1,
}

impl View for StoredCapabilityRecordV1 {
    type V = CapabilityRecordView;

    open spec fn view(&self) -> CapabilityRecordView {
        CapabilityRecordView { header: self.header@, grant: self.grant@ }
    }
}

/// A permission that lives in the base grant, not in an extension.
pub open spec fn in_base(permission: PermissionView) -> bool {
    !(permission is MigrateContract || permission is InstallApplication)
}

/// The permissions that stay in the base grant.
pub open spec fn base_permissions(permissions: Seq<PermissionView>) -> Seq<PermissionView>
    decreases permissions.len(),
{
    if permissions.len() == 0 {
        Seq::empty()
    } else {
        let leading = base_permissions(permissions.drop_last());
        if in_base(permissions.last()) {
            leading.push(permissions.last())
        } else {
            leading
        }
    }
}

/// The lineages whose contracts may be migrated.
pub open spec fn migration_lineages(permissions: Seq<PermissionView>) -> Seq<Seq<char>>
    decreases permissions.len(),
{
    if permissions.len() == 0 {
        Seq::empty()
    } else {
        let leading = migration_lineages(permissions.drop_last());
        match permissions.last() {
            PermissionView::MigrateContract(lineage) => leading.push(lineage),
            _ => leading,
        }
    }
}

/// The lineages whose applications may be installed.
pub open spec fn installation_lineages(permissions: Seq<PermissionView>) -> Seq<Seq<char>>
    decreases permissions.len(),
{
    if permissions.len() == 0 {
        Seq::empty()
    } else {
        let leading = installation_lineages(permissions.drop_last());
        match permissions.last() {
            PermissionView::InstallApplication(lineage) => leading.push(lineage),
            _ => leading,
        }
    }
}

/// A kind that is approved in the base grant, not in an extension.
pub open spec fn kind_in_base(kind: CapabilityPermissionKindV1) -> bool {
    kind != CapabilityPermissionKindV1::MigrateContract && kind
        != CapabilityPermissionKindV1::InstallApplication
}

/// The kinds whose approval stays in the base grant.
pub open spec fn base_kinds(kinds: Seq<CapabilityPermissionKindV1>) -> Seq<
    CapabilityPermissionKindV1,
>
    decreases kinds.len(),
{
    if kinds.len() == 0 {
        Seq::empty()
    } else {
        let leading = base_kinds(kinds.drop_last());
        if kind_in_base(kinds.last()) {
            leading.push(kinds.last())
        } else {
            leading
        }
    }
}

/// The extension that lineages form, if there are any.
pub open spec fn lineage_grant(lineages: Seq<Seq<char>>, approval_required: bool) -> Option<
    LineageGrantView,
> {
    if lineages.len() == 0 {
        None
    } else {
        Some(LineageGrantView { lineages, approval_required })
    }
}

/// The visible fields of visibilities.
pub open spec fn visible_parts(visibility: Seq<FieldVisibilityView>) -> Seq<VisibleFieldsView> {
    Seq::new(visibility.len(), |i: int| visibility[i].visible)
}

/// The secret fields that a visibility names, as an entry of their own.
pub open spec fn secret_entry(visibility: FieldVisibilityView) -> SecretFieldsView {
    SecretFieldsView {
        lineage: visibility.visible.lineage,
        entity_type: visibility.visible.entity_type,
        secret_fields: visibility.secret_fields,
    }
}

/// The entries of the visibilities that name secret fields.
pub open spec fn secret_entries(visibility: Seq<FieldVisibilityView>) -> Seq<SecretFieldsView>
    decreases visibility.len(),
{
    if visibility.len() == 0 {
        Seq::empty()
    } else {
        let leading = secret_entries(visibility.drop_last());
        if visibility.last().secret_fields.len() > 0 {
            leading.push(secret_entry(visibility.last()))
        } else {
            leading
        }
    }
}

/// The parts that a record comes apart into: the base grant without migration and
/// installation permissions and without secret fields, and an extension for each
/// of these that the grant holds.
pub open spec fn parts_of_record(record: CapabilityRecordView) -> CapabilityRecordPartsView {
    let grant = record.grant;
    let secrets = secret_entries(grant.field_visibility);
    CapabilityRecordPartsView {
        base: CapabilityRecordBaseView {
            header: record.header,
            grant: GrantBaseView {
                tenant_scope: grant.tenant_scope,
                partition_scope: grant.partition_scope,
                permissions: PermissionsView { values: base_permissions(grant.permissions) },
                field_visibility: visible_parts(grant.field_visibility),
                max_scan_rows: grant.max_scan_rows,
                approval_required: base_kinds(grant.approval_required),
            },
        },
        migration: lineage_grant(
            migration_lineages(grant.permissions),
            grant.approval_required.contains(CapabilityPermissionKindV1::MigrateContract),
        ),
        installation: lineage_grant(
            installation_lineages(grant.permissions),
            grant.approval_required.contains(CapabilityPermissionKindV1::InstallApplication),
        ),
        row_policy: grant.row_policy,
        export: grant.export,
        secret: if secrets.len() == 0 {
            None
        } else {
            Some(SecretGrantView { entries: secrets })
        },
    }
}

struct SplitPermissions {
    base: Vec<CapabilityPermissionV1>,
    migration: Vec<String>,
    installation: Vec<String>,
}

fn split_permissions(permissions: &[CapabilityPermissionV1]) -> (result: SplitPermissions)
    ensures
        permission_views(result.base@) == base_permissions(permission_views(permissions@)),
        text_views(result.migration@) == migration_lineages(permission_views(permissions@)),
        text_views(result.installation@) == installation_lineages(permission_views(permissions@)),
{
    let ghost views = permission_views(permissions@);
    let mut base: Vec<CapabilityPermissionV1> = Vec::new();
    let mut migration: Vec<String> = Vec::new();
    let mut installation: Vec<String> = Vec::new();
    let mut i: usize = 0;
    assert(permission_views(base@) =~= Seq::empty());
    assert(text_views(migration@) =~= Seq::empty());
    assert(text_views(installation@) =~= Seq::empty());
    while i < permissions.len()
        invariant
            i <= permissions@.len(),
            views == permission_views(permissions@),
            permission_views(base@) == base_permissions(views.take(i as int)),
            text_views(migration@) == migration_lineages(views.take(i as int)),
            text_views(installation@) == installation_lineages(views.take(i as int)),
        decreases permissions@.len() - i,
    {
        let ghost before_base = base@;
        let ghost before_migration = migration@;
        let ghost before_installation = installation@;
        assert(views.take(i as int + 1).drop_last() =~= views.take(i as int));
        assert(views.take(i as int + 1).last() == permissions@[i as int]@);
        match &permissions[i] {
            CapabilityPermissionV1::MigrateContract(lineage) => {
                migration.push(lineage.clone());
                assert(text_views(migration@) =~= text_views(before_migration).push(lineage@));
            },
            CapabilityPermissionV1::InstallApplication(lineage) => {
                installation.push(lineage.clone());
                assert(text_views(installation@) =~= text_views(before_installation).push(
                    lineage@,
                ));
            },
            permission => {
                base.push(permission.clone());
                assert(permission_views(base@) =~= permission_views(before_base).push(
                    permission@,
                ));
            },
        }
        i += 1;
    }
    assert(views.take(i as int) =~= views);
    SplitPermissions { base, migration, installation }
}

struct SplitKinds {
    base: Vec<CapabilityPermissionKindV1>,
    migration: bool,
    installation: bool,
}

fn split_kinds(kinds: &[CapabilityPermissionKindV1]) -> (result: SplitKinds)
    ensures
        result.base@ == base_kinds(kinds@),
        result.migration == kinds@.contains(CapabilityPermissionKindV1::MigrateContract),
        result.installation == kinds@.contains(CapabilityPermissionKindV1::InstallApplication),
{
    let mut base: Vec<CapabilityPermissionKindV1> = Vec::new();
    let mut migration = false;
    let mut installation = false;
    let mut i: usize = 0;
    while i < kinds.len()
        invariant
            i <= kinds@.len(),
            base@ == base_kinds(kinds@.take(i as int)),
            migration == exists|k: int|
                0 <= k < i && (#[trigger] kinds@[k])
                    == CapabilityPermissionKindV1::MigrateContract,
            installation == exists|k: int|
                0 <= k < i && (#[trigger] kinds@[k])
                    == CapabilityPermissionKindV1::InstallApplication,
        decreases kinds@.len() - i,
    {
        assert(kinds@.take(i as int + 1).drop_last() =~= kinds@.take(i as int));
        let kind = kinds[i];
        assert(kinds@[i as int] == kind);
        if kind == CapabilityPermissionKindV1::MigrateContract {
            migration = true;
        } else if kind == CapabilityPermissionKindV1::InstallApplication {
            installation = true;
        } else {
            base.push(kind);
        }
        i += 1;
    }
    assert(kinds@.take(i as int) =~= kinds@);
    SplitKinds { base, migration, installation }
}

fn lineage_extension_of(lineages: Vec<String>, approval_required: bool) -> (result: Option<
    LineageGrant,
>)
    ensures
        crate::stored::capability::optional_lineage_extension_view(result) == lineage_grant(
            text_views(lineages@),
            approval_required,
        ),
{
    if lineages.len() == 0 {
        None
    } else {
        Some(LineageGrant { lineages, approval_required })
    }
}

/// Derives the secret-field extension: entries exist only for visibilities that
/// name secret fields, and the base grant never carries them.
fn secret_extension_from_grant(visibility: &[EntityFieldVisibilityV1]) -> (result: Option<
    SecretGrant,
>)
    ensures
        crate::stored::capability::optional_secret_extension_view(result) == ({
            let secrets = secret_entries(visibility_views(visibility@));
            if secrets.len() == 0 {
                None
            } else {
                Some(SecretGrantView { entries: secrets })
            }
        }),
{
    let ghost views = visibility_views(visibility@);
    let mut entries: Vec<SecretFields> = Vec::new();
    let mut i: usize = 0;
    assert(secret_fields_views(entries@) =~= Seq::empty());
    while i < visibility.len()
        invariant
            i <= visibility@.len(),
            views == visibility_views(visibility@),
            secret_fields_views(entries@) == secret_entries(views.take(i as int)),
        decreases visibility@.len() - i,
    {
        assert(views.take(i as int + 1).drop_last() =~= views.take(i as int));
        assert(views.take(i as int + 1).last() == visibility@[i as int]@);
        let ghost before = entries@;
        if visibility[i].secret_fields.len() > 0 {
            let entry = SecretFields {
                lineage: visibility[i].visible.lineage.clone(),
                entity_type: visibility[i].visible.entity_type,
                secret_fields: copy_ids(&visibility[i].secret_fields),
            };
            assert(entry@ == secret_entry(views[i as int]));
            entries.push(entry);
            assert(secret_fields_views(entries@) =~= secret_fields_views(before).push(entry@));
        }
        i += 1;
    }
    assert(views.take(i as int) =~= views);
    assert(secret_fields_views(entries@).len() == entries@.len());
    if entries.len() == 0 {
        None
    } else {
        Some(SecretGrant { entries })
    }
}

fn visible_fields_of(visibility: &[EntityFieldVisibilityV1]) -> (result: Vec<VisibleFields>)
    ensures
        visible_fields_views(result@) == visible_parts(visibility_views(visibility@)),
{
    let mut result: Vec<VisibleFields> = Vec::new();
    let mut i: usize = 0;
    while i < visibility.len()
        invariant
            i <= visibility@.len(),
            result@.len() == i,
            forall|k: int| 0 <= k < i ==> (#[trigger] result@[k])@ == visibility@[k].visible@,
        decreases visibility@.len() - i,
    {
        result.push(visibility[i].visible.clone());
        i += 1;
    }
    assert(visible_fields_views(result@) =~= visible_parts(visibility_views(visibility@)));
    result
}

/// Takes a record apart.
pub fn split_record(record: &StoredCapabilityRecordV1) -> (result: CapabilityRecordParts)
    ensures
        result@ == parts_of_record(record@),
{
    let grant = &record.grant;
    let permissions = split_permissions(&grant.permissions);
    let kinds = split_kinds(&grant.approval_required);
    CapabilityRecordParts {
        base: CapabilityRecordBase {
            header: record.header.clone(),
            grant: GrantBase {
                tenant_scope: grant.tenant_scope.clone(),
                partition_scope: grant.partition_scope.clone(),
                permissions: CapabilityPermissionsV1 { values: permissions.base },
                field_visibility: visible_fields_of(&grant.field_visibility),
                max_scan_rows: grant.max_scan_rows,
                approval_required: kinds.base,
            },
        },
        migration: lineage_extension_of(permissions.migration, kinds.migration),
        installation: lineage_extension_of(permissions.installation, kinds.installation),
        row_policy: copy_optional_row_policy(&grant.row_policy),
        export: copy_optional_export_extension(&grant.export),
        secret: secret_extension_from_grant(&grant.field_visibility),
    }
}

/// The migration permissions of lineages.
pub open spec fn migrations(lineages: Seq<Seq<char>>) -> Seq<PermissionView> {
    Seq::new(lineages.len(), |i: int| PermissionView::MigrateContract(lineages[i]))
}

/// The installation permissions of lineages.
pub open spec fn installations(lineages: Seq<Seq<char>>) -> Seq<PermissionView> {
    Seq::new(lineages.len(), |i: int| PermissionView::InstallApplication(lineages[i]))
}

/// A kind once, if an optional extension requires its approval.
pub open spec fn approval_in(
    extension: Option<LineageGrantView>,
    kind: CapabilityPermissionKindV1,
) -> Seq<CapabilityPermissionKindV1> {
    if extension matches Some(grant) && grant.approval_required {
        seq![kind]
    } else {
        Seq::empty()
    }
}

/// Visible fields without secret ones.
pub open spec fn without_secrets(visible: Seq<VisibleFieldsView>) -> Seq<FieldVisibilityView> {
    Seq::new(
        visible.len(),
        |i: int| FieldVisibilityView { visible: visible[i], secret_fields: Seq::empty() },
    )
}

/// Whether an entry is about the entity type of a visibility.
pub open spec fn about(visibility: FieldVisibilityView, entry: SecretFieldsView) -> bool {
    visibility.visible.lineage == entry.lineage && visibility.visible.entity_type
        == entry.entity_type
}

/// The first visibility that an entry is about, if there is one.
pub open spec fn place_of_entry(
    visibility: Seq<FieldVisibilityView>,
    entry: SecretFieldsView,
) -> Option<int>
    decreases visibility.len(),
{
    if visibility.len() == 0 {
        None
    } else if about(visibility[0], entry) {
        Some(0)
    } else {
        match place_of_entry(visibility.skip(1), entry) {
            Some(place) => Some(place + 1),
            None => None,
        }
    }
}

/// Visibilities after one secret entry: it names a visibility that has no secret
/// fields yet.
pub open spec fn with_entry(
    visibility: Seq<FieldVisibilityView>,
    entry: SecretFieldsView,
) -> Option<Seq<FieldVisibilityView>> {
    match place_of_entry(visibility, entry) {
        None => None,
        Some(place) => if visibility[place].secret_fields.len() > 0 {
            None
        } else {
            Some(
                visibility.update(
                    place,
                    FieldVisibilityView {
                        secret_fields: entry.secret_fields,
                        ..visibility[place]
                    },
                ),
            )
        },
    }
}

/// Visibilities after all secret entries in turn.
pub open spec fn with_entries(
    visibility: Seq<FieldVisibilityView>,
    entries: Seq<SecretFieldsView>,
) -> Option<Seq<FieldVisibilityView>>
    decreases entries.len(),
{
    if entries.len() == 0 {
        Some(visibility)
    } else {
        match with_entry(visibility, entries[0]) {
            None => None,
            Some(next) => with_entries(next, entries.skip(1)),
        }
    }
}

/// Whether an arrangement gives an outcome for permissions: their canonical list, or
/// why they are refused.
pub open spec fn permissions_give<
    P: Fn(Vec<CapabilityPermissionV1>) -> Result<Vec<CapabilityPermissionV1>, StorageValueError>,
>(
    arrange: P,
    joined: Seq<PermissionView>,
    outcome: Result<Seq<PermissionView>, StorageValueError>,
) -> bool {
    exists|
        given: Vec<CapabilityPermissionV1>,
        answer: Result<Vec<CapabilityPermissionV1>, StorageValueError>,
    |
        permission_views(given@) == joined && #[trigger] arrange.ensures((given,), answer)
            && outcome == match answer {
            Ok(values) => Ok(permission_views(values@)),
            Err(error) => Err(error),
        }
}

/// Whether an arrangement gives an outcome for approvals: their canonical list, or
/// why they are refused.
pub open spec fn approvals_give<
    K: Fn(Vec<CapabilityPermissionKindV1>) -> Result<
        Vec<CapabilityPermissionKindV1>,
        StorageValueError,
    >,
>(
    arrange: K,
    joined: Seq<CapabilityPermissionKindV1>,
    outcome: Result<Seq<CapabilityPermissionKindV1>, StorageValueError>,
) -> bool {
    exists|
        given: Vec<CapabilityPermissionKindV1>,
        answer: Result<Vec<CapabilityPermissionKindV1>, StorageValueError>,
    |
        given@ == joined && #[trigger] arrange.ensures((given,), answer) && outcome
            == match answer {
            Ok(values) => Ok(values@),
            Err(error) => Err(error),
        }
}

/// The permissions and the approvals of a grant.
#[verifier::ext_equal]
pub ghost struct GrantLists {
    pub permissions: Seq<PermissionView>,
    pub approvals: Seq<CapabilityPermissionKindV1>,
}

/// The lists of a base grant.
pub open spec fn base_lists(base: GrantBaseView) -> GrantLists {
    GrantLists { permissions: base.permissions.values, approvals: base.approval_required }
}

/// What joining an optional extension to the lists of a grant comes to: the joined
/// permissions are arranged, then the joined approvals.
pub open spec fn extended<
    P: Fn(Vec<CapabilityPermissionV1>) -> Result<Vec<CapabilityPermissionV1>, StorageValueError>,
    K: Fn(Vec<CapabilityPermissionKindV1>) -> Result<
        Vec<CapabilityPermissionKindV1>,
        StorageValueError,
    >,
>(
    arrange_permissions: P,
    arrange_approvals: K,
    lists: GrantLists,
    added: Option<GrantLists>,
    outcome: Result<GrantLists, StorageValueError>,
) -> bool {
    match added {
        None => outcome == Ok::<GrantLists, StorageValueError>(lists),
        Some(added) => exists|permissions: Result<Seq<PermissionView>, StorageValueError>|
            #[trigger] permissions_give(
                arrange_permissions,
                lists.permissions + added.permissions,
                permissions,
            ) && match permissions {
                Err(error) => outcome == Err::<GrantLists, StorageValueError>(error),
                Ok(permissions) => approvals_arranged(
                    arrange_approvals,
                    GrantLists { permissions, approvals: lists.approvals + added.approvals },
                    outcome,
                ),
            },
    }
}

/// What arranging the approvals of a grant comes to.
pub open spec fn approvals_arranged<
    K: Fn(Vec<CapabilityPermissionKindV1>) -> Result<
        Vec<CapabilityPermissionKindV1>,
        StorageValueError,
    >,
>(
    arrange_approvals: K,
    lists: GrantLists,
    outcome: Result<GrantLists, StorageValueError>,
) -> bool {
    exists|approvals: Result<Seq<CapabilityPermissionKindV1>, StorageValueError>| #[trigger]
        approvals_give(arrange_approvals, lists.approvals, approvals) && outcome
            == match approvals {
            Err(error) => Err(error),
            Ok(approvals) => Ok(GrantLists { permissions: lists.permissions, approvals }),
        }
}

/// What an optional migration extension adds to a grant.
pub open spec fn migration_lists(extension: Option<LineageGrantView>) -> Option<GrantLists> {
    match extension {
        None => None,
        Some(grant) => Some(
            GrantLists {
                permissions: migrations(grant.lineages),
                approvals: approval_in(extension, CapabilityPermissionKindV1::MigrateContract),
            },
        ),
    }
}

/// What an optional installation extension adds to a grant.
pub open spec fn installation_lists(extension: Option<LineageGrantView>) -> Option<GrantLists> {
    match extension {
        None => None,
        Some(grant) => Some(
            GrantLists {
                permissions: installations(grant.lineages),
                approvals: approval_in(extension, CapabilityPermissionKindV1::InstallApplication),
            },
        ),
    }
}

/// The record of parts without secret fields, given its lists.
pub open spec fn record_with(
    parts: CapabilityRecordPartsView,
    lists: GrantLists,
) -> CapabilityRecordView {
    CapabilityRecordView {
        header: parts.base.header,
        grant: CapabilityGrantView {
            tenant_scope: parts.base.grant.tenant_scope,
            partition_scope: parts.base.grant.partition_scope,
            permissions: lists.permissions,
            field_visibility: without_secrets(parts.base.grant.field_visibility),
            max_scan_rows: parts.base.grant.max_scan_rows,
            approval_required: lists.approvals,
            row_policy: parts.row_policy,
            export: parts.export,
        },
    }
}

/// A record with other visibilities and approvals.
pub open spec fn renamed(
    record: CapabilityRecordView,
    field_visibility: Seq<FieldVisibilityView>,
    approval_required: Seq<CapabilityPermissionKindV1>,
) -> CapabilityRecordView {
    CapabilityRecordView {
        grant: CapabilityGrantView { field_visibility, approval_required, ..record.grant },
        ..record
    }
}

/// The permissions and approvals of a record.
pub open spec fn record_lists(record: CapabilityRecordView) -> GrantLists {
    GrantLists {
        permissions: record.grant.permissions,
        approvals: record.grant.approval_required,
    }
}

/// What naming the secret fields of a record comes to: they find their visibilities,
/// and the approvals are arranged once more.
pub open spec fn secrets_named<
    K: Fn(Vec<CapabilityPermissionKindV1>) -> Result<
        Vec<CapabilityPermissionKindV1>,
        StorageValueError,
    >,
>(
    arrange_approvals: K,
    record: CapabilityRecordView,
    secret: SecretGrantView,
    outcome: Result<CapabilityRecordView, DurableCodecErrorKind>,
) -> bool {
    match with_entries(record.grant.field_visibility, secret.entries) {
        None => outcome == Err::<CapabilityRecordView, DurableCodecErrorKind>(
            DurableCodecErrorKind::CorruptData,
        ),
        Some(field_visibility) => exists|last: Result<GrantLists, StorageValueError>| #[trigger]
            approvals_arranged(arrange_approvals, record_lists(record), last) && outcome
                == match last {
                Err(error) => Err(value_failure(error)),
                Ok(lists) => Ok(renamed(record, field_visibility, lists.approvals)),
            },
    }
}

/// What parts come to that hold the lists of the base and of a migration extension:
/// those of an installation extension are joined next.
pub open spec fn installed<
    P: Fn(Vec<CapabilityPermissionV1>) -> Result<Vec<CapabilityPermissionV1>, StorageValueError>,
    K: Fn(Vec<CapabilityPermissionKindV1>) -> Result<
        Vec<CapabilityPermissionKindV1>,
        StorageValueError,
    >,
>(
    arrange_permissions: P,
    arrange_approvals: K,
    parts: CapabilityRecordPartsView,
    lists: GrantLists,
    outcome: Result<CapabilityRecordView, DurableCodecErrorKind>,
) -> bool {
    exists|next: Result<GrantLists, StorageValueError>| #[trigger]
        extended(
            arrange_permissions,
            arrange_approvals,
            lists,
            installation_lists(parts.installation),
            next,
        ) && match next {
            Err(error) => outcome == Err::<CapabilityRecordView, DurableCodecErrorKind>(
                value_failure(error),
            ),
            Ok(lists) => outcome == Ok::<CapabilityRecordView, DurableCodecErrorKind>(
                record_with(parts, lists),
            ),
        }
}

/// What parts are put together to before secret fields are named: migration permissions
/// and approvals are joined to the base ones and arranged, and installation ones
/// likewise.
pub open spec fn assembled<
    P: Fn(Vec<CapabilityPermissionV1>) -> Result<Vec<CapabilityPermissionV1>, StorageValueError>,
    K: Fn(Vec<CapabilityPermissionKindV1>) -> Result<
        Vec<CapabilityPermissionKindV1>,
        StorageValueError,
    >,
>(
    arrange_permissions: P,
    arrange_approvals: K,
    parts: CapabilityRecordPartsView,
    outcome: Result<CapabilityRecordView, DurableCodecErrorKind>,
) -> bool {
    exists|first: Result<GrantLists, StorageValueError>| #[trigger]
        extended(
            arrange_permissions,
            arrange_approvals,
            base_lists(parts.base.grant),
            migration_lists(parts.migration),
            first,
        ) && match first {
            Err(error) => outcome == Err::<CapabilityRecordView, DurableCodecErrorKind>(
                value_failure(error),
            ),
            Ok(lists) => installed(arrange_permissions, arrange_approvals, parts, lists, outcome),
        }
}

fn apply_secret_extension(
    visibility: &mut Vec<EntityFieldVisibilityV1>,
    entries: &[SecretFields],
) -> (result: Result<(), DurableCodecError>)
    ensures
        match with_entries(visibility_views(old(visibility)@), secret_fields_views(entries@)) {
            Some(next) => result is Ok && visibility_views(final(visibility)@) == next,
            None => result is Err && is_corrupt(result->Err_0),
        },
{
    let ghost start = visibility_views(visibility@);
    let ghost entry_views = secret_fields_views(entries@);
    let mut i: usize = 0;
    assert(entry_views.skip(0) =~= entry_views);
    while i < entries.len()
        invariant
            i <= entries@.len(),
            entry_views == secret_fields_views(entries@),
            start == visibility_views(old(visibility)@),
            with_entries(start, entry_views) == with_entries(
                visibility_views(visibility@),
                entry_views.skip(i as int),
            ),
        decreases entries@.len() - i,
    {
        assert(entry_views.skip(i as int)[0] == entries@[i as int]@);
        assert(entry_views.skip(i as int).skip(1) =~= entry_views.skip(i as int + 1));
        let place = match find_entry(visibility, &entries[i]) {
            Some(place) => place,
            None => {
                return Err(DurableCodecError::corrupt());
            },
        };
        if visibility[place].secret_fields.len() > 0 {
            return Err(DurableCodecError::corrupt());
        }
        let ghost before = visibility@;
        let updated = EntityFieldVisibilityV1 {
            visible: visibility[place].visible.clone(),
            secret_fields: copy_ids(&entries[i].secret_fields),
        };
        visibility.set(place, updated);
        assert(visibility_views(visibility@) =~= visibility_views(before).update(
            place as int,
            updated@,
        ));
        i += 1;
    }
    Ok(())
}

fn find_entry(visibility: &[EntityFieldVisibilityV1], entry: &SecretFields) -> (result: Option<
    usize,
>)
    ensures
        match result {
            Some(place) => place < visibility@.len() && place_of_entry(
                visibility_views(visibility@),
                entry@,
            ) == Some(place as int),
            None => place_of_entry(visibility_views(visibility@), entry@) is None,
        },
{
    let ghost views = visibility_views(visibility@);
    let mut i: usize = 0;
    assert(views.skip(0) =~= views);
    while i < visibility.len()
        invariant
            i <= visibility@.len(),
            views == visibility_views(visibility@),
            place_of_entry(views, entry@) == match place_of_entry(views.skip(i as int), entry@) {
                Some(place) => Some(place + i),
                None => None,
            },
        decreases visibility@.len() - i,
    {
        assert(views.skip(i as int)[0] == visibility@[i as int]@);
        assert(views.skip(i as int).skip(1) =~= views.skip(i as int + 1));
        if visibility[i].visible.lineage == entry.lineage && visibility[i].visible.entity_type
            == entry.entity_type {
            return Some(i);
        }
        i += 1;
    }
    None
}

fn add_lineages(
    permissions: &mut Vec<CapabilityPermissionV1>,
    lineages: &[String],
    migration: bool,
)
    ensures
        permission_views(final(permissions)@)
            == permission_views(old(permissions)@) + if migration {
            migrations(text_views(lineages@))
        } else {
            installations(text_views(lineages@))
        },
{
    let ghost start = permission_views(permissions@);
    let ghost added = if migration {
        migrations(text_views(lineages@))
    } else {
        installations(text_views(lineages@))
    };
    let mut i: usize = 0;
    assert(start + added.take(0) =~= start);
    while i < lineages.len()
        invariant
            i <= lineages@.len(),
            added == if migration {
                migrations(text_views(lineages@))
            } else {
                installations(text_views(lineages@))
            },
            permission_views(permissions@) == start + added.take(i as int),
        decreases lineages@.len() - i,
    {
        let ghost before = permissions@;
        let permission = if migration {
            CapabilityPermissionV1::MigrateContract(lineages[i].clone())
        } else {
            CapabilityPermissionV1::InstallApplication(lineages[i].clone())
        };
        assert(permission@ == added[i as int]);
        permissions.push(permission);
        assert(permission_views(permissions@) =~= permission_views(before).push(permission@));
        i += 1;
        assert(added.take(i as int) =~= added.take(i as int - 1).push(added[i as int - 1]));
        assert(permission_views(permissions@) =~= start + added.take(i as int));
    }
    assert(added.take(i as int) =~= added);
}

fn arranged_approvals<
    K: Fn(Vec<CapabilityPermissionKindV1>) -> Result<
        Vec<CapabilityPermissionKindV1>,
        StorageValueError,
    >,
>(arrange: &K, joined: Vec<CapabilityPermissionKindV1>) -> (result: Result<
    Vec<CapabilityPermissionKindV1>,
    StorageValueError,
>)
    requires
        forall|values: Vec<CapabilityPermissionKindV1>| #[trigger] arrange.requires((values,)),
    ensures
        approvals_give(
            *arrange,
            joined@,
            match result {
                Ok(values) => Ok(values@),
                Err(error) => Err(error),
            },
        ),
{
    let answer = arrange(joined);
    assert(arrange.ensures((joined,), answer));
    answer
}

fn arranged_permissions<
    P: Fn(Vec<CapabilityPermissionV1>) -> Result<Vec<CapabilityPermissionV1>, StorageValueError>,
>(arrange: &P, joined: Vec<CapabilityPermissionV1>) -> (result: Result<
    Vec<CapabilityPermissionV1>,
    StorageValueError,
>)
    requires
        forall|values: Vec<CapabilityPermissionV1>| #[trigger] arrange.requires((values,)),
    ensures
        permissions_give(
            *arrange,
            permission_views(joined@),
            match result {
                Ok(values) => Ok(permission_views(values@)),
                Err(error) => Err(error),
            },
        ),
{
    let answer = arrange(joined);
    assert(arrange.ensures((joined,), answer));
    answer
}

struct Lists {
    permissions: Vec<CapabilityPermissionV1>,
    approvals: Vec<CapabilityPermissionKindV1>,
}

impl Lists {
    spec fn lists(self) -> GrantLists {
        GrantLists {
            permissions: permission_views(self.permissions@),
            approvals: self.approvals@,
        }
    }
}

spec fn lists_outcome(result: Result<Lists, StorageValueError>) -> Result<
    GrantLists,
    StorageValueError,
> {
    match result {
        Ok(lists) => Ok(lists.lists()),
        Err(error) => Err(error),
    }
}

fn extend_lists<
    P: Fn(Vec<CapabilityPermissionV1>) -> Result<Vec<CapabilityPermissionV1>, StorageValueError>,
    K: Fn(Vec<CapabilityPermissionKindV1>) -> Result<
        Vec<CapabilityPermissionKindV1>,
        StorageValueError,
    >,
>(
    arrange_permissions: &P,
    arrange_approvals: &K,
    lists: Lists,
    extension: &Option<LineageGrant>,
    migration: bool,
) -> (result: Result<Lists, StorageValueError>)
    requires
        forall|values: Vec<CapabilityPermissionV1>| #[trigger]
            arrange_permissions.requires((values,)),
        forall|values: Vec<CapabilityPermissionKindV1>| #[trigger]
            arrange_approvals.requires((values,)),
    ensures
        extended(
            *arrange_permissions,
            *arrange_approvals,
            lists.lists(),
            if migration {
                migration_lists(optional_lineage_extension_view(*extension))
            } else {
                installation_lists(optional_lineage_extension_view(*extension))
            },
            lists_outcome(result),
        ),
{
    let extension = match extension {
        Some(extension) => extension,
        None => return Ok(lists),
    };
    let ghost added = if migration {
        migration_lists(Some(extension@))->Some_0
    } else {
        installation_lists(Some(extension@))->Some_0
    };
    let mut permissions = lists.permissions;
    let mut approvals = lists.approvals;
    add_lineages(&mut permissions, &extension.lineages, migration);
    let permissions = match arranged_permissions(arrange_permissions, permissions) {
        Ok(permissions) => permissions,
        Err(error) => {
            assert(permissions_give(
                *arrange_permissions,
                lists.lists().permissions + added.permissions,
                Err(error),
            ));
            return Err(error);
        },
    };
    assert(permissions_give(
        *arrange_permissions,
        lists.lists().permissions + added.permissions,
        Ok(permission_views(permissions@)),
    ));
    if extension.approval_required {
        approvals.push(
            if migration {
                CapabilityPermissionKindV1::MigrateContract
            } else {
                CapabilityPermissionKindV1::InstallApplication
            },
        );
    }
    assert(approvals@ =~= lists.lists().approvals + added.approvals);
    arrange_lists(arrange_approvals, Lists { permissions, approvals })
}

fn arrange_lists<
    K: Fn(Vec<CapabilityPermissionKindV1>) -> Result<
        Vec<CapabilityPermissionKindV1>,
        StorageValueError,
    >,
>(arrange_approvals: &K, lists: Lists) -> (result: Result<Lists, StorageValueError>)
    requires
        forall|values: Vec<CapabilityPermissionKindV1>| #[trigger]
            arrange_approvals.requires((values,)),
    ensures
        approvals_arranged(*arrange_approvals, lists.lists(), lists_outcome(result)),
{
    match arranged_approvals(arrange_approvals, lists.approvals) {
        Ok(approvals) => {
            assert(approvals_give(*arrange_approvals, lists.lists().approvals, Ok(approvals@)));
            Ok(Lists { permissions: lists.permissions, approvals })
        },
        Err(error) => {
            assert(approvals_give(*arrange_approvals, lists.lists().approvals, Err(error)));
            Err(error)
        },
    }
}

/// Puts parts together to a record without secret fields, given the canonical
/// arrangements of permissions and of approvals.
pub fn assemble_record<
    P: Fn(Vec<CapabilityPermissionV1>) -> Result<Vec<CapabilityPermissionV1>, StorageValueError>,
    K: Fn(Vec<CapabilityPermissionKindV1>) -> Result<
        Vec<CapabilityPermissionKindV1>,
        StorageValueError,
    >,
>(
    parts: &CapabilityRecordParts,
    arrange_permissions: &P,
    arrange_approvals: &K,
) -> (result: Result<StoredCapabilityRecordV1, DurableCodecError>)
    requires
        forall|values: Vec<CapabilityPermissionV1>| #[trigger]
            arrange_permissions.requires((values,)),
        forall|values: Vec<CapabilityPermissionKindV1>| #[trigger]
            arrange_approvals.requires((values,)),
    ensures
        assembled(
            *arrange_permissions,
            *arrange_approvals,
            parts@,
            match result {
                Ok(record) => Ok(record@),
                Err(error) => Err(error.kind),
            },
        ),
{
    let base = &parts.base.grant;
    let lists = Lists {
        permissions: copy_permission_list(&base.permissions.values),
        approvals: copy_kinds(&base.approval_required),
    };
    assert(lists.lists() =~= base_lists(parts@.base.grant));
    let first = extend_lists(
        arrange_permissions,
        arrange_approvals,
        lists,
        &parts.migration,
        true,
    );
    assert(extended(
        *arrange_permissions,
        *arrange_approvals,
        base_lists(parts@.base.grant),
        migration_lists(parts@.migration),
        lists_outcome(first),
    ));
    let lists = match first {
        Ok(lists) => lists,
        Err(error) => return Err(DurableCodecError::from_storage_value(error)),
    };
    let ghost joined = lists.lists();
    let next = extend_lists(
        arrange_permissions,
        arrange_approvals,
        lists,
        &parts.installation,
        false,
    );
    assert(extended(
        *arrange_permissions,
        *arrange_approvals,
        joined,
        installation_lists(parts@.installation),
        lists_outcome(next),
    ));
    let lists = match next {
        Ok(lists) => lists,
        Err(error) => {
            let failure = DurableCodecError::from_storage_value(error);
            assert(installed(
                *arrange_permissions,
                *arrange_approvals,
                parts@,
                joined,
                Err(failure.kind),
            ));
            return Err(failure);
        },
    };
    let record = StoredCapabilityRecordV1 {
        header: parts.base.header.clone(),
        grant: CapabilityGrantV1 {
            tenant_scope: base.tenant_scope.clone(),
            partition_scope: base.partition_scope.clone(),
            permissions: lists.permissions,
            field_visibility: blank_visibility(&base.field_visibility),
            max_scan_rows: base.max_scan_rows,
            approval_required: lists.approvals,
            row_policy: copy_optional_row_policy(&parts.row_policy),
            export: copy_optional_export_extension(&parts.export),
        },
    };
    assert(installed(*arrange_permissions, *arrange_approvals, parts@, joined, Ok(record@)));
    Ok(record)
}

/// Names the secret fields of a record, given the canonical arrangement of approvals.
pub fn name_secrets<
    K: Fn(Vec<CapabilityPermissionKindV1>) -> Result<
        Vec<CapabilityPermissionKindV1>,
        StorageValueError,
    >,
>(
    record: StoredCapabilityRecordV1,
    secret: &SecretGrant,
    arrange_approvals: K,
) -> (result: Result<StoredCapabilityRecordV1, DurableCodecError>)
    requires
        forall|values: Vec<CapabilityPermissionKindV1>| #[trigger]
            arrange_approvals.requires((values,)),
    ensures
        secrets_named(
            arrange_approvals,
            record@,
            secret@,
            match result {
                Ok(record) => Ok(record@),
                Err(error) => Err(error.kind),
            },
        ),
{
    let ghost before = record@;
    let header = record.header;
    let grant = record.grant;
    let mut field_visibility = grant.field_visibility;
    apply_secret_extension(&mut field_visibility, &secret.entries)?;
    let lists = Lists { permissions: grant.permissions, approvals: grant.approval_required };
    assert(lists.lists() =~= record_lists(before));
    let last = arrange_lists(&arrange_approvals, lists);
    assert(approvals_arranged(arrange_approvals, record_lists(before), lists_outcome(last)));
    let lists = match last {
        Ok(lists) => lists,
        Err(error) => return Err(DurableCodecError::from_storage_value(error)),
    };
    let named = StoredCapabilityRecordV1 {
        header,
        grant: CapabilityGrantV1 {
            tenant_scope: grant.tenant_scope,
            partition_scope: grant.partition_scope,
            permissions: lists.permissions,
            field_visibility,
            max_scan_rows: grant.max_scan_rows,
            approval_required: lists.approvals,
            row_policy: grant.row_policy,
            export: grant.export,
        },
    };
    assert(named@ =~= renamed(
        before,
        visibility_views(field_visibility@),
        lists.approvals@,
    ));
    Ok(named)
}

fn blank_visibility(visible: &[VisibleFields]) -> (result: Vec<EntityFieldVisibilityV1>)
    ensures
        visibility_views(result@) == without_secrets(visible_fields_views(visible@)),
{
    let mut result: Vec<EntityFieldVisibilityV1> = Vec::new();
    let mut i: usize = 0;
    while i < visible.len()
        invariant
            i <= visible@.len(),
            result@.len() == i,
            forall|k: int|
                0 <= k < i ==> (#[trigger] result@[k])@ == (FieldVisibilityView {
                    visible: visible@[k]@,
                    secret_fields: Seq::empty(),
                }),
        decreases visible@.len() - i,
    {
        let row = EntityFieldVisibilityV1 {
            visible: visible[i].clone(),
            secret_fields: Vec::new(),
        };
        assert(row@.secret_fields =~= Seq::empty());
        result.push(row);
        i += 1;
    }
    assert(visibility_views(result@) =~= without_secrets(visible_fields_views(visible@)));
    result
}

proof fn split_permissions_keep_all(permissions: Seq<PermissionView>)
    ensures
        (base_permissions(permissions) + migrations(migration_lineages(permissions))
            + installations(installation_lineages(permissions))).to_multiset()
            == permissions.to_multiset(),
    decreases permissions.len(),
{
    broadcast use vstd::seq_lib::group_to_multiset_ensures;

    let base = base_permissions(permissions);
    let migrated = migrations(migration_lineages(permissions));
    let installed = installations(installation_lineages(permissions));
    vstd::seq_lib::lemma_multiset_commutative(base, migrated);
    vstd::seq_lib::lemma_multiset_commutative(base + migrated, installed);
    if permissions.len() > 0 {
        let leading = permissions.drop_last();
        let last = permissions.last();
        split_permissions_keep_all(leading);
        let base0 = base_permissions(leading);
        let migrated0 = migrations(migration_lineages(leading));
        let installed0 = installations(installation_lineages(leading));
        vstd::seq_lib::lemma_multiset_commutative(base0, migrated0);
        vstd::seq_lib::lemma_multiset_commutative(base0 + migrated0, installed0);
        assert(permissions =~= leading.push(last));
        match last {
            PermissionView::MigrateContract(lineage) => {
                assert(migrated =~= migrated0.push(last));
            },
            PermissionView::InstallApplication(lineage) => {
                assert(installed =~= installed0.push(last));
            },
            _ => {},
        }
        assert((base + migrated + installed).to_multiset() =~= permissions.to_multiset());
    } else {
        assert(base + migrated + installed =~= permissions);
    }
}

proof fn lineages_come_from_permissions(permissions: Seq<PermissionView>)
    ensures
        migration_lineages(permissions).len() > 0 <==> exists|i: int|
            0 <= i < permissions.len() && (#[trigger] permissions[i]) is MigrateContract,
        installation_lineages(permissions).len() > 0 <==> exists|i: int|
            0 <= i < permissions.len() && (#[trigger] permissions[i]) is InstallApplication,
    decreases permissions.len(),
{
    if permissions.len() > 0 {
        let leading = permissions.drop_last();
        lineages_come_from_permissions(leading);
        assert forall|i: int| 0 <= i < leading.len() implies leading[i] == permissions[i] by {}
        if migration_lineages(leading).len() > 0 {
            let i = choose|i: int|
                0 <= i < leading.len() && (#[trigger] leading[i]) is MigrateContract;
            assert(permissions[i] is MigrateContract);
        }
        if installation_lineages(leading).len() > 0 {
            let i = choose|i: int|
                0 <= i < leading.len() && (#[trigger] leading[i]) is InstallApplication;
            assert(permissions[i] is InstallApplication);
        }
        if exists|i: int| 0 <= i < permissions.len() && (#[trigger] permissions[i])
            is MigrateContract {
            let i = choose|i: int|
                0 <= i < permissions.len() && (#[trigger] permissions[i]) is MigrateContract;
            if i < leading.len() {
                assert(leading[i] is MigrateContract);
            }
        }
        if exists|i: int| 0 <= i < permissions.len() && (#[trigger] permissions[i])
            is InstallApplication {
            let i = choose|i: int|
                0 <= i < permissions.len() && (#[trigger] permissions[i]) is InstallApplication;
            if i < leading.len() {
                assert(leading[i] is InstallApplication);
            }
        }
        if permissions.last() is MigrateContract {
            assert(permissions[permissions.len() - 1] is MigrateContract);
        }
        if permissions.last() is InstallApplication {
            assert(permissions[permissions.len() - 1] is InstallApplication);
        }
    }
}

proof fn base_kinds_keep_the_rest(kinds: Seq<CapabilityPermissionKindV1>)
    requires
        kinds.no_duplicates(),
    ensures
        (base_kinds(kinds) + (if kinds.contains(CapabilityPermissionKindV1::MigrateContract) {
            seq![CapabilityPermissionKindV1::MigrateContract]
        } else {
            Seq::empty()
        }) + (if kinds.contains(CapabilityPermissionKindV1::InstallApplication) {
            seq![CapabilityPermissionKindV1::InstallApplication]
        } else {
            Seq::empty()
        })).to_multiset() == kinds.to_multiset(),
    decreases kinds.len(),
{
    broadcast use vstd::seq_lib::group_to_multiset_ensures;

    let migrate = CapabilityPermissionKindV1::MigrateContract;
    let install = CapabilityPermissionKindV1::InstallApplication;
    let flag = |held: Seq<CapabilityPermissionKindV1>, kind: CapabilityPermissionKindV1|
        if held.contains(kind) {
            seq![kind]
        } else {
            Seq::<CapabilityPermissionKindV1>::empty()
        };
    let base = base_kinds(kinds);
    let all = base + flag(kinds, migrate) + flag(kinds, install);
    vstd::seq_lib::lemma_multiset_commutative(base, flag(kinds, migrate));
    vstd::seq_lib::lemma_multiset_commutative(base + flag(kinds, migrate), flag(kinds, install));
    if kinds.len() > 0 {
        let leading = kinds.drop_last();
        let last = kinds.last();
        assert(leading.no_duplicates());
        base_kinds_keep_the_rest(leading);
        let base0 = base_kinds(leading);
        vstd::seq_lib::lemma_multiset_commutative(base0, flag(leading, migrate));
        vstd::seq_lib::lemma_multiset_commutative(
            base0 + flag(leading, migrate),
            flag(leading, install),
        );
        assert(kinds =~= leading.push(last));
        assert(!leading.contains(last)) by {
            if leading.contains(last) {
                let i = choose|i: int| 0 <= i < leading.len() && leading[i] == last;
                assert(kinds[i] == kinds[kinds.len() - 1]);
            }
        }
        assert forall|kind: CapabilityPermissionKindV1| #[trigger]
            kinds.contains(kind) == (leading.contains(kind) || kind == last) by {
            if kinds.contains(kind) {
                let i = choose|i: int| 0 <= i < kinds.len() && kinds[i] == kind;
                if i < leading.len() {
                    assert(leading[i] == kind);
                }
            }
            if leading.contains(kind) {
                let i = choose|i: int| 0 <= i < leading.len() && leading[i] == kind;
                assert(kinds[i] == kind);
            }
            if kind == last {
                assert(kinds[kinds.len() - 1] == kind);
            }
        }
        assert(seq![migrate] =~= Seq::<CapabilityPermissionKindV1>::empty().push(migrate));
        assert(seq![install] =~= Seq::<CapabilityPermissionKindV1>::empty().push(install));
        assert(all.to_multiset() =~= kinds.to_multiset());
    } else {
        assert(all =~= kinds);
    }
}

/// No two visibilities are about the same entity type.
pub open spec fn visibilities_distinct(visibility: Seq<FieldVisibilityView>) -> bool {
    forall|i: int, j: int|
        0 <= i < visibility.len() && 0 <= j < visibility.len() && about(
            #[trigger] visibility[i],
            secret_entry(#[trigger] visibility[j]),
        ) ==> i == j
}

/// Visibilities of which only the first ones show their secret fields.
spec fn partly_secret(visibility: Seq<FieldVisibilityView>, count: int) -> Seq<
    FieldVisibilityView,
> {
    Seq::new(
        visibility.len(),
        |i: int|
            if i < count {
                visibility[i]
            } else {
                FieldVisibilityView { secret_fields: Seq::empty(), ..visibility[i] }
            },
    )
}

proof fn place_is_found(
    visibility: Seq<FieldVisibilityView>,
    entry: SecretFieldsView,
    place: int,
)
    requires
        0 <= place < visibility.len(),
        about(visibility[place], entry),
        forall|i: int| 0 <= i < place ==> !about(#[trigger] visibility[i], entry),
    ensures
        place_of_entry(visibility, entry) == Some(place),
    decreases place,
{
    if place > 0 {
        assert(!about(visibility[0], entry));
        let rest = visibility.skip(1);
        assert forall|i: int| 0 <= i < place - 1 implies !about(#[trigger] rest[i], entry) by {
            assert(rest[i] == visibility[i + 1]);
        }
        place_is_found(rest, entry, place - 1);
    }
}

proof fn appended_entries(
    visibility: Seq<FieldVisibilityView>,
    entries: Seq<SecretFieldsView>,
    entry: SecretFieldsView,
)
    ensures
        with_entries(visibility, entries.push(entry)) == match with_entries(visibility, entries) {
            Some(next) => with_entry(next, entry),
            None => None,
        },
    decreases entries.len(),
{
    reveal_with_fuel(with_entries, 2);
    let all = entries.push(entry);
    if entries.len() == 0 {
        assert(all[0] == entry);
        assert(all.skip(1).len() == 0);
    } else {
        assert(all[0] == entries[0]);
        assert(all.skip(1) =~= entries.skip(1).push(entry));
        match with_entry(visibility, entries[0]) {
            Some(next) => {
                appended_entries(next, entries.skip(1), entry);
            },
            None => {},
        }
    }
}

proof fn secrets_come_back(visibility: Seq<FieldVisibilityView>, count: int)
    requires
        visibilities_distinct(visibility),
        0 <= count <= visibility.len(),
    ensures
        with_entries(partly_secret(visibility, 0), secret_entries(visibility.take(count))) == Some(
            partly_secret(visibility, count),
        ),
    decreases count,
{
    if count > 0 {
        secrets_come_back(visibility, count - 1);
        let taken = visibility.take(count);
        assert(taken.drop_last() =~= visibility.take(count - 1));
        let last = visibility[count - 1];
        let held = partly_secret(visibility, count - 1);
        if last.secret_fields.len() > 0 {
            appended_entries(
                partly_secret(visibility, 0),
                secret_entries(visibility.take(count - 1)),
                secret_entry(last),
            );
            assert forall|i: int| 0 <= i < count - 1 implies !about(
                #[trigger] held[i],
                secret_entry(last),
            ) by {
                if about(held[i], secret_entry(last)) {
                    assert(about(visibility[i], secret_entry(visibility[count - 1])));
                }
            }
            place_is_found(held, secret_entry(last), count - 1);
            assert(with_entry(held, secret_entry(last))->Some_0 =~= partly_secret(
                visibility,
                count,
            ));
        } else {
            assert(last.secret_fields =~= Seq::empty());
            assert(held =~= partly_secret(visibility, count));
        }
    } else {
        assert(visibility.take(0) =~= Seq::empty());
    }
}

/// Permissions of which none is in an extension stay as they are.
proof fn base_permissions_stay(permissions: Seq<PermissionView>)
    requires
        migration_lineages(permissions).len() == 0,
        installation_lineages(permissions).len() == 0,
    ensures
        base_permissions(permissions) == permissions,
    decreases permissions.len(),
{
    if permissions.len() > 0 {
        base_permissions_stay(permissions.drop_last());
        assert(permissions.drop_last().push(permissions.last()) =~= permissions);
    } else {
        assert(permissions =~= Seq::empty());
    }
}

/// Approvals of which none is in an extension stay as they are.
proof fn base_kinds_stay(kinds: Seq<CapabilityPermissionKindV1>)
    requires
        !kinds.contains(CapabilityPermissionKindV1::MigrateContract),
        !kinds.contains(CapabilityPermissionKindV1::InstallApplication),
    ensures
        base_kinds(kinds) == kinds,
    decreases kinds.len(),
{
    if kinds.len() > 0 {
        let leading = kinds.drop_last();
        assert forall|kind: CapabilityPermissionKindV1| #[trigger] leading.contains(kind) implies
            kinds.contains(kind) by {
            let i = choose|i: int| 0 <= i < leading.len() && leading[i] == kind;
            assert(kinds[i] == kind);
        }
        assert(kinds.contains(kinds[kinds.len() - 1]));
        base_kinds_stay(leading);
        assert(leading.push(kinds.last()) =~= kinds);
    } else {
        assert(kinds =~= Seq::empty());
    }
}

/// Permissions come apart and are joined to the same list where those of the
/// extensions stand last: migrations from `migrations_at` on, installations from
/// `installations_at` on.
pub proof fn permissions_that_stand_last_stay(
    permissions: Seq<PermissionView>,
    migrations_at: int,
    installations_at: int,
)
    requires
        0 <= migrations_at <= installations_at <= permissions.len(),
        forall|i: int| 0 <= i < migrations_at ==> in_base(#[trigger] permissions[i]),
        forall|i: int|
            migrations_at <= i < installations_at ==> (#[trigger] permissions[i])
                is MigrateContract,
        forall|i: int|
            installations_at <= i < permissions.len() ==> (#[trigger] permissions[i])
                is InstallApplication,
    ensures
        base_permissions(permissions) + migrations(migration_lineages(permissions))
            + installations(installation_lineages(permissions)) == permissions,
        migration_lineages(permissions).len() == installations_at - migrations_at,
        installation_lineages(permissions).len() == permissions.len() - installations_at,
    decreases permissions.len(),
{
    let base = base_permissions(permissions);
    let migrated = migrations(migration_lineages(permissions));
    let installed = installations(installation_lineages(permissions));
    if permissions.len() > 0 {
        let leading = permissions.drop_last();
        let last = permissions.last();
        let at = permissions.len() - 1;
        assert(permissions[at] == last);
        if installations_at < permissions.len() {
            permissions_that_stand_last_stay(leading, migrations_at, installations_at);
        } else if migrations_at < permissions.len() {
            permissions_that_stand_last_stay(leading, migrations_at, at);
        } else {
            permissions_that_stand_last_stay(leading, at, at);
        }
        let base0 = base_permissions(leading);
        let migrated0 = migrations(migration_lineages(leading));
        let installed0 = installations(installation_lineages(leading));
        match last {
            PermissionView::MigrateContract(_) => {
                assert(migrated =~= migrated0.push(last));
                assert(installed0.len() == 0);
            },
            PermissionView::InstallApplication(_) => {
                assert(installed =~= installed0.push(last));
            },
            _ => {
                assert(migrated0.len() == 0);
                assert(installed0.len() == 0);
            },
        }
        assert(base + migrated + installed =~= (base0 + migrated0 + installed0).push(last));
        assert(leading.push(last) =~= permissions);
    } else {
        assert(base + migrated + installed =~= permissions);
    }
}

/// An arrangement of permissions that keeps what it is given, and that gives one list
/// for all its permissions in whatever order.
pub open spec fn permissions_arrange_to<
    P: Fn(Vec<CapabilityPermissionV1>) -> Result<Vec<CapabilityPermissionV1>, StorageValueError>,
>(arrange: P, list: Seq<PermissionView>) -> bool {
    &&& forall|
        joined: Seq<PermissionView>,
        outcome: Result<Seq<PermissionView>, StorageValueError>,
    |
        #[trigger] permissions_give(arrange, joined, outcome)
            && joined.to_multiset().subset_of(list.to_multiset()) ==> outcome is Ok
            && outcome->Ok_0.to_multiset() == joined.to_multiset()
    &&& forall|
        joined: Seq<PermissionView>,
        outcome: Result<Seq<PermissionView>, StorageValueError>,
    |
        #[trigger] permissions_give(arrange, joined, outcome) && joined.to_multiset()
            == list.to_multiset() ==> outcome == Ok::<Seq<PermissionView>, StorageValueError>(list)
}

/// An arrangement of approvals that keeps what it is given, and that gives one list
/// for all its approvals in whatever order.
pub open spec fn approvals_arrange_to<
    K: Fn(Vec<CapabilityPermissionKindV1>) -> Result<
        Vec<CapabilityPermissionKindV1>,
        StorageValueError,
    >,
>(arrange: K, list: Seq<CapabilityPermissionKindV1>) -> bool {
    &&& forall|
        joined: Seq<CapabilityPermissionKindV1>,
        outcome: Result<Seq<CapabilityPermissionKindV1>, StorageValueError>,
    |
        #[trigger] approvals_give(arrange, joined, outcome) && joined.to_multiset().subset_of(
            list.to_multiset(),
        ) ==> outcome is Ok && outcome->Ok_0.to_multiset() == joined.to_multiset()
    &&& forall|
        joined: Seq<CapabilityPermissionKindV1>,
        outcome: Result<Seq<CapabilityPermissionKindV1>, StorageValueError>,
    |
        #[trigger] approvals_give(arrange, joined, outcome) && joined.to_multiset()
            == list.to_multiset() ==> outcome == Ok::<
            Seq<CapabilityPermissionKindV1>,
            StorageValueError,
        >(list)
}

proof fn extensions_arrange<
    P: Fn(Vec<CapabilityPermissionV1>) -> Result<Vec<CapabilityPermissionV1>, StorageValueError>,
    K: Fn(Vec<CapabilityPermissionKindV1>) -> Result<
        Vec<CapabilityPermissionKindV1>,
        StorageValueError,
    >,
>(
    arrange_permissions: P,
    arrange_approvals: K,
    lists: GrantLists,
    added: Option<GrantLists>,
    all: GrantLists,
    rest: GrantLists,
    outcome: Result<GrantLists, StorageValueError>,
)
    requires
        permissions_arrange_to(arrange_permissions, all.permissions),
        approvals_arrange_to(arrange_approvals, all.approvals),
        added is Some ==> lists.permissions.to_multiset().add(
            added->Some_0.permissions.to_multiset(),
        ).add(rest.permissions.to_multiset()) == all.permissions.to_multiset(),
        added is Some ==> lists.approvals.to_multiset().add(
            added->Some_0.approvals.to_multiset(),
        ).add(rest.approvals.to_multiset()) == all.approvals.to_multiset(),
        extended(arrange_permissions, arrange_approvals, lists, added, outcome),
    ensures
        outcome is Ok,
        added is None ==> outcome->Ok_0 == lists,
        added matches Some(added) ==> {
            &&& outcome->Ok_0.permissions.to_multiset() == lists.permissions.to_multiset().add(
                added.permissions.to_multiset(),
            )
            &&& outcome->Ok_0.approvals.to_multiset() == lists.approvals.to_multiset().add(
                added.approvals.to_multiset(),
            )
            &&& rest.permissions.len() == 0 ==> outcome->Ok_0.permissions == all.permissions
            &&& rest.approvals.len() == 0 ==> outcome->Ok_0.approvals == all.approvals
        },
{
    broadcast use vstd::seq_lib::group_to_multiset_ensures;

    if let Some(added) = added {
        let permissions = lists.permissions + added.permissions;
        let approvals = lists.approvals + added.approvals;
        vstd::seq_lib::lemma_multiset_commutative(lists.permissions, added.permissions);
        vstd::seq_lib::lemma_multiset_commutative(lists.approvals, added.approvals);
        assert(permissions.to_multiset().subset_of(all.permissions.to_multiset()));
        assert(approvals.to_multiset().subset_of(all.approvals.to_multiset()));
        if rest.permissions.len() == 0 {
            assert(permissions.to_multiset() =~= all.permissions.to_multiset());
        }
        if rest.approvals.len() == 0 {
            assert(approvals.to_multiset() =~= all.approvals.to_multiset());
        }
    }
}

/// A record without the secret fields that it names.
pub open spec fn secretless(record: CapabilityRecordView) -> CapabilityRecordView {
    renamed(
        record,
        without_secrets(visible_parts(record.grant.field_visibility)),
        record.grant.approval_required,
    )
}

/// A record that comes apart and is put together again is the record that it was but
/// for its secret fields, where the arrangements keep what they are given and give the
/// record's own lists for them in whatever order.
///
/// Approvals are listed once each, and extended ones only beside a permission of
/// their kind.
pub proof fn records_come_together_again<
    P: Fn(Vec<CapabilityPermissionV1>) -> Result<Vec<CapabilityPermissionV1>, StorageValueError>,
    K: Fn(Vec<CapabilityPermissionKindV1>) -> Result<
        Vec<CapabilityPermissionKindV1>,
        StorageValueError,
    >,
>(
    arrange_permissions: P,
    arrange_approvals: K,
    record: CapabilityRecordView,
    outcome: Result<CapabilityRecordView, DurableCodecErrorKind>,
)
    requires
        record.grant.approval_required.no_duplicates(),
        record.grant.approval_required.contains(CapabilityPermissionKindV1::MigrateContract)
            ==> exists|i: int|
            0 <= i < record.grant.permissions.len() && (#[trigger] record.grant.permissions[i])
                is MigrateContract,
        record.grant.approval_required.contains(CapabilityPermissionKindV1::InstallApplication)
            ==> exists|i: int|
            0 <= i < record.grant.permissions.len() && (#[trigger] record.grant.permissions[i])
                is InstallApplication,
        permissions_arrange_to(arrange_permissions, record.grant.permissions),
        approvals_arrange_to(arrange_approvals, record.grant.approval_required),
        assembled(arrange_permissions, arrange_approvals, parts_of_record(record), outcome),
    ensures
        outcome == Ok::<CapabilityRecordView, DurableCodecErrorKind>(secretless(record)),
{
    broadcast use vstd::seq_lib::group_to_multiset_ensures;

    let grant = record.grant;
    let parts = parts_of_record(record);
    let all = GrantLists { permissions: grant.permissions, approvals: grant.approval_required };
    let base = base_lists(parts.base.grant);
    let nothing = GrantLists { permissions: Seq::empty(), approvals: Seq::empty() };
    let migrated = match migration_lists(parts.migration) {
        Some(lists) => lists,
        None => nothing,
    };
    let installed_lists = match installation_lists(parts.installation) {
        Some(lists) => lists,
        None => nothing,
    };
    split_permissions_keep_all(grant.permissions);
    lineages_come_from_permissions(grant.permissions);
    base_kinds_keep_the_rest(grant.approval_required);
    assert(migrated.permissions =~= migrations(migration_lineages(grant.permissions)));
    assert(installed_lists.permissions =~= installations(
        installation_lineages(grant.permissions),
    ));
    vstd::seq_lib::lemma_multiset_commutative(base.permissions, migrated.permissions);
    vstd::seq_lib::lemma_multiset_commutative(
        base.permissions + migrated.permissions,
        installed_lists.permissions,
    );
    vstd::seq_lib::lemma_multiset_commutative(base.approvals, migrated.approvals);
    vstd::seq_lib::lemma_multiset_commutative(
        base.approvals + migrated.approvals,
        installed_lists.approvals,
    );
    assert(base.permissions.to_multiset().add(migrated.permissions.to_multiset()).add(
        installed_lists.permissions.to_multiset(),
    ) == grant.permissions.to_multiset());
    assert(base.approvals.to_multiset().add(migrated.approvals.to_multiset()).add(
        installed_lists.approvals.to_multiset(),
    ) == grant.approval_required.to_multiset());
    let first = choose|first: Result<GrantLists, StorageValueError>| #[trigger]
        extended(
            arrange_permissions,
            arrange_approvals,
            base,
            migration_lists(parts.migration),
            first,
        ) && match first {
            Err(error) => outcome == Err::<CapabilityRecordView, DurableCodecErrorKind>(
                value_failure(error),
            ),
            Ok(lists) => installed(arrange_permissions, arrange_approvals, parts, lists, outcome),
        };
    extensions_arrange(
        arrange_permissions,
        arrange_approvals,
        base,
        migration_lists(parts.migration),
        all,
        installed_lists,
        first,
    );
    let lists = first->Ok_0;
    assert(lists.permissions.to_multiset() =~= base.permissions.to_multiset().add(
        migrated.permissions.to_multiset(),
    ));
    assert(lists.approvals.to_multiset() =~= base.approvals.to_multiset().add(
        migrated.approvals.to_multiset(),
    ));
    let next = choose|next: Result<GrantLists, StorageValueError>| #[trigger]
        extended(
            arrange_permissions,
            arrange_approvals,
            lists,
            installation_lists(parts.installation),
            next,
        ) && match next {
            Err(error) => outcome == Err::<CapabilityRecordView, DurableCodecErrorKind>(
                value_failure(error),
            ),
            Ok(lists) => outcome == Ok::<CapabilityRecordView, DurableCodecErrorKind>(
                record_with(parts, lists),
            ),
        };
    assert(lists.permissions.to_multiset().add(installed_lists.permissions.to_multiset()).add(
        nothing.permissions.to_multiset(),
    ) =~= grant.permissions.to_multiset());
    assert(lists.approvals.to_multiset().add(installed_lists.approvals.to_multiset()).add(
        nothing.approvals.to_multiset(),
    ) =~= grant.approval_required.to_multiset());
    extensions_arrange(
        arrange_permissions,
        arrange_approvals,
        lists,
        installation_lists(parts.installation),
        all,
        nothing,
        next,
    );
    if parts.migration is None && parts.installation is None {
        base_permissions_stay(grant.permissions);
        base_kinds_stay(grant.approval_required);
    }
    assert(next->Ok_0 =~= all);
    assert(record_with(parts, all) =~= secretless(record));
}

/// Naming the secret fields that a record came apart into gives the record back, where
/// the arrangement gives the record's own approvals for them.
///
/// No two visibilities are about the same entity type.
pub proof fn secrets_come_together_again<
    K: Fn(Vec<CapabilityPermissionKindV1>) -> Result<
        Vec<CapabilityPermissionKindV1>,
        StorageValueError,
    >,
>(
    arrange_approvals: K,
    record: CapabilityRecordView,
    outcome: Result<CapabilityRecordView, DurableCodecErrorKind>,
)
    requires
        visibilities_distinct(record.grant.field_visibility),
        approvals_arrange_to(arrange_approvals, record.grant.approval_required),
        parts_of_record(record).secret is Some,
        secrets_named(
            arrange_approvals,
            secretless(record),
            parts_of_record(record).secret->Some_0,
            outcome,
        ),
    ensures
        outcome == Ok::<CapabilityRecordView, DurableCodecErrorKind>(record),
{
    let visibility = record.grant.field_visibility;
    secrets_come_back(visibility, visibility.len() as int);
    assert(visibility.take(visibility.len() as int) =~= visibility);
    assert(partly_secret(visibility, visibility.len() as int) =~= visibility);
    assert(without_secrets(visible_parts(visibility)) =~= partly_secret(visibility, 0));
    assert(renamed(secretless(record), visibility, record.grant.approval_required) =~= record);
}

/// A record that names no secret fields stays as it is without them.
pub proof fn records_without_secrets_stay(record: CapabilityRecordView)
    requires
        parts_of_record(record).secret is None,
    ensures
        secretless(record) == record,
{
    no_secret_entries(record.grant.field_visibility);
    assert(secretless(record) =~= record);
}

proof fn no_secret_entries(visibility: Seq<FieldVisibilityView>)
    requires
        secret_entries(visibility).len() == 0,
    ensures
        without_secrets(visible_parts(visibility)) == visibility,
    decreases visibility.len(),
{
    if visibility.len() > 0 {
        let leading = visibility.drop_last();
        no_secret_entries(leading);
        assert forall|i: int| 0 <= i < visibility.len() implies without_secrets(
            visible_parts(visibility),
        )[i] == visibility[i] by {
            if i < leading.len() {
                assert(without_secrets(visible_parts(leading))[i] == leading[i]);
            } else {
                assert(visibility.last().secret_fields =~= Seq::empty());
            }
        }
    }
    assert(without_secrets(visible_parts(visibility)) =~= visibility);
}

} // verus!
