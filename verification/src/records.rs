//! Stored application records as plain values.

use vstd::prelude::*;

use crate::bytes::{bytes_before, copy_bytes, order_bytes, same_bytes, BytesOrder};
use crate::ids::{ContractVersion, Digest, EntityTypeId, EntityVersion, EventId, EventTypeId};
use crate::keys::{CanonicalField, CanonicalRecord, CanonicalRecordView};

verus! {

/// What a schema binding is.
#[verifier::ext_equal]
pub ghost struct SchemaBindingView {
    pub lineage: Seq<char>,
    pub contract_version: ContractVersion,
    pub bundle_hash: Digest,
}

/// The contract that a durable key was laid out by.
#[derive(Debug, PartialEq, Eq)]
pub struct DurableKeySchemaBindingV1 {
    pub lineage: String,
    pub contract_version: ContractVersion,
    pub bundle_hash: Digest,
}

impl View for DurableKeySchemaBindingV1 {
    type V = SchemaBindingView;

    open spec fn view(&self) -> SchemaBindingView {
        SchemaBindingView {
            lineage: self.lineage@,
            contract_version: self.contract_version,
            bundle_hash: self.bundle_hash,
        }
    }
}

impl Clone for DurableKeySchemaBindingV1 {
    fn clone(&self) -> (result: DurableKeySchemaBindingV1)
        ensures
            result@ == self@,
    {
        DurableKeySchemaBindingV1 {
            lineage: self.lineage.clone(),
            contract_version: self.contract_version,
            bundle_hash: self.bundle_hash,
        }
    }
}

impl DurableKeySchemaBindingV1 {
    /// Decides equality of two bindings.
    pub fn same(&self, other: &DurableKeySchemaBindingV1) -> (result: bool)
        ensures
            result == (self@ == other@),
    {
        self.lineage == other.lineage && self.contract_version == other.contract_version
            && self.bundle_hash.same(&other.bundle_hash)
    }
}

/// What an entity target is.
#[verifier::ext_equal]
pub ghost struct EntityTargetView {
    pub entity_type_id: EntityTypeId,
    pub key: Seq<u8>,
}

impl EntityTargetView {
    /// Targets are ordered by type, then by key.
    pub open spec fn before(self, other: EntityTargetView) -> bool {
        self.entity_type_id.value < other.entity_type_id.value || (self.entity_type_id
            == other.entity_type_id && bytes_before(self.key, other.key))
    }
}

/// One entity: its type and its key.
#[derive(Debug, PartialEq, Eq, PartialOrd, Ord)]
pub struct EntityTarget {
    pub entity_type_id: EntityTypeId,
    pub key: Vec<u8>,
}

impl View for EntityTarget {
    type V = EntityTargetView;

    open spec fn view(&self) -> EntityTargetView {
        EntityTargetView { entity_type_id: self.entity_type_id, key: self.key@ }
    }
}

impl Clone for EntityTarget {
    fn clone(&self) -> (result: EntityTarget)
        ensures
            result@ == self@,
    {
        EntityTarget { entity_type_id: self.entity_type_id, key: copy_bytes(&self.key) }
    }
}

impl EntityTarget {
    /// Decides equality of two targets.
    pub fn same(&self, other: &EntityTarget) -> (result: bool)
        ensures
            result == (self@ == other@),
    {
        self.entity_type_id == other.entity_type_id && same_bytes(&self.key, &other.key)
    }

    /// Decides whether this target comes before the other.
    pub fn is_before(&self, other: &EntityTarget) -> (result: bool)
        ensures
            result == self@.before(other@),
    {
        self.entity_type_id.value < other.entity_type_id.value || (self.entity_type_id
            == other.entity_type_id && order_bytes(&self.key, &other.key) == BytesOrder::Before)
    }
}

fn same_fields(a: &[CanonicalField], b: &[CanonicalField]) -> (result: bool)
    ensures
        result == (crate::keys::field_views(a@) == crate::keys::field_views(b@)),
{
    let ghost left = crate::keys::field_views(a@);
    let ghost right = crate::keys::field_views(b@);
    if a.len() != b.len() {
        assert(left.len() != right.len());
        return false;
    }
    let mut i: usize = 0;
    while i < a.len()
        invariant
            i <= a@.len(),
            a@.len() == b@.len(),
            left == crate::keys::field_views(a@),
            right == crate::keys::field_views(b@),
            forall|k: int| 0 <= k < i ==> left[k] == right[k],
        decreases a@.len() - i,
    {
        if a[i].id != b[i].id || !a[i].value.same(&b[i].value) {
            assert(left[i as int] != right[i as int]);
            return false;
        }
        assert(left[i as int] == right[i as int]);
        i += 1;
    }
    assert(left =~= right);
    true
}

/// Decides equality of two canonical records.
pub fn same_record(a: &CanonicalRecord, b: &CanonicalRecord) -> (result: bool)
    ensures
        result == (a@ == b@),
{
    same_bytes(&a.encoded, &b.encoded) && same_fields(&a.fields, &b.fields)
}

/// What an entity record is.
#[verifier::ext_equal]
pub ghost struct EntityRecordView {
    pub target: EntityTargetView,
    pub entity_version: EntityVersion,
    pub written_by_contract: ContractVersion,
    pub schema_binding: SchemaBindingView,
    pub fields: CanonicalRecordView,
}

/// One authoritative entity row.
#[derive(Debug, PartialEq, Eq)]
pub struct StoredEntityRecordV1 {
    pub target: EntityTarget,
    pub entity_version: EntityVersion,
    pub written_by_contract: ContractVersion,
    pub schema_binding: DurableKeySchemaBindingV1,
    pub fields: CanonicalRecord,
}

impl View for StoredEntityRecordV1 {
    type V = EntityRecordView;

    open spec fn view(&self) -> EntityRecordView {
        EntityRecordView {
            target: self.target@,
            entity_version: self.entity_version,
            written_by_contract: self.written_by_contract,
            schema_binding: self.schema_binding@,
            fields: self.fields@,
        }
    }
}

impl Clone for StoredEntityRecordV1 {
    fn clone(&self) -> (result: StoredEntityRecordV1)
        ensures
            result@ == self@,
    {
        StoredEntityRecordV1 {
            target: self.target.clone(),
            entity_version: self.entity_version,
            written_by_contract: self.written_by_contract,
            schema_binding: self.schema_binding.clone(),
            fields: self.fields.clone(),
        }
    }
}

impl StoredEntityRecordV1 {
    /// Borrows the row's target.
    pub fn target(&self) -> (result: &EntityTarget)
        ensures
            *result == self.target,
    {
        &self.target
    }

    /// Returns the row's version.
    pub fn entity_version(&self) -> (result: EntityVersion)
        ensures
            result == self@.entity_version,
    {
        self.entity_version
    }

    /// Decides equality of two rows.
    pub fn same(&self, other: &StoredEntityRecordV1) -> (result: bool)
        ensures
            result == (self@ == other@),
    {
        self.target.same(&other.target) && self.entity_version == other.entity_version
            && self.written_by_contract == other.written_by_contract && self.schema_binding.same(
            &other.schema_binding,
        ) && same_record(&self.fields, &other.fields)
    }
}

/// What a current index entry is.
#[verifier::ext_equal]
pub ghost struct IndexEntryView {
    pub key: Seq<u8>,
    pub schema_binding: SchemaBindingView,
    pub covered_values: CanonicalRecordView,
    pub partition_key: Seq<u8>,
}

/// One current authoritative index entry.
#[derive(Clone, Debug, PartialEq, Eq)]
pub struct StoredIndexEntryV2 {
    pub key: Vec<u8>,
    pub schema_binding: DurableKeySchemaBindingV1,
    pub covered_values: CanonicalRecord,
    pub partition_key: Vec<u8>,
}

impl View for StoredIndexEntryV2 {
    type V = IndexEntryView;

    open spec fn view(&self) -> IndexEntryView {
        IndexEntryView {
            key: self.key@,
            schema_binding: self.schema_binding@,
            covered_values: self.covered_values@,
            partition_key: self.partition_key@,
        }
    }
}

/// What a contract bundle is.
#[verifier::ext_equal]
pub ghost struct ContractBundleView {
    pub lineage: Seq<char>,
    pub contract_version: ContractVersion,
    pub bundle_hash: Digest,
    pub canonical_bytes: Seq<u8>,
}

/// One immutable compiled contract bundle, not interpreted here.
#[derive(Debug, PartialEq, Eq)]
pub struct StoredContractBundleV1 {
    pub lineage: String,
    pub contract_version: ContractVersion,
    pub bundle_hash: Digest,
    pub canonical_bytes: Vec<u8>,
}

impl View for StoredContractBundleV1 {
    type V = ContractBundleView;

    open spec fn view(&self) -> ContractBundleView {
        ContractBundleView {
            lineage: self.lineage@,
            contract_version: self.contract_version,
            bundle_hash: self.bundle_hash,
            canonical_bytes: self.canonical_bytes@,
        }
    }
}

/// What a durable event is.
#[verifier::ext_equal]
pub ghost struct DurableEventView {
    pub event_id: EventId,
    pub event_type_id: EventTypeId,
    pub payload: CanonicalRecordView,
    pub event_hash: Digest,
}

/// One authoritative durable event.
#[derive(Debug, PartialEq, Eq)]
pub struct StoredDurableEventV1 {
    pub event_id: EventId,
    pub event_type_id: EventTypeId,
    pub payload: CanonicalRecord,
    pub event_hash: Digest,
}

impl View for StoredDurableEventV1 {
    type V = DurableEventView;

    open spec fn view(&self) -> DurableEventView {
        DurableEventView {
            event_id: self.event_id,
            event_type_id: self.event_type_id,
            payload: self.payload@,
            event_hash: self.event_hash,
        }
    }
}

impl Clone for StoredDurableEventV1 {
    fn clone(&self) -> (result: StoredDurableEventV1)
        ensures
            result@ == self@,
    {
        StoredDurableEventV1 {
            event_id: self.event_id,
            event_type_id: self.event_type_id,
            payload: self.payload.clone(),
            event_hash: self.event_hash,
        }
    }
}

impl StoredDurableEventV1 {
    /// Decides equality of two events.
    pub fn same(&self, other: &StoredDurableEventV1) -> (result: bool)
        ensures
            result == (self@ == other@),
    {
        self.event_id == other.event_id && self.event_type_id == other.event_type_id
            && self.event_hash.same(&other.event_hash) && same_record(&self.payload, &other.payload)
    }
}

/// A record and its semantic size, which is none where it does not fit.
#[derive(Clone, Debug, PartialEq, Eq)]
pub struct Charged<T> {
    pub record: T,
    pub semantic_bytes: Option<usize>,
}

} // verus!
