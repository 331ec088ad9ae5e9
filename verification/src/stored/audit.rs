//! Service audit records.

use vstd::prelude::*;

use crate::bytes::{copy_bytes, same_bytes};
use crate::codec::parts::{copy_optional_text, optional_text_view, Identifier};
use crate::ids::{CommitSequence, ContractVersion, Id32, Id64, Timestamp};
use crate::stored::common::{
    copy_optional_audit_principal, optional_audit_principal_view, AuditPrincipalV1,
    AuditPrincipalV1View,
};
use crate::value_error::StorageValueError;

verus! {

/// The phases of an audited operation that the rules here speak of; any other is
/// named by its stable tag.
#[derive(Clone, Copy, Debug, PartialEq, Eq, Structural)]
pub enum ServiceAuditPhaseV1 {
    Started,
    Succeeded,
    Other(u8),
}

impl StoredServiceAuditRequestIndexV1 {
    /// Binds a request to its audit sequence.
    pub fn new(request_id: Identifier, administration_sequence: Id64) -> (result: Self)
        ensures
            result == (StoredServiceAuditRequestIndexV1 { request_id, administration_sequence }),
    {
        StoredServiceAuditRequestIndexV1 { request_id, administration_sequence }
    }

    /// The request.
    pub fn request_id(self) -> (result: Identifier)
        ensures
            result == self.request_id,
    {
        self.request_id
    }

    /// The administration sequence of the request's audit record.
    pub fn administration_sequence(self) -> (result: Id64)
        ensures
            result == self.administration_sequence,
    {
        self.administration_sequence
    }
}

/// What an audited contract version is.
#[verifier::ext_equal]
pub ghost struct ContractVersionTargetView {
    pub lineage: Seq<char>,
    pub version: Id64,
}

/// An audited contract version.
#[derive(Debug, PartialEq, Eq)]
pub struct ContractVersionTarget {
    pub lineage: String,
    pub version: Id64,
}

impl View for ContractVersionTarget {
    type V = ContractVersionTargetView;

    open spec fn view(&self) -> ContractVersionTargetView {
        ContractVersionTargetView {
            lineage: self.lineage@,
            version: self.version,
        }
    }
}

impl Clone for ContractVersionTarget {
    fn clone(&self) -> (result: ContractVersionTarget)
        ensures
            result@ == self@,
    {
        ContractVersionTarget {
            lineage: self.lineage.clone(),
            version: self.version,
        }
    }
}

/// What an audited entity type is.
#[verifier::ext_equal]
pub ghost struct EntityTypeTargetView {
    pub lineage: Seq<char>,
    pub entity_type_id: Id32,
}

/// An audited entity type.
#[derive(Debug, PartialEq, Eq)]
pub struct EntityTypeTarget {
    pub lineage: String,
    pub entity_type_id: Id32,
}

impl View for EntityTypeTarget {
    type V = EntityTypeTargetView;

    open spec fn view(&self) -> EntityTypeTargetView {
        EntityTypeTargetView {
            lineage: self.lineage@,
            entity_type_id: self.entity_type_id,
        }
    }
}

impl Clone for EntityTypeTarget {
    fn clone(&self) -> (result: EntityTypeTarget)
        ensures
            result@ == self@,
    {
        EntityTypeTarget {
            lineage: self.lineage.clone(),
            entity_type_id: self.entity_type_id,
        }
    }
}

/// What an audited command is.
#[verifier::ext_equal]
pub ghost struct CommandTargetView {
    pub lineage: Seq<char>,
    pub command_id: Id32,
}

/// An audited command.
#[derive(Debug, PartialEq, Eq)]
pub struct CommandTarget {
    pub lineage: String,
    pub command_id: Id32,
}

impl View for CommandTarget {
    type V = CommandTargetView;

    open spec fn view(&self) -> CommandTargetView {
        CommandTargetView {
            lineage: self.lineage@,
            command_id: self.command_id,
        }
    }
}

impl Clone for CommandTarget {
    fn clone(&self) -> (result: CommandTarget)
        ensures
            result@ == self@,
    {
        CommandTarget {
            lineage: self.lineage.clone(),
            command_id: self.command_id,
        }
    }
}

/// What an audited projection is.
#[verifier::ext_equal]
pub ghost struct ProjectionTargetView {
    pub lineage: Seq<char>,
    pub projection_id: Id32,
}

/// An audited projection.
#[derive(Debug, PartialEq, Eq)]
pub struct ProjectionTarget {
    pub lineage: String,
    pub projection_id: Id32,
}

impl View for ProjectionTarget {
    type V = ProjectionTargetView;

    open spec fn view(&self) -> ProjectionTargetView {
        ProjectionTargetView {
            lineage: self.lineage@,
            projection_id: self.projection_id,
        }
    }
}

impl Clone for ProjectionTarget {
    fn clone(&self) -> (result: ProjectionTarget)
        ensures
            result@ == self@,
    {
        ProjectionTarget {
            lineage: self.lineage.clone(),
            projection_id: self.projection_id,
        }
    }
}

/// What an audited index is.
#[verifier::ext_equal]
pub ghost struct IndexTargetView {
    pub lineage: Seq<char>,
    pub index_id: Id32,
}

/// An audited index.
#[derive(Debug, PartialEq, Eq)]
pub struct IndexTarget {
    pub lineage: String,
    pub index_id: Id32,
}

impl View for IndexTarget {
    type V = IndexTargetView;

    open spec fn view(&self) -> IndexTargetView {
        IndexTargetView {
            lineage: self.lineage@,
            index_id: self.index_id,
        }
    }
}

impl Clone for IndexTarget {
    fn clone(&self) -> (result: IndexTarget)
        ensures
            result@ == self@,
    {
        IndexTarget {
            lineage: self.lineage.clone(),
            index_id: self.index_id,
        }
    }
}

/// What a target of a service audit record is.
pub ghost enum AuditTargetView {
    ContractLineage(Seq<char>),
    ContractVersion(ContractVersionTargetView),
    EntityType(EntityTypeTargetView),
    Command(CommandTargetView),
    Projection(ProjectionTargetView),
    Index(IndexTargetView),
    Commit(CommitSequence),
    Provenance(Identifier),
    Capability(Identifier),
}

/// A target of a service audit record.
#[derive(Debug, PartialEq, Eq)]
pub enum ServiceAuditTargetV1 {
    ContractLineage(String),
    ContractVersion(ContractVersionTarget),
    EntityType(EntityTypeTarget),
    Command(CommandTarget),
    Projection(ProjectionTarget),
    Index(IndexTarget),
    Commit(CommitSequence),
    Provenance(Identifier),
    Capability(Identifier),
}

impl View for ServiceAuditTargetV1 {
    type V = AuditTargetView;

    open spec fn view(&self) -> AuditTargetView {
        match self {
            ServiceAuditTargetV1::ContractLineage(part) => AuditTargetView::ContractLineage(part@),
            ServiceAuditTargetV1::ContractVersion(part) => AuditTargetView::ContractVersion(part@),
            ServiceAuditTargetV1::EntityType(part) => AuditTargetView::EntityType(part@),
            ServiceAuditTargetV1::Command(part) => AuditTargetView::Command(part@),
            ServiceAuditTargetV1::Projection(part) => AuditTargetView::Projection(part@),
            ServiceAuditTargetV1::Index(part) => AuditTargetView::Index(part@),
            ServiceAuditTargetV1::Commit(part) => AuditTargetView::Commit(*part),
            ServiceAuditTargetV1::Provenance(part) => AuditTargetView::Provenance(*part),
            ServiceAuditTargetV1::Capability(part) => AuditTargetView::Capability(*part),
        }
    }
}

impl Clone for ServiceAuditTargetV1 {
    fn clone(&self) -> (result: ServiceAuditTargetV1)
        ensures
            result@ == self@,
    {
        match self {
            ServiceAuditTargetV1::ContractLineage(part) =>
                ServiceAuditTargetV1::ContractLineage(part.clone()),
            ServiceAuditTargetV1::ContractVersion(part) =>
                ServiceAuditTargetV1::ContractVersion(part.clone()),
            ServiceAuditTargetV1::EntityType(part) =>
                ServiceAuditTargetV1::EntityType(part.clone()),
            ServiceAuditTargetV1::Command(part) => ServiceAuditTargetV1::Command(part.clone()),
            ServiceAuditTargetV1::Projection(part) =>
                ServiceAuditTargetV1::Projection(part.clone()),
            ServiceAuditTargetV1::Index(part) => ServiceAuditTargetV1::Index(part.clone()),
            ServiceAuditTargetV1::Commit(part) => ServiceAuditTargetV1::Commit(*part),
            ServiceAuditTargetV1::Provenance(part) => ServiceAuditTargetV1::Provenance(*part),
            ServiceAuditTargetV1::Capability(part) => ServiceAuditTargetV1::Capability(*part),
        }
    }
}

/// A replication follower by the hold that it has.
#[derive(Clone, Copy, Debug, PartialEq, Eq)]
pub struct ReplicationFollowerAuditTargetV1 {
    pub database_id: Identifier,
    pub history_incarnation: u64,
    pub leadership_epoch: Id64,
    pub hold_id: Identifier,
}

/// What a target of a service audit record of the third form is.
pub ghost enum AuditTargetV3View {
    ContractLineage(Seq<char>),
    ContractVersion(ContractVersionTargetView),
    EntityType(EntityTypeTargetView),
    Command(CommandTargetView),
    Projection(ProjectionTargetView),
    Index(IndexTargetView),
    Commit(CommitSequence),
    Provenance(Identifier),
    Capability(Identifier),
    EventConsumer(Seq<u8>),
    ReplicationFollower(ReplicationFollowerAuditTargetV1),
}

/// A target of a service audit record of the third form.
#[derive(Debug, PartialEq, Eq)]
pub enum ServiceAuditTargetV3 {
    ContractLineage(String),
    ContractVersion(ContractVersionTarget),
    EntityType(EntityTypeTarget),
    Command(CommandTarget),
    Projection(ProjectionTarget),
    Index(IndexTarget),
    Commit(CommitSequence),
    Provenance(Identifier),
    Capability(Identifier),
    EventConsumer(Vec<u8>),
    ReplicationFollower(ReplicationFollowerAuditTargetV1),
}

impl View for ServiceAuditTargetV3 {
    type V = AuditTargetV3View;

    open spec fn view(&self) -> AuditTargetV3View {
        match self {
            ServiceAuditTargetV3::ContractLineage(part) =>
                AuditTargetV3View::ContractLineage(part@),
            ServiceAuditTargetV3::ContractVersion(part) =>
                AuditTargetV3View::ContractVersion(part@),
            ServiceAuditTargetV3::EntityType(part) => AuditTargetV3View::EntityType(part@),
            ServiceAuditTargetV3::Command(part) => AuditTargetV3View::Command(part@),
            ServiceAuditTargetV3::Projection(part) => AuditTargetV3View::Projection(part@),
            ServiceAuditTargetV3::Index(part) => AuditTargetV3View::Index(part@),
            ServiceAuditTargetV3::Commit(part) => AuditTargetV3View::Commit(*part),
            ServiceAuditTargetV3::Provenance(part) => AuditTargetV3View::Provenance(*part),
            ServiceAuditTargetV3::Capability(part) => AuditTargetV3View::Capability(*part),
            ServiceAuditTargetV3::EventConsumer(part) => AuditTargetV3View::EventConsumer(part@),
            ServiceAuditTargetV3::ReplicationFollower(part) =>
                AuditTargetV3View::ReplicationFollower(*part),
        }
    }
}

impl Clone for ServiceAuditTargetV3 {
    fn clone(&self) -> (result: ServiceAuditTargetV3)
        ensures
            result@ == self@,
    {
        match self {
            ServiceAuditTargetV3::ContractLineage(part) =>
                ServiceAuditTargetV3::ContractLineage(part.clone()),
            ServiceAuditTargetV3::ContractVersion(part) =>
                ServiceAuditTargetV3::ContractVersion(part.clone()),
            ServiceAuditTargetV3::EntityType(part) =>
                ServiceAuditTargetV3::EntityType(part.clone()),
            ServiceAuditTargetV3::Command(part) => ServiceAuditTargetV3::Command(part.clone()),
            ServiceAuditTargetV3::Projection(part) =>
                ServiceAuditTargetV3::Projection(part.clone()),
            ServiceAuditTargetV3::Index(part) => ServiceAuditTargetV3::Index(part.clone()),
            ServiceAuditTargetV3::Commit(part) => ServiceAuditTargetV3::Commit(*part),
            ServiceAuditTargetV3::Provenance(part) => ServiceAuditTargetV3::Provenance(*part),
            ServiceAuditTargetV3::Capability(part) => ServiceAuditTargetV3::Capability(*part),
            ServiceAuditTargetV3::EventConsumer(part) =>
                ServiceAuditTargetV3::EventConsumer(copy_bytes(part)),
            ServiceAuditTargetV3::ReplicationFollower(part) =>
                ServiceAuditTargetV3::ReplicationFollower(*part),
        }
    }
}

/// A link to a command's commit and provenance.
#[derive(Clone, Copy, Debug, PartialEq, Eq)]
pub struct CommandAuditLink {
    pub commit_sequence: CommitSequence,
    pub provenance_id: Identifier,
}

/// A link to an administrative change.
#[derive(Clone, Copy, Debug, PartialEq, Eq)]
pub struct ControlPlaneAuditLink {
    pub administration_sequence: Id64,
}

/// A link of a service audit record.
#[derive(Clone, Copy, Debug, PartialEq, Eq)]
pub enum ServiceAuditLinkV1 {
    Nothing,
    Command(CommandAuditLink),
    ControlPlane(ControlPlaneAuditLink),
}

/// What a service audit record is.
#[verifier::ext_equal]
pub ghost struct ServiceAuditRecordView {
    pub administration_sequence: Id64,
    pub request_id: Identifier,
    pub timestamp: Timestamp,
    pub operation: u8,
    pub phase: ServiceAuditPhaseV1,
    pub principal: Option<AuditPrincipalV1View>,
    pub ingress: u8,
    pub targets: Seq<AuditTargetView>,
    pub approval_id: Option<Seq<char>>,
    pub link: ServiceAuditLinkV1,
}

/// A service audit record.
#[derive(Debug, PartialEq, Eq)]
pub struct StoredServiceAuditRecordV1 {
    pub administration_sequence: Id64,
    pub request_id: Identifier,
    pub timestamp: Timestamp,
    pub operation: u8,
    pub phase: ServiceAuditPhaseV1,
    pub principal: Option<AuditPrincipalV1>,
    pub ingress: u8,
    pub targets: Vec<ServiceAuditTargetV1>,
    pub approval_id: Option<String>,
    pub link: ServiceAuditLinkV1,
}

impl View for StoredServiceAuditRecordV1 {
    type V = ServiceAuditRecordView;

    open spec fn view(&self) -> ServiceAuditRecordView {
        ServiceAuditRecordView {
            administration_sequence: self.administration_sequence,
            request_id: self.request_id,
            timestamp: self.timestamp,
            operation: self.operation,
            phase: self.phase,
            principal: optional_audit_principal_view(self.principal),
            ingress: self.ingress,
            targets: target_views(self.targets@),
            approval_id: optional_text_view(self.approval_id),
            link: self.link,
        }
    }
}

impl Clone for StoredServiceAuditRecordV1 {
    fn clone(&self) -> (result: StoredServiceAuditRecordV1)
        ensures
            result@ == self@,
    {
        StoredServiceAuditRecordV1 {
            administration_sequence: self.administration_sequence,
            request_id: self.request_id,
            timestamp: self.timestamp,
            operation: self.operation,
            phase: self.phase,
            principal: copy_optional_audit_principal(&self.principal),
            ingress: self.ingress,
            targets: copy_target_list(&self.targets),
            approval_id: copy_optional_text(&self.approval_id),
            link: self.link,
        }
    }
}

/// What a service audit record of the third form is.
#[verifier::ext_equal]
pub ghost struct ServiceAuditRecordV3View {
    pub administration_sequence: Id64,
    pub request_id: Identifier,
    pub timestamp: Timestamp,
    pub operation: u8,
    pub phase: ServiceAuditPhaseV1,
    pub principal: Option<AuditPrincipalV1View>,
    pub ingress: u8,
    pub targets: Seq<AuditTargetV3View>,
    pub approval_id: Option<Seq<char>>,
    pub link: ServiceAuditLinkV1,
}

/// A service audit record of the third form.
#[derive(Debug, PartialEq, Eq)]
pub struct StoredServiceAuditRecordV3 {
    pub administration_sequence: Id64,
    pub request_id: Identifier,
    pub timestamp: Timestamp,
    pub operation: u8,
    pub phase: ServiceAuditPhaseV1,
    pub principal: Option<AuditPrincipalV1>,
    pub ingress: u8,
    pub targets: Vec<ServiceAuditTargetV3>,
    pub approval_id: Option<String>,
    pub link: ServiceAuditLinkV1,
}

impl View for StoredServiceAuditRecordV3 {
    type V = ServiceAuditRecordV3View;

    open spec fn view(&self) -> ServiceAuditRecordV3View {
        ServiceAuditRecordV3View {
            administration_sequence: self.administration_sequence,
            request_id: self.request_id,
            timestamp: self.timestamp,
            operation: self.operation,
            phase: self.phase,
            principal: optional_audit_principal_view(self.principal),
            ingress: self.ingress,
            targets: target_v3_views(self.targets@),
            approval_id: optional_text_view(self.approval_id),
            link: self.link,
        }
    }
}

impl Clone for StoredServiceAuditRecordV3 {
    fn clone(&self) -> (result: StoredServiceAuditRecordV3)
        ensures
            result@ == self@,
    {
        StoredServiceAuditRecordV3 {
            administration_sequence: self.administration_sequence,
            request_id: self.request_id,
            timestamp: self.timestamp,
            operation: self.operation,
            phase: self.phase,
            principal: copy_optional_audit_principal(&self.principal),
            ingress: self.ingress,
            targets: copy_target_v3_list(&self.targets),
            approval_id: copy_optional_text(&self.approval_id),
            link: self.link,
        }
    }
}

/// An index row from a request to its audit sequence.
#[derive(Clone, Copy, Debug, PartialEq, Eq)]
pub struct StoredServiceAuditRequestIndexV1 {
    pub request_id: Identifier,
    pub administration_sequence: Id64,
}

/// What a list of such values is.
pub open spec fn target_views(values: Seq<ServiceAuditTargetV1>) -> Seq<AuditTargetView> {
    Seq::new(values.len(), |i: int| values[i]@)
}

/// Copies a list of such values.
pub fn copy_target_list(values: &[ServiceAuditTargetV1]) -> (result: Vec<ServiceAuditTargetV1>)
    ensures
        target_views(result@) == target_views(values@),
{
    let mut result: Vec<ServiceAuditTargetV1> = Vec::new();
    let mut i: usize = 0;
    while i < values.len()
        invariant
            i <= values@.len(),
            result@.len() == i,
            forall|k: int| 0 <= k < i ==> result@[k]@ == values@[k]@,
        decreases values@.len() - i,
    {
        result.push(values[i].clone());
        i += 1;
    }
    assert(target_views(result@) =~= target_views(values@));
    result
}

/// What a list of such values is.
pub open spec fn target_v3_views(values: Seq<ServiceAuditTargetV3>) -> Seq<AuditTargetV3View> {
    Seq::new(values.len(), |i: int| values[i]@)
}

/// Copies a list of such values.
pub fn copy_target_v3_list(values: &[ServiceAuditTargetV3]) -> (result: Vec<ServiceAuditTargetV3>)
    ensures
        target_v3_views(result@) == target_v3_views(values@),
{
    let mut result: Vec<ServiceAuditTargetV3> = Vec::new();
    let mut i: usize = 0;
    while i < values.len()
        invariant
            i <= values@.len(),
            result@.len() == i,
            forall|k: int| 0 <= k < i ==> result@[k]@ == values@[k]@,
        decreases values@.len() - i,
    {
        result.push(values[i].clone());
        i += 1;
    }
    assert(target_v3_views(result@) =~= target_v3_views(values@));
    result
}

impl ContractVersionTarget {
    /// Decides equality of two such values.
    pub fn same(&self, other: &ContractVersionTarget) -> (result: bool)
        ensures
            result == (self@ == other@),
    {
        self.lineage == other.lineage
            && self.version == other.version
    }
}

impl EntityTypeTarget {
    /// Decides equality of two such values.
    pub fn same(&self, other: &EntityTypeTarget) -> (result: bool)
        ensures
            result == (self@ == other@),
    {
        self.lineage == other.lineage
            && self.entity_type_id == other.entity_type_id
    }
}

impl CommandTarget {
    /// Decides equality of two such values.
    pub fn same(&self, other: &CommandTarget) -> (result: bool)
        ensures
            result == (self@ == other@),
    {
        self.lineage == other.lineage
            && self.command_id == other.command_id
    }
}

impl ProjectionTarget {
    /// Decides equality of two such values.
    pub fn same(&self, other: &ProjectionTarget) -> (result: bool)
        ensures
            result == (self@ == other@),
    {
        self.lineage == other.lineage
            && self.projection_id == other.projection_id
    }
}

impl IndexTarget {
    /// Decides equality of two such values.
    pub fn same(&self, other: &IndexTarget) -> (result: bool)
        ensures
            result == (self@ == other@),
    {
        self.lineage == other.lineage
            && self.index_id == other.index_id
    }
}

impl ReplicationFollowerAuditTargetV1 {
    /// Decides equality of two such values.
    pub fn same(&self, other: &ReplicationFollowerAuditTargetV1) -> (result: bool)
        ensures
            result == (*self == *other),
    {
        self.database_id.same(&other.database_id)
            && self.history_incarnation == other.history_incarnation
            && self.leadership_epoch == other.leadership_epoch
            && self.hold_id.same(&other.hold_id)
    }
}

impl ServiceAuditTargetV1 {
    /// Decides equality of two such values.
    pub fn same(&self, other: &ServiceAuditTargetV1) -> (result: bool)
        ensures
            result == (self@ == other@),
    {
        match (self, other) {
            (ServiceAuditTargetV1::ContractLineage(part),
                ServiceAuditTargetV1::ContractLineage(held)) => *part == *held,
            (ServiceAuditTargetV1::ContractVersion(part),
                ServiceAuditTargetV1::ContractVersion(held)) => part.same(held),
            (ServiceAuditTargetV1::EntityType(part), ServiceAuditTargetV1::EntityType(held)) =>
                part.same(held),
            (ServiceAuditTargetV1::Command(part), ServiceAuditTargetV1::Command(held)) =>
                part.same(held),
            (ServiceAuditTargetV1::Projection(part), ServiceAuditTargetV1::Projection(held)) =>
                part.same(held),
            (ServiceAuditTargetV1::Index(part), ServiceAuditTargetV1::Index(held)) =>
                part.same(held),
            (ServiceAuditTargetV1::Commit(part), ServiceAuditTargetV1::Commit(held)) =>
                *part == *held,
            (ServiceAuditTargetV1::Provenance(part), ServiceAuditTargetV1::Provenance(held)) =>
                part.same(held),
            (ServiceAuditTargetV1::Capability(part), ServiceAuditTargetV1::Capability(held)) =>
                part.same(held),
            _ => false,
        }
    }
}

impl ServiceAuditTargetV3 {
    /// Decides equality of two such values.
    pub fn same(&self, other: &ServiceAuditTargetV3) -> (result: bool)
        ensures
            result == (self@ == other@),
    {
        match (self, other) {
            (ServiceAuditTargetV3::ContractLineage(part),
                ServiceAuditTargetV3::ContractLineage(held)) => *part == *held,
            (ServiceAuditTargetV3::ContractVersion(part),
                ServiceAuditTargetV3::ContractVersion(held)) => part.same(held),
            (ServiceAuditTargetV3::EntityType(part), ServiceAuditTargetV3::EntityType(held)) =>
                part.same(held),
            (ServiceAuditTargetV3::Command(part), ServiceAuditTargetV3::Command(held)) =>
                part.same(held),
            (ServiceAuditTargetV3::Projection(part), ServiceAuditTargetV3::Projection(held)) =>
                part.same(held),
            (ServiceAuditTargetV3::Index(part), ServiceAuditTargetV3::Index(held)) =>
                part.same(held),
            (ServiceAuditTargetV3::Commit(part), ServiceAuditTargetV3::Commit(held)) =>
                *part == *held,
            (ServiceAuditTargetV3::Provenance(part), ServiceAuditTargetV3::Provenance(held)) =>
                part.same(held),
            (ServiceAuditTargetV3::Capability(part), ServiceAuditTargetV3::Capability(held)) =>
                part.same(held),
            (ServiceAuditTargetV3::EventConsumer(part),
                ServiceAuditTargetV3::EventConsumer(held)) => same_bytes(part, held),
            (ServiceAuditTargetV3::ReplicationFollower(part),
                ServiceAuditTargetV3::ReplicationFollower(held)) => part.same(held),
            _ => false,
        }
    }
}

/// Decides equality of two lists.
pub fn same_target_list(a: &[ServiceAuditTargetV1], b: &[ServiceAuditTargetV1]) -> (result: bool)
    ensures
        result == (target_views(a@) == target_views(b@)),
{
    if a.len() != b.len() {
        assert(target_views(a@).len() != target_views(b@).len());
        return false;
    }
    let mut i: usize = 0;
    while i < a.len()
        invariant
            i <= a@.len(),
            a@.len() == b@.len(),
            forall|k: int| 0 <= k < i ==> (#[trigger] a@[k])@ == b@[k]@,
        decreases a@.len() - i,
    {
        if !a[i].same(&b[i]) {
            assert(target_views(a@)[i as int] != target_views(b@)[i as int]);
            return false;
        }
        i += 1;
    }
    assert(target_views(a@) =~= target_views(b@));
    true
}

/// Decides equality of two lists.
pub fn same_target_v3_list(a: &[ServiceAuditTargetV3], b: &[ServiceAuditTargetV3]) -> (result: bool)
    ensures
        result == (target_v3_views(a@) == target_v3_views(b@)),
{
    if a.len() != b.len() {
        assert(target_v3_views(a@).len() != target_v3_views(b@).len());
        return false;
    }
    let mut i: usize = 0;
    while i < a.len()
        invariant
            i <= a@.len(),
            a@.len() == b@.len(),
            forall|k: int| 0 <= k < i ==> (#[trigger] a@[k])@ == b@[k]@,
        decreases a@.len() - i,
    {
        if !a[i].same(&b[i]) {
            assert(target_v3_views(a@)[i as int] != target_v3_views(b@)[i as int]);
            return false;
        }
        i += 1;
    }
    assert(target_v3_views(a@) =~= target_v3_views(b@));
    true
}

/// Whether targets are their own canonical list.
pub open spec fn targets_rebuilt(
    rebuilt: Result<Vec<ServiceAuditTargetV1>, StorageValueError>,
    targets: Seq<AuditTargetView>,
) -> bool {
    rebuilt matches Ok(list) && target_views(list@) == targets
}

/// Decides whether targets are their own canonical list.
pub fn are_targets_rebuilt(
    rebuilt: &Result<Vec<ServiceAuditTargetV1>, StorageValueError>,
    targets: &[ServiceAuditTargetV1],
) -> (result: bool)
    ensures
        result == targets_rebuilt(*rebuilt, target_views(targets@)),
{
    match rebuilt {
        Ok(list) => same_target_list(list, targets),
        Err(_) => false,
    }
}

/// Whether targets of the third form are their own canonical list.
pub open spec fn targets_v3_rebuilt(
    rebuilt: Result<Vec<ServiceAuditTargetV3>, StorageValueError>,
    targets: Seq<AuditTargetV3View>,
) -> bool {
    rebuilt matches Ok(list) && target_v3_views(list@) == targets
}

/// Decides whether targets of the third form are their own canonical list.
pub fn are_targets_v3_rebuilt(
    rebuilt: &Result<Vec<ServiceAuditTargetV3>, StorageValueError>,
    targets: &[ServiceAuditTargetV3],
) -> (result: bool)
    ensures
        result == targets_v3_rebuilt(*rebuilt, target_v3_views(targets@)),
{
    match rebuilt {
        Ok(list) => same_target_v3_list(list, targets),
        Err(_) => false,
    }
}

} // verus!
