//! Catalog records.

use vstd::prelude::*;

use crate::codec::parts::{copy_optional_text, optional_text_view, Identifier};
use crate::ids::{Digest, Id64, Timestamp};
use crate::stored::common::{AuditPrincipalV1, AuditPrincipalV1View};

verus! {

/// What the active catalog pointer is.
#[verifier::ext_equal]
pub ghost struct ActivePointerView {
    pub lineage: Seq<char>,
    pub contract_version: Id64,
    pub bundle_hash: Digest,
}

/// The active catalog pointer.
#[derive(Debug, PartialEq, Eq)]
pub struct ActiveCatalogPointerV1 {
    pub lineage: String,
    pub contract_version: Id64,
    pub bundle_hash: Digest,
}

impl View for ActiveCatalogPointerV1 {
    type V = ActivePointerView;

    open spec fn view(&self) -> ActivePointerView {
        ActivePointerView {
            lineage: self.lineage@,
            contract_version: self.contract_version,
            bundle_hash: self.bundle_hash,
        }
    }
}

impl Clone for ActiveCatalogPointerV1 {
    fn clone(&self) -> (result: ActiveCatalogPointerV1)
        ensures
            result@ == self@,
    {
        ActiveCatalogPointerV1 {
            lineage: self.lineage.clone(),
            contract_version: self.contract_version,
            bundle_hash: self.bundle_hash,
        }
    }
}

/// What a catalog activation record is.
#[verifier::ext_equal]
pub ghost struct CatalogAdministrationView {
    pub administration_sequence: Id64,
    pub request_id: Identifier,
    pub timestamp: Timestamp,
    pub principal: AuditPrincipalV1View,
    pub previous_active: Option<ActivePointerView>,
    pub activated: ActivePointerView,
    pub approval_id: Option<Seq<char>>,
}

/// A catalog activation record.
#[derive(Debug, PartialEq, Eq)]
pub struct StoredCatalogAdministrationV1 {
    pub administration_sequence: Id64,
    pub request_id: Identifier,
    pub timestamp: Timestamp,
    pub principal: AuditPrincipalV1,
    pub previous_active: Option<ActiveCatalogPointerV1>,
    pub activated: ActiveCatalogPointerV1,
    pub approval_id: Option<String>,
}

impl View for StoredCatalogAdministrationV1 {
    type V = CatalogAdministrationView;

    open spec fn view(&self) -> CatalogAdministrationView {
        CatalogAdministrationView {
            administration_sequence: self.administration_sequence,
            request_id: self.request_id,
            timestamp: self.timestamp,
            principal: self.principal@,
            previous_active: optional_active_view(self.previous_active),
            activated: self.activated@,
            approval_id: optional_text_view(self.approval_id),
        }
    }
}

impl Clone for StoredCatalogAdministrationV1 {
    fn clone(&self) -> (result: StoredCatalogAdministrationV1)
        ensures
            result@ == self@,
    {
        StoredCatalogAdministrationV1 {
            administration_sequence: self.administration_sequence,
            request_id: self.request_id,
            timestamp: self.timestamp,
            principal: self.principal.clone(),
            previous_active: copy_optional_active(&self.previous_active),
            activated: self.activated.clone(),
            approval_id: copy_optional_text(&self.approval_id),
        }
    }
}

/// The view of an optional one.
pub open spec fn optional_active_view(
    value: Option<ActiveCatalogPointerV1>,
) -> Option<ActivePointerView> {
    match value {
        Some(part) => Some(part@),
        None => None,
    }
}

/// Copies an optional one.
pub fn copy_optional_active(
    value: &Option<ActiveCatalogPointerV1>,
) -> (result: Option<ActiveCatalogPointerV1>)
    ensures
        optional_active_view(result) == optional_active_view(*value),
{
    match value {
        Some(part) => Some(part.clone()),
        None => None,
    }
}

} // verus!
