//! Application export records.

use vstd::prelude::*;

use crate::bytes::copy_bytes;
use crate::codec::parts::Identifier;

verus! {

/// A retained export operation in its original form.
#[derive(Clone, Debug, PartialEq, Eq)]
pub enum StoredApplicationExportOperation {
    Legacy(StoredApplicationExportOperationV1),
    Compact(StoredApplicationExportOperationV2),
}

/// What a compact application-export head is.
#[verifier::ext_equal]
pub ghost struct ExportOperationV2View {
    pub operation_id: Identifier,
    pub lineage: Seq<char>,
    pub immutable_binding: Seq<u8>,
    pub canonical_state: Seq<u8>,
    pub prefix: Seq<u8>,
}

/// A compact application-export head.
#[derive(Debug, PartialEq, Eq)]
pub struct StoredApplicationExportOperationV2 {
    pub operation_id: Identifier,
    pub lineage: String,
    pub immutable_binding: Vec<u8>,
    pub canonical_state: Vec<u8>,
    pub prefix: Vec<u8>,
}

impl View for StoredApplicationExportOperationV2 {
    type V = ExportOperationV2View;

    open spec fn view(&self) -> ExportOperationV2View {
        ExportOperationV2View {
            operation_id: self.operation_id,
            lineage: self.lineage@,
            immutable_binding: self.immutable_binding@,
            canonical_state: self.canonical_state@,
            prefix: self.prefix@,
        }
    }
}

impl Clone for StoredApplicationExportOperationV2 {
    fn clone(&self) -> (result: StoredApplicationExportOperationV2)
        ensures
            result@ == self@,
    {
        StoredApplicationExportOperationV2 {
            operation_id: self.operation_id,
            lineage: self.lineage.clone(),
            immutable_binding: copy_bytes(&self.immutable_binding),
            canonical_state: copy_bytes(&self.canonical_state),
            prefix: copy_bytes(&self.prefix),
        }
    }
}

/// What an application-export checkpoint or receipt is.
#[verifier::ext_equal]
pub ghost struct ExportOperationV1View {
    pub operation_id: Identifier,
    pub lineage: Seq<char>,
    pub canonical_state: Seq<u8>,
}

/// An application-export checkpoint or receipt.
#[derive(Debug, PartialEq, Eq)]
pub struct StoredApplicationExportOperationV1 {
    pub operation_id: Identifier,
    pub lineage: String,
    pub canonical_state: Vec<u8>,
}

impl View for StoredApplicationExportOperationV1 {
    type V = ExportOperationV1View;

    open spec fn view(&self) -> ExportOperationV1View {
        ExportOperationV1View {
            operation_id: self.operation_id,
            lineage: self.lineage@,
            canonical_state: self.canonical_state@,
        }
    }
}

impl Clone for StoredApplicationExportOperationV1 {
    fn clone(&self) -> (result: StoredApplicationExportOperationV1)
        ensures
            result@ == self@,
    {
        StoredApplicationExportOperationV1 {
            operation_id: self.operation_id,
            lineage: self.lineage.clone(),
            canonical_state: copy_bytes(&self.canonical_state),
        }
    }
}

/// What a page of the export ledger is.
#[verifier::ext_equal]
pub ghost struct ExportPageView {
    pub canonical_bytes: Seq<u8>,
}

/// A page of the export ledger.
#[derive(Debug, PartialEq, Eq)]
pub struct ApplicationExportPageCommitmentV1 {
    pub canonical_bytes: Vec<u8>,
}

impl View for ApplicationExportPageCommitmentV1 {
    type V = ExportPageView;

    open spec fn view(&self) -> ExportPageView {
        ExportPageView {
            canonical_bytes: self.canonical_bytes@,
        }
    }
}

impl Clone for ApplicationExportPageCommitmentV1 {
    fn clone(&self) -> (result: ApplicationExportPageCommitmentV1)
        ensures
            result@ == self@,
    {
        ApplicationExportPageCommitmentV1 {
            canonical_bytes: copy_bytes(&self.canonical_bytes),
        }
    }
}

} // verus!
