//! Application installation records as durable messages.

use vstd::prelude::*;

use crate::bytes::copy_bytes;
use crate::codec::envelope::{
    read_message, read_outcome, ruled, ruled_item, OutgoingRecord, ReadAttempt,
};
use crate::codec::error::{is_corrupt, DurableCodecError, DurableCodecErrorKind};
use crate::codec::parts::{
    digest_from_wire, identifier_carries, identifier_from_wire, identifier_to_wire, text_carries,
    text_from_wire, text_to_wire,
};
use crate::codec::record_type::RecordType;
use crate::page::EncodedPageItem;
use crate::stored::application_installation::{
    InstallationCampaignView, StoredApplicationInstallationCampaignV1,
};
use crate::value_error::StorageValueError;
use crate::wire;

verus! {

/// Whether a message is the form of an application-installation campaign.
pub open spec fn campaign_carries(
    message: wire::StoredApplicationInstallationCampaignV1,
    value: InstallationCampaignView,
) -> bool {
    &&& identifier_carries(message.campaign_id, value.campaign_id)
    &&& text_carries(message.contract_lineage, value.contract_lineage)
    &&& message.plan_hash@ == value.plan_hash.bytes@
    &&& message.canonical_state@ == value.canonical_state
}

/// A message is the form of at most one value.
pub proof fn campaign_form_is_exact(
    message: wire::StoredApplicationInstallationCampaignV1,
    a: InstallationCampaignView,
    b: InstallationCampaignView,
)
    requires
        campaign_carries(message, a),
        campaign_carries(message, b),
    ensures
        a == b,
{
    assert(a.campaign_id.bytes =~= b.campaign_id.bytes);
    assert(a.plan_hash.bytes =~= b.plan_hash.bytes);
}

/// The message form of an application-installation campaign.
pub fn campaign_to_proto(
    value: &StoredApplicationInstallationCampaignV1,
) -> (result: wire::StoredApplicationInstallationCampaignV1)
    ensures
        campaign_carries(result, value@),
{
    wire::StoredApplicationInstallationCampaignV1 {
        campaign_id: identifier_to_wire(value.campaign_id),
        contract_lineage: text_to_wire(&value.contract_lineage),
        plan_hash: copy_bytes(value.plan_hash.bytes.as_slice()),
        canonical_state: copy_bytes(&value.canonical_state),
    }
}

/// What reading a message gives: the value that it is the form of, or a
/// corruption where it is the form of no valid one.
pub open spec fn campaign_read(
    message: wire::StoredApplicationInstallationCampaignV1,
    result: Result<StoredApplicationInstallationCampaignV1, DurableCodecError>,
) -> bool {
    match result {
        Ok(held) => campaign_carries(message, held@),
        Err(error) => is_corrupt(error) && forall|other: InstallationCampaignView|
            !#[trigger] campaign_carries(message, other),
    }
}

/// Reads an application-installation campaign.
pub fn campaign_from_proto(
    value: &wire::StoredApplicationInstallationCampaignV1,
) -> (result: Result<
    StoredApplicationInstallationCampaignV1,
    DurableCodecError,
>)
    ensures
        campaign_read(*value, result),
{
    let campaign_id = identifier_from_wire(&value.campaign_id)?;
    let contract_lineage = text_from_wire(&value.contract_lineage)?;
    let plan_hash = digest_from_wire(&value.plan_hash)?;
    let canonical_state = copy_bytes(&value.canonical_state);
    Ok(
        StoredApplicationInstallationCampaignV1 {
            campaign_id,
            contract_lineage,
            plan_hash,
            canonical_state,
        },
    )
}

/// Reading the message form of an application-installation campaign gives back what was written.
pub proof fn campaign_round_trip(
    value: InstallationCampaignView,
    message: wire::StoredApplicationInstallationCampaignV1,
    read: Result<StoredApplicationInstallationCampaignV1, DurableCodecError>,
)
    requires
        campaign_carries(message, value),
        campaign_read(message, read),
    ensures
        read is Ok,
        read->Ok_0@ == value,
{
    if let Ok(held) = read {
        campaign_form_is_exact(message, held@, value);
    }
}

/// Encodes one exact opaque installation campaign state.
pub fn encode_application_installation_campaign_v1(
    value: &StoredApplicationInstallationCampaignV1,
) -> (result: OutgoingRecord<
    wire::StoredApplicationInstallationCampaignV1,
>)
    ensures
        result.record_type == RecordType::StoredApplicationInstallationCampaignV1,
        campaign_carries(result.message, value@),
{
    OutgoingRecord {
        record_type: RecordType::StoredApplicationInstallationCampaignV1,
        message: campaign_to_proto(value),
    }
}

/// Whether a message is the form of some valid value.
pub open spec fn campaign_readable(message: wire::StoredApplicationInstallationCampaignV1) -> bool {
    exists|value: InstallationCampaignView| #[trigger] campaign_carries(message, value)
}

/// Decodes one exact opaque installation campaign state.
pub fn decode_application_installation_campaign_v1<
    R: Fn(&StoredApplicationInstallationCampaignV1) -> Option<StorageValueError>,
>(
    attempt: ReadAttempt<wire::StoredApplicationInstallationCampaignV1>,
    rule: R,
) -> (result: Result<EncodedPageItem<StoredApplicationInstallationCampaignV1>, DurableCodecError>)
    requires
        forall|value: &StoredApplicationInstallationCampaignV1| #[trigger] rule.requires((value,)),
    ensures
        match read_outcome(RecordType::StoredApplicationInstallationCampaignV1, attempt) {
            Err(kind) =>
                result == Err::<EncodedPageItem<StoredApplicationInstallationCampaignV1>, _>(
                DurableCodecError { kind },
            ),
            Ok(message) => if campaign_readable(message) {
                exists|value: StoredApplicationInstallationCampaignV1| {
                    &&& campaign_carries(message, value@)
                    &&& #[trigger] ruled(rule, value, attempt.encoded_len, result)
                }
            } else {
                result == Err::<EncodedPageItem<StoredApplicationInstallationCampaignV1>, _>(
                    DurableCodecError { kind: DurableCodecErrorKind::CorruptData },
                )
            },
        },
{
    let encoded_len = attempt.encoded_len;
    let message = read_message(RecordType::StoredApplicationInstallationCampaignV1, attempt)?;
    let value = campaign_from_proto(&message)?;
    ruled_item(value, rule, encoded_len)
}

} // verus!
