//! Application installation records.

use vstd::prelude::*;

use crate::bytes::copy_bytes;
use crate::codec::parts::Identifier;
use crate::ids::Digest;

verus! {

/// What an application-installation campaign is.
#[verifier::ext_equal]
pub ghost struct InstallationCampaignView {
    pub campaign_id: Identifier,
    pub contract_lineage: Seq<char>,
    pub plan_hash: Digest,
    pub canonical_state: Seq<u8>,
}

/// An application-installation campaign.
#[derive(Debug, PartialEq, Eq)]
pub struct StoredApplicationInstallationCampaignV1 {
    pub campaign_id: Identifier,
    pub contract_lineage: String,
    pub plan_hash: Digest,
    pub canonical_state: Vec<u8>,
}

impl View for StoredApplicationInstallationCampaignV1 {
    type V = InstallationCampaignView;

    open spec fn view(&self) -> InstallationCampaignView {
        InstallationCampaignView {
            campaign_id: self.campaign_id,
            contract_lineage: self.contract_lineage@,
            plan_hash: self.plan_hash,
            canonical_state: self.canonical_state@,
        }
    }
}

impl Clone for StoredApplicationInstallationCampaignV1 {
    fn clone(&self) -> (result: StoredApplicationInstallationCampaignV1)
        ensures
            result@ == self@,
    {
        StoredApplicationInstallationCampaignV1 {
            campaign_id: self.campaign_id,
            contract_lineage: self.contract_lineage.clone(),
            plan_hash: self.plan_hash,
            canonical_state: copy_bytes(&self.canonical_state),
        }
    }
}

} // verus!
