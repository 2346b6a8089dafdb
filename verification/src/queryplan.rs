//! The query parameters that each operation reads, and of which kind.
use vstd::prelude::*;
use crate::operation::Operation;

verus! {

/// The name of a query parameter.
#[derive(Clone, Copy, PartialEq, Eq, Structural, Debug)]
pub enum QueryKey {
    /// `supported-features`
    SupportedFeatures,
    /// `plmn-id`
    PlmnId,
    /// `adjacent-plmns`
    AdjacentPlmns,
    /// `disaster-roaming-ind`
    DisasterRoamingInd,
    /// `af-id`
    AfId,
    /// `app-port-id`
    AppPortId,
    /// `af-service-id`
    AfServiceId,
    /// `mtc-provider-info`
    MtcProviderInfo,
    /// `requested-gpsi-type`
    RequestedGpsiType,
    /// `ext-group-id`
    ExtGroupId,
    /// `int-group-id`
    IntGroupId,
    /// `ue-id-ind`
    UeIdInd,
    /// `gpsi-list`
    GpsiList,
    /// `shared-data-ids`
    SharedDataIds,
    /// `supportedFeatures`
    SupportedFeaturesCamel,
    /// `dataset-names`
    DatasetNames,
    /// `single-nssai`
    SingleNssai,
    /// `dnn`
    Dnn,
    /// `uc-purpose`
    UcPurpose,
}

/// How an operation reads a query parameter.
#[derive(Clone, Copy, PartialEq, Eq, Structural, Debug)]
pub enum ParamKind {
    /// Free text: the first value, taken as it is.
    Text,
    /// A boolean: the first value, which must read `true` or `false`.
    Flag,
    /// A value of the data model: the first value, which must parse as one.
    Model,
    /// Every value, each of which is kept where it parses; none kept means absent.
    OptionalList,
    /// Every value, each of which is kept where it parses.
    RequiredList,
}

/// Whether a kind of parameter takes every value rather than the first.
pub open spec fn is_list(k: ParamKind) -> bool {
    k is OptionalList || k is RequiredList
}

/// The name of a query parameter, as it stands in a query.
pub open spec fn key_name(k: QueryKey) -> Seq<char> {
    match k {
        QueryKey::SupportedFeatures => "supported-features"@,
        QueryKey::PlmnId => "plmn-id"@,
        QueryKey::AdjacentPlmns => "adjacent-plmns"@,
        QueryKey::DisasterRoamingInd => "disaster-roaming-ind"@,
        QueryKey::AfId => "af-id"@,
        QueryKey::AppPortId => "app-port-id"@,
        QueryKey::AfServiceId => "af-service-id"@,
        QueryKey::MtcProviderInfo => "mtc-provider-info"@,
        QueryKey::RequestedGpsiType => "requested-gpsi-type"@,
        QueryKey::ExtGroupId => "ext-group-id"@,
        QueryKey::IntGroupId => "int-group-id"@,
        QueryKey::UeIdInd => "ue-id-ind"@,
        QueryKey::GpsiList => "gpsi-list"@,
        QueryKey::SharedDataIds => "shared-data-ids"@,
        QueryKey::SupportedFeaturesCamel => "supportedFeatures"@,
        QueryKey::DatasetNames => "dataset-names"@,
        QueryKey::SingleNssai => "single-nssai"@,
        QueryKey::Dnn => "dnn"@,
        QueryKey::UcPurpose => "uc-purpose"@,
    }
}

impl QueryKey {
    /// The name of this query parameter, as it stands in a query.
    pub fn name(&self) -> (r: &'static str)
        ensures
            r@ == key_name(*self),
    {
        match self {
            QueryKey::SupportedFeatures => "supported-features",
            QueryKey::PlmnId => "plmn-id",
            QueryKey::AdjacentPlmns => "adjacent-plmns",
            QueryKey::DisasterRoamingInd => "disaster-roaming-ind",
            QueryKey::AfId => "af-id",
            QueryKey::AppPortId => "app-port-id",
            QueryKey::AfServiceId => "af-service-id",
            QueryKey::MtcProviderInfo => "mtc-provider-info",
            QueryKey::RequestedGpsiType => "requested-gpsi-type",
            QueryKey::ExtGroupId => "ext-group-id",
            QueryKey::IntGroupId => "int-group-id",
            QueryKey::UeIdInd => "ue-id-ind",
            QueryKey::GpsiList => "gpsi-list",
            QueryKey::SharedDataIds => "shared-data-ids",
            QueryKey::SupportedFeaturesCamel => "supportedFeatures",
            QueryKey::DatasetNames => "dataset-names",
            QueryKey::SingleNssai => "single-nssai",
            QueryKey::Dnn => "dnn",
            QueryKey::UcPurpose => "uc-purpose",
        }
    }
}

/// The query parameters that an operation reads, in the order in which it reads them.
pub open spec fn spec_query_plan(op: Operation) -> Seq<(QueryKey, ParamKind)> {
    match op {
        Operation::GetAmData => seq![(QueryKey::SupportedFeatures, ParamKind::Text), (QueryKey::PlmnId, ParamKind::Model), (QueryKey::AdjacentPlmns, ParamKind::OptionalList), (QueryKey::DisasterRoamingInd, ParamKind::Flag)],
        Operation::GetMbsData => seq![(QueryKey::SupportedFeatures, ParamKind::Text)],
        Operation::GetEcrData => seq![(QueryKey::SupportedFeatures, ParamKind::Text)],
        Operation::GetSupiOrGpsi => seq![(QueryKey::SupportedFeatures, ParamKind::Text), (QueryKey::AfId, ParamKind::Text), (QueryKey::AppPortId, ParamKind::Model), (QueryKey::AfServiceId, ParamKind::Text), (QueryKey::MtcProviderInfo, ParamKind::Text), (QueryKey::RequestedGpsiType, ParamKind::Model)],
        Operation::GetGroupIdentifiers => seq![(QueryKey::ExtGroupId, ParamKind::Text), (QueryKey::IntGroupId, ParamKind::Text), (QueryKey::UeIdInd, ParamKind::Flag), (QueryKey::SupportedFeatures, ParamKind::Text), (QueryKey::AfId, ParamKind::Text)],
        Operation::GetLcsBcaData => seq![(QueryKey::SupportedFeatures, ParamKind::Text), (QueryKey::PlmnId, ParamKind::Model)],
        Operation::GetLcsMoData => seq![(QueryKey::SupportedFeatures, ParamKind::Text)],
        Operation::GetLcsPrivacyData => seq![(QueryKey::SupportedFeatures, ParamKind::Text)],
        Operation::GetMultipleIdentifiers => seq![(QueryKey::SupportedFeatures, ParamKind::Text), (QueryKey::GpsiList, ParamKind::RequiredList)],
        Operation::GetProseData => seq![(QueryKey::SupportedFeatures, ParamKind::Text)],
        Operation::CAgAck => seq![],
        Operation::SNssaisAck => seq![],
        Operation::SorAckInfo => seq![],
        Operation::UpuAck => seq![],
        Operation::GetSharedData => seq![(QueryKey::SharedDataIds, ParamKind::RequiredList), (QueryKey::SupportedFeaturesCamel, ParamKind::Text), (QueryKey::SupportedFeatures, ParamKind::Text)],
        Operation::GetDataSets => seq![(QueryKey::DatasetNames, ParamKind::RequiredList), (QueryKey::PlmnId, ParamKind::Model), (QueryKey::DisasterRoamingInd, ParamKind::Flag), (QueryKey::SupportedFeatures, ParamKind::Text)],
        Operation::GetIndividualSharedData => seq![(QueryKey::SupportedFeatures, ParamKind::Text)],
        Operation::GetSmfSelData => seq![(QueryKey::SupportedFeatures, ParamKind::Text), (QueryKey::PlmnId, ParamKind::Model), (QueryKey::DisasterRoamingInd, ParamKind::Flag)],
        Operation::GetSmsMngtData => seq![(QueryKey::SupportedFeatures, ParamKind::Text), (QueryKey::PlmnId, ParamKind::Model)],
        Operation::GetSmsData => seq![(QueryKey::SupportedFeatures, ParamKind::Text), (QueryKey::PlmnId, ParamKind::Model)],
        Operation::GetSmData => seq![(QueryKey::SupportedFeatures, ParamKind::Text), (QueryKey::SingleNssai, ParamKind::Model), (QueryKey::Dnn, ParamKind::Text), (QueryKey::PlmnId, ParamKind::Model)],
        Operation::GetNssai => seq![(QueryKey::SupportedFeatures, ParamKind::Text), (QueryKey::PlmnId, ParamKind::Model), (QueryKey::DisasterRoamingInd, ParamKind::Flag)],
        Operation::Subscribe => seq![],
        Operation::SubscribeToSharedData => seq![],
        Operation::Unsubscribe => seq![],
        Operation::UnsubscribeForSharedData => seq![],
        Operation::Modify => seq![(QueryKey::SupportedFeatures, ParamKind::Text)],
        Operation::ModifySharedDataSubs => seq![(QueryKey::SupportedFeatures, ParamKind::Text)],
        Operation::GetTraceConfigData => seq![(QueryKey::SupportedFeatures, ParamKind::Text), (QueryKey::PlmnId, ParamKind::Model)],
        Operation::UpdateSorInfo => seq![],
        Operation::GetUeCtxInAmfData => seq![(QueryKey::SupportedFeatures, ParamKind::Text)],
        Operation::GetUeCtxInSmfData => seq![(QueryKey::SupportedFeatures, ParamKind::Text)],
        Operation::GetUeCtxInSmsfData => seq![(QueryKey::SupportedFeatures, ParamKind::Text)],
        Operation::GetUcData => seq![(QueryKey::SupportedFeatures, ParamKind::Text), (QueryKey::UcPurpose, ParamKind::Model)],
        Operation::GetV2xData => seq![(QueryKey::SupportedFeatures, ParamKind::Text)],
    }
}

/// The query parameters that an operation reads, in the order in which it reads them.
pub fn query_plan(op: Operation) -> (plan: Vec<(QueryKey, ParamKind)>)
    ensures
        plan@ == spec_query_plan(op),
{
    let plan = match op {
        Operation::GetAmData => vec![(QueryKey::SupportedFeatures, ParamKind::Text), (QueryKey::PlmnId, ParamKind::Model), (QueryKey::AdjacentPlmns, ParamKind::OptionalList), (QueryKey::DisasterRoamingInd, ParamKind::Flag)],
        Operation::GetMbsData => vec![(QueryKey::SupportedFeatures, ParamKind::Text)],
        Operation::GetEcrData => vec![(QueryKey::SupportedFeatures, ParamKind::Text)],
        Operation::GetSupiOrGpsi => vec![(QueryKey::SupportedFeatures, ParamKind::Text), (QueryKey::AfId, ParamKind::Text), (QueryKey::AppPortId, ParamKind::Model), (QueryKey::AfServiceId, ParamKind::Text), (QueryKey::MtcProviderInfo, ParamKind::Text), (QueryKey::RequestedGpsiType, ParamKind::Model)],
        Operation::GetGroupIdentifiers => vec![(QueryKey::ExtGroupId, ParamKind::Text), (QueryKey::IntGroupId, ParamKind::Text), (QueryKey::UeIdInd, ParamKind::Flag), (QueryKey::SupportedFeatures, ParamKind::Text), (QueryKey::AfId, ParamKind::Text)],
        Operation::GetLcsBcaData => vec![(QueryKey::SupportedFeatures, ParamKind::Text), (QueryKey::PlmnId, ParamKind::Model)],
        Operation::GetLcsMoData => vec![(QueryKey::SupportedFeatures, ParamKind::Text)],
        Operation::GetLcsPrivacyData => vec![(QueryKey::SupportedFeatures, ParamKind::Text)],
        Operation::GetMultipleIdentifiers => vec![(QueryKey::SupportedFeatures, ParamKind::Text), (QueryKey::GpsiList, ParamKind::RequiredList)],
        Operation::GetProseData => vec![(QueryKey::SupportedFeatures, ParamKind::Text)],
        Operation::CAgAck => vec![],
        Operation::SNssaisAck => vec![],
        Operation::SorAckInfo => vec![],
        Operation::UpuAck => vec![],
        Operation::GetSharedData => vec![(QueryKey::SharedDataIds, ParamKind::RequiredList), (QueryKey::SupportedFeaturesCamel, ParamKind::Text), (QueryKey::SupportedFeatures, ParamKind::Text)],
        Operation::GetDataSets => vec![(QueryKey::DatasetNames, ParamKind::RequiredList), (QueryKey::PlmnId, ParamKind::Model), (QueryKey::DisasterRoamingInd, ParamKind::Flag), (QueryKey::SupportedFeatures, ParamKind::Text)],
        Operation::GetIndividualSharedData => vec![(QueryKey::SupportedFeatures, ParamKind::Text)],
        Operation::GetSmfSelData => vec![(QueryKey::SupportedFeatures, ParamKind::Text), (QueryKey::PlmnId, ParamKind::Model), (QueryKey::DisasterRoamingInd, ParamKind::Flag)],
        Operation::GetSmsMngtData => vec![(QueryKey::SupportedFeatures, ParamKind::Text), (QueryKey::PlmnId, ParamKind::Model)],
        Operation::GetSmsData => vec![(QueryKey::SupportedFeatures, ParamKind::Text), (QueryKey::PlmnId, ParamKind::Model)],
        Operation::GetSmData => vec![(QueryKey::SupportedFeatures, ParamKind::Text), (QueryKey::SingleNssai, ParamKind::Model), (QueryKey::Dnn, ParamKind::Text), (QueryKey::PlmnId, ParamKind::Model)],
        Operation::GetNssai => vec![(QueryKey::SupportedFeatures, ParamKind::Text), (QueryKey::PlmnId, ParamKind::Model), (QueryKey::DisasterRoamingInd, ParamKind::Flag)],
        Operation::Subscribe => vec![],
        Operation::SubscribeToSharedData => vec![],
        Operation::Unsubscribe => vec![],
        Operation::UnsubscribeForSharedData => vec![],
        Operation::Modify => vec![(QueryKey::SupportedFeatures, ParamKind::Text)],
        Operation::ModifySharedDataSubs => vec![(QueryKey::SupportedFeatures, ParamKind::Text)],
        Operation::GetTraceConfigData => vec![(QueryKey::SupportedFeatures, ParamKind::Text), (QueryKey::PlmnId, ParamKind::Model)],
        Operation::UpdateSorInfo => vec![],
        Operation::GetUeCtxInAmfData => vec![(QueryKey::SupportedFeatures, ParamKind::Text)],
        Operation::GetUeCtxInSmfData => vec![(QueryKey::SupportedFeatures, ParamKind::Text)],
        Operation::GetUeCtxInSmsfData => vec![(QueryKey::SupportedFeatures, ParamKind::Text)],
        Operation::GetUcData => vec![(QueryKey::SupportedFeatures, ParamKind::Text), (QueryKey::UcPurpose, ParamKind::Model)],
        Operation::GetV2xData => vec![(QueryKey::SupportedFeatures, ParamKind::Text)],
    };
    assert(plan@ =~= spec_query_plan(op));
    plan
}

} // verus!
