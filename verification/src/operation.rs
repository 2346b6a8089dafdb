//! The operations of the service, in the order in which requests are tried
//! against them: the order of the service's table, except that
//! `GetSharedData` (`GET /shared-data`) comes before `GetDataSets`
//! (`GET /{supi}`), so that `GET /shared-data` reaches the operation that the
//! table documents for it.
use vstd::prelude::*;
use crate::route::Route;

verus! {

/// An HTTP request method.
#[derive(Clone, Copy, PartialEq, Eq, Structural, Debug)]
pub enum Method {
    Get,
    Put,
    Post,
    Delete,
    Patch,
    Head,
    Options,
    Connect,
    Trace,
    /// Any other method.
    Other,
}

/// An operation of the service.
#[derive(Clone, Copy, PartialEq, Eq, Structural, Debug)]
pub enum Operation {
    /// `GET /{supi}/am-data`
    GetAmData,
    /// `GET /{supi}/5mbs-data`
    GetMbsData,
    /// `GET /{supi}/am-data/ecr-data`
    GetEcrData,
    /// `GET /{ueId}/id-translation-result`
    GetSupiOrGpsi,
    /// `GET /group-data/group-identifiers`
    GetGroupIdentifiers,
    /// `GET /{supi}/lcs-bca-data`
    GetLcsBcaData,
    /// `GET /{supi}/lcs-mo-data`
    GetLcsMoData,
    /// `GET /{ueId}/lcs-privacy-data`
    GetLcsPrivacyData,
    /// `GET /multiple-identifiers`
    GetMultipleIdentifiers,
    /// `GET /{supi}/prose-data`
    GetProseData,
    /// `PUT /{supi}/am-data/cag-ack`
    CAgAck,
    /// `PUT /{supi}/am-data/subscribed-snssais-ack`
    SNssaisAck,
    /// `PUT /{supi}/am-data/sor-ack`
    SorAckInfo,
    /// `PUT /{supi}/am-data/upu-ack`
    UpuAck,
    /// `GET /shared-data`
    GetSharedData,
    /// `GET /{supi}`
    GetDataSets,
    /// `GET /shared-data/{sharedDataId}`
    GetIndividualSharedData,
    /// `GET /{supi}/smf-select-data`
    GetSmfSelData,
    /// `GET /{supi}/sms-mng-data`
    GetSmsMngtData,
    /// `GET /{supi}/sms-data`
    GetSmsData,
    /// `GET /{supi}/sm-data`
    GetSmData,
    /// `GET /{supi}/nssai`
    GetNssai,
    /// `POST /{ueId}/sdm-subscriptions`
    Subscribe,
    /// `POST /shared-data-subscriptions`
    SubscribeToSharedData,
    /// `DELETE /{ueId}/sdm-subscriptions/{subscriptionId}`
    Unsubscribe,
    /// `DELETE /shared-data-subscriptions/{subscriptionId}`
    UnsubscribeForSharedData,
    /// `PATCH /{ueId}/sdm-subscriptions/{subscriptionId}`
    Modify,
    /// `PATCH /shared-data-subscriptions/{subscriptionId}`
    ModifySharedDataSubs,
    /// `GET /{supi}/trace-data`
    GetTraceConfigData,
    /// `POST /{supi}/am-data/update-sor`
    UpdateSorInfo,
    /// `GET /{supi}/ue-context-in-amf-data`
    GetUeCtxInAmfData,
    /// `GET /{supi}/ue-context-in-smf-data`
    GetUeCtxInSmfData,
    /// `GET /{supi}/ue-context-in-smsf-data`
    GetUeCtxInSmsfData,
    /// `GET /{supi}/uc-data`
    GetUcData,
    /// `GET /{supi}/v2x-data`
    GetV2xData,
}

/// The number of operations.
pub const OPERATION_COUNT: usize = 35;

/// The request method of an operation.
pub open spec fn op_method(op: Operation) -> Method {
    match op {
        Operation::GetAmData => Method::Get,
        Operation::GetMbsData => Method::Get,
        Operation::GetEcrData => Method::Get,
        Operation::GetSupiOrGpsi => Method::Get,
        Operation::GetGroupIdentifiers => Method::Get,
        Operation::GetLcsBcaData => Method::Get,
        Operation::GetLcsMoData => Method::Get,
        Operation::GetLcsPrivacyData => Method::Get,
        Operation::GetMultipleIdentifiers => Method::Get,
        Operation::GetProseData => Method::Get,
        Operation::CAgAck => Method::Put,
        Operation::SNssaisAck => Method::Put,
        Operation::SorAckInfo => Method::Put,
        Operation::UpuAck => Method::Put,
        Operation::GetSharedData => Method::Get,
        Operation::GetDataSets => Method::Get,
        Operation::GetIndividualSharedData => Method::Get,
        Operation::GetSmfSelData => Method::Get,
        Operation::GetSmsMngtData => Method::Get,
        Operation::GetSmsData => Method::Get,
        Operation::GetSmData => Method::Get,
        Operation::GetNssai => Method::Get,
        Operation::Subscribe => Method::Post,
        Operation::SubscribeToSharedData => Method::Post,
        Operation::Unsubscribe => Method::Delete,
        Operation::UnsubscribeForSharedData => Method::Delete,
        Operation::Modify => Method::Patch,
        Operation::ModifySharedDataSubs => Method::Patch,
        Operation::GetTraceConfigData => Method::Get,
        Operation::UpdateSorInfo => Method::Post,
        Operation::GetUeCtxInAmfData => Method::Get,
        Operation::GetUeCtxInSmfData => Method::Get,
        Operation::GetUeCtxInSmsfData => Method::Get,
        Operation::GetUcData => Method::Get,
        Operation::GetV2xData => Method::Get,
    }
}

/// The route of an operation.
pub open spec fn op_route(op: Operation) -> Route {
    match op {
        Operation::GetAmData => Route::SupiAmData,
        Operation::GetMbsData => Route::Supi5mbsData,
        Operation::GetEcrData => Route::SupiAmDataEcrData,
        Operation::GetSupiOrGpsi => Route::UeIdIdTranslationResult,
        Operation::GetGroupIdentifiers => Route::GroupDataGroupIdentifiers,
        Operation::GetLcsBcaData => Route::SupiLcsBcaData,
        Operation::GetLcsMoData => Route::SupiLcsMoData,
        Operation::GetLcsPrivacyData => Route::UeIdLcsPrivacyData,
        Operation::GetMultipleIdentifiers => Route::MultipleIdentifiers,
        Operation::GetProseData => Route::SupiProseData,
        Operation::CAgAck => Route::SupiAmDataCagAck,
        Operation::SNssaisAck => Route::SupiAmDataSubscribedSnssaisAck,
        Operation::SorAckInfo => Route::SupiAmDataSorAck,
        Operation::UpuAck => Route::SupiAmDataUpuAck,
        Operation::GetSharedData => Route::SharedData,
        Operation::GetDataSets => Route::Supi,
        Operation::GetIndividualSharedData => Route::SharedDataSharedDataId,
        Operation::GetSmfSelData => Route::SupiSmfSelectData,
        Operation::GetSmsMngtData => Route::SupiSmsMngData,
        Operation::GetSmsData => Route::SupiSmsData,
        Operation::GetSmData => Route::SupiSmData,
        Operation::GetNssai => Route::SupiNssai,
        Operation::Subscribe => Route::UeIdSdmSubscriptions,
        Operation::SubscribeToSharedData => Route::SharedDataSubscriptions,
        Operation::Unsubscribe => Route::UeIdSdmSubscriptionsSubscriptionId,
        Operation::UnsubscribeForSharedData => Route::SharedDataSubscriptionsSubscriptionId,
        Operation::Modify => Route::UeIdSdmSubscriptionsSubscriptionId,
        Operation::ModifySharedDataSubs => Route::SharedDataSubscriptionsSubscriptionId,
        Operation::GetTraceConfigData => Route::SupiTraceData,
        Operation::UpdateSorInfo => Route::SupiAmDataUpdateSor,
        Operation::GetUeCtxInAmfData => Route::SupiUeContextInAmfData,
        Operation::GetUeCtxInSmfData => Route::SupiUeContextInSmfData,
        Operation::GetUeCtxInSmsfData => Route::SupiUeContextInSmsfData,
        Operation::GetUcData => Route::SupiUcData,
        Operation::GetV2xData => Route::SupiV2xData,
    }
}

/// The name of an operation.
pub open spec fn op_name(op: Operation) -> Seq<char> {
    match op {
        Operation::GetAmData => "GetAmData"@,
        Operation::GetMbsData => "GetMbsData"@,
        Operation::GetEcrData => "GetEcrData"@,
        Operation::GetSupiOrGpsi => "GetSupiOrGpsi"@,
        Operation::GetGroupIdentifiers => "GetGroupIdentifiers"@,
        Operation::GetLcsBcaData => "GetLcsBcaData"@,
        Operation::GetLcsMoData => "GetLcsMoData"@,
        Operation::GetLcsPrivacyData => "GetLcsPrivacyData"@,
        Operation::GetMultipleIdentifiers => "GetMultipleIdentifiers"@,
        Operation::GetProseData => "GetProseData"@,
        Operation::CAgAck => "CAgAck"@,
        Operation::SNssaisAck => "SNssaisAck"@,
        Operation::SorAckInfo => "SorAckInfo"@,
        Operation::UpuAck => "UpuAck"@,
        Operation::GetSharedData => "GetSharedData"@,
        Operation::GetDataSets => "GetDataSets"@,
        Operation::GetIndividualSharedData => "GetIndividualSharedData"@,
        Operation::GetSmfSelData => "GetSmfSelData"@,
        Operation::GetSmsMngtData => "GetSmsMngtData"@,
        Operation::GetSmsData => "GetSmsData"@,
        Operation::GetSmData => "GetSmData"@,
        Operation::GetNssai => "GetNssai"@,
        Operation::Subscribe => "Subscribe"@,
        Operation::SubscribeToSharedData => "SubscribeToSharedData"@,
        Operation::Unsubscribe => "Unsubscribe"@,
        Operation::UnsubscribeForSharedData => "UnsubscribeForSharedData"@,
        Operation::Modify => "Modify"@,
        Operation::ModifySharedDataSubs => "ModifySharedDataSubs"@,
        Operation::GetTraceConfigData => "GetTraceConfigData"@,
        Operation::UpdateSorInfo => "UpdateSorInfo"@,
        Operation::GetUeCtxInAmfData => "GetUeCtxInAmfData"@,
        Operation::GetUeCtxInSmfData => "GetUeCtxInSmfData"@,
        Operation::GetUeCtxInSmsfData => "GetUeCtxInSmsfData"@,
        Operation::GetUcData => "GetUcData"@,
        Operation::GetV2xData => "GetV2xData"@,
    }
}

/// The place of an operation in the order in which requests are tried against them.
pub open spec fn op_rank(op: Operation) -> nat {
    match op {
        Operation::GetAmData => 0,
        Operation::GetMbsData => 1,
        Operation::GetEcrData => 2,
        Operation::GetSupiOrGpsi => 3,
        Operation::GetGroupIdentifiers => 4,
        Operation::GetLcsBcaData => 5,
        Operation::GetLcsMoData => 6,
        Operation::GetLcsPrivacyData => 7,
        Operation::GetMultipleIdentifiers => 8,
        Operation::GetProseData => 9,
        Operation::CAgAck => 10,
        Operation::SNssaisAck => 11,
        Operation::SorAckInfo => 12,
        Operation::UpuAck => 13,
        Operation::GetSharedData => 14,
        Operation::GetDataSets => 15,
        Operation::GetIndividualSharedData => 16,
        Operation::GetSmfSelData => 17,
        Operation::GetSmsMngtData => 18,
        Operation::GetSmsData => 19,
        Operation::GetSmData => 20,
        Operation::GetNssai => 21,
        Operation::Subscribe => 22,
        Operation::SubscribeToSharedData => 23,
        Operation::Unsubscribe => 24,
        Operation::UnsubscribeForSharedData => 25,
        Operation::Modify => 26,
        Operation::ModifySharedDataSubs => 27,
        Operation::GetTraceConfigData => 28,
        Operation::UpdateSorInfo => 29,
        Operation::GetUeCtxInAmfData => 30,
        Operation::GetUeCtxInSmfData => 31,
        Operation::GetUeCtxInSmsfData => 32,
        Operation::GetUcData => 33,
        Operation::GetV2xData => 34,
    }
}

/// The operation at a given place in the order in which requests are tried against them.
pub open spec fn op_at(i: int) -> Operation {
    if i == 0 { Operation::GetAmData }
    else if i == 1 { Operation::GetMbsData }
    else if i == 2 { Operation::GetEcrData }
    else if i == 3 { Operation::GetSupiOrGpsi }
    else if i == 4 { Operation::GetGroupIdentifiers }
    else if i == 5 { Operation::GetLcsBcaData }
    else if i == 6 { Operation::GetLcsMoData }
    else if i == 7 { Operation::GetLcsPrivacyData }
    else if i == 8 { Operation::GetMultipleIdentifiers }
    else if i == 9 { Operation::GetProseData }
    else if i == 10 { Operation::CAgAck }
    else if i == 11 { Operation::SNssaisAck }
    else if i == 12 { Operation::SorAckInfo }
    else if i == 13 { Operation::UpuAck }
    else if i == 14 { Operation::GetSharedData }
    else if i == 15 { Operation::GetDataSets }
    else if i == 16 { Operation::GetIndividualSharedData }
    else if i == 17 { Operation::GetSmfSelData }
    else if i == 18 { Operation::GetSmsMngtData }
    else if i == 19 { Operation::GetSmsData }
    else if i == 20 { Operation::GetSmData }
    else if i == 21 { Operation::GetNssai }
    else if i == 22 { Operation::Subscribe }
    else if i == 23 { Operation::SubscribeToSharedData }
    else if i == 24 { Operation::Unsubscribe }
    else if i == 25 { Operation::UnsubscribeForSharedData }
    else if i == 26 { Operation::Modify }
    else if i == 27 { Operation::ModifySharedDataSubs }
    else if i == 28 { Operation::GetTraceConfigData }
    else if i == 29 { Operation::UpdateSorInfo }
    else if i == 30 { Operation::GetUeCtxInAmfData }
    else if i == 31 { Operation::GetUeCtxInSmfData }
    else if i == 32 { Operation::GetUeCtxInSmsfData }
    else if i == 33 { Operation::GetUcData }
    else { Operation::GetV2xData }
}

impl Operation {
    /// The request method of this operation.
    pub fn method(&self) -> (r: Method)
        ensures
            r == op_method(*self),
    {
        match self {
            Operation::GetAmData => Method::Get,
            Operation::GetMbsData => Method::Get,
            Operation::GetEcrData => Method::Get,
            Operation::GetSupiOrGpsi => Method::Get,
            Operation::GetGroupIdentifiers => Method::Get,
            Operation::GetLcsBcaData => Method::Get,
            Operation::GetLcsMoData => Method::Get,
            Operation::GetLcsPrivacyData => Method::Get,
            Operation::GetMultipleIdentifiers => Method::Get,
            Operation::GetProseData => Method::Get,
            Operation::CAgAck => Method::Put,
            Operation::SNssaisAck => Method::Put,
            Operation::SorAckInfo => Method::Put,
            Operation::UpuAck => Method::Put,
            Operation::GetSharedData => Method::Get,
            Operation::GetDataSets => Method::Get,
            Operation::GetIndividualSharedData => Method::Get,
            Operation::GetSmfSelData => Method::Get,
            Operation::GetSmsMngtData => Method::Get,
            Operation::GetSmsData => Method::Get,
            Operation::GetSmData => Method::Get,
            Operation::GetNssai => Method::Get,
            Operation::Subscribe => Method::Post,
            Operation::SubscribeToSharedData => Method::Post,
            Operation::Unsubscribe => Method::Delete,
            Operation::UnsubscribeForSharedData => Method::Delete,
            Operation::Modify => Method::Patch,
            Operation::ModifySharedDataSubs => Method::Patch,
            Operation::GetTraceConfigData => Method::Get,
            Operation::UpdateSorInfo => Method::Post,
            Operation::GetUeCtxInAmfData => Method::Get,
            Operation::GetUeCtxInSmfData => Method::Get,
            Operation::GetUeCtxInSmsfData => Method::Get,
            Operation::GetUcData => Method::Get,
            Operation::GetV2xData => Method::Get,
        }
    }

    /// The route of this operation.
    pub fn route(&self) -> (r: Route)
        ensures
            r == op_route(*self),
    {
        match self {
            Operation::GetAmData => Route::SupiAmData,
            Operation::GetMbsData => Route::Supi5mbsData,
            Operation::GetEcrData => Route::SupiAmDataEcrData,
            Operation::GetSupiOrGpsi => Route::UeIdIdTranslationResult,
            Operation::GetGroupIdentifiers => Route::GroupDataGroupIdentifiers,
            Operation::GetLcsBcaData => Route::SupiLcsBcaData,
            Operation::GetLcsMoData => Route::SupiLcsMoData,
            Operation::GetLcsPrivacyData => Route::UeIdLcsPrivacyData,
            Operation::GetMultipleIdentifiers => Route::MultipleIdentifiers,
            Operation::GetProseData => Route::SupiProseData,
            Operation::CAgAck => Route::SupiAmDataCagAck,
            Operation::SNssaisAck => Route::SupiAmDataSubscribedSnssaisAck,
            Operation::SorAckInfo => Route::SupiAmDataSorAck,
            Operation::UpuAck => Route::SupiAmDataUpuAck,
            Operation::GetSharedData => Route::SharedData,
            Operation::GetDataSets => Route::Supi,
            Operation::GetIndividualSharedData => Route::SharedDataSharedDataId,
            Operation::GetSmfSelData => Route::SupiSmfSelectData,
            Operation::GetSmsMngtData => Route::SupiSmsMngData,
            Operation::GetSmsData => Route::SupiSmsData,
            Operation::GetSmData => Route::SupiSmData,
            Operation::GetNssai => Route::SupiNssai,
            Operation::Subscribe => Route::UeIdSdmSubscriptions,
            Operation::SubscribeToSharedData => Route::SharedDataSubscriptions,
            Operation::Unsubscribe => Route::UeIdSdmSubscriptionsSubscriptionId,
            Operation::UnsubscribeForSharedData => Route::SharedDataSubscriptionsSubscriptionId,
            Operation::Modify => Route::UeIdSdmSubscriptionsSubscriptionId,
            Operation::ModifySharedDataSubs => Route::SharedDataSubscriptionsSubscriptionId,
            Operation::GetTraceConfigData => Route::SupiTraceData,
            Operation::UpdateSorInfo => Route::SupiAmDataUpdateSor,
            Operation::GetUeCtxInAmfData => Route::SupiUeContextInAmfData,
            Operation::GetUeCtxInSmfData => Route::SupiUeContextInSmfData,
            Operation::GetUeCtxInSmsfData => Route::SupiUeContextInSmsfData,
            Operation::GetUcData => Route::SupiUcData,
            Operation::GetV2xData => Route::SupiV2xData,
        }
    }

    /// The name of this operation.
    pub fn name(&self) -> (r: &'static str)
        ensures
            r@ == op_name(*self),
    {
        match self {
            Operation::GetAmData => "GetAmData",
            Operation::GetMbsData => "GetMbsData",
            Operation::GetEcrData => "GetEcrData",
            Operation::GetSupiOrGpsi => "GetSupiOrGpsi",
            Operation::GetGroupIdentifiers => "GetGroupIdentifiers",
            Operation::GetLcsBcaData => "GetLcsBcaData",
            Operation::GetLcsMoData => "GetLcsMoData",
            Operation::GetLcsPrivacyData => "GetLcsPrivacyData",
            Operation::GetMultipleIdentifiers => "GetMultipleIdentifiers",
            Operation::GetProseData => "GetProseData",
            Operation::CAgAck => "CAgAck",
            Operation::SNssaisAck => "SNssaisAck",
            Operation::SorAckInfo => "SorAckInfo",
            Operation::UpuAck => "UpuAck",
            Operation::GetSharedData => "GetSharedData",
            Operation::GetDataSets => "GetDataSets",
            Operation::GetIndividualSharedData => "GetIndividualSharedData",
            Operation::GetSmfSelData => "GetSmfSelData",
            Operation::GetSmsMngtData => "GetSmsMngtData",
            Operation::GetSmsData => "GetSmsData",
            Operation::GetSmData => "GetSmData",
            Operation::GetNssai => "GetNssai",
            Operation::Subscribe => "Subscribe",
            Operation::SubscribeToSharedData => "SubscribeToSharedData",
            Operation::Unsubscribe => "Unsubscribe",
            Operation::UnsubscribeForSharedData => "UnsubscribeForSharedData",
            Operation::Modify => "Modify",
            Operation::ModifySharedDataSubs => "ModifySharedDataSubs",
            Operation::GetTraceConfigData => "GetTraceConfigData",
            Operation::UpdateSorInfo => "UpdateSorInfo",
            Operation::GetUeCtxInAmfData => "GetUeCtxInAmfData",
            Operation::GetUeCtxInSmfData => "GetUeCtxInSmfData",
            Operation::GetUeCtxInSmsfData => "GetUeCtxInSmsfData",
            Operation::GetUcData => "GetUcData",
            Operation::GetV2xData => "GetV2xData",
        }
    }

    /// The operation at a given place in the order in which requests are tried against them.
    pub fn at(i: usize) -> (op: Operation)
        requires
            i < OPERATION_COUNT,
        ensures
            op == op_at(i as int),
            op_rank(op) == i,
    {
        if i == 0 { Operation::GetAmData }
        else if i == 1 { Operation::GetMbsData }
        else if i == 2 { Operation::GetEcrData }
        else if i == 3 { Operation::GetSupiOrGpsi }
        else if i == 4 { Operation::GetGroupIdentifiers }
        else if i == 5 { Operation::GetLcsBcaData }
        else if i == 6 { Operation::GetLcsMoData }
        else if i == 7 { Operation::GetLcsPrivacyData }
        else if i == 8 { Operation::GetMultipleIdentifiers }
        else if i == 9 { Operation::GetProseData }
        else if i == 10 { Operation::CAgAck }
        else if i == 11 { Operation::SNssaisAck }
        else if i == 12 { Operation::SorAckInfo }
        else if i == 13 { Operation::UpuAck }
        else if i == 14 { Operation::GetSharedData }
        else if i == 15 { Operation::GetDataSets }
        else if i == 16 { Operation::GetIndividualSharedData }
        else if i == 17 { Operation::GetSmfSelData }
        else if i == 18 { Operation::GetSmsMngtData }
        else if i == 19 { Operation::GetSmsData }
        else if i == 20 { Operation::GetSmData }
        else if i == 21 { Operation::GetNssai }
        else if i == 22 { Operation::Subscribe }
        else if i == 23 { Operation::SubscribeToSharedData }
        else if i == 24 { Operation::Unsubscribe }
        else if i == 25 { Operation::UnsubscribeForSharedData }
        else if i == 26 { Operation::Modify }
        else if i == 27 { Operation::ModifySharedDataSubs }
        else if i == 28 { Operation::GetTraceConfigData }
        else if i == 29 { Operation::UpdateSorInfo }
        else if i == 30 { Operation::GetUeCtxInAmfData }
        else if i == 31 { Operation::GetUeCtxInSmfData }
        else if i == 32 { Operation::GetUeCtxInSmsfData }
        else if i == 33 { Operation::GetUcData }
        else { Operation::GetV2xData }
    }
}

/// Each operation stands at its own place in the order.
pub proof fn lemma_op_at_rank(op: Operation)
    ensures
        op_rank(op) < OPERATION_COUNT,
        op_at(op_rank(op) as int) == op,
{
}

/// Whether an operation reads the conditional request headers.
pub open spec fn reads_conditional_headers(op: Operation) -> bool {
    match op {
        Operation::GetAmData => true,
        Operation::GetMbsData => true,
        Operation::GetEcrData => true,
        Operation::GetSupiOrGpsi => true,
        Operation::GetGroupIdentifiers => true,
        Operation::GetLcsBcaData => true,
        Operation::GetLcsMoData => true,
        Operation::GetLcsPrivacyData => true,
        Operation::GetMultipleIdentifiers => false,
        Operation::GetProseData => true,
        Operation::CAgAck => false,
        Operation::SNssaisAck => false,
        Operation::SorAckInfo => false,
        Operation::UpuAck => false,
        Operation::GetSharedData => true,
        Operation::GetDataSets => true,
        Operation::GetIndividualSharedData => true,
        Operation::GetSmfSelData => true,
        Operation::GetSmsMngtData => true,
        Operation::GetSmsData => true,
        Operation::GetSmData => true,
        Operation::GetNssai => true,
        Operation::Subscribe => false,
        Operation::SubscribeToSharedData => false,
        Operation::Unsubscribe => false,
        Operation::UnsubscribeForSharedData => false,
        Operation::Modify => false,
        Operation::ModifySharedDataSubs => false,
        Operation::GetTraceConfigData => true,
        Operation::UpdateSorInfo => false,
        Operation::GetUeCtxInAmfData => false,
        Operation::GetUeCtxInSmfData => false,
        Operation::GetUeCtxInSmsfData => false,
        Operation::GetUcData => true,
        Operation::GetV2xData => true,
    }
}

/// The body parameter of an operation.
#[derive(Clone, Copy, PartialEq, Eq, Structural, Debug)]
pub enum BodyParam {
    AcknowledgeInfo,
    SdmSubscription,
    SdmSubsModification,
    SorUpdateInfo,
}

/// The name of a body parameter, as the answers give it.
pub open spec fn body_name(b: BodyParam) -> Seq<char> {
    match b {
        BodyParam::AcknowledgeInfo => "AcknowledgeInfo"@,
        BodyParam::SdmSubscription => "SdmSubscription"@,
        BodyParam::SdmSubsModification => "SdmSubsModification"@,
        BodyParam::SorUpdateInfo => "SorUpdateInfo"@,
    }
}

impl BodyParam {
    /// The name of this body parameter, as the answers give it.
    pub fn name(&self) -> (r: &'static str)
        ensures
            r@ == body_name(*self),
    {
        match self {
            BodyParam::AcknowledgeInfo => "AcknowledgeInfo",
            BodyParam::SdmSubscription => "SdmSubscription",
            BodyParam::SdmSubsModification => "SdmSubsModification",
            BodyParam::SorUpdateInfo => "SorUpdateInfo",
        }
    }
}

/// A path parameter of an operation.
#[derive(Clone, Copy, PartialEq, Eq, Structural, Debug)]
pub enum PathParam {
    Supi,
    UeId,
    SubscriptionId,
    SharedDataId,
}

/// The name of a path parameter, as the answers give it.
pub open spec fn path_param_name(p: PathParam) -> Seq<char> {
    match p {
        PathParam::Supi => "supi"@,
        PathParam::UeId => "ueId"@,
        PathParam::SubscriptionId => "subscriptionId"@,
        PathParam::SharedDataId => "sharedDataId"@,
    }
}

/// Whether a path parameter is a value of the data model, which must parse;
/// the others are free text.
pub open spec fn path_param_is_model(p: PathParam) -> bool {
    p == PathParam::SharedDataId
}

impl PathParam {
    /// The name of this path parameter, as the answers give it.
    pub fn name(&self) -> (r: &'static str)
        ensures
            r@ == path_param_name(*self),
    {
        match self {
            PathParam::Supi => "supi",
            PathParam::UeId => "ueId",
            PathParam::SubscriptionId => "subscriptionId",
            PathParam::SharedDataId => "sharedDataId",
        }
    }

    /// Whether this path parameter is a value of the data model.
    pub fn is_model(&self) -> (b: bool)
        ensures
            b == path_param_is_model(*self),
    {
        match self {
            PathParam::SharedDataId => true,
            _ => false,
        }
    }
}

/// The path parameters of an operation, in the order of its route's template.
pub open spec fn op_path_params(op: Operation) -> Seq<PathParam> {
    match op {
        Operation::GetAmData => seq![PathParam::Supi],
        Operation::GetMbsData => seq![PathParam::Supi],
        Operation::GetEcrData => seq![PathParam::Supi],
        Operation::GetSupiOrGpsi => seq![PathParam::UeId],
        Operation::GetGroupIdentifiers => seq![],
        Operation::GetLcsBcaData => seq![PathParam::Supi],
        Operation::GetLcsMoData => seq![PathParam::Supi],
        Operation::GetLcsPrivacyData => seq![PathParam::UeId],
        Operation::GetMultipleIdentifiers => seq![],
        Operation::GetProseData => seq![PathParam::Supi],
        Operation::CAgAck => seq![PathParam::Supi],
        Operation::SNssaisAck => seq![PathParam::Supi],
        Operation::SorAckInfo => seq![PathParam::Supi],
        Operation::UpuAck => seq![PathParam::Supi],
        Operation::GetSharedData => seq![],
        Operation::GetDataSets => seq![PathParam::Supi],
        Operation::GetIndividualSharedData => seq![PathParam::SharedDataId],
        Operation::GetSmfSelData => seq![PathParam::Supi],
        Operation::GetSmsMngtData => seq![PathParam::Supi],
        Operation::GetSmsData => seq![PathParam::Supi],
        Operation::GetSmData => seq![PathParam::Supi],
        Operation::GetNssai => seq![PathParam::Supi],
        Operation::Subscribe => seq![PathParam::UeId],
        Operation::SubscribeToSharedData => seq![],
        Operation::Unsubscribe => seq![PathParam::UeId, PathParam::SubscriptionId],
        Operation::UnsubscribeForSharedData => seq![PathParam::SubscriptionId],
        Operation::Modify => seq![PathParam::UeId, PathParam::SubscriptionId],
        Operation::ModifySharedDataSubs => seq![PathParam::SubscriptionId],
        Operation::GetTraceConfigData => seq![PathParam::Supi],
        Operation::UpdateSorInfo => seq![PathParam::Supi],
        Operation::GetUeCtxInAmfData => seq![PathParam::Supi],
        Operation::GetUeCtxInSmfData => seq![PathParam::Supi],
        Operation::GetUeCtxInSmsfData => seq![PathParam::Supi],
        Operation::GetUcData => seq![PathParam::Supi],
        Operation::GetV2xData => seq![PathParam::Supi],
    }
}

/// The body parameter of an operation, and whether it is required.
pub open spec fn op_body(op: Operation) -> Option<(BodyParam, bool)> {
    match op {
        Operation::GetAmData => None,
        Operation::GetMbsData => None,
        Operation::GetEcrData => None,
        Operation::GetSupiOrGpsi => None,
        Operation::GetGroupIdentifiers => None,
        Operation::GetLcsBcaData => None,
        Operation::GetLcsMoData => None,
        Operation::GetLcsPrivacyData => None,
        Operation::GetMultipleIdentifiers => None,
        Operation::GetProseData => None,
        Operation::CAgAck => Some((BodyParam::AcknowledgeInfo, false)),
        Operation::SNssaisAck => Some((BodyParam::AcknowledgeInfo, false)),
        Operation::SorAckInfo => Some((BodyParam::AcknowledgeInfo, false)),
        Operation::UpuAck => Some((BodyParam::AcknowledgeInfo, false)),
        Operation::GetSharedData => None,
        Operation::GetDataSets => None,
        Operation::GetIndividualSharedData => None,
        Operation::GetSmfSelData => None,
        Operation::GetSmsMngtData => None,
        Operation::GetSmsData => None,
        Operation::GetSmData => None,
        Operation::GetNssai => None,
        Operation::Subscribe => Some((BodyParam::SdmSubscription, true)),
        Operation::SubscribeToSharedData => Some((BodyParam::SdmSubscription, true)),
        Operation::Unsubscribe => None,
        Operation::UnsubscribeForSharedData => None,
        Operation::Modify => Some((BodyParam::SdmSubsModification, true)),
        Operation::ModifySharedDataSubs => Some((BodyParam::SdmSubsModification, true)),
        Operation::GetTraceConfigData => None,
        Operation::UpdateSorInfo => Some((BodyParam::SorUpdateInfo, false)),
        Operation::GetUeCtxInAmfData => None,
        Operation::GetUeCtxInSmfData => None,
        Operation::GetUeCtxInSmsfData => None,
        Operation::GetUcData => None,
        Operation::GetV2xData => None,
    }
}

/// A kind of answer that an operation's implementation gives.
#[derive(Clone, Copy, PartialEq, Eq, Structural, Debug)]
pub enum Reply {
    /// `ExpectedResponseToAValidRequest`
    Expected,
    /// `SuccessfulAcknowledgement`
    Acknowledged,
    /// `SuccessfulResponse`
    Succeeded,
    BadRequest,
    Unauthorized,
    Forbidden,
    NotFound,
    /// `Status406`
    NotAcceptable,
    TooManyRequests,
    InternalServerError,
    NotImplemented,
    BadGateway,
    ServiceUnavailable,
    UnexpectedError,
}

/// Whether an operation's implementation can give a kind of answer.
pub open spec fn op_has_reply(op: Operation, r: Reply) -> bool {
    match op {
        Operation::GetAmData => r == Reply::Expected || r == Reply::BadRequest || r == Reply::NotFound || r == Reply::InternalServerError || r == Reply::ServiceUnavailable || r == Reply::UnexpectedError,
        Operation::GetMbsData => r == Reply::Expected || r == Reply::BadRequest || r == Reply::NotFound || r == Reply::InternalServerError || r == Reply::ServiceUnavailable || r == Reply::UnexpectedError,
        Operation::GetEcrData => r == Reply::Expected || r == Reply::BadRequest || r == Reply::NotFound || r == Reply::InternalServerError || r == Reply::ServiceUnavailable || r == Reply::UnexpectedError,
        Operation::GetSupiOrGpsi => r == Reply::Expected || r == Reply::BadRequest || r == Reply::Forbidden || r == Reply::NotFound || r == Reply::InternalServerError || r == Reply::ServiceUnavailable || r == Reply::UnexpectedError,
        Operation::GetGroupIdentifiers => r == Reply::Expected || r == Reply::BadRequest || r == Reply::Forbidden || r == Reply::NotFound || r == Reply::InternalServerError || r == Reply::ServiceUnavailable || r == Reply::UnexpectedError,
        Operation::GetLcsBcaData => r == Reply::Expected || r == Reply::BadRequest || r == Reply::NotFound || r == Reply::InternalServerError || r == Reply::ServiceUnavailable || r == Reply::UnexpectedError,
        Operation::GetLcsMoData => r == Reply::Expected || r == Reply::BadRequest || r == Reply::NotFound || r == Reply::InternalServerError || r == Reply::ServiceUnavailable || r == Reply::UnexpectedError,
        Operation::GetLcsPrivacyData => r == Reply::Expected || r == Reply::BadRequest || r == Reply::NotFound || r == Reply::InternalServerError || r == Reply::ServiceUnavailable || r == Reply::UnexpectedError,
        Operation::GetMultipleIdentifiers => r == Reply::Expected || r == Reply::BadRequest || r == Reply::Unauthorized || r == Reply::Forbidden || r == Reply::NotFound || r == Reply::NotAcceptable || r == Reply::TooManyRequests || r == Reply::InternalServerError || r == Reply::BadGateway || r == Reply::ServiceUnavailable || r == Reply::UnexpectedError,
        Operation::GetProseData => r == Reply::Expected || r == Reply::BadRequest || r == Reply::NotFound || r == Reply::InternalServerError || r == Reply::ServiceUnavailable || r == Reply::UnexpectedError,
        Operation::CAgAck => r == Reply::Acknowledged || r == Reply::BadRequest || r == Reply::InternalServerError || r == Reply::ServiceUnavailable || r == Reply::UnexpectedError,
        Operation::SNssaisAck => r == Reply::Acknowledged || r == Reply::BadRequest || r == Reply::InternalServerError || r == Reply::ServiceUnavailable || r == Reply::UnexpectedError,
        Operation::SorAckInfo => r == Reply::Acknowledged || r == Reply::BadRequest || r == Reply::InternalServerError || r == Reply::ServiceUnavailable || r == Reply::UnexpectedError,
        Operation::UpuAck => r == Reply::Acknowledged || r == Reply::BadRequest || r == Reply::InternalServerError || r == Reply::ServiceUnavailable || r == Reply::UnexpectedError,
        Operation::GetSharedData => r == Reply::Expected || r == Reply::BadRequest || r == Reply::NotFound || r == Reply::InternalServerError || r == Reply::ServiceUnavailable || r == Reply::UnexpectedError,
        Operation::GetDataSets => r == Reply::Expected || r == Reply::BadRequest || r == Reply::NotFound || r == Reply::InternalServerError || r == Reply::ServiceUnavailable || r == Reply::UnexpectedError,
        Operation::GetIndividualSharedData => r == Reply::Expected || r == Reply::BadRequest || r == Reply::NotFound || r == Reply::InternalServerError || r == Reply::ServiceUnavailable || r == Reply::UnexpectedError,
        Operation::GetSmfSelData => r == Reply::Expected || r == Reply::BadRequest || r == Reply::NotFound || r == Reply::InternalServerError || r == Reply::ServiceUnavailable || r == Reply::UnexpectedError,
        Operation::GetSmsMngtData => r == Reply::Expected || r == Reply::BadRequest || r == Reply::NotFound || r == Reply::InternalServerError || r == Reply::ServiceUnavailable || r == Reply::UnexpectedError,
        Operation::GetSmsData => r == Reply::Expected || r == Reply::BadRequest || r == Reply::NotFound || r == Reply::InternalServerError || r == Reply::ServiceUnavailable || r == Reply::UnexpectedError,
        Operation::GetSmData => r == Reply::Expected || r == Reply::BadRequest || r == Reply::NotFound || r == Reply::InternalServerError || r == Reply::ServiceUnavailable || r == Reply::UnexpectedError,
        Operation::GetNssai => r == Reply::Expected || r == Reply::BadRequest || r == Reply::NotFound || r == Reply::InternalServerError || r == Reply::ServiceUnavailable || r == Reply::UnexpectedError,
        Operation::Subscribe => r == Reply::Expected || r == Reply::BadRequest || r == Reply::NotFound || r == Reply::InternalServerError || r == Reply::NotImplemented || r == Reply::ServiceUnavailable || r == Reply::UnexpectedError,
        Operation::SubscribeToSharedData => r == Reply::Expected || r == Reply::BadRequest || r == Reply::NotFound || r == Reply::UnexpectedError,
        Operation::Unsubscribe => r == Reply::Succeeded || r == Reply::BadRequest || r == Reply::NotFound || r == Reply::InternalServerError || r == Reply::ServiceUnavailable || r == Reply::UnexpectedError,
        Operation::UnsubscribeForSharedData => r == Reply::Succeeded || r == Reply::BadRequest || r == Reply::NotFound || r == Reply::InternalServerError || r == Reply::ServiceUnavailable || r == Reply::UnexpectedError,
        Operation::Modify => r == Reply::Expected || r == Reply::BadRequest || r == Reply::Forbidden || r == Reply::NotFound || r == Reply::InternalServerError || r == Reply::ServiceUnavailable || r == Reply::UnexpectedError,
        Operation::ModifySharedDataSubs => r == Reply::Expected || r == Reply::BadRequest || r == Reply::Forbidden || r == Reply::NotFound || r == Reply::InternalServerError || r == Reply::ServiceUnavailable || r == Reply::UnexpectedError,
        Operation::GetTraceConfigData => r == Reply::Expected || r == Reply::BadRequest || r == Reply::NotFound || r == Reply::InternalServerError || r == Reply::ServiceUnavailable || r == Reply::UnexpectedError,
        Operation::UpdateSorInfo => r == Reply::Expected || r == Reply::BadRequest || r == Reply::NotFound || r == Reply::InternalServerError || r == Reply::ServiceUnavailable || r == Reply::UnexpectedError,
        Operation::GetUeCtxInAmfData => r == Reply::Expected || r == Reply::BadRequest || r == Reply::NotFound || r == Reply::InternalServerError || r == Reply::ServiceUnavailable || r == Reply::UnexpectedError,
        Operation::GetUeCtxInSmfData => r == Reply::Expected || r == Reply::BadRequest || r == Reply::NotFound || r == Reply::InternalServerError || r == Reply::ServiceUnavailable || r == Reply::UnexpectedError,
        Operation::GetUeCtxInSmsfData => r == Reply::Expected || r == Reply::BadRequest || r == Reply::NotFound || r == Reply::InternalServerError || r == Reply::ServiceUnavailable || r == Reply::UnexpectedError,
        Operation::GetUcData => r == Reply::Expected || r == Reply::BadRequest || r == Reply::NotFound || r == Reply::InternalServerError || r == Reply::ServiceUnavailable || r == Reply::UnexpectedError,
        Operation::GetV2xData => r == Reply::Expected || r == Reply::BadRequest || r == Reply::NotFound || r == Reply::InternalServerError || r == Reply::ServiceUnavailable || r == Reply::UnexpectedError,
    }
}

impl Operation {
    /// Whether this operation reads the conditional request headers.
    pub fn reads_conditional_headers(&self) -> (r: bool)
        ensures
            r == reads_conditional_headers(*self),
    {
        match self {
            Operation::GetAmData => true,
            Operation::GetMbsData => true,
            Operation::GetEcrData => true,
            Operation::GetSupiOrGpsi => true,
            Operation::GetGroupIdentifiers => true,
            Operation::GetLcsBcaData => true,
            Operation::GetLcsMoData => true,
            Operation::GetLcsPrivacyData => true,
            Operation::GetMultipleIdentifiers => false,
            Operation::GetProseData => true,
            Operation::CAgAck => false,
            Operation::SNssaisAck => false,
            Operation::SorAckInfo => false,
            Operation::UpuAck => false,
            Operation::GetSharedData => true,
            Operation::GetDataSets => true,
            Operation::GetIndividualSharedData => true,
            Operation::GetSmfSelData => true,
            Operation::GetSmsMngtData => true,
            Operation::GetSmsData => true,
            Operation::GetSmData => true,
            Operation::GetNssai => true,
            Operation::Subscribe => false,
            Operation::SubscribeToSharedData => false,
            Operation::Unsubscribe => false,
            Operation::UnsubscribeForSharedData => false,
            Operation::Modify => false,
            Operation::ModifySharedDataSubs => false,
            Operation::GetTraceConfigData => true,
            Operation::UpdateSorInfo => false,
            Operation::GetUeCtxInAmfData => false,
            Operation::GetUeCtxInSmfData => false,
            Operation::GetUeCtxInSmsfData => false,
            Operation::GetUcData => true,
            Operation::GetV2xData => true,
        }
    }

    /// The path parameters of this operation, in the order of its route's template.
    pub fn path_params(&self) -> (r: Vec<PathParam>)
        ensures
            r@ == op_path_params(*self),
    {
        let r = match self {
            Operation::GetAmData => vec![PathParam::Supi],
            Operation::GetMbsData => vec![PathParam::Supi],
            Operation::GetEcrData => vec![PathParam::Supi],
            Operation::GetSupiOrGpsi => vec![PathParam::UeId],
            Operation::GetGroupIdentifiers => vec![],
            Operation::GetLcsBcaData => vec![PathParam::Supi],
            Operation::GetLcsMoData => vec![PathParam::Supi],
            Operation::GetLcsPrivacyData => vec![PathParam::UeId],
            Operation::GetMultipleIdentifiers => vec![],
            Operation::GetProseData => vec![PathParam::Supi],
            Operation::CAgAck => vec![PathParam::Supi],
            Operation::SNssaisAck => vec![PathParam::Supi],
            Operation::SorAckInfo => vec![PathParam::Supi],
            Operation::UpuAck => vec![PathParam::Supi],
            Operation::GetSharedData => vec![],
            Operation::GetDataSets => vec![PathParam::Supi],
            Operation::GetIndividualSharedData => vec![PathParam::SharedDataId],
            Operation::GetSmfSelData => vec![PathParam::Supi],
            Operation::GetSmsMngtData => vec![PathParam::Supi],
            Operation::GetSmsData => vec![PathParam::Supi],
            Operation::GetSmData => vec![PathParam::Supi],
            Operation::GetNssai => vec![PathParam::Supi],
            Operation::Subscribe => vec![PathParam::UeId],
            Operation::SubscribeToSharedData => vec![],
            Operation::Unsubscribe => vec![PathParam::UeId, PathParam::SubscriptionId],
            Operation::UnsubscribeForSharedData => vec![PathParam::SubscriptionId],
            Operation::Modify => vec![PathParam::UeId, PathParam::SubscriptionId],
            Operation::ModifySharedDataSubs => vec![PathParam::SubscriptionId],
            Operation::GetTraceConfigData => vec![PathParam::Supi],
            Operation::UpdateSorInfo => vec![PathParam::Supi],
            Operation::GetUeCtxInAmfData => vec![PathParam::Supi],
            Operation::GetUeCtxInSmfData => vec![PathParam::Supi],
            Operation::GetUeCtxInSmsfData => vec![PathParam::Supi],
            Operation::GetUcData => vec![PathParam::Supi],
            Operation::GetV2xData => vec![PathParam::Supi],
        };
        assert(r@ =~= op_path_params(*self));
        r
    }

    /// The body parameter of this operation, and whether it is required.
    pub fn body(&self) -> (r: Option<(BodyParam, bool)>)
        ensures
            r == op_body(*self),
    {
        match self {
            Operation::GetAmData => None,
            Operation::GetMbsData => None,
            Operation::GetEcrData => None,
            Operation::GetSupiOrGpsi => None,
            Operation::GetGroupIdentifiers => None,
            Operation::GetLcsBcaData => None,
            Operation::GetLcsMoData => None,
            Operation::GetLcsPrivacyData => None,
            Operation::GetMultipleIdentifiers => None,
            Operation::GetProseData => None,
            Operation::CAgAck => Some((BodyParam::AcknowledgeInfo, false)),
            Operation::SNssaisAck => Some((BodyParam::AcknowledgeInfo, false)),
            Operation::SorAckInfo => Some((BodyParam::AcknowledgeInfo, false)),
            Operation::UpuAck => Some((BodyParam::AcknowledgeInfo, false)),
            Operation::GetSharedData => None,
            Operation::GetDataSets => None,
            Operation::GetIndividualSharedData => None,
            Operation::GetSmfSelData => None,
            Operation::GetSmsMngtData => None,
            Operation::GetSmsData => None,
            Operation::GetSmData => None,
            Operation::GetNssai => None,
            Operation::Subscribe => Some((BodyParam::SdmSubscription, true)),
            Operation::SubscribeToSharedData => Some((BodyParam::SdmSubscription, true)),
            Operation::Unsubscribe => None,
            Operation::UnsubscribeForSharedData => None,
            Operation::Modify => Some((BodyParam::SdmSubsModification, true)),
            Operation::ModifySharedDataSubs => Some((BodyParam::SdmSubsModification, true)),
            Operation::GetTraceConfigData => None,
            Operation::UpdateSorInfo => Some((BodyParam::SorUpdateInfo, false)),
            Operation::GetUeCtxInAmfData => None,
            Operation::GetUeCtxInSmfData => None,
            Operation::GetUeCtxInSmsfData => None,
            Operation::GetUcData => None,
            Operation::GetV2xData => None,
        }
    }

    /// Whether this operation's implementation can give a kind of answer.
    pub fn has_reply(&self, r: Reply) -> (b: bool)
        ensures
            b == op_has_reply(*self, r),
    {
        match self {
            Operation::GetAmData => r == Reply::Expected || r == Reply::BadRequest || r == Reply::NotFound || r == Reply::InternalServerError || r == Reply::ServiceUnavailable || r == Reply::UnexpectedError,
            Operation::GetMbsData => r == Reply::Expected || r == Reply::BadRequest || r == Reply::NotFound || r == Reply::InternalServerError || r == Reply::ServiceUnavailable || r == Reply::UnexpectedError,
            Operation::GetEcrData => r == Reply::Expected || r == Reply::BadRequest || r == Reply::NotFound || r == Reply::InternalServerError || r == Reply::ServiceUnavailable || r == Reply::UnexpectedError,
            Operation::GetSupiOrGpsi => r == Reply::Expected || r == Reply::BadRequest || r == Reply::Forbidden || r == Reply::NotFound || r == Reply::InternalServerError || r == Reply::ServiceUnavailable || r == Reply::UnexpectedError,
            Operation::GetGroupIdentifiers => r == Reply::Expected || r == Reply::BadRequest || r == Reply::Forbidden || r == Reply::NotFound || r == Reply::InternalServerError || r == Reply::ServiceUnavailable || r == Reply::UnexpectedError,
            Operation::GetLcsBcaData => r == Reply::Expected || r == Reply::BadRequest || r == Reply::NotFound || r == Reply::InternalServerError || r == Reply::ServiceUnavailable || r == Reply::UnexpectedError,
            Operation::GetLcsMoData => r == Reply::Expected || r == Reply::BadRequest || r == Reply::NotFound || r == Reply::InternalServerError || r == Reply::ServiceUnavailable || r == Reply::UnexpectedError,
            Operation::GetLcsPrivacyData => r == Reply::Expected || r == Reply::BadRequest || r == Reply::NotFound || r == Reply::InternalServerError || r == Reply::ServiceUnavailable || r == Reply::UnexpectedError,
            Operation::GetMultipleIdentifiers => r == Reply::Expected || r == Reply::BadRequest || r == Reply::Unauthorized || r == Reply::Forbidden || r == Reply::NotFound || r == Reply::NotAcceptable || r == Reply::TooManyRequests || r == Reply::InternalServerError || r == Reply::BadGateway || r == Reply::ServiceUnavailable || r == Reply::UnexpectedError,
            Operation::GetProseData => r == Reply::Expected || r == Reply::BadRequest || r == Reply::NotFound || r == Reply::InternalServerError || r == Reply::ServiceUnavailable || r == Reply::UnexpectedError,
            Operation::CAgAck => r == Reply::Acknowledged || r == Reply::BadRequest || r == Reply::InternalServerError || r == Reply::ServiceUnavailable || r == Reply::UnexpectedError,
            Operation::SNssaisAck => r == Reply::Acknowledged || r == Reply::BadRequest || r == Reply::InternalServerError || r == Reply::ServiceUnavailable || r == Reply::UnexpectedError,
            Operation::SorAckInfo => r == Reply::Acknowledged || r == Reply::BadRequest || r == Reply::InternalServerError || r == Reply::ServiceUnavailable || r == Reply::UnexpectedError,
            Operation::UpuAck => r == Reply::Acknowledged || r == Reply::BadRequest || r == Reply::InternalServerError || r == Reply::ServiceUnavailable || r == Reply::UnexpectedError,
            Operation::GetSharedData => r == Reply::Expected || r == Reply::BadRequest || r == Reply::NotFound || r == Reply::InternalServerError || r == Reply::ServiceUnavailable || r == Reply::UnexpectedError,
            Operation::GetDataSets => r == Reply::Expected || r == Reply::BadRequest || r == Reply::NotFound || r == Reply::InternalServerError || r == Reply::ServiceUnavailable || r == Reply::UnexpectedError,
            Operation::GetIndividualSharedData => r == Reply::Expected || r == Reply::BadRequest || r == Reply::NotFound || r == Reply::InternalServerError || r == Reply::ServiceUnavailable || r == Reply::UnexpectedError,
            Operation::GetSmfSelData => r == Reply::Expected || r == Reply::BadRequest || r == Reply::NotFound || r == Reply::InternalServerError || r == Reply::ServiceUnavailable || r == Reply::UnexpectedError,
            Operation::GetSmsMngtData => r == Reply::Expected || r == Reply::BadRequest || r == Reply::NotFound || r == Reply::InternalServerError || r == Reply::ServiceUnavailable || r == Reply::UnexpectedError,
            Operation::GetSmsData => r == Reply::Expected || r == Reply::BadRequest || r == Reply::NotFound || r == Reply::InternalServerError || r == Reply::ServiceUnavailable || r == Reply::UnexpectedError,
            Operation::GetSmData => r == Reply::Expected || r == Reply::BadRequest || r == Reply::NotFound || r == Reply::InternalServerError || r == Reply::ServiceUnavailable || r == Reply::UnexpectedError,
            Operation::GetNssai => r == Reply::Expected || r == Reply::BadRequest || r == Reply::NotFound || r == Reply::InternalServerError || r == Reply::ServiceUnavailable || r == Reply::UnexpectedError,
            Operation::Subscribe => r == Reply::Expected || r == Reply::BadRequest || r == Reply::NotFound || r == Reply::InternalServerError || r == Reply::NotImplemented || r == Reply::ServiceUnavailable || r == Reply::UnexpectedError,
            Operation::SubscribeToSharedData => r == Reply::Expected || r == Reply::BadRequest || r == Reply::NotFound || r == Reply::UnexpectedError,
            Operation::Unsubscribe => r == Reply::Succeeded || r == Reply::BadRequest || r == Reply::NotFound || r == Reply::InternalServerError || r == Reply::ServiceUnavailable || r == Reply::UnexpectedError,
            Operation::UnsubscribeForSharedData => r == Reply::Succeeded || r == Reply::BadRequest || r == Reply::NotFound || r == Reply::InternalServerError || r == Reply::ServiceUnavailable || r == Reply::UnexpectedError,
            Operation::Modify => r == Reply::Expected || r == Reply::BadRequest || r == Reply::Forbidden || r == Reply::NotFound || r == Reply::InternalServerError || r == Reply::ServiceUnavailable || r == Reply::UnexpectedError,
            Operation::ModifySharedDataSubs => r == Reply::Expected || r == Reply::BadRequest || r == Reply::Forbidden || r == Reply::NotFound || r == Reply::InternalServerError || r == Reply::ServiceUnavailable || r == Reply::UnexpectedError,
            Operation::GetTraceConfigData => r == Reply::Expected || r == Reply::BadRequest || r == Reply::NotFound || r == Reply::InternalServerError || r == Reply::ServiceUnavailable || r == Reply::UnexpectedError,
            Operation::UpdateSorInfo => r == Reply::Expected || r == Reply::BadRequest || r == Reply::NotFound || r == Reply::InternalServerError || r == Reply::ServiceUnavailable || r == Reply::UnexpectedError,
            Operation::GetUeCtxInAmfData => r == Reply::Expected || r == Reply::BadRequest || r == Reply::NotFound || r == Reply::InternalServerError || r == Reply::ServiceUnavailable || r == Reply::UnexpectedError,
            Operation::GetUeCtxInSmfData => r == Reply::Expected || r == Reply::BadRequest || r == Reply::NotFound || r == Reply::InternalServerError || r == Reply::ServiceUnavailable || r == Reply::UnexpectedError,
            Operation::GetUeCtxInSmsfData => r == Reply::Expected || r == Reply::BadRequest || r == Reply::NotFound || r == Reply::InternalServerError || r == Reply::ServiceUnavailable || r == Reply::UnexpectedError,
            Operation::GetUcData => r == Reply::Expected || r == Reply::BadRequest || r == Reply::NotFound || r == Reply::InternalServerError || r == Reply::ServiceUnavailable || r == Reply::UnexpectedError,
            Operation::GetV2xData => r == Reply::Expected || r == Reply::BadRequest || r == Reply::NotFound || r == Reply::InternalServerError || r == Reply::ServiceUnavailable || r == Reply::UnexpectedError,
        }
    }
}

} // verus!
