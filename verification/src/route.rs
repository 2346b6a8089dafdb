//! The routes of the service: its path templates, in the order of their numbers.
use vstd::prelude::*;
use crate::template::{Piece, SpecPiece, pieces_view, template_wf};

verus! {

/// A route of the service, named after its path template.
#[derive(Clone, Copy, PartialEq, Eq, Structural, Debug)]
pub enum Route {
    /// `/nudm-sdm/v2/group-data/group-identifiers`
    GroupDataGroupIdentifiers,
    /// `/nudm-sdm/v2/multiple-identifiers`
    MultipleIdentifiers,
    /// `/nudm-sdm/v2/shared-data`
    SharedData,
    /// `/nudm-sdm/v2/shared-data-subscriptions`
    SharedDataSubscriptions,
    /// `/nudm-sdm/v2/shared-data-subscriptions/{subscriptionId}`
    SharedDataSubscriptionsSubscriptionId,
    /// `/nudm-sdm/v2/shared-data/{sharedDataId}`
    SharedDataSharedDataId,
    /// `/nudm-sdm/v2/{supi}`
    Supi,
    /// `/nudm-sdm/v2/{supi}/5mbs-data`
    Supi5mbsData,
    /// `/nudm-sdm/v2/{supi}/am-data`
    SupiAmData,
    /// `/nudm-sdm/v2/{supi}/am-data/cag-ack`
    SupiAmDataCagAck,
    /// `/nudm-sdm/v2/{supi}/am-data/ecr-data`
    SupiAmDataEcrData,
    /// `/nudm-sdm/v2/{supi}/am-data/sor-ack`
    SupiAmDataSorAck,
    /// `/nudm-sdm/v2/{supi}/am-data/subscribed-snssais-ack`
    SupiAmDataSubscribedSnssaisAck,
    /// `/nudm-sdm/v2/{supi}/am-data/update-sor`
    SupiAmDataUpdateSor,
    /// `/nudm-sdm/v2/{supi}/am-data/upu-ack`
    SupiAmDataUpuAck,
    /// `/nudm-sdm/v2/{supi}/lcs-bca-data`
    SupiLcsBcaData,
    /// `/nudm-sdm/v2/{supi}/lcs-mo-data`
    SupiLcsMoData,
    /// `/nudm-sdm/v2/{supi}/nssai`
    SupiNssai,
    /// `/nudm-sdm/v2/{supi}/prose-data`
    SupiProseData,
    /// `/nudm-sdm/v2/{supi}/sm-data`
    SupiSmData,
    /// `/nudm-sdm/v2/{supi}/smf-select-data`
    SupiSmfSelectData,
    /// `/nudm-sdm/v2/{supi}/sms-data`
    SupiSmsData,
    /// `/nudm-sdm/v2/{supi}/sms-mng-data`
    SupiSmsMngData,
    /// `/nudm-sdm/v2/{supi}/trace-data`
    SupiTraceData,
    /// `/nudm-sdm/v2/{supi}/uc-data`
    SupiUcData,
    /// `/nudm-sdm/v2/{supi}/ue-context-in-amf-data`
    SupiUeContextInAmfData,
    /// `/nudm-sdm/v2/{supi}/ue-context-in-smf-data`
    SupiUeContextInSmfData,
    /// `/nudm-sdm/v2/{supi}/ue-context-in-smsf-data`
    SupiUeContextInSmsfData,
    /// `/nudm-sdm/v2/{supi}/v2x-data`
    SupiV2xData,
    /// `/nudm-sdm/v2/{ueId}/id-translation-result`
    UeIdIdTranslationResult,
    /// `/nudm-sdm/v2/{ueId}/lcs-privacy-data`
    UeIdLcsPrivacyData,
    /// `/nudm-sdm/v2/{ueId}/sdm-subscriptions`
    UeIdSdmSubscriptions,
    /// `/nudm-sdm/v2/{ueId}/sdm-subscriptions/{subscriptionId}`
    UeIdSdmSubscriptionsSubscriptionId,
}

/// The number of routes.
pub const ROUTE_COUNT: usize = 33;

/// The path template of a route.
pub open spec fn spec_template(r: Route) -> Seq<SpecPiece> {
    match r {
        Route::GroupDataGroupIdentifiers => seq![SpecPiece::Lit("/nudm-sdm/v2/group-data/group-identifiers"@)],
        Route::MultipleIdentifiers => seq![SpecPiece::Lit("/nudm-sdm/v2/multiple-identifiers"@)],
        Route::SharedData => seq![SpecPiece::Lit("/nudm-sdm/v2/shared-data"@)],
        Route::SharedDataSubscriptions => seq![SpecPiece::Lit("/nudm-sdm/v2/shared-data-subscriptions"@)],
        Route::SharedDataSubscriptionsSubscriptionId => seq![SpecPiece::Lit("/nudm-sdm/v2/shared-data-subscriptions/"@), SpecPiece::Param],
        Route::SharedDataSharedDataId => seq![SpecPiece::Lit("/nudm-sdm/v2/shared-data/"@), SpecPiece::Param],
        Route::Supi => seq![SpecPiece::Lit("/nudm-sdm/v2/"@), SpecPiece::Param],
        Route::Supi5mbsData => seq![SpecPiece::Lit("/nudm-sdm/v2/"@), SpecPiece::Param, SpecPiece::Lit("/5mbs-data"@)],
        Route::SupiAmData => seq![SpecPiece::Lit("/nudm-sdm/v2/"@), SpecPiece::Param, SpecPiece::Lit("/am-data"@)],
        Route::SupiAmDataCagAck => seq![SpecPiece::Lit("/nudm-sdm/v2/"@), SpecPiece::Param, SpecPiece::Lit("/am-data/cag-ack"@)],
        Route::SupiAmDataEcrData => seq![SpecPiece::Lit("/nudm-sdm/v2/"@), SpecPiece::Param, SpecPiece::Lit("/am-data/ecr-data"@)],
        Route::SupiAmDataSorAck => seq![SpecPiece::Lit("/nudm-sdm/v2/"@), SpecPiece::Param, SpecPiece::Lit("/am-data/sor-ack"@)],
        Route::SupiAmDataSubscribedSnssaisAck => seq![SpecPiece::Lit("/nudm-sdm/v2/"@), SpecPiece::Param, SpecPiece::Lit("/am-data/subscribed-snssais-ack"@)],
        Route::SupiAmDataUpdateSor => seq![SpecPiece::Lit("/nudm-sdm/v2/"@), SpecPiece::Param, SpecPiece::Lit("/am-data/update-sor"@)],
        Route::SupiAmDataUpuAck => seq![SpecPiece::Lit("/nudm-sdm/v2/"@), SpecPiece::Param, SpecPiece::Lit("/am-data/upu-ack"@)],
        Route::SupiLcsBcaData => seq![SpecPiece::Lit("/nudm-sdm/v2/"@), SpecPiece::Param, SpecPiece::Lit("/lcs-bca-data"@)],
        Route::SupiLcsMoData => seq![SpecPiece::Lit("/nudm-sdm/v2/"@), SpecPiece::Param, SpecPiece::Lit("/lcs-mo-data"@)],
        Route::SupiNssai => seq![SpecPiece::Lit("/nudm-sdm/v2/"@), SpecPiece::Param, SpecPiece::Lit("/nssai"@)],
        Route::SupiProseData => seq![SpecPiece::Lit("/nudm-sdm/v2/"@), SpecPiece::Param, SpecPiece::Lit("/prose-data"@)],
        Route::SupiSmData => seq![SpecPiece::Lit("/nudm-sdm/v2/"@), SpecPiece::Param, SpecPiece::Lit("/sm-data"@)],
        Route::SupiSmfSelectData => seq![SpecPiece::Lit("/nudm-sdm/v2/"@), SpecPiece::Param, SpecPiece::Lit("/smf-select-data"@)],
        Route::SupiSmsData => seq![SpecPiece::Lit("/nudm-sdm/v2/"@), SpecPiece::Param, SpecPiece::Lit("/sms-data"@)],
        Route::SupiSmsMngData => seq![SpecPiece::Lit("/nudm-sdm/v2/"@), SpecPiece::Param, SpecPiece::Lit("/sms-mng-data"@)],
        Route::SupiTraceData => seq![SpecPiece::Lit("/nudm-sdm/v2/"@), SpecPiece::Param, SpecPiece::Lit("/trace-data"@)],
        Route::SupiUcData => seq![SpecPiece::Lit("/nudm-sdm/v2/"@), SpecPiece::Param, SpecPiece::Lit("/uc-data"@)],
        Route::SupiUeContextInAmfData => seq![SpecPiece::Lit("/nudm-sdm/v2/"@), SpecPiece::Param, SpecPiece::Lit("/ue-context-in-amf-data"@)],
        Route::SupiUeContextInSmfData => seq![SpecPiece::Lit("/nudm-sdm/v2/"@), SpecPiece::Param, SpecPiece::Lit("/ue-context-in-smf-data"@)],
        Route::SupiUeContextInSmsfData => seq![SpecPiece::Lit("/nudm-sdm/v2/"@), SpecPiece::Param, SpecPiece::Lit("/ue-context-in-smsf-data"@)],
        Route::SupiV2xData => seq![SpecPiece::Lit("/nudm-sdm/v2/"@), SpecPiece::Param, SpecPiece::Lit("/v2x-data"@)],
        Route::UeIdIdTranslationResult => seq![SpecPiece::Lit("/nudm-sdm/v2/"@), SpecPiece::Param, SpecPiece::Lit("/id-translation-result"@)],
        Route::UeIdLcsPrivacyData => seq![SpecPiece::Lit("/nudm-sdm/v2/"@), SpecPiece::Param, SpecPiece::Lit("/lcs-privacy-data"@)],
        Route::UeIdSdmSubscriptions => seq![SpecPiece::Lit("/nudm-sdm/v2/"@), SpecPiece::Param, SpecPiece::Lit("/sdm-subscriptions"@)],
        Route::UeIdSdmSubscriptionsSubscriptionId => seq![SpecPiece::Lit("/nudm-sdm/v2/"@), SpecPiece::Param, SpecPiece::Lit("/sdm-subscriptions/"@), SpecPiece::Param],
    }
}

/// The path template of a route, as it is held at run time.
pub fn template(r: Route) -> (ps: Vec<Piece>)
    ensures
        pieces_view(ps@) == spec_template(r),
{
    let ps = match r {
        Route::GroupDataGroupIdentifiers => vec![Piece::Lit("/nudm-sdm/v2/group-data/group-identifiers")],
        Route::MultipleIdentifiers => vec![Piece::Lit("/nudm-sdm/v2/multiple-identifiers")],
        Route::SharedData => vec![Piece::Lit("/nudm-sdm/v2/shared-data")],
        Route::SharedDataSubscriptions => vec![Piece::Lit("/nudm-sdm/v2/shared-data-subscriptions")],
        Route::SharedDataSubscriptionsSubscriptionId => vec![Piece::Lit("/nudm-sdm/v2/shared-data-subscriptions/"), Piece::Param],
        Route::SharedDataSharedDataId => vec![Piece::Lit("/nudm-sdm/v2/shared-data/"), Piece::Param],
        Route::Supi => vec![Piece::Lit("/nudm-sdm/v2/"), Piece::Param],
        Route::Supi5mbsData => vec![Piece::Lit("/nudm-sdm/v2/"), Piece::Param, Piece::Lit("/5mbs-data")],
        Route::SupiAmData => vec![Piece::Lit("/nudm-sdm/v2/"), Piece::Param, Piece::Lit("/am-data")],
        Route::SupiAmDataCagAck => vec![Piece::Lit("/nudm-sdm/v2/"), Piece::Param, Piece::Lit("/am-data/cag-ack")],
        Route::SupiAmDataEcrData => vec![Piece::Lit("/nudm-sdm/v2/"), Piece::Param, Piece::Lit("/am-data/ecr-data")],
        Route::SupiAmDataSorAck => vec![Piece::Lit("/nudm-sdm/v2/"), Piece::Param, Piece::Lit("/am-data/sor-ack")],
        Route::SupiAmDataSubscribedSnssaisAck => vec![Piece::Lit("/nudm-sdm/v2/"), Piece::Param, Piece::Lit("/am-data/subscribed-snssais-ack")],
        Route::SupiAmDataUpdateSor => vec![Piece::Lit("/nudm-sdm/v2/"), Piece::Param, Piece::Lit("/am-data/update-sor")],
        Route::SupiAmDataUpuAck => vec![Piece::Lit("/nudm-sdm/v2/"), Piece::Param, Piece::Lit("/am-data/upu-ack")],
        Route::SupiLcsBcaData => vec![Piece::Lit("/nudm-sdm/v2/"), Piece::Param, Piece::Lit("/lcs-bca-data")],
        Route::SupiLcsMoData => vec![Piece::Lit("/nudm-sdm/v2/"), Piece::Param, Piece::Lit("/lcs-mo-data")],
        Route::SupiNssai => vec![Piece::Lit("/nudm-sdm/v2/"), Piece::Param, Piece::Lit("/nssai")],
        Route::SupiProseData => vec![Piece::Lit("/nudm-sdm/v2/"), Piece::Param, Piece::Lit("/prose-data")],
        Route::SupiSmData => vec![Piece::Lit("/nudm-sdm/v2/"), Piece::Param, Piece::Lit("/sm-data")],
        Route::SupiSmfSelectData => vec![Piece::Lit("/nudm-sdm/v2/"), Piece::Param, Piece::Lit("/smf-select-data")],
        Route::SupiSmsData => vec![Piece::Lit("/nudm-sdm/v2/"), Piece::Param, Piece::Lit("/sms-data")],
        Route::SupiSmsMngData => vec![Piece::Lit("/nudm-sdm/v2/"), Piece::Param, Piece::Lit("/sms-mng-data")],
        Route::SupiTraceData => vec![Piece::Lit("/nudm-sdm/v2/"), Piece::Param, Piece::Lit("/trace-data")],
        Route::SupiUcData => vec![Piece::Lit("/nudm-sdm/v2/"), Piece::Param, Piece::Lit("/uc-data")],
        Route::SupiUeContextInAmfData => vec![Piece::Lit("/nudm-sdm/v2/"), Piece::Param, Piece::Lit("/ue-context-in-amf-data")],
        Route::SupiUeContextInSmfData => vec![Piece::Lit("/nudm-sdm/v2/"), Piece::Param, Piece::Lit("/ue-context-in-smf-data")],
        Route::SupiUeContextInSmsfData => vec![Piece::Lit("/nudm-sdm/v2/"), Piece::Param, Piece::Lit("/ue-context-in-smsf-data")],
        Route::SupiV2xData => vec![Piece::Lit("/nudm-sdm/v2/"), Piece::Param, Piece::Lit("/v2x-data")],
        Route::UeIdIdTranslationResult => vec![Piece::Lit("/nudm-sdm/v2/"), Piece::Param, Piece::Lit("/id-translation-result")],
        Route::UeIdLcsPrivacyData => vec![Piece::Lit("/nudm-sdm/v2/"), Piece::Param, Piece::Lit("/lcs-privacy-data")],
        Route::UeIdSdmSubscriptions => vec![Piece::Lit("/nudm-sdm/v2/"), Piece::Param, Piece::Lit("/sdm-subscriptions")],
        Route::UeIdSdmSubscriptionsSubscriptionId => vec![Piece::Lit("/nudm-sdm/v2/"), Piece::Param, Piece::Lit("/sdm-subscriptions/"), Piece::Param],
    };
    assert(pieces_view(ps@) =~= spec_template(r));
    ps
}

/// The number of a route.
pub open spec fn route_index(r: Route) -> nat {
    match r {
        Route::GroupDataGroupIdentifiers => 0,
        Route::MultipleIdentifiers => 1,
        Route::SharedData => 2,
        Route::SharedDataSubscriptions => 3,
        Route::SharedDataSubscriptionsSubscriptionId => 4,
        Route::SharedDataSharedDataId => 5,
        Route::Supi => 6,
        Route::Supi5mbsData => 7,
        Route::SupiAmData => 8,
        Route::SupiAmDataCagAck => 9,
        Route::SupiAmDataEcrData => 10,
        Route::SupiAmDataSorAck => 11,
        Route::SupiAmDataSubscribedSnssaisAck => 12,
        Route::SupiAmDataUpdateSor => 13,
        Route::SupiAmDataUpuAck => 14,
        Route::SupiLcsBcaData => 15,
        Route::SupiLcsMoData => 16,
        Route::SupiNssai => 17,
        Route::SupiProseData => 18,
        Route::SupiSmData => 19,
        Route::SupiSmfSelectData => 20,
        Route::SupiSmsData => 21,
        Route::SupiSmsMngData => 22,
        Route::SupiTraceData => 23,
        Route::SupiUcData => 24,
        Route::SupiUeContextInAmfData => 25,
        Route::SupiUeContextInSmfData => 26,
        Route::SupiUeContextInSmsfData => 27,
        Route::SupiV2xData => 28,
        Route::UeIdIdTranslationResult => 29,
        Route::UeIdLcsPrivacyData => 30,
        Route::UeIdSdmSubscriptions => 31,
        Route::UeIdSdmSubscriptionsSubscriptionId => 32,
    }
}

/// The route with the given number.
pub open spec fn route_at(i: int) -> Route {
    if i == 0 { Route::GroupDataGroupIdentifiers }
    else if i == 1 { Route::MultipleIdentifiers }
    else if i == 2 { Route::SharedData }
    else if i == 3 { Route::SharedDataSubscriptions }
    else if i == 4 { Route::SharedDataSubscriptionsSubscriptionId }
    else if i == 5 { Route::SharedDataSharedDataId }
    else if i == 6 { Route::Supi }
    else if i == 7 { Route::Supi5mbsData }
    else if i == 8 { Route::SupiAmData }
    else if i == 9 { Route::SupiAmDataCagAck }
    else if i == 10 { Route::SupiAmDataEcrData }
    else if i == 11 { Route::SupiAmDataSorAck }
    else if i == 12 { Route::SupiAmDataSubscribedSnssaisAck }
    else if i == 13 { Route::SupiAmDataUpdateSor }
    else if i == 14 { Route::SupiAmDataUpuAck }
    else if i == 15 { Route::SupiLcsBcaData }
    else if i == 16 { Route::SupiLcsMoData }
    else if i == 17 { Route::SupiNssai }
    else if i == 18 { Route::SupiProseData }
    else if i == 19 { Route::SupiSmData }
    else if i == 20 { Route::SupiSmfSelectData }
    else if i == 21 { Route::SupiSmsData }
    else if i == 22 { Route::SupiSmsMngData }
    else if i == 23 { Route::SupiTraceData }
    else if i == 24 { Route::SupiUcData }
    else if i == 25 { Route::SupiUeContextInAmfData }
    else if i == 26 { Route::SupiUeContextInSmfData }
    else if i == 27 { Route::SupiUeContextInSmsfData }
    else if i == 28 { Route::SupiV2xData }
    else if i == 29 { Route::UeIdIdTranslationResult }
    else if i == 30 { Route::UeIdLcsPrivacyData }
    else if i == 31 { Route::UeIdSdmSubscriptions }
    else { Route::UeIdSdmSubscriptionsSubscriptionId }
}

impl Route {
    /// The number of this route.
    pub fn index(&self) -> (i: usize)
        ensures
            i == route_index(*self),
            i < ROUTE_COUNT,
    {
        match self {
            Route::GroupDataGroupIdentifiers => 0,
            Route::MultipleIdentifiers => 1,
            Route::SharedData => 2,
            Route::SharedDataSubscriptions => 3,
            Route::SharedDataSubscriptionsSubscriptionId => 4,
            Route::SharedDataSharedDataId => 5,
            Route::Supi => 6,
            Route::Supi5mbsData => 7,
            Route::SupiAmData => 8,
            Route::SupiAmDataCagAck => 9,
            Route::SupiAmDataEcrData => 10,
            Route::SupiAmDataSorAck => 11,
            Route::SupiAmDataSubscribedSnssaisAck => 12,
            Route::SupiAmDataUpdateSor => 13,
            Route::SupiAmDataUpuAck => 14,
            Route::SupiLcsBcaData => 15,
            Route::SupiLcsMoData => 16,
            Route::SupiNssai => 17,
            Route::SupiProseData => 18,
            Route::SupiSmData => 19,
            Route::SupiSmfSelectData => 20,
            Route::SupiSmsData => 21,
            Route::SupiSmsMngData => 22,
            Route::SupiTraceData => 23,
            Route::SupiUcData => 24,
            Route::SupiUeContextInAmfData => 25,
            Route::SupiUeContextInSmfData => 26,
            Route::SupiUeContextInSmsfData => 27,
            Route::SupiV2xData => 28,
            Route::UeIdIdTranslationResult => 29,
            Route::UeIdLcsPrivacyData => 30,
            Route::UeIdSdmSubscriptions => 31,
            Route::UeIdSdmSubscriptionsSubscriptionId => 32,
        }
    }

    /// The route with the given number.
    pub fn from_index(i: usize) -> (r: Route)
        requires
            i < ROUTE_COUNT,
        ensures
            r == route_at(i as int),
            route_index(r) == i,
    {
        if i == 0 { Route::GroupDataGroupIdentifiers }
        else if i == 1 { Route::MultipleIdentifiers }
        else if i == 2 { Route::SharedData }
        else if i == 3 { Route::SharedDataSubscriptions }
        else if i == 4 { Route::SharedDataSubscriptionsSubscriptionId }
        else if i == 5 { Route::SharedDataSharedDataId }
        else if i == 6 { Route::Supi }
        else if i == 7 { Route::Supi5mbsData }
        else if i == 8 { Route::SupiAmData }
        else if i == 9 { Route::SupiAmDataCagAck }
        else if i == 10 { Route::SupiAmDataEcrData }
        else if i == 11 { Route::SupiAmDataSorAck }
        else if i == 12 { Route::SupiAmDataSubscribedSnssaisAck }
        else if i == 13 { Route::SupiAmDataUpdateSor }
        else if i == 14 { Route::SupiAmDataUpuAck }
        else if i == 15 { Route::SupiLcsBcaData }
        else if i == 16 { Route::SupiLcsMoData }
        else if i == 17 { Route::SupiNssai }
        else if i == 18 { Route::SupiProseData }
        else if i == 19 { Route::SupiSmData }
        else if i == 20 { Route::SupiSmfSelectData }
        else if i == 21 { Route::SupiSmsData }
        else if i == 22 { Route::SupiSmsMngData }
        else if i == 23 { Route::SupiTraceData }
        else if i == 24 { Route::SupiUcData }
        else if i == 25 { Route::SupiUeContextInAmfData }
        else if i == 26 { Route::SupiUeContextInSmfData }
        else if i == 27 { Route::SupiUeContextInSmsfData }
        else if i == 28 { Route::SupiV2xData }
        else if i == 29 { Route::UeIdIdTranslationResult }
        else if i == 30 { Route::UeIdLcsPrivacyData }
        else if i == 31 { Route::UeIdSdmSubscriptions }
        else { Route::UeIdSdmSubscriptionsSubscriptionId }
    }
}

/// Every route's template is well formed.
pub proof fn lemma_template_wf(r: Route)
    ensures
        template_wf(spec_template(r)),
{
    match r {
        Route::GroupDataGroupIdentifiers => { reveal_strlit("/nudm-sdm/v2/group-data/group-identifiers"); },
        Route::MultipleIdentifiers => { reveal_strlit("/nudm-sdm/v2/multiple-identifiers"); },
        Route::SharedData => { reveal_strlit("/nudm-sdm/v2/shared-data"); },
        Route::SharedDataSubscriptions => { reveal_strlit("/nudm-sdm/v2/shared-data-subscriptions"); },
        Route::SharedDataSubscriptionsSubscriptionId => { reveal_strlit("/nudm-sdm/v2/shared-data-subscriptions/"); },
        Route::SharedDataSharedDataId => { reveal_strlit("/nudm-sdm/v2/shared-data/"); },
        Route::Supi => { reveal_strlit("/nudm-sdm/v2/"); },
        Route::Supi5mbsData => { reveal_strlit("/nudm-sdm/v2/"); reveal_strlit("/5mbs-data"); },
        Route::SupiAmData => { reveal_strlit("/nudm-sdm/v2/"); reveal_strlit("/am-data"); },
        Route::SupiAmDataCagAck => { reveal_strlit("/nudm-sdm/v2/"); reveal_strlit("/am-data/cag-ack"); },
        Route::SupiAmDataEcrData => { reveal_strlit("/nudm-sdm/v2/"); reveal_strlit("/am-data/ecr-data"); },
        Route::SupiAmDataSorAck => { reveal_strlit("/nudm-sdm/v2/"); reveal_strlit("/am-data/sor-ack"); },
        Route::SupiAmDataSubscribedSnssaisAck => { reveal_strlit("/nudm-sdm/v2/"); reveal_strlit("/am-data/subscribed-snssais-ack"); },
        Route::SupiAmDataUpdateSor => { reveal_strlit("/nudm-sdm/v2/"); reveal_strlit("/am-data/update-sor"); },
        Route::SupiAmDataUpuAck => { reveal_strlit("/nudm-sdm/v2/"); reveal_strlit("/am-data/upu-ack"); },
        Route::SupiLcsBcaData => { reveal_strlit("/nudm-sdm/v2/"); reveal_strlit("/lcs-bca-data"); },
        Route::SupiLcsMoData => { reveal_strlit("/nudm-sdm/v2/"); reveal_strlit("/lcs-mo-data"); },
        Route::SupiNssai => { reveal_strlit("/nudm-sdm/v2/"); reveal_strlit("/nssai"); },
        Route::SupiProseData => { reveal_strlit("/nudm-sdm/v2/"); reveal_strlit("/prose-data"); },
        Route::SupiSmData => { reveal_strlit("/nudm-sdm/v2/"); reveal_strlit("/sm-data"); },
        Route::SupiSmfSelectData => { reveal_strlit("/nudm-sdm/v2/"); reveal_strlit("/smf-select-data"); },
        Route::SupiSmsData => { reveal_strlit("/nudm-sdm/v2/"); reveal_strlit("/sms-data"); },
        Route::SupiSmsMngData => { reveal_strlit("/nudm-sdm/v2/"); reveal_strlit("/sms-mng-data"); },
        Route::SupiTraceData => { reveal_strlit("/nudm-sdm/v2/"); reveal_strlit("/trace-data"); },
        Route::SupiUcData => { reveal_strlit("/nudm-sdm/v2/"); reveal_strlit("/uc-data"); },
        Route::SupiUeContextInAmfData => { reveal_strlit("/nudm-sdm/v2/"); reveal_strlit("/ue-context-in-amf-data"); },
        Route::SupiUeContextInSmfData => { reveal_strlit("/nudm-sdm/v2/"); reveal_strlit("/ue-context-in-smf-data"); },
        Route::SupiUeContextInSmsfData => { reveal_strlit("/nudm-sdm/v2/"); reveal_strlit("/ue-context-in-smsf-data"); },
        Route::SupiV2xData => { reveal_strlit("/nudm-sdm/v2/"); reveal_strlit("/v2x-data"); },
        Route::UeIdIdTranslationResult => { reveal_strlit("/nudm-sdm/v2/"); reveal_strlit("/id-translation-result"); },
        Route::UeIdLcsPrivacyData => { reveal_strlit("/nudm-sdm/v2/"); reveal_strlit("/lcs-privacy-data"); },
        Route::UeIdSdmSubscriptions => { reveal_strlit("/nudm-sdm/v2/"); reveal_strlit("/sdm-subscriptions"); },
        Route::UeIdSdmSubscriptionsSubscriptionId => { reveal_strlit("/nudm-sdm/v2/"); reveal_strlit("/sdm-subscriptions/"); },
    }
}

/// Each route stands at its own number.
pub proof fn lemma_route_at_index(r: Route)
    ensures
        route_index(r) < ROUTE_COUNT,
        route_at(route_index(r) as int) == r,
{
}

} // verus!
