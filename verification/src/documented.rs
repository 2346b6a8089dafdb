//! The service's interface as its documentation writes it, stated on its
//! own: the path pattern of each route, the query parameters of each
//! operation with the type the service reads them as, the body parameter of
//! each operation and the status of a successful answer. The laws of this
//! module hold the routing, query, body and answer tables to it.
use vstd::prelude::*;
use crate::route::{Route, spec_template};
use crate::template::{SpecPiece, fill, fits, param_count, all_segments};
use crate::paths::{route_matches, path_values, law_fill_then_capture};
use crate::operation::{
    Operation, Method, BodyParam, PathParam, Reply, op_method, op_route, op_body, op_has_reply, op_path_params, path_param_name,
};
use crate::queryplan::{ParamKind, key_name, is_list, spec_query_plan};
use crate::query::{first_value, all_values, flag_value, selection, select_entry, kept_values, resolve_entry, SelectedView, QueryValueView};
use crate::checks::{request_checks, header_problem_spec, path_problem_from, BodyReadView};
use crate::reply::{reply_status, reply_content_type, ContentType};

verus! {

/// The number of parameters in the documented path pattern of a route.
pub open spec fn documented_param_count(r: Route) -> nat {
    match r {
        Route::GroupDataGroupIdentifiers => 0,
        Route::MultipleIdentifiers => 0,
        Route::SharedData => 0,
        Route::SharedDataSubscriptions => 0,
        Route::SharedDataSubscriptionsSubscriptionId => 1,
        Route::SharedDataSharedDataId => 1,
        Route::Supi => 1,
        Route::Supi5mbsData => 1,
        Route::SupiAmData => 1,
        Route::SupiAmDataCagAck => 1,
        Route::SupiAmDataEcrData => 1,
        Route::SupiAmDataSorAck => 1,
        Route::SupiAmDataSubscribedSnssaisAck => 1,
        Route::SupiAmDataUpdateSor => 1,
        Route::SupiAmDataUpuAck => 1,
        Route::SupiLcsBcaData => 1,
        Route::SupiLcsMoData => 1,
        Route::SupiNssai => 1,
        Route::SupiProseData => 1,
        Route::SupiSmData => 1,
        Route::SupiSmfSelectData => 1,
        Route::SupiSmsData => 1,
        Route::SupiSmsMngData => 1,
        Route::SupiTraceData => 1,
        Route::SupiUcData => 1,
        Route::SupiUeContextInAmfData => 1,
        Route::SupiUeContextInSmfData => 1,
        Route::SupiUeContextInSmsfData => 1,
        Route::SupiV2xData => 1,
        Route::UeIdIdTranslationResult => 1,
        Route::UeIdLcsPrivacyData => 1,
        Route::UeIdSdmSubscriptions => 1,
        Route::UeIdSdmSubscriptionsSubscriptionId => 2,
    }
}

/// The path that the documented pattern of a route spells when its
/// parameters, in the pattern's order, take the values `vals`.
pub open spec fn documented_path(r: Route, vals: Seq<Seq<char>>) -> Seq<char> {
    match r {
        Route::GroupDataGroupIdentifiers => "/nudm-sdm/v2/group-data/group-identifiers"@,
        Route::MultipleIdentifiers => "/nudm-sdm/v2/multiple-identifiers"@,
        Route::SharedData => "/nudm-sdm/v2/shared-data"@,
        Route::SharedDataSubscriptions => "/nudm-sdm/v2/shared-data-subscriptions"@,
        Route::SharedDataSubscriptionsSubscriptionId => "/nudm-sdm/v2/shared-data-subscriptions/"@ + vals[0],
        Route::SharedDataSharedDataId => "/nudm-sdm/v2/shared-data/"@ + vals[0],
        Route::Supi => "/nudm-sdm/v2/"@ + vals[0],
        Route::Supi5mbsData => "/nudm-sdm/v2/"@ + vals[0] + "/5mbs-data"@,
        Route::SupiAmData => "/nudm-sdm/v2/"@ + vals[0] + "/am-data"@,
        Route::SupiAmDataCagAck => "/nudm-sdm/v2/"@ + vals[0] + "/am-data/cag-ack"@,
        Route::SupiAmDataEcrData => "/nudm-sdm/v2/"@ + vals[0] + "/am-data/ecr-data"@,
        Route::SupiAmDataSorAck => "/nudm-sdm/v2/"@ + vals[0] + "/am-data/sor-ack"@,
        Route::SupiAmDataSubscribedSnssaisAck => "/nudm-sdm/v2/"@ + vals[0] + "/am-data/subscribed-snssais-ack"@,
        Route::SupiAmDataUpdateSor => "/nudm-sdm/v2/"@ + vals[0] + "/am-data/update-sor"@,
        Route::SupiAmDataUpuAck => "/nudm-sdm/v2/"@ + vals[0] + "/am-data/upu-ack"@,
        Route::SupiLcsBcaData => "/nudm-sdm/v2/"@ + vals[0] + "/lcs-bca-data"@,
        Route::SupiLcsMoData => "/nudm-sdm/v2/"@ + vals[0] + "/lcs-mo-data"@,
        Route::SupiNssai => "/nudm-sdm/v2/"@ + vals[0] + "/nssai"@,
        Route::SupiProseData => "/nudm-sdm/v2/"@ + vals[0] + "/prose-data"@,
        Route::SupiSmData => "/nudm-sdm/v2/"@ + vals[0] + "/sm-data"@,
        Route::SupiSmfSelectData => "/nudm-sdm/v2/"@ + vals[0] + "/smf-select-data"@,
        Route::SupiSmsData => "/nudm-sdm/v2/"@ + vals[0] + "/sms-data"@,
        Route::SupiSmsMngData => "/nudm-sdm/v2/"@ + vals[0] + "/sms-mng-data"@,
        Route::SupiTraceData => "/nudm-sdm/v2/"@ + vals[0] + "/trace-data"@,
        Route::SupiUcData => "/nudm-sdm/v2/"@ + vals[0] + "/uc-data"@,
        Route::SupiUeContextInAmfData => "/nudm-sdm/v2/"@ + vals[0] + "/ue-context-in-amf-data"@,
        Route::SupiUeContextInSmfData => "/nudm-sdm/v2/"@ + vals[0] + "/ue-context-in-smf-data"@,
        Route::SupiUeContextInSmsfData => "/nudm-sdm/v2/"@ + vals[0] + "/ue-context-in-smsf-data"@,
        Route::SupiV2xData => "/nudm-sdm/v2/"@ + vals[0] + "/v2x-data"@,
        Route::UeIdIdTranslationResult => "/nudm-sdm/v2/"@ + vals[0] + "/id-translation-result"@,
        Route::UeIdLcsPrivacyData => "/nudm-sdm/v2/"@ + vals[0] + "/lcs-privacy-data"@,
        Route::UeIdSdmSubscriptions => "/nudm-sdm/v2/"@ + vals[0] + "/sdm-subscriptions"@,
        Route::UeIdSdmSubscriptionsSubscriptionId => "/nudm-sdm/v2/"@ + vals[0] + "/sdm-subscriptions/"@ + vals[1],
    }
}

proof fn lemma_fill_fixed(ps: Seq<SpecPiece>, a: Seq<char>, vals: Seq<Seq<char>>)
    requires
        ps == seq![SpecPiece::Lit(a)],
        vals.len() == 0,
    ensures
        param_count(ps) == 0,
        fill(ps, vals) == a,
{
    assert(ps.drop_first() =~= Seq::<SpecPiece>::empty());
    assert(param_count(ps.drop_first()) == 0);
    assert(fill(ps.drop_first(), vals) =~= Seq::<char>::empty());
    assert(fill(ps, vals) =~= a);
}

proof fn lemma_fill_prefix(ps: Seq<SpecPiece>, a: Seq<char>, vals: Seq<Seq<char>>)
    requires
        ps == seq![SpecPiece::Lit(a), SpecPiece::Param],
        vals.len() == 1,
    ensures
        param_count(ps) == 1,
        fill(ps, vals) == a + vals[0],
{
    let p1 = ps.drop_first();
    let p2 = p1.drop_first();
    assert(p1 =~= seq![SpecPiece::Param]);
    assert(p2 =~= Seq::<SpecPiece>::empty());
    assert(param_count(p2) == 0);
    assert(param_count(p1) == 1);
    assert(fill(p2, vals.drop_first()) =~= Seq::<char>::empty());
    assert(fill(p1, vals) =~= vals[0]);
    assert(fill(ps, vals) =~= a + vals[0]);
}

proof fn lemma_fill_infix(ps: Seq<SpecPiece>, a: Seq<char>, b: Seq<char>, vals: Seq<Seq<char>>)
    requires
        ps == seq![SpecPiece::Lit(a), SpecPiece::Param, SpecPiece::Lit(b)],
        vals.len() == 1,
    ensures
        param_count(ps) == 1,
        fill(ps, vals) == a + vals[0] + b,
{
    let p1 = ps.drop_first();
    let p2 = p1.drop_first();
    let p3 = p2.drop_first();
    assert(p1 =~= seq![SpecPiece::Param, SpecPiece::Lit(b)]);
    assert(p2 =~= seq![SpecPiece::Lit(b)]);
    assert(p3 =~= Seq::<SpecPiece>::empty());
    assert(param_count(p3) == 0);
    assert(param_count(p2) == 0);
    assert(param_count(p1) == 1);
    let rest = vals.drop_first();
    assert(fill(p3, rest) =~= Seq::<char>::empty());
    assert(fill(p2, rest) =~= b);
    assert(fill(p1, vals) =~= vals[0] + b);
    assert(fill(ps, vals) =~= a + vals[0] + b);
}

proof fn lemma_fill_two_params(ps: Seq<SpecPiece>, a: Seq<char>, b: Seq<char>, vals: Seq<Seq<char>>)
    requires
        ps == seq![SpecPiece::Lit(a), SpecPiece::Param, SpecPiece::Lit(b), SpecPiece::Param],
        vals.len() == 2,
    ensures
        param_count(ps) == 2,
        fill(ps, vals) == a + vals[0] + b + vals[1],
{
    let p1 = ps.drop_first();
    let p2 = p1.drop_first();
    let p3 = p2.drop_first();
    let p4 = p3.drop_first();
    assert(p1 =~= seq![SpecPiece::Param, SpecPiece::Lit(b), SpecPiece::Param]);
    assert(p2 =~= seq![SpecPiece::Lit(b), SpecPiece::Param]);
    assert(p3 =~= seq![SpecPiece::Param]);
    assert(p4 =~= Seq::<SpecPiece>::empty());
    assert(param_count(p4) == 0);
    assert(param_count(p3) == 1);
    assert(param_count(p2) == 1);
    assert(param_count(p1) == 2);
    let rest = vals.drop_first();
    let last = rest.drop_first();
    assert(rest[0] == vals[1]);
    assert(fill(p4, last) =~= Seq::<char>::empty());
    assert(fill(p3, rest) =~= vals[1]);
    assert(fill(p2, rest) =~= b + vals[1]);
    assert(fill(p1, vals) =~= vals[0] + b + vals[1]);
    assert(fill(ps, vals) =~= a + vals[0] + b + vals[1]);
}

/// The template of each route spells the documented path of the route.
proof fn lemma_template_is_documented(r: Route, vals: Seq<Seq<char>>)
    requires
        vals.len() == documented_param_count(r),
    ensures
        param_count(spec_template(r)) == documented_param_count(r),
        fill(spec_template(r), vals) == documented_path(r, vals),
{
    match r {
        Route::GroupDataGroupIdentifiers => lemma_fill_fixed(spec_template(r), "/nudm-sdm/v2/group-data/group-identifiers"@, vals),
        Route::MultipleIdentifiers => lemma_fill_fixed(spec_template(r), "/nudm-sdm/v2/multiple-identifiers"@, vals),
        Route::SharedData => lemma_fill_fixed(spec_template(r), "/nudm-sdm/v2/shared-data"@, vals),
        Route::SharedDataSubscriptions => lemma_fill_fixed(spec_template(r), "/nudm-sdm/v2/shared-data-subscriptions"@, vals),
        Route::SharedDataSubscriptionsSubscriptionId => lemma_fill_prefix(spec_template(r), "/nudm-sdm/v2/shared-data-subscriptions/"@, vals),
        Route::SharedDataSharedDataId => lemma_fill_prefix(spec_template(r), "/nudm-sdm/v2/shared-data/"@, vals),
        Route::Supi => lemma_fill_prefix(spec_template(r), "/nudm-sdm/v2/"@, vals),
        Route::Supi5mbsData => lemma_fill_infix(spec_template(r), "/nudm-sdm/v2/"@, "/5mbs-data"@, vals),
        Route::SupiAmData => lemma_fill_infix(spec_template(r), "/nudm-sdm/v2/"@, "/am-data"@, vals),
        Route::SupiAmDataCagAck => lemma_fill_infix(spec_template(r), "/nudm-sdm/v2/"@, "/am-data/cag-ack"@, vals),
        Route::SupiAmDataEcrData => lemma_fill_infix(spec_template(r), "/nudm-sdm/v2/"@, "/am-data/ecr-data"@, vals),
        Route::SupiAmDataSorAck => lemma_fill_infix(spec_template(r), "/nudm-sdm/v2/"@, "/am-data/sor-ack"@, vals),
        Route::SupiAmDataSubscribedSnssaisAck => lemma_fill_infix(spec_template(r), "/nudm-sdm/v2/"@, "/am-data/subscribed-snssais-ack"@, vals),
        Route::SupiAmDataUpdateSor => lemma_fill_infix(spec_template(r), "/nudm-sdm/v2/"@, "/am-data/update-sor"@, vals),
        Route::SupiAmDataUpuAck => lemma_fill_infix(spec_template(r), "/nudm-sdm/v2/"@, "/am-data/upu-ack"@, vals),
        Route::SupiLcsBcaData => lemma_fill_infix(spec_template(r), "/nudm-sdm/v2/"@, "/lcs-bca-data"@, vals),
        Route::SupiLcsMoData => lemma_fill_infix(spec_template(r), "/nudm-sdm/v2/"@, "/lcs-mo-data"@, vals),
        Route::SupiNssai => lemma_fill_infix(spec_template(r), "/nudm-sdm/v2/"@, "/nssai"@, vals),
        Route::SupiProseData => lemma_fill_infix(spec_template(r), "/nudm-sdm/v2/"@, "/prose-data"@, vals),
        Route::SupiSmData => lemma_fill_infix(spec_template(r), "/nudm-sdm/v2/"@, "/sm-data"@, vals),
        Route::SupiSmfSelectData => lemma_fill_infix(spec_template(r), "/nudm-sdm/v2/"@, "/smf-select-data"@, vals),
        Route::SupiSmsData => lemma_fill_infix(spec_template(r), "/nudm-sdm/v2/"@, "/sms-data"@, vals),
        Route::SupiSmsMngData => lemma_fill_infix(spec_template(r), "/nudm-sdm/v2/"@, "/sms-mng-data"@, vals),
        Route::SupiTraceData => lemma_fill_infix(spec_template(r), "/nudm-sdm/v2/"@, "/trace-data"@, vals),
        Route::SupiUcData => lemma_fill_infix(spec_template(r), "/nudm-sdm/v2/"@, "/uc-data"@, vals),
        Route::SupiUeContextInAmfData => lemma_fill_infix(spec_template(r), "/nudm-sdm/v2/"@, "/ue-context-in-amf-data"@, vals),
        Route::SupiUeContextInSmfData => lemma_fill_infix(spec_template(r), "/nudm-sdm/v2/"@, "/ue-context-in-smf-data"@, vals),
        Route::SupiUeContextInSmsfData => lemma_fill_infix(spec_template(r), "/nudm-sdm/v2/"@, "/ue-context-in-smsf-data"@, vals),
        Route::SupiV2xData => lemma_fill_infix(spec_template(r), "/nudm-sdm/v2/"@, "/v2x-data"@, vals),
        Route::UeIdIdTranslationResult => lemma_fill_infix(spec_template(r), "/nudm-sdm/v2/"@, "/id-translation-result"@, vals),
        Route::UeIdLcsPrivacyData => lemma_fill_infix(spec_template(r), "/nudm-sdm/v2/"@, "/lcs-privacy-data"@, vals),
        Route::UeIdSdmSubscriptions => lemma_fill_infix(spec_template(r), "/nudm-sdm/v2/"@, "/sdm-subscriptions"@, vals),
        Route::UeIdSdmSubscriptionsSubscriptionId => lemma_fill_two_params(spec_template(r), "/nudm-sdm/v2/"@, "/sdm-subscriptions/"@, vals),
    }
}

/// Each route accepts exactly the paths of its documented pattern, with path
/// segments (no `/`, `?` or `#`) for its parameters: filling the pattern with
/// segments spells a path that matches the route and whose parameters read
/// back as those segments; and every path that matches the route is its
/// pattern filled with the segments read from it.
pub proof fn law_routes_follow_documented_paths(r: Route, vals: Seq<Seq<char>>, path: Seq<char>)
    ensures
        vals.len() == documented_param_count(r) && all_segments(vals) ==> route_matches(r, documented_path(r, vals))
            && path_values(r, documented_path(r, vals)) == vals,
        route_matches(r, path) ==> path_values(r, path).len() == documented_param_count(r) && all_segments(
            path_values(r, path),
        ) && documented_path(r, path_values(r, path)) == path,
        route_matches(r, path) <==> exists|vs: Seq<Seq<char>>|
            vs.len() == documented_param_count(r) && all_segments(vs) && #[trigger] documented_path(r, vs) == path,
{
    if vals.len() == documented_param_count(r) && all_segments(vals) {
        lemma_template_is_documented(r, vals);
        let p = documented_path(r, vals);
        law_fill_then_capture(r, vals, vals);
        let pv = path_values(r, p);
        assert(fits(spec_template(r), pv) && fill(spec_template(r), pv) == p);
        law_fill_then_capture(r, vals, pv);
    }
    if route_matches(r, path) {
        let pv = path_values(r, path);
        assert(fits(spec_template(r), pv) && fill(spec_template(r), pv) == path);
        let blank = Seq::new(documented_param_count(r), |k: int| Seq::<char>::empty());
        lemma_template_is_documented(r, blank);
        lemma_template_is_documented(r, pv);
        assert(pv.len() == documented_param_count(r) && all_segments(pv) && documented_path(r, pv) == path);
    }
    if exists|vs: Seq<Seq<char>>|
        vs.len() == documented_param_count(r) && all_segments(vs) && #[trigger] documented_path(r, vs) == path {
        let vs = choose|vs: Seq<Seq<char>>|
            vs.len() == documented_param_count(r) && all_segments(vs) && #[trigger] documented_path(r, vs) == path;
        lemma_template_is_documented(r, vs);
        assert(fits(spec_template(r), vs) && fill(spec_template(r), vs) == path);
    }
}

/// The method and the path pattern of each operation as its documentation
/// writes them, each parameter as its name in braces.
pub open spec fn documented_operation(op: Operation) -> (Method, Seq<char>) {
    match op {

        Operation::GetAmData => (Method::Get, "/nudm-sdm/v2/{supi}/am-data"@),
        Operation::GetMbsData => (Method::Get, "/nudm-sdm/v2/{supi}/5mbs-data"@),
        Operation::GetEcrData => (Method::Get, "/nudm-sdm/v2/{supi}/am-data/ecr-data"@),
        Operation::GetSupiOrGpsi => (Method::Get, "/nudm-sdm/v2/{ueId}/id-translation-result"@),
        Operation::GetGroupIdentifiers => (Method::Get, "/nudm-sdm/v2/group-data/group-identifiers"@),
        Operation::GetLcsBcaData => (Method::Get, "/nudm-sdm/v2/{supi}/lcs-bca-data"@),
        Operation::GetLcsMoData => (Method::Get, "/nudm-sdm/v2/{supi}/lcs-mo-data"@),
        Operation::GetLcsPrivacyData => (Method::Get, "/nudm-sdm/v2/{ueId}/lcs-privacy-data"@),
        Operation::GetMultipleIdentifiers => (Method::Get, "/nudm-sdm/v2/multiple-identifiers"@),
        Operation::GetProseData => (Method::Get, "/nudm-sdm/v2/{supi}/prose-data"@),
        Operation::CAgAck => (Method::Put, "/nudm-sdm/v2/{supi}/am-data/cag-ack"@),
        Operation::SNssaisAck => (Method::Put, "/nudm-sdm/v2/{supi}/am-data/subscribed-snssais-ack"@),
        Operation::SorAckInfo => (Method::Put, "/nudm-sdm/v2/{supi}/am-data/sor-ack"@),
        Operation::UpuAck => (Method::Put, "/nudm-sdm/v2/{supi}/am-data/upu-ack"@),
        Operation::GetSharedData => (Method::Get, "/nudm-sdm/v2/shared-data"@),
        Operation::GetDataSets => (Method::Get, "/nudm-sdm/v2/{supi}"@),
        Operation::GetIndividualSharedData => (Method::Get, "/nudm-sdm/v2/shared-data/{sharedDataId}"@),
        Operation::GetSmfSelData => (Method::Get, "/nudm-sdm/v2/{supi}/smf-select-data"@),
        Operation::GetSmsMngtData => (Method::Get, "/nudm-sdm/v2/{supi}/sms-mng-data"@),
        Operation::GetSmsData => (Method::Get, "/nudm-sdm/v2/{supi}/sms-data"@),
        Operation::GetSmData => (Method::Get, "/nudm-sdm/v2/{supi}/sm-data"@),
        Operation::GetNssai => (Method::Get, "/nudm-sdm/v2/{supi}/nssai"@),
        Operation::Subscribe => (Method::Post, "/nudm-sdm/v2/{ueId}/sdm-subscriptions"@),
        Operation::SubscribeToSharedData => (Method::Post, "/nudm-sdm/v2/shared-data-subscriptions"@),
        Operation::Unsubscribe => (Method::Delete, "/nudm-sdm/v2/{ueId}/sdm-subscriptions/{subscriptionId}"@),
        Operation::UnsubscribeForSharedData => (Method::Delete, "/nudm-sdm/v2/shared-data-subscriptions/{subscriptionId}"@),
        Operation::Modify => (Method::Patch, "/nudm-sdm/v2/{ueId}/sdm-subscriptions/{subscriptionId}"@),
        Operation::ModifySharedDataSubs => (Method::Patch, "/nudm-sdm/v2/shared-data-subscriptions/{subscriptionId}"@),
        Operation::GetTraceConfigData => (Method::Get, "/nudm-sdm/v2/{supi}/trace-data"@),
        Operation::UpdateSorInfo => (Method::Post, "/nudm-sdm/v2/{supi}/am-data/update-sor"@),
        Operation::GetUeCtxInAmfData => (Method::Get, "/nudm-sdm/v2/{supi}/ue-context-in-amf-data"@),
        Operation::GetUeCtxInSmfData => (Method::Get, "/nudm-sdm/v2/{supi}/ue-context-in-smf-data"@),
        Operation::GetUeCtxInSmsfData => (Method::Get, "/nudm-sdm/v2/{supi}/ue-context-in-smsf-data"@),
        Operation::GetUcData => (Method::Get, "/nudm-sdm/v2/{supi}/uc-data"@),
        Operation::GetV2xData => (Method::Get, "/nudm-sdm/v2/{supi}/v2x-data"@),
    }
}

/// A path parameter written as its name in braces, as patterns write it.
pub open spec fn braced(p: PathParam) -> Seq<char> {
    "{"@ + path_param_name(p) + "}"@
}

/// Each operation answers the method and the path pattern that its
/// documentation gives it: its route's pattern, with its path parameters
/// written in braces, spells the documented pattern.
pub proof fn law_operations_follow_documentation(op: Operation)
    ensures
        op_method(op) == documented_operation(op).0,
        op_path_params(op).len() == documented_param_count(op_route(op)),
        documented_path(op_route(op), op_path_params(op).map_values(|p: PathParam| braced(p)))
            == documented_operation(op).1,
{
    reveal_strlit("{");
    reveal_strlit("}");
    match op {

        Operation::GetAmData => {
            reveal_strlit("/nudm-sdm/v2/");
            reveal_strlit("/am-data");
            reveal_strlit("supi");
            reveal_strlit("/nudm-sdm/v2/{supi}/am-data");
        },
        Operation::GetMbsData => {
            reveal_strlit("/nudm-sdm/v2/");
            reveal_strlit("/5mbs-data");
            reveal_strlit("supi");
            reveal_strlit("/nudm-sdm/v2/{supi}/5mbs-data");
        },
        Operation::GetEcrData => {
            reveal_strlit("/nudm-sdm/v2/");
            reveal_strlit("/am-data/ecr-data");
            reveal_strlit("supi");
            reveal_strlit("/nudm-sdm/v2/{supi}/am-data/ecr-data");
        },
        Operation::GetSupiOrGpsi => {
            reveal_strlit("/nudm-sdm/v2/");
            reveal_strlit("/id-translation-result");
            reveal_strlit("ueId");
            reveal_strlit("/nudm-sdm/v2/{ueId}/id-translation-result");
        },
        Operation::GetGroupIdentifiers => {
            reveal_strlit("/nudm-sdm/v2/group-data/group-identifiers");
            reveal_strlit("/nudm-sdm/v2/group-data/group-identifiers");
        },
        Operation::GetLcsBcaData => {
            reveal_strlit("/nudm-sdm/v2/");
            reveal_strlit("/lcs-bca-data");
            reveal_strlit("supi");
            reveal_strlit("/nudm-sdm/v2/{supi}/lcs-bca-data");
        },
        Operation::GetLcsMoData => {
            reveal_strlit("/nudm-sdm/v2/");
            reveal_strlit("/lcs-mo-data");
            reveal_strlit("supi");
            reveal_strlit("/nudm-sdm/v2/{supi}/lcs-mo-data");
        },
        Operation::GetLcsPrivacyData => {
            reveal_strlit("/nudm-sdm/v2/");
            reveal_strlit("/lcs-privacy-data");
            reveal_strlit("ueId");
            reveal_strlit("/nudm-sdm/v2/{ueId}/lcs-privacy-data");
        },
        Operation::GetMultipleIdentifiers => {
            reveal_strlit("/nudm-sdm/v2/multiple-identifiers");
            reveal_strlit("/nudm-sdm/v2/multiple-identifiers");
        },
        Operation::GetProseData => {
            reveal_strlit("/nudm-sdm/v2/");
            reveal_strlit("/prose-data");
            reveal_strlit("supi");
            reveal_strlit("/nudm-sdm/v2/{supi}/prose-data");
        },
        Operation::CAgAck => {
            reveal_strlit("/nudm-sdm/v2/");
            reveal_strlit("/am-data/cag-ack");
            reveal_strlit("supi");
            reveal_strlit("/nudm-sdm/v2/{supi}/am-data/cag-ack");
        },
        Operation::SNssaisAck => {
            reveal_strlit("/nudm-sdm/v2/");
            reveal_strlit("/am-data/subscribed-snssais-ack");
            reveal_strlit("supi");
            reveal_strlit("/nudm-sdm/v2/{supi}/am-data/subscribed-snssais-ack");
        },
        Operation::SorAckInfo => {
            reveal_strlit("/nudm-sdm/v2/");
            reveal_strlit("/am-data/sor-ack");
            reveal_strlit("supi");
            reveal_strlit("/nudm-sdm/v2/{supi}/am-data/sor-ack");
        },
        Operation::UpuAck => {
            reveal_strlit("/nudm-sdm/v2/");
            reveal_strlit("/am-data/upu-ack");
            reveal_strlit("supi");
            reveal_strlit("/nudm-sdm/v2/{supi}/am-data/upu-ack");
        },
        Operation::GetSharedData => {
            reveal_strlit("/nudm-sdm/v2/shared-data");
            reveal_strlit("/nudm-sdm/v2/shared-data");
        },
        Operation::GetDataSets => {
            reveal_strlit("/nudm-sdm/v2/");
            reveal_strlit("supi");
            reveal_strlit("/nudm-sdm/v2/{supi}");
        },
        Operation::GetIndividualSharedData => {
            reveal_strlit("/nudm-sdm/v2/shared-data/");
            reveal_strlit("sharedDataId");
            reveal_strlit("/nudm-sdm/v2/shared-data/{sharedDataId}");
        },
        Operation::GetSmfSelData => {
            reveal_strlit("/nudm-sdm/v2/");
            reveal_strlit("/smf-select-data");
            reveal_strlit("supi");
            reveal_strlit("/nudm-sdm/v2/{supi}/smf-select-data");
        },
        Operation::GetSmsMngtData => {
            reveal_strlit("/nudm-sdm/v2/");
            reveal_strlit("/sms-mng-data");
            reveal_strlit("supi");
            reveal_strlit("/nudm-sdm/v2/{supi}/sms-mng-data");
        },
        Operation::GetSmsData => {
            reveal_strlit("/nudm-sdm/v2/");
            reveal_strlit("/sms-data");
            reveal_strlit("supi");
            reveal_strlit("/nudm-sdm/v2/{supi}/sms-data");
        },
        Operation::GetSmData => {
            reveal_strlit("/nudm-sdm/v2/");
            reveal_strlit("/sm-data");
            reveal_strlit("supi");
            reveal_strlit("/nudm-sdm/v2/{supi}/sm-data");
        },
        Operation::GetNssai => {
            reveal_strlit("/nudm-sdm/v2/");
            reveal_strlit("/nssai");
            reveal_strlit("supi");
            reveal_strlit("/nudm-sdm/v2/{supi}/nssai");
        },
        Operation::Subscribe => {
            reveal_strlit("/nudm-sdm/v2/");
            reveal_strlit("/sdm-subscriptions");
            reveal_strlit("ueId");
            reveal_strlit("/nudm-sdm/v2/{ueId}/sdm-subscriptions");
        },
        Operation::SubscribeToSharedData => {
            reveal_strlit("/nudm-sdm/v2/shared-data-subscriptions");
            reveal_strlit("/nudm-sdm/v2/shared-data-subscriptions");
        },
        Operation::Unsubscribe => {
            reveal_strlit("/nudm-sdm/v2/");
            reveal_strlit("/sdm-subscriptions/");
            reveal_strlit("ueId");
            reveal_strlit("subscriptionId");
            reveal_strlit("/nudm-sdm/v2/{ueId}/sdm-subscriptions/{subscriptionId}");
        },
        Operation::UnsubscribeForSharedData => {
            reveal_strlit("/nudm-sdm/v2/shared-data-subscriptions/");
            reveal_strlit("subscriptionId");
            reveal_strlit("/nudm-sdm/v2/shared-data-subscriptions/{subscriptionId}");
        },
        Operation::Modify => {
            reveal_strlit("/nudm-sdm/v2/");
            reveal_strlit("/sdm-subscriptions/");
            reveal_strlit("ueId");
            reveal_strlit("subscriptionId");
            reveal_strlit("/nudm-sdm/v2/{ueId}/sdm-subscriptions/{subscriptionId}");
        },
        Operation::ModifySharedDataSubs => {
            reveal_strlit("/nudm-sdm/v2/shared-data-subscriptions/");
            reveal_strlit("subscriptionId");
            reveal_strlit("/nudm-sdm/v2/shared-data-subscriptions/{subscriptionId}");
        },
        Operation::GetTraceConfigData => {
            reveal_strlit("/nudm-sdm/v2/");
            reveal_strlit("/trace-data");
            reveal_strlit("supi");
            reveal_strlit("/nudm-sdm/v2/{supi}/trace-data");
        },
        Operation::UpdateSorInfo => {
            reveal_strlit("/nudm-sdm/v2/");
            reveal_strlit("/am-data/update-sor");
            reveal_strlit("supi");
            reveal_strlit("/nudm-sdm/v2/{supi}/am-data/update-sor");
        },
        Operation::GetUeCtxInAmfData => {
            reveal_strlit("/nudm-sdm/v2/");
            reveal_strlit("/ue-context-in-amf-data");
            reveal_strlit("supi");
            reveal_strlit("/nudm-sdm/v2/{supi}/ue-context-in-amf-data");
        },
        Operation::GetUeCtxInSmfData => {
            reveal_strlit("/nudm-sdm/v2/");
            reveal_strlit("/ue-context-in-smf-data");
            reveal_strlit("supi");
            reveal_strlit("/nudm-sdm/v2/{supi}/ue-context-in-smf-data");
        },
        Operation::GetUeCtxInSmsfData => {
            reveal_strlit("/nudm-sdm/v2/");
            reveal_strlit("/ue-context-in-smsf-data");
            reveal_strlit("supi");
            reveal_strlit("/nudm-sdm/v2/{supi}/ue-context-in-smsf-data");
        },
        Operation::GetUcData => {
            reveal_strlit("/nudm-sdm/v2/");
            reveal_strlit("/uc-data");
            reveal_strlit("supi");
            reveal_strlit("/nudm-sdm/v2/{supi}/uc-data");
        },
        Operation::GetV2xData => {
            reveal_strlit("/nudm-sdm/v2/");
            reveal_strlit("/v2x-data");
            reveal_strlit("supi");
            reveal_strlit("/nudm-sdm/v2/{supi}/v2x-data");
        },
    }
    assert(documented_path(op_route(op), op_path_params(op).map_values(|p: PathParam| braced(p)))
        =~= documented_operation(op).1);
}

/// The query parameters of each operation as the documentation lists them,
/// in order: each name, with the type the service reads its value as.
pub open spec fn documented_query(op: Operation) -> Seq<(Seq<char>, ParamKind)> {
    match op {
        Operation::GetAmData => seq![("supported-features"@, ParamKind::Text), ("plmn-id"@, ParamKind::Model), ("adjacent-plmns"@, ParamKind::OptionalList), ("disaster-roaming-ind"@, ParamKind::Flag)],
        Operation::GetMbsData => seq![("supported-features"@, ParamKind::Text)],
        Operation::GetEcrData => seq![("supported-features"@, ParamKind::Text)],
        Operation::GetSupiOrGpsi => seq![("supported-features"@, ParamKind::Text), ("af-id"@, ParamKind::Text), ("app-port-id"@, ParamKind::Model), ("af-service-id"@, ParamKind::Text), ("mtc-provider-info"@, ParamKind::Text), ("requested-gpsi-type"@, ParamKind::Model)],
        Operation::GetGroupIdentifiers => seq![("ext-group-id"@, ParamKind::Text), ("int-group-id"@, ParamKind::Text), ("ue-id-ind"@, ParamKind::Flag), ("supported-features"@, ParamKind::Text), ("af-id"@, ParamKind::Text)],
        Operation::GetLcsBcaData => seq![("supported-features"@, ParamKind::Text), ("plmn-id"@, ParamKind::Model)],
        Operation::GetLcsMoData => seq![("supported-features"@, ParamKind::Text)],
        Operation::GetLcsPrivacyData => seq![("supported-features"@, ParamKind::Text)],
        Operation::GetMultipleIdentifiers => seq![("supported-features"@, ParamKind::Text), ("gpsi-list"@, ParamKind::RequiredList)],
        Operation::GetProseData => seq![("supported-features"@, ParamKind::Text)],
        Operation::CAgAck => seq![],
        Operation::SNssaisAck => seq![],
        Operation::SorAckInfo => seq![],
        Operation::UpuAck => seq![],
        Operation::GetSharedData => seq![("shared-data-ids"@, ParamKind::RequiredList), ("supportedFeatures"@, ParamKind::Text), ("supported-features"@, ParamKind::Text)],
        Operation::GetDataSets => seq![("dataset-names"@, ParamKind::RequiredList), ("plmn-id"@, ParamKind::Model), ("disaster-roaming-ind"@, ParamKind::Flag), ("supported-features"@, ParamKind::Text)],
        Operation::GetIndividualSharedData => seq![("supported-features"@, ParamKind::Text)],
        Operation::GetSmfSelData => seq![("supported-features"@, ParamKind::Text), ("plmn-id"@, ParamKind::Model), ("disaster-roaming-ind"@, ParamKind::Flag)],
        Operation::GetSmsMngtData => seq![("supported-features"@, ParamKind::Text), ("plmn-id"@, ParamKind::Model)],
        Operation::GetSmsData => seq![("supported-features"@, ParamKind::Text), ("plmn-id"@, ParamKind::Model)],
        Operation::GetSmData => seq![("supported-features"@, ParamKind::Text), ("single-nssai"@, ParamKind::Model), ("dnn"@, ParamKind::Text), ("plmn-id"@, ParamKind::Model)],
        Operation::GetNssai => seq![("supported-features"@, ParamKind::Text), ("plmn-id"@, ParamKind::Model), ("disaster-roaming-ind"@, ParamKind::Flag)],
        Operation::Subscribe => seq![],
        Operation::SubscribeToSharedData => seq![],
        Operation::Unsubscribe => seq![],
        Operation::UnsubscribeForSharedData => seq![],
        Operation::Modify => seq![("supported-features"@, ParamKind::Text)],
        Operation::ModifySharedDataSubs => seq![("supported-features"@, ParamKind::Text)],
        Operation::GetTraceConfigData => seq![("supported-features"@, ParamKind::Text), ("plmn-id"@, ParamKind::Model)],
        Operation::UpdateSorInfo => seq![],
        Operation::GetUeCtxInAmfData => seq![("supported-features"@, ParamKind::Text)],
        Operation::GetUeCtxInSmfData => seq![("supported-features"@, ParamKind::Text)],
        Operation::GetUeCtxInSmsfData => seq![("supported-features"@, ParamKind::Text)],
        Operation::GetUcData => seq![("supported-features"@, ParamKind::Text), ("uc-purpose"@, ParamKind::Model)],
        Operation::GetV2xData => seq![("supported-features"@, ParamKind::Text)],
    }
}

/// Each operation reads the query parameters that its documentation lists,
/// in the listed order, each as the listed type.
pub proof fn law_query_plan_follows_documentation(op: Operation)
    ensures
        spec_query_plan(op).len() == documented_query(op).len(),
        forall|i: int|
            0 <= i < documented_query(op).len() ==> key_name((#[trigger] spec_query_plan(op)[i]).0)
                == documented_query(op)[i].0 && spec_query_plan(op)[i].1 == documented_query(op)[i].1,
{
}

/// What an operation gets for each documented query parameter, whatever the
/// query holds: a text parameter gets the first value with its name, as it
/// is; a boolean one, that value where it reads `true` or `false`; a
/// data-model one, that value where the model accepts it; a list one, every
/// value with its name, in order, where the model accepts them all.
pub proof fn law_documented_query_values(
    op: Operation,
    pairs: Seq<(Seq<char>, Seq<char>)>,
    accepted: Seq<bool>,
    i: int,
)
    requires
        0 <= i < documented_query(op).len(),
    ensures
        ({
            let name = documented_query(op)[i].0;
            let kind = documented_query(op)[i].1;
            let got = resolve_entry(spec_query_plan(op)[i].1, selection(spec_query_plan(op), pairs)[i], accepted);
            &&& kind == ParamKind::Text ==> got == QueryValueView::Text(first_value(pairs, name))
            &&& kind == ParamKind::Flag ==> got == QueryValueView::Flag(
                match first_value(pairs, name) {
                    Some(t) => flag_value(t),
                    None => None,
                },
            )
            &&& kind == ParamKind::Model && accepted.len() > 0 && accepted[0] ==> got == QueryValueView::Model(
                first_value(pairs, name),
            )
            &&& kind == ParamKind::Model && accepted.len() > 0 && !accepted[0] ==> got == QueryValueView::Model(None)
            &&& is_list(kind) && accepted.len() == all_values(pairs, name).len() && (forall|j: int|
                0 <= j < accepted.len() ==> #[trigger] accepted[j]) && (kind == ParamKind::RequiredList
                || all_values(pairs, name).len() > 0) ==> got == QueryValueView::List(Some(all_values(pairs, name)))
        }),
{
    law_query_plan_follows_documentation(op);
    let plan = spec_query_plan(op);
    assert(selection(plan, pairs)[i] == select_entry(plan[i], pairs));
    let vs = all_values(pairs, documented_query(op)[i].0);
    if accepted.len() == vs.len() && forall|j: int| 0 <= j < accepted.len() ==> #[trigger] accepted[j] {
        lemma_all_kept(vs, accepted);
    }
}

/// Keeping the values whose flag is set keeps every value when every flag is set.
proof fn lemma_all_kept(vs: Seq<Seq<char>>, accepted: Seq<bool>)
    requires
        accepted.len() == vs.len(),
        forall|j: int| 0 <= j < accepted.len() ==> #[trigger] accepted[j],
    ensures
        kept_values(vs, accepted) == vs,
    decreases vs.len(),
{
    if vs.len() > 0 {
        lemma_all_kept(vs.drop_last(), accepted.drop_last());
        assert(vs.drop_last() + seq![vs.last()] =~= vs);
    }
}

/// Keeping the values whose flag is set keeps none when no flag is set.
proof fn lemma_none_kept(vs: Seq<Seq<char>>, accepted: Seq<bool>)
    requires
        accepted.len() == vs.len(),
        forall|j: int| 0 <= j < accepted.len() ==> !#[trigger] accepted[j],
    ensures
        kept_values(vs, accepted) == Seq::<Seq<char>>::empty(),
    decreases vs.len(),
{
    if vs.len() > 0 {
        lemma_none_kept(vs.drop_last(), accepted.drop_last());
    }
}

/// What a list parameter keeps of two runs of values, one after the other,
/// is what it keeps of the first run followed by what it keeps of the second.
pub proof fn law_kept_values_concatenate(vs1: Seq<Seq<char>>, a1: Seq<bool>, vs2: Seq<Seq<char>>, a2: Seq<bool>)
    requires
        a1.len() == vs1.len(),
        a2.len() == vs2.len(),
    ensures
        kept_values(vs1 + vs2, a1 + a2) == kept_values(vs1, a1) + kept_values(vs2, a2),
    decreases vs2.len(),
{
    if vs2.len() == 0 {
        assert(vs1 + vs2 =~= vs1);
        assert(a1 + a2 =~= a1);
        assert(kept_values(vs1, a1) + kept_values(vs2, a2) =~= kept_values(vs1, a1));
    } else {
        law_kept_values_concatenate(vs1, a1, vs2.drop_last(), a2.drop_last());
        assert((vs1 + vs2).drop_last() =~= vs1 + vs2.drop_last());
        assert((a1 + a2).drop_last() =~= a1 + a2.drop_last());
        assert((vs1 + vs2).last() == vs2.last());
        assert((a1 + a2)[(vs1 + vs2).len() - 1] == a2[vs2.len() - 1]);
        if a2[vs2.len() - 1] {
            assert(kept_values(vs1, a1) + kept_values(vs2.drop_last(), a2.drop_last()) + seq![vs2.last()]
                =~= kept_values(vs1, a1) + (kept_values(vs2.drop_last(), a2.drop_last()) + seq![vs2.last()]));
        }
    }
}

/// A list parameter gets all of its values, in order, where the data model
/// accepts every one of them (an optional list with no value at all stays
/// absent); and none of them where it accepts none: absent for an optional
/// list, empty for a required one.
pub proof fn law_list_parameters_keep_accepted_values(kind: ParamKind, vs: Seq<Seq<char>>, accepted: Seq<bool>)
    requires
        is_list(kind),
        accepted.len() == vs.len(),
    ensures
        (forall|j: int| 0 <= j < accepted.len() ==> #[trigger] accepted[j]) && (kind == ParamKind::RequiredList
            || vs.len() > 0) ==> resolve_entry(kind, SelectedView::Many(vs), accepted) == QueryValueView::List(
            Some(vs),
        ),
        (forall|j: int| 0 <= j < accepted.len() ==> !#[trigger] accepted[j]) ==> resolve_entry(
            kind,
            SelectedView::Many(vs),
            accepted,
        ) == (if kind == ParamKind::OptionalList {
            QueryValueView::List(None)
        } else {
            QueryValueView::List(Some(Seq::empty()))
        }),
{
    if forall|j: int| 0 <= j < accepted.len() ==> #[trigger] accepted[j] {
        lemma_all_kept(vs, accepted);
    }
    if forall|j: int| 0 <= j < accepted.len() ==> !#[trigger] accepted[j] {
        lemma_none_kept(vs, accepted);
    }
}

/// An operation creates a subscription: it posts to a collection of subscriptions.
pub open spec fn creates_subscription(op: Operation) -> bool {
    op_method(op) == Method::Post && (op_route(op) == Route::UeIdSdmSubscriptions || op_route(op)
        == Route::SharedDataSubscriptions)
}

/// A successful answer that carries a result is `201 Created` where the
/// operation creates a subscription, `200 OK` otherwise; an acknowledgement
/// or a deletion is `204 No Content`.
pub proof fn law_success_status(op: Operation)
    ensures
        op_has_reply(op, Reply::Expected) ==> reply_status(op, Reply::Expected) == (if creates_subscription(op) {
            201u16
        } else {
            200u16
        }),
        op_has_reply(op, Reply::Acknowledged) ==> reply_status(op, Reply::Acknowledged) == 204,
        op_has_reply(op, Reply::Succeeded) ==> reply_status(op, Reply::Succeeded) == 204,
{
}

/// The content type of an answer follows its status: a result (`200`,
/// `201`) is JSON, an answer without content (`204`) and `406` carry no
/// body, and every other refusal or failure is a problem report.
pub proof fn law_content_type_follows_status(op: Operation, r: Reply)
    requires
        op_has_reply(op, r),
    ensures
        reply_status(op, r) == 200 || reply_status(op, r) == 201 ==> reply_content_type(r) == Some(ContentType::Json),
        reply_status(op, r) == 204 || reply_status(op, r) == 406 ==> reply_content_type(r) is None,
        reply_status(op, r) >= 400 && reply_status(op, r) != 406 ==> reply_content_type(r) == Some(
            ContentType::ProblemJson,
        ),
{
}

/// The body parameter of each operation by its method and route: reads and
/// deletions take none; an acknowledgement (`PUT`) takes an optional
/// `AcknowledgeInfo`; a modification (`PATCH`) a required
/// `SdmSubsModification`; a new subscription a required `SdmSubscription`;
/// an update of the steering of roaming an optional `SorUpdateInfo`.
pub proof fn law_body_parameters(op: Operation)
    ensures
        op_method(op) == Method::Get || op_method(op) == Method::Delete ==> op_body(op) is None,
        op_method(op) == Method::Put ==> op_body(op) == Some((BodyParam::AcknowledgeInfo, false)),
        op_method(op) == Method::Patch ==> op_body(op) == Some((BodyParam::SdmSubsModification, true)),
        creates_subscription(op) ==> op_body(op) == Some((BodyParam::SdmSubscription, true)),
        op_method(op) == Method::Post && op_route(op) == Route::SupiAmDataUpdateSor ==> op_body(op) == Some(
            (BodyParam::SorUpdateInfo, false),
        ),
{
}

/// A request that creates a subscription passes its checks with the
/// subscription where the body parses, and is refused with `Missing required
/// body parameter SdmSubscription` where the body is empty.
pub proof fn law_subscription_body_is_required(
    op: Operation,
    path_errors: Seq<Option<Seq<char>>>,
    if_none_match: Option<Result<Seq<char>, Seq<char>>>,
    if_modified_since: Option<Result<Seq<char>, Seq<char>>>,
)
    requires
        creates_subscription(op),
        path_errors.len() == op_path_params(op).len(),
    ensures
        request_checks(op, path_errors, if_none_match, if_modified_since, Some(BodyReadView::Parsed)) == Ok::<
            bool,
            Seq<char>,
        >(true),
        request_checks(op, path_errors, if_none_match, if_modified_since, Some(BodyReadView::Empty)) == Err::<
            bool,
            Seq<char>,
        >("Missing required body parameter SdmSubscription"@),
{
    reveal_strlit("Missing required body parameter SdmSubscription");
    reveal_strlit("Missing required body parameter ");
    reveal_strlit("SdmSubscription");
    assert("Missing required body parameter "@ + "SdmSubscription"@ =~= "Missing required body parameter SdmSubscription"@);
    assert(op == Operation::Subscribe || op == Operation::SubscribeToSharedData);
    reveal_with_fuel(path_problem_from, 3);
    assert(path_problem_from(op_path_params(op), path_errors, 0) is None);
    assert(header_problem_spec(op, if_none_match, if_modified_since) is None);
}

} // verus!
