use nudm_sdm::admission::{accept_request, Admission};
use nudm_sdm::auth::{authorize, Scopes};
use nudm_sdm::checks::{body_outcome, check_request, header_problem, path_problem, BodyRead};
use nudm_sdm::operation::{Method, Operation, Reply};
use nudm_sdm::pathparam::decode_path_param;
use nudm_sdm::query::{resolve_query, select_pairs, select_query, QueryValue, Selected};
use nudm_sdm::queryplan::{query_plan, ParamKind, QueryKey};
use nudm_sdm::reply::{plan_failure, plan_reply, ContentType, ResponseHeader};

fn s(x: &str) -> String {
    x.to_string()
}

#[test]
fn authorization_needs_the_service_scope() {
    assert_eq!(authorize(&None), Err(s("Unauthenticated")));
    assert_eq!(authorize(&Some(Scopes::All)), Ok(()));
    assert_eq!(authorize(&Some(Scopes::Listed(vec![s("a"), s("nudm-sdm")]))), Ok(()));
    assert_eq!(
        authorize(&Some(Scopes::Listed(vec![s("nudm-uecm")]))),
        Err(s("Insufficient authorization, missing scopes nudm-sdm"))
    );
    assert_eq!(
        authorize(&Some(Scopes::Listed(vec![]))),
        Err(s("Insufficient authorization, missing scopes nudm-sdm"))
    );
}

#[test]
fn path_parameters_are_percent_decoded() {
    assert_eq!(decode_path_param("imsi-001"), Ok(s("imsi-001")));
    assert_eq!(decode_path_param("%41b"), Ok(s("Ab")));
    assert_eq!(decode_path_param("a%2fb"), Ok(s("a/b")));
    assert_eq!(decode_path_param("%C3%A9t%C3%A9"), Ok(s("été")));
    assert_eq!(decode_path_param("100%"), Ok(s("100%")));
    assert_eq!(decode_path_param("%zz%4"), Ok(s("%zz%4")));
    assert_eq!(
        decode_path_param("x%FFy"),
        Err(s("Couldn't percent-decode path parameter as UTF-8: x%FFy"))
    );
}

#[test]
fn accepting_requests_checks_in_order() {
    let auth = Some(Scopes::All);
    match accept_request(Method::Get, "/nudm-sdm/v2/imsi%2D1/am-data", &auth) {
        Admission::Admitted(op, params) => {
            assert_eq!(op, Operation::GetAmData);
            assert_eq!(params, vec![s("imsi-1")]);
        }
        _ => panic!("not admitted"),
    }
    match accept_request(Method::Delete, "/nudm-sdm/v2/u%20x/sdm-subscriptions/s1", &auth) {
        Admission::Admitted(op, params) => {
            assert_eq!(op, Operation::Unsubscribe);
            assert_eq!(params, vec![s("u x"), s("s1")]);
        }
        _ => panic!("not admitted"),
    }
    assert!(matches!(accept_request(Method::Get, "/nowhere", &auth), Admission::NotFound));
    assert!(matches!(
        accept_request(Method::Put, "/nudm-sdm/v2/x/am-data", &auth),
        Admission::MethodNotAllowed
    ));
    match accept_request(Method::Get, "/nudm-sdm/v2/x%FF/am-data", &None) {
        Admission::Forbidden(m) => assert_eq!(m, s("Unauthenticated")),
        _ => panic!("not refused"),
    }
    match accept_request(Method::Get, "/nudm-sdm/v2/x%FF/am-data", &auth) {
        Admission::BadRequest(m) => assert_eq!(m, s("Couldn't percent-decode path parameter as UTF-8: x%FF")),
        _ => panic!("not refused"),
    }
    match accept_request(Method::Patch, "/nudm-sdm/v2/%FF/sdm-subscriptions/%FE", &auth) {
        Admission::BadRequest(m) => assert_eq!(m, s("Couldn't percent-decode path parameter as UTF-8: %FF")),
        _ => panic!("not refused"),
    }
}

fn one(v: &Selected) -> Option<String> {
    match v {
        Selected::One(x) => x.clone(),
        Selected::Many(_) => panic!("list"),
    }
}

fn many(v: &Selected) -> Vec<String> {
    match v {
        Selected::Many(x) => x.clone(),
        Selected::One(_) => panic!("single"),
    }
}

#[test]
fn query_takes_first_value_or_all_values() {
    let q = "supported-features=A1&plmn-id=%7B%22mcc%22%3A%22001%22%7D&adjacent-plmns=p1&supported-features=B2&adjacent-plmns=p2&disaster-roaming-ind=true";
    let sel = select_query(Operation::GetAmData, q);
    assert_eq!(sel.len(), 4);
    assert_eq!(one(&sel[0]), Some(s("A1")));
    assert_eq!(one(&sel[1]), Some(s("{\"mcc\":\"001\"}")));
    assert_eq!(many(&sel[2]), vec![s("p1"), s("p2")]);
    assert_eq!(one(&sel[3]), Some(s("true")));
    let sel = select_query(Operation::GetDataSets, "dataset-names=AM+SMF&&dataset-names=SMS");
    assert_eq!(many(&sel[0]), vec![s("AM SMF"), s("SMS")]);
    assert_eq!(one(&sel[1]), None);
    let sel = select_query(Operation::GetSharedData, "supportedFeatures=x&supported-features=y");
    assert_eq!(one(&sel[1]), Some(s("x")));
    assert_eq!(one(&sel[2]), Some(s("y")));
    assert_eq!(select_query(Operation::CAgAck, "a=b").len(), 0);
}

fn accepted_all(sel: &Vec<Selected>) -> Vec<Vec<bool>> {
    sel.iter()
        .map(|x| match x {
            Selected::One(None) => vec![],
            Selected::One(Some(_)) => vec![true],
            Selected::Many(v) => vec![true; v.len()],
        })
        .collect()
}

#[test]
fn garbage_in_optional_query_parameters_is_ignored() {
    let plan = query_plan(Operation::GetAmData);
    assert_eq!(plan[1], (QueryKey::PlmnId, ParamKind::Model));
    let sel = select_query(Operation::GetAmData, "disaster-roaming-ind=maybe&plmn-id=zz&adjacent-plmns=a&adjacent-plmns=b");
    let accepted = vec![vec![], vec![false], vec![false, false], vec![true]];
    let vals = resolve_query(Operation::GetAmData, &sel, &accepted);
    assert_eq!(vals.len(), 4);
    assert!(matches!(&vals[0], QueryValue::Text(None)));
    assert!(matches!(&vals[1], QueryValue::Model(None)));
    assert!(matches!(&vals[2], QueryValue::List(None)));
    assert!(matches!(&vals[3], QueryValue::Flag(None)));
    let sel = select_query(Operation::GetAmData, "disaster-roaming-ind=false&plmn-id=p&supported-features=f&adjacent-plmns=x&adjacent-plmns=y");
    let accepted = vec![vec![true], vec![true], vec![false, true], vec![true]];
    let vals = resolve_query(Operation::GetAmData, &sel, &accepted);
    match (&vals[0], &vals[1], &vals[2], &vals[3]) {
        (QueryValue::Text(t), QueryValue::Model(m), QueryValue::List(l), QueryValue::Flag(f)) => {
            assert_eq!(t, &Some(s("f")));
            assert_eq!(m, &Some(s("p")));
            assert_eq!(l, &Some(vec![s("y")]));
            assert_eq!(f, &Some(false));
        }
        _ => panic!("wrong kinds"),
    }
    let sel = select_query(Operation::GetAmData, "disaster-roaming-ind=True");
    let vals = resolve_query(Operation::GetAmData, &sel, &accepted_all(&sel));
    assert!(matches!(&vals[3], QueryValue::Flag(None)));
    let sel = select_query(Operation::GetDataSets, "");
    let vals = resolve_query(Operation::GetDataSets, &sel, &accepted_all(&sel));
    assert!(matches!(&vals[0], QueryValue::List(Some(v)) if v.is_empty()));
}

#[test]
fn data_model_path_parameters_must_parse() {
    assert_eq!(
        path_problem(Operation::GetIndividualSharedData, &vec![Some(s("bad id"))]),
        Some(s("Couldn't parse path parameter sharedDataId: bad id"))
    );
    assert_eq!(path_problem(Operation::GetIndividualSharedData, &vec![None]), None);
    assert_eq!(path_problem(Operation::GetAmData, &vec![Some(s("ignored"))]), None);
    assert_eq!(
        check_request(Operation::GetIndividualSharedData, &vec![Some(s("x"))], &Some(Err(s("h"))), &None, &None),
        Err(s("Couldn't parse path parameter sharedDataId: x"))
    );
}

#[test]
fn conditional_headers_are_checked_where_read() {
    assert_eq!(
        header_problem(Operation::GetNssai, &Some(Err(s("bad"))), &Some(Err(s("worse")))),
        Some(s("Invalid header If-None-Match - bad"))
    );
    assert_eq!(
        header_problem(Operation::GetNssai, &Some(Ok(s("etag"))), &Some(Err(s("worse")))),
        Some(s("Invalid header If-Modified-Since - worse"))
    );
    assert_eq!(header_problem(Operation::GetNssai, &None, &Some(Ok(s("Mon")))), None);
    assert_eq!(header_problem(Operation::GetUeCtxInAmfData, &Some(Err(s("bad"))), &None), None);
}

#[test]
fn bodies_are_required_or_optional() {
    assert_eq!(body_outcome(Operation::CAgAck, &BodyRead::Empty), Ok(false));
    assert_eq!(body_outcome(Operation::CAgAck, &BodyRead::Invalid(s("eof"))), Ok(false));
    assert_eq!(body_outcome(Operation::CAgAck, &BodyRead::Parsed), Ok(true));
    assert_eq!(
        body_outcome(Operation::CAgAck, &BodyRead::ReadFailed(s("reset"))),
        Err(s("Couldn't read body parameter AcknowledgeInfo: reset"))
    );
    assert_eq!(
        body_outcome(Operation::Subscribe, &BodyRead::Empty),
        Err(s("Missing required body parameter SdmSubscription"))
    );
    assert_eq!(
        body_outcome(Operation::Modify, &BodyRead::Invalid(s("missing field"))),
        Err(s("Couldn't parse body parameter SdmSubsModification - doesn't match schema: missing field"))
    );
    assert_eq!(body_outcome(Operation::UpdateSorInfo, &BodyRead::Empty), Ok(false));
}

#[test]
fn checks_stop_at_the_first_problem() {
    assert_eq!(
        check_request(Operation::Modify, &vec![None, None], &None, &None, &Some(BodyRead::Empty)),
        Err(s("Missing required body parameter SdmSubsModification"))
    );
    assert_eq!(
        check_request(Operation::Modify, &vec![None, None], &None, &None, &Some(BodyRead::Parsed)),
        Ok(true)
    );
    assert_eq!(
        check_request(Operation::GetNssai, &vec![None], &Some(Err(s("h"))), &Some(Err(s("i"))), &None),
        Err(s("Invalid header If-None-Match - h"))
    );
    assert_eq!(check_request(Operation::GetNssai, &vec![None], &None, &None, &None), Ok(false));
}

#[test]
fn replies_get_their_status_and_content_type() {
    let p = plan_reply(Operation::GetAmData, Reply::Expected).ok().unwrap();
    assert_eq!((p.status, p.content_type), (200, Some(ContentType::Json)));
    let p = plan_reply(Operation::Subscribe, Reply::Expected).ok().unwrap();
    assert_eq!(p.status, 201);
    let p = plan_reply(Operation::CAgAck, Reply::Acknowledged).ok().unwrap();
    assert_eq!((p.status, p.content_type), (204, None));
    let p = plan_reply(Operation::Unsubscribe, Reply::Succeeded).ok().unwrap();
    assert_eq!(p.status, 204);
    let p = plan_reply(Operation::GetMultipleIdentifiers, Reply::NotAcceptable).ok().unwrap();
    assert_eq!((p.status, p.content_type), (406, None));
    let p = plan_reply(Operation::GetMultipleIdentifiers, Reply::TooManyRequests).ok().unwrap();
    assert_eq!((p.status, p.content_type), (429, Some(ContentType::ProblemJson)));
    assert_eq!(ContentType::ProblemJson.text(), "application/problem+json");
    let p = plan_reply(Operation::Subscribe, Reply::NotImplemented).ok().unwrap();
    assert_eq!(p.status, 501);
    assert_eq!(plan_reply(Operation::GetNssai, Reply::UnexpectedError).err(), Some(0));
    let f = plan_failure();
    assert_eq!((f.status, f.fixed_body), (500, Some("An internal error occurred")));
}

#[test]
fn empty_query_selects_nothing() {
    let sel = select_query(Operation::GetDataSets, "");
    assert_eq!(sel.len(), 4);
    assert_eq!(many(&sel[0]), Vec::<String>::new());
    assert_eq!(one(&sel[1]), None);
    assert_eq!(one(&sel[2]), None);
    assert_eq!(one(&sel[3]), None);
}

#[test]
fn selecting_from_pairs_keeps_first_and_all() {
    let pairs = vec![
        (s("gpsi-list"), s("g1")),
        (s("supported-features"), s("a")),
        (s("gpsi-list"), s("g2")),
        (s("supported-features"), s("b")),
    ];
    let sel = select_pairs(Operation::GetMultipleIdentifiers, &pairs);
    assert_eq!(one(&sel[0]), Some(s("a")));
    assert_eq!(many(&sel[1]), vec![s("g1"), s("g2")]);
}

#[test]
fn admitted_requests_bring_one_value_per_path_parameter() {
    let auth = Some(Scopes::All);
    for (m, path) in [
        (Method::Get, "/nudm-sdm/v2/group-data/group-identifiers"),
        (Method::Get, "/nudm-sdm/v2/s/am-data"),
        (Method::Patch, "/nudm-sdm/v2/u/sdm-subscriptions/x"),
        (Method::Get, "/nudm-sdm/v2/shared-data/x"),
    ] {
        match accept_request(m, path, &auth) {
            Admission::Admitted(op, params) => assert_eq!(params.len(), op.path_params().len()),
            _ => panic!("not admitted"),
        }
    }
}

#[test]
fn response_header_errors_name_the_field() {
    assert_eq!(
        ResponseHeader::ETag.error_text("failed to parse header value"),
        s("An internal server error occurred handling e_tag header - failed to parse header value")
    );
    assert_eq!(ResponseHeader::CacheControl.wire_name(), "cache-control");
}
