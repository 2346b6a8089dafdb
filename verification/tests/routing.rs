use nudm_sdm::dispatch::{dispatch, ApiRequestParser, Dispatch};
use nudm_sdm::operation::{Method, Operation, OPERATION_COUNT};
use nudm_sdm::paths::{capture, is_match, match_all};
use nudm_sdm::route::{Route, ROUTE_COUNT};

const PATTERNS: [&str; 33] = [
    r"^/nudm-sdm/v2/group-data/group-identifiers$",
    r"^/nudm-sdm/v2/multiple-identifiers$",
    r"^/nudm-sdm/v2/shared-data$",
    r"^/nudm-sdm/v2/shared-data-subscriptions$",
    r"^/nudm-sdm/v2/shared-data-subscriptions/(?P<subscriptionId>[^/?#]*)$",
    r"^/nudm-sdm/v2/shared-data/(?P<sharedDataId>[^/?#]*)$",
    r"^/nudm-sdm/v2/(?P<supi>[^/?#]*)$",
    r"^/nudm-sdm/v2/(?P<supi>[^/?#]*)/5mbs-data$",
    r"^/nudm-sdm/v2/(?P<supi>[^/?#]*)/am-data$",
    r"^/nudm-sdm/v2/(?P<supi>[^/?#]*)/am-data/cag-ack$",
    r"^/nudm-sdm/v2/(?P<supi>[^/?#]*)/am-data/ecr-data$",
    r"^/nudm-sdm/v2/(?P<supi>[^/?#]*)/am-data/sor-ack$",
    r"^/nudm-sdm/v2/(?P<supi>[^/?#]*)/am-data/subscribed-snssais-ack$",
    r"^/nudm-sdm/v2/(?P<supi>[^/?#]*)/am-data/update-sor$",
    r"^/nudm-sdm/v2/(?P<supi>[^/?#]*)/am-data/upu-ack$",
    r"^/nudm-sdm/v2/(?P<supi>[^/?#]*)/lcs-bca-data$",
    r"^/nudm-sdm/v2/(?P<supi>[^/?#]*)/lcs-mo-data$",
    r"^/nudm-sdm/v2/(?P<supi>[^/?#]*)/nssai$",
    r"^/nudm-sdm/v2/(?P<supi>[^/?#]*)/prose-data$",
    r"^/nudm-sdm/v2/(?P<supi>[^/?#]*)/sm-data$",
    r"^/nudm-sdm/v2/(?P<supi>[^/?#]*)/smf-select-data$",
    r"^/nudm-sdm/v2/(?P<supi>[^/?#]*)/sms-data$",
    r"^/nudm-sdm/v2/(?P<supi>[^/?#]*)/sms-mng-data$",
    r"^/nudm-sdm/v2/(?P<supi>[^/?#]*)/trace-data$",
    r"^/nudm-sdm/v2/(?P<supi>[^/?#]*)/uc-data$",
    r"^/nudm-sdm/v2/(?P<supi>[^/?#]*)/ue-context-in-amf-data$",
    r"^/nudm-sdm/v2/(?P<supi>[^/?#]*)/ue-context-in-smf-data$",
    r"^/nudm-sdm/v2/(?P<supi>[^/?#]*)/ue-context-in-smsf-data$",
    r"^/nudm-sdm/v2/(?P<supi>[^/?#]*)/v2x-data$",
    r"^/nudm-sdm/v2/(?P<ueId>[^/?#]*)/id-translation-result$",
    r"^/nudm-sdm/v2/(?P<ueId>[^/?#]*)/lcs-privacy-data$",
    r"^/nudm-sdm/v2/(?P<ueId>[^/?#]*)/sdm-subscriptions$",
    r"^/nudm-sdm/v2/(?P<ueId>[^/?#]*)/sdm-subscriptions/(?P<subscriptionId>[^/?#]*)$",
];

const SAMPLE_PATHS: [&str; 30] = [
    "/nudm-sdm/v2/group-data/group-identifiers",
    "/nudm-sdm/v2/multiple-identifiers",
    "/nudm-sdm/v2/shared-data",
    "/nudm-sdm/v2/shared-data/",
    "/nudm-sdm/v2/shared-data/am-data",
    "/nudm-sdm/v2/shared-data/sd-1",
    "/nudm-sdm/v2/shared-data-subscriptions",
    "/nudm-sdm/v2/shared-data-subscriptions/sub%201",
    "/nudm-sdm/v2/",
    "/nudm-sdm/v2",
    "/nudm-sdm/v2/imsi-001010000000001",
    "/nudm-sdm/v2/imsi-001010000000001/",
    "/nudm-sdm/v2/imsi-001010000000001/am-data",
    "/nudm-sdm/v2/imsi-001010000000001/am-data/",
    "/nudm-sdm/v2/imsi-001010000000001/am-data/cag-ack",
    "/nudm-sdm/v2/imsi-001010000000001/am-data/subscribed-snssais-ack",
    "/nudm-sdm/v2//am-data",
    "/nudm-sdm/v2/a?b/am-data",
    "/nudm-sdm/v2/a#b",
    "/nudm-sdm/v2/ümlaut-ß/nssai",
    "/nudm-sdm/v2/x/y",
    "/nudm-sdm/v2/x/sdm-subscriptions",
    "/nudm-sdm/v2/x/sdm-subscriptions/",
    "/nudm-sdm/v2/x/sdm-subscriptions/y",
    "/nudm-sdm/v2/x/sdm-subscriptions/y/z",
    "/nudm-sdm/v2/gpsi-1/id-translation-result",
    "/nudm-sdm/v2/u/lcs-privacy-data",
    "/nudm-sdm/v1/x/am-data",
    "",
    "/",
];

#[test]
fn match_all_agrees_with_regex() {
    let res: Vec<regex::Regex> = PATTERNS.iter().map(|p| regex::Regex::new(p).unwrap()).collect();
    for path in SAMPLE_PATHS.iter() {
        let mine = match_all(path);
        assert_eq!(mine.len(), ROUTE_COUNT);
        for i in 0..ROUTE_COUNT {
            assert_eq!(mine[i], res[i].is_match(path), "route {} path {:?}", i, path);
        }
    }
}

#[test]
fn captures_agree_with_regex() {
    let res: Vec<regex::Regex> = PATTERNS.iter().map(|p| regex::Regex::new(p).unwrap()).collect();
    for path in SAMPLE_PATHS.iter() {
        for i in 0..ROUTE_COUNT {
            let route = Route::from_index(i);
            let mine = capture(route, path);
            let theirs: Option<Vec<String>> = res[i].captures(path).map(|c| {
                c.iter().skip(1).map(|m| m.unwrap().as_str().to_string()).collect()
            });
            assert_eq!(mine, theirs, "route {} path {:?}", i, path);
        }
    }
}

#[test]
fn capture_reads_two_parameters_in_order() {
    let v = capture(Route::UeIdSdmSubscriptionsSubscriptionId, "/nudm-sdm/v2/imsi-1/sdm-subscriptions/sub-9");
    assert_eq!(v, Some(vec!["imsi-1".to_string(), "sub-9".to_string()]));
    assert_eq!(capture(Route::Supi, "/nudm-sdm/v2/"), Some(vec!["".to_string()]));
    assert_eq!(capture(Route::Supi, "/nudm-sdm/v2/a/b"), None);
    assert!(is_match(Route::SharedData, "/nudm-sdm/v2/shared-data"));
    assert!(!is_match(Route::SharedData, "/nudm-sdm/v2/shared-data/"));
}

#[test]
fn dispatch_picks_operation_by_method_and_path() {
    assert_eq!(dispatch(Method::Get, "/nudm-sdm/v2/imsi-1/am-data"), Dispatch::Handle(Operation::GetAmData));
    assert_eq!(dispatch(Method::Put, "/nudm-sdm/v2/imsi-1/am-data/cag-ack"), Dispatch::Handle(Operation::CAgAck));
    assert_eq!(dispatch(Method::Post, "/nudm-sdm/v2/imsi-1/am-data"), Dispatch::MethodNotAllowed);
    assert_eq!(dispatch(Method::Head, "/nudm-sdm/v2/imsi-1/am-data"), Dispatch::MethodNotAllowed);
    assert_eq!(dispatch(Method::Get, "/nudm-sdm/v1/imsi-1/am-data"), Dispatch::NotFound);
    assert_eq!(dispatch(Method::Get, "/nudm-sdm/v2/a/b/c"), Dispatch::NotFound);
    assert_eq!(
        dispatch(Method::Delete, "/nudm-sdm/v2/u/sdm-subscriptions/s"),
        Dispatch::Handle(Operation::Unsubscribe)
    );
    assert_eq!(dispatch(Method::Patch, "/nudm-sdm/v2/u/sdm-subscriptions/s"), Dispatch::Handle(Operation::Modify));
    assert_eq!(
        dispatch(Method::Delete, "/nudm-sdm/v2/shared-data-subscriptions/s"),
        Dispatch::Handle(Operation::UnsubscribeForSharedData)
    );
    assert_eq!(
        dispatch(Method::Post, "/nudm-sdm/v2/shared-data-subscriptions"),
        Dispatch::Handle(Operation::SubscribeToSharedData)
    );
}

#[test]
fn get_shared_data_is_reached() {
    assert_eq!(dispatch(Method::Get, "/nudm-sdm/v2/shared-data"), Dispatch::Handle(Operation::GetSharedData));
    assert_eq!(
        ApiRequestParser::parse_operation_id(&Method::Get, "/nudm-sdm/v2/shared-data"),
        Some("GetSharedData")
    );
}

#[test]
fn table_order_decides_overlapping_paths() {
    assert_eq!(dispatch(Method::Get, "/nudm-sdm/v2/shared-data/am-data"), Dispatch::Handle(Operation::GetAmData));
    assert_eq!(dispatch(Method::Get, "/nudm-sdm/v2/shared-data/5mbs-data"), Dispatch::Handle(Operation::GetMbsData));
    assert_eq!(
        dispatch(Method::Get, "/nudm-sdm/v2/shared-data/id-translation-result"),
        Dispatch::Handle(Operation::GetSupiOrGpsi)
    );
    assert_eq!(
        dispatch(Method::Get, "/nudm-sdm/v2/shared-data/nssai"),
        Dispatch::Handle(Operation::GetIndividualSharedData)
    );
    assert_eq!(
        dispatch(Method::Get, "/nudm-sdm/v2/shared-data/sd-1"),
        Dispatch::Handle(Operation::GetIndividualSharedData)
    );
    assert_eq!(
        dispatch(Method::Get, "/nudm-sdm/v2/shared-data-subscriptions"),
        Dispatch::Handle(Operation::GetDataSets)
    );
}

#[test]
fn parser_names_every_operation() {
    let cases: [(Method, &str, &str); 35] = [
        (Method::Get, "/nudm-sdm/v2/s/am-data", "GetAmData"),
        (Method::Get, "/nudm-sdm/v2/s/5mbs-data", "GetMbsData"),
        (Method::Get, "/nudm-sdm/v2/s/am-data/ecr-data", "GetEcrData"),
        (Method::Get, "/nudm-sdm/v2/u/id-translation-result", "GetSupiOrGpsi"),
        (Method::Get, "/nudm-sdm/v2/group-data/group-identifiers", "GetGroupIdentifiers"),
        (Method::Get, "/nudm-sdm/v2/s/lcs-bca-data", "GetLcsBcaData"),
        (Method::Get, "/nudm-sdm/v2/s/lcs-mo-data", "GetLcsMoData"),
        (Method::Get, "/nudm-sdm/v2/u/lcs-privacy-data", "GetLcsPrivacyData"),
        (Method::Get, "/nudm-sdm/v2/multiple-identifiers", "GetMultipleIdentifiers"),
        (Method::Get, "/nudm-sdm/v2/s/prose-data", "GetProseData"),
        (Method::Put, "/nudm-sdm/v2/s/am-data/cag-ack", "CAgAck"),
        (Method::Put, "/nudm-sdm/v2/s/am-data/subscribed-snssais-ack", "SNssaisAck"),
        (Method::Put, "/nudm-sdm/v2/s/am-data/sor-ack", "SorAckInfo"),
        (Method::Put, "/nudm-sdm/v2/s/am-data/upu-ack", "UpuAck"),
        (Method::Get, "/nudm-sdm/v2/s", "GetDataSets"),
        (Method::Get, "/nudm-sdm/v2/shared-data", "GetSharedData"),
        (Method::Get, "/nudm-sdm/v2/shared-data/x", "GetIndividualSharedData"),
        (Method::Get, "/nudm-sdm/v2/s/smf-select-data", "GetSmfSelData"),
        (Method::Get, "/nudm-sdm/v2/s/sms-mng-data", "GetSmsMngtData"),
        (Method::Get, "/nudm-sdm/v2/s/sms-data", "GetSmsData"),
        (Method::Get, "/nudm-sdm/v2/s/sm-data", "GetSmData"),
        (Method::Get, "/nudm-sdm/v2/s/nssai", "GetNssai"),
        (Method::Post, "/nudm-sdm/v2/u/sdm-subscriptions", "Subscribe"),
        (Method::Post, "/nudm-sdm/v2/shared-data-subscriptions", "SubscribeToSharedData"),
        (Method::Delete, "/nudm-sdm/v2/u/sdm-subscriptions/x", "Unsubscribe"),
        (Method::Delete, "/nudm-sdm/v2/shared-data-subscriptions/x", "UnsubscribeForSharedData"),
        (Method::Patch, "/nudm-sdm/v2/u/sdm-subscriptions/x", "Modify"),
        (Method::Patch, "/nudm-sdm/v2/shared-data-subscriptions/x", "ModifySharedDataSubs"),
        (Method::Get, "/nudm-sdm/v2/s/trace-data", "GetTraceConfigData"),
        (Method::Post, "/nudm-sdm/v2/s/am-data/update-sor", "UpdateSorInfo"),
        (Method::Get, "/nudm-sdm/v2/s/ue-context-in-amf-data", "GetUeCtxInAmfData"),
        (Method::Get, "/nudm-sdm/v2/s/ue-context-in-smf-data", "GetUeCtxInSmfData"),
        (Method::Get, "/nudm-sdm/v2/s/ue-context-in-smsf-data", "GetUeCtxInSmsfData"),
        (Method::Get, "/nudm-sdm/v2/s/uc-data", "GetUcData"),
        (Method::Get, "/nudm-sdm/v2/s/v2x-data", "GetV2xData"),
    ];
    for (m, path, name) in cases.iter() {
        assert_eq!(ApiRequestParser::parse_operation_id(m, path), Some(*name), "{:?} {}", m, path);
    }
    assert_eq!(ApiRequestParser::parse_operation_id(&Method::Options, "/nudm-sdm/v2/s/am-data"), None);
    assert_eq!(ApiRequestParser::parse_operation_id(&Method::Get, "/elsewhere"), None);
}

#[test]
fn operations_are_listed_in_order_with_their_names() {
    for i in 0..OPERATION_COUNT {
        let op = Operation::at(i);
        let name = op.name();
        assert!(!name.is_empty());
        let _ = op.route().index();
    }
    assert_eq!(Operation::at(0), Operation::GetAmData);
    assert_eq!(Operation::at(14), Operation::GetSharedData);
    assert_eq!(Operation::at(15), Operation::GetDataSets);
    assert_eq!(Operation::at(34), Operation::GetV2xData);
    assert_eq!(Operation::GetSharedData.name(), "GetSharedData");
}
