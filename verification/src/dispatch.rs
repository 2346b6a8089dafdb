//! Choosing the operation that serves a request, from its method and path.
use vstd::prelude::*;
use crate::route::{Route, ROUTE_COUNT, route_at, route_index, spec_template, lemma_route_at_index, lemma_template_wf};
use crate::template::{
    SpecPiece, fill, fits, param_count, template_matches, template_wf, is_segment, scan, lemma_scan_decides,
    lemma_seg_len_exact,
};
use crate::paths::{route_matches, match_all};
use crate::operation::{Method, Operation, OPERATION_COUNT, op_at, op_method, op_route, op_name, op_rank, lemma_op_at_rank};

verus! {

/// Whether the operation at place `i` serves requests with method `m` and path `path`.
pub open spec fn serves(i: int, m: Method, path: Seq<char>) -> bool {
    op_method(op_at(i)) == m && route_matches(op_route(op_at(i)), path)
}

/// The first operation, from place `i` on, that serves requests with method `m` and path `path`.
pub open spec fn first_operation_from(i: int, m: Method, path: Seq<char>) -> Option<Operation>
    decreases OPERATION_COUNT - i,
{
    if i < 0 || i >= OPERATION_COUNT {
        None
    } else if serves(i, m, path) {
        Some(op_at(i))
    } else {
        first_operation_from(i + 1, m, path)
    }
}

/// The operation that serves a request: the first, in order, whose method is
/// the request's and whose route the request's path matches.
pub open spec fn operation_for(m: Method, path: Seq<char>) -> Option<Operation> {
    first_operation_from(0, m, path)
}

/// Whether the path matches any route of the service.
pub open spec fn any_route_matches(path: Seq<char>) -> bool {
    exists|r: Route| route_matches(r, path)
}

/// What the service does with a request before it looks at anything but its method and path.
#[derive(PartialEq, Eq, Structural, Debug)]
pub enum Dispatch {
    /// The request goes to this operation.
    Handle(Operation),
    /// The path matches a route, but no operation of that route has the request's method (405).
    MethodNotAllowed,
    /// The path matches no route (404).
    NotFound,
}

/// What the service does with a request of method `m` and path `path`.
pub open spec fn spec_dispatch(m: Method, path: Seq<char>) -> Dispatch {
    match operation_for(m, path) {
        Some(op) => Dispatch::Handle(op),
        None => if any_route_matches(path) {
            Dispatch::MethodNotAllowed
        } else {
            Dispatch::NotFound
        },
    }
}

/// The first operation found is one that serves the request, and none before it does;
/// when none is found, no operation serves the request.
pub proof fn lemma_first_operation_from(i: int, m: Method, path: Seq<char>)
    requires
        0 <= i <= OPERATION_COUNT,
    ensures
        first_operation_from(i, m, path) matches Some(op) ==> {
            &&& i <= op_rank(op) < OPERATION_COUNT
            &&& op_at(op_rank(op) as int) == op
            &&& serves(op_rank(op) as int, m, path)
            &&& forall|j: int| i <= j < op_rank(op) ==> !serves(j, m, path)
        },
        first_operation_from(i, m, path) is None ==> forall|j: int|
            i <= j < OPERATION_COUNT ==> !serves(j, m, path),
    decreases OPERATION_COUNT - i,
{
    if i < OPERATION_COUNT {
        lemma_first_operation_from(i + 1, m, path);
        if serves(i, m, path) {
            let op = op_at(i);
            lemma_op_at_rank(op);
            assert(op_rank(op_at(i)) == i) by {
                assert(0 <= i < 35);
            }
        }
    }
}

/// The operation that serves a request has the request's method, its route
/// matches the request's path, and no operation before it in order serves the
/// request; when there is none, no operation has the method and a matching route.
pub proof fn law_operation_for(m: Method, path: Seq<char>)
    ensures
        operation_for(m, path) matches Some(op) ==> {
            &&& op_method(op) == m
            &&& route_matches(op_route(op), path)
            &&& forall|other: Operation|
                op_rank(other) < op_rank(op) ==> !(op_method(other) == m && route_matches(
                    op_route(other),
                    path,
                ))
        },
        operation_for(m, path) is None ==> forall|op: Operation|
            !(op_method(op) == m && route_matches(op_route(op), path)),
{
    lemma_first_operation_from(0, m, path);
    if let Some(op) = operation_for(m, path) {
        assert forall|other: Operation|
            op_rank(other) < op_rank(op) implies !(op_method(other) == m && route_matches(
                op_route(other),
                path,
            )) by {
            lemma_op_at_rank(other);
            assert(!serves(op_rank(other) as int, m, path));
        }
    } else {
        assert forall|other: Operation|
            !(op_method(other) == m && route_matches(op_route(other), path)) by {
            lemma_op_at_rank(other);
            assert(!serves(op_rank(other) as int, m, path));
        }
    }
}

/// The operation chosen for a request of method `m` and path `path`: the
/// first in order whose method is `m` and whose route `path` matches; else
/// 405 where the path matches some route, and 404 where it matches none.
pub fn dispatch(m: Method, path: &str) -> (d: Dispatch)
    ensures
        d == spec_dispatch(m, path@),
{
    let matched = match_all(path);
    let mut i: usize = 0;
    while i < OPERATION_COUNT
        invariant
            i <= OPERATION_COUNT,
            matched@.len() == ROUTE_COUNT,
            forall|j: int| 0 <= j < ROUTE_COUNT ==> matched@[j] == route_matches(#[trigger] route_at(j), path@),
            first_operation_from(0, m, path@) == first_operation_from(i as int, m, path@),
        decreases OPERATION_COUNT - i,
    {
        let op = Operation::at(i);
        let r = op.route();
        let k = r.index();
        proof {
            lemma_route_at_index(r);
        }
        if op.method() == m && matched[k] {
            return Dispatch::Handle(op);
        }
        i = i + 1;
    }
    assert(first_operation_from(OPERATION_COUNT as int, m, path@) is None);
    let mut j: usize = 0;
    while j < ROUTE_COUNT
        invariant
            j <= ROUTE_COUNT,
            matched@.len() == ROUTE_COUNT,
            forall|k: int| 0 <= k < ROUTE_COUNT ==> matched@[k] == route_matches(#[trigger] route_at(k), path@),
            forall|k: int| 0 <= k < j ==> !matched@[k],
            operation_for(m, path@) is None,
        decreases ROUTE_COUNT - j,
    {
        if matched[j] {
            assert(route_matches(route_at(j as int), path@));
            return Dispatch::MethodNotAllowed;
        }
        j = j + 1;
    }
    proof {
        assert forall|r: Route| !route_matches(r, path@) by {
            lemma_route_at_index(r);
            assert(!matched@[route_index(r) as int]);
        }
    }
    Dispatch::NotFound
}

/// Finds which operation a request is for, by name.
pub struct ApiRequestParser;

impl ApiRequestParser {
    /// The name of the operation that a request of method `method` and path
    /// `path` is for; `None` where no operation serves it.
    pub fn parse_operation_id(method: &Method, path: &str) -> (r: Option<&'static str>)
        ensures
            r is None <==> operation_for(*method, path@) is None,
            r matches Some(s) ==> operation_for(*method, path@) matches Some(op) && s@ == op_name(op),
    {
        match dispatch(*method, path) {
            Dispatch::Handle(op) => Some(op.name()),
            _ => None,
        }
    }
}

/// The name that the request parser gives a request is the name of the
/// operation that the service hands the request to, and it gives none exactly
/// when the service hands the request to no operation.
pub proof fn law_parser_agrees_with_dispatch(m: Method, path: Seq<char>)
    ensures
        spec_dispatch(m, path) matches Dispatch::Handle(op) ==> operation_for(m, path) == Some(op),
        !(spec_dispatch(m, path) is Handle) ==> operation_for(m, path) is None,
{
}

/// A route whose template is one fixed text matches that text and nothing else.
proof fn lemma_fixed_template(ps: Seq<SpecPiece>, l: Seq<char>, path: Seq<char>)
    requires
        ps == seq![SpecPiece::Lit(l)],
    ensures
        template_matches(ps, path) <==> path == l,
{
    assert(ps.drop_first() =~= Seq::<SpecPiece>::empty());
    assert(ps[0] == SpecPiece::Lit(l));
    assert(param_count(ps.drop_first()) == 0);
    assert(param_count(ps) == 0);
    if template_matches(ps, path) {
        let vals = choose|vals: Seq<Seq<char>>| fits(ps, vals) && #[trigger] fill(ps, vals) == path;
        assert(fill(ps.drop_first(), vals) =~= Seq::<char>::empty());
        assert(fill(ps, vals) =~= l + Seq::<char>::empty());
    }
    if path == l {
        let vals = Seq::<Seq<char>>::empty();
        assert(fill(ps.drop_first(), vals) =~= Seq::<char>::empty());
        assert(fill(ps, vals) =~= l + Seq::<char>::empty());
        assert(fits(ps, vals) && fill(ps, vals) == path);
    }
}

/// A template of fixed text, one parameter and a fixed suffix misses a path
/// that is the fixed text followed by a single segment.
proof fn lemma_suffix_template_misses(ps: Seq<SpecPiece>, pre: Seq<char>, suf: Seq<char>, t: Seq<char>)
    requires
        ps == seq![SpecPiece::Lit(pre), SpecPiece::Param, SpecPiece::Lit(suf)],
        template_wf(ps),
        is_segment(t),
    ensures
        !template_matches(ps, pre + t),
{
    let path = pre + t;
    lemma_scan_decides(ps, path);
    assert(ps[2] is Lit);
    assert(suf.len() > 0);
    assert(path.take(pre.len() as int) =~= pre);
    assert(path.skip(pre.len() as int) =~= t);
    lemma_seg_len_exact(t, t.len() as int);
    assert(t.skip(t.len() as int) =~= Seq::<char>::empty());
    let r1 = ps.drop_first();
    let r2 = r1.drop_first();
    assert(r1[0] == SpecPiece::Param);
    assert(r2 =~= seq![SpecPiece::Lit(suf)]);
    assert(scan(r2, Seq::<char>::empty()) is None);
    assert(scan(r1, t) is None);
    assert(scan(ps, path) is None);
}

/// `GET /nudm-sdm/v2/shared-data` goes to `GetSharedData`, the operation
/// that the service documents for it, and not to `GetDataSets`, whose
/// `/{supi}` route the path matches too.
pub proof fn law_shared_data_reaches_get_shared_data()
    ensures
        operation_for(Method::Get, "/nudm-sdm/v2/shared-data"@) == Some(Operation::GetSharedData),
{
    let path = "/nudm-sdm/v2/shared-data"@;
    let pre = "/nudm-sdm/v2/"@;
    let t = "shared-data"@;
    reveal_strlit("/nudm-sdm/v2/shared-data");
    reveal_strlit("/nudm-sdm/v2/");
    reveal_strlit("shared-data");
    reveal_strlit("/nudm-sdm/v2/group-data/group-identifiers");
    reveal_strlit("/nudm-sdm/v2/multiple-identifiers");
    assert(path =~= pre + t);
    assert(is_segment(t));
    let get_suffix_routes = seq![
        Route::SupiAmData, Route::Supi5mbsData, Route::SupiAmDataEcrData, Route::UeIdIdTranslationResult,
        Route::SupiLcsBcaData, Route::SupiLcsMoData, Route::UeIdLcsPrivacyData, Route::SupiProseData,
    ];
    assert forall|k: int| 0 <= k < get_suffix_routes.len() implies !route_matches(#[trigger] get_suffix_routes[k], path) by {
        let r = get_suffix_routes[k];
        lemma_template_wf(r);
        let ps = spec_template(r);
        lemma_suffix_template_misses(ps, pre, ps[2]->Lit_0, t);
    }
    assert(!route_matches(Route::SupiAmData, path) && get_suffix_routes[0] == Route::SupiAmData);
    assert(!route_matches(Route::Supi5mbsData, path) && get_suffix_routes[1] == Route::Supi5mbsData);
    assert(!route_matches(Route::SupiAmDataEcrData, path) && get_suffix_routes[2] == Route::SupiAmDataEcrData);
    assert(!route_matches(Route::UeIdIdTranslationResult, path) && get_suffix_routes[3] == Route::UeIdIdTranslationResult);
    assert(!route_matches(Route::SupiLcsBcaData, path) && get_suffix_routes[4] == Route::SupiLcsBcaData);
    assert(!route_matches(Route::SupiLcsMoData, path) && get_suffix_routes[5] == Route::SupiLcsMoData);
    assert(!route_matches(Route::UeIdLcsPrivacyData, path) && get_suffix_routes[6] == Route::UeIdLcsPrivacyData);
    assert(!route_matches(Route::SupiProseData, path) && get_suffix_routes[7] == Route::SupiProseData);
    lemma_fixed_template(spec_template(Route::GroupDataGroupIdentifiers), "/nudm-sdm/v2/group-data/group-identifiers"@, path);
    lemma_fixed_template(spec_template(Route::MultipleIdentifiers), "/nudm-sdm/v2/multiple-identifiers"@, path);
    lemma_fixed_template(spec_template(Route::SharedData), path, path);
    assert(path.len() != "/nudm-sdm/v2/group-data/group-identifiers"@.len());
    assert(path.len() != "/nudm-sdm/v2/multiple-identifiers"@.len());
    assert(serves(14, Method::Get, path));
    assert(first_operation_from(14, Method::Get, path) == Some(Operation::GetSharedData));
    assert(first_operation_from(13, Method::Get, path) == Some(Operation::GetSharedData));
    assert(first_operation_from(12, Method::Get, path) == Some(Operation::GetSharedData));
    assert(first_operation_from(11, Method::Get, path) == Some(Operation::GetSharedData));
    assert(first_operation_from(10, Method::Get, path) == Some(Operation::GetSharedData));
    assert(first_operation_from(9, Method::Get, path) == Some(Operation::GetSharedData));
    assert(first_operation_from(8, Method::Get, path) == Some(Operation::GetSharedData));
    assert(first_operation_from(7, Method::Get, path) == Some(Operation::GetSharedData));
    assert(first_operation_from(6, Method::Get, path) == Some(Operation::GetSharedData));
    assert(first_operation_from(5, Method::Get, path) == Some(Operation::GetSharedData));
    assert(first_operation_from(4, Method::Get, path) == Some(Operation::GetSharedData));
    assert(first_operation_from(3, Method::Get, path) == Some(Operation::GetSharedData));
    assert(first_operation_from(2, Method::Get, path) == Some(Operation::GetSharedData));
    assert(first_operation_from(1, Method::Get, path) == Some(Operation::GetSharedData));
}

/// The operation at a place in the order of the service's table, where
/// `GetDataSets` comes before `GetSharedData`.
pub open spec fn table_op_at(i: int) -> Operation {
    if i == 14 {
        Operation::GetDataSets
    } else if i == 15 {
        Operation::GetSharedData
    } else {
        op_at(i)
    }
}

/// The first operation, from place `i` on in the order of the service's
/// table, that serves requests with method `m` and path `path`.
pub open spec fn first_in_table_from(i: int, m: Method, path: Seq<char>) -> Option<Operation>
    decreases OPERATION_COUNT - i,
{
    if i < 0 || i >= OPERATION_COUNT {
        None
    } else if op_method(table_op_at(i)) == m && route_matches(op_route(table_op_at(i)), path) {
        Some(table_op_at(i))
    } else {
        first_in_table_from(i + 1, m, path)
    }
}

proof fn lemma_orders_agree(i: int, m: Method, path: Seq<char>)
    requires
        0 <= i <= OPERATION_COUNT,
        i != 15,
        !route_matches(Route::SharedData, path),
    ensures
        first_operation_from(i, m, path) == first_in_table_from(i, m, path),
    decreases OPERATION_COUNT - i,
{
    if i < OPERATION_COUNT {
        if i == 14 {
            lemma_orders_agree(16, m, path);
            assert(first_operation_from(15, m, path) == if serves(15, m, path) {
                Some(Operation::GetDataSets)
            } else {
                first_operation_from(16, m, path)
            });
            assert(first_in_table_from(15, m, path) == first_in_table_from(16, m, path));
        } else {
            lemma_orders_agree(i + 1, m, path);
        }
    }
}

/// Everywhere but at `/nudm-sdm/v2/shared-data`, requests go to the
/// operation that the order of the service's table gives: the only change
/// to that order, `GetSharedData` before `GetDataSets`, matters on that path
/// alone.
pub proof fn law_table_order_elsewhere(m: Method, path: Seq<char>)
    requires
        path != "/nudm-sdm/v2/shared-data"@,
    ensures
        operation_for(m, path) == first_in_table_from(0, m, path),
{
    lemma_fixed_template(spec_template(Route::SharedData), "/nudm-sdm/v2/shared-data"@, path);
    lemma_orders_agree(0, m, path);
}

} // verus!
