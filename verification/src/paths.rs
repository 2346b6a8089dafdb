//! Matching a request path against the routes, and reading its parameters.
use vstd::prelude::*;
use crate::route::{Route, ROUTE_COUNT, spec_template, template, route_at, lemma_template_wf};
use crate::template::{
    fill, fits, template_matches, strings_view, scan_exec, chars_of,
    lemma_scan_decides, lemma_scan_complete,
};

verus! {

/// A path matches a route when some segments, put in place of the route's
/// parameters, spell the path.
pub open spec fn route_matches(r: Route, path: Seq<char>) -> bool {
    template_matches(spec_template(r), path)
}

/// The values of a route's parameters in a path that matches it (the only
/// ones that spell the path, by `law_fill_then_capture`).
pub open spec fn path_values(r: Route, path: Seq<char>) -> Seq<Seq<char>> {
    choose|vals: Seq<Seq<char>>| fits(spec_template(r), vals) && #[trigger] fill(spec_template(r), vals) == path
}

/// The parameters of a route read from a path, in the order of the template;
/// `None` where the path does not match the route.
pub fn capture(r: Route, path: &str) -> (res: Option<Vec<String>>)
    ensures
        res is Some <==> route_matches(r, path@),
        res matches Some(v) ==> fits(spec_template(r), strings_view(v@)) && fill(
            spec_template(r),
            strings_view(v@),
        ) == path@,
        res matches Some(v) ==> strings_view(v@) == path_values(r, path@),
{
    let ps = template(r);
    let p = chars_of(path);
    let res = scan_exec(&ps, path, &p);
    proof {
        lemma_template_wf(r);
        lemma_scan_decides(spec_template(r), path@);
        if let Some(v) = &res {
            let vals = path_values(r, path@);
            assert(fits(spec_template(r), strings_view(v@)) && fill(spec_template(r), strings_view(v@)) == path@);
            lemma_scan_complete(spec_template(r), vals);
            lemma_scan_complete(spec_template(r), strings_view(v@));
        }
    }
    res
}

/// Whether a path matches a route.
pub fn is_match(r: Route, path: &str) -> (b: bool)
    ensures
        b == route_matches(r, path@),
{
    capture(r, path).is_some()
}

/// Which routes a path matches: entry `i` tells whether it matches the route numbered `i`.
pub fn match_all(path: &str) -> (m: Vec<bool>)
    ensures
        m@.len() == ROUTE_COUNT,
        forall|i: int| 0 <= i < ROUTE_COUNT ==> m@[i] == route_matches(#[trigger] route_at(i), path@),
{
    let p = chars_of(path);
    let mut m: Vec<bool> = Vec::new();
    let mut i: usize = 0;
    while i < ROUTE_COUNT
        invariant
            p@ == path@,
            i <= ROUTE_COUNT,
            m@.len() == i,
            forall|j: int| 0 <= j < i ==> m@[j] == route_matches(#[trigger] route_at(j), path@),
        decreases ROUTE_COUNT - i,
    {
        let r = Route::from_index(i);
        let ps = template(r);
        let found = scan_exec(&ps, path, &p);
        proof {
            lemma_template_wf(r);
            lemma_scan_decides(spec_template(r), path@);
        }
        m.push(found.is_some());
        i = i + 1;
    }
    m
}

/// Filling a route's parameters with segments spells a path that matches the
/// route, and the segments are the only ones that spell it: reading the
/// parameters back gives the same values.
pub proof fn law_fill_then_capture(r: Route, vals: Seq<Seq<char>>, other: Seq<Seq<char>>)
    requires
        fits(spec_template(r), vals),
    ensures
        route_matches(r, fill(spec_template(r), vals)),
        fits(spec_template(r), other) && fill(spec_template(r), other) == fill(spec_template(r), vals)
            ==> other == vals,
{
    lemma_template_wf(r);
    lemma_scan_complete(spec_template(r), vals);
    if fits(spec_template(r), other) && fill(spec_template(r), other) == fill(spec_template(r), vals) {
        lemma_scan_complete(spec_template(r), other);
    }
}

} // verus!
