//! Reading the query parameters of a request.
use vstd::prelude::*;
use vstd::string::StringExecFns;
use crate::operation::Operation;
use crate::queryplan::{QueryKey, ParamKind, key_name, is_list, spec_query_plan, query_plan};
use crate::template::strings_view;

verus! {

/// The (name, value) pairs that `form_urlencoded::parse` yields for the bytes
/// of a query, each name and value taken as text.
pub uninterp spec fn form_urlencoded_pairs(query: Seq<char>) -> Seq<(Seq<char>, Seq<char>)>;

/// The pairs of a query, as the contracts speak of them.
pub open spec fn pairs_view(v: Seq<(String, String)>) -> Seq<(Seq<char>, Seq<char>)> {
    v.map_values(|p: (String, String)| (p.0@, p.1@))
}

/// `url::form_urlencoded::parse` on the bytes of `query`, its pairs made
/// owned strings and collected in order. What the pairs are (splitting at
/// `&` and `=`, `+` as space, percent-decoding, lossy UTF-8) is left to the
/// name `form_urlencoded_pairs`; the one fact claimed besides is the
/// source's first test: empty input yields no pair.
#[verifier::external_body]
fn parse_query(query: &str) -> (pairs: Vec<(String, String)>)
    ensures
        pairs_view(pairs@) == form_urlencoded_pairs(query@),
        query@.len() == 0 ==> pairs@.len() == 0,
{
    url::form_urlencoded::parse(query.as_bytes()).into_owned().collect()
}

/// The value of the first pair named `key`, if any.
pub open spec fn first_value(pairs: Seq<(Seq<char>, Seq<char>)>, key: Seq<char>) -> Option<Seq<char>>
    decreases pairs.len(),
{
    if pairs.len() == 0 {
        None
    } else if pairs[0].0 == key {
        Some(pairs[0].1)
    } else {
        first_value(pairs.drop_first(), key)
    }
}

/// The values of all pairs named `key`, in order.
pub open spec fn all_values(pairs: Seq<(Seq<char>, Seq<char>)>, key: Seq<char>) -> Seq<Seq<char>>
    decreases pairs.len(),
{
    if pairs.len() == 0 {
        Seq::empty()
    } else if pairs[0].0 == key {
        seq![pairs[0].1] + all_values(pairs.drop_first(), key)
    } else {
        all_values(pairs.drop_first(), key)
    }
}

/// What the query holds for one parameter: the first value, or all values.
pub enum Selected {
    One(Option<String>),
    Many(Vec<String>),
}

/// What the query holds for one parameter, as the contracts speak of it.
pub enum SelectedView {
    One(Option<Seq<char>>),
    Many(Seq<Seq<char>>),
}

impl View for Selected {
    type V = SelectedView;

    open spec fn view(&self) -> SelectedView {
        match self {
            Selected::One(None) => SelectedView::One(None),
            Selected::One(Some(s)) => SelectedView::One(Some(s@)),
            Selected::Many(v) => SelectedView::Many(strings_view(v@)),
        }
    }
}

/// The views of a sequence of selections.
pub open spec fn selections_view(v: Seq<Selected>) -> Seq<SelectedView> {
    v.map_values(|s: Selected| s@)
}

/// What the pairs hold for one entry of an operation's plan: every value of
/// a list parameter, else the first value.
pub open spec fn select_entry(entry: (QueryKey, ParamKind), pairs: Seq<(Seq<char>, Seq<char>)>) -> SelectedView {
    if is_list(entry.1) {
        SelectedView::Many(all_values(pairs, key_name(entry.0)))
    } else {
        SelectedView::One(first_value(pairs, key_name(entry.0)))
    }
}

/// What the pairs hold for each entry of a plan, in the plan's order.
pub open spec fn selection(plan: Seq<(QueryKey, ParamKind)>, pairs: Seq<(Seq<char>, Seq<char>)>) -> Seq<SelectedView> {
    plan.map_values(|e: (QueryKey, ParamKind)| select_entry(e, pairs))
}

fn first_value_exec(pairs: &Vec<(String, String)>, key: &String) -> (r: Option<String>)
    ensures
        match r {
            Some(s) => first_value(pairs_view(pairs@), key@) == Some(s@),
            None => first_value(pairs_view(pairs@), key@) is None,
        },
{
    let ghost all = pairs_view(pairs@);
    let mut i: usize = 0;
    proof {
        assert(all.skip(0) =~= all);
    }
    while i < pairs.len()
        invariant
            all == pairs_view(pairs@),
            i <= pairs@.len(),
            first_value(all, key@) == first_value(all.skip(i as int), key@),
        decreases pairs@.len() - i,
    {
        let ghost tail = all.skip(i as int);
        assert(tail[0] == (pairs@[i as int].0@, pairs@[i as int].1@));
        assert(tail.drop_first() =~= all.skip(i + 1));
        if pairs[i].0 == *key {
            return Some(pairs[i].1.clone());
        }
        i = i + 1;
    }
    None
}

fn all_values_exec(pairs: &Vec<(String, String)>, key: &String) -> (r: Vec<String>)
    ensures
        strings_view(r@) == all_values(pairs_view(pairs@), key@),
{
    let ghost all = pairs_view(pairs@);
    let mut out: Vec<String> = Vec::new();
    let mut i: usize = 0;
    proof {
        assert(all.skip(0) =~= all);
        assert(Seq::<Seq<char>>::empty() + all_values(all, key@) =~= all_values(all, key@));
    }
    while i < pairs.len()
        invariant
            all == pairs_view(pairs@),
            i <= pairs@.len(),
            all_values(all, key@) == strings_view(out@) + all_values(all.skip(i as int), key@),
        decreases pairs@.len() - i,
    {
        let ghost tail = all.skip(i as int);
        let ghost before = strings_view(out@);
        assert(tail[0] == (pairs@[i as int].0@, pairs@[i as int].1@));
        assert(tail.drop_first() =~= all.skip(i + 1));
        if pairs[i].0 == *key {
            out.push(pairs[i].1.clone());
            assert(strings_view(out@) =~= before + seq![pairs@[i as int].1@]);
            assert(before + (seq![pairs@[i as int].1@] + all_values(all.skip(i + 1), key@)) =~= (before
                + seq![pairs@[i as int].1@]) + all_values(all.skip(i + 1), key@));
        }
        i = i + 1;
    }
    assert(all.skip(i as int) =~= Seq::<(Seq<char>, Seq<char>)>::empty());
    assert(strings_view(out@) + Seq::<Seq<char>>::empty() =~= strings_view(out@));
    out
}

/// What the given (name, value) pairs hold for each query parameter that
/// the operation reads, in the order of its plan: the value of the first
/// pair with the parameter's name for a single parameter, the values of all
/// such pairs, in order, for a list parameter.
pub fn select_pairs(op: Operation, pairs: &Vec<(String, String)>) -> (r: Vec<Selected>)
    ensures
        selections_view(r@) == selection(spec_query_plan(op), pairs_view(pairs@)),
{
    let plan = query_plan(op);
    let ghost pv = pairs_view(pairs@);
    let mut out: Vec<Selected> = Vec::new();
    let mut i: usize = 0;
    while i < plan.len()
        invariant
            pv == pairs_view(pairs@),
            plan@ == spec_query_plan(op),
            i <= plan@.len(),
            out@.len() == i,
            forall|j: int| 0 <= j < i ==> (#[trigger] out@[j])@ == select_entry(plan@[j], pv),
        decreases plan@.len() - i,
    {
        let (key, kind) = plan[i];
        let name = String::from_str(key.name());
        let sel = match kind {
            ParamKind::OptionalList | ParamKind::RequiredList => Selected::Many(all_values_exec(pairs, &name)),
            _ => Selected::One(first_value_exec(pairs, &name)),
        };
        out.push(sel);
        i = i + 1;
    }
    assert(selections_view(out@) =~= selection(spec_query_plan(op), pv));
    out
}

/// What the query of a request holds for each query parameter that the
/// operation reads, in the order of its plan: the query is read into pairs
/// by `form_urlencoded::parse`, then `select_pairs` picks the values.
pub fn select_query(op: Operation, query: &str) -> (r: Vec<Selected>)
    ensures
        selections_view(r@) == selection(spec_query_plan(op), form_urlencoded_pairs(query@)),
        query@.len() == 0 ==> form_urlencoded_pairs(query@).len() == 0,
{
    let pairs = parse_query(query);
    proof {
        if query@.len() == 0 {
            assert(pairs_view(pairs@).len() == 0);
        }
    }
    select_pairs(op, &pairs)
}

/// A request without a query has no value for any query parameter.
pub proof fn law_empty_query_selects_nothing(op: Operation, pairs: Seq<(Seq<char>, Seq<char>)>)
    requires
        pairs.len() == 0,
    ensures
        forall|i: int|
            0 <= i < spec_query_plan(op).len() ==> #[trigger] selection(spec_query_plan(op), pairs)[i] == (
            if is_list(spec_query_plan(op)[i].1) {
                SelectedView::Many(Seq::empty())
            } else {
                SelectedView::One(None)
            }),
{
}

/// What a boolean query value reads as: only `true` and `false` do.
pub open spec fn flag_value(v: Seq<char>) -> Option<bool> {
    if v == "true"@ {
        Some(true)
    } else if v == "false"@ {
        Some(false)
    } else {
        None
    }
}

/// `<bool as FromStr>::from_str`, whose documentation says that only `true`
/// and `false` parse.
#[verifier::external_body]
fn parse_bool(s: &str) -> (r: Option<bool>)
    ensures
        r == flag_value(s@),
{
    s.parse::<bool>().ok()
}

/// The value of a query parameter, as the operation gets it. Every query
/// parameter of the service is optional: a value that does not parse leaves
/// the parameter absent, and never earns a 400.
pub enum QueryValue {
    /// Free text: the first value.
    Text(Option<String>),
    /// A boolean: the first value, where it reads `true` or `false`.
    Flag(Option<bool>),
    /// A data-model value: the first value, where it parses.
    Model(Option<String>),
    /// The values that parse, in order; absent for an optional list with none.
    List(Option<Vec<String>>),
}

/// The value of a query parameter, as the contracts speak of it.
pub enum QueryValueView {
    Text(Option<Seq<char>>),
    Flag(Option<bool>),
    Model(Option<Seq<char>>),
    List(Option<Seq<Seq<char>>>),
}

impl View for QueryValue {
    type V = QueryValueView;

    open spec fn view(&self) -> QueryValueView {
        match self {
            QueryValue::Text(None) => QueryValueView::Text(None),
            QueryValue::Text(Some(s)) => QueryValueView::Text(Some(s@)),
            QueryValue::Flag(b) => QueryValueView::Flag(*b),
            QueryValue::Model(None) => QueryValueView::Model(None),
            QueryValue::Model(Some(s)) => QueryValueView::Model(Some(s@)),
            QueryValue::List(None) => QueryValueView::List(None),
            QueryValue::List(Some(v)) => QueryValueView::List(Some(strings_view(v@))),
        }
    }
}

/// How many values a selection holds.
pub open spec fn value_count(sel: SelectedView) -> nat {
    match sel {
        SelectedView::One(None) => 0,
        SelectedView::One(Some(_)) => 1,
        SelectedView::Many(vs) => vs.len(),
    }
}

/// A selection has the shape that its parameter's kind asks for.
pub open spec fn shape_fits(kind: ParamKind, sel: SelectedView) -> bool {
    is_list(kind) <==> sel is Many
}

/// The values whose flag is set, in order.
pub open spec fn kept_values(vs: Seq<Seq<char>>, accepted: Seq<bool>) -> Seq<Seq<char>>
    decreases vs.len(),
{
    if vs.len() == 0 {
        Seq::empty()
    } else if accepted[vs.len() - 1] {
        kept_values(vs.drop_last(), accepted.drop_last()) + seq![vs.last()]
    } else {
        kept_values(vs.drop_last(), accepted.drop_last())
    }
}

/// The value of one parameter of a plan: text as it is; a boolean where it
/// reads `true` or `false`; a data-model value where the model accepts it
/// (`accepted`, one flag per value); the accepted items of a list, an
/// optional list with none being absent. A value that does not parse
/// leaves the parameter absent.
pub open spec fn resolve_entry(kind: ParamKind, sel: SelectedView, accepted: Seq<bool>) -> QueryValueView {
    match sel {
        SelectedView::One(v) => match kind {
            ParamKind::Text => QueryValueView::Text(v),
            ParamKind::Flag => QueryValueView::Flag(
                match v {
                    Some(t) => flag_value(t),
                    None => None,
                },
            ),
            _ => QueryValueView::Model(
                match v {
                    Some(t) => if accepted[0] {
                        Some(t)
                    } else {
                        None
                    },
                    None => None,
                },
            ),
        },
        SelectedView::Many(vs) => {
            let kept = kept_values(vs, accepted);
            if kind is OptionalList && kept.len() == 0 {
                QueryValueView::List(None)
            } else {
                QueryValueView::List(Some(kept))
            }
        },
    }
}

fn keep_accepted(vs: &Vec<String>, accepted: &Vec<bool>) -> (r: Vec<String>)
    requires
        accepted@.len() == vs@.len(),
    ensures
        strings_view(r@) == kept_values(strings_view(vs@), accepted@),
{
    let ghost all = strings_view(vs@);
    let mut out: Vec<String> = Vec::new();
    let mut j: usize = 0;
    proof {
        assert(all.take(0) =~= Seq::<Seq<char>>::empty());
    }
    while j < vs.len()
        invariant
            all == strings_view(vs@),
            accepted@.len() == vs@.len(),
            j <= vs@.len(),
            strings_view(out@) == kept_values(all.take(j as int), accepted@.take(j as int)),
        decreases vs@.len() - j,
    {
        let ghost before = strings_view(out@);
        assert(all.take(j + 1).drop_last() =~= all.take(j as int));
        assert(accepted@.take(j + 1).drop_last() =~= accepted@.take(j as int));
        assert(all.take(j + 1).last() == vs@[j as int]@);
        if accepted[j] {
            out.push(vs[j].clone());
            assert(strings_view(out@) =~= before + seq![vs@[j as int]@]);
        }
        j = j + 1;
    }
    assert(all.take(j as int) =~= all);
    assert(accepted@.take(j as int) =~= accepted@);
    out
}

/// The values of the query parameters that an operation gets, in the
/// order of its plan. `selected` is what `select_query` gave; `accepted`
/// holds, for each parameter, one flag per value telling whether the data
/// model accepts that value (read only for data-model parameters).
pub fn resolve_query(op: Operation, selected: &Vec<Selected>, accepted: &Vec<Vec<bool>>) -> (r: Vec<QueryValue>)
    requires
        selected@.len() == spec_query_plan(op).len(),
        accepted@.len() == spec_query_plan(op).len(),
        forall|i: int|
            0 <= i < spec_query_plan(op).len() ==> shape_fits(spec_query_plan(op)[i].1, (#[trigger] selected@[i])@)
                && accepted@[i]@.len() == value_count(selected@[i]@),
    ensures
        r@.len() == spec_query_plan(op).len(),
        forall|i: int|
            0 <= i < spec_query_plan(op).len() ==> (#[trigger] r@[i])@ == resolve_entry(
                spec_query_plan(op)[i].1,
                selected@[i]@,
                accepted@[i]@,
            ),
{
    let plan = query_plan(op);
    let mut out: Vec<QueryValue> = Vec::new();
    let mut i: usize = 0;
    while i < plan.len()
        invariant
            plan@ == spec_query_plan(op),
            selected@.len() == plan@.len(),
            accepted@.len() == plan@.len(),
            forall|k: int|
                0 <= k < plan@.len() ==> shape_fits(plan@[k].1, (#[trigger] selected@[k])@)
                    && accepted@[k]@.len() == value_count(selected@[k]@),
            i <= plan@.len(),
            out@.len() == i,
            forall|k: int| 0 <= k < i ==> (#[trigger] out@[k])@ == resolve_entry(plan@[k].1, selected@[k]@, accepted@[k]@),
        decreases plan@.len() - i,
    {
        let (_, kind) = plan[i];
        let acc = &accepted[i];
        let v = match &selected[i] {
            Selected::One(v) => match kind {
                ParamKind::Text => QueryValue::Text(v.clone()),
                ParamKind::Flag => QueryValue::Flag(
                    match v {
                        Some(t) => parse_bool(t.as_str()),
                        None => None,
                    },
                ),
                _ => QueryValue::Model(
                    match v {
                        Some(t) => if acc[0] {
                            Some(t.clone())
                        } else {
                            None
                        },
                        None => None,
                    },
                ),
            },
            Selected::Many(vs) => {
                let kept = keep_accepted(vs, acc);
                match kind {
                    ParamKind::OptionalList => if kept.len() == 0 {
                        QueryValue::List(None)
                    } else {
                        QueryValue::List(Some(kept))
                    },
                    _ => QueryValue::List(Some(kept)),
                }
            },
        };
        out.push(v);
        i = i + 1;
    }
    out
}

/// No value in the query earns a 400: resolving always gives each
/// parameter a value, absent where what the query holds does not parse.
pub proof fn law_garbage_query_values_are_absent(kind: ParamKind, v: Seq<char>, accepted: Seq<bool>)
    ensures
        kind == ParamKind::Flag && flag_value(v) is None ==> resolve_entry(kind, SelectedView::One(Some(v)), accepted)
            == QueryValueView::Flag(None),
        kind == ParamKind::Model && accepted.len() == 1 && !accepted[0] ==> resolve_entry(
            kind,
            SelectedView::One(Some(v)),
            accepted,
        ) == QueryValueView::Model(None),
{
}

} // verus!
