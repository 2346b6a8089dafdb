//! The first steps of serving a request, taken in the service's order:
//! choosing the operation, checking the authorization, reading the path parameters.
use vstd::prelude::*;
use crate::operation::{Method, Operation, op_route, op_path_params};
use crate::route::spec_template;
use crate::dispatch::{Dispatch, spec_dispatch, dispatch, law_operation_for};
use crate::auth::{Scopes, authorization_outcome, authorize};
use crate::paths::{path_values, capture};
use crate::pathparam::{decoded_params, decode_path_param, law_decoded_params_pointwise};
use crate::template::{strings_view, fits, param_count};

verus! {

/// How the first steps end: with an answer, or with the operation and its
/// decoded path parameters (in the order of the route's template).
pub enum Admission {
    /// 404, empty body.
    NotFound,
    /// 405, empty body.
    MethodNotAllowed,
    /// 403 with this text.
    Forbidden(String),
    /// 400 with this text.
    BadRequest(String),
    /// The request goes on to this operation, with these path parameters.
    Admitted(Operation, Vec<String>),
}

/// How the first steps end, as the contracts speak of it.
pub enum AdmissionView {
    NotFound,
    MethodNotAllowed,
    Forbidden(Seq<char>),
    BadRequest(Seq<char>),
    Admitted(Operation, Seq<Seq<char>>),
}

impl View for Admission {
    type V = AdmissionView;

    open spec fn view(&self) -> AdmissionView {
        match self {
            Admission::NotFound => AdmissionView::NotFound,
            Admission::MethodNotAllowed => AdmissionView::MethodNotAllowed,
            Admission::Forbidden(m) => AdmissionView::Forbidden(m@),
            Admission::BadRequest(m) => AdmissionView::BadRequest(m@),
            Admission::Admitted(op, v) => AdmissionView::Admitted(*op, strings_view(v@)),
        }
    }
}

/// How the first steps end for a request of method `m`, path `path` and
/// authorization `auth`: 404 or 405 where no operation serves it; else 403
/// where the authorization check refuses it; else 400 where a path
/// parameter does not decode; else the operation and its parameters.
pub open spec fn admission_outcome(m: Method, path: Seq<char>, auth: Option<Scopes>) -> AdmissionView {
    match spec_dispatch(m, path) {
        Dispatch::NotFound => AdmissionView::NotFound,
        Dispatch::MethodNotAllowed => AdmissionView::MethodNotAllowed,
        Dispatch::Handle(op) => match authorization_outcome(auth) {
            Err(msg) => AdmissionView::Forbidden(msg),
            Ok(()) => match decoded_params(path_values(op_route(op), path)) {
                Err(msg) => AdmissionView::BadRequest(msg),
                Ok(vals) => AdmissionView::Admitted(op, vals),
            },
        },
    }
}

/// Decodes raw path parameters in order, stopping at the first that does not decode.
fn decode_all(raws: &Vec<String>) -> (r: Result<Vec<String>, String>)
    ensures
        match r {
            Ok(v) => decoded_params(strings_view(raws@)) == Ok::<Seq<Seq<char>>, Seq<char>>(strings_view(v@)),
            Err(m) => decoded_params(strings_view(raws@)) == Err::<Seq<Seq<char>>, Seq<char>>(m@),
        },
{
    let ghost all = strings_view(raws@);
    let mut out: Vec<String> = Vec::new();
    let mut i: usize = 0;
    proof {
        assert(all.skip(0) =~= all);
        if let Ok(vs) = decoded_params(all) {
            assert(Seq::<Seq<char>>::empty() + vs =~= vs);
        }
    }
    while i < raws.len()
        invariant
            all == strings_view(raws@),
            i <= raws@.len(),
            decoded_params(all) == match decoded_params(all.skip(i as int)) {
                Err(m) => Err(m),
                Ok(vs) => Ok(strings_view(out@) + vs),
            },
        decreases raws@.len() - i,
    {
        let ghost tail = all.skip(i as int);
        assert(tail[0] == raws@[i as int]@);
        assert(tail.drop_first() =~= all.skip(i + 1));
        match decode_path_param(raws[i].as_str()) {
            Err(m) => {
                return Err(m);
            },
            Ok(s) => {
                let ghost before = strings_view(out@);
                out.push(s);
                assert(strings_view(out@) =~= before + seq![s@]);
                proof {
                    if let Ok(vs) = decoded_params(all.skip(i + 1)) {
                        assert(before + (seq![s@] + vs) =~= (before + seq![s@]) + vs);
                    }
                }
            },
        }
        i = i + 1;
    }
    assert(all.skip(i as int) =~= Seq::<Seq<char>>::empty());
    assert(strings_view(out@) + Seq::<Seq<char>>::empty() =~= strings_view(out@));
    Ok(out)
}

/// Takes the first steps of serving a request: the operation, then the
/// authorization check, then the path parameters.
pub fn accept_request(m: Method, path: &str, auth: &Option<Scopes>) -> (r: Admission)
    ensures
        r@ == admission_outcome(m, path@, *auth),
        r matches Admission::Admitted(op, v) ==> v@.len() == op_path_params(op).len(),
{
    proof {
        law_admitted_params_fit(m, path@, *auth);
    }
    match dispatch(m, path) {
        Dispatch::NotFound => Admission::NotFound,
        Dispatch::MethodNotAllowed => Admission::MethodNotAllowed,
        Dispatch::Handle(op) => {
            proof {
                law_operation_for(m, path@);
            }
            match authorize(auth) {
                Err(msg) => Admission::Forbidden(msg),
                Ok(()) => {
                    match capture(op.route(), path) {
                        None => Admission::NotFound,
                        Some(raws) => match decode_all(&raws) {
                            Err(msg) => Admission::BadRequest(msg),
                            Ok(vals) => Admission::Admitted(op, vals),
                        },
                    }
                },
            }
        },
    }
}

/// A request that the authorization check refuses is answered 403, whatever
/// its path parameters; only requests that no operation serves are answered
/// before the check.
pub proof fn law_authorization_comes_first(m: Method, path: Seq<char>, auth: Option<Scopes>)
    ensures
        spec_dispatch(m, path) is Handle && authorization_outcome(auth) is Err ==> admission_outcome(
            m,
            path,
            auth,
        ) is Forbidden,
        admission_outcome(m, path, auth) is Admitted ==> authorization_outcome(auth) is Ok,
{
}

/// An operation's template has one parameter for each of its path parameters.
proof fn lemma_param_count_of_op(op: Operation)
    ensures
        param_count(spec_template(op_route(op))) == op_path_params(op).len(),
{
    reveal_with_fuel(param_count, 5);
    match op {
        _ => {},
    }
}

/// A request that passes the first steps brings one decoded value for each
/// path parameter of its operation, in the order of the route's template.
pub proof fn law_admitted_params_fit(m: Method, path: Seq<char>, auth: Option<Scopes>)
    ensures
        admission_outcome(m, path, auth) matches AdmissionView::Admitted(op, vals) ==> vals.len()
            == op_path_params(op).len(),
{
    if let AdmissionView::Admitted(op, vals) = admission_outcome(m, path, auth) {
        law_operation_for(m, path);
        let raws = path_values(op_route(op), path);
        assert(fits(spec_template(op_route(op)), raws));
        law_decoded_params_pointwise(raws);
        lemma_param_count_of_op(op);
    }
}

} // verus!
