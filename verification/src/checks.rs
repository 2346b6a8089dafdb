//! The checks that follow the path parameters: request headers, then query
//! parameters (see `query`), then the body.
use vstd::prelude::*;
use vstd::string::StringExecFns;
use crate::operation::{
    Operation, BodyParam, PathParam, body_name, op_body, op_path_params, path_param_name, path_param_is_model,
    reads_conditional_headers,
};

verus! {

/// The views of a header value as it was read: absent, its text, or why it has none.
pub open spec fn header_view(h: Option<Result<String, String>>) -> Option<Result<Seq<char>, Seq<char>>> {
    match h {
        None => None,
        Some(Ok(s)) => Some(Ok(s@)),
        Some(Err(e)) => Some(Err(e@)),
    }
}

/// The text of the 400 answer that the conditional request headers earn, if
/// any: operations that read them refuse an `If-None-Match` that is not
/// text, then an `If-Modified-Since` that is not text; other operations
/// ignore them.
pub open spec fn header_problem_spec(
    op: Operation,
    if_none_match: Option<Result<Seq<char>, Seq<char>>>,
    if_modified_since: Option<Result<Seq<char>, Seq<char>>>,
) -> Option<Seq<char>> {
    if !reads_conditional_headers(op) {
        None
    } else {
        match if_none_match {
            Some(Err(e)) => Some("Invalid header If-None-Match - "@ + e),
            _ => match if_modified_since {
                Some(Err(e)) => Some("Invalid header If-Modified-Since - "@ + e),
                _ => None,
            },
        }
    }
}

/// Checks the conditional request headers of a request for an operation;
/// each is absent, its text, or the words of why it is no text.
pub fn header_problem(
    op: Operation,
    if_none_match: &Option<Result<String, String>>,
    if_modified_since: &Option<Result<String, String>>,
) -> (r: Option<String>)
    ensures
        match r {
            Some(m) => header_problem_spec(op, header_view(*if_none_match), header_view(*if_modified_since)) == Some(m@),
            None => header_problem_spec(op, header_view(*if_none_match), header_view(*if_modified_since)) is None,
        },
{
    if !op.reads_conditional_headers() {
        return None;
    }
    if let Some(Err(e)) = if_none_match {
        let mut m = String::from_str("Invalid header If-None-Match - ");
        m.append(e.as_str());
        return Some(m);
    }
    if let Some(Err(e)) = if_modified_since {
        let mut m = String::from_str("Invalid header If-Modified-Since - ");
        m.append(e.as_str());
        return Some(m);
    }
    None
}

/// How reading and parsing the body of a request went.
pub enum BodyRead {
    /// The body could not be read; the reader's words.
    ReadFailed(String),
    /// The body is empty.
    Empty,
    /// The body parsed as the operation's body parameter.
    Parsed,
    /// The body did not parse; the parser's words.
    Invalid(String),
}

/// How reading the body went, as the contracts speak of it.
pub enum BodyReadView {
    ReadFailed(Seq<char>),
    Empty,
    Parsed,
    Invalid(Seq<char>),
}

impl View for BodyRead {
    type V = BodyReadView;

    open spec fn view(&self) -> BodyReadView {
        match self {
            BodyRead::ReadFailed(e) => BodyReadView::ReadFailed(e@),
            BodyRead::Empty => BodyReadView::Empty,
            BodyRead::Parsed => BodyReadView::Parsed,
            BodyRead::Invalid(e) => BodyReadView::Invalid(e@),
        }
    }
}

/// What the body of a request comes to: whether the operation gets a body
/// parameter (`Ok`), or the text of the 400 answer. A body that cannot be
/// read is refused; an optional parameter is absent where the body is empty
/// or does not parse; a required one is refused then.
pub open spec fn body_outcome_spec(b: BodyParam, required: bool, read: BodyReadView) -> Result<bool, Seq<char>> {
    match read {
        BodyReadView::ReadFailed(e) => Err("Couldn't read body parameter "@ + body_name(b) + ": "@ + e),
        BodyReadView::Parsed => Ok(true),
        BodyReadView::Empty => if required {
            Err("Missing required body parameter "@ + body_name(b))
        } else {
            Ok(false)
        },
        BodyReadView::Invalid(e) => if required {
            Err("Couldn't parse body parameter "@ + body_name(b) + " - doesn't match schema: "@ + e)
        } else {
            Ok(false)
        },
    }
}

/// What the body of a request for an operation with a body parameter comes to.
pub fn body_outcome(op: Operation, read: &BodyRead) -> (r: Result<bool, String>)
    requires
        op_body(op) is Some,
    ensures
        match r {
            Ok(b) => body_outcome_spec(op_body(op).unwrap().0, op_body(op).unwrap().1, read@) == Ok::<bool, Seq<char>>(b),
            Err(m) => body_outcome_spec(op_body(op).unwrap().0, op_body(op).unwrap().1, read@) == Err::<bool, Seq<char>>(m@),
        },
{
    let (b, required) = match op.body() {
        Some(p) => p,
        None => {
            return Ok(false);
        },
    };
    match read {
        BodyRead::ReadFailed(e) => {
            let mut m = String::from_str("Couldn't read body parameter ");
            m.append(b.name());
            m.append(": ");
            m.append(e.as_str());
            Err(m)
        },
        BodyRead::Parsed => Ok(true),
        BodyRead::Empty => {
            if required {
                let mut m = String::from_str("Missing required body parameter ");
                m.append(b.name());
                Err(m)
            } else {
                Ok(false)
            }
        },
        BodyRead::Invalid(e) => {
            if required {
                let mut m = String::from_str("Couldn't parse body parameter ");
                m.append(b.name());
                m.append(" - doesn't match schema: ");
                m.append(e.as_str());
                Err(m)
            } else {
                Ok(false)
            }
        },
    }
}

/// The views of a possible body read.
pub open spec fn body_read_view(b: Option<BodyRead>) -> Option<BodyReadView> {
    match b {
        Some(r) => Some(r@),
        None => None,
    }
}

/// The views of optional strings.
pub open spec fn opt_strings_view(v: Seq<Option<String>>) -> Seq<Option<Seq<char>>> {
    v.map_values(|o: Option<String>| match o {
        Some(s) => Some(s@),
        None => None,
    })
}

/// The first problem among the path parameters from place `i` on: a
/// data-model parameter that the model refuses (`errors`, the parser's words).
pub open spec fn path_problem_from(params: Seq<PathParam>, errors: Seq<Option<Seq<char>>>, i: int) -> Option<Seq<char>>
    decreases params.len() - i,
{
    if i < 0 || i >= params.len() {
        None
    } else if path_param_is_model(params[i]) && errors[i] is Some {
        Some("Couldn't parse path parameter "@ + path_param_name(params[i]) + ": "@ + errors[i]->Some_0)
    } else {
        path_problem_from(params, errors, i + 1)
    }
}

/// The text of the 400 answer that the decoded path parameters of a request
/// earn, if any: the first data-model parameter, in the template's order,
/// that the model refuses. Free-text parameters always parse.
pub fn path_problem(op: Operation, errors: &Vec<Option<String>>) -> (r: Option<String>)
    requires
        errors@.len() == op_path_params(op).len(),
    ensures
        match r {
            Some(m) => path_problem_from(op_path_params(op), opt_strings_view(errors@), 0) == Some(m@),
            None => path_problem_from(op_path_params(op), opt_strings_view(errors@), 0) is None,
        },
{
    let params = op.path_params();
    let ghost errs = opt_strings_view(errors@);
    let mut i: usize = 0;
    while i < params.len()
        invariant
            params@ == op_path_params(op),
            errs == opt_strings_view(errors@),
            errors@.len() == params@.len(),
            i <= params@.len(),
            path_problem_from(params@, errs, 0) == path_problem_from(params@, errs, i as int),
        decreases params@.len() - i,
    {
        let p = params[i];
        if p.is_model() {
            if let Some(e) = &errors[i] {
                assert(errs[i as int] == Some(e@));
                let mut m = String::from_str("Couldn't parse path parameter ");
                m.append(p.name());
                m.append(": ");
                m.append(e.as_str());
                return Some(m);
            }
        }
        i = i + 1;
    }
    None
}

/// The outcome of the checks that follow the decoding of the path
/// parameters, in the service's order: the data-model path parameters, then
/// the conditional headers, then the body (for operations that have a body
/// parameter). Query parameters take no part: every one of them is optional,
/// and a value that does not parse leaves it absent (see `resolve_query`).
/// `Ok` holds whether the operation gets a body parameter; `Err`, the text
/// of the 400 answer for the first problem.
pub open spec fn request_checks(
    op: Operation,
    path_errors: Seq<Option<Seq<char>>>,
    if_none_match: Option<Result<Seq<char>, Seq<char>>>,
    if_modified_since: Option<Result<Seq<char>, Seq<char>>>,
    body: Option<BodyReadView>,
) -> Result<bool, Seq<char>> {
    match path_problem_from(op_path_params(op), path_errors, 0) {
        Some(m) => Err(m),
        None => match header_problem_spec(op, if_none_match, if_modified_since) {
            Some(m) => Err(m),
            None => match (op_body(op), body) {
                (Some((b, required)), Some(read)) => body_outcome_spec(b, required, read),
                _ => Ok(false),
            },
        },
    }
}

/// Makes the checks that follow the decoding of the path parameters, in the
/// service's order. `path_errors` holds, for each path parameter, the
/// data model's words where it refuses the value; `body` is as for `body_outcome`.
pub fn check_request(
    op: Operation,
    path_errors: &Vec<Option<String>>,
    if_none_match: &Option<Result<String, String>>,
    if_modified_since: &Option<Result<String, String>>,
    body: &Option<BodyRead>,
) -> (r: Result<bool, String>)
    requires
        path_errors@.len() == op_path_params(op).len(),
    ensures
        match r {
            Ok(b) => request_checks(
                op,
                opt_strings_view(path_errors@),
                header_view(*if_none_match),
                header_view(*if_modified_since),
                body_read_view(*body),
            ) == Ok::<bool, Seq<char>>(b),
            Err(m) => request_checks(
                op,
                opt_strings_view(path_errors@),
                header_view(*if_none_match),
                header_view(*if_modified_since),
                body_read_view(*body),
            ) == Err::<bool, Seq<char>>(m@),
        },
{
    if let Some(m) = path_problem(op, path_errors) {
        return Err(m);
    }
    if let Some(m) = header_problem(op, if_none_match, if_modified_since) {
        return Err(m);
    }
    match (op.body(), body) {
        (Some(_), Some(read)) => body_outcome(op, read),
        _ => Ok(false),
    }
}

} // verus!
