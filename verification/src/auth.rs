//! The authorization check that every operation makes first.
use vstd::prelude::*;
use vstd::string::StringExecFns;

verus! {

/// The scopes for which a request was authorized.
pub enum Scopes {
    /// These scopes.
    Listed(Vec<String>),
    /// All scopes: the check is switched off.
    All,
}

/// The scope that every operation of the service requires.
pub open spec fn required_scope() -> Seq<char> {
    "nudm-sdm"@
}

/// The answer (403) to a request that carries no authorization.
pub open spec fn unauthenticated_message() -> Seq<char> {
    "Unauthenticated"@
}

/// The answer (403) to a request whose scopes lack the required one.
pub open spec fn insufficient_message() -> Seq<char> {
    "Insufficient authorization, missing scopes"@ + " "@ + required_scope()
}

/// Whether the given scopes hold the required one.
pub open spec fn has_required_scope(scopes: Seq<String>) -> bool {
    exists|i: int| 0 <= i < scopes.len() && scopes[i]@ == required_scope()
}

/// The outcome of the authorization check: `Ok` where the request may go on,
/// else the text of the 403 answer.
pub open spec fn authorization_outcome(auth: Option<Scopes>) -> Result<(), Seq<char>> {
    match auth {
        None => Err(unauthenticated_message()),
        Some(Scopes::All) => Ok(()),
        Some(Scopes::Listed(v)) => if has_required_scope(v@) {
            Ok(())
        } else {
            Err(insufficient_message())
        },
    }
}

/// Checks the scopes of a request (`None` where it carries no authorization)
/// against the scope that the operations require; on refusal, the text of
/// the 403 answer.
pub fn authorize(auth: &Option<Scopes>) -> (r: Result<(), String>)
    ensures
        match r {
            Ok(()) => authorization_outcome(*auth) == Ok::<(), Seq<char>>(()),
            Err(m) => authorization_outcome(*auth) == Err::<(), Seq<char>>(m@),
        },
{
    match auth {
        None => Err(String::from_str("Unauthenticated")),
        Some(Scopes::All) => Ok(()),
        Some(Scopes::Listed(scopes)) => {
            let required = String::from_str("nudm-sdm");
            let mut i: usize = 0;
            while i < scopes.len()
                invariant
                    i <= scopes@.len(),
                    required@ == required_scope(),
                    *auth == Some(Scopes::Listed(*scopes)),
                    forall|j: int| 0 <= j < i ==> scopes@[j]@ != required_scope(),
                decreases scopes@.len() - i,
            {
                if scopes[i] == required {
                    assert(scopes@[i as int]@ == required_scope());
                    assert(has_required_scope(scopes@));
                    return Ok(());
                }
                i = i + 1;
            }
            assert(!has_required_scope(scopes@));
            let mut msg = String::from_str("Insufficient authorization, missing scopes");
            msg.append(" ");
            msg.append(required.as_str());
            Err(msg)
        },
    }
}

} // verus!
