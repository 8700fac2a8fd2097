//! From a method and a path to the response.

use crate::error::RequestError;
use crate::methods::default_path::respond;
use crate::methods::default_path::response_text;
use crate::methods::Verb;
use crate::text::str_eq;
use vstd::prelude::*;

verus! {

/// The handler that answers `verb` on `path`, or why there is none. An empty
/// method or path is malformed; then every path but the root is unknown; on
/// the root, so is every method without a handler.
pub open spec fn route(verb: Seq<char>, path: Seq<char>) -> Result<Verb, RequestError> {
    if verb.len() == 0 || path.len() == 0 {
        Err(RequestError::MalformedRequest)
    } else if path != "/"@ {
        Err(RequestError::NotFound)
    } else {
        match Verb::named(verb) {
            Some(v) => Ok(v),
            None => Err(RequestError::NotFound),
        }
    }
}

/// The response that a routing decision stands for.
pub open spec fn routed_text(routed: Result<Verb, RequestError>) -> Seq<char> {
    match routed {
        Ok(verb) => response_text(verb),
        Err(error) => error.response_text(),
    }
}

/// Picks the handler for `verb` on `path`.
pub fn dispatch(verb: &str, path: &str) -> (routed: Result<Verb, RequestError>)
    ensures
        routed == route(verb@, path@),
        verb@.len() > 0 && path@.len() > 0 && path@ != "/"@ ==> routed matches Err(
            RequestError::NotFound,
        ),
        verb@.len() > 0 && path@ == "/"@ && verb@ != "GET"@ && verb@ != "POST"@ && verb@ != "PUT"@
            && verb@ != "DELETE"@ ==> routed matches Err(RequestError::NotFound),
{
    proof {
        reveal_strlit("/");
    }
    if verb.is_empty() || path.is_empty() {
        return Err(RequestError::MalformedRequest);
    }
    if !str_eq(path, "/") {
        return Err(RequestError::NotFound);
    }
    match Verb::parse(verb) {
        Some(v) => Ok(v),
        None => Err(RequestError::NotFound),
    }
}

/// Answers `verb` on `path`: the response of the handler, or the fixed
/// response of the failure.
pub fn distribute_with_verb_path(verb: &str, path: &str) -> (response: String)
    ensures
        response@ == routed_text(route(verb@, path@)),
{
    match dispatch(verb, path) {
        Ok(v) => respond(v),
        Err(error) => error.response(),
    }
}

} // verus!
