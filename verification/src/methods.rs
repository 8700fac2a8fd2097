//! The request methods that the server answers, and their handlers.

use crate::text::str_eq;
use vstd::prelude::*;

pub mod default_path;

verus! {

/// A request method that has a handler.
#[derive(Clone, Copy, Debug, PartialEq, Eq, Structural)]
pub enum Verb {
    Get,
    Post,
    Put,
    Delete,
}

impl Verb {
    /// The token that names the method on the wire, in upper case.
    pub open spec fn name(self) -> Seq<char> {
        match self {
            Verb::Get => "GET"@,
            Verb::Post => "POST"@,
            Verb::Put => "PUT"@,
            Verb::Delete => "DELETE"@,
        }
    }

    /// The method that `token` names exactly, if any: no trimming, no folding
    /// of case.
    pub open spec fn named(token: Seq<char>) -> Option<Verb> {
        if token == Verb::Get.name() {
            Some(Verb::Get)
        } else if token == Verb::Post.name() {
            Some(Verb::Post)
        } else if token == Verb::Put.name() {
            Some(Verb::Put)
        } else if token == Verb::Delete.name() {
            Some(Verb::Delete)
        } else {
            None
        }
    }

    /// Reads a method token.
    pub fn parse(token: &str) -> (verb: Option<Verb>)
        ensures
            verb == Verb::named(token@),
    {
        if str_eq(token, "GET") {
            Some(Verb::Get)
        } else if str_eq(token, "POST") {
            Some(Verb::Post)
        } else if str_eq(token, "PUT") {
            Some(Verb::Put)
        } else if str_eq(token, "DELETE") {
            Some(Verb::Delete)
        } else {
            None
        }
    }
}

/// The four names are pairwise distinct, so a token names at most one method
/// and every method is named by its own token.
pub proof fn lemma_named_inverts_name(verb: Verb)
    ensures
        Verb::named(verb.name()) == Some(verb),
{
    reveal_strlit("GET");
    reveal_strlit("POST");
    reveal_strlit("PUT");
    reveal_strlit("DELETE");
    assert("GET"@.len() == 3 && "POST"@.len() == 4 && "PUT"@.len() == 3 && "DELETE"@.len() == 6);
    assert("GET"@[0] == 'G' && "PUT"@[0] == 'P');
}

} // verus!
