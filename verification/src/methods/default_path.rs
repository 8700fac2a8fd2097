//! Handlers for the root path: each answers with a fixed text.

use crate::methods::Verb;
use crate::text::decimal_text;
use crate::text::decimal_value;
use crate::text::lemma_decimal_value_of_text;
use crate::text::push_decimal;
use vstd::prelude::*;
use vstd::utf8::encode_utf8;
use vstd::utf8::is_ascii_chars;
use vstd::utf8::is_ascii_chars_encode_utf8;

verus! {

/// A successful response that carries `body`: the status line, a
/// `Content-Length` header whose value is the decimal numeral of the number
/// of bytes that `body` takes in UTF-8, a blank line, and `body` itself.
pub open spec fn ok_response_text(body: Seq<char>) -> Seq<char> {
    "HTTP/1.1 200 OK\r\nContent-Length: "@ + decimal_text(encode_utf8(body).len()) + "\r\n\r\n"@
        + body
}

/// The text that the handler of `verb` sends as its body.
pub open spec fn body_text(verb: Verb) -> Seq<char> {
    "You did a "@ + verb.name() + "\nHello!\nHi from Rust programming language."@
}

/// The whole response of the handler of `verb`.
pub open spec fn response_text(verb: Verb) -> Seq<char> {
    ok_response_text(body_text(verb))
}

/// The responses of the four handlers, written out.
pub open spec fn written_out(verb: Verb) -> Seq<char> {
    match verb {
        Verb::Get => "HTTP/1.1 200 OK\r\nContent-Length: 55\r\n\r\nYou did a GET\nHello!\nHi from Rust programming language."@,
        Verb::Post => "HTTP/1.1 200 OK\r\nContent-Length: 56\r\n\r\nYou did a POST\nHello!\nHi from Rust programming language."@,
        Verb::Put => "HTTP/1.1 200 OK\r\nContent-Length: 55\r\n\r\nYou did a PUT\nHello!\nHi from Rust programming language."@,
        Verb::Delete => "HTTP/1.1 200 OK\r\nContent-Length: 58\r\n\r\nYou did a DELETE\nHello!\nHi from Rust programming language."@,
    }
}

/// Builds the successful response that carries `body`.
pub fn ok_response(body: &str) -> (response: String)
    ensures
        response@ == ok_response_text(body@),
{
    let size = body.as_bytes().len();
    let mut response = String::from_str("HTTP/1.1 200 OK\r\nContent-Length: ");
    push_decimal(&mut response, size);
    response.append("\r\n\r\n");
    response.append(body);
    response
}

/// Answers a `GET` of the root path.
pub fn get_method() -> (response: String)
    ensures
        response@ == response_text(Verb::Get),
        response@ == written_out(Verb::Get),
{
    let message = "You did a GET\nHello!\nHi from Rust programming language.";
    proof {
        reveal_strlit("You did a GET\nHello!\nHi from Rust programming language.");
        reveal_strlit("You did a ");
        reveal_strlit("GET");
        reveal_strlit("\nHello!\nHi from Rust programming language.");
        assert(message@ =~= body_text(Verb::Get));
        lemma_response_written_out(Verb::Get);
    }
    ok_response(message)
}

/// Answers a `POST` to the root path.
pub fn post_method() -> (response: String)
    ensures
        response@ == response_text(Verb::Post),
        response@ == written_out(Verb::Post),
{
    let message = "You did a POST\nHello!\nHi from Rust programming language.";
    proof {
        reveal_strlit("You did a POST\nHello!\nHi from Rust programming language.");
        reveal_strlit("You did a ");
        reveal_strlit("POST");
        reveal_strlit("\nHello!\nHi from Rust programming language.");
        assert(message@ =~= body_text(Verb::Post));
        lemma_response_written_out(Verb::Post);
    }
    ok_response(message)
}

/// Answers a `PUT` to the root path.
pub fn put_method() -> (response: String)
    ensures
        response@ == response_text(Verb::Put),
        response@ == written_out(Verb::Put),
{
    let message = "You did a PUT\nHello!\nHi from Rust programming language.";
    proof {
        reveal_strlit("You did a PUT\nHello!\nHi from Rust programming language.");
        reveal_strlit("You did a ");
        reveal_strlit("PUT");
        reveal_strlit("\nHello!\nHi from Rust programming language.");
        assert(message@ =~= body_text(Verb::Put));
        lemma_response_written_out(Verb::Put);
    }
    ok_response(message)
}

/// Answers a `DELETE` of the root path.
pub fn delete_method() -> (response: String)
    ensures
        response@ == response_text(Verb::Delete),
        response@ == written_out(Verb::Delete),
{
    let message = "You did a DELETE\nHello!\nHi from Rust programming language.";
    proof {
        reveal_strlit("You did a DELETE\nHello!\nHi from Rust programming language.");
        reveal_strlit("You did a ");
        reveal_strlit("DELETE");
        reveal_strlit("\nHello!\nHi from Rust programming language.");
        assert(message@ =~= body_text(Verb::Delete));
        lemma_response_written_out(Verb::Delete);
    }
    ok_response(message)
}

/// Answers a request for the root path with the handler of `verb`.
pub fn respond(verb: Verb) -> (response: String)
    ensures
        response@ == response_text(verb),
        response@ == written_out(verb),
{
    match verb {
        Verb::Get => get_method(),
        Verb::Post => post_method(),
        Verb::Put => put_method(),
        Verb::Delete => delete_method(),
    }
}

/// Every body is plain ASCII, so it takes as many bytes as it has characters:
/// ten for the opening words, those of the method's name, and forty-two for
/// the rest.
pub proof fn lemma_body_size(verb: Verb)
    ensures
        is_ascii_chars(body_text(verb)),
        encode_utf8(body_text(verb)).len() == body_text(verb).len(),
        body_text(verb).len() == 52 + verb.name().len(),
{
    reveal_strlit("You did a ");
    reveal_strlit("GET");
    reveal_strlit("POST");
    reveal_strlit("PUT");
    reveal_strlit("DELETE");
    reveal_strlit("\nHello!\nHi from Rust programming language.");
    assert(is_ascii_chars(body_text(verb)));
    is_ascii_chars_encode_utf8(body_text(verb));
}

/// The response of each handler, as built from its parts, is the text
/// written out above.
pub proof fn lemma_response_written_out(verb: Verb)
    ensures
        response_text(verb) == written_out(verb),
{
    lemma_body_size(verb);
    reveal_strlit("You did a ");
    reveal_strlit("GET");
    reveal_strlit("POST");
    reveal_strlit("PUT");
    reveal_strlit("DELETE");
    reveal_strlit("\nHello!\nHi from Rust programming language.");
    reveal_strlit("HTTP/1.1 200 OK\r\nContent-Length: ");
    reveal_strlit("\r\n\r\n");
    reveal_strlit(
        "HTTP/1.1 200 OK\r\nContent-Length: 55\r\n\r\nYou did a GET\nHello!\nHi from Rust programming language.",
    );
    reveal_strlit(
        "HTTP/1.1 200 OK\r\nContent-Length: 56\r\n\r\nYou did a POST\nHello!\nHi from Rust programming language.",
    );
    reveal_strlit(
        "HTTP/1.1 200 OK\r\nContent-Length: 55\r\n\r\nYou did a PUT\nHello!\nHi from Rust programming language.",
    );
    reveal_strlit(
        "HTTP/1.1 200 OK\r\nContent-Length: 58\r\n\r\nYou did a DELETE\nHello!\nHi from Rust programming language.",
    );
    reveal_with_fuel(decimal_text, 2);
    assert(decimal_text(55) =~= seq!['5', '5']);
    assert(decimal_text(56) =~= seq!['5', '6']);
    assert(decimal_text(58) =~= seq!['5', '8']);
    assert(response_text(verb) =~= written_out(verb));
}

/// In the response of every handler the value of `Content-Length` is a
/// numeral that writes the number of bytes of the body, and the body is all
/// that follows the blank line.
pub proof fn lemma_content_length_counts_body(verb: Verb)
    ensures
        ({
            let body = body_text(verb);
            let size = encode_utf8(body).len();
            &&& response_text(verb) == "HTTP/1.1 200 OK\r\nContent-Length: "@ + decimal_text(size)
                + "\r\n\r\n"@ + body
            &&& decimal_value(decimal_text(size)) == size
        }),
{
    lemma_decimal_value_of_text(encode_utf8(body_text(verb)).len());
}

/// A handler takes no input, and its contract leaves one text only: any two
/// of its answers are the same, character by character and byte by byte.
pub proof fn lemma_answers_agree(verb: Verb, first: Seq<char>, second: Seq<char>)
    requires
        first == response_text(verb),
        second == response_text(verb),
    ensures
        first == second,
        encode_utf8(first) == encode_utf8(second),
{
}

} // verus!
