//! Validation of the request line.

use crate::dispatch::distribute_with_verb_path;
use crate::dispatch::route;
use crate::dispatch::routed_text;
use crate::error::RequestError;
use crate::methods::default_path::response_text;
use crate::methods::Verb;
use crate::text::chars_of;
use crate::text::contains_text;
use crate::text::field_bounds;
use crate::text::has_text;
use crate::text::occurs_at;
use crate::text::split_on;
use vstd::prelude::*;
use vstd::slice::slice_subrange;

verus! {

/// The word that the third field of a request line must hold.
pub const HTTP_PROTOCOL: &'static str = "HTTP";

/// The version marks of which the third field must hold at least one.
pub const HTTP_VERSIONS: [&'static str; 3] = ["1", "1.1", "2"];

/// The three fields of a well-formed request line.
#[derive(Debug, PartialEq, Eq)]
pub struct RequestLine {
    pub verb: String,
    pub path: String,
    pub protocol_token: String,
}

/// A request line as three texts.
pub struct RequestLineView {
    pub verb: Seq<char>,
    pub path: Seq<char>,
    pub protocol_token: Seq<char>,
}

impl View for RequestLine {
    type V = RequestLineView;

    open spec fn view(&self) -> RequestLineView {
        RequestLineView {
            verb: self.verb@,
            path: self.path@,
            protocol_token: self.protocol_token@,
        }
    }
}

/// The field holds the protocol's name somewhere, in upper case.
pub open spec fn names_protocol(token: Seq<char>) -> bool {
    contains_text(token, HTTP_PROTOCOL@)
}

/// The field holds one of the version marks somewhere. Nothing is asked of
/// what stands around the mark, so `2.5` passes for holding `2`.
pub open spec fn names_version(token: Seq<char>) -> bool {
    contains_text(token, "1"@) || contains_text(token, "1.1"@) || contains_text(token, "2"@)
}

/// The mark `1.1` holds the mark `1`, so the three marks come to two: a field
/// names a version exactly when it holds the digit one or the digit two.
pub proof fn lemma_version_marks_are_digits(token: Seq<char>)
    ensures
        names_version(token) <==> token.contains('1') || token.contains('2'),
{
    reveal_strlit("1");
    reveal_strlit("1.1");
    reveal_strlit("2");
    if names_version(token) {
        if contains_text(token, "1"@) {
            let at = choose|at: int| occurs_at(token, "1"@, at);
            assert(token.subrange(at, at + 1)[0] == '1');
            assert(token[at] == '1');
        } else if contains_text(token, "1.1"@) {
            let at = choose|at: int| occurs_at(token, "1.1"@, at);
            assert(token.subrange(at, at + 3)[0] == '1');
            assert(token[at] == '1');
        } else {
            let at = choose|at: int| occurs_at(token, "2"@, at);
            assert(token.subrange(at, at + 1)[0] == '2');
            assert(token[at] == '2');
        }
    }
    if token.contains('1') {
        let i = choose|i: int| 0 <= i < token.len() && token[i] == '1';
        assert(token.subrange(i, i + 1) =~= "1"@);
        assert(occurs_at(token, "1"@, i));
    }
    if token.contains('2') {
        let i = choose|i: int| 0 <= i < token.len() && token[i] == '2';
        assert(token.subrange(i, i + 1) =~= "2"@);
        assert(occurs_at(token, "2"@, i));
    }
}

/// What the validator makes of one request line: the line is cut at every
/// single space, and must give exactly three fields, the third naming the
/// protocol and a version. What the third field holds besides is not looked at.
pub open spec fn parse_line(line: Seq<char>) -> Result<RequestLineView, RequestError> {
    let fields = split_on(line, ' ');
    if fields.len() != 3 || !names_protocol(fields[2]) {
        Err(RequestError::MalformedRequest)
    } else if !names_version(fields[2]) {
        Err(RequestError::UnsupportedVersion)
    } else {
        Ok(RequestLineView { verb: fields[0], path: fields[1], protocol_token: fields[2] })
    }
}

/// What the validator makes of the lines of a request: only the first line
/// counts, and a request without lines is malformed.
pub open spec fn validated(lines: Seq<Seq<char>>) -> Result<RequestLineView, RequestError> {
    if lines.len() == 0 {
        Err(RequestError::MalformedRequest)
    } else {
        parse_line(lines[0])
    }
}

/// The response to the lines of a request: the fixed response of the failure
/// where validation fails, else what routing the method and the path gives.
pub open spec fn checked_text(lines: Seq<Seq<char>>) -> Seq<char> {
    match validated(lines) {
        Ok(line) => routed_text(route(line.verb, line.path)),
        Err(error) => error.response_text(),
    }
}

/// Whatever the lines, the response is one of seven texts: that of a
/// failure, or that of a handler.
pub proof fn lemma_checked_text_is_fixed(lines: Seq<Seq<char>>)
    ensures
        ({
            let text = checked_text(lines);
            ||| text == RequestError::MalformedRequest.response_text()
            ||| text == RequestError::UnsupportedVersion.response_text()
            ||| text == RequestError::NotFound.response_text()
            ||| text == response_text(Verb::Get)
            ||| text == response_text(Verb::Post)
            ||| text == response_text(Verb::Put)
            ||| text == response_text(Verb::Delete)
        }),
{
}

/// Whether the field holds the protocol's name.
fn holds_protocol(token: &[char]) -> (found: bool)
    ensures
        found == names_protocol(token@),
{
    let name = chars_of(HTTP_PROTOCOL);
    has_text(token, name.as_slice())
}

/// Whether the field holds one of the version marks.
fn holds_version(token: &[char]) -> (found: bool)
    ensures
        found == names_version(token@),
{
    assert(HTTP_VERSIONS[0]@ == "1"@ && HTTP_VERSIONS[1]@ == "1.1"@ && HTTP_VERSIONS[2]@ == "2"@);
    let mut i: usize = 0;
    while i < 3
        invariant
            i <= 3,
            forall|k: int| 0 <= k < i ==> !contains_text(token@, #[trigger] HTTP_VERSIONS[k]@),
        decreases 3 - i,
    {
        let mark = chars_of(HTTP_VERSIONS[i]);
        if has_text(token, mark.as_slice()) {
            return true;
        }
        i += 1;
    }
    false
}

/// Validates the request line, the first of `lines`.
pub fn validate(lines: &Vec<String>) -> (checked: Result<RequestLine, RequestError>)
    ensures
        match checked {
            Ok(line) => validated(lines.deep_view()) == Ok::<RequestLineView, RequestError>(line@),
            Err(error) => validated(lines.deep_view()) == Err::<RequestLineView, RequestError>(
                error,
            ),
        },
        lines.len() > 0 && split_on(lines[0]@, ' ').len() != 3 ==> checked matches Err(
            RequestError::MalformedRequest,
        ),
        lines.len() > 0 && split_on(lines[0]@, ' ').len() > 2 && !names_protocol(
            split_on(lines[0]@, ' ')[2],
        ) ==> checked matches Err(RequestError::MalformedRequest),
        lines.len() > 0 && split_on(lines[0]@, ' ').len() == 3 && names_protocol(
            split_on(lines[0]@, ' ')[2],
        ) && !names_version(split_on(lines[0]@, ' ')[2]) ==> checked matches Err(
            RequestError::UnsupportedVersion,
        ),
        !(checked matches Err(RequestError::NotFound)),
{
    if lines.len() == 0 {
        return Err(RequestError::MalformedRequest);
    }
    let line: &str = lines[0].as_str();
    let chars = chars_of(line);
    let bounds = field_bounds(chars.as_slice(), ' ');
    if bounds.len() != 3 {
        return Err(RequestError::MalformedRequest);
    }
    let (verb_from, verb_to) = bounds[0];
    let (path_from, path_to) = bounds[1];
    let (token_from, token_to) = bounds[2];
    let token = slice_subrange(chars.as_slice(), token_from, token_to);
    if !holds_protocol(token) {
        return Err(RequestError::MalformedRequest);
    }
    if !holds_version(token) {
        return Err(RequestError::UnsupportedVersion);
    }
    Ok(
        RequestLine {
            verb: line.substring_char(verb_from, verb_to).to_owned(),
            path: line.substring_char(path_from, path_to).to_owned(),
            protocol_token: line.substring_char(token_from, token_to).to_owned(),
        },
    )
}

/// Answers the lines of a request: validates the request line and, where it
/// passes, hands method and path to the dispatcher.
pub fn check_request(request: Vec<String>) -> (response: String)
    ensures
        response@ == checked_text(request.deep_view()),
{
    match validate(&request) {
        Ok(line) => distribute_with_verb_path(line.verb.as_str(), line.path.as_str()),
        Err(error) => error.response(),
    }
}

} // verus!
