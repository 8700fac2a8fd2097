use mini_httpd::error::RequestError;
use mini_httpd::request::check_request;
use mini_httpd::request::validate;
use mini_httpd::request::RequestLine;
use mini_httpd::request::HTTP_PROTOCOL;
use mini_httpd::request::HTTP_VERSIONS;

const BAD_REQUEST: &str = "HTTP/1.1 400 BAD REQUEST\r\n\r\n";
const NOT_FOUND: &str = "HTTP/1.1 404 NOT FOUND\r\n\r\n";
const VERSION_NOT_SUPPORTED: &str = "HTTP/1.1 505 HTTP VERSION NOT SUPPORTED\r\n\r\n";
const GET_OK: &str =
    "HTTP/1.1 200 OK\r\nContent-Length: 55\r\n\r\nYou did a GET\nHello!\nHi from Rust programming language.";

fn one_line(line: &str) -> Vec<String> {
    vec![String::from(line)]
}

fn line_of(verb: &str, path: &str, protocol_token: &str) -> RequestLine {
    RequestLine {
        verb: String::from(verb),
        path: String::from(path),
        protocol_token: String::from(protocol_token),
    }
}

#[test]
fn protocol_constants() {
    assert_eq!(HTTP_PROTOCOL, "HTTP");
    assert_eq!(HTTP_VERSIONS, ["1", "1.1", "2"]);
}

#[test]
fn validate_gives_the_three_fields() {
    assert_eq!(validate(&one_line("GET / HTTP/1.1")), Ok(line_of("GET", "/", "HTTP/1.1")));
    assert_eq!(
        validate(&one_line("DELETE /a/b?c=d HTTP/2")),
        Ok(line_of("DELETE", "/a/b?c=d", "HTTP/2"))
    );
}

#[test]
fn validate_does_not_judge_verb_or_path() {
    assert_eq!(validate(&one_line("BREW /pot HTTP/1")), Ok(line_of("BREW", "/pot", "HTTP/1")));
    assert_eq!(validate(&one_line("  HTTP/1.1")), Ok(line_of("", "", "HTTP/1.1")));
    assert_eq!(validate(&one_line(" / HTTP/1.1")), Ok(line_of("", "/", "HTTP/1.1")));
}

#[test]
fn validate_keeps_wide_characters_whole() {
    assert_eq!(
        validate(&one_line("GET /caf\u{e9} HTTP/1.1")),
        Ok(line_of("GET", "/caf\u{e9}", "HTTP/1.1"))
    );
}

#[test]
fn validate_without_lines_is_malformed() {
    assert_eq!(validate(&Vec::new()), Err(RequestError::MalformedRequest));
}

#[test]
fn validate_wrong_field_count_is_malformed() {
    for line in ["", " ", "GET", "GET /", "GET/HTTP/1.1", "GET / HTTP/ 1.1", "GET / HTTP/1.1 ",
        " GET / HTTP/1.1", "GET  / HTTP/1.1", "GET / HTTP/1.1 x y", "GET / HTTP/3 x", "GET / CoAP x"]
    {
        assert_eq!(validate(&one_line(line)), Err(RequestError::MalformedRequest), "{:?}", line);
    }
}

#[test]
fn validate_tab_is_no_separator() {
    assert_eq!(validate(&one_line("GET\t/\tHTTP/1.1")), Err(RequestError::MalformedRequest));
}

#[test]
fn validate_missing_protocol_name_is_malformed() {
    for line in ["GET / CoAP/1.1", "GET / http/1.1", "GET / HTT/1.1", "GET / 1.1", "GET / H-T-T-P/2",
        "GET / ", "GET / Http/3"]
    {
        assert_eq!(validate(&one_line(line)), Err(RequestError::MalformedRequest), "{:?}", line);
    }
}

#[test]
fn validate_unknown_version_is_unsupported() {
    for line in ["GET / HTTP/3", "GET / HTTP", "GET / HTTP/", "GET / HTTP/0.9", "GET / xHTTPx",
        "BREW /pot HTTP/three"]
    {
        assert_eq!(validate(&one_line(line)), Err(RequestError::UnsupportedVersion), "{:?}", line);
    }
}

#[test]
fn validate_version_is_found_by_containment() {
    assert_eq!(validate(&one_line("GET / HTTP/2.5")), Ok(line_of("GET", "/", "HTTP/2.5")));
    assert_eq!(validate(&one_line("GET / HTTP/1.0")), Ok(line_of("GET", "/", "HTTP/1.0")));
    assert_eq!(validate(&one_line("GET / HTTP/31")), Ok(line_of("GET", "/", "HTTP/31")));
    assert_eq!(validate(&one_line("GET / 2HTTP")), Ok(line_of("GET", "/", "2HTTP")));
    assert_eq!(validate(&one_line("GET / xHTTPS/1.1x")), Ok(line_of("GET", "/", "xHTTPS/1.1x")));
}

#[test]
fn validate_reads_the_first_line_only() {
    let lines = vec![String::from("GET / HTTP/1.1"), String::from("broken"), String::from("")];
    assert_eq!(validate(&lines), Ok(line_of("GET", "/", "HTTP/1.1")));
    let lines = vec![String::from("broken"), String::from("GET / HTTP/1.1")];
    assert_eq!(validate(&lines), Err(RequestError::MalformedRequest));
}

#[test]
fn get_on_the_root_is_answered() {
    assert_eq!(check_request(one_line("GET / HTTP/1.1")), GET_OK);
}

#[test]
fn request_without_lines_is_malformed() {
    assert_eq!(check_request(Vec::new()), BAD_REQUEST);
}

#[test]
fn request_in_another_protocol_is_malformed() {
    assert_eq!(check_request(one_line("GET / CoAP/1.1")), BAD_REQUEST);
}

#[test]
fn request_in_an_unknown_version_is_unsupported() {
    assert_eq!(check_request(one_line("GET / HTTP/3")), VERSION_NOT_SUPPORTED);
}

#[test]
fn request_for_an_unknown_path_is_not_found() {
    assert_eq!(check_request(one_line("GET /invalid HTTP/1.1")), NOT_FOUND);
}

#[test]
fn check_request_empty_verb_or_path_is_malformed() {
    assert_eq!(check_request(one_line(" / HTTP/1.1")), BAD_REQUEST);
    assert_eq!(check_request(one_line("GET  HTTP/1.1")), BAD_REQUEST);
    assert_eq!(check_request(one_line("  HTTP/1.1")), BAD_REQUEST);
}

#[test]
fn check_request_unknown_verb_is_not_found() {
    assert_eq!(check_request(one_line("PATCH / HTTP/1.1")), NOT_FOUND);
    assert_eq!(check_request(one_line("get / HTTP/1.1")), NOT_FOUND);
    assert_eq!(check_request(one_line("HEAD / HTTP/2")), NOT_FOUND);
}

#[test]
fn check_request_validation_comes_before_routing() {
    assert_eq!(check_request(one_line("PATCH /nowhere HTTP/3")), VERSION_NOT_SUPPORTED);
    assert_eq!(check_request(one_line("PATCH /nowhere CoAP/1.1")), BAD_REQUEST);
}

#[test]
fn check_request_ignores_later_lines() {
    let lines = vec![String::from("GET / HTTP/1.1"), String::from("Host: localhost"), String::from("???")];
    assert_eq!(check_request(lines), GET_OK);
}

#[test]
fn check_request_accepts_loose_versions() {
    assert_eq!(check_request(one_line("GET / HTTP/2.5")), GET_OK);
}
