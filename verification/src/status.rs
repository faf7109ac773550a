//! The status table: the reason phrase of each registered status code, and the
//! status text that a response shows.

use crate::text::{decimal, decimal_string, lemma_decimal_digits};
use vstd::prelude::*;
use vstd::string::*;

verus! {

/// The reason phrase that the table holds for `code`, if it holds one.
pub open spec fn reason_of(code: u16) -> Option<Seq<char>> {
    match code {
        100u16 => Some("Continue"@),
        101u16 => Some("Switching Protocols"@),
        102u16 => Some("Processing"@),
        103u16 => Some("Early Hints"@),
        200u16 => Some("OK"@),
        201u16 => Some("Created"@),
        202u16 => Some("Accepted"@),
        203u16 => Some("Non-Authoritative Information"@),
        204u16 => Some("No Content"@),
        205u16 => Some("Reset Content"@),
        206u16 => Some("Partial Content"@),
        207u16 => Some("Multi-Status"@),
        208u16 => Some("Already Reported"@),
        226u16 => Some("IM Used"@),
        300u16 => Some("Multiple Choices"@),
        301u16 => Some("Moved Permanently"@),
        302u16 => Some("Found"@),
        303u16 => Some("See Other"@),
        304u16 => Some("Not Modified"@),
        305u16 => Some("Use Proxy"@),
        307u16 => Some("Temporary Redirect"@),
        308u16 => Some("Permanent Redirect"@),
        400u16 => Some("Bad Request"@),
        401u16 => Some("Unauthorized"@),
        402u16 => Some("Payment Required"@),
        403u16 => Some("Forbidden"@),
        404u16 => Some("Not Found"@),
        405u16 => Some("Method Not Allowed"@),
        406u16 => Some("Not Acceptable"@),
        407u16 => Some("Proxy Authentication Required"@),
        408u16 => Some("Request Timeout"@),
        409u16 => Some("Conflict"@),
        410u16 => Some("Gone"@),
        411u16 => Some("Length Required"@),
        412u16 => Some("Precondition Failed"@),
        413u16 => Some("Payload Too Large"@),
        414u16 => Some("URI Too Long"@),
        415u16 => Some("Unsupported Media Type"@),
        416u16 => Some("Range Not Satisfiable"@),
        417u16 => Some("Expectation Failed"@),
        418u16 => Some("I'm a teapot"@),
        421u16 => Some("Misdirected Request"@),
        422u16 => Some("Unprocessable Entity"@),
        423u16 => Some("Locked"@),
        424u16 => Some("Failed Dependency"@),
        425u16 => Some("Too Early"@),
        426u16 => Some("Upgrade Required"@),
        428u16 => Some("Precondition Required"@),
        429u16 => Some("Too Many Requests"@),
        431u16 => Some("Request Header Fields Too Large"@),
        451u16 => Some("Unavailable For Legal Reasons"@),
        500u16 => Some("Internal Server Error"@),
        501u16 => Some("Not Implemented"@),
        502u16 => Some("Bad Gateway"@),
        503u16 => Some("Service Unavailable"@),
        504u16 => Some("Gateway Timeout"@),
        505u16 => Some("HTTP Version Not Supported"@),
        506u16 => Some("Variant Also Negotiates"@),
        507u16 => Some("Insufficient Storage"@),
        508u16 => Some("Loop Detected"@),
        510u16 => Some("Not Extended"@),
        511u16 => Some("Network Authentication Required"@),
        _ => None,
    }
}

/// What stands in place of the reason phrase of a code that the table lacks.
pub open spec fn unknown_reason() -> Seq<char> {
    "Unknown"@
}

/// The status text of `code`: the code in decimal, a space, and the reason phrase,
/// or `Unknown` where the table has none.
pub open spec fn status_text_of(code: u16) -> Seq<char> {
    decimal(code as nat) + seq![' '] + match reason_of(code) {
        Some(reason) => reason,
        None => unknown_reason(),
    }
}

/// True of the codes of successful responses, from 200 up to and without 300.
pub open spec fn is_success(code: u16) -> bool {
    200 <= code < 300
}

/// True of the codes that this server itself gives to a response.
pub open spec fn is_served_code(code: u16) -> bool {
    code == 200 || code == 400 || code == 404 || code == 413 || code == 501 || code == 505
}

/// Looks `code` up in the status table.
pub fn reason_phrase(code: u16) -> (reason: Option<&'static str>)
    ensures
        match reason {
            Some(text) => reason_of(code) == Some(text@),
            None => reason_of(code) is None,
        },
{
    match code {
        100 => Some("Continue"),
        101 => Some("Switching Protocols"),
        102 => Some("Processing"),
        103 => Some("Early Hints"),
        200 => Some("OK"),
        201 => Some("Created"),
        202 => Some("Accepted"),
        203 => Some("Non-Authoritative Information"),
        204 => Some("No Content"),
        205 => Some("Reset Content"),
        206 => Some("Partial Content"),
        207 => Some("Multi-Status"),
        208 => Some("Already Reported"),
        226 => Some("IM Used"),
        300 => Some("Multiple Choices"),
        301 => Some("Moved Permanently"),
        302 => Some("Found"),
        303 => Some("See Other"),
        304 => Some("Not Modified"),
        305 => Some("Use Proxy"),
        307 => Some("Temporary Redirect"),
        308 => Some("Permanent Redirect"),
        400 => Some("Bad Request"),
        401 => Some("Unauthorized"),
        402 => Some("Payment Required"),
        403 => Some("Forbidden"),
        404 => Some("Not Found"),
        405 => Some("Method Not Allowed"),
        406 => Some("Not Acceptable"),
        407 => Some("Proxy Authentication Required"),
        408 => Some("Request Timeout"),
        409 => Some("Conflict"),
        410 => Some("Gone"),
        411 => Some("Length Required"),
        412 => Some("Precondition Failed"),
        413 => Some("Payload Too Large"),
        414 => Some("URI Too Long"),
        415 => Some("Unsupported Media Type"),
        416 => Some("Range Not Satisfiable"),
        417 => Some("Expectation Failed"),
        418 => Some("I'm a teapot"),
        421 => Some("Misdirected Request"),
        422 => Some("Unprocessable Entity"),
        423 => Some("Locked"),
        424 => Some("Failed Dependency"),
        425 => Some("Too Early"),
        426 => Some("Upgrade Required"),
        428 => Some("Precondition Required"),
        429 => Some("Too Many Requests"),
        431 => Some("Request Header Fields Too Large"),
        451 => Some("Unavailable For Legal Reasons"),
        500 => Some("Internal Server Error"),
        501 => Some("Not Implemented"),
        502 => Some("Bad Gateway"),
        503 => Some("Service Unavailable"),
        504 => Some("Gateway Timeout"),
        505 => Some("HTTP Version Not Supported"),
        506 => Some("Variant Also Negotiates"),
        507 => Some("Insufficient Storage"),
        508 => Some("Loop Detected"),
        510 => Some("Not Extended"),
        511 => Some("Network Authentication Required"),
        _ => None,
    }
}

/// Whether `code` announces success.
pub fn code_is_success(code: u16) -> (success: bool)
    ensures
        success == is_success(code),
{
    200 <= code && code < 300
}

/// Writes the status text of `code`.
pub fn status_text(code: u16) -> (text: String)
    ensures
        text@ == status_text_of(code),
{
    let mut text = decimal_string(code as usize);
    text.append(" ");
    match reason_phrase(code) {
        Some(reason) => text.append(reason),
        None => text.append("Unknown"),
    }
    proof {
        reveal_strlit(" ");
        assert(" "@ =~= seq![' ']);
    }
    text
}

/// Every code that this server gives to a response has a reason phrase in the
/// table, so none of them is shown as `Unknown`.
pub proof fn lemma_served_codes_are_named(code: u16)
    requires
        is_served_code(code),
    ensures
        reason_of(code) is Some,
        reason_of(code) != Some(unknown_reason()),
{
    reveal_strlit("Unknown");
    reveal_strlit("OK");
    reveal_strlit("Bad Request");
    reveal_strlit("Not Found");
    reveal_strlit("Payload Too Large");
    reveal_strlit("Not Implemented");
    reveal_strlit("HTTP Version Not Supported");
    assert(unknown_reason().len() == 7);
    assert(reason_of(code)->Some_0.len() != 7);
}

/// No status text holds an opening brace, so none can be taken for the start of a
/// placeholder.
pub proof fn lemma_status_text_has_no_brace(code: u16)
    ensures
        forall|i: int|
            0 <= i < status_text_of(code).len() ==> #[trigger] status_text_of(code)[i] != '{',
{
    lemma_decimal_digits(code as nat);
    lemma_reason_has_no_brace(code);
}

/// No reason phrase, nor what stands in for one, holds an opening brace.
proof fn lemma_reason_has_no_brace(code: u16)
    ensures
        forall|i: int| 0 <= i < unknown_reason().len() ==> #[trigger] unknown_reason()[i] != '{',
        match reason_of(code) {
            Some(reason) => forall|i: int| 0 <= i < reason.len() ==> #[trigger] reason[i] != '{',
            None => true,
        },
{
    reveal_strlit("Unknown");
    reveal_strlit("Continue");
    reveal_strlit("Switching Protocols");
    reveal_strlit("Processing");
    reveal_strlit("Early Hints");
    reveal_strlit("OK");
    reveal_strlit("Created");
    reveal_strlit("Accepted");
    reveal_strlit("Non-Authoritative Information");
    reveal_strlit("No Content");
    reveal_strlit("Reset Content");
    reveal_strlit("Partial Content");
    reveal_strlit("Multi-Status");
    reveal_strlit("Already Reported");
    reveal_strlit("IM Used");
    reveal_strlit("Multiple Choices");
    reveal_strlit("Moved Permanently");
    reveal_strlit("Found");
    reveal_strlit("See Other");
    reveal_strlit("Not Modified");
    reveal_strlit("Use Proxy");
    reveal_strlit("Temporary Redirect");
    reveal_strlit("Permanent Redirect");
    reveal_strlit("Bad Request");
    reveal_strlit("Unauthorized");
    reveal_strlit("Payment Required");
    reveal_strlit("Forbidden");
    reveal_strlit("Not Found");
    reveal_strlit("Method Not Allowed");
    reveal_strlit("Not Acceptable");
    reveal_strlit("Proxy Authentication Required");
    reveal_strlit("Request Timeout");
    reveal_strlit("Conflict");
    reveal_strlit("Gone");
    reveal_strlit("Length Required");
    reveal_strlit("Precondition Failed");
    reveal_strlit("Payload Too Large");
    reveal_strlit("URI Too Long");
    reveal_strlit("Unsupported Media Type");
    reveal_strlit("Range Not Satisfiable");
    reveal_strlit("Expectation Failed");
    reveal_strlit("I'm a teapot");
    reveal_strlit("Misdirected Request");
    reveal_strlit("Unprocessable Entity");
    reveal_strlit("Locked");
    reveal_strlit("Failed Dependency");
    reveal_strlit("Too Early");
    reveal_strlit("Upgrade Required");
    reveal_strlit("Precondition Required");
    reveal_strlit("Too Many Requests");
    reveal_strlit("Request Header Fields Too Large");
    reveal_strlit("Unavailable For Legal Reasons");
    reveal_strlit("Internal Server Error");
    reveal_strlit("Not Implemented");
    reveal_strlit("Bad Gateway");
    reveal_strlit("Service Unavailable");
    reveal_strlit("Gateway Timeout");
    reveal_strlit("HTTP Version Not Supported");
    reveal_strlit("Variant Also Negotiates");
    reveal_strlit("Insufficient Storage");
    reveal_strlit("Loop Detected");
    reveal_strlit("Not Extended");
    reveal_strlit("Network Authentication Required");
}

} // verus!
