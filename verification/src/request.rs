//! Requests: the request line of an HTTP request and how it is read from bytes.

use crate::response::{html_mime, text_response, Response, ResponseView};
use crate::text::{decode_text, lemma_utf8_lacks, utf8, utf8_error_text};
use vstd::prelude::*;
use vstd::slice::slice_subrange;
use vstd::string::*;
use vstd::utf8::*;

verus! {

/// The space that parts the tokens of a request line.
pub const SPACE: u8 = 0x20;

/// Carriage return.
pub const CR: u8 = 0x0d;

/// Line feed.
pub const LF: u8 = 0x0a;

/// The bytes that part the tokens of a request line: the space alone.
pub open spec fn spaces() -> Set<u8> {
    set![SPACE]
}

/// The bytes that end a request line: carriage return and line feed.
pub open spec fn line_breaks() -> Set<u8> {
    set![CR, LF]
}

/// The least index from `from` on at which `bytes` holds one of `wanted`, or the
/// length of `bytes` where no such index exists.
pub open spec fn first_in(bytes: Seq<u8>, from: int, wanted: Set<u8>) -> int
    decreases bytes.len() - from,
{
    if from < 0 || from >= bytes.len() {
        bytes.len() as int
    } else if wanted.contains(bytes[from]) {
        from
    } else {
        first_in(bytes, from + 1, wanted)
    }
}

/// `first_in` gives an index at which one of `wanted` stands, with none of them
/// between `from` and it, or the length where there is none to find.
pub proof fn lemma_first_in(bytes: Seq<u8>, from: int, wanted: Set<u8>)
    requires
        0 <= from <= bytes.len(),
    ensures
        from <= first_in(bytes, from, wanted) <= bytes.len(),
        forall|j: int| from <= j < first_in(bytes, from, wanted) ==> !wanted.contains(bytes[j]),
        first_in(bytes, from, wanted) < bytes.len() ==> wanted.contains(
            bytes[first_in(bytes, from, wanted)],
        ),
    decreases bytes.len() - from,
{
    if from < bytes.len() && !wanted.contains(bytes[from]) {
        lemma_first_in(bytes, from + 1, wanted);
    }
}

/// An index that has none of `wanted` between `from` and itself, and holds one of
/// them unless it is the length, is the one that `first_in` gives.
pub proof fn lemma_first_in_unique(bytes: Seq<u8>, from: int, wanted: Set<u8>, at: int)
    requires
        0 <= from <= at <= bytes.len(),
        forall|j: int| from <= j < at ==> !wanted.contains(bytes[j]),
        at < bytes.len() ==> wanted.contains(bytes[at]),
    ensures
        first_in(bytes, from, wanted) == at,
    decreases at - from,
{
    if from < at {
        lemma_first_in_unique(bytes, from + 1, wanted, at);
    }
}

/// Where the request line in `buffer` is cut: the ends of the method, of the
/// resource and of the line, in this order.
///
/// The line ends at the first line break. The method ends at the first space of the
/// line and the resource at the second. A token may be empty: a line that begins
/// with a space has the empty method, two spaces in a row leave the resource empty,
/// and a second space right before the line break leaves the version empty. There
/// are no cuts where the buffer holds no line break or the line holds fewer than
/// two spaces.
pub open spec fn request_line_cuts(buffer: Seq<u8>) -> Option<(int, int, int)> {
    let line_end = first_in(buffer, 0, line_breaks());
    let line = buffer.take(line_end);
    let method_end = first_in(line, 0, spaces());
    let resource_end = first_in(line, method_end + 1, spaces());
    if line_end < buffer.len() && method_end < line_end && resource_end < line_end {
        Some((method_end, resource_end, line_end))
    } else {
        None
    }
}

/// The cuts of a request line stand in order and inside the buffer. The first two
/// are the first two spaces of the buffer, the third is its first line break, and
/// no space stands before the first cut nor between the first and the second.
pub proof fn lemma_cuts_in_order(buffer: Seq<u8>)
    ensures
        match request_line_cuts(buffer) {
            Some((method_end, resource_end, line_end)) => {
                &&& 0 <= method_end < resource_end < line_end < buffer.len()
                &&& buffer[method_end] == SPACE
                &&& buffer[resource_end] == SPACE
                &&& buffer[line_end] == CR || buffer[line_end] == LF
                &&& forall|j: int|
                    0 <= j < resource_end && j != method_end ==> buffer[j] != SPACE
                &&& forall|j: int| 0 <= j < line_end ==> buffer[j] != CR && buffer[j] != LF
            },
            None => true,
        },
{
    let line_end = first_in(buffer, 0, line_breaks());
    lemma_first_in(buffer, 0, line_breaks());
    let line = buffer.take(line_end);
    lemma_first_in(line, 0, spaces());
    let method_end = first_in(line, 0, spaces());
    if method_end < line_end {
        lemma_first_in(line, method_end + 1, spaces());
        let resource_end = first_in(line, method_end + 1, spaces());
        if resource_end < line_end {
            assert(line[method_end] == buffer[method_end]);
            assert(line[resource_end] == buffer[resource_end]);
            assert forall|j: int|
                0 <= j < resource_end && j != method_end implies buffer[j] != SPACE by {
                assert(line[j] == buffer[j]);
                assert(!spaces().contains(line[j]));
            }
        }
    }
}

/// Finds the cuts of the request line in one pass over `buffer`, which stops at the
/// first line break.
pub fn locate_request_line(buffer: &[u8]) -> (cuts: Option<(usize, usize, usize)>)
    ensures
        match cuts {
            Some((method_end, resource_end, line_end)) => request_line_cuts(buffer@) == Some(
                (method_end as int, resource_end as int, line_end as int),
            ),
            None => request_line_cuts(buffer@) is None,
        },
{
    let mut method_end: Option<usize> = None;
    let mut resource_end: Option<usize> = None;
    let mut line_end: Option<usize> = None;
    let mut index: usize = 0;
    while index < buffer.len()
        invariant
            index <= buffer.len(),
            forall|j: int| 0 <= j < index ==> !line_breaks().contains(buffer@[j]),
            match line_end {
                Some(end) => end == index && index < buffer.len() && line_breaks().contains(
                    buffer@[index as int],
                ),
                None => true,
            },
            match method_end {
                Some(first) => first < index && spaces().contains(buffer@[first as int])
                    && forall|j: int| 0 <= j < first ==> !spaces().contains(buffer@[j]),
                None => resource_end is None && forall|j: int|
                    0 <= j < index ==> !spaces().contains(buffer@[j]),
            },
            match resource_end {
                Some(second) => method_end is Some && method_end->Some_0 < second < index
                    && spaces().contains(buffer@[second as int]) && forall|j: int|
                    method_end->Some_0 < j < second ==> !spaces().contains(buffer@[j]),
                None => method_end is Some ==> forall|j: int|
                    method_end->Some_0 < j < index ==> !spaces().contains(buffer@[j]),
            },
        ensures
            line_end is Some || index == buffer.len(),
        decreases buffer.len() - index,
    {
        let byte = buffer[index];
        if byte == CR || byte == LF {
            line_end = Some(index);
            break ;
        } else if byte == SPACE {
            if method_end.is_none() {
                method_end = Some(index);
            } else if resource_end.is_none() {
                resource_end = Some(index);
            }
        }
        index = index + 1;
    }
    proof {
        let found = index as int;
        lemma_first_in_unique(buffer@, 0, line_breaks(), found);
        let line = buffer@.take(found);
        let first = match method_end {
            Some(first) => first as int,
            None => found,
        };
        lemma_first_in_unique(line, 0, spaces(), first);
        if method_end is Some {
            let second = match resource_end {
                Some(second) => second as int,
                None => found,
            };
            lemma_first_in_unique(line, first + 1, spaces(), second);
        }
    }
    match (method_end, resource_end, line_end) {
        (Some(first), Some(second), Some(end)) => Some((first, second, end)),
        _ => None,
    }
}

/// The three tokens of a request line.
#[derive(Debug, Clone, Copy, PartialEq, Eq)]
pub enum Token {
    Method,
    Resource,
    Version,
}

/// How the complaint about a token that is no text begins.
pub open spec fn malformed_token_prefix(token: Token) -> Seq<char> {
    match token {
        Token::Method => "Malformed method name: "@,
        Token::Resource => "Malformed resource name: "@,
        Token::Version => "Malformed http version: "@,
    }
}

/// The response to a request line of which `token` is no text: status 400, with
/// the token's name and the decoder's complaint `detail`.
pub open spec fn malformed_token(token: Token, detail: Seq<char>) -> ResponseView {
    text_response(400, malformed_token_prefix(token) + detail)
}

/// The response to a buffer that holds no complete request line: status 400.
pub open spec fn malformed_line() -> ResponseView {
    text_response(400, "Malformed request line"@)
}

/// An HTTP request, as far as its request line tells.
#[derive(Debug, PartialEq, Eq)]
pub struct Request {
    pub method: String,
    pub resource: String,
    pub http_version: String,
}

/// What a `Request` stands for.
pub struct RequestView {
    pub method: Seq<char>,
    pub resource: Seq<char>,
    pub http_version: Seq<char>,
}

impl View for Request {
    type V = RequestView;

    open spec fn view(&self) -> RequestView {
        RequestView {
            method: self.method@,
            resource: self.resource@,
            http_version: self.http_version@,
        }
    }
}

/// What reading a request from `buffer` gives: the request whose tokens are the
/// three parts of the request line, decoded as they stand, or the response that
/// says what is wrong with the line.
///
/// The tokens are checked in the order method, resource, version; the first that
/// is no well-formed UTF-8 decides the response.
pub open spec fn parse_request(buffer: Seq<u8>) -> Result<RequestView, ResponseView> {
    match request_line_cuts(buffer) {
        None => Err(malformed_line()),
        Some((method_end, resource_end, line_end)) => {
            let method = buffer.subrange(0, method_end);
            let resource = buffer.subrange(method_end + 1, resource_end);
            let version = buffer.subrange(resource_end + 1, line_end);
            if !valid_utf8(method) {
                Err(malformed_token(Token::Method, utf8_error_text(method)))
            } else if !valid_utf8(resource) {
                Err(malformed_token(Token::Resource, utf8_error_text(resource)))
            } else if !valid_utf8(version) {
                Err(malformed_token(Token::Version, utf8_error_text(version)))
            } else {
                Ok(
                    RequestView {
                        method: decode_utf8(method),
                        resource: decode_utf8(resource),
                        http_version: decode_utf8(version),
                    },
                )
            }
        },
    }
}

/// A buffer is answered with 400 where it holds no space before its first line
/// break, or no space at all where it holds no line break.
pub proof fn lemma_line_without_space_is_malformed(buffer: Seq<u8>)
    requires
        forall|i: int| 0 <= i < first_in(buffer, 0, line_breaks()) ==> buffer[i] != SPACE,
    ensures
        parse_request(buffer) == Err::<RequestView, ResponseView>(malformed_line()),
        malformed_line().code == 400,
{
    let line_end = first_in(buffer, 0, line_breaks());
    lemma_first_in(buffer, 0, line_breaks());
    lemma_first_in(buffer.take(line_end), 0, spaces());
}

/// The method of a request is what stands before the first space of the buffer:
/// where a buffer is parsed as a request, its method is the text of the bytes up to
/// that space, and so holds no space. A buffer that begins with a space has the
/// empty method.
pub proof fn lemma_method_ends_at_first_space(buffer: Seq<u8>)
    ensures
        match parse_request(buffer) {
            Ok(request) => {
                let first = first_in(buffer, 0, spaces());
                &&& first < buffer.len()
                &&& utf8(request.method) == buffer.take(first)
                &&& forall|i: int|
                    0 <= i < utf8(request.method).len() ==> utf8(request.method)[i] != SPACE
                &&& buffer[0] == SPACE ==> request.method == Seq::<char>::empty()
            },
            Err(_) => true,
        },
{
    lemma_cuts_in_order(buffer);
    match request_line_cuts(buffer) {
        None => {},
        Some((method_end, resource_end, line_end)) => {
            lemma_first_in_unique(buffer, 0, spaces(), method_end);
            let method = buffer.subrange(0, method_end);
            assert(method =~= buffer.take(method_end));
            if valid_utf8(method) {
                decode_utf8_encode_utf8(method);
                if buffer[0] == SPACE {
                    assert(method =~= Seq::<u8>::empty());
                    assert(decode_utf8(method) =~= Seq::<char>::empty());
                }
            }
        },
    }
}

/// A buffer is answered with 400 where it holds no line break.
pub proof fn lemma_unterminated_is_malformed(buffer: Seq<u8>)
    requires
        forall|i: int| 0 <= i < buffer.len() ==> buffer[i] != CR && buffer[i] != LF,
    ensures
        parse_request(buffer) == Err::<RequestView, ResponseView>(malformed_line()),
{
    lemma_first_in(buffer, 0, line_breaks());
}

/// Whatever is wrong with a request line, the response has status 400 and a text,
/// served as HTML.
pub proof fn lemma_parse_errors_are_400(buffer: Seq<u8>)
    ensures
        match parse_request(buffer) {
            Ok(_) => true,
            Err(response) => response.code == 400 && response.mime == html_mime()
                && response.body is Text,
        },
{
}

/// What follows the first line break has no part in how a buffer is parsed: two
/// buffers that are the same up to and with that line break are parsed alike.
pub proof fn lemma_rest_is_ignored(buffer: Seq<u8>, other: Seq<u8>)
    requires
        first_in(buffer, 0, line_breaks()) < buffer.len(),
        first_in(buffer, 0, line_breaks()) < other.len(),
        other.take(first_in(buffer, 0, line_breaks()) + 1) == buffer.take(
            first_in(buffer, 0, line_breaks()) + 1,
        ),
    ensures
        parse_request(other) == parse_request(buffer),
{
    let line_end = first_in(buffer, 0, line_breaks());
    lemma_first_in(buffer, 0, line_breaks());
    assert forall|j: int| 0 <= j <= line_end implies other[j] == buffer[j] by {
        assert(other[j] == other.take(line_end + 1)[j]);
        assert(buffer[j] == buffer.take(line_end + 1)[j]);
    }
    lemma_first_in_unique(other, 0, line_breaks(), line_end);
    assert(other.take(line_end) =~= buffer.take(line_end));
    lemma_cuts_in_order(buffer);
    match request_line_cuts(buffer) {
        None => {},
        Some((method_end, resource_end, line_end)) => {
            assert(other.subrange(0, method_end) =~= buffer.subrange(0, method_end));
            assert(other.subrange(method_end + 1, resource_end) =~= buffer.subrange(
                method_end + 1,
                resource_end,
            ));
            assert(other.subrange(resource_end + 1, line_end) =~= buffer.subrange(
                resource_end + 1,
                line_end,
            ));
        },
    }
}

/// True of a text that can stand as a token of a request line: it holds no space
/// and no line break.
pub open spec fn is_token(text: Seq<char>) -> bool {
    forall|i: int| 0 <= i < text.len() ==> text[i] != ' ' && text[i] != '\r' && text[i] != '\n'
}

/// The request line of `request`, without the line break that ends it: the three
/// tokens, a space between each two of them.
pub open spec fn request_line(request: RequestView) -> Seq<u8> {
    utf8(request.method) + seq![SPACE] + utf8(request.resource) + seq![SPACE] + utf8(
        request.http_version,
    )
}

/// The encoding of a token holds no space and no line break.
proof fn lemma_token_bytes(text: Seq<char>)
    requires
        is_token(text),
    ensures
        forall|i: int|
            0 <= i < utf8(text).len() ==> utf8(text)[i] != SPACE && utf8(text)[i] != CR && utf8(
                text,
            )[i] != LF,
{
    assert forall|j: int| 0 <= j < text.len() implies text[j] as u32 != SPACE as u32 && text[j] as u32
        != CR as u32 && text[j] as u32 != LF as u32 by {
        let code = text[j] as u32;
        if code == SPACE as u32 || code == CR as u32 || code == LF as u32 {
            char_u32_cast(text[j], code);
        }
    }
    lemma_utf8_lacks(text, SPACE);
    lemma_utf8_lacks(text, CR);
    lemma_utf8_lacks(text, LF);
}

/// Parsing reads back what was written: the request line of a request whose tokens
/// can stand in one, ended by a line break and followed by anything, is parsed as
/// that request.
pub proof fn lemma_parse_reads_request_line(request: RequestView, line_break: u8, rest: Seq<u8>)
    requires
        is_token(request.method),
        is_token(request.resource),
        is_token(request.http_version),
        line_break == CR || line_break == LF,
    ensures
        parse_request(request_line(request) + seq![line_break] + rest) == Ok::<
            RequestView,
            ResponseView,
        >(request),
{
    let method = utf8(request.method);
    let resource = utf8(request.resource);
    let version = utf8(request.http_version);
    let line = request_line(request);
    let buffer = line + seq![line_break] + rest;
    lemma_token_bytes(request.method);
    lemma_token_bytes(request.resource);
    lemma_token_bytes(request.http_version);
    let method_end = method.len() as int;
    let resource_end = method_end + 1 + resource.len();
    let line_end = line.len() as int;
    assert(line_end == resource_end + 1 + version.len());
    assert forall|j: int| 0 <= j < line_end implies !line_breaks().contains(buffer[j]) by {
        if j < method_end {
            assert(buffer[j] == method[j]);
        } else if j == method_end {
        } else if j < resource_end {
            assert(buffer[j] == resource[j - method_end - 1]);
        } else if j == resource_end {
        } else {
            assert(buffer[j] == version[j - resource_end - 1]);
        }
    }
    assert(buffer[line_end] == line_break);
    lemma_first_in_unique(buffer, 0, line_breaks(), line_end);
    assert(buffer.take(line_end) =~= line);
    assert forall|j: int| 0 <= j < method_end implies !spaces().contains(line[j]) by {
        assert(line[j] == method[j]);
    }
    assert(line[method_end] == SPACE);
    lemma_first_in_unique(line, 0, spaces(), method_end);
    assert forall|j: int| method_end + 1 <= j < resource_end implies !spaces().contains(
        line[j],
    ) by {
        assert(line[j] == resource[j - method_end - 1]);
    }
    assert(line[resource_end] == SPACE);
    lemma_first_in_unique(line, method_end + 1, spaces(), resource_end);
    assert(request_line_cuts(buffer) == Some((method_end, resource_end, line_end)));
    assert(buffer.subrange(0, method_end) =~= method);
    assert(buffer.subrange(method_end + 1, resource_end) =~= resource);
    assert(buffer.subrange(resource_end + 1, line_end) =~= version);
    encode_utf8_valid_utf8(request.method);
    encode_utf8_valid_utf8(request.resource);
    encode_utf8_valid_utf8(request.http_version);
    encode_utf8_decode_utf8(request.method);
    encode_utf8_decode_utf8(request.resource);
    encode_utf8_decode_utf8(request.http_version);
}

/// Turns a decoded token into the token's text, or the decoder's complaint into
/// the response that reports it.
pub fn accept_token(token: Token, decoded: Result<String, String>) -> (accepted: Result<
    String,
    Response,
>)
    ensures
        match decoded {
            Ok(text) => accepted matches Ok(kept) && kept@ == text@,
            Err(detail) => accepted matches Err(response) && response@ == malformed_token(
                token,
                detail@,
            ),
        },
{
    match decoded {
        Ok(text) => Ok(text),
        Err(detail) => {
            let mut message = match token {
                Token::Method => String::from_str("Malformed method name: "),
                Token::Resource => String::from_str("Malformed resource name: "),
                Token::Version => String::from_str("Malformed http version: "),
            };
            message.append(detail.as_str());
            Err(Response::new(400, message))
        },
    }
}

impl Request {
    /// Reads a request from the bytes that a connection delivered.
    ///
    /// Only the request line counts: whatever follows its line break is ignored. The
    /// tokens are taken as they stand, with no decoding of escapes and no folding of
    /// case. A buffer without a complete request line, or with a token that is no
    /// text, gives the response with status 400 that says so.
    pub fn parse(buffer: Box<[u8]>) -> (parsed: Result<Request, Response>)
        ensures
            match parsed {
                Ok(request) => parse_request(buffer@) == Ok::<RequestView, ResponseView>(
                    request@,
                ),
                Err(response) => parse_request(buffer@) == Err::<RequestView, ResponseView>(
                    response@,
                ),
            },
    {
        let bytes = buffer.into_vec();
        Request::from_bytes(bytes.as_slice())
    }

    /// Reads a request as `parse` does, from bytes that the caller keeps.
    pub fn from_bytes(buffer: &[u8]) -> (parsed: Result<Request, Response>)
        ensures
            match parsed {
                Ok(request) => parse_request(buffer@) == Ok::<RequestView, ResponseView>(
                    request@,
                ),
                Err(response) => parse_request(buffer@) == Err::<RequestView, ResponseView>(
                    response@,
                ),
            },
    {
        proof {
            lemma_cuts_in_order(buffer@);
        }
        match locate_request_line(buffer) {
            None => Err(Response::new(400, String::from_str("Malformed request line"))),
            Some((method_end, resource_end, line_end)) => {
                let method = accept_token(
                    Token::Method,
                    decode_text(slice_subrange(buffer, 0, method_end)),
                )?;
                let resource = accept_token(
                    Token::Resource,
                    decode_text(slice_subrange(buffer, method_end + 1, resource_end)),
                )?;
                let http_version = accept_token(
                    Token::Version,
                    decode_text(slice_subrange(buffer, resource_end + 1, line_end)),
                )?;
                Ok(Request { method, resource, http_version })
            },
        }
    }
}

} // verus!
