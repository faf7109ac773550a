//! Responses: what a response holds and how it is written on the wire.

use crate::status::{
    code_is_success, is_success, lemma_status_text_has_no_brace, status_text, status_text_of,
};
use crate::text::{
    decimal, decimal_string, lemma_utf8_ascii, lemma_utf8_concat, lemma_utf8_lacks, utf8,
};
use vstd::prelude::*;
use vstd::slice::slice_to_vec;
use vstd::string::*;
use vstd::utf8::char_u32_cast;

verus! {

/// The body of a response: text, or bytes that are no text.
#[derive(Debug, PartialEq, Eq)]
pub enum Data {
    Binary(Vec<u8>),
    Text(String),
}

/// What a `Data` stands for.
pub enum DataView {
    Binary(Seq<u8>),
    Text(Seq<char>),
}

impl View for Data {
    type V = DataView;

    open spec fn view(&self) -> DataView {
        match self {
            Data::Binary(bytes) => DataView::Binary(bytes@),
            Data::Text(text) => DataView::Text(text@),
        }
    }
}

/// An HTTP response before it is written out.
#[derive(Debug, PartialEq, Eq)]
pub struct Response {
    pub code: u16,
    pub mime: String,
    pub body: Data,
}

/// What a `Response` stands for.
pub struct ResponseView {
    pub code: u16,
    pub mime: Seq<char>,
    pub body: DataView,
}

impl View for Response {
    type V = ResponseView;

    open spec fn view(&self) -> ResponseView {
        ResponseView { code: self.code, mime: self.mime@, body: self.body@ }
    }
}

/// The media type of a response that is made from a text alone, and of every
/// error page.
pub open spec fn html_mime() -> Seq<char> {
    "text/html"@
}

/// The response with status `code` whose body is `text`, served as HTML.
pub open spec fn text_response(code: u16, text: Seq<char>) -> ResponseView {
    ResponseView { code, mime: html_mime(), body: DataView::Text(text) }
}

/// The opening brace, with which a placeholder begins.
pub const OPEN: u8 = 0x7b;

/// The closing brace, with which a placeholder ends.
pub const CLOSE: u8 = 0x7d;

/// `template` with its first `count` placeholders, from the left, replaced by
/// `with`. A placeholder is an opening brace with a closing brace right behind it.
/// What was put in is not searched again.
pub open spec fn fill(template: Seq<u8>, with: Seq<u8>, count: nat) -> Seq<u8>
    decreases template.len(),
{
    if count == 0 || template.len() < 2 {
        template
    } else if template[0] == OPEN && template[1] == CLOSE {
        with + fill(template.skip(2), with, (count - 1) as nat)
    } else {
        seq![template[0]] + fill(template.skip(1), with, count)
    }
}

/// The error page that is built in, for use where no other is at hand.
pub open spec fn default_error_page() -> Seq<char> {
    "<!DOCTYPE html><html lang='en'><head><meta charset='utf-8'><title>{}</title></head><body><h1>{}</h1><p>{}</p></body></html>"@
}

/// The template of the error page: the one given, or the one that is built in.
pub open spec fn error_page_template(given: Option<Seq<char>>) -> Seq<char> {
    match given {
        Some(template) => template,
        None => default_error_page(),
    }
}

/// The error page made from `template`: its first two placeholders filled with
/// `status`, and then the first placeholder of the result filled with `detail`.
pub open spec fn render_error_page(
    template: Seq<char>,
    status: Seq<char>,
    detail: Seq<char>,
) -> Seq<u8> {
    fill(fill(utf8(template), utf8(status), 2), utf8(detail), 1)
}

/// The bytes of a body.
pub open spec fn body_bytes(body: DataView) -> Seq<u8> {
    match body {
        DataView::Binary(bytes) => bytes,
        DataView::Text(text) => utf8(text),
    }
}

/// The text of a body; a body that is no text has the empty text.
pub open spec fn body_text(body: DataView) -> Seq<char> {
    match body {
        DataView::Binary(_) => Seq::empty(),
        DataView::Text(text) => text,
    }
}

/// The body that is sent for `response`: its own where the status announces
/// success, else the error page, rendered from `template` with the status text
/// and the text of the response's body.
pub open spec fn sent_body(response: ResponseView, template: Option<Seq<char>>) -> Seq<u8> {
    if is_success(response.code) {
        body_bytes(response.body)
    } else {
        render_error_page(
            error_page_template(template),
            status_text_of(response.code),
            body_text(response.body),
        )
    }
}

/// The media type that is sent for `response`: its own where the status announces
/// success, else that of the error page.
pub open spec fn sent_mime(response: ResponseView) -> Seq<char> {
    if is_success(response.code) {
        response.mime
    } else {
        html_mime()
    }
}

/// The status line and the two headers of a message, with the blank line that
/// ends them. Each header value is followed by a semicolon.
pub open spec fn message_head(status: Seq<char>, mime: Seq<char>, length: nat) -> Seq<char> {
    "HTTP/1.1 "@ + status + "\r\nContent-Type: "@ + mime + ";\r\nContent-Length: "@ + decimal(
        length,
    ) + ";\r\n\r\n"@
}

/// The bytes that go on the wire for `response`, with `template` for the error page.
pub open spec fn wire_format(response: ResponseView, template: Option<Seq<char>>) -> Seq<u8> {
    let body = sent_body(response, template);
    utf8(message_head(status_text_of(response.code), sent_mime(response), body.len())) + body
}

/// Replaces the first `count` placeholders of `template` by `with`.
pub fn fill_placeholders(template: &[u8], with: &[u8], count: usize) -> (filled: Vec<u8>)
    ensures
        filled@ == fill(template@, with@, count as nat),
{
    let mut filled: Vec<u8> = Vec::new();
    let mut left: usize = count;
    let mut index: usize = 0;
    proof {
        assert(template@.skip(0) =~= template@);
        assert(filled@ + template@ =~= template@);
    }
    while index < template.len()
        invariant
            index <= template.len(),
            filled@ + fill(template@.skip(index as int), with@, left as nat) == fill(
                template@,
                with@,
                count as nat,
            ),
        decreases template.len() - index,
    {
        let ghost rest = template@.skip(index as int);
        if left > 0 && index + 1 < template.len() && template[index] == OPEN && template[index + 1]
            == CLOSE {
            proof {
                assert(rest.skip(2) =~= template@.skip(index + 2));
                assert((filled@ + with@) + fill(rest.skip(2), with@, (left - 1) as nat) =~= filled@
                    + (with@ + fill(rest.skip(2), with@, (left - 1) as nat)));
            }
            filled.extend_from_slice(with);
            left = left - 1;
            index = index + 2;
        } else {
            proof {
                assert(rest.skip(1) =~= template@.skip(index + 1));
                if left > 0 && rest.len() >= 2 {
                    assert(filled@.push(template@[index as int]) + fill(
                        rest.skip(1),
                        with@,
                        left as nat,
                    ) =~= filled@ + (seq![rest[0]] + fill(rest.skip(1), with@, left as nat)));
                } else {
                    assert(filled@.push(template@[index as int]) + fill(
                        rest.skip(1),
                        with@,
                        left as nat,
                    ) =~= filled@ + rest) by {
                        lemma_fill_nothing(rest.skip(1), with@, left as nat);
                    }
                }
            }
            filled.push(template[index]);
            index = index + 1;
        }
    }
    proof {
        assert(template@.skip(index as int) =~= Seq::<u8>::empty());
        assert(filled@ + Seq::<u8>::empty() =~= filled@);
    }
    filled
}

/// Where nothing is left to fill, or too little is left to hold a placeholder,
/// the template stays as it is.
pub proof fn lemma_fill_nothing(template: Seq<u8>, with: Seq<u8>, count: nat)
    requires
        count == 0 || template.len() < 2,
    ensures
        fill(template, with, count) == template,
{
}

/// The placeholder of a template, as it stands in the template's bytes.
pub open spec fn placeholder() -> Seq<u8> {
    seq![OPEN, CLOSE]
}

/// True of bytes among which no opening brace stands.
pub open spec fn brace_free(bytes: Seq<u8>) -> bool {
    forall|i: int| 0 <= i < bytes.len() ==> bytes[i] != OPEN
}

/// True of a text in which no opening brace stands.
pub open spec fn has_no_brace(text: Seq<char>) -> bool {
    forall|i: int| 0 <= i < text.len() ==> text[i] != '{'
}

/// Filling passes over what holds no opening brace.
proof fn lemma_fill_passes(plain: Seq<u8>, rest: Seq<u8>, with: Seq<u8>, count: nat)
    requires
        brace_free(plain),
    ensures
        fill(plain + rest, with, count) == plain + fill(rest, with, count),
    decreases plain.len(),
{
    let whole = plain + rest;
    if plain.len() == 0 {
        assert(whole =~= rest);
        assert(plain + fill(rest, with, count) =~= fill(rest, with, count));
    } else if count == 0 {
    } else if whole.len() < 2 {
        assert(rest =~= Seq::<u8>::empty());
    } else {
        assert(whole[0] == plain[0]);
        assert(whole.skip(1) =~= plain.skip(1) + rest);
        lemma_fill_passes(plain.skip(1), rest, with, count);
        assert(seq![whole[0]] + (plain.skip(1) + fill(rest, with, count)) =~= plain + fill(
            rest,
            with,
            count,
        ));
    }
}

/// A placeholder at the front is filled, if any is left to fill.
proof fn lemma_fill_takes(rest: Seq<u8>, with: Seq<u8>, count: nat)
    requires
        count > 0,
    ensures
        fill(placeholder() + rest, with, count) == with + fill(rest, with, (count - 1) as nat),
{
    assert((placeholder() + rest).skip(2) =~= rest);
}

/// Filling a template that holds three placeholders, with no opening brace before
/// the third nor in what the first two are filled with: the three stand for the
/// first filling, the first filling again, and the second filling.
proof fn lemma_fill_three(
    before: Seq<u8>,
    between: Seq<u8>,
    ahead: Seq<u8>,
    after: Seq<u8>,
    status: Seq<u8>,
    detail: Seq<u8>,
)
    requires
        brace_free(before),
        brace_free(between),
        brace_free(ahead),
        brace_free(status),
    ensures
        fill(
            fill(
                before + placeholder() + between + placeholder() + ahead + placeholder() + after,
                status,
                2,
            ),
            detail,
            1,
        ) == before + status + between + status + ahead + detail + after,
{
    let hole = placeholder();
    let last = hole + after;
    let template = before + hole + between + hole + ahead + hole + after;
    assert(template =~= before + (hole + (between + (hole + (ahead + last)))));
    lemma_fill_passes(before, hole + (between + (hole + (ahead + last))), status, 2);
    lemma_fill_takes(between + (hole + (ahead + last)), status, 2);
    lemma_fill_passes(between, hole + (ahead + last), status, 1);
    lemma_fill_takes(ahead + last, status, 1);
    let titled = before + (status + (between + (status + (ahead + last))));
    assert(fill(template, status, 2) == titled);
    let front = before + status + between + status + ahead;
    assert(brace_free(front));
    assert(titled =~= front + last);
    lemma_fill_passes(front, last, detail, 1);
    lemma_fill_takes(after, detail, 1);
    assert(front + (detail + after) =~= before + status + between + status + ahead + detail
        + after);
}

/// The text of a placeholder is encoded as the placeholder.
proof fn lemma_placeholder_text()
    ensures
        utf8("{}"@) == placeholder(),
{
    reveal_strlit("{}");
    lemma_utf8_ascii("{}"@);
    assert(utf8("{}"@) =~= placeholder());
}

/// A text in which no opening brace stands is encoded without one.
proof fn lemma_brace_free(text: Seq<char>)
    requires
        has_no_brace(text),
    ensures
        brace_free(utf8(text)),
{
    assert forall|j: int| 0 <= j < text.len() implies text[j] as u32 != OPEN as u32 by {
        if text[j] as u32 == OPEN as u32 {
            char_u32_cast(text[j], OPEN as u32);
            assert(text[j] == '{');
        }
    }
    lemma_utf8_lacks(text, OPEN);
}

/// The encoding of seven texts in a row is their encodings in a row.
proof fn lemma_utf8_seven(
    a: Seq<char>,
    b: Seq<char>,
    c: Seq<char>,
    d: Seq<char>,
    e: Seq<char>,
    f: Seq<char>,
    g: Seq<char>,
)
    ensures
        utf8(a + b + c + d + e + f + g) == utf8(a) + utf8(b) + utf8(c) + utf8(d) + utf8(e) + utf8(
            f,
        ) + utf8(g),
{
    lemma_utf8_concat(a, b);
    lemma_utf8_concat(a + b, c);
    lemma_utf8_concat(a + b + c, d);
    lemma_utf8_concat(a + b + c + d, e);
    lemma_utf8_concat(a + b + c + d + e, f);
    lemma_utf8_concat(a + b + c + d + e + f, g);
}

/// An error page keeps the shape of its template. Where the template holds three
/// placeholders and no opening brace before the third, and the status text holds
/// none, the page is the template with the status text in place of the first and of
/// the second placeholder, and the detail in place of the third.
pub proof fn lemma_error_page_layout(
    before: Seq<char>,
    between: Seq<char>,
    ahead: Seq<char>,
    after: Seq<char>,
    status: Seq<char>,
    detail: Seq<char>,
)
    requires
        has_no_brace(before),
        has_no_brace(between),
        has_no_brace(ahead),
        has_no_brace(status),
    ensures
        render_error_page(
            before + "{}"@ + between + "{}"@ + ahead + "{}"@ + after,
            status,
            detail,
        ) == utf8(before + status + between + status + ahead + detail + after),
{
    lemma_placeholder_text();
    lemma_brace_free(before);
    lemma_brace_free(between);
    lemma_brace_free(ahead);
    lemma_brace_free(status);
    lemma_utf8_seven(before, "{}"@, between, "{}"@, ahead, "{}"@, after);
    lemma_utf8_seven(before, status, between, status, ahead, detail, after);
    lemma_fill_three(
        utf8(before),
        utf8(between),
        utf8(ahead),
        utf8(after),
        utf8(status),
        utf8(detail),
    );
}

/// The page that is built in has the shape of such a template: a title and a
/// heading, which show the status text, and a paragraph, which shows the detail.
pub proof fn lemma_default_error_page(status: Seq<char>, detail: Seq<char>)
    requires
        has_no_brace(status),
    ensures
        render_error_page(default_error_page(), status, detail) == utf8(
            "<!DOCTYPE html><html lang='en'><head><meta charset='utf-8'><title>"@ + status
                + "</title></head><body><h1>"@ + status + "</h1><p>"@ + detail
                + "</p></body></html>"@,
        ),
{
    let before = "<!DOCTYPE html><html lang='en'><head><meta charset='utf-8'><title>"@;
    let between = "</title></head><body><h1>"@;
    let ahead = "</h1><p>"@;
    let after = "</p></body></html>"@;
    reveal_strlit("<!DOCTYPE html><html lang='en'><head><meta charset='utf-8'><title>");
    reveal_strlit("</title></head><body><h1>");
    reveal_strlit("</h1><p>");
    reveal_strlit("</p></body></html>");
    reveal_strlit("{}");
    reveal_strlit(
        "<!DOCTYPE html><html lang='en'><head><meta charset='utf-8'><title>{}</title></head><body><h1>{}</h1><p>{}</p></body></html>",
    );
    assert(default_error_page() =~= before + "{}"@ + between + "{}"@ + ahead + "{}"@ + after);
    lemma_error_page_layout(before, between, ahead, after, status, detail);
}

/// Without a template at hand, the body that is sent for an error still shows the
/// status text and the text of the response's body, each where a template shows it:
/// the status text as title and as heading, the text as paragraph.
pub proof fn lemma_fallback_page(response: ResponseView)
    requires
        !is_success(response.code),
    ensures
        sent_body(response, None) == utf8(
            "<!DOCTYPE html><html lang='en'><head><meta charset='utf-8'><title>"@ + status_text_of(
                response.code,
            ) + "</title></head><body><h1>"@ + status_text_of(response.code) + "</h1><p>"@
                + body_text(response.body) + "</p></body></html>"@,
        ),
{
    lemma_status_text_has_no_brace(response.code);
    lemma_default_error_page(status_text_of(response.code), body_text(response.body));
}

/// A response with status 200 is sent as it is: the status line `HTTP/1.1 200 OK`,
/// its media type, the number of its bytes, and its bytes.
pub proof fn lemma_ok_message(mime: Seq<char>, body: DataView, template: Option<Seq<char>>)
    ensures
        wire_format(ResponseView { code: 200, mime, body }, template) == utf8(
            "HTTP/1.1 200 OK\r\nContent-Type: "@ + mime + ";\r\nContent-Length: "@ + decimal(
                body_bytes(body).len(),
            ) + ";\r\n\r\n"@,
        ) + body_bytes(body),
{
    reveal_strlit("HTTP/1.1 ");
    reveal_strlit("OK");
    reveal_strlit("\r\nContent-Type: ");
    reveal_strlit("HTTP/1.1 200 OK\r\nContent-Type: ");
    reveal_with_fuel(decimal, 3);
    assert(decimal(200) =~= seq!['2', '0', '0']);
    assert("HTTP/1.1 "@ + status_text_of(200) + "\r\nContent-Type: "@
        =~= "HTTP/1.1 200 OK\r\nContent-Type: "@);
}

/// What is sent depends on the response and on the template alone: the same
/// response, written out twice with the same template, gives the same bytes.
pub proof fn lemma_same_message(first: Response, second: Response, template: Option<Seq<char>>)
    requires
        first@ == second@,
    ensures
        wire_format(first@, template) == wire_format(second@, template),
{
}

/// A response that announces success is sent without a look at the template.
pub proof fn lemma_success_needs_no_template(
    response: ResponseView,
    one: Option<Seq<char>>,
    other: Option<Seq<char>>,
)
    requires
        is_success(response.code),
    ensures
        wire_format(response, one) == wire_format(response, other),
{
}

impl Data {
    /// The bytes of this body.
    pub fn bytes(&self) -> (bytes: Vec<u8>)
        ensures
            bytes@ == body_bytes(self@),
    {
        match self {
            Data::Binary(bytes) => slice_to_vec(bytes.as_slice()),
            Data::Text(text) => text.as_str().as_bytes_vec(),
        }
    }

    /// The text of this body, which is empty where the body is no text.
    pub fn text(&self) -> (text: &str)
        ensures
            text@ == body_text(self@),
    {
        proof {
            reveal_strlit("");
            assert(""@ =~= Seq::<char>::empty());
        }
        match self {
            Data::Binary(_) => "",
            Data::Text(text) => text.as_str(),
        }
    }
}

impl Response {
    /// A response with status `code` and the text `body`, served as `text/html`.
    pub fn new(code: u16, body: String) -> (response: Response)
        ensures
            response@ == text_response(code, body@),
    {
        Response { code, mime: String::from_str("text/html"), body: Data::Text(body) }
    }

    /// Writes this response out as a complete HTTP message.
    ///
    /// The status line shows the code with its reason phrase. A response whose code
    /// announces success is sent with its own media type and body. Any other is sent
    /// as an error page: `error_page`, or the page that is built in where none is
    /// given, with the status text in its first two placeholders and the text of the
    /// body in its third. `Content-Length` counts the bytes that are sent.
    pub fn to_vec(&self, error_page: Option<&str>) -> (message: Vec<u8>)
        ensures
            message@ == wire_format(
                self@,
                match error_page {
                    Some(template) => Some(template@),
                    None => None,
                },
            ),
    {
        let status = status_text(self.code);
        let success = code_is_success(self.code);
        let mut body: Vec<u8> = if success {
            self.body.bytes()
        } else {
            let template = match error_page {
                Some(template) => template,
                None => "<!DOCTYPE html><html lang='en'><head><meta charset='utf-8'><title>{}</title></head><body><h1>{}</h1><p>{}</p></body></html>",
            };
            let titled = fill_placeholders(template.as_bytes(), status.as_str().as_bytes(), 2);
            fill_placeholders(titled.as_slice(), self.body.text().as_bytes(), 1)
        };
        let mut head = String::from_str("HTTP/1.1 ");
        head.append(status.as_str());
        head.append("\r\nContent-Type: ");
        if success {
            head.append(self.mime.as_str());
        } else {
            head.append("text/html");
        }
        head.append(";\r\nContent-Length: ");
        head.append(decimal_string(body.len()).as_str());
        head.append(";\r\n\r\n");
        let mut message = head.as_str().as_bytes_vec();
        message.append(&mut body);
        message
    }
}

} // verus!
