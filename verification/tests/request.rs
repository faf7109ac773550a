use c20web::request::{accept_token, locate_request_line, Token};
use c20web::{Data, Request, Response};

fn boxed(bytes: &[u8]) -> Box<[u8]> {
    bytes.to_vec().into_boxed_slice()
}

fn refusal(bytes: &[u8]) -> Response {
    match Request::parse(boxed(bytes)) {
        Ok(request) => panic!("parsed as {:?}", request),
        Err(response) => response,
    }
}

fn bad_request(text: &str) -> Response {
    Response { code: 400, mime: String::from("text/html"), body: Data::Text(String::from(text)) }
}

#[test]
fn parse_request() {
    let req_string = Box::new(b"GET /hello.htm HTTP/1.1\r\nUser-Agent: Mozilla/4.0 (compatible; MSIE5.01; Windows NT)\r\nHost: 127.0.0.1:8000\r\n\r\n".to_owned());
    let request = Request::parse(req_string);
    match request {
        Ok(req) => {
            assert_eq!(req.method, "GET");
            assert_eq!(req.resource, "/hello.htm");
            assert_eq!(req.http_version, "HTTP/1.1");
        }
        Err(_) => assert!(false),
    }
}

#[test]
fn parse_stops_at_a_bare_line_feed() {
    let request = Request::parse(boxed(b"GET /a HTTP/1.1\nX: y z\n")).unwrap();
    assert_eq!(request.method, "GET");
    assert_eq!(request.resource, "/a");
    assert_eq!(request.http_version, "HTTP/1.1");
}

#[test]
fn parse_ignores_what_follows_the_line() {
    let short = Request::parse(boxed(b"GET /a HTTP/1.1\r")).unwrap();
    let long = Request::parse(boxed(b"GET /a HTTP/1.1\r\n\xff\xfe  \r\n garbage")).unwrap();
    assert_eq!(short, long);
}

#[test]
fn parse_accepts_a_buffer_padded_with_zeros() {
    let mut buffer = vec![0u8; 64];
    buffer[..18].copy_from_slice(b"GET /x HTTP/1.1\r\n\r");
    let request = Request::parse(buffer.into_boxed_slice()).unwrap();
    assert_eq!(request.resource, "/x");
}

#[test]
fn parse_keeps_tokens_as_they_stand() {
    let request = Request::parse(boxed(b"get /A%20b?c=%7B http/1.1\r\n")).unwrap();
    assert_eq!(request.method, "get");
    assert_eq!(request.resource, "/A%20b?c=%7B");
    assert_eq!(request.http_version, "http/1.1");
}

#[test]
fn parse_decodes_text_beyond_ascii() {
    let request = Request::parse(boxed("GET /caf\u{e9}/\u{1f600} HTTP/1.1\r\n".as_bytes())).unwrap();
    assert_eq!(request.resource, "/caf\u{e9}/\u{1f600}");
}

#[test]
fn parse_takes_further_spaces_into_the_version() {
    let request = Request::parse(boxed(b"GET /a b HTTP/1.1\r\n")).unwrap();
    assert_eq!(request.method, "GET");
    assert_eq!(request.resource, "/a");
    assert_eq!(request.http_version, "b HTTP/1.1");
}

#[test]
fn parse_allows_empty_resource_and_version() {
    let request = Request::parse(boxed(b"GET  \r\n")).unwrap();
    assert_eq!(request.method, "GET");
    assert_eq!(request.resource, "");
    assert_eq!(request.http_version, "");
}

#[test]
fn parse_cuts_at_the_first_space_wherever_it_is() {
    let request = Request::parse(boxed(b" GET / HTTP/1.1\r\n")).unwrap();
    assert_eq!(request.method, "");
    assert_eq!(request.resource, "GET");
    assert_eq!(request.http_version, "/ HTTP/1.1");
    let request = Request::parse(boxed(b" GET /a\r\n")).unwrap();
    assert_eq!(request.method, "");
    assert_eq!(request.resource, "GET");
    assert_eq!(request.http_version, "/a");
    let request = Request::parse(boxed(b"  \n")).unwrap();
    assert_eq!(request.method, "");
    assert_eq!(request.resource, "");
    assert_eq!(request.http_version, "");
    assert_eq!(refusal(b" GET\r\n"), bad_request("Malformed request line"));
    assert_eq!(refusal(b" \r\n"), bad_request("Malformed request line"));
}

#[test]
fn parse_gives_a_method_without_spaces() {
    let buffers: [&[u8]; 6] = [
        b"GET / HTTP/1.1\r\n",
        b" GET / HTTP/1.1\r\n",
        b"G E T\n",
        b"a  b\r",
        b"   \n",
        b"POST /x y z\n",
    ];
    for buffer in buffers {
        let request = Request::parse(boxed(buffer)).unwrap();
        let first = buffer.iter().position(|byte| *byte == b' ').unwrap();
        assert_eq!(request.method.as_bytes(), &buffer[..first]);
        assert!(!request.method.contains(' '));
    }
}

#[test]
fn parse_refuses_a_line_without_spaces() {
    let response = refusal(b"GET/hello.htmHTTP/1.1\r\nHost: a b c\r\n");
    assert_eq!(response.code, 400);
    assert_eq!(response, bad_request("Malformed request line"));
}

#[test]
fn parse_refuses_a_line_with_one_space() {
    assert_eq!(refusal(b"GET /hello.htm\r\nHost: a b\r\n"), bad_request("Malformed request line"));
}

#[test]
fn parse_refuses_a_buffer_without_line_break() {
    assert_eq!(refusal(b"GET /hello.htm HTTP/1.1"), bad_request("Malformed request line"));
    assert_eq!(refusal(&[b'a'; 100]), bad_request("Malformed request line"));
}

#[test]
fn parse_refuses_an_empty_line_and_an_empty_buffer() {
    assert_eq!(refusal(b"\r\nGET / HTTP/1.1\r\n"), bad_request("Malformed request line"));
    assert_eq!(refusal(b""), bad_request("Malformed request line"));
}

#[test]
fn parse_reports_a_method_that_is_no_text() {
    let response = refusal(b"G\xffT /a HTTP/1.1\r\n");
    assert_eq!(
        response,
        bad_request("Malformed method name: invalid utf-8 sequence of 1 bytes from index 1")
    );
}

#[test]
fn parse_reports_a_resource_that_is_no_text() {
    let response = refusal(b"GET /\xc3 HTTP/1.1\r\n");
    assert_eq!(
        response,
        bad_request("Malformed resource name: incomplete utf-8 byte sequence from index 1")
    );
}

#[test]
fn parse_reports_a_version_that_is_no_text() {
    let response = refusal(b"GET /a HTTP\xed\xa0\x80\r\n");
    assert_eq!(
        response,
        bad_request("Malformed http version: invalid utf-8 sequence of 1 bytes from index 4")
    );
}

#[test]
fn parse_reports_the_first_token_that_is_no_text() {
    let response = refusal(b"\xff \xff \xff\n");
    assert_eq!(
        response,
        bad_request("Malformed method name: invalid utf-8 sequence of 1 bytes from index 0")
    );
}

#[test]
fn parse_reports_what_the_decoder_says() {
    let token: &[u8] = b"ab\xf0\x9f\x98";
    let said = std::str::from_utf8(token).unwrap_err().to_string();
    let mut line = b"GET ".to_vec();
    line.extend_from_slice(token);
    line.extend_from_slice(b" HTTP/1.1\r\n");
    assert_eq!(refusal(&line), bad_request(&format!("Malformed resource name: {}", said)));
}

#[test]
fn from_bytes_reads_as_parse_does() {
    let line: &[u8] = b"HEAD /index.html HTTP/1.0\r\n";
    assert_eq!(Request::from_bytes(line), Request::parse(boxed(line)));
    let broken: &[u8] = b"HEAD\r\n";
    assert_eq!(Request::from_bytes(broken), Request::parse(boxed(broken)));
}

#[test]
fn locate_request_line_finds_the_three_cuts() {
    assert_eq!(locate_request_line(b"GET /hello.htm HTTP/1.1\r\nrest"), Some((3, 14, 23)));
    assert_eq!(locate_request_line(b"a b c\n"), Some((1, 3, 5)));
    assert_eq!(locate_request_line(b"a  \n"), Some((1, 2, 3)));
    assert_eq!(locate_request_line(b" a b c\n"), Some((0, 2, 6)));
    assert_eq!(locate_request_line(b"  \n"), Some((0, 1, 2)));
    assert_eq!(locate_request_line(b" a b\n"), Some((0, 2, 4)));
    assert_eq!(locate_request_line(b"a b c d\r"), Some((1, 3, 7)));
}

#[test]
fn locate_request_line_finds_no_cuts() {
    assert_eq!(locate_request_line(b""), None);
    assert_eq!(locate_request_line(b"\n"), None);
    assert_eq!(locate_request_line(b"a b c"), None);
    assert_eq!(locate_request_line(b"a b\nc d e\n"), None);
    assert_eq!(locate_request_line(b"abc\n d e f\n"), None);
    assert_eq!(locate_request_line(b" \n"), None);
    assert_eq!(locate_request_line(b" ab\n"), None);
    assert_eq!(locate_request_line(b"\n  a b"), None);
}

#[test]
fn accept_token_keeps_a_text() {
    assert_eq!(accept_token(Token::Method, Ok(String::from("GET"))), Ok(String::from("GET")));
    assert_eq!(accept_token(Token::Version, Ok(String::new())), Ok(String::new()));
}

#[test]
fn accept_token_names_the_token() {
    assert_eq!(
        accept_token(Token::Method, Err(String::from("broken"))),
        Err(bad_request("Malformed method name: broken"))
    );
    assert_eq!(
        accept_token(Token::Resource, Err(String::from("broken"))),
        Err(bad_request("Malformed resource name: broken"))
    );
    assert_eq!(
        accept_token(Token::Version, Err(String::new())),
        Err(bad_request("Malformed http version: "))
    );
}
