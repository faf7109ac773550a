use c20web::response::fill_placeholders;
use c20web::status::{code_is_success, reason_phrase, status_text};
use c20web::text::{decimal_string, str_eq};
use c20web::{Data, Response};

fn text(code: u16, body: &str) -> Response {
    Response { code, mime: String::from("text/html"), body: Data::Text(String::from(body)) }
}

#[test]
fn response_to_vec() {
    let body = String::from("<!DOCTYPE html><html lang='en'><head><meta charset='utf-8'><title>Hello</title></head><body><h1>Hello</h1><p>Greetings from Rust</p></body></html>").as_bytes().to_vec();
    let res = Response { code: 200, mime: String::from("text/html"), body: Data::Binary(body) };
    let out_vec = res.to_vec(None);

    let out_expected = b"HTTP/1.1 200 OK\r\nContent-Type: text/html;\r\nContent-Length: 146;\r\n\r\n<!DOCTYPE html><html lang='en'><head><meta charset='utf-8'><title>Hello</title></head><body><h1>Hello</h1><p>Greetings from Rust</p></body></html>".to_vec();
    assert_eq!(out_vec, out_expected);
}

#[test]
fn new_makes_an_html_text() {
    let method_name = "GE7";
    let out = Response::new(400, format!("Malformed method name: {}", method_name));
    assert_eq!(out.code, 400);
    assert_eq!(out.mime, String::from("text/html"));
    assert_eq!(out.body, Data::Text(String::from("Malformed method name: GE7")));
    assert_eq!(out.body.bytes(), String::from("Malformed method name: GE7").as_bytes().to_vec());
}

#[test]
fn to_vec_sends_a_text_as_it_is() {
    let response = Response {
        code: 200,
        mime: String::from("text/plain"),
        body: Data::Text(String::from("gr\u{fc}\u{df} {}")),
    };
    assert_eq!(
        response.to_vec(Some("unused {}")),
        "HTTP/1.1 200 OK\r\nContent-Type: text/plain;\r\nContent-Length: 9;\r\n\r\ngr\u{fc}\u{df} {}"
            .as_bytes()
            .to_vec()
    );
}

#[test]
fn to_vec_sends_bytes_as_they_are() {
    let response = Response {
        code: 206,
        mime: String::from("image/png"),
        body: Data::Binary(vec![0x89, 0x50, 0x4e, 0x47, 0x00, 0xff]),
    };
    let mut expected =
        b"HTTP/1.1 206 Partial Content\r\nContent-Type: image/png;\r\nContent-Length: 6;\r\n\r\n"
            .to_vec();
    expected.extend_from_slice(&[0x89, 0x50, 0x4e, 0x47, 0x00, 0xff]);
    assert_eq!(response.to_vec(None), expected);
}

#[test]
fn to_vec_sends_an_empty_body() {
    let response =
        Response { code: 204, mime: String::from("text/html"), body: Data::Binary(Vec::new()) };
    assert_eq!(
        response.to_vec(None),
        b"HTTP/1.1 204 No Content\r\nContent-Type: text/html;\r\nContent-Length: 0;\r\n\r\n".to_vec()
    );
}

#[test]
fn to_vec_names_an_unknown_success() {
    let response = Response { code: 299, mime: String::from("a/b"), body: Data::Text(String::from("x")) };
    assert_eq!(
        response.to_vec(None),
        b"HTTP/1.1 299 Unknown\r\nContent-Type: a/b;\r\nContent-Length: 1;\r\n\r\nx".to_vec()
    );
}

#[test]
fn to_vec_falls_back_to_the_built_in_page() {
    let response = text(404, "No such file");
    assert_eq!(
        response.to_vec(None),
        b"HTTP/1.1 404 Not Found\r\nContent-Type: text/html;\r\nContent-Length: 155;\r\n\r\n<!DOCTYPE html><html lang='en'><head><meta charset='utf-8'><title>404 Not Found</title></head><body><h1>404 Not Found</h1><p>No such file</p></body></html>".to_vec()
    );
}

#[test]
fn to_vec_renders_an_empty_detail() {
    let response = Response::new(413, String::from(""));
    assert_eq!(
        response.to_vec(None),
        b"HTTP/1.1 413 Payload Too Large\r\nContent-Type: text/html;\r\nContent-Length: 159;\r\n\r\n<!DOCTYPE html><html lang='en'><head><meta charset='utf-8'><title>413 Payload Too Large</title></head><body><h1>413 Payload Too Large</h1><p></p></body></html>".to_vec()
    );
}

#[test]
fn to_vec_fills_a_given_template() {
    let response = text(404, "gone");
    assert_eq!(
        response.to_vec(Some("<t>{}</t><h>{}</h><p>{}</p>")),
        b"HTTP/1.1 404 Not Found\r\nContent-Type: text/html;\r\nContent-Length: 51;\r\n\r\n<t>404 Not Found</t><h>404 Not Found</h><p>gone</p>".to_vec()
    );
}

#[test]
fn to_vec_has_the_same_shape_with_and_without_a_template() {
    let template = "<!DOCTYPE html><html lang='en'><head><meta charset='utf-8'><title>{}</title></head><body><h1>{}</h1><p>{}</p></body></html>";
    let response = text(505, "This server only speaks HTTP/1.1");
    assert_eq!(response.to_vec(Some(template)), response.to_vec(None));
}

#[test]
fn to_vec_leaves_a_fourth_placeholder() {
    let response = text(500, "d");
    let message = response.to_vec(Some("{}|{}|{}|{}"));
    assert!(message.ends_with(b"\r\n\r\n500 Internal Server Error|500 Internal Server Error|d|{}"));
}

#[test]
fn to_vec_fills_what_placeholders_there_are() {
    let response = text(400, "d");
    assert!(response.to_vec(Some("only {} one")).ends_with(b"\r\n\r\nonly 400 Bad Request one"));
    assert!(response.to_vec(Some("a{}b{}c")).ends_with(b"\r\n\r\na400 Bad Requestb400 Bad Requestc"));
    assert!(response.to_vec(Some("none {")).ends_with(b"Content-Length: 6;\r\n\r\nnone {"));
    assert!(response.to_vec(Some("")).ends_with(b"Content-Length: 0;\r\n\r\n"));
}

#[test]
fn to_vec_does_not_search_the_detail_again() {
    let response = text(404, "a {} b");
    assert_eq!(
        response.to_vec(None),
        b"HTTP/1.1 404 Not Found\r\nContent-Type: text/html;\r\nContent-Length: 149;\r\n\r\n<!DOCTYPE html><html lang='en'><head><meta charset='utf-8'><title>404 Not Found</title></head><body><h1>404 Not Found</h1><p>a {} b</p></body></html>".to_vec()
    );
}

#[test]
fn to_vec_replaces_a_binary_body_of_an_error() {
    let response =
        Response { code: 404, mime: String::from("image/png"), body: Data::Binary(vec![1, 2, 3]) };
    assert_eq!(
        response.to_vec(Some("[{}][{}][{}]")),
        b"HTTP/1.1 404 Not Found\r\nContent-Type: text/html;\r\nContent-Length: 32;\r\n\r\n[404 Not Found][404 Not Found][]".to_vec()
    );
}

#[test]
fn to_vec_serves_every_error_as_html() {
    let response =
        Response { code: 301, mime: String::from("text/css"), body: Data::Text(String::from("x")) };
    assert_eq!(
        response.to_vec(Some("{}")),
        b"HTTP/1.1 301 Moved Permanently\r\nContent-Type: text/html;\r\nContent-Length: 21;\r\n\r\n301 Moved Permanently".to_vec()
    );
    let early = Response { code: 199, mime: String::from("text/css"), body: Data::Text(String::new()) };
    assert!(early.to_vec(Some("{}")).starts_with(b"HTTP/1.1 199 Unknown\r\nContent-Type: text/html;\r\n"));
}

#[test]
fn to_vec_names_an_unknown_error() {
    let response = text(999, "x");
    assert_eq!(
        response.to_vec(None),
        b"HTTP/1.1 999 Unknown\r\nContent-Type: text/html;\r\nContent-Length: 140;\r\n\r\n<!DOCTYPE html><html lang='en'><head><meta charset='utf-8'><title>999 Unknown</title></head><body><h1>999 Unknown</h1><p>x</p></body></html>".to_vec()
    );
}

#[test]
fn to_vec_counts_bytes_not_characters() {
    let response = text(404, "h\u{e9}llo");
    let message = response.to_vec(Some("{}{}{}"));
    assert!(message.starts_with(b"HTTP/1.1 404 Not Found\r\nContent-Type: text/html;\r\nContent-Length: 32;\r\n\r\n"));
    assert!(message.ends_with("h\u{e9}llo".as_bytes()));
}

#[test]
fn to_vec_gives_the_same_bytes_twice() {
    let template = "<h1>{}</h1>{}<p>{}</p>";
    let response = text(404, "No such file or directory (os error 2)");
    assert_eq!(response.to_vec(Some(template)), response.to_vec(Some(template)));
    assert_eq!(response.to_vec(None), response.to_vec(None));
    let again = text(404, "No such file or directory (os error 2)");
    assert_eq!(response.to_vec(Some(template)), again.to_vec(Some(template)));
}

#[test]
fn fill_placeholders_replaces_from_the_left() {
    assert_eq!(fill_placeholders(b"a{}b{}c{}", b"XY", 2), b"aXYbXYc{}".to_vec());
    assert_eq!(fill_placeholders(b"{}{}", b"", 1), b"{}".to_vec());
    assert_eq!(fill_placeholders(b"{}", b"{}", 5), b"{}".to_vec());
    assert_eq!(fill_placeholders(b"{{}}", b"-", 5), b"{-}".to_vec());
    assert_eq!(fill_placeholders(b"{ } }{ {", b"-", 5), b"{ } }{ {".to_vec());
    assert_eq!(fill_placeholders(b"a{}", b"{}{}", 3), b"a{}{}".to_vec());
}

#[test]
fn fill_placeholders_leaves_the_rest() {
    assert_eq!(fill_placeholders(b"{}{}{}", b"1", 0), b"{}{}{}".to_vec());
    assert_eq!(fill_placeholders(b"", b"1", 3), b"".to_vec());
    assert_eq!(fill_placeholders(b"{", b"1", 3), b"{".to_vec());
    assert_eq!(fill_placeholders(b"}{", b"1", 3), b"}{".to_vec());
}

#[test]
fn data_gives_bytes_and_text() {
    let words = Data::Text(String::from("\u{20ac}1"));
    assert_eq!(words.bytes(), vec![0xe2, 0x82, 0xac, b'1']);
    assert_eq!(words.text(), "\u{20ac}1");
    let bytes = Data::Binary(vec![b'a', 0xff]);
    assert_eq!(bytes.bytes(), vec![b'a', 0xff]);
    assert_eq!(bytes.text(), "");
}

#[test]
fn status_table_names_the_served_codes() {
    assert_eq!(reason_phrase(200), Some("OK"));
    assert_eq!(reason_phrase(400), Some("Bad Request"));
    assert_eq!(reason_phrase(404), Some("Not Found"));
    assert_eq!(reason_phrase(413), Some("Payload Too Large"));
    assert_eq!(reason_phrase(501), Some("Not Implemented"));
    assert_eq!(reason_phrase(505), Some("HTTP Version Not Supported"));
    for code in [200u16, 400, 404, 413, 501, 505] {
        assert!(!status_text(code).ends_with("Unknown"));
    }
}

#[test]
fn status_table_covers_each_class() {
    assert_eq!(reason_phrase(100), Some("Continue"));
    assert_eq!(reason_phrase(226), Some("IM Used"));
    assert_eq!(reason_phrase(308), Some("Permanent Redirect"));
    assert_eq!(reason_phrase(418), Some("I'm a teapot"));
    assert_eq!(reason_phrase(451), Some("Unavailable For Legal Reasons"));
    assert_eq!(reason_phrase(511), Some("Network Authentication Required"));
}

#[test]
fn status_table_lacks_other_codes() {
    for code in [0u16, 99, 104, 209, 306, 419, 509, 512, 600, 999, u16::MAX] {
        assert_eq!(reason_phrase(code), None);
    }
}

#[test]
fn status_text_joins_code_and_reason() {
    assert_eq!(status_text(200), "200 OK");
    assert_eq!(status_text(404), "404 Not Found");
    assert_eq!(status_text(505), "505 HTTP Version Not Supported");
    assert_eq!(status_text(0), "0 Unknown");
    assert_eq!(status_text(65535), "65535 Unknown");
}

#[test]
fn success_is_from_200_to_299() {
    assert!(!code_is_success(0));
    assert!(!code_is_success(199));
    assert!(code_is_success(200));
    assert!(code_is_success(299));
    assert!(!code_is_success(300));
    assert!(!code_is_success(u16::MAX));
}

#[test]
fn decimal_string_writes_numerals() {
    assert_eq!(decimal_string(0), "0");
    assert_eq!(decimal_string(7), "7");
    assert_eq!(decimal_string(10), "10");
    assert_eq!(decimal_string(146), "146");
    assert_eq!(decimal_string(1002003), "1002003");
    assert_eq!(decimal_string(usize::MAX), usize::MAX.to_string());
}

#[test]
fn str_eq_tells_texts_apart() {
    assert!(str_eq("", ""));
    assert!(str_eq("GET", "GET"));
    assert!(!str_eq("GET", "get"));
    assert!(!str_eq("GET", "GET "));
    assert!(!str_eq("GE", "GET"));
    assert!(str_eq("h\u{e9}", "h\u{e9}"));
    assert!(!str_eq("h\u{e9}", "h\u{e8}"));
}
