//! The MIME table: the media type that goes with each known file extension.

use crate::text::str_eq;
use vstd::prelude::*;
use vstd::string::*;

verus! {

/// The media type that the table holds for `extension`, if it holds one. An
/// extension is written in lower case and without its dot; the match is exact.
pub open spec fn mime_of_extension(extension: Seq<char>) -> Option<Seq<char>> {
    if extension == "html"@ {
        Some("text/html"@)
    } else if extension == "htm"@ {
        Some("text/html"@)
    } else if extension == "css"@ {
        Some("text/css"@)
    } else if extension == "js"@ {
        Some("text/javascript"@)
    } else if extension == "json"@ {
        Some("application/json"@)
    } else if extension == "xml"@ {
        Some("application/xml"@)
    } else if extension == "txt"@ {
        Some("text/plain"@)
    } else if extension == "csv"@ {
        Some("text/csv"@)
    } else if extension == "png"@ {
        Some("image/png"@)
    } else if extension == "jpg"@ {
        Some("image/jpeg"@)
    } else if extension == "jpeg"@ {
        Some("image/jpeg"@)
    } else if extension == "gif"@ {
        Some("image/gif"@)
    } else if extension == "bmp"@ {
        Some("image/bmp"@)
    } else if extension == "ico"@ {
        Some("image/x-icon"@)
    } else if extension == "svg"@ {
        Some("image/svg+xml"@)
    } else if extension == "webp"@ {
        Some("image/webp"@)
    } else if extension == "pdf"@ {
        Some("application/pdf"@)
    } else if extension == "zip"@ {
        Some("application/zip"@)
    } else if extension == "gz"@ {
        Some("application/gzip"@)
    } else if extension == "tar"@ {
        Some("application/x-tar"@)
    } else if extension == "mp3"@ {
        Some("audio/mpeg"@)
    } else if extension == "wav"@ {
        Some("audio/wav"@)
    } else if extension == "ogg"@ {
        Some("audio/ogg"@)
    } else if extension == "mp4"@ {
        Some("video/mp4"@)
    } else if extension == "webm"@ {
        Some("video/webm"@)
    } else if extension == "woff"@ {
        Some("font/woff"@)
    } else if extension == "woff2"@ {
        Some("font/woff2"@)
    } else if extension == "ttf"@ {
        Some("font/ttf"@)
    } else if extension == "otf"@ {
        Some("font/otf"@)
    } else if extension == "wasm"@ {
        Some("application/wasm"@)
    } else {
        None
    }
}

/// The media type of a file whose extension the table lacks.
pub open spec fn default_mime() -> Seq<char> {
    "text/plain"@
}

/// The media type that a file with `extension` is served as.
pub open spec fn mime_or_default(extension: Seq<char>) -> Seq<char> {
    match mime_of_extension(extension) {
        Some(mime) => mime,
        None => default_mime(),
    }
}

/// Looks `extension` up in the MIME table.
pub fn lookup_mime(extension: &str) -> (mime: Option<&'static str>)
    ensures
        match mime {
            Some(text) => mime_of_extension(extension@) == Some(text@),
            None => mime_of_extension(extension@) is None,
        },
{
    if str_eq(extension, "html") {
        Some("text/html")
    } else if str_eq(extension, "htm") {
        Some("text/html")
    } else if str_eq(extension, "css") {
        Some("text/css")
    } else if str_eq(extension, "js") {
        Some("text/javascript")
    } else if str_eq(extension, "json") {
        Some("application/json")
    } else if str_eq(extension, "xml") {
        Some("application/xml")
    } else if str_eq(extension, "txt") {
        Some("text/plain")
    } else if str_eq(extension, "csv") {
        Some("text/csv")
    } else if str_eq(extension, "png") {
        Some("image/png")
    } else if str_eq(extension, "jpg") {
        Some("image/jpeg")
    } else if str_eq(extension, "jpeg") {
        Some("image/jpeg")
    } else if str_eq(extension, "gif") {
        Some("image/gif")
    } else if str_eq(extension, "bmp") {
        Some("image/bmp")
    } else if str_eq(extension, "ico") {
        Some("image/x-icon")
    } else if str_eq(extension, "svg") {
        Some("image/svg+xml")
    } else if str_eq(extension, "webp") {
        Some("image/webp")
    } else if str_eq(extension, "pdf") {
        Some("application/pdf")
    } else if str_eq(extension, "zip") {
        Some("application/zip")
    } else if str_eq(extension, "gz") {
        Some("application/gzip")
    } else if str_eq(extension, "tar") {
        Some("application/x-tar")
    } else if str_eq(extension, "mp3") {
        Some("audio/mpeg")
    } else if str_eq(extension, "wav") {
        Some("audio/wav")
    } else if str_eq(extension, "ogg") {
        Some("audio/ogg")
    } else if str_eq(extension, "mp4") {
        Some("video/mp4")
    } else if str_eq(extension, "webm") {
        Some("video/webm")
    } else if str_eq(extension, "woff") {
        Some("font/woff")
    } else if str_eq(extension, "woff2") {
        Some("font/woff2")
    } else if str_eq(extension, "ttf") {
        Some("font/ttf")
    } else if str_eq(extension, "otf") {
        Some("font/otf")
    } else if str_eq(extension, "wasm") {
        Some("application/wasm")
    } else {
        None
    }
}

/// The table knows no file without an extension: the empty extension has no media
/// type of its own.
pub proof fn lemma_empty_extension_is_unknown()
    ensures
        mime_of_extension(Seq::empty()) is None,
        mime_or_default(Seq::empty()) == default_mime(),
{
    if mime_of_extension(Seq::empty()) is Some {
        lemma_known_extensions_are_not_empty(Seq::empty());
    }
}

/// Every extension that the table knows holds at least one character.
pub proof fn lemma_known_extensions_are_not_empty(extension: Seq<char>)
    requires
        mime_of_extension(extension) is Some,
    ensures
        extension.len() > 0,
{
    reveal_strlit("html");
    reveal_strlit("htm");
    reveal_strlit("css");
    reveal_strlit("js");
    reveal_strlit("json");
    reveal_strlit("xml");
    reveal_strlit("txt");
    reveal_strlit("csv");
    reveal_strlit("png");
    reveal_strlit("jpg");
    reveal_strlit("jpeg");
    reveal_strlit("gif");
    reveal_strlit("bmp");
    reveal_strlit("ico");
    reveal_strlit("svg");
    reveal_strlit("webp");
    reveal_strlit("pdf");
    reveal_strlit("zip");
    reveal_strlit("gz");
    reveal_strlit("tar");
    reveal_strlit("mp3");
    reveal_strlit("wav");
    reveal_strlit("ogg");
    reveal_strlit("mp4");
    reveal_strlit("webm");
    reveal_strlit("woff");
    reveal_strlit("woff2");
    reveal_strlit("ttf");
    reveal_strlit("otf");
    reveal_strlit("wasm");
}

} // verus!
