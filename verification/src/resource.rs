//! Resources: the path that a request names, the file it stands for and the media
//! type of that file.

use crate::mime::{default_mime, lemma_empty_extension_is_unknown, lookup_mime, mime_or_default};
use vstd::prelude::*;
use vstd::string::*;

verus! {

/// The separator of the segments of a path.
pub const SEPARATOR: char = '/';

/// The dot that sets off the extension in a file name.
pub const DOT: char = '.';

/// What is left of `resource` once its leading separator is taken off: a resource
/// that begins with a separator loses that one, and no other; one that does not
/// begin with a separator is kept whole.
pub open spec fn without_leading_separator(resource: Seq<char>) -> Seq<char> {
    if resource.len() > 0 && resource[0] == SEPARATOR {
        resource.skip(1)
    } else {
        resource
    }
}

/// The path of the file that `resource` stands for under `webroot`: the web root, a
/// separator, and the resource without its leading separator. Nothing is made of
/// `..` segments, nor of further separators.
pub open spec fn filesystem_path(resource: Seq<char>, webroot: Seq<char>) -> Seq<char> {
    webroot + seq![SEPARATOR] + without_leading_separator(resource)
}

/// The last segment of `path`: what follows its last separator, or all of it where
/// it holds none.
pub open spec fn final_segment(path: Seq<char>) -> Seq<char> {
    match path.index_of_last(SEPARATOR) {
        Some(at) => path.skip(at + 1),
        None => path,
    }
}

/// The extension of the file that `path` names: what follows the last dot of its
/// last segment, or the empty text where that segment holds no dot.
pub open spec fn extension_of(path: Seq<char>) -> Seq<char> {
    let segment = final_segment(path);
    match segment.index_of_last(DOT) {
        Some(at) => segment.skip(at + 1),
        None => Seq::empty(),
    }
}

/// The media type under which the file that `path` names is served.
pub open spec fn mime_of(path: Seq<char>) -> Seq<char> {
    mime_or_default(extension_of(path))
}

/// A resource that begins with a separator lies, under the web root, at what follows
/// that separator; any other lies there under its own name, with every separator
/// that it holds.
pub proof fn lemma_only_a_leading_separator_is_dropped(resource: Seq<char>, webroot: Seq<char>)
    ensures
        filesystem_path(seq![SEPARATOR] + resource, webroot) == webroot + seq![SEPARATOR]
            + resource,
        resource.len() == 0 || resource[0] != SEPARATOR ==> filesystem_path(resource, webroot)
            == webroot + seq![SEPARATOR] + resource,
{
    assert((seq![SEPARATOR] + resource).skip(1) =~= resource);
}

/// The last segment of a path is the name behind its last separator: a name that
/// holds no separator is the last segment of itself, and of itself behind any
/// directory.
pub proof fn lemma_final_segment(directory: Seq<char>, name: Seq<char>)
    requires
        !name.contains(SEPARATOR),
    ensures
        final_segment(name) == name,
        final_segment(directory + seq![SEPARATOR] + name) == name,
{
    name.index_of_last_ensures(SEPARATOR);
    let path = directory + seq![SEPARATOR] + name;
    path.index_of_last_ensures(SEPARATOR);
    let at = directory.len() as int;
    assert(path[at] == SEPARATOR);
    assert forall|j: int| at < j < path.len() implies path[j] != SEPARATOR by {
        assert(path[j] == name[j - at - 1]);
    }
    assert(path.index_of_last(SEPARATOR) == Some(at));
    assert(path.skip(at + 1) =~= name);
}

/// The extension of a file is what follows the last dot of its name: where the last
/// segment of a path is a stem, a dot and a text without dots, that text is the
/// extension.
pub proof fn lemma_extension_follows_last_dot(
    path: Seq<char>,
    stem: Seq<char>,
    extension: Seq<char>,
)
    requires
        final_segment(path) == stem + seq![DOT] + extension,
        !extension.contains(DOT),
    ensures
        extension_of(path) == extension,
{
    let segment = final_segment(path);
    segment.index_of_last_ensures(DOT);
    let at = stem.len() as int;
    assert(segment[at] == DOT);
    assert forall|j: int| at < j < segment.len() implies segment[j] != DOT by {
        assert(segment[j] == extension[j - at - 1]);
    }
    assert(segment.index_of_last(DOT) == Some(at));
    assert(segment.skip(at + 1) =~= extension);
}

/// A file whose name holds no dot has the empty extension, and is served as
/// `text/plain`.
pub proof fn lemma_no_dot_no_extension(path: Seq<char>)
    requires
        !final_segment(path).contains(DOT),
    ensures
        extension_of(path) == Seq::<char>::empty(),
        mime_of(path) == default_mime(),
{
    final_segment(path).index_of_last_ensures(DOT);
    lemma_empty_extension_is_unknown();
}

/// The index at which `wanted` last stands in `text`, if it stands in it.
pub fn last_index_of(text: &str, wanted: char) -> (found: Option<usize>)
    ensures
        match found {
            Some(at) => text@.index_of_last(wanted) == Some(at as int),
            None => text@.index_of_last(wanted) is None,
        },
{
    let length = text.unicode_len();
    let mut found: Option<usize> = None;
    let mut index: usize = 0;
    for character in chars: text.chars()
        invariant
            index == chars.index(),
            chars.seq() == text@,
            length == text@.len(),
            match found {
                Some(at) => at < index && text@[at as int] == wanted && forall|j: int|
                    at < j < index ==> text@[j] != wanted,
                None => forall|j: int| 0 <= j < index ==> text@[j] != wanted,
            },
    {
        if character == wanted {
            found = Some(index);
        }
        index = index + 1;
    }
    proof {
        text@.index_of_last_ensures(wanted);
    }
    found
}

/// The `resource` token of a request line, read as the path of a file.
#[derive(Debug, PartialEq, Eq)]
pub struct ResourcePath {
    pub resource: String,
}

impl ResourcePath {
    /// The path in the file system at which this resource should lie, under
    /// `webroot`. Whether anything lies there is not looked at.
    pub fn get_path(&self, webroot: String) -> (path: String)
        ensures
            path@ == filesystem_path(self.resource@, webroot@),
    {
        let resource = self.resource.as_str();
        let length = resource.unicode_len();
        let mut path = webroot;
        path.append("/");
        proof {
            reveal_strlit("/");
            assert("/"@ =~= seq![SEPARATOR]);
        }
        if length > 0 && resource.get_char(0) == SEPARATOR {
            path.append(resource.substring_char(1, length));
        } else {
            path.append(resource);
        }
        path
    }

    /// The extension of the file that this resource names, without its dot; empty
    /// where the last segment of the path holds no dot.
    pub fn get_extension(&self) -> (extension: String)
        ensures
            extension@ == extension_of(self.resource@),
    {
        let resource = self.resource.as_str();
        let length = resource.unicode_len();
        proof {
            resource@.index_of_last_ensures(SEPARATOR);
        }
        let segment = match last_index_of(resource, SEPARATOR) {
            Some(at) => resource.substring_char(at + 1, length),
            None => resource,
        };
        assert(segment@ =~= final_segment(resource@));
        let length = segment.unicode_len();
        proof {
            segment@.index_of_last_ensures(DOT);
        }
        match last_index_of(segment, DOT) {
            Some(at) => {
                let extension = segment.substring_char(at + 1, length).to_owned();
                assert(extension@ =~= segment@.skip(at + 1));
                extension
            },
            None => String::new(),
        }
    }

    /// The media type under which this resource is served: the one that the MIME
    /// table holds for its extension, or `text/plain` where it holds none.
    pub fn get_mime(&self) -> (mime: &'static str)
        ensures
            mime@ == mime_of(self.resource@),
    {
        let extension = self.get_extension();
        match lookup_mime(extension.as_str()) {
            Some(mime) => mime,
            None => "text/plain",
        }
    }
}

} // verus!
