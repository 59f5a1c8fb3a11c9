//! The name under which a download is stored: the last segment of the path
//! of its URL.

use vstd::prelude::*;
use vstd::string::*;
use crate::error::Failure;

verus! {

#[verifier::external_type_specification]
#[verifier::external_body]
pub struct ExParseError(url::ParseError);

/// The path of the URL that `input` parses to, percent-encoded as the `url`
/// crate serialises it, or `None` where `input` is no absolute URL.
pub uninterp spec fn url_path(input: Seq<char>) -> Option<Seq<char>>;

/// `url::Url::parse` followed by `Url::path` on what it returned.
///
/// Trusted: the result is `Ok` exactly where the input parses as an absolute
/// URL, and then holds the path of that URL; `url_path` is the name of that
/// path. Nothing is claimed of what the path looks like.
#[verifier::external_body]
fn parse_url_path(input: &str) -> (r: Result<String, url::ParseError>)
    ensures
        match r {
            Ok(path) => url_path(input@) == Some(path@),
            Err(_) => url_path(input@) is None,
        },
{
    url::Url::parse(input).map(|parsed| parsed.path().to_string())
}

/// The index of the last `/` in `s`, or -1 where there is none.
pub open spec fn last_slash(s: Seq<char>) -> int
    decreases s.len(),
{
    if s.len() == 0 {
        -1
    } else if s.last() == '/' {
        s.len() - 1
    } else {
        last_slash(s.drop_last())
    }
}

/// The last segment of a URL path. A path has segments only where it starts
/// with `/` (the URL is then no cannot-be-a-base URL); they are the pieces
/// between the slashes, so the last one is what follows the last slash. An
/// empty last segment names no file.
pub open spec fn path_file_name(path: Seq<char>) -> Option<Seq<char>> {
    if path.len() > 0 && path[0] == '/' && last_slash(path) + 1 < path.len() {
        Some(path.skip(last_slash(path) + 1))
    } else {
        None
    }
}

/// The file name that a URL gives, where it gives one.
pub open spec fn file_name(url: Seq<char>) -> Option<Seq<char>> {
    match url_path(url) {
        Some(path) => path_file_name(path),
        None => None,
    }
}

/// `last_slash` is the greatest index that holds a slash.
pub proof fn lemma_last_slash(s: Seq<char>)
    ensures
        -1 <= last_slash(s) < s.len(),
        last_slash(s) >= 0 ==> s[last_slash(s)] == '/',
        forall|j: int| last_slash(s) < j < s.len() ==> s[j] != '/',
    decreases s.len(),
{
    if s.len() > 0 && s.last() != '/' {
        let front = s.drop_last();
        lemma_last_slash(front);
        assert forall|j: int| last_slash(s) < j < s.len() implies s[j] != '/' by {
            if j < front.len() {
                assert(front[j] == s[j]);
            }
        }
    }
}

/// An index that holds a slash and has none behind it is `last_slash`.
pub proof fn lemma_last_slash_is(s: Seq<char>, k: int)
    requires
        0 <= k < s.len(),
        s[k] == '/',
        forall|j: int| k < j < s.len() ==> s[j] != '/',
    ensures
        last_slash(s) == k,
{
    lemma_last_slash(s);
}

/// A file name holds no slash, and the path is some directory part, a slash
/// and the name.
pub proof fn lemma_file_name_shape(path: Seq<char>)
    requires
        path_file_name(path) is Some,
    ensures
        path_file_name(path)->0.len() > 0,
        !path_file_name(path)->0.contains('/'),
        path == path.take(last_slash(path)) + seq!['/'] + path_file_name(path)->0,
{
    lemma_last_slash(path);
}

/// The last segment of `path`, where it has segments and the last one is
/// not empty.
pub fn path_file_name_of(path: &str) -> (r: Option<String>)
    ensures
        match r {
            Some(name) => path_file_name(path@) == Some(name@),
            None => path_file_name(path@) is None,
        },
{
    let n = path.unicode_len();
    if n == 0 {
        return None;
    }
    if path.get_char(0) != '/' {
        return None;
    }
    let mut last: usize = 0;
    let mut i: usize = 1;
    while i < n
        invariant
            n == path@.len(),
            0 <= last < i <= n,
            path@[last as int] == '/',
            forall|j: int| last < j < i ==> path@[j] != '/',
        decreases n - i,
    {
        if path.get_char(i) == '/' {
            last = i;
        }
        i = i + 1;
    }
    proof {
        lemma_last_slash_is(path@, last as int);
    }
    if last + 1 == n {
        None
    } else {
        Some(String::from_str(path.substring_char(last + 1, n)))
    }
}

/// The name under which the download of `url` is stored: the last segment
/// of the URL's path. A URL that does not parse, one that has no path
/// segments and one whose last segment is empty give `Failure::Parse`.
pub fn target_name(url: &str) -> (r: Result<String, Failure>)
    ensures
        match r {
            Ok(name) => file_name(url@) == Some(name@),
            Err(failure) => failure == Failure::Parse && file_name(url@) is None,
        },
{
    match parse_url_path(url) {
        Ok(path) => match path_file_name_of(path.as_str()) {
            Some(name) => Ok(name),
            None => Err(Failure::Parse),
        },
        Err(_) => Err(Failure::Parse),
    }
}

} // verus!
