//! URLs: reading a base address, resolving a path against it, and adding
//! query parameters. The URL syntax itself is that of `reqwest::Url`; this
//! module calls it on texts and names what it returns.

use vstd::prelude::*;
use vstd::std_specs::iter::IteratorSpec;
use vstd::string::is_ascii_spec_bytes;
use vstd::utf8::encode_utf8;
use crate::error::outcome;
use crate::text::pair_texts;

verus! {

/// What `Url::parse` makes of `input`: the normalised text of the URL it
/// read, or the words of its refusal.
pub uninterp spec fn url_parse(input: Seq<char>) -> Result<Seq<char>, Seq<char>>;

/// What `Url::join` makes of `reference` when the URL written as `base` is
/// the base: the text of the resulting URL, or the words of the refusal
/// (that of `Url::parse` where `base` itself is no URL).
pub uninterp spec fn url_join(base: Seq<char>, reference: Seq<char>) -> Result<
    Seq<char>,
    Seq<char>,
>;

/// Calls `reqwest::Url::parse` on `input` and hands back the URL as text, or
/// the parse error as text. Nothing is claimed beyond that the outcome is the
/// one named `url_parse`.
#[verifier::external_body]
pub(crate) fn parse_url(input: &str) -> (r: Result<String, String>)
    ensures
        outcome(r) == url_parse(input@),
{
    match reqwest::Url::parse(input) {
        Ok(url) => Ok(String::from(url)),
        Err(e) => Err(e.to_string()),
    }
}

/// Reads `base` with `reqwest::Url::parse` and calls `Url::join` on it with
/// `reference`. Hands back the joined URL as text, or the error of either
/// step as text: the outcome named `url_join`.
#[verifier::external_body]
pub(crate) fn join_url(base: &str, reference: &str) -> (r: Result<String, String>)
    ensures
        outcome(r) == url_join(base@, reference@),
{
    match reqwest::Url::parse(base).and_then(|b| b.join(reference)) {
        Ok(url) => Ok(String::from(url)),
        Err(e) => Err(e.to_string()),
    }
}

/// The most bytes that a URL, a parameter's name or its value may have
/// where a query parameter is added. Far below the `u32::MAX` bytes beyond
/// which the URL type cannot record where a URL's parts begin.
pub const MAX_QUERY_TEXT: usize = 0x100_0000;

/// The text is short enough to take part in adding a query parameter.
pub open spec fn fits_query(text: Seq<char>) -> bool {
    encode_utf8(text).len() <= MAX_QUERY_TEXT
}

/// What comes of adding the pair `name`, `value` to the query of the URL
/// written as `url`, with `Url::query_pairs_mut` and `append_pair`: the text
/// of the URL with the pair in its query, or the words of `Url::parse`'s
/// refusal where `url` is no URL.
pub uninterp spec fn url_append_pair(url: Seq<char>, name: Seq<char>, value: Seq<char>) -> Result<
    Seq<char>,
    Seq<char>,
>;

/// Reads `url` with `reqwest::Url::parse`, adds one pair to its query with
/// `query_pairs_mut().append_pair`, and hands back the URL as text; or the
/// parse error as text. The outcome is the one named `url_append_pair`. The
/// three texts must be short: past `u32::MAX` bytes the URL type gives up.
#[verifier::external_body]
pub(crate) fn append_query_pair(url: &str, name: &str, value: &str) -> (r: Result<String, String>)
    requires
        fits_query(url@),
        fits_query(name@),
        fits_query(value@),
    ensures
        outcome(r) == url_append_pair(url@, name@, value@),
{
    match reqwest::Url::parse(url) {
        Ok(mut parsed) => {
            parsed.query_pairs_mut().append_pair(name, value);
            Ok(String::from(parsed))
        },
        Err(e) => Err(e.to_string()),
    }
}

/// Why no URL came of a base, a path and query parameters.
pub enum UrlFault {
    /// The path could not be resolved against the base. Holds the words of
    /// the refusal.
    Join(Seq<char>),
    /// A query parameter could not be added. Holds the words of the refusal.
    Query(Seq<char>),
    /// The URL, or a parameter's name or value, is longer than
    /// `MAX_QUERY_TEXT` bytes.
    TooLong,
}

/// The URL with the pairs added to its query one after the other. With no
/// pair it is the URL as it stands, with no query added.
pub open spec fn with_query(url: Seq<char>, pairs: Seq<(Seq<char>, Seq<char>)>) -> Result<
    Seq<char>,
    UrlFault,
>
    decreases pairs.len(),
{
    if pairs.len() == 0 {
        Ok(url)
    } else if !fits_query(url) || !fits_query(pairs[0].0) || !fits_query(pairs[0].1) {
        Err(UrlFault::TooLong)
    } else {
        match url_append_pair(url, pairs[0].0, pairs[0].1) {
            Ok(next) => with_query(next, pairs.drop_first()),
            Err(words) => Err(UrlFault::Query(words)),
        }
    }
}

/// A character that may stand in a segment of a URL's path as it is: a
/// letter, a digit, or one of ``-._~!$&'()*+,;=:@``. Every other character
/// would be escaped or would end the segment.
pub open spec fn is_segment_char(c: char) -> bool {
    ('a' <= c <= 'z') || ('A' <= c <= 'Z') || ('0' <= c <= '9') || c == '-' || c == '.' || c
        == '_' || c == '~' || c == '!' || c == '$' || c == '&' || c == '\'' || c == '(' || c
        == ')' || c == '*' || c == '+' || c == ',' || c == ';' || c == '=' || c == ':' || c == '@'
}

/// The text is `.` or `..`, which resolving a path takes for the directory
/// itself and the one above it.
pub open spec fn is_dots(text: Seq<char>) -> bool {
    (text.len() == 1 || text.len() == 2) && forall|i: int|
        0 <= i < text.len() ==> #[trigger] text[i] == '.'
}

/// The text can stand as one segment of a URL's path, as it is: it is not
/// empty, each of its characters may stand in a segment, and it is neither
/// `.` nor `..`.
pub open spec fn is_path_segment(text: Seq<char>) -> bool {
    &&& text.len() > 0
    &&& forall|i: int| 0 <= i < text.len() ==> is_segment_char(#[trigger] text[i])
    &&& !is_dots(text)
}

/// Whether a byte is a character that may stand in a segment of a path.
fn is_segment_byte(b: u8) -> (r: bool)
    ensures
        r == (b < 128 && is_segment_char(b as char)),
{
    (97 <= b && b <= 122) || (65 <= b && b <= 90) || (48 <= b && b <= 57) || b == 45 || b == 46
        || b == 95 || b == 126 || b == 33 || b == 36 || b == 38 || b == 39 || b == 40 || b == 41
        || b == 42 || b == 43 || b == 44 || b == 59 || b == 61 || b == 58 || b == 64
}

/// Tells whether an identifier can stand as one segment of a URL's path.
pub fn check_path_segment(text: &str) -> (r: bool)
    ensures
        r == is_path_segment(text@),
{
    if !text.is_ascii() {
        proof {
            let i = choose|i: int|
                0 <= i < text@.len() && !('\0' <= #[trigger] text@[i] <= '\u{7f}');
            assert(!is_segment_char(text@[i]));
        }
        return false;
    }
    let bytes = text.as_bytes();
    proof {
        is_ascii_spec_bytes(text);
    }
    let n = bytes.len();
    if n == 0 {
        return false;
    }
    let mut dots = true;
    let mut i: usize = 0;
    while i < n
        invariant
            i <= n,
            n == text@.len(),
            bytes@.len() == n,
            text.is_ascii(),
            forall|k: int| 0 <= k < n ==> bytes@[k] == text@[k] as u8,
            forall|k: int| 0 <= k < i ==> is_segment_char(#[trigger] text@[k]),
            dots == (forall|k: int| 0 <= k < i ==> #[trigger] text@[k] == '.'),
        decreases n - i,
    {
        let b = bytes[i];
        assert('\0' <= text@[i as int] <= '\u{7f}');
        assert(b as char == text@[i as int]);
        if !is_segment_byte(b) {
            return false;
        }
        if b != 46 {
            dots = false;
        }
        i += 1;
    }
    !(dots && n <= 2)
}

/// The character ends the path of a URL: after `?` comes the query, after
/// `#` the fragment.
pub open spec fn ends_path(c: char) -> bool {
    c == '?' || c == '#'
}

/// How many characters of the text of a URL come before its query and
/// fragment: the place of the first `?` or `#`, or the length of the text
/// where there is none.
pub open spec fn path_end(url: Seq<char>) -> nat
    decreases url.len(),
{
    if url.len() == 0 || ends_path(url[0]) {
        0
    } else {
        1 + path_end(url.drop_first())
    }
}

/// The base address taken as a directory, so that a path resolved against
/// it comes under the whole of its path. An address whose path ends in `/`
/// stays as it is. Any other loses its query and fragment, which resolving
/// drops in any case, and gets a `/` at the end of its path.
pub open spec fn as_directory(url: Seq<char>) -> Seq<char> {
    let head = url.take(path_end(url) as int);
    if head.len() > 0 && head.last() == '/' {
        url
    } else {
        head.push('/')
    }
}

/// The URL of a request: the path resolved against the base address taken
/// as a directory, then the pairs added to the query.
pub open spec fn request_url(
    base: Seq<char>,
    path: Seq<char>,
    pairs: Seq<(Seq<char>, Seq<char>)>,
) -> Result<Seq<char>, UrlFault> {
    match url_join(as_directory(base), path) {
        Ok(url) => with_query(url, pairs),
        Err(words) => Err(UrlFault::Join(words)),
    }
}

/// The path of a URL ends at `end` where no character before `end` ends
/// it and the character at `end`, if there is one, does.
proof fn lemma_path_end(url: Seq<char>, end: int)
    requires
        0 <= end <= url.len(),
        forall|k: int| 0 <= k < end ==> !ends_path(#[trigger] url[k]),
        end < url.len() ==> ends_path(url[end]),
    ensures
        path_end(url) == end,
    decreases url.len(),
{
    if end > 0 {
        let rest = url.drop_first();
        assert forall|k: int| 0 <= k < end - 1 implies !ends_path(#[trigger] rest[k]) by {
            assert(rest[k] == url[k + 1]);
        }
        lemma_path_end(rest, end - 1);
    }
}

/// Takes a base address as a directory.
pub fn directory_of(url: &str) -> (r: String)
    ensures
        r@ == as_directory(url@),
{
    let total = url.unicode_len();
    let mut chars = url.chars();
    let mut end: usize = 0;
    let mut slash = false;
    let mut done = false;
    while !done
        invariant
            end <= total,
            total == url@.len(),
            chars.obeys_prophetic_iter_laws(),
            !done ==> chars.remaining() == url@.skip(end as int),
            forall|k: int| 0 <= k < end ==> !ends_path(#[trigger] url@[k]),
            slash == (end > 0 && url@[end - 1] == '/'),
            done ==> (end < total ==> ends_path(url@[end as int])),
        decreases total - end + (if done { 0int } else { 1int }),
    {
        match chars.next() {
            Some(c) => {
                assert(c == url@[end as int]);
                if c == '?' || c == '#' {
                    done = true;
                } else {
                    slash = c == '/';
                    end += 1;
                }
            },
            None => {
                assert(end == total);
                done = true;
            },
        }
    }
    proof {
        lemma_path_end(url@, end as int);
    }
    if slash {
        String::from_str(url)
    } else {
        let r = String::from_str(url.substring_char(0, end)).concat("/");
        proof {
            reveal_strlit("/");
            assert(r@ =~= url@.take(end as int).push('/'));
        }
        r
    }
}

/// Why no URL could be built; see `UrlFault`.
#[derive(Debug, PartialEq, Eq)]
pub enum BuildError {
    Join(String),
    Query(String),
    TooLong,
}

impl View for BuildError {
    type V = UrlFault;

    open spec fn view(&self) -> UrlFault {
        match self {
            BuildError::Join(words) => UrlFault::Join(words@),
            BuildError::Query(words) => UrlFault::Query(words@),
            BuildError::TooLong => UrlFault::TooLong,
        }
    }
}

/// Adds the pairs to the query of `url`, one after the other.
pub fn add_query(url: String, pairs: &Vec<(String, String)>) -> (r: Result<String, BuildError>)
    ensures
        outcome(r) == with_query(url@, pair_texts(pairs@)),
{
    let ghost all = pair_texts(pairs@);
    let ghost start = url@;
    let mut current = url;
    let mut i: usize = 0;
    assert(all.skip(0) =~= all);
    while i < pairs.len()
        invariant
            i <= pairs.len(),
            all == pair_texts(pairs@),
            start == url@,
            with_query(start, all) == with_query(current@, all.skip(i as int)),
        decreases pairs.len() - i,
    {
        let ghost rest = all.skip(i as int);
        assert(rest.drop_first() =~= all.skip(i + 1));
        let name = pairs[i].0.as_str();
        let value = pairs[i].1.as_str();
        if current.as_str().as_bytes().len() > MAX_QUERY_TEXT || name.as_bytes().len()
            > MAX_QUERY_TEXT || value.as_bytes().len() > MAX_QUERY_TEXT {
            return Err(BuildError::TooLong);
        }
        match append_query_pair(current.as_str(), name, value) {
            Ok(next) => {
                current = next;
            },
            Err(words) => {
                return Err(BuildError::Query(words));
            },
        }
        i += 1;
    }
    Ok(current)
}

/// Builds the URL of a request: resolves `path` against `base` taken as a
/// directory, then adds the pairs to the query.
pub fn build_url(base: &str, path: &str, pairs: &Vec<(String, String)>) -> (r: Result<
    String,
    BuildError,
>)
    ensures
        outcome(r) == request_url(base@, path@, pair_texts(pairs@)),
{
    match join_url(directory_of(base).as_str(), path) {
        Ok(url) => add_query(url, pairs),
        Err(words) => Err(BuildError::Join(words)),
    }
}

} // verus!
