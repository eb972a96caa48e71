//! What the `url` crate reads out of a URL, and what it writes into one.
use crate::text;
use vstd::prelude::*;

verus! {

/// The parts of a URL.
#[derive(Debug, Clone)]
pub struct UrlParts {
    /// The scheme, in lower case.
    pub scheme: String,
    /// The user name, percent-encoded; empty where there is none.
    pub username: String,
    /// The password, percent-encoded.
    pub password: Option<String>,
    /// The host, where the URL has one.
    pub host: Option<String>,
    /// The port, where one is written that is not the default of the scheme.
    pub port: Option<u16>,
    /// The path, percent-encoded.
    pub path: String,
    /// The query parameters in order, decoded.
    pub query: Vec<(String, String)>,
    /// The fragment, percent-encoded.
    pub fragment: Option<String>,
}

/// The mathematical content of [`UrlParts`].
pub struct UrlPartsView {
    pub scheme: Seq<char>,
    pub username: Seq<char>,
    pub password: Option<Seq<char>>,
    pub host: Option<Seq<char>>,
    pub port: Option<u16>,
    pub path: Seq<char>,
    pub query: Seq<(Seq<char>, Seq<char>)>,
    pub fragment: Option<Seq<char>>,
}

/// The view of a text that may be missing.
pub open spec fn optional_view(text: Option<String>) -> Option<Seq<char>> {
    match text {
        Some(text) => Some(text@),
        None => None,
    }
}

/// The text stands for a dot in a path.
pub open spec fn is_dot(text: Seq<char>) -> bool {
    text == "."@ || text == "%2e"@ || text == "%2E"@
}

/// The segment of a path stands for the directory itself or for the one above it.
pub open spec fn is_dot_segment(segment: Seq<char>) -> bool {
    is_dot(segment) || exists|k: int|
        0 < k < segment.len() && #[trigger] is_dot(segment.take(k)) && is_dot(segment.skip(k))
}

/// Some segment of the path stands for the directory itself or for the one above it.
pub open spec fn has_dot_segment(path: Seq<char>) -> bool {
    exists|i: int, j: int|
        0 <= i < j <= path.len() && path[i] == '/' && (j == path.len() || path[j] == '/')
            && #[trigger] is_dot_segment(path.subrange(i + 1, j))
}

/// The first segment of the path is the letter of a drive.
pub open spec fn starts_with_drive(path: Seq<char>) -> bool {
    &&& path.len() >= 3
    &&& 'a' <= path[1] <= 'z' || 'A' <= path[1] <= 'Z'
    &&& path[2] == ':' || path[2] == '|'
    &&& path.len() == 3 || path[3] == '/'
}

impl UrlPartsView {
    /// The host and the path are the same when the URL is written and read again. That is so but for
    /// two kinds of `file` URLs: where the path kept a dot segment, which is then resolved, and where
    /// there is a host before the letter of a drive, which is then dropped.
    pub open spec fn settled(self) -> bool {
        self.scheme == "file"@ ==> !has_dot_segment(self.path) && (self.host is Some
            ==> !starts_with_drive(self.path))
    }

    /// This is the other with another query: all else is the same, the host and the path as far as
    /// they are settled.
    pub open spec fn leads_to(self, other: UrlPartsView) -> bool {
        &&& self.scheme == other.scheme
        &&& self.username == other.username
        &&& self.password == other.password
        &&& self.port == other.port
        &&& self.fragment == other.fragment
        &&& other.settled() ==> self.same_but_query(other)
    }

    /// The two differ in nothing but their queries.
    pub open spec fn same_but_query(self, other: UrlPartsView) -> bool {
        &&& self.scheme == other.scheme
        &&& self.username == other.username
        &&& self.password == other.password
        &&& self.host == other.host
        &&& self.port == other.port
        &&& self.path == other.path
        &&& self.fragment == other.fragment
    }
}

/// The views of a list of name and value pairs.
pub open spec fn pair_views(pairs: Seq<(String, String)>) -> Seq<(Seq<char>, Seq<char>)> {
    pairs.map_values(|p: (String, String)| (p.0@, p.1@))
}

impl View for UrlParts {
    type V = UrlPartsView;

    open spec fn view(&self) -> UrlPartsView {
        UrlPartsView {
            scheme: self.scheme@,
            username: self.username@,
            password: optional_view(self.password),
            host: optional_view(self.host),
            port: self.port,
            path: self.path@,
            query: pair_views(self.query@),
            fragment: optional_view(self.fragment),
        }
    }
}

/// Declares the error of the `url` crate's parser.
#[verifier::external_type_specification]
#[verifier::external_body]
pub struct ExUrlParseError(url::ParseError);

/// What `url::Url::parse` makes of a text: the parts of the URL, or nothing where it rejects the
/// text.
pub uninterp spec fn url_parts_of(text: Seq<char>) -> Option<UrlPartsView>;

/// Parses a text with `url::Url::parse` and reads the result with `scheme`, `username`, `password`,
/// `host_str`, `port`, `path`, `query_pairs` and `fragment`. The contract claims that the text alone
/// decides what comes back.
#[verifier::external_body]
pub(crate) fn url_parts(text: &str) -> (res: Result<UrlParts, url::ParseError>)
    ensures
        match res {
            Ok(parts) => url_parts_of(text@) == Some(parts@),
            Err(_) => url_parts_of(text@) is None,
        },
{
    let url = url::Url::parse(text)?;
    Ok(UrlParts {
        scheme: url.scheme().to_string(),
        username: url.username().to_string(),
        password: url.password().map(|password| password.to_string()),
        host: url.host_str().map(|host| host.to_string()),
        port: url.port(),
        path: url.path().to_string(),
        query: url.query_pairs().into_owned().collect(),
        fragment: url.fragment().map(|fragment| fragment.to_string()),
    })
}

/// The number of characters in a list of pairs, written with `=` within them and `&` between them.
pub open spec fn pair_chars(pairs: Seq<(Seq<char>, Seq<char>)>) -> nat
    decreases pairs.len(),
{
    if pairs.len() == 0 {
        0
    } else {
        pair_chars(pairs.drop_last()) + pairs.last().0.len() + pairs.last().1.len() + 2
    }
}

/// The most bytes that a character of a pair takes in a URL: four bytes of UTF-8, each written with
/// three.
pub const PAIR_CHAR_BYTES: u64 = 12;

/// More bytes than a character of a URL takes when the URL is written anew. In a host a character may
/// be mapped to several, which are then written in Punycode.
pub const BASE_CHAR_BYTES: u64 = 64;

/// The bytes that a URL may have: what the offsets of the `url` crate can hold, beyond which it
/// panics, less some for punctuation.
pub const URL_BYTES_LIMIT: u64 = 0xff00_0000;

/// The pairs can be appended to the query of the URL without it growing beyond what the `url` crate
/// can hold.
pub open spec fn url_input_fits(base: Seq<char>, pairs: Seq<(Seq<char>, Seq<char>)>) -> bool {
    BASE_CHAR_BYTES * base.len() + PAIR_CHAR_BYTES * pair_chars(pairs) <= URL_BYTES_LIMIT
}

/// What the `url` crate writes when the pairs are appended to the query of a URL.
pub uninterp spec fn url_with_pairs(
    base: Seq<char>,
    pairs: Seq<(Seq<char>, Seq<char>)>,
) -> Option<Seq<char>>;

/// Parses `base` with `url::Url::parse`, appends the pairs with the serializer that
/// `query_pairs_mut` hands out, and serializes the URL. The contract claims that the arguments
/// alone decide the text; that only the parse can fail; and that the text, parsed again, has the
/// query pairs of `base` followed by the appended ones, unchanged, and but for its query is `base`. A
/// serialized URL parses to itself, as `Url::check_invariants` has it, and the form encoding of the
/// pairs is undone by `query_pairs`. That the host and the path are those of `base` is claimed of
/// settled URLs only: in some `file` URLs the parser keeps what it resolves when it meets it again.
#[verifier::external_body]
pub(crate) fn append_pairs(base: &str, pairs: &Vec<(String, String)>) -> (res: Result<
    String,
    url::ParseError,
>)
    requires
        url_input_fits(base@, pair_views(pairs@)),
    ensures
        match res {
            Ok(url) => url_with_pairs(base@, pair_views(pairs@)) == Some(url@),
            Err(_) => url_with_pairs(base@, pair_views(pairs@)) is None,
        },
        res is Err <==> url_parts_of(base@) is None,
        res matches Ok(url) ==> url_parts_of(url@) is Some && url_parts_of(url@)->0.query
            == url_parts_of(base@)->0.query + pair_views(pairs@),
        res matches Ok(url) ==> url_parts_of(url@)->0.leads_to(url_parts_of(base@)->0),
{
    let mut url = url::Url::parse(base)?;
    url.query_pairs_mut().extend_pairs(pairs);
    Ok(url.to_string())
}

/// The value of the last pair with the given name: a later parameter overrides an earlier one.
pub open spec fn last_value(pairs: Seq<(Seq<char>, Seq<char>)>, name: Seq<char>) -> Option<Seq<char>>
    decreases pairs.len(),
{
    if pairs.len() == 0 {
        None
    } else if pairs.last().0 == name {
        Some(pairs.last().1)
    } else {
        last_value(pairs.drop_last(), name)
    }
}

/// Reads a query parameter: the value of the last pair with that name.
pub fn query_value(pairs: &Vec<(String, String)>, name: &str) -> (res: Option<String>)
    ensures
        match res {
            Some(value) => last_value(pair_views(pairs@), name@) == Some(value@),
            None => last_value(pair_views(pairs@), name@) is None,
        },
{
    let mut n: usize = pairs.len();
    let ghost all = pair_views(pairs@);
    assert(all.take(n as int) =~= all);
    while n > 0
        invariant
            n <= pairs@.len(),
            all == pair_views(pairs@),
            last_value(all, name@) == last_value(all.take(n as int), name@),
        decreases n,
    {
        assert(all.take(n as int).last() == (pairs@[n - 1].0@, pairs@[n - 1].1@));
        assert(all.take(n as int).drop_last() =~= all.take(n - 1));
        if text::same(pairs[n - 1].0.as_str(), name) {
            return Some(pairs[n - 1].1.clone());
        }
        n = n - 1;
    }
    None
}

} // verus!
