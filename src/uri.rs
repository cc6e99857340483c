use vstd::prelude::*;

verus! {

pub open spec fn is_ascii_upper(c: char) -> bool {
    'A' as u32 <= c as u32 <= 'Z' as u32
}

pub open spec fn is_ascii_lower(c: char) -> bool {
    'a' as u32 <= c as u32 <= 'z' as u32
}

pub open spec fn is_ascii_digit(c: char) -> bool {
    '0' as u32 <= c as u32 <= '9' as u32
}

/// A scheme starts with an ASCII letter; the rest are ASCII letters, digits, `+`, `-` or `.`.
pub open spec fn valid_scheme(s: Seq<char>) -> bool {
    &&& s.len() > 0
    &&& (is_ascii_upper(s[0]) || is_ascii_lower(s[0]))
    &&& forall|i: int|
        1 <= i < s.len() ==> is_ascii_upper(#[trigger] s[i]) || is_ascii_lower(s[i])
            || is_ascii_digit(s[i]) || s[i] == '+' || s[i] == '-' || s[i] == '.'
}

/// The text before the first `:` (all of it when there is none).
pub open spec fn scheme_of(s: Seq<char>) -> Seq<char>
    decreases s.len(),
{
    if s.len() == 0 || s[0] == ':' {
        Seq::empty()
    } else {
        seq![s[0]] + scheme_of(s.drop_first())
    }
}

/// A storage URI is accepted when it holds a `:` and what precedes the first one is a scheme.
pub open spec fn uri_accepted(s: Seq<char>) -> bool {
    s.contains(':') && valid_scheme(scheme_of(s))
}

/// Two characters that are equal once ASCII upper case is folded to lower case.
pub open spec fn chars_match_ignoring_case(a: char, b: char) -> bool {
    ||| a == b
    ||| is_ascii_upper(a) && a as u32 + 32 == b as u32
    ||| is_ascii_upper(b) && b as u32 + 32 == a as u32
}

pub open spec fn same_ignoring_ascii_case(a: Seq<char>, b: Seq<char>) -> bool {
    a.len() == b.len() && forall|i: int|
        0 <= i < a.len() ==> chars_match_ignoring_case(#[trigger] a[i], b[i])
}

pub open spec fn sqlite_scheme() -> Seq<char> {
    seq!['s', 'q', 'l', 'i', 't', 'e']
}

/// The storage engines that a URI may select.
#[derive(Clone, Copy, Debug, PartialEq, Eq)]
pub enum Backend {
    Sqlite,
}

/// A storage URI whose scheme names a supported backend.
#[derive(Clone, Debug)]
pub struct StorageUri {
    pub backend: Backend,
    pub uri: String,
}

#[derive(Clone, Debug)]
pub enum ConnectionError {
    /// The URI has no scheme, or a malformed one; carries the parser's message.
    InvalidUri(String),
    /// The scheme is well formed but names no supported backend; carries the scheme.
    UnsupportedBackend(String),
}

/// Relies on toasty_core's `ConnectionUrl::parse`, which finds the first `:` and checks
/// the text before it as a scheme, and on `ConnectionUrl::scheme`, which returns that text.
#[verifier::external_body]
fn parse_connection_scheme(uri: &str) -> (r: Result<String, String>)
    ensures
        r is Ok <==> uri_accepted(uri@),
        r matches Ok(s) ==> s@ == scheme_of(uri@),
{
    match toasty_core::driver::ConnectionUrl::parse(uri) {
        Ok(url) => Ok(url.scheme().to_string()),
        Err(e) => Err(e.to_string()),
    }
}

fn char_matches_ignoring_case(a: char, b: char) -> (r: bool)
    ensures
        r == chars_match_ignoring_case(a, b),
{
    let x = a as u32;
    let y = b as u32;
    x == y || ('A' as u32 <= x && x <= 'Z' as u32 && x + 32 == y) || ('A' as u32 <= y && y
        <= 'Z' as u32 && y + 32 == x)
}

/// Compares two strings, folding ASCII upper case to lower case.
pub fn eq_ignoring_ascii_case(a: &str, b: &str) -> (r: bool)
    ensures
        r == same_ignoring_ascii_case(a@, b@),
{
    let n = a.unicode_len();
    if n != b.unicode_len() {
        return false;
    }
    let mut i: usize = 0;
    while i < n
        invariant
            n == a@.len() == b@.len(),
            i <= n,
            forall|j: int| 0 <= j < i ==> chars_match_ignoring_case(#[trigger] a@[j], b@[j]),
        decreases n - i,
    {
        if !char_matches_ignoring_case(a.get_char(i), b.get_char(i)) {
            return false;
        }
        i = i + 1;
    }
    true
}

/// Reads a storage URI of the form `<backend>:<location>` and selects its backend.
pub fn parse_storage_uri(uri: &str) -> (r: Result<StorageUri, ConnectionError>)
    ensures
        r is Ok <==> uri_accepted(uri@) && same_ignoring_ascii_case(
            scheme_of(uri@),
            sqlite_scheme(),
        ),
        r matches Ok(u) ==> u.backend == Backend::Sqlite && u.uri@ == uri@,
        r matches Err(ConnectionError::InvalidUri(_)) <==> !uri_accepted(uri@),
        r matches Err(ConnectionError::UnsupportedBackend(s)) ==> s@ == scheme_of(uri@),
{
    match parse_connection_scheme(uri) {
        Err(msg) => Err(ConnectionError::InvalidUri(msg)),
        Ok(scheme) => {
            let sqlite = "sqlite";
            proof {
                reveal_strlit("sqlite");
                assert(sqlite@ =~= sqlite_scheme());
            }
            if eq_ignoring_ascii_case(scheme.as_str(), sqlite) {
                Ok(StorageUri { backend: Backend::Sqlite, uri: uri.to_string() })
            } else {
                Err(ConnectionError::UnsupportedBackend(scheme))
            }
        },
    }
}

} // verus!
