//! Helpers shared by the front-ends: recognising local subscription files,
//! deciding whether Clash runs, random file names and URL encoding.

use vstd::prelude::*;
use vstd::string::StringSliceAdditionalSpecFns;
use rand::Rng;
use crate::text::{has_prefix, substring};

verus! {

/// A character that the regular-expression syntax matches as itself.
pub open spec fn is_plain_regex_char(c: char) -> bool {
    ('a' <= c && c <= 'z') || ('A' <= c && c <= 'Z') || ('0' <= c && c <= '9') || c == ':' || c
        == '/'
}

/// A pattern made of `^` followed by characters that match themselves: it matches a
/// haystack exactly when the haystack begins with those characters.
pub open spec fn is_anchored_literal(pattern: Seq<char>) -> bool {
    &&& pattern.len() >= 1
    &&& pattern[0] == '^'
    &&& forall|i: int| 1 <= i < pattern.len() ==> is_plain_regex_char(#[trigger] pattern[i])
}

/// Compiles `pattern` with `regex::Regex::new` and returns the end of the leftmost match
/// that `Regex::find` reports in `haystack`. The contract covers anchored literal
/// patterns only: `^` matches at the start of the haystack and every other character of
/// such a pattern matches itself, so a match exists exactly when the haystack begins with
/// the literal, and it ends after the literal's bytes, which are as many as its
/// characters since they are ASCII. The pattern is held to at most 64 characters: such a
/// short literal compiles well within the size limit that `Regex::new` applies by
/// default, so the call does not fail; a long enough literal would exceed that limit.
#[verifier::external_body]
fn regex_match_end(pattern: &str, haystack: &str) -> (r: Option<usize>)
    requires
        is_anchored_literal(pattern@),
        pattern@.len() <= 64,
    ensures
        r == (if has_prefix(haystack@, pattern@.drop_first()) {
            Some((pattern@.len() - 1) as usize)
        } else {
            None
        }),
{
    regex::Regex::new(pattern).unwrap().find(haystack).map(|m| m.end())
}

/// The scheme prefix of a local subscription file.
pub open spec fn file_scheme() -> Seq<char> {
    seq!['f', 'i', 'l', 'e', ':', '/', '/']
}

/// The file path that a `file://` URL names, or `None` for any other URL.
pub open spec fn local_file_path(url: Seq<char>) -> Option<Seq<char>> {
    if has_prefix(url, file_scheme()) {
        Some(url.skip(file_scheme().len() as int))
    } else {
        None
    }
}

/// The local path behind a `file://` URL; `None` when the URL does not start with `file://`.
pub fn get_file_path(url: String) -> (r: Option<String>)
    ensures
        match r {
            Some(p) => local_file_path(url@) == Some(p@),
            None => local_file_path(url@) is None,
        },
{
    let pattern = "^file://";
    proof {
        reveal_strlit("^file://");
        assert(pattern@.drop_first() =~= file_scheme());
    }
    match regex_match_end(pattern, url.as_str()) {
        Some(end) => {
            let n = url.as_str().unicode_len();
            let rest = substring(url.as_str(), end, n);
            assert(rest@ =~= url@.skip(7));
            Some(rest)
        },
        None => None,
    }
}

/// `file://` followed by `path` names the local file `path`.
pub proof fn lemma_local_file_path_round_trip(path: Seq<char>)
    ensures
        local_file_path(file_scheme() + path) == Some(path),
{
    let url = file_scheme() + path;
    assert(url.subrange(0, 7) =~= file_scheme());
    assert(url.skip(7) =~= path);
}

/// The name that a running Clash process has in the process table.
pub open spec fn clash_process_name() -> Seq<char> {
    seq!['c', 'l', 'a', 's', 'h']
}

/// Whether some process in `names` is called `clash`.
pub fn is_clash_running(names: &Vec<String>) -> (r: bool)
    ensures
        r == exists|i: int| 0 <= i < names@.len() && (#[trigger] names@[i])@ == clash_process_name(),
{
    let target = String::from_str("clash");
    proof {
        reveal_strlit("clash");
        assert(target@ =~= clash_process_name());
    }
    let mut i: usize = 0;
    while i < names.len()
        invariant
            i <= names@.len(),
            target@ == clash_process_name(),
            forall|j: int| 0 <= j < i ==> (#[trigger] names@[j])@ != clash_process_name(),
        decreases names@.len() - i,
    {
        if names[i] == target {
            return true;
        }
        i = i + 1;
    }
    false
}

/// A character of `[A-Za-z0-9]`.
pub open spec fn is_ascii_alphanumeric(c: char) -> bool {
    ('a' <= c && c <= 'z') || ('A' <= c && c <= 'Z') || ('0' <= c && c <= '9')
}

/// Draws `len` characters from `rand::distributions::Alphanumeric` with `rand::thread_rng()`.
/// The distribution samples from `A-Z`, `a-z` and `0-9` only; which characters come out
/// is left to chance and is not stated.
#[verifier::external_body]
fn random_alphanumeric(len: usize) -> (r: String)
    ensures
        r@.len() == len,
        forall|i: int| 0 <= i < len ==> is_ascii_alphanumeric(#[trigger] r@[i]),
{
    rand::thread_rng().sample_iter(&rand::distributions::Alphanumeric).take(len).map(
        char::from,
    ).collect()
}

/// A random name of five ASCII letters and digits.
pub fn gen_random_name() -> (r: String)
    ensures
        r@.len() == 5,
        forall|i: int| 0 <= i < 5 ==> is_ascii_alphanumeric(#[trigger] r@[i]),
{
    random_alphanumeric(5)
}

/// A byte that URL encoding leaves as it is: an ASCII letter or digit, `-`, `.`, `_` or `~`.
pub open spec fn is_unreserved_byte(b: u8) -> bool {
    (48 <= b && b <= 57) || (65 <= b && b <= 90) || (97 <= b && b <= 122) || b == 45 || b == 46
        || b == 95 || b == 126
}

/// Upper-case hexadecimal digit of `d` (below 16).
pub open spec fn hex_digit(d: u8) -> char {
    if d < 10 {
        (48 + d) as char
    } else {
        (55 + d) as char
    }
}

/// Percent-encoding of a byte string: unreserved bytes stay, every other byte `b`
/// becomes `%` and the two upper-case hexadecimal digits of `b`.
pub open spec fn percent_encoded(bytes: Seq<u8>) -> Seq<char>
    decreases bytes.len(),
{
    if bytes.len() == 0 {
        Seq::empty()
    } else {
        let b = bytes[0];
        let head = if is_unreserved_byte(b) {
            seq![b as char]
        } else {
            seq!['%', hex_digit(b / 16), hex_digit(b % 16)]
        };
        head + percent_encoded(bytes.drop_first())
    }
}

/// `urlencoding::encode`: percent-encodes every byte of the UTF-8 form of `s` except ASCII
/// letters, digits, `-`, `_`, `.` and `~`, writing the hexadecimal digits in upper case.
#[verifier::external_body]
fn url_encode(s: &str) -> (r: String)
    ensures
        r@ == percent_encoded(s.spec_bytes()),
{
    urlencoding::encode(s).into_owned()
}

/// The subscription-conversion request that turns the subscription at `url` into a
/// Clash profile, sent to the local converter service.
pub open spec fn subconverter_request(url: Seq<char>, url_bytes: Seq<u8>, config_bytes: Seq<u8>) -> Seq<char> {
    "http://127.0.0.1:25500/sub?target=clash&url="@ + percent_encoded(url_bytes) + "&insert=false&config="@
        + percent_encoded(config_bytes)
        + "&emoji=true&list=false&tfo=false&scv=true&fdn=false&expand=true&sort=false&new_name=true"@
}

/// The rule set the converter is told to apply.
pub open spec fn subconverter_rules() -> &'static str {
    "http://127.0.0.1:55556/ACL4SSR_Online.ini"
}

/// The converter URL for the subscription at `url`.
pub fn subconverter_url(url: &str) -> (r: String)
    ensures
        r@ == subconverter_request(url@, url.spec_bytes(), subconverter_rules().spec_bytes()),
{
    let config = "http://127.0.0.1:55556/ACL4SSR_Online.ini";
    let encoded_url = url_encode(url);
    let encoded_config = url_encode(config);
    let mut out = String::from_str("http://127.0.0.1:25500/sub?target=clash&url=");
    out.append(encoded_url.as_str());
    out.append("&insert=false&config=");
    out.append(encoded_config.as_str());
    out.append("&emoji=true&list=false&tfo=false&scv=true&fdn=false&expand=true&sort=false&new_name=true");
    out
}


/// Whether parsed text is a usable Clash profile: it parsed, and it is a mapping with a
/// `rules` entry.
pub fn check_yaml(parsed: &Option<crate::yaml::Yaml>) -> (r: bool)
    ensures
        r == (match parsed {
            Some(doc) => crate::yaml::is_profile_document(crate::yaml::yaml_view(*doc)),
            None => false,
        }),
        r == (match parsed {
            Some(doc) => crate::yaml::is_mapping_document(crate::yaml::yaml_view(*doc)) && exists|i: int|
                0 <= i < crate::yaml::document_entries(crate::yaml::yaml_view(*doc)).len()
                    && #[trigger] crate::yaml::document_entries(crate::yaml::yaml_view(*doc))[i].0
                    == crate::yaml::text("rules"@),
            None => false,
        }),
{
    match parsed {
        Some(doc) => crate::yaml::is_profile(doc),
        None => false,
    }
}

} // verus!
