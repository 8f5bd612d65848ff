//! Calls into other crates and into parts of the standard library.
use crate::codec;
use crate::text;
use vstd::prelude::*;

verus! {

/// The characters of a text in lower case, by the rules of Unicode.
pub uninterp spec fn lowercase(s: Seq<char>) -> Seq<char>;

/// Every character is one of the 128 of ASCII.
pub open spec fn is_ascii(s: Seq<char>) -> bool {
    forall|i: int| 0 <= i < s.len() ==> #[trigger] s[i] <= '\u{7f}'
}

/// `str::to_lowercase` gives the text in lower case, by the rules of Unicode, and depends on the
/// text alone. Of a text in ASCII it changes the letters from `A` to `Z` and nothing else.
pub assume_specification[ str::to_lowercase ](s: &str) -> (lower: String)
    ensures
        lower@ == lowercase(s@),
        is_ascii(s@) ==> lower@ == text::ascii_lower(s@),
;

/// The host that a text names, where it is an absolute URL with a host: a domain, in lower case
/// and in ASCII under the schemes of the web, or an address.
pub uninterp spec fn url_host(url: Seq<char>) -> Option<Seq<char>>;

/// `url::Url::parse`, and `url::Url::host_str` on what it gives: the host that a text names; none
/// where the text is no absolute URL, or one without a host. It depends on the text alone.
#[verifier::external_body]
pub(crate) fn host_of(url: &str) -> (host: Option<String>)
    ensures
        codec::opt_view(host) == url_host(url@),
{
    match url::Url::parse(url) {
        Ok(parsed) => parsed.host_str().map(|host| host.to_owned()),
        Err(_) => None,
    }
}

/// The text that a JSON string stands for; none where the JSON is anything else.
pub uninterp spec fn json_text(json: Seq<char>) -> Option<Seq<char>>;

/// A text that stands in a JSON string as it is: it holds no quotation mark, no backslash and no
/// control character below the space.
pub open spec fn plain_in_json(s: Seq<char>) -> bool {
    forall|i: int| 0 <= i < s.len() ==> #[trigger] s[i] >= ' ' && s[i] != '"' && s[i] != '\\'
}

/// A text between quotation marks.
pub open spec fn quoted(s: Seq<char>) -> Seq<char> {
    seq!['"'] + s + seq!['"']
}

/// Where the JSON is a text that needs no escapes between quotation marks, that text was found.
pub open spec fn plainly_read(json: Seq<char>, found: Option<Seq<char>>) -> bool {
    forall|inner: Seq<char>|
        json == #[trigger] quoted(inner) && plain_in_json(inner) ==> found == Some(inner)
}

/// `serde_json::from_str::<String>` reads a JSON string and gives its text; none where the JSON is
/// malformed or anything but a string. It depends on the JSON alone. A text that needs no escapes
/// is given as it stands between the quotation marks.
#[verifier::external_body]
pub(crate) fn text_of_json(json: &str) -> (found: Option<String>)
    ensures
        codec::opt_view(found) == json_text(json@),
        plainly_read(json@, codec::opt_view(found)),
{
    serde_json::from_str::<String>(json).ok()
}

/// The digits with which hexadecimal numbers are written in lower case.
pub open spec fn is_hex(c: char) -> bool {
    '0' <= c <= '9' || 'a' <= c <= 'f'
}

/// A random UUID as text: groups of 8, 4, 4, 4 and 12 hexadecimal digits with hyphens between
/// them, the third beginning with the version 4, the fourth with the variant.
pub open spec fn is_random_uuid(s: Seq<char>) -> bool {
    &&& s.len() == 36
    &&& forall|i: int|
        0 <= i < 36 ==> if i == 8 || i == 13 || i == 18 || i == 23 {
            #[trigger] s[i] == '-'
        } else {
            is_hex(s[i])
        }
    &&& s[14] == '4'
    &&& s[19] == '8' || s[19] == '9' || s[19] == 'a' || s[19] == 'b'
}

/// `uuid::Uuid::new_v4` as text. Which UUID it is, chance decides; that it is one of version 4 and
/// how it is written holds of each. It asks the system for random bytes, and panics on a system
/// that has none.
#[verifier::external_body]
pub(crate) fn random_uuid() -> (id: String)
    ensures
        is_random_uuid(id@),
{
    uuid::Uuid::new_v4().to_string()
}

} // verus!
