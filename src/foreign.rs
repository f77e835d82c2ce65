//! Types and functions of other crates that the library relies on.
use vstd::prelude::*;
use reqwest::Error as RequestError;
use url::Url;

verus! {

/// `url::Url`, carried through as it is: share links, download pages and the
/// addresses that errors name.
#[verifier::external_type_specification]
#[verifier::external_body]
pub struct ExUrl(Url);

/// `mime::Mime`, the media type of a stored file, carried through as it is.
#[verifier::external_type_specification]
#[verifier::external_body]
pub struct ExMime(mime::Mime);

/// `reqwest::Error`, a failure of the transport, carried in `Error`.
#[verifier::external_type_specification]
#[verifier::external_body]
pub struct ExRequestError(RequestError);

/// `std::io::Error`, a failure to read a file, carried in `Error`.
#[verifier::external_type_specification]
#[verifier::external_body]
pub struct ExIoError(std::io::Error);

/// `std::path::PathBuf`, the path of a file that could not be uploaded,
/// carried in `Error`.
#[verifier::external_type_specification]
#[verifier::external_body]
pub struct ExPathBuf(std::path::PathBuf);

/// Relies on the `Clone` impl that url derives for `Url`, to put a copy of a
/// link into an error: the copy equals the link.
pub assume_specification[ <Url as Clone>::clone ](u: &Url) -> (r: Url)
    ensures
        r == *u,
;

/// The lower-case hexadecimal digit of `n`, which is below 16.
pub open spec fn hex_digit(n: u128) -> char {
    seq!['0', '1', '2', '3', '4', '5', '6', '7', '8', '9', 'a', 'b', 'c', 'd', 'e', 'f'][n as int]
}

/// The digits `from` up to `to` of the 32 hexadecimal digits of `bits`, the
/// most significant first.
pub open spec fn hex_digits(bits: u128, from: int, to: int) -> Seq<char> {
    Seq::new((to - from) as nat, |i: int| hex_digit((bits >> ((4 * (31 - (from + i))) as u128)) & 15u128))
}

/// The hyphenated lower-case text of the UUID whose 128 bits are `bits`: the
/// 32 digits of its big-endian bytes, with hyphens after the 8th, 12th, 16th
/// and 20th.
pub open spec fn uuid_text(bits: u128) -> Seq<char> {
    hex_digits(bits, 0, 8) + seq!['-'] + hex_digits(bits, 8, 12) + seq!['-'] + hex_digits(bits, 12, 16)
        + seq!['-'] + hex_digits(bits, 16, 20) + seq!['-'] + hex_digits(bits, 20, 32)
}

/// Relies on uuid's `Uuid::from_u128`, which takes the bits as big-endian
/// bytes, and the `Display` of its hyphenated form.
#[verifier::external_body]
pub(crate) fn uuid_string(bits: u128) -> (r: String)
    ensures
        r@ == uuid_text(bits),
{
    uuid::Uuid::from_u128(bits).hyphenated().to_string()
}

/// The path segments of `u` as `Url::path_segments` gives them.
pub uninterp spec fn segments_of(u: Url) -> Option<Seq<Seq<char>>>;

/// Relies on `url::Url::path_segments`: a function of the URL alone; `None`
/// for a URL that cannot be a base, otherwise the path split at each '/', so
/// that there is at least one segment and none holds a '/'.
#[verifier::external_body]
pub(crate) fn path_segments(u: &Url) -> (r: Option<Vec<String>>)
    ensures
        match r {
            Some(v) => segments_of(*u) == Some(v@.map_values(|s: String| s@)),
            None => segments_of(*u) is None,
        },
        r matches Some(v) ==> v@.len() >= 1,
        r matches Some(v) ==> forall|i: int| 0 <= i < v@.len() ==> !(#[trigger] v@[i])@.contains('/'),
{
    u.path_segments().map(|segs| segs.map(|s| s.to_string()).collect())
}

/// The URL that `url::Url::parse` makes of `text`, `None` where it fails.
pub uninterp spec fn parsed_url(text: Seq<char>) -> Option<Url>;

/// Relies on `url::Url::parse`, to turn an endpoint's address into a URL: a
/// function of the text alone; `None` where the text is not a valid URL.
#[verifier::external_body]
pub(crate) fn parse_url(text: &str) -> (r: Option<Url>)
    ensures
        r == parsed_url(text@),
{
    Url::parse(text).ok()
}

} // verus!
