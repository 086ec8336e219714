//! URLs and form fields.

use vstd::prelude::*;
use vstd::utf8::*;

verus! {

pub open spec fn pair_views(pairs: Seq<(String, String)>) -> Seq<(Seq<char>, Seq<char>)> {
    Seq::new(pairs.len(), |i: int| (pairs[i].0@, pairs[i].1@))
}

pub open spec fn str_pair_views(pairs: Seq<(&str, &str)>) -> Seq<(Seq<char>, Seq<char>)> {
    Seq::new(pairs.len(), |i: int| (pairs[i].0@, pairs[i].1@))
}

/// The fields of a text in the form syntax.
pub uninterp spec fn form_fields(bytes: Seq<u8>) -> Seq<(Seq<char>, Seq<char>)>;

/// Calls `url::form_urlencoded::parse`. The fields depend on the bytes alone.
#[verifier::external_body]
pub(crate) fn parse_form(bytes: &[u8]) -> (fields: Vec<(String, String)>)
    ensures
        pair_views(fields@) == form_fields(bytes@),
{
    url::form_urlencoded::parse(bytes).into_owned().collect()
}

/// The text of fields in the form syntax.
pub uninterp spec fn form_text(fields: Seq<(Seq<char>, Seq<char>)>) -> Seq<char>;

/// The text of the fields gives them back.
pub open spec fn reads_back(fields: Seq<(Seq<char>, Seq<char>)>) -> bool {
    form_fields(encode_utf8(form_text(fields))) == fields
}

/// Calls `extend_pairs` of `url::form_urlencoded::Serializer`, which appends each field
/// in turn. The text depends on the fields alone, and parsing it gives them back.
#[verifier::external_body]
pub(crate) fn encode_form(fields: &Vec<(&str, &str)>) -> (text: String)
    ensures
        text@ == form_text(str_pair_views(fields@)),
        form_fields(encode_utf8(text@)) == str_pair_views(fields@),
{
    url::form_urlencoded::Serializer::new(String::new()).extend_pairs(fields).finish()
}

/// The scheme and the host of a URL, if the text is one.
pub uninterp spec fn scheme_and_host_of(text: Seq<char>) -> Option<(Seq<char>, Option<Seq<char>>)>;

pub open spec fn scheme_and_host_view(parts: Option<(String, Option<String>)>) -> Option<
    (Seq<char>, Option<Seq<char>>),
> {
    match parts {
        Some((scheme, host)) => Some((scheme@, crate::text::view_of(host))),
        None => None,
    }
}

/// Calls `url::Url::parse`, `scheme` and `host_str`. They depend on the text alone.
#[verifier::external_body]
pub(crate) fn scheme_and_host(text: &str) -> (parts: Option<(String, Option<String>)>)
    ensures
        scheme_and_host_view(parts) == scheme_and_host_of(text@),
{
    let url = url::Url::parse(text).ok()?;
    Some((url.scheme().to_owned(), url.host_str().map(str::to_owned)))
}

/// A URL with another path and without query and fragment.
pub uninterp spec fn url_at_path(base: Seq<char>, path: Seq<char>) -> Option<Seq<char>>;

/// Calls `url::Url::parse`, `set_path`, `set_query(None)` and `set_fragment(None)`. Only
/// the parse can fail. The setters count positions in 32 bits and panic beyond; the
/// bound keeps clear of that.
#[verifier::external_body]
pub(crate) fn with_path(base: &str, path: &str) -> (text: Option<String>)
    requires
        base@.len() + path@.len() <= 0x1000_0000,
    ensures
        crate::text::view_of(text) == url_at_path(base@, path@),
        text is Some <==> scheme_and_host_of(base@) is Some,
{
    let mut url = url::Url::parse(base).ok()?;
    url.set_path(path);
    url.set_query(None);
    url.set_fragment(None);
    Some(url.into())
}

/// A URL with another path, with these fields as its query and without fragment.
pub open spec fn url_at_path_with_query(
    base: Seq<char>,
    path: Seq<char>,
    fields: Seq<(Seq<char>, Seq<char>)>,
) -> Option<Seq<char>> {
    match url_at_path(base, path) {
        Some(url) => Some(url + "?"@ + form_text(fields)),
        None => None,
    }
}

/// Calls what [`with_path`] calls, and then `extend_pairs` on `query_pairs_mut`: that puts
/// a question mark behind the URL, which has no query then, and behind it what
/// [`encode_form`] writes. The fields read back as [`encode_form`] says.
#[verifier::external_body]
pub(crate) fn with_path_and_query(
    base: &str,
    path: &str,
    fields: &Vec<(&str, &str)>,
) -> (text: Option<String>)
    requires
        base@.len() + path@.len() <= 0x1000_0000,
    ensures
        crate::text::view_of(text) == url_at_path_with_query(
            base@,
            path@,
            str_pair_views(fields@),
        ),
        text is Some <==> scheme_and_host_of(base@) is Some,
        text is Some ==> reads_back(str_pair_views(fields@)),
{
    let mut url = url::Url::parse(base).ok()?;
    url.set_path(path);
    url.set_query(None);
    url.set_fragment(None);
    url.query_pairs_mut().extend_pairs(fields);
    Some(url.into())
}

} // verus!
