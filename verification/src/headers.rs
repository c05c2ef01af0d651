//! The header set that a task sends with its submission.
//!
//! The set is an `http` header map, as `reqwest` hands it on, and opaque
//! to the verifier. What it holds is given a name here, and the functions
//! below are believed to do to it what the source of `http` shows.

use vstd::prelude::*;
use vstd::multiset::Multiset;
use vstd::utf8::encode_utf8;
use reqwest::header::{HeaderMap, HeaderName, HeaderValue, InvalidHeaderName, InvalidHeaderValue};
use crate::agent::{generate_user_agent, is_user_agent};

verus! {

/// `http::HeaderMap`: names with the values that were given to each.
#[verifier::external_type_specification]
#[verifier::external_body]
#[verifier::reject_recursive_types(T)]
pub struct ExHeaderMap<T>(HeaderMap<T>);

/// `http::header::HeaderName`: a checked header name.
#[verifier::external_type_specification]
#[verifier::external_body]
pub struct ExHeaderName(HeaderName);

/// `http::header::HeaderValue`: a checked header value.
#[verifier::external_type_specification]
#[verifier::external_body]
pub struct ExHeaderValue(HeaderValue);

/// `http::header::InvalidHeaderName`: the name was refused.
#[verifier::external_type_specification]
#[verifier::external_body]
pub struct ExInvalidHeaderName(InvalidHeaderName);

/// `http::header::InvalidHeaderValue`: the value was refused.
#[verifier::external_type_specification]
#[verifier::external_body]
pub struct ExInvalidHeaderValue(InvalidHeaderValue);

/// The entries of `map`: each name once with each value given to it.
pub uninterp spec fn header_entries(map: HeaderMap) -> Multiset<(HeaderName, HeaderValue)>;

/// The header name that `HeaderName::from_bytes` makes of `text`; `None`
/// where it refuses the bytes.
pub uninterp spec fn header_name_read(text: Seq<u8>) -> Option<HeaderName>;

/// The header value that `HeaderValue::from_str` makes of `text`; `None`
/// where it refuses the text.
pub uninterp spec fn header_value_read(text: Seq<char>) -> Option<HeaderValue>;

/// The number of entries below which a header map is kept here. Far more
/// fit before `append` gives up.
pub const HEADER_LIMIT: usize = 1024;

/// Whether a byte may stand in a header value: a tab, or anything from the
/// space on but the delete character.
pub open spec fn is_value_byte(b: u8) -> bool {
    (b >= 32 && b != 127) || b == 9
}

/// Whether `text` may be a header value: every byte of it may stand in
/// one.
pub open spec fn is_header_value(text: Seq<char>) -> bool {
    forall|i: int| 0 <= i < encode_utf8(text).len() ==> is_value_byte(#[trigger] encode_utf8(text)[i])
}

/// A header map without entries.
///
/// Calls `HeaderMap::new`, which makes an empty map and cannot fail.
#[verifier::external_body]
pub(crate) fn empty_headers() -> (map: HeaderMap)
    ensures
        header_entries(map) == Multiset::<(HeaderName, HeaderValue)>::empty(),
{
    HeaderMap::new()
}

/// Checks `text` as a header name.
///
/// Calls `HeaderName::from_bytes`, which looks each byte up in a table and
/// normalizes the name. The contract claims only that the result is a
/// function of the bytes: the name, or the fact that there is none, is
/// what `header_name_read` names.
#[verifier::external_body]
pub(crate) fn header_name(text: &[u8]) -> (checked: Result<HeaderName, InvalidHeaderName>)
    ensures
        match checked {
            Ok(name) => header_name_read(text@) == Some(name),
            Err(_) => header_name_read(text@) is None,
        },
{
    HeaderName::from_bytes(text)
}

/// Checks `text` as a header value.
///
/// Calls `HeaderValue::from_str`, which accepts the text if each of its
/// bytes is a tab or at least 32 and not 127, and refuses it otherwise.
/// The contract claims that, and that the value is a function of the text,
/// named `header_value_read`.
#[verifier::external_body]
pub(crate) fn header_value(text: &str) -> (checked: Result<HeaderValue, InvalidHeaderValue>)
    ensures
        checked is Ok == is_header_value(text@),
        match checked {
            Ok(value) => header_value_read(text@) == Some(value),
            Err(_) => header_value_read(text@) is None,
        },
{
    HeaderValue::from_str(text)
}

/// Adds one entry to `map`.
///
/// Calls `HeaderMap::append`, which keeps the values that the name already
/// has and adds this one. It panics when the map cannot grow any further,
/// which takes thousands of names: `requires` keeps the map far smaller.
#[verifier::external_body]
pub(crate) fn append_header(map: &mut HeaderMap, name: HeaderName, value: HeaderValue)
    requires
        header_entries(*old(map)).len() < HEADER_LIMIT,
    ensures
        header_entries(*final(map)) == header_entries(*old(map)).insert((name, value)),
{
    map.append(name, value);
}

/// The names and values that a task would like to send, in this order; the
/// last is the user agent.
pub open spec fn wanted_headers(user_agent: Seq<char>) -> Seq<(Seq<char>, Seq<char>)> {
    seq![
        ("authority"@, "bonfire.robinhood.com"@),
        ("accept"@, "*/*"@),
        ("accept-language"@, "ru-RU,ru;q=0.9,en-US;q=0.8,en;q=0.7"@),
        ("content-type"@, "text/plain;charset=UTF-8"@),
        ("origin"@, "https://robinhood.com"@),
        ("referer"@, "https://robinhood.com/"@),
        ("sec-ch-ua"@, ""@),
        ("sec-ch-ua-mobile"@, "?0"@),
        ("sec-ch-ua-platform"@, "\"Windows\""@),
        ("sec-fetch-dest"@, "empty"@),
        ("sec-fetch-mode"@, "cors"@),
        ("sec-fetch-site"@, "same-site"@),
        ("user-agent"@, user_agent),
    ]
}

/// The entries that are kept of `wanted`: those whose name and value are
/// both accepted. The others are left out without a word.
pub open spec fn kept_entries(wanted: Seq<(Seq<char>, Seq<char>)>) -> Multiset<
    (HeaderName, HeaderValue),
>
    decreases wanted.len(),
{
    if wanted.len() == 0 {
        Multiset::empty()
    } else {
        let before = kept_entries(wanted.drop_last());
        match (
            header_name_read(encode_utf8(wanted.last().0)),
            header_value_read(wanted.last().1),
        ) {
            (Some(name), Some(value)) => before.insert((name, value)),
            _ => before,
        }
    }
}

/// No more entries are kept than were wanted.
pub proof fn lemma_kept_len(wanted: Seq<(Seq<char>, Seq<char>)>)
    ensures
        kept_entries(wanted).len() <= wanted.len(),
    decreases wanted.len(),
{
    if wanted.len() > 0 {
        lemma_kept_len(wanted.drop_last());
    }
}

/// The header set for a task that presents `user_agent`.
pub fn headers_for(user_agent: &str) -> (headers: HeaderMap)
    ensures
        header_entries(headers) == kept_entries(wanted_headers(user_agent@)),
{
    let wanted: [(&str, &str); 13] = [
        ("authority", "bonfire.robinhood.com"),
        ("accept", "*/*"),
        ("accept-language", "ru-RU,ru;q=0.9,en-US;q=0.8,en;q=0.7"),
        ("content-type", "text/plain;charset=UTF-8"),
        ("origin", "https://robinhood.com"),
        ("referer", "https://robinhood.com/"),
        ("sec-ch-ua", ""),
        ("sec-ch-ua-mobile", "?0"),
        ("sec-ch-ua-platform", "\"Windows\""),
        ("sec-fetch-dest", "empty"),
        ("sec-fetch-mode", "cors"),
        ("sec-fetch-site", "same-site"),
        ("user-agent", user_agent),
    ];
    let ghost all = wanted_headers(user_agent@);
    assert(all.len() == 13);
    assert forall|k: int| 0 <= k < 13 implies (#[trigger] wanted@[k]).0@ == all[k].0 && wanted@[k].1@
        == all[k].1 by {}
    let mut headers = empty_headers();
    let mut i: usize = 0;
    while i < 13
        invariant
            i <= 13,
            all == wanted_headers(user_agent@),
            all.len() == 13,
            forall|k: int|
                0 <= k < 13 ==> (#[trigger] wanted@[k]).0@ == all[k].0 && wanted@[k].1@ == all[k].1,
            header_entries(headers) == kept_entries(all.take(i as int)),
        decreases 13 - i,
    {
        proof {
            lemma_kept_len(all.take(i as int));
            assert(all.take(i + 1).drop_last() =~= all.take(i as int));
            assert(all.take(i + 1).last() == all[i as int]);
        }
        let (name, value) = wanted[i];
        assert(wanted@[i as int].0@ == all[i as int].0);
        match header_name(name.as_bytes()) {
            Ok(name) => {
                match header_value(value) {
                    Ok(value) => {
                        append_header(&mut headers, name, value);
                    },
                    Err(_) => {},
                }
            },
            Err(_) => {},
        }
        i = i + 1;
    }
    assert(all.take(13) =~= all);
    headers
}

/// The header set for a task, with a user agent made up for it.
pub fn generate_headers() -> (headers: HeaderMap)
    ensures
        exists|user_agent: Seq<char>|
            is_user_agent(user_agent) && header_entries(headers) == #[trigger] kept_entries(
                wanted_headers(user_agent),
            ),
{
    let user_agent = generate_user_agent();
    headers_for(user_agent.as_str())
}

} // verus!
