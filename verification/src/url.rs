//! Absolute URLs, held by their normal text.

use vstd::prelude::*;

use crate::decode::{DecodeError, DecodeFailure, Expected, Shape};
use crate::json::{Json, JsonValue};

verus! {

/// An absolute URL, held as the text that the `url` crate writes for it.
#[derive(Debug, PartialEq, Eq, Hash)]
pub struct Url {
    text: String,
}

/// The normal text of the absolute URL that `input` spells, if it spells one.
pub uninterp spec fn url_of_text(input: Seq<char>) -> Option<Seq<char>>;

/// `text` is the normal text of a URL: reading it gives the same text.
pub open spec fn is_url(text: Seq<char>) -> bool {
    url_of_text(text) == Some(text)
}

/// `url::Url::parse`, then `String::from`: the normal text of the URL that
/// `input` spells. Beside naming the result the contract says that the normal
/// text reads back as itself, which the crate keeps as an invariant of every
/// `Url`.
#[verifier::external_body]
fn normalize(input: &str) -> (out: Option<String>)
    ensures
        out is Some == url_of_text(input@) is Some,
        out is Some ==> out->Some_0@ == url_of_text(input@)->Some_0,
        out is Some ==> is_url(out->Some_0@),
{
    ::url::Url::parse(input).ok().map(String::from)
}

/// The scheme of the URL that `text` spells, lower-cased and without the
/// colon, if it spells one.
pub uninterp spec fn scheme_of_url(text: Seq<char>) -> Option<Seq<char>>;

/// The host of the URL that `text` spells, if it spells one that has a host.
pub uninterp spec fn host_of_url(text: Seq<char>) -> Option<Seq<char>>;

/// `url::Url::parse`, then `Url::scheme`: the scheme of the URL that `text`
/// spells. The contract only names the result.
#[verifier::external_body]
fn read_scheme(text: &str) -> (out: Option<String>)
    ensures
        out is Some == scheme_of_url(text@) is Some,
        out is Some ==> out->Some_0@ == scheme_of_url(text@)->Some_0,
{
    ::url::Url::parse(text).ok().map(|url| url.scheme().to_owned())
}

/// `url::Url::parse`, then `Url::host_str`: the host of the URL that `text`
/// spells. The contract only names the result.
#[verifier::external_body]
fn read_host(text: &str) -> (out: Option<String>)
    ensures
        out is Some == host_of_url(text@) is Some,
        out is Some ==> out->Some_0@ == host_of_url(text@)->Some_0,
{
    ::url::Url::parse(text).ok().and_then(|url| url.host_str().map(str::to_owned))
}

/// The query of the URL that `text` spells, if it spells one that has a query.
pub uninterp spec fn query_of_url(text: Seq<char>) -> Option<Seq<char>>;

/// The normal text of the URL that `text` spells after its query was set to
/// `query`.
pub uninterp spec fn with_query_of(text: Seq<char>, query: Seq<char>) -> Seq<char>;

/// `url::Url::parse`, then `Url::query`: the query of the URL that `text`
/// spells. The contract only names the result.
#[verifier::external_body]
fn read_query(text: &str) -> (out: Option<String>)
    ensures
        out is Some == query_of_url(text@) is Some,
        out is Some ==> out->Some_0@ == query_of_url(text@)->Some_0,
{
    ::url::Url::parse(text).ok().and_then(|url| url.query().map(str::to_owned))
}

/// A URL and a query are short enough to be joined: even if every byte of
/// the query had to be written as three, the URL would stay below the four
/// gigabytes that the `url` crate can address.
pub open spec fn query_fits(text: Seq<char>, query: Seq<char>) -> bool {
    vstd::utf8::encode_utf8(text).len() + 3 * vstd::utf8::encode_utf8(query).len() + 2
        <= 0xffff_ffff
}

/// `url::Url::parse`, then `Url::set_query` and `String::from`: the normal
/// text of the URL with its query set to `query`; empty if `text` spelled no
/// URL. Beside naming the result the contract says that the result is the
/// normal text of a URL, which the crate keeps as an invariant of every
/// `Url`. `set_query` panics where the URL grows beyond four gigabytes; the
/// precondition keeps away from that.
#[verifier::external_body]
fn write_query(text: &str, query: &str) -> (out: String)
    requires
        is_url(text@),
        query_fits(text@, query@),
    ensures
        out@ == with_query_of(text@, query@),
        is_url(out@),
{
    let mut url = ::url::Url::parse(text).ok();
    if let Some(u) = url.as_mut() {
        u.set_query(Some(query));
    }
    url.map(String::from).unwrap_or_default()
}

/// The scheme of a URL by its text; empty where the text spells none.
pub open spec fn scheme_text(text: Seq<char>) -> Seq<char> {
    match scheme_of_url(text) {
        Some(s) => s,
        None => Seq::empty(),
    }
}

impl Clone for Url {
    fn clone(&self) -> (copy: Url)
        ensures
            copy@ == self@,
    {
        proof {
            use_type_invariant(self);
        }
        Url { text: self.text.clone() }
    }
}

impl View for Url {
    type V = Seq<char>;

    closed spec fn view(&self) -> Seq<char> {
        self.text@
    }
}

/// The URL that a JSON string spells, by its normal text.
pub open spec fn url_of(value: JsonValue) -> Result<Seq<char>, DecodeFailure> {
    match value {
        JsonValue::Text(text) => match url_of_text(text) {
            Some(normal) => Ok(normal),
            None => Err(DecodeFailure::Malformed { shape: Shape::Url, text }),
        },
        _ => Err(DecodeFailure::Unexpected { expected: Expected::Text }),
    }
}

impl Url {
    /// Every `Url` holds the normal text of a URL.
    #[verifier::type_invariant]
    spec fn normal(&self) -> bool {
        is_url(self.text@)
    }

    /// Reads an absolute URL.
    pub fn parse(input: &str) -> (out: Option<Url>)
        ensures
            out is Some == url_of_text(input@) is Some,
            out is Some ==> out->Some_0@ == url_of_text(input@)->Some_0,
    {
        match normalize(input) {
            Some(text) => Some(Url { text }),
            None => None,
        }
    }

    /// The normal text of this URL.
    pub fn as_str(&self) -> (text: &str)
        ensures
            text@ == self@,
            is_url(self@),
    {
        proof {
            use_type_invariant(self);
        }
        self.text.as_str()
    }

    /// The scheme of this URL, lower-cased and without the colon.
    pub fn scheme(&self) -> (out: String)
        ensures
            out@ == scheme_text(self@),
    {
        match read_scheme(self.text.as_str()) {
            Some(s) => s,
            None => String::new(),
        }
    }

    /// The host of this URL, if it has one.
    pub fn host_str(&self) -> (out: Option<String>)
        ensures
            crate::decode::option_view(out) == host_of_url(self@),
    {
        read_host(self.text.as_str())
    }

    /// The query of this URL, if it has one.
    pub fn query(&self) -> (out: Option<String>)
        ensures
            crate::decode::option_view(out) == query_of_url(self@),
    {
        read_query(self.text.as_str())
    }

    /// This URL with its query set to `query`; `None` where the two are too
    /// long to be joined.
    pub fn with_query(&self, query: &str) -> (out: Option<Url>)
        ensures
            crate::decode::option_view(out) == if query_fits(self@, query@) {
                Some(with_query_of(self@, query@))
            } else {
                None
            },
    {
        proof {
            use_type_invariant(self);
        }
        let have: u64 = self.text.as_str().as_bytes().len() as u64;
        let more: u64 = query.as_bytes().len() as u64;
        if have <= 0xffff_ffff && more <= 0x5555_5555 && have + 3 * more + 2 <= 0xffff_ffff {
            Some(Url { text: write_query(self.text.as_str(), query) })
        } else {
            None
        }
    }

    /// Decodes a URL from a JSON string.
    pub fn from_json(value: &Json) -> (out: Result<Url, DecodeError>)
        ensures
            crate::decode::outcome(out) == url_of(value@),
    {
        match value {
            Json::Text(text) => match Url::parse(text.as_str()) {
                Some(url) => Ok(url),
                None => Err(DecodeError::Malformed { shape: Shape::Url, text: text.clone() }),
            },
            _ => Err(DecodeError::Unexpected { expected: Expected::Text }),
        }
    }

    /// Encodes this URL as a JSON string. It reads back as this URL.
    pub fn to_json(&self) -> (out: Json)
        ensures
            out@ == JsonValue::Text(self@),
            is_url(self@),
    {
        proof {
            use_type_invariant(self);
        }
        Json::Text(self.text.clone())
    }
}

} // verus!
