//! Request targets: absolute URLs, parsed and given their query by the `url`
//! crate.
//!
//! A [`Target`] keeps one `url::Url`. What the library reasons about is its
//! [`UrlParts`]: the text in front of the query, the query and the fragment.
//! Parsing is left to the crate and only named here ([`url_parse`]); what
//! appending a query pair does is stated in full ([`UrlParts::with_pair`]).

use crate::encoding::{encoded_len, form_encoded, lemma_encoded_bytes_len};
use vstd::prelude::*;
use vstd::utf8::encode_utf8;

verus! {

broadcast use vstd::slice::group_slice_axioms;

/// `url::Url`, kept as the crate made it. What the library knows of one is
/// its [`url_parts`].
#[verifier::external_type_specification]
#[verifier::external_body]
pub struct ExUrl(url::Url);

/// `url::ParseError`, handed on as the crate gave it.
#[verifier::external_type_specification]
#[verifier::external_body]
pub struct ExParseError(url::ParseError);

/// The three pieces of a serialized URL:
/// `stem [ "?" query ] [ "#" fragment ]`.
pub struct UrlParts {
    /// Scheme, authority and path.
    pub stem: Seq<char>,
    /// What follows the `?`, where the URL has a query.
    pub query: Option<Seq<char>>,
    /// What follows the `#`, where the URL has a fragment.
    pub fragment: Option<Seq<char>>,
}

/// One name and one value of a query string, both as the caller wrote them.
pub type Pair = (Seq<char>, Seq<char>);

/// A name and a value as they stand in a query string: `name=value`, both
/// form-urlencoded.
pub open spec fn encoded_pair(name: Seq<char>, value: Seq<char>) -> Seq<char> {
    form_encoded(name) + seq!['='] + form_encoded(value)
}

impl UrlParts {
    /// The query with its leading `?`, or nothing.
    pub open spec fn query_text(self) -> Seq<char> {
        match self.query {
            Some(query) => seq!['?'] + query,
            None => Seq::empty(),
        }
    }

    /// The fragment with its leading `#`, or nothing.
    pub open spec fn fragment_text(self) -> Seq<char> {
        match self.fragment {
            Some(fragment) => seq!['#'] + fragment,
            None => Seq::empty(),
        }
    }

    /// The serialization of the URL.
    pub open spec fn text(self) -> Seq<char> {
        self.stem + self.query_text() + self.fragment_text()
    }

    /// The URL with `added` at the end of its query, after a `&` where the
    /// query already holds something. Stem and fragment stay.
    pub open spec fn with_query(self, added: Seq<char>) -> UrlParts {
        UrlParts {
            stem: self.stem,
            query: Some(
                match self.query {
                    Some(query) if query.len() > 0 => query + seq!['&'] + added,
                    _ => added,
                },
            ),
            fragment: self.fragment,
        }
    }

    /// The URL with one more pair at the end of its query.
    pub open spec fn with_pair(self, name: Seq<char>, value: Seq<char>) -> UrlParts {
        self.with_query(encoded_pair(name, value))
    }

    /// The URL with all of `pairs` appended in order.
    pub open spec fn with_pairs(self, pairs: Seq<Pair>) -> UrlParts
        decreases pairs.len(),
    {
        if pairs.len() == 0 {
            self
        } else {
            self.with_pairs(pairs.drop_last()).with_pair(pairs.last().0, pairs.last().1)
        }
    }

    /// Whether one more pair can be appended: the `url` crate addresses a URL
    /// with 32-bit offsets, so the URL must stay within four gigabytes. The
    /// pair adds its name and its value as they are encoded, the `=` between
    /// them and at most one `?` or `&` in front.
    pub open spec fn has_room(self, name: Seq<char>, value: Seq<char>) -> bool {
        encode_utf8(self.text()).len() + form_encoded(name).len() + form_encoded(value).len() + 2
            <= u32::MAX
    }

    /// Whether all of `pairs` can be appended one after the other.
    pub open spec fn has_room_for(self, pairs: Seq<Pair>) -> bool
        decreases pairs.len(),
    {
        pairs.len() > 0 ==> {
            &&& self.has_room_for(pairs.drop_last())
            &&& self.with_pairs(pairs.drop_last()).has_room(pairs.last().0, pairs.last().1)
        }
    }
}

/// Two pairs appended one after the other stand in the query with one `&`
/// between them.
pub proof fn lemma_two_pairs(parts: UrlParts, first: Pair, second: Pair)
    ensures
        parts.with_pairs(seq![first, second]) == parts.with_query(
            encoded_pair(first.0, first.1) + seq!['&'] + encoded_pair(second.0, second.1),
        ),
{
    let pairs = seq![first, second];
    assert(pairs.drop_last() =~= seq![first]);
    assert(seq![first].drop_last() =~= Seq::<Pair>::empty());
    reveal_with_fuel(UrlParts::with_pairs, 3);
    let one = parts.with_pair(first.0, first.1);
    assert(parts.with_pairs(seq![first]) == one);
    assert(one.query->0.len() > 0);
    let left = one.with_pair(second.0, second.1).query->0;
    let right = parts.with_query(
        encoded_pair(first.0, first.1) + seq!['&'] + encoded_pair(second.0, second.1),
    ).query->0;
    assert(left =~= right);
}

/// One pair appended is one addition to the query.
pub proof fn lemma_one_pair(parts: UrlParts, only: Pair)
    ensures
        parts.with_pairs(seq![only]) == parts.with_query(encoded_pair(only.0, only.1)),
{
    assert(seq![only].drop_last() =~= Seq::<Pair>::empty());
    reveal_with_fuel(UrlParts::with_pairs, 2);
}

/// The pieces of the serialization that a `url::Url` holds: what `query()`
/// and `fragment()` give of it, and as the stem all that stands in front of
/// them.
pub uninterp spec fn url_parts(url: url::Url) -> UrlParts;

/// What `url::Url::parse` makes of a text: the pieces of the URL, or the
/// reason why the text is no absolute URL.
pub uninterp spec fn url_parse(input: Seq<char>) -> Result<UrlParts, url::ParseError>;

/// `url::Url::parse`. The contract only names the outcome: the URL or the
/// error that [`url_parse`] stands for, the same for the same text.
#[verifier::external_body]
fn parse_url(input: &str) -> (parsed: Result<url::Url, url::ParseError>)
    ensures
        match (parsed, url_parse(input@)) {
            (Ok(url), Ok(parts)) => url_parts(url) == parts,
            (Err(error), Err(reason)) => error == reason,
            _ => false,
        },
{
    url::Url::parse(input)
}

/// `url::Url::query_pairs_mut` followed by `append_pair` of the serializer
/// that it gives. The serializer writes the pair form-urlencoded at the end
/// of the query, after a `&` if the query is not empty, and opens the query
/// with `?` if the URL had none; the fragment is taken off before and put
/// back after. The crate panics where an offset into the serialization
/// leaves 32 bits, hence the `requires`: with it the whole URL stays within
/// 32 bits, and every offset with it.
#[verifier::external_body]
fn append_url_pair(url: &mut url::Url, name: &str, value: &str)
    requires
        url_parts(*old(url)).has_room(name@, value@),
    ensures
        url_parts(*final(url)) == url_parts(*old(url)).with_pair(name@, value@),
{
    url.query_pairs_mut().append_pair(name, value);
}

/// `url::Url::as_str`: the serialization, which is the three pieces in a row,
/// the query behind its `?` and the fragment behind its `#`.
#[verifier::external_body]
fn url_as_str(url: &url::Url) -> (text: &str)
    ensures
        text@ == url_parts(*url).text(),
{
    url.as_str()
}

/// Why a request target could not be built.
#[derive(Debug)]
pub enum TargetError {
    /// The text is no absolute URL; the reason is the parser's.
    Invalid(url::ParseError),
    /// The query would take the URL beyond four gigabytes.
    TooLong,
}

/// An absolute URL that a request can be sent to.
pub struct Target {
    url: url::Url,
}

impl View for Target {
    type V = UrlParts;

    closed spec fn view(&self) -> UrlParts {
        url_parts(self.url)
    }
}

impl Target {
    /// Parses an absolute URL.
    pub fn parse(input: &str) -> (parsed: Result<Target, TargetError>)
        ensures
            match (parsed, url_parse(input@)) {
                (Ok(target), Ok(parts)) => target@ == parts,
                (Err(TargetError::Invalid(error)), Err(reason)) => error == reason,
                _ => false,
            },
    {
        match parse_url(input) {
            Ok(url) => Ok(Target { url }),
            Err(error) => Err(TargetError::Invalid(error)),
        }
    }

    /// The serialization of the URL.
    pub fn as_str(&self) -> (text: &str)
        ensures
            text@ == self@.text(),
    {
        url_as_str(&self.url)
    }

    /// Whether one more pair can be appended.
    pub fn room_for(&self, name: &str, value: &str) -> (enough: bool)
        ensures
            enough == self@.has_room(name@, value@),
    {
        let used: u128 = self.as_str().as_bytes().len() as u128;
        let named: u128 = name.as_bytes().len() as u128;
        let valued: u128 = value.as_bytes().len() as u128;
        proof {
            lemma_encoded_bytes_len(encode_utf8(name@));
            lemma_encoded_bytes_len(encode_utf8(value@));
        }
        if used + 3 * (named + valued) + 2 <= 0xFFFF_FFFF {
            true
        } else if used + named + valued + 2 > 0xFFFF_FFFF {
            false
        } else {
            used + encoded_len(name) + encoded_len(value) + 2 <= 0xFFFF_FFFF
        }
    }

    /// Appends one pair to the query.
    pub fn append_pair(&mut self, name: &str, value: &str)
        requires
            old(self)@.has_room(name@, value@),
        ensures
            final(self)@ == old(self)@.with_pair(name@, value@),
    {
        append_url_pair(&mut self.url, name, value);
    }

    /// Appends one pair to the query where there is room for it, and says
    /// whether it did. Without room the target stays as it is.
    pub fn try_append_pair(&mut self, name: &str, value: &str) -> (appended: bool)
        ensures
            appended == old(self)@.has_room(name@, value@),
            appended ==> final(self)@ == old(self)@.with_pair(name@, value@),
            !appended ==> final(self)@ == old(self)@,
    {
        if self.room_for(name, value) {
            self.append_pair(name, value);
            true
        } else {
            false
        }
    }
}

} // verus!
