//! Requests: what the transport is asked to fetch.
//!
//! Every request is a GET without a body, and its target is a URL that the
//! `url` crate has parsed. A target without parameters is sent as it was
//! written; one with parameters is the parsed URL with its query appended
//! pair by pair.

use crate::target::{url_parse, Pair, Target, TargetError, UrlParts};
use crate::text::{lemma_occurrences_add, occurrences};
use vstd::prelude::*;
use vstd::string::*;

verus! {

/// The `User-Agent` that every request carries.
pub const USER_AGENT: &'static str = "piped-rust-sdk/0.1.0";

/// A GET request.
#[derive(Debug)]
pub struct Request {
    /// The URL to fetch.
    pub target: String,
    /// The value of the `User-Agent` header.
    pub user_agent: String,
}

/// The view of a [`Request`].
pub struct RequestView {
    pub target: Seq<char>,
    pub user_agent: Seq<char>,
}

impl View for Request {
    type V = RequestView;

    open spec fn view(&self) -> RequestView {
        RequestView { target: self.target@, user_agent: self.user_agent@ }
    }
}

/// The request for `target` as this library sends it.
pub open spec fn get(target: Seq<char>) -> RequestView {
    RequestView { target, user_agent: USER_AGENT@ }
}

impl Request {
    /// The request for `target`.
    pub fn to(target: String) -> (request: Request)
        ensures
            request@ == get(target@),
    {
        Request { target, user_agent: USER_AGENT.to_owned() }
    }
}

/// The texts in a row, with `separator` between each two of them.
pub open spec fn joined(texts: Seq<Seq<char>>, separator: Seq<char>) -> Seq<char>
    decreases texts.len(),
{
    if texts.len() == 0 {
        Seq::empty()
    } else if texts.len() == 1 {
        texts[0]
    } else {
        joined(texts.drop_last(), separator) + separator + texts.last()
    }
}

/// Writes the texts in a row, with `separator` between each two of them.
pub fn join(texts: &Vec<String>, separator: &str) -> (row: String)
    ensures
        row@ == joined(texts.deep_view(), separator@),
{
    let ghost views = texts.deep_view();
    let mut row: String = String::new();
    let mut i: usize = 0;
    while i < texts.len()
        invariant
            i <= texts.len(),
            views == texts.deep_view(),
            views.len() == texts.len(),
            row@ == joined(views.take(i as int), separator@),
        decreases texts.len() - i,
    {
        if i > 0 {
            row.append(separator);
        }
        row.append(texts[i].as_str());
        proof {
            let before = views.take(i as int);
            let after = views.take(i as int + 1);
            assert(after.drop_last() =~= before);
            assert(after.last() == texts@[i as int]@);
            if i == 0 {
                assert(row@ =~= after[0]);
            }
        }
        i = i + 1;
    }
    assert(views.take(i as int) =~= views);
    row
}

/// The target `text` where it is a URL, or why it is none.
pub open spec fn checked_target(text: Seq<char>) -> Result<Seq<char>, TargetError> {
    match url_parse(text) {
        Err(reason) => Err(TargetError::Invalid(reason)),
        Ok(_) => Ok(text),
    }
}

/// The target that comes of parsing `base` and appending `pairs` to its
/// query, or why there is none.
pub open spec fn query_target(base: Seq<char>, pairs: Seq<Pair>) -> Result<Seq<char>, TargetError> {
    match url_parse(base) {
        Err(reason) => Err(TargetError::Invalid(reason)),
        Ok(parts) => if parts.has_room_for(pairs) {
            Ok(parts.with_pairs(pairs).text())
        } else {
            Err(TargetError::TooLong)
        },
    }
}

/// Whether a target is the one that was due, or fails for the reason that was
/// due.
pub open spec fn is_target(
    got: Result<String, TargetError>,
    due: Result<Seq<char>, TargetError>,
) -> bool {
    match (got, due) {
        (Ok(target), Ok(text)) => target@ == text,
        (Err(error), Err(reason)) => error == reason,
        _ => false,
    }
}

/// Hands `text` on as a target where it parses as a URL.
pub fn checked(text: String) -> (got: Result<String, TargetError>)
    ensures
        is_target(got, checked_target(text@)),
{
    match Target::parse(text.as_str()) {
        Ok(_) => Ok(text),
        Err(error) => Err(error),
    }
}

/// Parses `base` and appends `pairs` to its query, one after the other.
pub fn target_with_query(base: &str, pairs: &Vec<(&str, &str)>) -> (got: Result<
    String,
    TargetError,
>)
    ensures
        is_target(got, query_target(base@, pairs.deep_view())),
{
    let ghost all = pairs.deep_view();
    let mut target: Target = Target::parse(base)?;
    let ghost parsed = target@;
    let mut i: usize = 0;
    while i < pairs.len()
        invariant
            i <= pairs.len(),
            all == pairs.deep_view(),
            all.len() == pairs.len(),
            url_parse(base@) == Ok::<UrlParts, url::ParseError>(parsed),
            parsed.has_room_for(all.take(i as int)),
            target@ == parsed.with_pairs(all.take(i as int)),
        decreases pairs.len() - i,
    {
        let (name, value) = pairs[i];
        proof {
            assert(all.take(i as int + 1).drop_last() =~= all.take(i as int));
            assert(all.take(i as int + 1).last() == (name@, value@));
        }
        if !target.try_append_pair(name, value) {
            proof {
                if parsed.has_room_for(all) {
                    lemma_room_for_prefix(parsed, all, i as int + 1);
                }
            }
            return Err(TargetError::TooLong);
        }
        i = i + 1;
    }
    assert(all.take(i as int) =~= all);
    Ok(target.as_str().to_owned())
}

/// Where there is room for all pairs, there is room for the first `count`.
pub proof fn lemma_room_for_prefix(parts: UrlParts, pairs: Seq<Pair>, count: int)
    requires
        0 <= count <= pairs.len(),
        parts.has_room_for(pairs),
    ensures
        parts.has_room_for(pairs.take(count)),
    decreases pairs.len(),
{
    if count < pairs.len() {
        assert(pairs.drop_last().take(count) =~= pairs.take(count));
        lemma_room_for_prefix(parts, pairs.drop_last(), count);
    } else {
        assert(pairs.take(count) =~= pairs);
    }
}

/// A text that is no URL is the target of no request. Whether it was to go
/// out as it is or to be given a query, it is refused with the parser's
/// reason.
pub proof fn law_malformed_target_is_refused(text: Seq<char>, pairs: Seq<Pair>)
    requires
        url_parse(text) is Err,
    ensures
        checked_target(text) == Err::<Seq<char>, TargetError>(
            TargetError::Invalid(url_parse(text)->Err_0),
        ),
        query_target(text, pairs) == checked_target(text),
{
}

/// A row of texts can be taken apart again where no text holds the
/// separating character: the row then holds it once between each two texts
/// and nowhere else.
pub proof fn law_joined_holds_one_separator_between(texts: Seq<Seq<char>>, separator: char)
    requires
        texts.len() > 0,
        forall|i: int| 0 <= i < texts.len() ==> occurrences(#[trigger] texts[i], separator) == 0,
    ensures
        occurrences(joined(texts, seq![separator]), separator) == texts.len() - 1,
    decreases texts.len(),
{
    if texts.len() > 1 {
        let front = texts.drop_last();
        assert forall|i: int| 0 <= i < front.len() implies occurrences(
            #[trigger] front[i],
            separator,
        ) == 0 by {
            assert(front[i] == texts[i]);
        }
        law_joined_holds_one_separator_between(front, separator);
        lemma_occurrences_add(joined(front, seq![separator]), seq![separator], separator);
        lemma_occurrences_add(
            joined(front, seq![separator]) + seq![separator],
            texts.last(),
            separator,
        );
        assert(seq![separator].drop_last() =~= Seq::<char>::empty());
        reveal_with_fuel(occurrences, 2);
    }
}

} // verus!
