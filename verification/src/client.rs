//! The client: one request and one reading of the reply for each resource of
//! the service.
//!
//! A call of the service is made in two halves. The first builds the
//! [`Request`]; the second, named like the first with `_reply` behind it,
//! reads the [`Reply`] that the caller's transport brought back. Every target
//! has to parse as a URL, or no request is built. A resource that is
//! addressed by its path alone has its target sent as it was written; one
//! that takes parameters has them appended to the query of the parsed URL.

use crate::encoding::{form_encoded, lemma_absent_from_encoded, lemma_plain_text_is_kept};
use crate::error::{Error, ErrorView};
use crate::instance::{normalize, normalized};
use crate::reply::{answers, decoded_reply, Reply};
use crate::request::{
    checked, checked_target, get, join, joined, query_target, target_with_query, Request,
};
use crate::structure::{
    Channel, ChannelSearch, CommentsInfo, Playlist, RelatedStream, StreamsPage, VideoInfo,
};
use crate::target::{
    encoded_pair, lemma_one_pair, lemma_two_pairs, url_parse, Pair, TargetError, UrlParts,
};
use crate::text::{lemma_occurrences_add, occurrences};
use vstd::prelude::*;
use vstd::string::*;

verus! {

/// A client of one instance.
#[derive(Debug)]
pub struct PipedClient {
    /// The address that every target starts with.
    pub instance: String,
}

/// The parameters that ask for trending videos of a region.
pub open spec fn trending_pairs(region: Seq<char>) -> Seq<Pair> {
    seq![("region"@, region)]
}

/// The parameters that ask for a further page of a channel or a playlist:
/// where the page is, then what to send along.
pub open spec fn continuation_pairs(nexturl: Seq<char>, nextbody: Seq<char>) -> Seq<Pair> {
    seq![("url"@, nexturl), ("id"@, nextbody)]
}

/// The parameter that asks for a further page of comments: where the page is.
pub open spec fn comments_continuation_pairs(nexturl: Seq<char>) -> Seq<Pair> {
    seq![("url"@, nexturl)]
}

/// The parameter that asks for suggestions.
pub open spec fn suggestion_pairs(query: Seq<char>) -> Seq<Pair> {
    seq![("query"@, query)]
}

/// The parameters that search for channels.
pub open spec fn channel_search_pairs(name: Seq<char>) -> Seq<Pair> {
    seq![("q"@, name), ("filter"@, "channels"@)]
}

/// Whether the outcome of building a request is the one that was due: the
/// request for the target, or the reason why there is no target.
pub open spec fn sends(got: Result<Request, Error>, due: Result<Seq<char>, TargetError>) -> bool {
    match (got, due) {
        (Ok(request), Ok(target)) => request@ == get(target),
        (Err(error), Err(reason)) => error@ == ErrorView::Parseurl(reason),
        _ => false,
    }
}

/// The request for the URL that `base` parses to, with `pairs` as its query.
fn query_request(base: &str, pairs: &Vec<(&str, &str)>) -> (got: Result<Request, Error>)
    ensures
        sends(got, query_target(base@, pairs.deep_view())),
{
    match target_with_query(base, pairs) {
        Ok(target) => Ok(Request::to(target)),
        Err(error) => Err(Error::from(error)),
    }
}

/// The request for `text`, where that is a URL.
fn path_request(text: String) -> (got: Result<Request, Error>)
    ensures
        sends(got, checked_target(text@)),
{
    match checked(text) {
        Ok(target) => Ok(Request::to(target)),
        Err(error) => Err(Error::from(error)),
    }
}

impl PipedClient {
    /// A client of the instance at `instance`. The address is normalized here
    /// and nowhere else.
    pub fn new(instance: &str) -> (client: PipedClient)
        ensures
            client.instance@ == normalized(instance@),
    {
        PipedClient { instance: normalize(instance) }
    }

    /// The address of the instance with `path` behind it.
    fn collection(&self, path: &str) -> (target: String)
        ensures
            target@ == self.instance@ + path@,
    {
        let mut target: String = self.instance.clone();
        target.append(path);
        target
    }

    /// The address of the instance with `path` and `id` behind it.
    fn resource(&self, path: &str, id: &str) -> (target: String)
        ensures
            target@ == self.instance@ + path@ + id@,
    {
        let mut target: String = self.collection(path);
        target.append(id);
        target
    }

    /// Asks for the videos that are trending in a region.
    pub fn trending(&self, region: &str) -> (got: Result<Request, Error>)
        ensures
            sends(got, query_target(self.instance@ + "/trending"@, trending_pairs(region@))),
    {
        let base: String = self.collection("/trending");
        let pairs: Vec<(&str, &str)> = vec![("region", region)];
        proof {
            assert(pairs.deep_view() =~= trending_pairs(region@));
        }
        query_request(base.as_str(), &pairs)
    }

    /// Reads the videos that are trending.
    pub fn trending_reply(&self, reply: &Reply) -> (got: Result<Vec<RelatedStream>, Error>)
        ensures
            answers(got, decoded_reply::<Vec<RelatedStream>>(reply@)),
    {
        reply.decode::<Vec<RelatedStream>>()
    }

    /// Asks for a channel.
    pub fn channel_from_id(&self, id: &str) -> (got: Result<Request, Error>)
        ensures
            sends(got, checked_target(self.instance@ + "/channel/"@ + id@)),
    {
        path_request(self.resource("/channel/", id))
    }

    /// Reads a channel.
    pub fn channel_from_id_reply(&self, reply: &Reply) -> (got: Result<Channel, Error>)
        ensures
            answers(got, decoded_reply::<Channel>(reply@)),
    {
        reply.decode::<Channel>()
    }

    /// Asks for the latest videos of several channels. The ids are written
    /// into the target as they are, with a comma between each two.
    pub fn bulk_feed(&self, ids: &Vec<String>) -> (got: Result<Request, Error>)
        ensures
            sends(
                got,
                checked_target(
                    self.instance@ + "/feed/unauthenticated?channels="@ + joined(
                        ids.deep_view(),
                        ","@,
                    ),
                ),
            ),
    {
        let channels: String = join(ids, ",");
        path_request(self.resource("/feed/unauthenticated?channels=", channels.as_str()))
    }

    /// Reads the latest videos of several channels.
    pub fn bulk_feed_reply(&self, reply: &Reply) -> (got: Result<Vec<RelatedStream>, Error>)
        ensures
            answers(got, decoded_reply::<Vec<RelatedStream>>(reply@)),
    {
        reply.decode::<Vec<RelatedStream>>()
    }

    /// Asks for a further page of the videos of a channel.
    pub fn channel_continuation(&self, id: &str, nexturl: &str, nextbody: &str) -> (got: Result<
        Request,
        Error,
    >)
        ensures
            sends(
                got,
                query_target(
                    self.instance@ + "/nextpage/channels/"@ + id@,
                    continuation_pairs(nexturl@, nextbody@),
                ),
            ),
    {
        let base: String = self.resource("/nextpage/channels/", id);
        let pairs: Vec<(&str, &str)> = vec![("url", nexturl), ("id", nextbody)];
        proof {
            assert(pairs.deep_view() =~= continuation_pairs(nexturl@, nextbody@));
        }
        query_request(base.as_str(), &pairs)
    }

    /// Reads a further page of the videos of a channel.
    pub fn channel_continuation_reply(&self, reply: &Reply) -> (got: Result<StreamsPage, Error>)
        ensures
            answers(got, decoded_reply::<StreamsPage>(reply@)),
    {
        reply.decode::<StreamsPage>()
    }

    /// Asks for a playlist.
    pub fn playlist_from_id(&self, id: &str) -> (got: Result<Request, Error>)
        ensures
            sends(got, checked_target(self.instance@ + "/playlists/"@ + id@)),
    {
        path_request(self.resource("/playlists/", id))
    }

    /// Reads a playlist.
    pub fn playlist_from_id_reply(&self, reply: &Reply) -> (got: Result<Playlist, Error>)
        ensures
            answers(got, decoded_reply::<Playlist>(reply@)),
    {
        reply.decode::<Playlist>()
    }

    /// Asks for a further page of the videos of a playlist.
    pub fn playlist_continuation(&self, id: &str, nexturl: &str, nextbody: &str) -> (got: Result<
        Request,
        Error,
    >)
        ensures
            sends(
                got,
                query_target(
                    self.instance@ + "/nextpage/playlists/"@ + id@,
                    continuation_pairs(nexturl@, nextbody@),
                ),
            ),
    {
        let base: String = self.resource("/nextpage/playlists/", id);
        let pairs: Vec<(&str, &str)> = vec![("url", nexturl), ("id", nextbody)];
        proof {
            assert(pairs.deep_view() =~= continuation_pairs(nexturl@, nextbody@));
        }
        query_request(base.as_str(), &pairs)
    }

    /// Reads a further page of the videos of a playlist.
    pub fn playlist_continuation_reply(&self, reply: &Reply) -> (got: Result<StreamsPage, Error>)
        ensures
            answers(got, decoded_reply::<StreamsPage>(reply@)),
    {
        reply.decode::<StreamsPage>()
    }

    /// Asks for a video.
    pub fn video_from_id(&self, id: &str) -> (got: Result<Request, Error>)
        ensures
            sends(got, checked_target(self.instance@ + "/streams/"@ + id@)),
    {
        path_request(self.resource("/streams/", id))
    }

    /// Reads a video.
    pub fn video_from_id_reply(&self, reply: &Reply) -> (got: Result<VideoInfo, Error>)
        ensures
            answers(got, decoded_reply::<VideoInfo>(reply@)),
    {
        reply.decode::<VideoInfo>()
    }

    /// Asks for suggestions of what to search for.
    pub fn search_suggestions(&self, query: &str) -> (got: Result<Request, Error>)
        ensures
            sends(got, query_target(self.instance@ + "/suggestions"@, suggestion_pairs(query@))),
    {
        let base: String = self.collection("/suggestions");
        let pairs: Vec<(&str, &str)> = vec![("query", query)];
        proof {
            assert(pairs.deep_view() =~= suggestion_pairs(query@));
        }
        query_request(base.as_str(), &pairs)
    }

    /// Reads suggestions of what to search for.
    pub fn search_suggestions_reply(&self, reply: &Reply) -> (got: Result<Vec<String>, Error>)
        ensures
            answers(got, decoded_reply::<Vec<String>>(reply@)),
    {
        reply.decode::<Vec<String>>()
    }

    /// Asks for the comments on a video.
    pub fn comments_from_id(&self, id: &str) -> (got: Result<Request, Error>)
        ensures
            sends(got, checked_target(self.instance@ + "/comments/"@ + id@)),
    {
        path_request(self.resource("/comments/", id))
    }

    /// Reads the comments on a video.
    pub fn comments_from_id_reply(&self, reply: &Reply) -> (got: Result<CommentsInfo, Error>)
        ensures
            answers(got, decoded_reply::<CommentsInfo>(reply@)),
    {
        reply.decode::<CommentsInfo>()
    }

    /// Asks for a further page of the comments on a video.
    pub fn comments_continuation(&self, id: &str, nexturl: &str) -> (got: Result<Request, Error>)
        ensures
            sends(
                got,
                query_target(
                    self.instance@ + "/nextpage/comments/"@ + id@,
                    comments_continuation_pairs(nexturl@),
                ),
            ),
    {
        let base: String = self.resource("/nextpage/comments/", id);
        let pairs: Vec<(&str, &str)> = vec![("url", nexturl)];
        proof {
            assert(pairs.deep_view() =~= comments_continuation_pairs(nexturl@));
        }
        query_request(base.as_str(), &pairs)
    }

    /// Reads a further page of the comments on a video.
    pub fn comments_continuation_reply(&self, reply: &Reply) -> (got: Result<CommentsInfo, Error>)
        ensures
            answers(got, decoded_reply::<CommentsInfo>(reply@)),
    {
        reply.decode::<CommentsInfo>()
    }

    /// Asks for the channels that a search finds.
    pub fn search_channel(&self, name: &str) -> (got: Result<Request, Error>)
        ensures
            sends(got, query_target(self.instance@ + "/search"@, channel_search_pairs(name@))),
    {
        let base: String = self.collection("/search");
        let pairs: Vec<(&str, &str)> = vec![("q", name), ("filter", "channels")];
        proof {
            assert(pairs.deep_view() =~= channel_search_pairs(name@));
        }
        query_request(base.as_str(), &pairs)
    }

    /// Reads the channels that a search found.
    pub fn search_channel_reply(&self, reply: &Reply) -> (got: Result<ChannelSearch, Error>)
        ensures
            answers(got, decoded_reply::<ChannelSearch>(reply@)),
    {
        reply.decode::<ChannelSearch>()
    }
}

/// What a request for a further page of a channel or a playlist adds to the
/// query of its target.
pub open spec fn continuation_query(nexturl: Seq<char>, nextbody: Seq<char>) -> Seq<char> {
    "url="@ + form_encoded(nexturl) + "&id="@ + form_encoded(nextbody)
}

/// What a request for a further page of comments adds to the query of its
/// target.
pub open spec fn comments_continuation_query(nexturl: Seq<char>) -> Seq<char> {
    "url="@ + form_encoded(nexturl)
}

/// The names `url` and `id` are written into a query as they are.
proof fn lemma_parameter_names(value: Seq<char>)
    ensures
        encoded_pair("url"@, value) == "url="@ + form_encoded(value),
        encoded_pair("id"@, value) == "id="@ + form_encoded(value),
{
    reveal_strlit("url");
    reveal_strlit("id");
    reveal_strlit("url=");
    reveal_strlit("id=");
    lemma_plain_text_is_kept("url"@);
    lemma_plain_text_is_kept("id"@);
    assert(encoded_pair("url"@, value) =~= "url="@ + form_encoded(value));
    assert(encoded_pair("id"@, value) =~= "id="@ + form_encoded(value));
}

/// A request for a further page of a channel or a playlist carries one
/// parameter `url` and one parameter `id`, both form-urlencoded: whatever
/// the target was before, its query grows by `url=..&id=..` and nothing else
/// of it changes. The added text holds `=` twice and `&` once, so it is two
/// parameters and no more.
pub proof fn law_continuation_adds_url_and_id(
    parts: UrlParts,
    nexturl: Seq<char>,
    nextbody: Seq<char>,
)
    ensures
        parts.with_pairs(continuation_pairs(nexturl, nextbody)) == parts.with_query(
            continuation_query(nexturl, nextbody),
        ),
        occurrences(continuation_query(nexturl, nextbody), '=') == 2,
        occurrences(continuation_query(nexturl, nextbody), '&') == 1,
{
    let where_to = form_encoded(nexturl);
    let what = form_encoded(nextbody);
    lemma_parameter_names(nexturl);
    lemma_parameter_names(nextbody);
    lemma_two_pairs(parts, ("url"@, nexturl), ("id"@, nextbody));
    reveal_strlit("id=");
    reveal_strlit("&id=");
    assert(continuation_query(nexturl, nextbody) =~= encoded_pair("url"@, nexturl) + seq!['&']
        + encoded_pair("id"@, nextbody));
    lemma_continuation_counts(where_to, what, '=');
    lemma_continuation_counts(where_to, what, '&');
    lemma_absent_from_encoded(nexturl, '=');
    lemma_absent_from_encoded(nextbody, '=');
    lemma_absent_from_encoded(nexturl, '&');
    lemma_absent_from_encoded(nextbody, '&');
}

/// A request for a further page of comments carries one parameter `url` and
/// no parameter `id`: the query grows by `url=..`, which holds `=` once and
/// `&` not at all, so it is one parameter and no more.
pub proof fn law_comments_continuation_adds_url_only(parts: UrlParts, nexturl: Seq<char>)
    ensures
        parts.with_pairs(comments_continuation_pairs(nexturl)) == parts.with_query(
            comments_continuation_query(nexturl),
        ),
        occurrences(comments_continuation_query(nexturl), '=') == 1,
        occurrences(comments_continuation_query(nexturl), '&') == 0,
{
    lemma_parameter_names(nexturl);
    lemma_one_pair(parts, ("url"@, nexturl));
    reveal_strlit("url=");
    reveal_with_fuel(occurrences, 5);
    lemma_occurrences_add("url="@, form_encoded(nexturl), '=');
    lemma_occurrences_add("url="@, form_encoded(nexturl), '&');
    lemma_absent_from_encoded(nexturl, '=');
    lemma_absent_from_encoded(nexturl, '&');
}

/// The target of a request for a further page is the URL that its base
/// parses to with `url=..&id=..` added to the query, or with `url=..` for
/// comments.
pub proof fn law_continuation_targets(base: Seq<char>, nexturl: Seq<char>, nextbody: Seq<char>)
    ensures
        query_target(base, continuation_pairs(nexturl, nextbody)) matches Ok(target) ==> target
            == url_parse(base)->Ok_0.with_query(continuation_query(nexturl, nextbody)).text(),
        query_target(base, comments_continuation_pairs(nexturl)) matches Ok(target) ==> target
            == url_parse(base)->Ok_0.with_query(comments_continuation_query(nexturl)).text(),
{
    if url_parse(base) is Ok {
        law_continuation_adds_url_and_id(url_parse(base)->Ok_0, nexturl, nextbody);
        law_comments_continuation_adds_url_only(url_parse(base)->Ok_0, nexturl);
    }
}

/// How often `=` or `&` occurs in `url=..&id=..`, given how often it occurs
/// in the two values.
proof fn lemma_continuation_counts(where_to: Seq<char>, what: Seq<char>, c: char)
    requires
        c == '=' || c == '&',
    ensures
        occurrences("url="@ + where_to + "&id="@ + what, c) == occurrences(where_to, c)
            + occurrences(what, c) + if c == '=' {
            2nat
        } else {
            1nat
        },
{
    reveal_strlit("url=");
    reveal_strlit("&id=");
    reveal_with_fuel(occurrences, 5);
    lemma_occurrences_add("url="@, where_to, c);
    lemma_occurrences_add("url="@ + where_to, "&id="@, c);
    lemma_occurrences_add("url="@ + where_to + "&id="@, what, c);
}

} // verus!
