use piped::reply::decode_text;
use piped::{
    Channel, ChannelSearch, CommentsInfo, Decode, DecodeError, Error, Expected, Json, Member,
    Mismatch, NetworkError, PipedClient, Playlist, RelatedStream, Reply, Stream, StreamsPage,
    Subtitle, VideoInfo,
};

const STREAM: &str = r#"{
    "url": "/watch?v=abc123",
    "title": "A title",
    "thumbnail": "https://img.example.org/abc123.jpg",
    "uploaderAvatar": "https://img.example.org/avatar.jpg",
    "uploaderName": "Someone",
    "uploaderUrl": "/channel/UC1",
    "uploadedDate": "2 days ago",
    "uploaderVerified": true,
    "duration": 754,
    "views": 12345678901,
    "uploaded": 1650000000000
}"#;

const MEDIA: &str = r#"{
    "url": "https://media.example.org/1",
    "format": "WEBMA_OPUS",
    "quality": "128 kbps",
    "mimeType": "audio/webm",
    "codec": "opus",
    "videoOnly": false,
    "bitrate": 128000,
    "initStart": 0,
    "initEnd": 258,
    "indexStart": 259,
    "indexEnd": 1024,
    "width": 0,
    "height": 0,
    "fps": 0
}"#;

fn answer(body: &str) -> Reply {
    Reply::Answer { status: 200, body: body.to_string() }
}

fn client() -> PipedClient {
    PipedClient::new("pipedapi.example.org")
}

fn video(duration: &str) -> String {
    format!(
        r#"{{
            "title": "A title",
            "description": "About it",
            "dash": null,
            "uploadDate": "2022-04-15",
            "uploader": "Someone",
            "uploaderUrl": "/channel/UC1",
            "uploaderAvatar": "https://img.example.org/avatar.jpg",
            "thumbnailUrl": "https://img.example.org/abc123.jpg",
            "hls": "https://media.example.org/hls.m3u8",
            "duration": {},
            "views": 1000,
            "likes": 100,
            "dislikes": 1,
            "audioStreams": [{}],
            "videoStreams": [],
            "relatedStreams": [{}],
            "subtitles": [{{"url": "https://media.example.org/en.vtt", "mimeType": "text/vtt",
                            "name": "English", "code": "en", "autoGenerated": true}}],
            "livestream": false,
            "proxyUrl": "https://proxy.example.org"
        }}"#,
        duration, MEDIA, STREAM
    )
}

fn shape_of<T: std::fmt::Debug>(got: Result<T, Error>) -> Mismatch {
    match got {
        Err(Error::ParseResponse(DecodeError::Shape(mismatch))) => mismatch,
        other => panic!("unexpected: {:?}", other),
    }
}

#[test]
fn minimal_channel_has_no_banner_and_no_next_page() {
    let body = r#"{"id": "UC1", "name": "Someone", "avatarUrl": "https://img.example.org/a.jpg",
                   "description": "", "relatedStreams": []}"#;
    let channel: Channel = client().channel_from_id_reply(&answer(body)).unwrap();
    assert_eq!(channel.id, "UC1");
    assert_eq!(channel.name, "Someone");
    assert_eq!(channel.avatar_url, "https://img.example.org/a.jpg");
    assert_eq!(channel.description, "");
    assert_eq!(channel.banner_url, None);
    assert_eq!(channel.nextpage, None);
    assert_eq!(channel.nextbody, None);
    assert!(channel.related_streams.is_empty());
}

#[test]
fn channel_with_everything() {
    let body = format!(
        r#"{{"id": "UC1", "name": "Someone", "avatarUrl": "a", "bannerUrl": "b",
            "description": "d", "nextpage": "https://next", "nextbody": "token",
            "relatedStreams": [{}, {}], "subscriberCount": 5}}"#,
        STREAM, STREAM
    );
    let channel: Channel = decode_text(&body).unwrap();
    assert_eq!(channel.banner_url.as_deref(), Some("b"));
    assert_eq!(channel.nextpage.as_deref(), Some("https://next"));
    assert_eq!(channel.nextbody.as_deref(), Some("token"));
    assert_eq!(channel.related_streams.len(), 2);
    assert_eq!(channel.related_streams[1].title, "A title");
}

#[test]
fn video_with_duration_as_text_is_a_decode_error() {
    let got = client().video_from_id_reply(&answer(&video("\"754\"")));
    assert!(matches!(got, Err(Error::ParseResponse(_))));
    assert_eq!(
        shape_of(got),
        Mismatch::Field { field: "duration", expected: Expected::Int32 }
    );
}

#[test]
fn video_in_full() {
    let info: VideoInfo = client().video_from_id_reply(&answer(&video("754"))).unwrap();
    assert_eq!(info.title, "A title");
    assert_eq!(info.description, "About it");
    assert_eq!(info.dash, None);
    assert_eq!(info.upload_date, "2022-04-15");
    assert_eq!(info.uploader, "Someone");
    assert_eq!(info.uploader_url, "/channel/UC1");
    assert_eq!(info.uploader_avatar, "https://img.example.org/avatar.jpg");
    assert_eq!(info.thumbnail_url, "https://img.example.org/abc123.jpg");
    assert_eq!(info.hls, "https://media.example.org/hls.m3u8");
    assert_eq!(info.duration, 754);
    assert_eq!(info.views, 1000);
    assert_eq!(info.likes, 100);
    assert_eq!(info.lbry_id, None);
    assert_eq!(info.dislikes, 1);
    assert_eq!(info.audio_streams.len(), 1);
    assert!(info.video_streams.is_empty());
    assert_eq!(info.related_streams.len(), 1);
    assert_eq!(info.subtitles.len(), 1);
    assert!(!info.livestream);
    let audio: &Stream = &info.audio_streams[0];
    assert_eq!(audio.url, "https://media.example.org/1");
    assert_eq!(audio.format, "WEBMA_OPUS");
    assert_eq!(audio.quality, "128 kbps");
    assert_eq!(audio.mime_type, "audio/webm");
    assert_eq!(audio.codec.as_deref(), Some("opus"));
    assert!(!audio.video_only);
    assert_eq!(audio.bitrate, 128000);
    assert_eq!((audio.init_start, audio.init_end), (0, 258));
    assert_eq!((audio.index_start, audio.index_end), (259, 1024));
    assert_eq!((audio.width, audio.height, audio.fps), (0, 0, 0));
    let subtitle: &Subtitle = &info.subtitles[0];
    assert_eq!(subtitle.url, "https://media.example.org/en.vtt");
    assert_eq!(subtitle.mime_type, "text/vtt");
    assert_eq!(subtitle.name, "English");
    assert_eq!(subtitle.code, "en");
    assert!(subtitle.auto_generated);
}

#[test]
fn status_500_is_a_network_error_whatever_the_body() {
    let reply = Reply::Answer { status: 500, body: video("754") };
    assert!(matches!(
        client().video_from_id_reply(&reply),
        Err(Error::Network(NetworkError::Status(500)))
    ));
    let reply = Reply::Answer { status: 500, body: "no json".to_string() };
    assert!(matches!(
        client().video_from_id_reply(&reply),
        Err(Error::Network(NetworkError::Status(500)))
    ));
}

#[test]
fn success_is_200_to_299() {
    for status in [200u16, 204, 299] {
        let reply = Reply::Answer { status, body: "[]".to_string() };
        assert_eq!(reply.body().unwrap(), "[]");
        assert!(client().search_suggestions_reply(&reply).unwrap().is_empty());
    }
    for status in [0u16, 100, 199, 300, 301, 404, 503, 65535] {
        let reply = Reply::Answer { status, body: "[]".to_string() };
        match client().search_suggestions_reply(&reply) {
            Err(Error::Network(NetworkError::Status(found))) => assert_eq!(found, status),
            other => panic!("unexpected: {:?}", other),
        }
    }
}

#[test]
fn transport_failure_is_a_network_error() {
    let reply = Reply::Failure { diagnostic: "connection refused".to_string() };
    match client().trending_reply(&reply) {
        Err(Error::Network(NetworkError::Transport(diagnostic))) => {
            assert_eq!(diagnostic, "connection refused")
        }
        other => panic!("unexpected: {:?}", other),
    }
    assert!(matches!(reply.body(), Err(NetworkError::Transport(_))));
}

#[test]
fn body_that_is_no_json_is_a_syntax_error() {
    for body in ["", "<html></html>", "{\"id\": ", "[1, 2,]", "{} {}", "nul"] {
        match client().channel_from_id_reply(&answer(body)) {
            Err(Error::ParseResponse(DecodeError::Syntax(error))) => {
                assert!(!error.message.is_empty())
            }
            other => panic!("unexpected for {:?}: {:?}", body, other),
        }
    }
}

#[test]
fn syntax_error_keeps_the_words_of_the_parser() {
    match Json::parse("[1, ") {
        Err(error) => assert!(error.message.contains("line 1 column 4"), "{}", error.message),
        Ok(json) => panic!("unexpected: {:?}", json),
    }
}

#[test]
fn document_that_is_no_object() {
    for body in ["[]", "null", "5", "\"text\"", "true"] {
        let got = client().playlist_from_id_reply(&answer(body));
        assert_eq!(shape_of(got), Mismatch::Value { expected: Expected::Object });
    }
}

#[test]
fn document_that_is_no_array() {
    for body in ["{}", "null", "5", "\"text\""] {
        let got = client().trending_reply(&answer(body));
        assert_eq!(shape_of(got), Mismatch::Value { expected: Expected::Array });
        let got = client().bulk_feed_reply(&answer(body));
        assert_eq!(shape_of(got), Mismatch::Value { expected: Expected::Array });
    }
}

#[test]
fn missing_member() {
    let got = client().channel_from_id_reply(&answer(r#"{"id": "UC1"}"#));
    assert_eq!(shape_of(got), Mismatch::Missing { field: "name" });
    let got = client().channel_from_id_reply(&answer("{}"));
    assert_eq!(shape_of(got), Mismatch::Missing { field: "id" });
    let body = r#"{"id": "UC1", "name": "n", "avatarUrl": "a", "description": "d"}"#;
    let got = client().channel_from_id_reply(&answer(body));
    assert_eq!(shape_of(got), Mismatch::Missing { field: "relatedStreams" });
}

#[test]
fn required_member_that_is_null() {
    let got = client().channel_from_id_reply(&answer(r#"{"id": null}"#));
    assert_eq!(shape_of(got), Mismatch::Field { field: "id", expected: Expected::Text });
}

#[test]
fn optional_member_of_another_type() {
    let body = r#"{"id": "UC1", "name": "n", "avatarUrl": "a", "bannerUrl": 5}"#;
    let got = client().channel_from_id_reply(&answer(body));
    assert_eq!(shape_of(got), Mismatch::Field { field: "bannerUrl", expected: Expected::Text });
}

#[test]
fn optional_member_that_is_null() {
    let body = r#"{"nextpage": null, "nextbody": null, "relatedStreams": []}"#;
    let page: StreamsPage = client().channel_continuation_reply(&answer(body)).unwrap();
    assert_eq!(page.nextpage, None);
    assert_eq!(page.nextbody, None);
    assert!(page.related_streams.is_empty());
}

#[test]
fn member_names_are_in_camel_case() {
    let body = r#"{"id": "UC1", "name": "n", "avatar_url": "a"}"#;
    let got = client().channel_from_id_reply(&answer(body));
    assert_eq!(shape_of(got), Mismatch::Missing { field: "avatarUrl" });
}

#[test]
fn first_member_that_does_not_fit_decides() {
    let body = r#"{"url": "u", "mimeType": 1, "name": 2, "code": "en"}"#;
    match decode_text::<Subtitle>(body) {
        Err(DecodeError::Shape(mismatch)) => {
            assert_eq!(mismatch, Mismatch::Field { field: "mimeType", expected: Expected::Text })
        }
        other => panic!("unexpected: {:?}", other),
    }
}

#[test]
fn flags_are_true_or_false() {
    let body = r#"{"url": "u", "mimeType": "m", "name": "n", "code": "en", "autoGenerated": 1}"#;
    match decode_text::<Subtitle>(body) {
        Err(DecodeError::Shape(mismatch)) => assert_eq!(
            mismatch,
            Mismatch::Field { field: "autoGenerated", expected: Expected::Boolean }
        ),
        other => panic!("unexpected: {:?}", other),
    }
}

fn stream_with(member: &str, value: &str) -> String {
    let mut lines: Vec<String> = Vec::new();
    for line in STREAM.lines() {
        if line.trim_start().starts_with(&format!("\"{}\"", member)) {
            let comma = if line.trim_end().ends_with(',') { "," } else { "" };
            lines.push(format!("\"{}\": {}{}", member, value, comma));
        } else {
            lines.push(line.to_string());
        }
    }
    lines.join("\n")
}

fn stream_mismatch(member: &str, value: &str) -> Mismatch {
    match decode_text::<RelatedStream>(&stream_with(member, value)) {
        Err(DecodeError::Shape(mismatch)) => mismatch,
        other => panic!("unexpected: {:?}", other),
    }
}

#[test]
fn related_stream_in_full() {
    let stream: RelatedStream = decode_text(STREAM).unwrap();
    assert_eq!(stream.url, "/watch?v=abc123");
    assert_eq!(stream.title, "A title");
    assert_eq!(stream.thumbnail, "https://img.example.org/abc123.jpg");
    assert_eq!(stream.uploader_avatar.as_deref(), Some("https://img.example.org/avatar.jpg"));
    assert_eq!(stream.uploader_name, "Someone");
    assert_eq!(stream.uploader_url, "/channel/UC1");
    assert_eq!(stream.uploaded_date.as_deref(), Some("2 days ago"));
    assert!(stream.uploader_verified);
    assert_eq!(stream.duration, 754);
    assert_eq!(stream.views, 12345678901);
    assert_eq!(stream.uploaded, 1650000000000);
}

#[test]
fn integers_of_32_bits() {
    let stream: RelatedStream = decode_text(&stream_with("duration", "2147483647")).unwrap();
    assert_eq!(stream.duration, i32::MAX);
    let stream: RelatedStream = decode_text(&stream_with("duration", "-2147483648")).unwrap();
    assert_eq!(stream.duration, i32::MIN);
    let stream: RelatedStream = decode_text(&stream_with("duration", "-1")).unwrap();
    assert_eq!(stream.duration, -1);
    let stream: RelatedStream = decode_text(&stream_with("duration", "0")).unwrap();
    assert_eq!(stream.duration, 0);
    let misfit = Mismatch::Field { field: "duration", expected: Expected::Int32 };
    for value in ["2147483648", "-2147483649", "1.0", "1e2", "1.5", "\"1\"", "null", "true", "[]"] {
        assert_eq!(stream_mismatch("duration", value), misfit, "{}", value);
    }
}

#[test]
fn integers_of_64_bits() {
    let stream: RelatedStream =
        decode_text(&stream_with("views", "9223372036854775807")).unwrap();
    assert_eq!(stream.views, i64::MAX);
    let stream: RelatedStream =
        decode_text(&stream_with("views", "-9223372036854775808")).unwrap();
    assert_eq!(stream.views, i64::MIN);
    let stream: RelatedStream = decode_text(&stream_with("uploaded", "-1")).unwrap();
    assert_eq!(stream.uploaded, -1);
    let misfit = Mismatch::Field { field: "views", expected: Expected::Int64 };
    for value in [
        "9223372036854775808",
        "18446744073709551615",
        "18446744073709551616",
        "-9223372036854775809",
        "0.5",
        "\"7\"",
        "{}",
    ] {
        assert_eq!(stream_mismatch("views", value), misfit, "{}", value);
    }
}

#[test]
fn item_that_does_not_fit_fails_the_list() {
    let body = format!("[{}, {}, 5]", STREAM, stream_with("title", "null"));
    let got = client().trending_reply(&answer(&body));
    assert_eq!(shape_of(got), Mismatch::Field { field: "title", expected: Expected::Text });
    let body = format!("[{}, 5, {}]", STREAM, stream_with("title", "null"));
    let got = client().trending_reply(&answer(&body));
    assert_eq!(shape_of(got), Mismatch::Value { expected: Expected::Object });
}

#[test]
fn list_member_that_is_no_array() {
    let misfit = Mismatch::Field { field: "relatedStreams", expected: Expected::Array };
    let body = r#"{"relatedStreams": {}}"#;
    assert_eq!(shape_of(client().playlist_continuation_reply(&answer(body))), misfit);
    let body = r#"{"relatedStreams": null}"#;
    assert_eq!(shape_of(client().playlist_continuation_reply(&answer(body))), misfit);
}

#[test]
fn trending_videos() {
    let body = format!("[{}, {}]", STREAM, stream_with("uploaderAvatar", "null"));
    let streams = client().trending_reply(&answer(&body)).unwrap();
    assert_eq!(streams.len(), 2);
    assert_eq!(streams[0].uploader_avatar.as_deref(), Some("https://img.example.org/avatar.jpg"));
    assert_eq!(streams[1].uploader_avatar, None);
    let feed = client().bulk_feed_reply(&answer(&body)).unwrap();
    assert_eq!(feed.len(), 2);
}

#[test]
fn suggestions() {
    let got = client().search_suggestions_reply(&answer(r#"["rust", "rust lang", ""]"#)).unwrap();
    assert_eq!(got, vec!["rust".to_string(), "rust lang".to_string(), String::new()]);
    let got = client().search_suggestions_reply(&answer(r#"["rust", 5]"#));
    assert_eq!(shape_of(got), Mismatch::Value { expected: Expected::Text });
}

#[test]
fn playlist() {
    let body = format!(
        r#"{{"name": "Mix", "thumbnailUrl": "t", "uploader": "Someone", "uploaderUrl": "/c",
            "videos": 12, "relatedStreams": [{}]}}"#,
        STREAM
    );
    let playlist: Playlist = client().playlist_from_id_reply(&answer(&body)).unwrap();
    assert_eq!(playlist.name, "Mix");
    assert_eq!(playlist.thumbnail_url, "t");
    assert_eq!(playlist.banner_url, None);
    assert_eq!(playlist.uploader, "Someone");
    assert_eq!(playlist.uploader_url, "/c");
    assert_eq!(playlist.uploader_avatar, None);
    assert_eq!(playlist.videos, 12);
    assert_eq!(playlist.nextpage, None);
    assert_eq!(playlist.nextbody, None);
    assert_eq!(playlist.related_streams.len(), 1);
}

#[test]
fn streams_page() {
    let body = format!(
        r#"{{"nextpage": "https://next", "nextbody": "token", "relatedStreams": [{}]}}"#,
        STREAM
    );
    let page: StreamsPage = client().playlist_continuation_reply(&answer(&body)).unwrap();
    assert_eq!(page.nextpage.as_deref(), Some("https://next"));
    assert_eq!(page.nextbody.as_deref(), Some("token"));
    assert_eq!(page.related_streams.len(), 1);
}

#[test]
fn comments() {
    let body = r#"{"comments": [{"author": "A", "thumbnail": "t", "commentId": "c1",
        "commentText": "Nice", "commentedTime": "1 day ago", "commentorUrl": "/channel/A",
        "likeCount": 3, "hearted": false, "pinned": true, "verified": false}],
        "nextpage": "token", "disabled": false}"#;
    let info: CommentsInfo = client().comments_from_id_reply(&answer(body)).unwrap();
    assert_eq!(info.nextpage.as_deref(), Some("token"));
    assert_eq!(info.comments.len(), 1);
    let comment = &info.comments[0];
    assert_eq!(comment.author, "A");
    assert_eq!(comment.thumbnail, "t");
    assert_eq!(comment.comment_id, "c1");
    assert_eq!(comment.comment_text, "Nice");
    assert_eq!(comment.commented_time, "1 day ago");
    assert_eq!(comment.commentor_url, "/channel/A");
    assert_eq!(comment.like_count, 3);
    assert!(!comment.hearted);
    assert!(comment.pinned);
    assert!(!comment.verified);
    let last: CommentsInfo =
        client().comments_continuation_reply(&answer(r#"{"comments": []}"#)).unwrap();
    assert_eq!(last.nextpage, None);
    assert!(last.comments.is_empty());
}

#[test]
fn channel_search() {
    let body = r#"{"items": [{"name": "Techlore", "thumbnail": "t", "url": "/channel/UC1",
        "description": null, "subscribers": 200000, "videos": -1, "verified": true}],
        "nextpage": null, "suggestion": "techlore", "corrected": true}"#;
    let found: ChannelSearch = client().search_channel_reply(&answer(body)).unwrap();
    assert_eq!(found.nextpage, None);
    assert_eq!(found.suggestion.as_deref(), Some("techlore"));
    assert!(found.corrected);
    assert_eq!(found.items.len(), 1);
    let item = &found.items[0];
    assert_eq!(item.name, "Techlore");
    assert_eq!(item.thumbnail, "t");
    assert_eq!(item.url, "/channel/UC1");
    assert_eq!(item.description, None);
    assert_eq!(item.subscribers, 200000);
    assert_eq!(item.videos, -1);
    assert!(item.verified);
}

#[test]
fn last_member_of_a_name_counts() {
    let body = r#"{"url": "first", "mimeType": "m", "name": "n", "code": "en",
                   "autoGenerated": false, "url": "second"}"#;
    let subtitle: Subtitle = decode_text(body).unwrap();
    assert_eq!(subtitle.url, "second");
    let json = Json::Object(vec![
        Member { name: "k".to_string(), value: Json::Unsigned(1) },
        Member { name: "k".to_string(), value: Json::Unsigned(2) },
        Member { name: "l".to_string(), value: Json::Null },
    ]);
    assert!(matches!(json.get("k"), Some(Json::Unsigned(2))));
    assert!(matches!(json.get("l"), Some(Json::Null)));
    assert!(json.get("m").is_none());
    assert!(Json::Array(Vec::new()).get("k").is_none());
}

#[test]
fn json_values_are_copied_one_for_one() {
    let json = Json::parse(
        r#"{"a": [null, true, 0, -1, 1.5, "t", [], {}], "b": 18446744073709551615,
            "c": -9223372036854775808, "d": 1e3, "e": 18446744073709551616}"#,
    )
    .unwrap();
    match json.get("a") {
        Some(Json::Array(items)) => {
            assert_eq!(items.len(), 8);
            assert!(matches!(items[0], Json::Null));
            assert!(matches!(items[1], Json::Bool(true)));
            assert!(matches!(items[2], Json::Unsigned(0)));
            assert!(matches!(items[3], Json::Signed(-1)));
            assert!(matches!(items[4], Json::Fraction));
            assert!(matches!(&items[5], Json::Text(text) if text == "t"));
            assert!(matches!(&items[6], Json::Array(inner) if inner.is_empty()));
            assert!(matches!(&items[7], Json::Object(inner) if inner.is_empty()));
        }
        other => panic!("unexpected: {:?}", other),
    }
    assert!(matches!(json.get("b"), Some(Json::Unsigned(u64::MAX))));
    assert!(matches!(json.get("c"), Some(Json::Signed(i64::MIN))));
    assert!(matches!(json.get("d"), Some(Json::Fraction)));
    assert!(matches!(json.get("e"), Some(Json::Fraction)));
    assert!(json.get("f").is_none());
}

#[test]
fn records_are_read_from_values_built_by_hand() {
    let member = |name: &str, value: Json| Member { name: name.to_string(), value };
    let json = Json::Object(vec![
        member("url", Json::Text("u".to_string())),
        member("mimeType", Json::Text("m".to_string())),
        member("name", Json::Text("n".to_string())),
        member("code", Json::Text("en".to_string())),
        member("autoGenerated", Json::Bool(true)),
    ]);
    let subtitle = Subtitle::from_json(&json).unwrap();
    assert_eq!(subtitle.code, "en");
    assert!(subtitle.auto_generated);
    assert_eq!(
        Subtitle::from_json(&Json::Null).unwrap_err(),
        Mismatch::Value { expected: Expected::Object }
    );
    assert_eq!(String::from_json(&Json::Text("x".to_string())).unwrap(), "x");
    assert_eq!(
        String::from_json(&Json::Unsigned(1)).unwrap_err(),
        Mismatch::Value { expected: Expected::Text }
    );
    let list = Json::Array(vec![Json::Text("a".to_string()), Json::Text("b".to_string())]);
    assert_eq!(Vec::<String>::from_json(&list).unwrap(), vec!["a".to_string(), "b".to_string()]);
    let signed = Json::Object(vec![member("duration", Json::Signed(7))]);
    assert_eq!(piped::decode::required_int32(&signed, "duration"), Ok(7));
    assert_eq!(piped::decode::required_int64(&signed, "duration"), Ok(7));
}

#[test]
fn next_page_takes_both_tokens() {
    let page = |nextpage: Option<&str>, nextbody: Option<&str>| StreamsPage {
        nextpage: nextpage.map(str::to_string),
        nextbody: nextbody.map(str::to_string),
        related_streams: Vec::new(),
    };
    assert_eq!(page(Some("u"), Some("b")).continuation(), Some(("u", "b")));
    assert_eq!(page(Some("u"), None).continuation(), None);
    assert_eq!(page(None, Some("b")).continuation(), None);
    assert_eq!(page(None, None).continuation(), None);
    let body = r#"{"id": "UC1", "name": "n", "avatarUrl": "a", "description": "d",
                   "nextpage": "https://next", "nextbody": "token", "relatedStreams": []}"#;
    let channel: Channel = decode_text(body).unwrap();
    assert_eq!(channel.continuation(), Some(("https://next", "token")));
    let body = r#"{"name": "Mix", "thumbnailUrl": "t", "uploader": "Someone", "uploaderUrl": "/c",
                   "videos": 12, "nextpage": "https://next", "relatedStreams": []}"#;
    let playlist: Playlist = decode_text(body).unwrap();
    assert_eq!(playlist.continuation(), None);
}

#[test]
fn continuation_of_a_channel_leads_to_its_next_request() {
    let body = r#"{"id": "UC1", "name": "n", "avatarUrl": "a", "description": "d",
                   "nextpage": "https://next/?a=1", "nextbody": "to ken", "relatedStreams": []}"#;
    let client = client();
    let channel = client.channel_from_id_reply(&answer(body)).unwrap();
    let (nexturl, nextbody) = channel.continuation().unwrap();
    let request = client.channel_continuation(&channel.id, nexturl, nextbody).unwrap();
    assert_eq!(
        request.target,
        "https://pipedapi.example.org/nextpage/channels/UC1\
         ?url=https%3A%2F%2Fnext%2F%3Fa%3D1&id=to+ken"
    );
}
