//! The records that the service answers with.
//!
//! Each record is read from a JSON object whose members are named like the
//! fields, in lower camel case (`avatar_url` is the member `avatarUrl`). A
//! field of type `Option` may be absent or `null`; every other field is
//! required.

use crate::decode::{
    flag_field, int32_field, int64_field, list_field, optional_text, optional_text_field,
    required_flag, required_int32, required_int64, required_list, required_text, text_field,
    Decode, Expected, Mismatch,
};
use crate::json::{Json, JsonView};
use vstd::prelude::*;

verus! {

/// A video as it appears in a listing.
#[derive(Debug)]
pub struct RelatedStream {
    pub url: String,
    pub title: String,
    pub thumbnail: String,
    pub uploader_avatar: Option<String>,
    pub uploader_name: String,
    pub uploader_url: String,
    pub uploaded_date: Option<String>,
    pub uploader_verified: bool,
    /// Seconds.
    pub duration: i32,
    pub views: i64,
    /// When the video was uploaded, counted from the epoch.
    pub uploaded: i64,
}

/// The view of a [`RelatedStream`].
pub struct RelatedStreamView {
    pub url: Seq<char>,
    pub title: Seq<char>,
    pub thumbnail: Seq<char>,
    pub uploader_avatar: Option<Seq<char>>,
    pub uploader_name: Seq<char>,
    pub uploader_url: Seq<char>,
    pub uploaded_date: Option<Seq<char>>,
    pub uploader_verified: bool,
    pub duration: i32,
    pub views: i64,
    pub uploaded: i64,
}

impl View for RelatedStream {
    type V = RelatedStreamView;

    open spec fn view(&self) -> RelatedStreamView {
        RelatedStreamView {
            url: self.url@,
            title: self.title@,
            thumbnail: self.thumbnail@,
            uploader_avatar: self.uploader_avatar.deep_view(),
            uploader_name: self.uploader_name@,
            uploader_url: self.uploader_url@,
            uploaded_date: self.uploaded_date.deep_view(),
            uploader_verified: self.uploader_verified,
            duration: self.duration,
            views: self.views,
            uploaded: self.uploaded,
        }
    }
}

impl DeepView for RelatedStream {
    type V = RelatedStreamView;

    open spec fn deep_view(&self) -> RelatedStreamView {
        self@
    }
}

impl Decode for RelatedStream {
    open spec fn decoded(json: JsonView) -> Result<RelatedStreamView, Mismatch> {
        if let Err(mismatch) = text_field(json, "url") {
            Err(mismatch)
        } else if let Err(mismatch) = text_field(json, "title") {
            Err(mismatch)
        } else if let Err(mismatch) = text_field(json, "thumbnail") {
            Err(mismatch)
        } else if let Err(mismatch) = optional_text_field(json, "uploaderAvatar") {
            Err(mismatch)
        } else if let Err(mismatch) = text_field(json, "uploaderName") {
            Err(mismatch)
        } else if let Err(mismatch) = text_field(json, "uploaderUrl") {
            Err(mismatch)
        } else if let Err(mismatch) = optional_text_field(json, "uploadedDate") {
            Err(mismatch)
        } else if let Err(mismatch) = flag_field(json, "uploaderVerified") {
            Err(mismatch)
        } else if let Err(mismatch) = int32_field(json, "duration") {
            Err(mismatch)
        } else if let Err(mismatch) = int64_field(json, "views") {
            Err(mismatch)
        } else if let Err(mismatch) = int64_field(json, "uploaded") {
            Err(mismatch)
        } else {
            Ok(
                RelatedStreamView {
                    url: text_field(json, "url")->Ok_0,
                    title: text_field(json, "title")->Ok_0,
                    thumbnail: text_field(json, "thumbnail")->Ok_0,
                    uploader_avatar: optional_text_field(json, "uploaderAvatar")->Ok_0,
                    uploader_name: text_field(json, "uploaderName")->Ok_0,
                    uploader_url: text_field(json, "uploaderUrl")->Ok_0,
                    uploaded_date: optional_text_field(json, "uploadedDate")->Ok_0,
                    uploader_verified: flag_field(json, "uploaderVerified")->Ok_0,
                    duration: int32_field(json, "duration")->Ok_0,
                    views: int64_field(json, "views")->Ok_0,
                    uploaded: int64_field(json, "uploaded")->Ok_0,
                },
            )
        }
    }

    fn from_json(json: &Json) -> (got: Result<RelatedStream, Mismatch>) {
        let url = required_text(json, "url")?;
        let title = required_text(json, "title")?;
        let thumbnail = required_text(json, "thumbnail")?;
        let uploader_avatar = optional_text(json, "uploaderAvatar")?;
        let uploader_name = required_text(json, "uploaderName")?;
        let uploader_url = required_text(json, "uploaderUrl")?;
        let uploaded_date = optional_text(json, "uploadedDate")?;
        let uploader_verified = required_flag(json, "uploaderVerified")?;
        let duration = required_int32(json, "duration")?;
        let views = required_int64(json, "views")?;
        let uploaded = required_int64(json, "uploaded")?;
        Ok(
            RelatedStream {
                url,
                title,
                thumbnail,
                uploader_avatar,
                uploader_name,
                uploader_url,
                uploaded_date,
                uploader_verified,
                duration,
                views,
                uploaded,
            },
        )
    }
}

/// A channel with the first page of its videos.
#[derive(Debug)]
pub struct Channel {
    pub id: String,
    pub name: String,
    pub avatar_url: String,
    pub banner_url: Option<String>,
    pub description: String,
    /// Where the next page is. There is a next page only where `nextbody` is there too.
    pub nextpage: Option<String>,
    /// What to send along for the next page.
    pub nextbody: Option<String>,
    pub related_streams: Vec<RelatedStream>,
}

/// The view of a [`Channel`].
pub struct ChannelView {
    pub id: Seq<char>,
    pub name: Seq<char>,
    pub avatar_url: Seq<char>,
    pub banner_url: Option<Seq<char>>,
    pub description: Seq<char>,
    pub nextpage: Option<Seq<char>>,
    pub nextbody: Option<Seq<char>>,
    pub related_streams: Seq<RelatedStreamView>,
}

impl View for Channel {
    type V = ChannelView;

    open spec fn view(&self) -> ChannelView {
        ChannelView {
            id: self.id@,
            name: self.name@,
            avatar_url: self.avatar_url@,
            banner_url: self.banner_url.deep_view(),
            description: self.description@,
            nextpage: self.nextpage.deep_view(),
            nextbody: self.nextbody.deep_view(),
            related_streams: self.related_streams.deep_view(),
        }
    }
}

impl DeepView for Channel {
    type V = ChannelView;

    open spec fn deep_view(&self) -> ChannelView {
        self@
    }
}

impl Decode for Channel {
    open spec fn decoded(json: JsonView) -> Result<ChannelView, Mismatch> {
        if let Err(mismatch) = text_field(json, "id") {
            Err(mismatch)
        } else if let Err(mismatch) = text_field(json, "name") {
            Err(mismatch)
        } else if let Err(mismatch) = text_field(json, "avatarUrl") {
            Err(mismatch)
        } else if let Err(mismatch) = optional_text_field(json, "bannerUrl") {
            Err(mismatch)
        } else if let Err(mismatch) = text_field(json, "description") {
            Err(mismatch)
        } else if let Err(mismatch) = optional_text_field(json, "nextpage") {
            Err(mismatch)
        } else if let Err(mismatch) = optional_text_field(json, "nextbody") {
            Err(mismatch)
        } else if let Err(mismatch) = list_field::<RelatedStream>(json, "relatedStreams") {
            Err(mismatch)
        } else {
            Ok(
                ChannelView {
                    id: text_field(json, "id")->Ok_0,
                    name: text_field(json, "name")->Ok_0,
                    avatar_url: text_field(json, "avatarUrl")->Ok_0,
                    banner_url: optional_text_field(json, "bannerUrl")->Ok_0,
                    description: text_field(json, "description")->Ok_0,
                    nextpage: optional_text_field(json, "nextpage")->Ok_0,
                    nextbody: optional_text_field(json, "nextbody")->Ok_0,
                    related_streams: list_field::<RelatedStream>(json, "relatedStreams")->Ok_0,
                },
            )
        }
    }

    fn from_json(json: &Json) -> (got: Result<Channel, Mismatch>) {
        let id = required_text(json, "id")?;
        let name = required_text(json, "name")?;
        let avatar_url = required_text(json, "avatarUrl")?;
        let banner_url = optional_text(json, "bannerUrl")?;
        let description = required_text(json, "description")?;
        let nextpage = optional_text(json, "nextpage")?;
        let nextbody = optional_text(json, "nextbody")?;
        let related_streams = required_list::<RelatedStream>(json, "relatedStreams")?;
        Ok(
            Channel {
                id,
                name,
                avatar_url,
                banner_url,
                description,
                nextpage,
                nextbody,
                related_streams,
            },
        )
    }
}

/// A playlist with the first page of its videos.
#[derive(Debug)]
pub struct Playlist {
    pub name: String,
    pub thumbnail_url: String,
    pub banner_url: Option<String>,
    pub uploader: String,
    pub uploader_url: String,
    pub uploader_avatar: Option<String>,
    /// How many videos the playlist holds.
    pub videos: i32,
    /// Where the next page is. There is a next page only where `nextbody` is there too.
    pub nextpage: Option<String>,
    /// What to send along for the next page.
    pub nextbody: Option<String>,
    pub related_streams: Vec<RelatedStream>,
}

/// The view of a [`Playlist`].
pub struct PlaylistView {
    pub name: Seq<char>,
    pub thumbnail_url: Seq<char>,
    pub banner_url: Option<Seq<char>>,
    pub uploader: Seq<char>,
    pub uploader_url: Seq<char>,
    pub uploader_avatar: Option<Seq<char>>,
    pub videos: i32,
    pub nextpage: Option<Seq<char>>,
    pub nextbody: Option<Seq<char>>,
    pub related_streams: Seq<RelatedStreamView>,
}

impl View for Playlist {
    type V = PlaylistView;

    open spec fn view(&self) -> PlaylistView {
        PlaylistView {
            name: self.name@,
            thumbnail_url: self.thumbnail_url@,
            banner_url: self.banner_url.deep_view(),
            uploader: self.uploader@,
            uploader_url: self.uploader_url@,
            uploader_avatar: self.uploader_avatar.deep_view(),
            videos: self.videos,
            nextpage: self.nextpage.deep_view(),
            nextbody: self.nextbody.deep_view(),
            related_streams: self.related_streams.deep_view(),
        }
    }
}

impl DeepView for Playlist {
    type V = PlaylistView;

    open spec fn deep_view(&self) -> PlaylistView {
        self@
    }
}

impl Decode for Playlist {
    open spec fn decoded(json: JsonView) -> Result<PlaylistView, Mismatch> {
        if let Err(mismatch) = text_field(json, "name") {
            Err(mismatch)
        } else if let Err(mismatch) = text_field(json, "thumbnailUrl") {
            Err(mismatch)
        } else if let Err(mismatch) = optional_text_field(json, "bannerUrl") {
            Err(mismatch)
        } else if let Err(mismatch) = text_field(json, "uploader") {
            Err(mismatch)
        } else if let Err(mismatch) = text_field(json, "uploaderUrl") {
            Err(mismatch)
        } else if let Err(mismatch) = optional_text_field(json, "uploaderAvatar") {
            Err(mismatch)
        } else if let Err(mismatch) = int32_field(json, "videos") {
            Err(mismatch)
        } else if let Err(mismatch) = optional_text_field(json, "nextpage") {
            Err(mismatch)
        } else if let Err(mismatch) = optional_text_field(json, "nextbody") {
            Err(mismatch)
        } else if let Err(mismatch) = list_field::<RelatedStream>(json, "relatedStreams") {
            Err(mismatch)
        } else {
            Ok(
                PlaylistView {
                    name: text_field(json, "name")->Ok_0,
                    thumbnail_url: text_field(json, "thumbnailUrl")->Ok_0,
                    banner_url: optional_text_field(json, "bannerUrl")->Ok_0,
                    uploader: text_field(json, "uploader")->Ok_0,
                    uploader_url: text_field(json, "uploaderUrl")->Ok_0,
                    uploader_avatar: optional_text_field(json, "uploaderAvatar")->Ok_0,
                    videos: int32_field(json, "videos")->Ok_0,
                    nextpage: optional_text_field(json, "nextpage")->Ok_0,
                    nextbody: optional_text_field(json, "nextbody")->Ok_0,
                    related_streams: list_field::<RelatedStream>(json, "relatedStreams")->Ok_0,
                },
            )
        }
    }

    fn from_json(json: &Json) -> (got: Result<Playlist, Mismatch>) {
        let name = required_text(json, "name")?;
        let thumbnail_url = required_text(json, "thumbnailUrl")?;
        let banner_url = optional_text(json, "bannerUrl")?;
        let uploader = required_text(json, "uploader")?;
        let uploader_url = required_text(json, "uploaderUrl")?;
        let uploader_avatar = optional_text(json, "uploaderAvatar")?;
        let videos = required_int32(json, "videos")?;
        let nextpage = optional_text(json, "nextpage")?;
        let nextbody = optional_text(json, "nextbody")?;
        let related_streams = required_list::<RelatedStream>(json, "relatedStreams")?;
        Ok(
            Playlist {
                name,
                thumbnail_url,
                banner_url,
                uploader,
                uploader_url,
                uploader_avatar,
                videos,
                nextpage,
                nextbody,
                related_streams,
            },
        )
    }
}

/// A further page of the videos of a channel or a playlist.
#[derive(Debug)]
pub struct StreamsPage {
    /// Where the next page is. There is a next page only where `nextbody` is there too.
    pub nextpage: Option<String>,
    /// What to send along for the next page.
    pub nextbody: Option<String>,
    pub related_streams: Vec<RelatedStream>,
}

/// The view of a [`StreamsPage`].
pub struct StreamsPageView {
    pub nextpage: Option<Seq<char>>,
    pub nextbody: Option<Seq<char>>,
    pub related_streams: Seq<RelatedStreamView>,
}

impl View for StreamsPage {
    type V = StreamsPageView;

    open spec fn view(&self) -> StreamsPageView {
        StreamsPageView {
            nextpage: self.nextpage.deep_view(),
            nextbody: self.nextbody.deep_view(),
            related_streams: self.related_streams.deep_view(),
        }
    }
}

impl DeepView for StreamsPage {
    type V = StreamsPageView;

    open spec fn deep_view(&self) -> StreamsPageView {
        self@
    }
}

impl Decode for StreamsPage {
    open spec fn decoded(json: JsonView) -> Result<StreamsPageView, Mismatch> {
        if let Err(mismatch) = optional_text_field(json, "nextpage") {
            Err(mismatch)
        } else if let Err(mismatch) = optional_text_field(json, "nextbody") {
            Err(mismatch)
        } else if let Err(mismatch) = list_field::<RelatedStream>(json, "relatedStreams") {
            Err(mismatch)
        } else {
            Ok(
                StreamsPageView {
                    nextpage: optional_text_field(json, "nextpage")->Ok_0,
                    nextbody: optional_text_field(json, "nextbody")->Ok_0,
                    related_streams: list_field::<RelatedStream>(json, "relatedStreams")->Ok_0,
                },
            )
        }
    }

    fn from_json(json: &Json) -> (got: Result<StreamsPage, Mismatch>) {
        let nextpage = optional_text(json, "nextpage")?;
        let nextbody = optional_text(json, "nextbody")?;
        let related_streams = required_list::<RelatedStream>(json, "relatedStreams")?;
        Ok(StreamsPage { nextpage, nextbody, related_streams })
    }
}

/// One rendition of a video or of its sound.
#[derive(Debug)]
pub struct Stream {
    pub url: String,
    pub format: String,
    pub quality: String,
    pub mime_type: String,
    pub codec: Option<String>,
    pub video_only: bool,
    pub bitrate: i32,
    /// The byte range of the initialization segment.
    pub init_start: i32,
    pub init_end: i32,
    /// The byte range of the index segment.
    pub index_start: i32,
    pub index_end: i32,
    pub width: i32,
    pub height: i32,
    pub fps: i32,
}

/// The view of a [`Stream`].
pub struct StreamView {
    pub url: Seq<char>,
    pub format: Seq<char>,
    pub quality: Seq<char>,
    pub mime_type: Seq<char>,
    pub codec: Option<Seq<char>>,
    pub video_only: bool,
    pub bitrate: i32,
    pub init_start: i32,
    pub init_end: i32,
    pub index_start: i32,
    pub index_end: i32,
    pub width: i32,
    pub height: i32,
    pub fps: i32,
}

impl View for Stream {
    type V = StreamView;

    open spec fn view(&self) -> StreamView {
        StreamView {
            url: self.url@,
            format: self.format@,
            quality: self.quality@,
            mime_type: self.mime_type@,
            codec: self.codec.deep_view(),
            video_only: self.video_only,
            bitrate: self.bitrate,
            init_start: self.init_start,
            init_end: self.init_end,
            index_start: self.index_start,
            index_end: self.index_end,
            width: self.width,
            height: self.height,
            fps: self.fps,
        }
    }
}

impl DeepView for Stream {
    type V = StreamView;

    open spec fn deep_view(&self) -> StreamView {
        self@
    }
}

impl Decode for Stream {
    open spec fn decoded(json: JsonView) -> Result<StreamView, Mismatch> {
        if let Err(mismatch) = text_field(json, "url") {
            Err(mismatch)
        } else if let Err(mismatch) = text_field(json, "format") {
            Err(mismatch)
        } else if let Err(mismatch) = text_field(json, "quality") {
            Err(mismatch)
        } else if let Err(mismatch) = text_field(json, "mimeType") {
            Err(mismatch)
        } else if let Err(mismatch) = optional_text_field(json, "codec") {
            Err(mismatch)
        } else if let Err(mismatch) = flag_field(json, "videoOnly") {
            Err(mismatch)
        } else if let Err(mismatch) = int32_field(json, "bitrate") {
            Err(mismatch)
        } else if let Err(mismatch) = int32_field(json, "initStart") {
            Err(mismatch)
        } else if let Err(mismatch) = int32_field(json, "initEnd") {
            Err(mismatch)
        } else if let Err(mismatch) = int32_field(json, "indexStart") {
            Err(mismatch)
        } else if let Err(mismatch) = int32_field(json, "indexEnd") {
            Err(mismatch)
        } else if let Err(mismatch) = int32_field(json, "width") {
            Err(mismatch)
        } else if let Err(mismatch) = int32_field(json, "height") {
            Err(mismatch)
        } else if let Err(mismatch) = int32_field(json, "fps") {
            Err(mismatch)
        } else {
            Ok(
                StreamView {
                    url: text_field(json, "url")->Ok_0,
                    format: text_field(json, "format")->Ok_0,
                    quality: text_field(json, "quality")->Ok_0,
                    mime_type: text_field(json, "mimeType")->Ok_0,
                    codec: optional_text_field(json, "codec")->Ok_0,
                    video_only: flag_field(json, "videoOnly")->Ok_0,
                    bitrate: int32_field(json, "bitrate")->Ok_0,
                    init_start: int32_field(json, "initStart")->Ok_0,
                    init_end: int32_field(json, "initEnd")->Ok_0,
                    index_start: int32_field(json, "indexStart")->Ok_0,
                    index_end: int32_field(json, "indexEnd")->Ok_0,
                    width: int32_field(json, "width")->Ok_0,
                    height: int32_field(json, "height")->Ok_0,
                    fps: int32_field(json, "fps")->Ok_0,
                },
            )
        }
    }

    fn from_json(json: &Json) -> (got: Result<Stream, Mismatch>) {
        let url = required_text(json, "url")?;
        let format = required_text(json, "format")?;
        let quality = required_text(json, "quality")?;
        let mime_type = required_text(json, "mimeType")?;
        let codec = optional_text(json, "codec")?;
        let video_only = required_flag(json, "videoOnly")?;
        let bitrate = required_int32(json, "bitrate")?;
        let init_start = required_int32(json, "initStart")?;
        let init_end = required_int32(json, "initEnd")?;
        let index_start = required_int32(json, "indexStart")?;
        let index_end = required_int32(json, "indexEnd")?;
        let width = required_int32(json, "width")?;
        let height = required_int32(json, "height")?;
        let fps = required_int32(json, "fps")?;
        Ok(
            Stream {
                url,
                format,
                quality,
                mime_type,
                codec,
                video_only,
                bitrate,
                init_start,
                init_end,
                index_start,
                index_end,
                width,
                height,
                fps,
            },
        )
    }
}

/// One track of subtitles.
#[derive(Debug)]
pub struct Subtitle {
    pub url: String,
    pub mime_type: String,
    pub name: String,
    /// The language code.
    pub code: String,
    pub auto_generated: bool,
}

/// The view of a [`Subtitle`].
pub struct SubtitleView {
    pub url: Seq<char>,
    pub mime_type: Seq<char>,
    pub name: Seq<char>,
    pub code: Seq<char>,
    pub auto_generated: bool,
}

impl View for Subtitle {
    type V = SubtitleView;

    open spec fn view(&self) -> SubtitleView {
        SubtitleView {
            url: self.url@,
            mime_type: self.mime_type@,
            name: self.name@,
            code: self.code@,
            auto_generated: self.auto_generated,
        }
    }
}

impl DeepView for Subtitle {
    type V = SubtitleView;

    open spec fn deep_view(&self) -> SubtitleView {
        self@
    }
}

impl Decode for Subtitle {
    open spec fn decoded(json: JsonView) -> Result<SubtitleView, Mismatch> {
        if let Err(mismatch) = text_field(json, "url") {
            Err(mismatch)
        } else if let Err(mismatch) = text_field(json, "mimeType") {
            Err(mismatch)
        } else if let Err(mismatch) = text_field(json, "name") {
            Err(mismatch)
        } else if let Err(mismatch) = text_field(json, "code") {
            Err(mismatch)
        } else if let Err(mismatch) = flag_field(json, "autoGenerated") {
            Err(mismatch)
        } else {
            Ok(
                SubtitleView {
                    url: text_field(json, "url")->Ok_0,
                    mime_type: text_field(json, "mimeType")->Ok_0,
                    name: text_field(json, "name")->Ok_0,
                    code: text_field(json, "code")->Ok_0,
                    auto_generated: flag_field(json, "autoGenerated")->Ok_0,
                },
            )
        }
    }

    fn from_json(json: &Json) -> (got: Result<Subtitle, Mismatch>) {
        let url = required_text(json, "url")?;
        let mime_type = required_text(json, "mimeType")?;
        let name = required_text(json, "name")?;
        let code = required_text(json, "code")?;
        let auto_generated = required_flag(json, "autoGenerated")?;
        Ok(Subtitle { url, mime_type, name, code, auto_generated })
    }
}

/// A video in full.
#[derive(Debug)]
pub struct VideoInfo {
    pub title: String,
    pub description: String,
    /// The adaptive manifest, where the service offers one.
    pub dash: Option<String>,
    pub upload_date: String,
    pub uploader: String,
    pub uploader_url: String,
    pub uploader_avatar: String,
    pub thumbnail_url: String,
    /// The streaming manifest.
    pub hls: String,
    /// Seconds.
    pub duration: i32,
    pub views: i64,
    pub likes: i64,
    pub lbry_id: Option<String>,
    pub dislikes: i64,
    pub audio_streams: Vec<Stream>,
    pub video_streams: Vec<Stream>,
    pub related_streams: Vec<RelatedStream>,
    pub subtitles: Vec<Subtitle>,
    pub livestream: bool,
}

/// The view of a [`VideoInfo`].
pub struct VideoInfoView {
    pub title: Seq<char>,
    pub description: Seq<char>,
    pub dash: Option<Seq<char>>,
    pub upload_date: Seq<char>,
    pub uploader: Seq<char>,
    pub uploader_url: Seq<char>,
    pub uploader_avatar: Seq<char>,
    pub thumbnail_url: Seq<char>,
    pub hls: Seq<char>,
    pub duration: i32,
    pub views: i64,
    pub likes: i64,
    pub lbry_id: Option<Seq<char>>,
    pub dislikes: i64,
    pub audio_streams: Seq<StreamView>,
    pub video_streams: Seq<StreamView>,
    pub related_streams: Seq<RelatedStreamView>,
    pub subtitles: Seq<SubtitleView>,
    pub livestream: bool,
}

impl View for VideoInfo {
    type V = VideoInfoView;

    open spec fn view(&self) -> VideoInfoView {
        VideoInfoView {
            title: self.title@,
            description: self.description@,
            dash: self.dash.deep_view(),
            upload_date: self.upload_date@,
            uploader: self.uploader@,
            uploader_url: self.uploader_url@,
            uploader_avatar: self.uploader_avatar@,
            thumbnail_url: self.thumbnail_url@,
            hls: self.hls@,
            duration: self.duration,
            views: self.views,
            likes: self.likes,
            lbry_id: self.lbry_id.deep_view(),
            dislikes: self.dislikes,
            audio_streams: self.audio_streams.deep_view(),
            video_streams: self.video_streams.deep_view(),
            related_streams: self.related_streams.deep_view(),
            subtitles: self.subtitles.deep_view(),
            livestream: self.livestream,
        }
    }
}

impl DeepView for VideoInfo {
    type V = VideoInfoView;

    open spec fn deep_view(&self) -> VideoInfoView {
        self@
    }
}

impl Decode for VideoInfo {
    open spec fn decoded(json: JsonView) -> Result<VideoInfoView, Mismatch> {
        if let Err(mismatch) = text_field(json, "title") {
            Err(mismatch)
        } else if let Err(mismatch) = text_field(json, "description") {
            Err(mismatch)
        } else if let Err(mismatch) = optional_text_field(json, "dash") {
            Err(mismatch)
        } else if let Err(mismatch) = text_field(json, "uploadDate") {
            Err(mismatch)
        } else if let Err(mismatch) = text_field(json, "uploader") {
            Err(mismatch)
        } else if let Err(mismatch) = text_field(json, "uploaderUrl") {
            Err(mismatch)
        } else if let Err(mismatch) = text_field(json, "uploaderAvatar") {
            Err(mismatch)
        } else if let Err(mismatch) = text_field(json, "thumbnailUrl") {
            Err(mismatch)
        } else if let Err(mismatch) = text_field(json, "hls") {
            Err(mismatch)
        } else if let Err(mismatch) = int32_field(json, "duration") {
            Err(mismatch)
        } else if let Err(mismatch) = int64_field(json, "views") {
            Err(mismatch)
        } else if let Err(mismatch) = int64_field(json, "likes") {
            Err(mismatch)
        } else if let Err(mismatch) = optional_text_field(json, "lbryId") {
            Err(mismatch)
        } else if let Err(mismatch) = int64_field(json, "dislikes") {
            Err(mismatch)
        } else if let Err(mismatch) = list_field::<Stream>(json, "audioStreams") {
            Err(mismatch)
        } else if let Err(mismatch) = list_field::<Stream>(json, "videoStreams") {
            Err(mismatch)
        } else if let Err(mismatch) = list_field::<RelatedStream>(json, "relatedStreams") {
            Err(mismatch)
        } else if let Err(mismatch) = list_field::<Subtitle>(json, "subtitles") {
            Err(mismatch)
        } else if let Err(mismatch) = flag_field(json, "livestream") {
            Err(mismatch)
        } else {
            Ok(
                VideoInfoView {
                    title: text_field(json, "title")->Ok_0,
                    description: text_field(json, "description")->Ok_0,
                    dash: optional_text_field(json, "dash")->Ok_0,
                    upload_date: text_field(json, "uploadDate")->Ok_0,
                    uploader: text_field(json, "uploader")->Ok_0,
                    uploader_url: text_field(json, "uploaderUrl")->Ok_0,
                    uploader_avatar: text_field(json, "uploaderAvatar")->Ok_0,
                    thumbnail_url: text_field(json, "thumbnailUrl")->Ok_0,
                    hls: text_field(json, "hls")->Ok_0,
                    duration: int32_field(json, "duration")->Ok_0,
                    views: int64_field(json, "views")->Ok_0,
                    likes: int64_field(json, "likes")->Ok_0,
                    lbry_id: optional_text_field(json, "lbryId")->Ok_0,
                    dislikes: int64_field(json, "dislikes")->Ok_0,
                    audio_streams: list_field::<Stream>(json, "audioStreams")->Ok_0,
                    video_streams: list_field::<Stream>(json, "videoStreams")->Ok_0,
                    related_streams: list_field::<RelatedStream>(json, "relatedStreams")->Ok_0,
                    subtitles: list_field::<Subtitle>(json, "subtitles")->Ok_0,
                    livestream: flag_field(json, "livestream")->Ok_0,
                },
            )
        }
    }

    fn from_json(json: &Json) -> (got: Result<VideoInfo, Mismatch>) {
        let title = required_text(json, "title")?;
        let description = required_text(json, "description")?;
        let dash = optional_text(json, "dash")?;
        let upload_date = required_text(json, "uploadDate")?;
        let uploader = required_text(json, "uploader")?;
        let uploader_url = required_text(json, "uploaderUrl")?;
        let uploader_avatar = required_text(json, "uploaderAvatar")?;
        let thumbnail_url = required_text(json, "thumbnailUrl")?;
        let hls = required_text(json, "hls")?;
        let duration = required_int32(json, "duration")?;
        let views = required_int64(json, "views")?;
        let likes = required_int64(json, "likes")?;
        let lbry_id = optional_text(json, "lbryId")?;
        let dislikes = required_int64(json, "dislikes")?;
        let audio_streams = required_list::<Stream>(json, "audioStreams")?;
        let video_streams = required_list::<Stream>(json, "videoStreams")?;
        let related_streams = required_list::<RelatedStream>(json, "relatedStreams")?;
        let subtitles = required_list::<Subtitle>(json, "subtitles")?;
        let livestream = required_flag(json, "livestream")?;
        Ok(
            VideoInfo {
                title,
                description,
                dash,
                upload_date,
                uploader,
                uploader_url,
                uploader_avatar,
                thumbnail_url,
                hls,
                duration,
                views,
                likes,
                lbry_id,
                dislikes,
                audio_streams,
                video_streams,
                related_streams,
                subtitles,
                livestream,
            },
        )
    }
}

/// One comment on a video.
#[derive(Debug)]
pub struct Comment {
    pub author: String,
    pub thumbnail: String,
    pub comment_id: String,
    pub comment_text: String,
    /// How long ago the comment was written, in words.
    pub commented_time: String,
    pub commentor_url: String,
    pub like_count: i64,
    pub hearted: bool,
    pub pinned: bool,
    pub verified: bool,
}

/// The view of a [`Comment`].
pub struct CommentView {
    pub author: Seq<char>,
    pub thumbnail: Seq<char>,
    pub comment_id: Seq<char>,
    pub comment_text: Seq<char>,
    pub commented_time: Seq<char>,
    pub commentor_url: Seq<char>,
    pub like_count: i64,
    pub hearted: bool,
    pub pinned: bool,
    pub verified: bool,
}

impl View for Comment {
    type V = CommentView;

    open spec fn view(&self) -> CommentView {
        CommentView {
            author: self.author@,
            thumbnail: self.thumbnail@,
            comment_id: self.comment_id@,
            comment_text: self.comment_text@,
            commented_time: self.commented_time@,
            commentor_url: self.commentor_url@,
            like_count: self.like_count,
            hearted: self.hearted,
            pinned: self.pinned,
            verified: self.verified,
        }
    }
}

impl DeepView for Comment {
    type V = CommentView;

    open spec fn deep_view(&self) -> CommentView {
        self@
    }
}

impl Decode for Comment {
    open spec fn decoded(json: JsonView) -> Result<CommentView, Mismatch> {
        if let Err(mismatch) = text_field(json, "author") {
            Err(mismatch)
        } else if let Err(mismatch) = text_field(json, "thumbnail") {
            Err(mismatch)
        } else if let Err(mismatch) = text_field(json, "commentId") {
            Err(mismatch)
        } else if let Err(mismatch) = text_field(json, "commentText") {
            Err(mismatch)
        } else if let Err(mismatch) = text_field(json, "commentedTime") {
            Err(mismatch)
        } else if let Err(mismatch) = text_field(json, "commentorUrl") {
            Err(mismatch)
        } else if let Err(mismatch) = int64_field(json, "likeCount") {
            Err(mismatch)
        } else if let Err(mismatch) = flag_field(json, "hearted") {
            Err(mismatch)
        } else if let Err(mismatch) = flag_field(json, "pinned") {
            Err(mismatch)
        } else if let Err(mismatch) = flag_field(json, "verified") {
            Err(mismatch)
        } else {
            Ok(
                CommentView {
                    author: text_field(json, "author")->Ok_0,
                    thumbnail: text_field(json, "thumbnail")->Ok_0,
                    comment_id: text_field(json, "commentId")->Ok_0,
                    comment_text: text_field(json, "commentText")->Ok_0,
                    commented_time: text_field(json, "commentedTime")->Ok_0,
                    commentor_url: text_field(json, "commentorUrl")->Ok_0,
                    like_count: int64_field(json, "likeCount")->Ok_0,
                    hearted: flag_field(json, "hearted")->Ok_0,
                    pinned: flag_field(json, "pinned")->Ok_0,
                    verified: flag_field(json, "verified")->Ok_0,
                },
            )
        }
    }

    fn from_json(json: &Json) -> (got: Result<Comment, Mismatch>) {
        let author = required_text(json, "author")?;
        let thumbnail = required_text(json, "thumbnail")?;
        let comment_id = required_text(json, "commentId")?;
        let comment_text = required_text(json, "commentText")?;
        let commented_time = required_text(json, "commentedTime")?;
        let commentor_url = required_text(json, "commentorUrl")?;
        let like_count = required_int64(json, "likeCount")?;
        let hearted = required_flag(json, "hearted")?;
        let pinned = required_flag(json, "pinned")?;
        let verified = required_flag(json, "verified")?;
        Ok(
            Comment {
                author,
                thumbnail,
                comment_id,
                comment_text,
                commented_time,
                commentor_url,
                like_count,
                hearted,
                pinned,
                verified,
            },
        )
    }
}

/// A page of the comments on a video.
#[derive(Debug)]
pub struct CommentsInfo {
    pub comments: Vec<Comment>,
    /// Where the next page is; comments go on with this one token.
    pub nextpage: Option<String>,
}

/// The view of a [`CommentsInfo`].
pub struct CommentsInfoView {
    pub comments: Seq<CommentView>,
    pub nextpage: Option<Seq<char>>,
}

impl View for CommentsInfo {
    type V = CommentsInfoView;

    open spec fn view(&self) -> CommentsInfoView {
        CommentsInfoView {
            comments: self.comments.deep_view(),
            nextpage: self.nextpage.deep_view(),
        }
    }
}

impl DeepView for CommentsInfo {
    type V = CommentsInfoView;

    open spec fn deep_view(&self) -> CommentsInfoView {
        self@
    }
}

impl Decode for CommentsInfo {
    open spec fn decoded(json: JsonView) -> Result<CommentsInfoView, Mismatch> {
        if let Err(mismatch) = list_field::<Comment>(json, "comments") {
            Err(mismatch)
        } else if let Err(mismatch) = optional_text_field(json, "nextpage") {
            Err(mismatch)
        } else {
            Ok(
                CommentsInfoView {
                    comments: list_field::<Comment>(json, "comments")->Ok_0,
                    nextpage: optional_text_field(json, "nextpage")->Ok_0,
                },
            )
        }
    }

    fn from_json(json: &Json) -> (got: Result<CommentsInfo, Mismatch>) {
        let comments = required_list::<Comment>(json, "comments")?;
        let nextpage = optional_text(json, "nextpage")?;
        Ok(CommentsInfo { comments, nextpage })
    }
}

/// A channel as a search finds it.
#[derive(Debug)]
pub struct ChannelSearchItem {
    pub name: String,
    pub thumbnail: String,
    pub url: String,
    pub description: Option<String>,
    pub subscribers: i32,
    pub videos: i32,
    pub verified: bool,
}

/// The view of a [`ChannelSearchItem`].
pub struct ChannelSearchItemView {
    pub name: Seq<char>,
    pub thumbnail: Seq<char>,
    pub url: Seq<char>,
    pub description: Option<Seq<char>>,
    pub subscribers: i32,
    pub videos: i32,
    pub verified: bool,
}

impl View for ChannelSearchItem {
    type V = ChannelSearchItemView;

    open spec fn view(&self) -> ChannelSearchItemView {
        ChannelSearchItemView {
            name: self.name@,
            thumbnail: self.thumbnail@,
            url: self.url@,
            description: self.description.deep_view(),
            subscribers: self.subscribers,
            videos: self.videos,
            verified: self.verified,
        }
    }
}

impl DeepView for ChannelSearchItem {
    type V = ChannelSearchItemView;

    open spec fn deep_view(&self) -> ChannelSearchItemView {
        self@
    }
}

impl Decode for ChannelSearchItem {
    open spec fn decoded(json: JsonView) -> Result<ChannelSearchItemView, Mismatch> {
        if let Err(mismatch) = text_field(json, "name") {
            Err(mismatch)
        } else if let Err(mismatch) = text_field(json, "thumbnail") {
            Err(mismatch)
        } else if let Err(mismatch) = text_field(json, "url") {
            Err(mismatch)
        } else if let Err(mismatch) = optional_text_field(json, "description") {
            Err(mismatch)
        } else if let Err(mismatch) = int32_field(json, "subscribers") {
            Err(mismatch)
        } else if let Err(mismatch) = int32_field(json, "videos") {
            Err(mismatch)
        } else if let Err(mismatch) = flag_field(json, "verified") {
            Err(mismatch)
        } else {
            Ok(
                ChannelSearchItemView {
                    name: text_field(json, "name")->Ok_0,
                    thumbnail: text_field(json, "thumbnail")->Ok_0,
                    url: text_field(json, "url")->Ok_0,
                    description: optional_text_field(json, "description")->Ok_0,
                    subscribers: int32_field(json, "subscribers")->Ok_0,
                    videos: int32_field(json, "videos")->Ok_0,
                    verified: flag_field(json, "verified")->Ok_0,
                },
            )
        }
    }

    fn from_json(json: &Json) -> (got: Result<ChannelSearchItem, Mismatch>) {
        let name = required_text(json, "name")?;
        let thumbnail = required_text(json, "thumbnail")?;
        let url = required_text(json, "url")?;
        let description = optional_text(json, "description")?;
        let subscribers = required_int32(json, "subscribers")?;
        let videos = required_int32(json, "videos")?;
        let verified = required_flag(json, "verified")?;
        Ok(ChannelSearchItem { name, thumbnail, url, description, subscribers, videos, verified })
    }
}

/// What a search for channels found.
#[derive(Debug)]
pub struct ChannelSearch {
    pub items: Vec<ChannelSearchItem>,
    pub nextpage: Option<String>,
    /// Another spelling of what was searched for.
    pub suggestion: Option<String>,
    /// Whether the service searched for a corrected spelling.
    pub corrected: bool,
}

/// The view of a [`ChannelSearch`].
pub struct ChannelSearchView {
    pub items: Seq<ChannelSearchItemView>,
    pub nextpage: Option<Seq<char>>,
    pub suggestion: Option<Seq<char>>,
    pub corrected: bool,
}

impl View for ChannelSearch {
    type V = ChannelSearchView;

    open spec fn view(&self) -> ChannelSearchView {
        ChannelSearchView {
            items: self.items.deep_view(),
            nextpage: self.nextpage.deep_view(),
            suggestion: self.suggestion.deep_view(),
            corrected: self.corrected,
        }
    }
}

impl DeepView for ChannelSearch {
    type V = ChannelSearchView;

    open spec fn deep_view(&self) -> ChannelSearchView {
        self@
    }
}

impl Decode for ChannelSearch {
    open spec fn decoded(json: JsonView) -> Result<ChannelSearchView, Mismatch> {
        if let Err(mismatch) = list_field::<ChannelSearchItem>(json, "items") {
            Err(mismatch)
        } else if let Err(mismatch) = optional_text_field(json, "nextpage") {
            Err(mismatch)
        } else if let Err(mismatch) = optional_text_field(json, "suggestion") {
            Err(mismatch)
        } else if let Err(mismatch) = flag_field(json, "corrected") {
            Err(mismatch)
        } else {
            Ok(
                ChannelSearchView {
                    items: list_field::<ChannelSearchItem>(json, "items")->Ok_0,
                    nextpage: optional_text_field(json, "nextpage")->Ok_0,
                    suggestion: optional_text_field(json, "suggestion")->Ok_0,
                    corrected: flag_field(json, "corrected")->Ok_0,
                },
            )
        }
    }

    fn from_json(json: &Json) -> (got: Result<ChannelSearch, Mismatch>) {
        let items = required_list::<ChannelSearchItem>(json, "items")?;
        let nextpage = optional_text(json, "nextpage")?;
        let suggestion = optional_text(json, "suggestion")?;
        let corrected = required_flag(json, "corrected")?;
        Ok(ChannelSearch { items, nextpage, suggestion, corrected })
    }
}

/// The two tokens that lead to the next page of a listing. There is a next
/// page only where both are there: one without the other means that the
/// listing ends here.
pub open spec fn continuation_of(
    nextpage: Option<Seq<char>>,
    nextbody: Option<Seq<char>>,
) -> Option<(Seq<char>, Seq<char>)> {
    match (nextpage, nextbody) {
        (Some(url), Some(body)) => Some((url, body)),
        _ => None,
    }
}

/// Whether `found` are the tokens that `due` holds.
pub open spec fn is_continuation(
    found: Option<(&str, &str)>,
    due: Option<(Seq<char>, Seq<char>)>,
) -> bool {
    match (found, due) {
        (Some(tokens), Some(views)) => tokens.0@ == views.0 && tokens.1@ == views.1,
        (None, None) => true,
        _ => false,
    }
}

/// Pairs the two tokens where both are there.
fn both_tokens<'a>(nextpage: &'a Option<String>, nextbody: &'a Option<String>) -> (found: Option<
    (&'a str, &'a str),
>)
    ensures
        is_continuation(found, continuation_of(nextpage.deep_view(), nextbody.deep_view())),
{
    match (nextpage, nextbody) {
        (Some(url), Some(body)) => Some((url.as_str(), body.as_str())),
        _ => None,
    }
}

impl Channel {
    /// What to ask for the next page of the channel's videos with:
    /// `nextpage` and `nextbody`, where both are there.
    pub fn continuation(&self) -> (found: Option<(&str, &str)>)
        ensures
            is_continuation(found, continuation_of(self@.nextpage, self@.nextbody)),
    {
        both_tokens(&self.nextpage, &self.nextbody)
    }
}

impl Playlist {
    /// What to ask for the next page of the playlist's videos with:
    /// `nextpage` and `nextbody`, where both are there.
    pub fn continuation(&self) -> (found: Option<(&str, &str)>)
        ensures
            is_continuation(found, continuation_of(self@.nextpage, self@.nextbody)),
    {
        both_tokens(&self.nextpage, &self.nextbody)
    }
}

impl StreamsPage {
    /// What to ask for the page after this one with: `nextpage` and `nextbody`,
    /// where both are there.
    pub fn continuation(&self) -> (found: Option<(&str, &str)>)
        ensures
            is_continuation(found, continuation_of(self@.nextpage, self@.nextbody)),
    {
        both_tokens(&self.nextpage, &self.nextbody)
    }
}

/// A channel can do without its banner and without the tokens of its next
/// page: an object that holds the five required members and none of
/// `bannerUrl`, `nextpage` and `nextbody` is a channel, and these three
/// fields of it are empty.
pub proof fn law_channel_without_optional_members(json: JsonView)
    requires
        text_field(json, "id") is Ok,
        text_field(json, "name") is Ok,
        text_field(json, "avatarUrl") is Ok,
        text_field(json, "description") is Ok,
        list_field::<RelatedStream>(json, "relatedStreams") is Ok,
        json.get("bannerUrl"@) is None,
        json.get("nextpage"@) is None,
        json.get("nextbody"@) is None,
    ensures
        Channel::decoded(json) matches Ok(channel) && channel.banner_url is None
            && channel.nextpage is None && channel.nextbody is None,
{
}

/// The duration of a video has to be a number: an object whose `duration` is
/// a string is no video.
pub proof fn law_video_duration_is_no_text(json: JsonView, duration: Seq<char>)
    requires
        json.get("duration"@) == Some(JsonView::Text(duration)),
    ensures
        VideoInfo::decoded(json) is Err,
        int32_field(json, "duration") == Err::<i32, Mismatch>(
            Mismatch::Field { field: "duration", expected: Expected::Int32 },
        ),
{
}

} // verus!
