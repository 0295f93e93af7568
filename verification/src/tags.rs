//! Representations of extended M3U playlist tags, and their renderings.

use vstd::prelude::*;
use vstd::string::{StrSliceExecFns, StringExecFns};

use crate::text::{
    hex_encode_upper, lemma_add_assoc, push_join_strs, push_quoted_value, push_u64, push_zero_pad,
    spec_dec, spec_hex_bytes_upper, spec_join_strs, spec_zero_pad, Decimal,
};
use crate::datetime::DateTime;
use crate::{
    AttributeValue, AudioChannelInformation, ByteRange, ByteRangeWithOffset, ContentSteering,
    DateRange, DateRangeCuePosition, DeltaUpdateInfo, EncryptionMethod, FloatOrInteger, InStreamId,
    PlaylistType, PreloadHint, PreloadHintType, RenditionPlaybackPriority, RenditionReport,
    SessionData, SessionDataValue, StreamInf, UriFormat,
};

verus! {

pub use crate::DefinitionType;

/// A representation of all possible tags.
#[derive(Debug, Clone)]
pub enum Tag {
    /// The EXTM3U tag indicates that the file is an Extended M3U Playlist file.
    M3u,
    /// The EXT-X-VERSION tag indicates the compatibility version of the
    /// Playlist file, its associated media, and its server.
    XVersion { version: u8 },
    /// The EXT-X-DEFINE tag provides a Playlist variable definition or
    /// declaration.
    XDefine(DefinitionType),
    /// The EXT-X-START tag indicates a preferred point at which to start
    /// playing a Playlist.
    XStart { offset_seconds: Decimal, is_precise: bool },
    /// The EXT-X-INDEPENDENT-SEGMENTS tag indicates that all media samples
    /// in a Media Segment can be decoded without information from other
    /// segments.
    XIndependentSegments,
    /// The EXTINF tag specifies the duration of a Media Segment.
    Inf { duration_seconds: FloatOrInteger, title: String },
    /// The EXT-X-BYTERANGE tag indicates that a Media Segment is a sub-range
    /// of the resource identified by its URI.
    XByterange(ByteRange),
    /// The EXT-X-DISCONTINUITY tag indicates a discontinuity between the
    /// Media Segment that follows it and the one that preceded it.
    XDiscontinuity,
    /// Media Segments MAY be encrypted. The EXT-X-KEY tag specifies how to
    /// decrypt them.
    XKey(Option<EncryptionMethod>),
    /// The EXT-X-MAP tag specifies how to obtain the Media Initialization
    /// Section required to parse the applicable Media Segments.
    XMap { uri: String, range: Option<ByteRangeWithOffset> },
    /// The EXT-X-PROGRAM-DATE-TIME tag associates the first sample of a
    /// Media Segment with an absolute date and/or time.
    XProgramDateTime(DateTime),
    /// The EXT-X-GAP tag indicates that the segment URI to which it applies
    /// does not contain media data and SHOULD NOT be loaded by clients.
    XGap,
    /// The EXT-X-BITRATE tag identifies the approximate segment bit rate of
    /// the Media Segments to which it applies.
    XBitrate { kbps: u64 },
    /// The EXT-X-PART tag identifies a Partial Segment.
    XPart {
        uri: String,
        duration_seconds: Decimal,
        is_independent: bool,
        byte_range: Option<ByteRange>,
        is_gap: bool,
    },
    /// The EXT-X-TARGETDURATION tag specifies the maximum Media Segment
    /// duration.
    XTargetDuration { target_duration_seconds: u64 },
    /// The EXT-X-MEDIA-SEQUENCE tag indicates the Media Sequence Number of
    /// the first Media Segment that appears in a Playlist file.
    XMediaSequence { sequence_number: u64 },
    /// The EXT-X-DISCONTINUITY-SEQUENCE tag allows synchronization between
    /// different Renditions of the same Variant Stream or different Variant
    /// Streams that have EXT-X-DISCONTINUITY tags in their Media Playlists.
    XDiscontinuitySequence { sequence_number: u64 },
    /// The EXT-X-ENDLIST tag indicates that no more Media Segments will be
    /// added to the Media Playlist file.
    XEndList,
    /// The EXT-X-PLAYLIST-TYPE tag provides mutability information about the
    /// Media Playlist file.
    XPlaylistType(PlaylistType),
    /// The EXT-X-I-FRAMES-ONLY tag indicates that each Media Segment in the
    /// Playlist describes a single I-frame.
    XIFramesOnly,
    /// The EXT-X-PART-INF tag provides information about the Partial
    /// Segments in the Playlist.
    XPartInf { part_target_duration_seconds: Decimal },
    /// The EXT-X-SERVER-CONTROL tag allows the Server to indicate support
    /// for Delivery Directives.
    XServerControl {
        delta_update_info: Option<DeltaUpdateInfo>,
        hold_back: Option<Decimal>,
        part_hold_back: Option<Decimal>,
        can_block_reload: bool,
    },
    /// The EXT-X-MEDIA tag is used to relate Media Playlists that contain
    /// alternative Renditions of the same content.
    XMedia {
        media_type: MediaType,
        group_id: String,
        language: Option<String>,
        assoc_language: Option<String>,
        name: String,
        stable_rendition_id: Option<String>,
        playback_priority: RenditionPlaybackPriority,
        characteristics: Vec<String>,
    },
    /// The EXT-X-STREAM-INF tag specifies a Variant Stream, which is a set
    /// of Renditions that can be combined to play the presentation.
    XStreamInf {
        stream_inf: StreamInf,
        /// The maximum frame rate, in thousandths of frames per second;
        /// rendered with exactly three decimal places.
        frame_rate: Option<u64>,
        audio_group_id: Option<String>,
        video_group_id: Option<String>,
        subtitles_group_id: Option<String>,
        closed_captions_group_id: Option<String>,
        uri: String,
    },
    /// The EXT-X-I-FRAME-STREAM-INF tag identifies a Media Playlist file
    /// containing the I-frames of a multimedia presentation.
    XIFrameStreamInf { stream_inf: StreamInf, video_group_id: Option<String>, uri: String },
    /// The EXT-X-SESSION-DATA tag allows arbitrary session data to be
    /// carried in a Multivariant Playlist.
    XSessionData(SessionData),
    /// The EXT-X-SESSION-KEY tag allows encryption keys from Media Playlists
    /// to be specified in a Master Playlist.
    XSessionKey(EncryptionMethod),
    /// The EXT-X-CONTENT-STEERING tag allows a server to provide a Content
    /// Steering Manifest.
    XContentSteering(ContentSteering),
    /// The EXT-X-DATERANGE tag associates a Date Range (i.e., a range of
    /// time defined by a starting and ending date) with a set of attribute/
    /// value pairs.
    XDateRange(DateRange),
    /// A server produces a Playlist Delta Update by replacing
    /// tags earlier than the Skip Boundary with an EXT-X-SKIP tag.
    XSkip { number_of_skipped_segments: u64, recently_removed_dataranges: Vec<String> },
    /// The EXT-X-PRELOAD-HINT tag allows a Client loading media from a live
    /// stream to reduce the time to obtain a resource from the Server by
    /// issuing its request before the resource is available to be delivered.
    XPreloadHint(PreloadHint),
    /// The EXT-X-RENDITION-REPORT tag carries information about an
    /// associated Rendition that is as up-to-date as the Playlist that
    /// contains it.
    XRenditionReport(RenditionReport),
}

/// The kind of rendition an EXT-X-MEDIA tag declares, with the fields
/// specific to that kind.
#[derive(Debug, Clone)]
pub enum MediaType {
    Audio {
        uri: Option<String>,
        channels: Option<AudioChannelInformation>,
        bit_depth: Option<u64>,
        sample_rate: Option<u64>,
    },
    Video {
        uri: Option<String>,
    },
    Subtitles {
        uri: String,
        forced: bool,
    },
    ClosedCaptions {
        in_stream_id: InStreamId,
    },
}

/// An optional quoted attribute: `prefix"value"` when present, nothing
/// when absent. The opening quote ends the prefix.
pub open spec fn spec_opt_quoted(prefix: Seq<char>, value: Option<String>) -> Seq<char> {
    match value {
        Option::Some(v) => prefix + v@ + "\""@,
        Option::None => Seq::<char>::empty(),
    }
}

/// The `NAME`/`VALUE`, `IMPORT` or `QUERYPARAM` body of an EXT-X-DEFINE tag.
pub open spec fn spec_define_chars(definition: DefinitionType) -> Seq<char> {
    match definition {
        DefinitionType::Inline { name, value } => "#EXT-X-DEFINE:NAME=\""@ + name@ + "\""@
            + ",VALUE=\""@ + value@ + "\""@,
        DefinitionType::Import { name } => "#EXT-X-DEFINE:IMPORT=\""@ + name@ + "\""@,
        DefinitionType::QueryParameter { name } => "#EXT-X-DEFINE:QUERYPARAM=\""@ + name@ + "\""@,
    }
}

/// The `,FRAME-RATE=` attribute, with exactly three decimal places.
pub open spec fn spec_frame_rate_chars(frame_rate_milli: u64) -> Seq<char> {
    ",FRAME-RATE="@ + spec_dec((frame_rate_milli / 1000) as nat) + "."@ + spec_zero_pad(
        (frame_rate_milli % 1000) as nat,
        3,
    )
}

/// The rendering of one client attribute value.
pub open spec fn spec_attr_value_chars(value: AttributeValue) -> Seq<char> {
    match value {
        AttributeValue::String(s) => "\""@ + s@ + "\""@,
        AttributeValue::Bytes(b) => "0x"@ + spec_hex_bytes_upper(b@),
        AttributeValue::Float(d) => d.spec_chars(),
    }
}

/// The `,X-<name>=<value>` client attributes of a date range, in order.
pub open spec fn spec_client_attrs_chars(items: Seq<(String, AttributeValue)>) -> Seq<char>
    decreases items.len(),
{
    if items.len() == 0 {
        Seq::<char>::empty()
    } else {
        spec_client_attrs_chars(items.drop_last()) + ",X-"@ + items.last().0@ + "="@
            + spec_attr_value_chars(items.last().1)
    }
}

/// The body inside the quotes of a `CHANNELS` attribute.
pub open spec fn spec_channels_chars(channels: AudioChannelInformation) -> Seq<char> {
    match channels {
        AudioChannelInformation::NumberOfChannelsOnly { number_of_channels } => spec_dec(
            number_of_channels as nat,
        ),
        AudioChannelInformation::WithAudioCodingIdentifiers {
            number_of_channels,
            audio_coding_identifiers,
        } => spec_dec(number_of_channels as nat) + "/"@ + (if audio_coding_identifiers@.len()
            == 0 {
            "-"@
        } else {
            spec_join_strs(audio_coding_identifiers@, ","@)
        }),
        AudioChannelInformation::WithSpecialUsageIdentifiers {
            number_of_channels,
            audio_coding_identifiers,
            binaural,
            immersive,
            downmix,
        } => spec_dec(number_of_channels as nat) + "/"@ + (if audio_coding_identifiers@.len()
            == 0 {
            "-"@
        } else {
            spec_join_strs(audio_coding_identifiers@, ","@)
        }) + "/"@ + spec_special_usage_chars(binaural, immersive, downmix),
    }
}

/// The special-usage labels, comma separated in the fixed order
/// `BINAURAL`, `IMMERSIVE`, `DOWNMIX`.
pub open spec fn spec_special_usage_chars(binaural: bool, immersive: bool, downmix: bool) -> Seq<
    char,
> {
    (if binaural {
        if immersive || downmix {
            "BINAURAL,"@
        } else {
            "BINAURAL"@
        }
    } else {
        Seq::<char>::empty()
    }) + (if immersive {
        if downmix {
            "IMMERSIVE,"@
        } else {
            "IMMERSIVE"@
        }
    } else {
        Seq::<char>::empty()
    }) + (if downmix {
        "DOWNMIX"@
    } else {
        Seq::<char>::empty()
    })
}

/// The tag name, `TYPE`, `URI`, `GROUP-ID`, language and `NAME` attributes
/// of an EXT-X-MEDIA tag.
pub open spec fn spec_x_media_type_chars(media_type: MediaType) -> Seq<char> {
    match media_type {
        MediaType::Audio { uri, .. } => "#EXT-X-MEDIA:TYPE=AUDIO"@ + spec_opt_quoted(
            ",URI=\""@,
            uri,
        ),
        MediaType::Video { uri } => "#EXT-X-MEDIA:TYPE=VIDEO"@ + spec_opt_quoted(",URI=\""@, uri),
        MediaType::Subtitles { uri, .. } => "#EXT-X-MEDIA:TYPE=SUBTITLES,URI=\""@ + uri@ + "\""@,
        MediaType::ClosedCaptions { .. } => "#EXT-X-MEDIA:TYPE=CLOSED-CAPTIONS"@,
    }
}

pub open spec fn spec_x_media_head_chars(
    media_type: MediaType,
    group_id: String,
    language: Option<String>,
    assoc_language: Option<String>,
    name: String,
    stable_rendition_id: Option<String>,
) -> Seq<char> {
    spec_x_media_type_chars(media_type) + ",GROUP-ID=\""@ + group_id@ + "\""@ + spec_opt_quoted(",LANGUAGE=\""@, language)
        + spec_opt_quoted(",ASSOC-LANGUAGE=\""@, assoc_language) + ",NAME=\""@ + name@ + "\""@
        + spec_opt_quoted(",STABLE-RENDITION-ID=\""@, stable_rendition_id)
}

/// The playback priority, `FORCED`, `INSTREAM-ID`, `BIT-DEPTH` and
/// `SAMPLE-RATE` attributes of an EXT-X-MEDIA tag.
pub open spec fn spec_x_media_flags_chars(
    media_type: MediaType,
    playback_priority: RenditionPlaybackPriority,
) -> Seq<char> {
    (match playback_priority {
        RenditionPlaybackPriority::Default => ",DEFAULT=YES,AUTOSELECT=YES"@,
        RenditionPlaybackPriority::AutoSelect => ",AUTOSELECT=YES"@,
        RenditionPlaybackPriority::Unspecified => Seq::<char>::empty(),
    }) + (match media_type {
        MediaType::Subtitles { forced: true, .. } => ",FORCED=YES"@,
        _ => Seq::<char>::empty(),
    }) + (match media_type {
        MediaType::ClosedCaptions { in_stream_id: InStreamId::Cc1 } => ",INSTREAM-ID=\"CC1\""@,
        MediaType::ClosedCaptions { in_stream_id: InStreamId::Cc2 } => ",INSTREAM-ID=\"CC2\""@,
        MediaType::ClosedCaptions { in_stream_id: InStreamId::Cc3 } => ",INSTREAM-ID=\"CC3\""@,
        MediaType::ClosedCaptions { in_stream_id: InStreamId::Cc4 } => ",INSTREAM-ID=\"CC4\""@,
        MediaType::ClosedCaptions { in_stream_id: InStreamId::Service(id) } =>
            ",INSTREAM-ID=\"SERVICE"@ + spec_dec(id as nat) + "\""@,
        _ => Seq::<char>::empty(),
    }) + (match media_type {
        MediaType::Audio { bit_depth: Option::Some(bit_depth), .. } => ",BIT-DEPTH="@ + spec_dec(
            bit_depth as nat,
        ),
        _ => Seq::<char>::empty(),
    }) + (match media_type {
        MediaType::Audio { sample_rate: Option::Some(sample_rate), .. } => ",SAMPLE-RATE="@
            + spec_dec(sample_rate as nat),
        _ => Seq::<char>::empty(),
    })
}

/// The `CHARACTERISTICS` and `CHANNELS` attributes of an EXT-X-MEDIA tag.
pub open spec fn spec_x_media_tail_chars(
    media_type: MediaType,
    characteristics: Seq<String>,
) -> Seq<char> {
    (if characteristics.len() == 0 {
        Seq::<char>::empty()
    } else {
        ",CHARACTERISTICS=\""@ + spec_join_strs(characteristics, ","@) + "\""@
    }) + (match media_type {
        MediaType::Audio { channels: Option::Some(channels), .. } => ",CHANNELS=\""@
            + spec_channels_chars(channels) + "\""@,
        _ => Seq::<char>::empty(),
    })
}

/// The full body of an EXT-X-MEDIA tag.
pub open spec fn spec_x_media_chars(
    media_type: MediaType,
    group_id: String,
    language: Option<String>,
    assoc_language: Option<String>,
    name: String,
    stable_rendition_id: Option<String>,
    playback_priority: RenditionPlaybackPriority,
    characteristics: Seq<String>,
) -> Seq<char> {
    spec_x_media_head_chars(media_type, group_id, language, assoc_language, name,
        stable_rendition_id) + spec_x_media_flags_chars(media_type, playback_priority)
        + spec_x_media_tail_chars(media_type, characteristics)
}

/// The body of an EXT-X-STREAM-INF tag together with the URI line that
/// follows it.
/// The frame rate and rendition-group attributes of an EXT-X-STREAM-INF
/// tag, in their fixed order.
pub open spec fn spec_stream_inf_extras_chars(
    frame_rate: Option<u64>,
    audio_group_id: Option<String>,
    video_group_id: Option<String>,
    subtitles_group_id: Option<String>,
    closed_captions_group_id: Option<String>,
) -> Seq<char> {
    (match frame_rate {
        Option::Some(fr) => spec_frame_rate_chars(fr),
        Option::None => Seq::<char>::empty(),
    }) + spec_opt_quoted(",AUDIO=\""@, audio_group_id) + spec_opt_quoted(
        ",VIDEO=\""@,
        video_group_id,
    ) + spec_opt_quoted(",SUBTITLES=\""@, subtitles_group_id) + spec_opt_quoted(
        ",CLOSED-CAPTIONS=\""@,
        closed_captions_group_id,
    )
}

pub open spec fn spec_x_stream_inf_chars(
    stream_inf: StreamInf,
    frame_rate: Option<u64>,
    audio_group_id: Option<String>,
    video_group_id: Option<String>,
    subtitles_group_id: Option<String>,
    closed_captions_group_id: Option<String>,
    uri: String,
) -> Seq<char> {
    "#EXT-X-STREAM-INF:"@ + stream_inf.spec_chars() + spec_stream_inf_extras_chars(
        frame_rate,
        audio_group_id,
        video_group_id,
        subtitles_group_id,
        closed_captions_group_id,
    ) + "\n"@ + uri@
}

/// The body of an EXT-X-I-FRAME-STREAM-INF tag.
pub open spec fn spec_x_i_frame_stream_inf_chars(
    stream_inf: StreamInf,
    video_group_id: Option<String>,
    uri: String,
) -> Seq<char> {
    "#EXT-X-I-FRAME-STREAM-INF:"@ + stream_inf.spec_chars() + spec_opt_quoted(
        ",VIDEO=\""@,
        video_group_id,
    ) + ",URI=\""@ + uri@ + "\""@
}

/// The body of an EXT-X-SESSION-DATA tag.
pub open spec fn spec_x_session_data_chars(session_data: SessionData) -> Seq<char> {
    "#EXT-X-SESSION-DATA:DATA-ID=\""@ + session_data.data_id@ + "\""@ + (match session_data.value {
        SessionDataValue::Value { value, language } => ",VALUE=\""@ + value@ + "\""@
            + spec_opt_quoted(",LANGUAGE=\""@, language),
        SessionDataValue::Uri { uri, format } => ",URI=\""@ + uri@ + "\""@ + (match format {
            UriFormat::Json => ",FORMAT=JSON"@,
            UriFormat::Raw => ",FORMAT=RAW"@,
        }),
    })
}

/// The body of an EXT-X-CONTENT-STEERING tag.
pub open spec fn spec_x_content_steering_chars(content_steering: ContentSteering) -> Seq<char> {
    "#EXT-X-CONTENT-STEERING:SERVER-URI=\""@ + content_steering.server_uri@ + "\""@
        + spec_opt_quoted(",PATHWAY-ID=\""@, content_steering.pathway_id)
}

/// The body of an EXT-X-RENDITION-REPORT tag.
pub open spec fn spec_x_rendition_report_chars(report: RenditionReport) -> Seq<char> {
    "#EXT-X-RENDITION-REPORT:URI=\""@ + report.uri@ + "\""@ + (match report.last_sequence_number {
        Option::Some(n) => ",LAST-MSN="@ + spec_dec(n as nat),
        Option::None => Seq::<char>::empty(),
    }) + (match report.last_part_index {
        Option::Some(n) => ",LAST-PART="@ + spec_dec(n as nat),
        Option::None => Seq::<char>::empty(),
    })
}

/// The body of an EXT-X-PRELOAD-HINT tag; a zero byte offset is the
/// default and is suppressed.
pub open spec fn spec_x_preload_hint_chars(preload_hint: PreloadHint) -> Seq<char> {
    "#EXT-X-PRELOAD-HINT:TYPE="@ + (match preload_hint.hint_type {
        PreloadHintType::Part => "PART"@,
        PreloadHintType::InitializationSection => "MAP"@,
    }) + ",URI=\""@ + preload_hint.uri@ + "\""@ + (if preload_hint.start_byte_offset != 0 {
        ",BYTERANGE-START="@ + spec_dec(preload_hint.start_byte_offset as nat)
    } else {
        Seq::<char>::empty()
    }) + (match preload_hint.length_in_bytes {
        Option::Some(length) => ",BYTERANGE-LENGTH="@ + spec_dec(length as nat),
        Option::None => Seq::<char>::empty(),
    })
}

/// The body of an EXT-X-SKIP tag; removed date range identifiers are
/// joined by tab characters.
pub open spec fn spec_x_skip_chars(
    number_of_skipped_segments: u64,
    recently_removed_dataranges: Seq<String>,
) -> Seq<char> {
    "#EXT-X-SKIP:SKIPPED-SEGMENTS="@ + spec_dec(number_of_skipped_segments as nat) + (
    if recently_removed_dataranges.len() == 0 {
        Seq::<char>::empty()
    } else {
        ",RECENTLY-REMOVED-DATERANGES=\""@ + spec_join_strs(recently_removed_dataranges, "\t"@)
            + "\""@
    })
}

/// The body of an EXT-X-PART tag.
#[verifier::opaque]
pub open spec fn spec_x_part_chars(
    uri: String,
    duration_seconds: Decimal,
    is_independent: bool,
    byte_range: Option<ByteRange>,
    is_gap: bool,
) -> Seq<char> {
    "#EXT-X-PART:URI=\""@ + uri@ + "\",DURATION="@ + duration_seconds.spec_chars() + (
    if is_independent {
        ",INDEPENDENT=YES"@
    } else {
        Seq::<char>::empty()
    }) + (match byte_range {
        Option::Some(byte_range) => ",BYTERANGE=\""@ + byte_range.spec_chars() + "\""@,
        Option::None => Seq::<char>::empty(),
    }) + (if is_gap {
        ",GAP=YES"@
    } else {
        Seq::<char>::empty()
    })
}

/// The body of an EXT-X-SERVER-CONTROL tag: only the attributes of active
/// sub-features are written, and no separator precedes the first one
/// actually written.
pub open spec fn spec_x_server_control_chars(
    delta_update_info: Option<DeltaUpdateInfo>,
    hold_back: Option<Decimal>,
    part_hold_back: Option<Decimal>,
    can_block_reload: bool,
) -> Seq<char> {
    "#EXT-X-SERVER-CONTROL:"@ + (match delta_update_info {
        Option::Some(info) => "CAN-SKIP-UNTIL="@ + info.skip_boundary_seconds.spec_chars() + (
        if info.can_skip_dateranges {
            ",CAN-SKIP-DATERANGES=YES"@
        } else {
            Seq::<char>::empty()
        }),
        Option::None => Seq::<char>::empty(),
    }) + (match hold_back {
        Option::Some(hold_back) => (if delta_update_info is Some {
            ","@
        } else {
            Seq::<char>::empty()
        }) + "HOLD-BACK="@ + hold_back.spec_chars(),
        Option::None => Seq::<char>::empty(),
    }) + (match part_hold_back {
        Option::Some(part_hold_back) => (if delta_update_info is Some || hold_back is Some {
            ","@
        } else {
            Seq::<char>::empty()
        }) + "PART-HOLD-BACK="@ + part_hold_back.spec_chars(),
        Option::None => Seq::<char>::empty(),
    }) + (if can_block_reload {
        (if delta_update_info is Some || hold_back is Some || part_hold_back is Some {
            ","@
        } else {
            Seq::<char>::empty()
        }) + "CAN-BLOCK-RELOAD=YES"@
    } else {
        Seq::<char>::empty()
    })
}

/// The `ID`, `CLASS`, `START-DATE` and `CUE` attributes of an
/// EXT-X-DATERANGE tag.
pub open spec fn spec_x_daterange_head_chars(daterange: DateRange) -> Seq<char> {
    "#EXT-X-DATERANGE:ID=\""@ + daterange.id@ + "\""@ + spec_opt_quoted(
        ",CLASS=\""@,
        daterange.class,
    ) + ",START-DATE=\""@ + daterange.start_date.spec_chars() + "\""@ + (match daterange.cue {
        Option::Some(cue) => match cue.position {
            DateRangeCuePosition::Pre => if cue.once {
                ",CUE=\"PRE,ONCE\""@
            } else {
                ",CUE=\"PRE\""@
            },
            DateRangeCuePosition::Post => if cue.once {
                ",CUE=\"POST,ONCE\""@
            } else {
                ",CUE=\"POST\""@
            },
            DateRangeCuePosition::Neither => if cue.once {
                ",CUE=\"ONCE\""@
            } else {
                ",CUE=\"\""@
            },
        },
        Option::None => Seq::<char>::empty(),
    })
}

/// The `END-DATE`, `DURATION` and `PLANNED-DURATION` attributes of an
/// EXT-X-DATERANGE tag.
pub open spec fn spec_x_daterange_mid_chars(daterange: DateRange) -> Seq<char> {
    (match daterange.end_date {
        Option::Some(end_date) => ",END-DATE=\""@ + end_date.spec_chars() + "\""@,
        Option::None => Seq::<char>::empty(),
    }) + (match daterange.duration_seconds {
        Option::Some(duration) => ",DURATION="@ + duration.spec_chars(),
        Option::None => Seq::<char>::empty(),
    }) + (match daterange.planned_duration_seconds {
        Option::Some(planned) => ",PLANNED-DURATION="@ + planned.spec_chars(),
        Option::None => Seq::<char>::empty(),
    })
}

/// The client attributes, SCTE-35 attributes and `END-ON-NEXT` flag of an
/// EXT-X-DATERANGE tag.
pub open spec fn spec_x_daterange_tail_chars(daterange: DateRange) -> Seq<char> {
    spec_client_attrs_chars(daterange.client_attributes@) + (if daterange.scte35_cmd@.len() != 0 {
        ",SCTE35-CMD=0x"@ + spec_hex_bytes_upper(daterange.scte35_cmd@)
    } else {
        Seq::<char>::empty()
    }) + (if daterange.scte35_out@.len() != 0 {
        ",SCTE35-OUT=0x"@ + spec_hex_bytes_upper(daterange.scte35_out@)
    } else {
        Seq::<char>::empty()
    }) + (if daterange.scte35_in@.len() != 0 {
        ",SCTE35-IN=0x"@ + spec_hex_bytes_upper(daterange.scte35_in@)
    } else {
        Seq::<char>::empty()
    }) + (if daterange.end_on_next {
        ",END-ON-NEXT=YES"@
    } else {
        Seq::<char>::empty()
    })
}

/// The full body of an EXT-X-DATERANGE tag.
#[verifier::opaque]
pub open spec fn spec_x_daterange_chars(daterange: DateRange) -> Seq<char> {
    spec_x_daterange_head_chars(daterange) + spec_x_daterange_mid_chars(daterange)
        + spec_x_daterange_tail_chars(daterange)
}

/// A server-control tag whose only possibly-active sub-feature is
/// blocking reload renders with no separator before its single attribute,
/// and as the bare tag prefix when that feature is inactive too.
pub proof fn lemma_server_control_block_reload_only(can_block_reload: bool)
    ensures
        spec_x_server_control_chars(
            Option::None,
            Option::None,
            Option::None,
            can_block_reload,
        ) == "#EXT-X-SERVER-CONTROL:"@ + (if can_block_reload {
            "CAN-BLOCK-RELOAD=YES"@
        } else {
            Seq::<char>::empty()
        }),
{
    broadcast use crate::text::lemma_add_assoc, crate::text::lemma_add_empty_left, crate::text::lemma_add_empty_right;

}

impl Tag {
    /// The tag's rendering without the terminating newline.
    pub open spec fn spec_body_chars(&self) -> Seq<char> {
        match self {
            Tag::M3u => "#EXTM3U"@,
            Tag::XVersion { version } => "#EXT-X-VERSION:"@ + spec_dec(*version as nat),
            Tag::XDefine(definition) => spec_define_chars(*definition),
            Tag::XStart { offset_seconds, is_precise } => "#EXT-X-START:TIME-OFFSET="@
                + offset_seconds.spec_chars() + (if *is_precise {
                ",PRECISE=YES"@
            } else {
                Seq::<char>::empty()
            }),
            Tag::XIndependentSegments => "#EXT-X-INDEPENDENT-SEGMENTS"@,
            Tag::Inf { duration_seconds, title } => "#EXTINF:"@ + duration_seconds.spec_chars() + (
            if title@.len() == 0 {
                Seq::<char>::empty()
            } else {
                ","@ + title@
            }),
            Tag::XByterange(byte_range) => "#EXT-X-BYTERANGE:"@ + byte_range.spec_chars(),
            Tag::XDiscontinuity => "#EXT-X-DISCONTINUITY"@,
            Tag::XKey(method) => "#EXT-X-KEY:"@ + (match method {
                Option::Some(method) => method.spec_chars(),
                Option::None => "METHOD=NONE"@,
            }),
            Tag::XMap { uri, range } => "#EXT-X-MAP:URI=\""@ + uri@ + "\""@ + (match range {
                Option::Some(range) => ",BYTERANGE=\""@ + range.spec_chars() + "\""@,
                Option::None => Seq::<char>::empty(),
            }),
            Tag::XProgramDateTime(time) => "#EXT-X-PROGRAM-DATE-TIME:"@ + time.spec_chars(),
            Tag::XGap => "#EXT-X-GAP"@,
            Tag::XBitrate { kbps } => "#EXT-X-BITRATE:"@ + spec_dec(*kbps as nat),
            Tag::XPart { uri, duration_seconds, is_independent, byte_range, is_gap } =>
                spec_x_part_chars(*uri, *duration_seconds, *is_independent, *byte_range, *is_gap),
            Tag::XTargetDuration { target_duration_seconds } => "#EXT-X-TARGETDURATION:"@
                + spec_dec(*target_duration_seconds as nat),
            Tag::XMediaSequence { sequence_number } => "#EXT-X-MEDIA-SEQUENCE:"@ + spec_dec(
                *sequence_number as nat,
            ),
            Tag::XDiscontinuitySequence { sequence_number } => "#EXT-X-DISCONTINUITY-SEQUENCE:"@
                + spec_dec(*sequence_number as nat),
            Tag::XEndList => "#EXT-X-ENDLIST"@,
            Tag::XPlaylistType(playlist_type) => match playlist_type {
                PlaylistType::Event => "#EXT-X-PLAYLIST-TYPE:EVENT"@,
                PlaylistType::Vod => "#EXT-X-PLAYLIST-TYPE:VOD"@,
            },
            Tag::XIFramesOnly => "#EXT-X-I-FRAMES-ONLY"@,
            Tag::XPartInf { part_target_duration_seconds } => "#EXT-X-PART-INF:PART-TARGET="@
                + part_target_duration_seconds.spec_chars(),
            Tag::XServerControl {
                delta_update_info,
                hold_back,
                part_hold_back,
                can_block_reload,
            } => spec_x_server_control_chars(
                *delta_update_info,
                *hold_back,
                *part_hold_back,
                *can_block_reload,
            ),
            Tag::XMedia {
                media_type,
                group_id,
                language,
                assoc_language,
                name,
                stable_rendition_id,
                playback_priority,
                characteristics,
            } => spec_x_media_chars(
                *media_type,
                *group_id,
                *language,
                *assoc_language,
                *name,
                *stable_rendition_id,
                *playback_priority,
                characteristics@,
            ),
            Tag::XStreamInf {
                stream_inf,
                frame_rate,
                audio_group_id,
                video_group_id,
                subtitles_group_id,
                closed_captions_group_id,
                uri,
            } => spec_x_stream_inf_chars(
                *stream_inf,
                *frame_rate,
                *audio_group_id,
                *video_group_id,
                *subtitles_group_id,
                *closed_captions_group_id,
                *uri,
            ),
            Tag::XIFrameStreamInf { stream_inf, video_group_id, uri } =>
                spec_x_i_frame_stream_inf_chars(*stream_inf, *video_group_id, *uri),
            Tag::XSessionData(session_data) => spec_x_session_data_chars(*session_data),
            Tag::XSessionKey(encryption_method) => "#EXT-X-SESSION-KEY:"@
                + encryption_method.spec_chars(),
            Tag::XContentSteering(content_steering) => spec_x_content_steering_chars(
                *content_steering,
            ),
            Tag::XDateRange(daterange) => spec_x_daterange_chars(*daterange),
            Tag::XSkip { number_of_skipped_segments, recently_removed_dataranges } =>
                spec_x_skip_chars(*number_of_skipped_segments, recently_removed_dataranges@),
            Tag::XPreloadHint(preload_hint) => spec_x_preload_hint_chars(*preload_hint),
            Tag::XRenditionReport(report) => spec_x_rendition_report_chars(*report),
        }
    }

    /// The tag's full rendering: its body followed by a newline.
    pub open spec fn spec_chars(&self) -> Seq<char> {
        self.spec_body_chars() + "\n"@
    }

    /// Serializes the `Tag` as an extended M3U playlist tag, appending one
    /// newline-terminated line (two lines for `XStreamInf`).
    ///
    /// This method is not guaranteed to write valid M3U tags. It's your job
    /// to create valid input.
    #[verifier::rlimit(100)]
    pub fn serialize(&self, output: &mut String)
        ensures
            final(output)@ == old(output)@ + self.spec_chars(),
    {
        broadcast use lemma_add_assoc;

        match self {
            Tag::M3u => output.append("#EXTM3U"),
            Tag::XVersion { version } => {
                output.append("#EXT-X-VERSION:");
                push_u64(output, *version as u64);
            },
            Tag::XDefine(definition) => Tag::serialize_define(output, definition),
            Tag::XStart { offset_seconds, is_precise } => {
                output.append("#EXT-X-START:TIME-OFFSET=");
                offset_seconds.serialize(output);
                if *is_precise {
                    output.append(",PRECISE=YES");
                }
            },
            Tag::XIndependentSegments => output.append("#EXT-X-INDEPENDENT-SEGMENTS"),
            Tag::Inf { duration_seconds, title } => {
                output.append("#EXTINF:");
                duration_seconds.serialize(output);
                if title.as_str().unicode_len() != 0 {
                    output.append(",");
                    output.append(title.as_str());
                }
            },
            Tag::XByterange(byte_range) => {
                output.append("#EXT-X-BYTERANGE:");
                byte_range.serialize(output);
            },
            Tag::XDiscontinuity => output.append("#EXT-X-DISCONTINUITY"),
            Tag::XKey(method) => {
                output.append("#EXT-X-KEY:");
                if let Option::Some(method) = method {
                    method.serialize(output);
                } else {
                    output.append("METHOD=NONE");
                }
            },
            Tag::XMap { uri, range } => {
                push_quoted_value(output, "#EXT-X-MAP:URI=\"", uri.as_str());
                if let Option::Some(range) = range {
                    output.append(",BYTERANGE=\"");
                    range.serialize(output);
                    output.append("\"");
                }
            },
            Tag::XProgramDateTime(time) => {
                output.append("#EXT-X-PROGRAM-DATE-TIME:");
                time.serialize(output);
            },
            Tag::XGap => output.append("#EXT-X-GAP"),
            Tag::XBitrate { kbps } => {
                output.append("#EXT-X-BITRATE:");
                push_u64(output, *kbps);
            },
            Tag::XPart { uri, duration_seconds, is_independent, byte_range, is_gap } => {
                Tag::serialize_x_part(
                    output,
                    uri,
                    duration_seconds,
                    *is_independent,
                    byte_range,
                    *is_gap,
                );
            },
            Tag::XTargetDuration { target_duration_seconds } => {
                output.append("#EXT-X-TARGETDURATION:");
                push_u64(output, *target_duration_seconds);
            },
            Tag::XMediaSequence { sequence_number } => {
                output.append("#EXT-X-MEDIA-SEQUENCE:");
                push_u64(output, *sequence_number);
            },
            Tag::XDiscontinuitySequence { sequence_number } => {
                output.append("#EXT-X-DISCONTINUITY-SEQUENCE:");
                push_u64(output, *sequence_number);
            },
            Tag::XEndList => output.append("#EXT-X-ENDLIST"),
            Tag::XPlaylistType(playlist_type) => match playlist_type {
                PlaylistType::Event => output.append("#EXT-X-PLAYLIST-TYPE:EVENT"),
                PlaylistType::Vod => output.append("#EXT-X-PLAYLIST-TYPE:VOD"),
            },
            Tag::XIFramesOnly => output.append("#EXT-X-I-FRAMES-ONLY"),
            Tag::XPartInf { part_target_duration_seconds } => {
                output.append("#EXT-X-PART-INF:PART-TARGET=");
                part_target_duration_seconds.serialize(output);
            },
            Tag::XServerControl {
                delta_update_info,
                hold_back,
                part_hold_back,
                can_block_reload,
            } => {
                Tag::serialize_x_server_control(
                    output,
                    delta_update_info,
                    hold_back,
                    part_hold_back,
                    *can_block_reload,
                );
            },
            Tag::XMedia {
                media_type,
                group_id,
                language,
                assoc_language,
                name,
                stable_rendition_id,
                playback_priority,
                characteristics,
            } => {
                Tag::serialize_x_media(
                    output,
                    media_type,
                    group_id,
                    language,
                    assoc_language,
                    name,
                    stable_rendition_id,
                    playback_priority,
                    characteristics,
                );
            },
            Tag::XStreamInf {
                stream_inf,
                frame_rate,
                audio_group_id,
                video_group_id,
                subtitles_group_id,
                closed_captions_group_id,
                uri,
            } => {
                Tag::serialize_x_stream_inf(
                    output,
                    stream_inf,
                    frame_rate,
                    audio_group_id,
                    video_group_id,
                    subtitles_group_id,
                    closed_captions_group_id,
                    uri,
                );
            },
            Tag::XIFrameStreamInf { stream_inf, video_group_id, uri } => {
                Tag::serialize_x_i_frame_stream_inf(output, stream_inf, video_group_id, uri);
            },
            Tag::XSessionData(session_data) => {
                Tag::serialize_x_session_data(output, session_data);
            },
            Tag::XSessionKey(encryption_method) => {
                output.append("#EXT-X-SESSION-KEY:");
                encryption_method.serialize(output);
            },
            Tag::XContentSteering(content_steering) => {
                Tag::serialize_x_content_steering(output, content_steering);
            },
            Tag::XDateRange(daterange) => {
                Tag::serialize_x_daterange(output, daterange);
            },
            Tag::XSkip { number_of_skipped_segments, recently_removed_dataranges } => {
                Tag::serialize_x_skip(
                    output,
                    *number_of_skipped_segments,
                    recently_removed_dataranges,
                );
            },
            Tag::XPreloadHint(preload_hint) => {
                Tag::serialize_x_preload_hint(output, preload_hint);
            },
            Tag::XRenditionReport(report) => {
                Tag::serialize_x_rendition_report(output, report);
            },
        }
        output.append("\n");
    }

    pub(crate) fn serialize_define(output: &mut String, definition: &DefinitionType)
        ensures
            final(output)@ == old(output)@ + spec_define_chars(*definition),
    {
        broadcast use lemma_add_assoc;

        match definition {
            DefinitionType::Inline { name, value } => {
                push_quoted_value(output, "#EXT-X-DEFINE:NAME=\"", name.as_str());
                push_quoted_value(output, ",VALUE=\"", value.as_str());
            },
            DefinitionType::Import { name } => {
                push_quoted_value(output, "#EXT-X-DEFINE:IMPORT=\"", name.as_str());
            },
            DefinitionType::QueryParameter { name } => {
                push_quoted_value(output, "#EXT-X-DEFINE:QUERYPARAM=\"", name.as_str());
            },
        }
    }

    pub(crate) fn serialize_x_media_type(output: &mut String, media_type: &MediaType)
        ensures
            final(output)@ == old(output)@ + spec_x_media_type_chars(*media_type),
    {
        broadcast use lemma_add_assoc;

        match media_type {
            MediaType::Audio { uri, .. } => {
                output.append("#EXT-X-MEDIA:TYPE=AUDIO");
                if let Option::Some(uri) = uri {
                    push_quoted_value(output, ",URI=\"", uri.as_str());
                }
            },
            MediaType::Video { uri } => {
                output.append("#EXT-X-MEDIA:TYPE=VIDEO");
                if let Option::Some(uri) = uri {
                    push_quoted_value(output, ",URI=\"", uri.as_str());
                }
            },
            MediaType::Subtitles { uri, .. } => {
                push_quoted_value(output, "#EXT-X-MEDIA:TYPE=SUBTITLES,URI=\"", uri.as_str());
            },
            MediaType::ClosedCaptions { .. } => {
                output.append("#EXT-X-MEDIA:TYPE=CLOSED-CAPTIONS");
            },
        }
    }

    pub(crate) fn serialize_x_media_head(
        output: &mut String,
        media_type: &MediaType,
        group_id: &String,
        language: &Option<String>,
        assoc_language: &Option<String>,
        name: &String,
        stable_rendition_id: &Option<String>,
    )
        ensures
            final(output)@ == old(output)@ + spec_x_media_head_chars(
                *media_type,
                *group_id,
                *language,
                *assoc_language,
                *name,
                *stable_rendition_id,
            ),
    {
        broadcast use lemma_add_assoc;

        Tag::serialize_x_media_type(output, media_type);
        push_quoted_value(output, ",GROUP-ID=\"", group_id.as_str());
        if let Option::Some(language) = language {
            push_quoted_value(output, ",LANGUAGE=\"", language.as_str());
        }
        if let Option::Some(assoc_language) = assoc_language {
            push_quoted_value(output, ",ASSOC-LANGUAGE=\"", assoc_language.as_str());
        }
        push_quoted_value(output, ",NAME=\"", name.as_str());
        if let Option::Some(id) = stable_rendition_id {
            push_quoted_value(output, ",STABLE-RENDITION-ID=\"", id.as_str());
        }
    }

    pub(crate) fn serialize_x_media_flags(
        output: &mut String,
        media_type: &MediaType,
        playback_priority: &RenditionPlaybackPriority,
    )
        ensures
            final(output)@ == old(output)@ + spec_x_media_flags_chars(
                *media_type,
                *playback_priority,
            ),
    {
        broadcast use lemma_add_assoc;

        match playback_priority {
            RenditionPlaybackPriority::Default => output.append(",DEFAULT=YES,AUTOSELECT=YES"),
            RenditionPlaybackPriority::AutoSelect => output.append(",AUTOSELECT=YES"),
            RenditionPlaybackPriority::Unspecified => {},
        }
        if let MediaType::Subtitles { forced: true, .. } = media_type {
            output.append(",FORCED=YES");
        }
        if let MediaType::ClosedCaptions { in_stream_id } = media_type {
            match in_stream_id {
                InStreamId::Cc1 => output.append(",INSTREAM-ID=\"CC1\""),
                InStreamId::Cc2 => output.append(",INSTREAM-ID=\"CC2\""),
                InStreamId::Cc3 => output.append(",INSTREAM-ID=\"CC3\""),
                InStreamId::Cc4 => output.append(",INSTREAM-ID=\"CC4\""),
                InStreamId::Service(id) => {
                    output.append(",INSTREAM-ID=\"SERVICE");
                    push_u64(output, *id as u64);
                    output.append("\"");
                },
            }
        }
        if let MediaType::Audio { bit_depth, sample_rate, .. } = media_type {
            if let Option::Some(bit_depth) = bit_depth {
                output.append(",BIT-DEPTH=");
                push_u64(output, *bit_depth);
            }
            if let Option::Some(sample_rate) = sample_rate {
                output.append(",SAMPLE-RATE=");
                push_u64(output, *sample_rate);
            }
        }
    }

    pub(crate) fn serialize_channels(output: &mut String, channels: &AudioChannelInformation)
        ensures
            final(output)@ == old(output)@ + spec_channels_chars(*channels),
    {
        broadcast use lemma_add_assoc;

        match channels {
            AudioChannelInformation::NumberOfChannelsOnly { number_of_channels } => {
                push_u64(output, *number_of_channels);
            },
            AudioChannelInformation::WithAudioCodingIdentifiers {
                number_of_channels,
                audio_coding_identifiers,
            } => {
                push_u64(output, *number_of_channels);
                output.append("/");
                if audio_coding_identifiers.len() == 0 {
                    output.append("-");
                } else {
                    push_join_strs(output, audio_coding_identifiers, ",");
                }
            },
            AudioChannelInformation::WithSpecialUsageIdentifiers {
                number_of_channels,
                audio_coding_identifiers,
                binaural,
                immersive,
                downmix,
            } => {
                push_u64(output, *number_of_channels);
                output.append("/");
                if audio_coding_identifiers.len() == 0 {
                    output.append("-");
                } else {
                    push_join_strs(output, audio_coding_identifiers, ",");
                }
                output.append("/");
                if *binaural {
                    if *immersive || *downmix {
                        output.append("BINAURAL,");
                    } else {
                        output.append("BINAURAL");
                    }
                }
                if *immersive {
                    if *downmix {
                        output.append("IMMERSIVE,");
                    } else {
                        output.append("IMMERSIVE");
                    }
                }
                if *downmix {
                    output.append("DOWNMIX");
                }
            },
        }
    }

    pub(crate) fn serialize_x_media_tail(
        output: &mut String,
        media_type: &MediaType,
        characteristics: &Vec<String>,
    )
        ensures
            final(output)@ == old(output)@ + spec_x_media_tail_chars(
                *media_type,
                characteristics@,
            ),
    {
        broadcast use lemma_add_assoc;

        if characteristics.len() > 0 {
            output.append(",CHARACTERISTICS=\"");
            push_join_strs(output, characteristics, ",");
            output.append("\"");
        }
        if let MediaType::Audio { channels: Option::Some(channels), .. } = media_type {
            output.append(",CHANNELS=\"");
            Tag::serialize_channels(output, channels);
            output.append("\"");
        }
    }

    pub(crate) fn serialize_x_media(
        output: &mut String,
        media_type: &MediaType,
        group_id: &String,
        language: &Option<String>,
        assoc_language: &Option<String>,
        name: &String,
        stable_rendition_id: &Option<String>,
        playback_priority: &RenditionPlaybackPriority,
        characteristics: &Vec<String>,
    )
        ensures
            final(output)@ == old(output)@ + spec_x_media_chars(
                *media_type,
                *group_id,
                *language,
                *assoc_language,
                *name,
                *stable_rendition_id,
                *playback_priority,
                characteristics@,
            ),
    {
        broadcast use lemma_add_assoc;

        Tag::serialize_x_media_head(
            output,
            media_type,
            group_id,
            language,
            assoc_language,
            name,
            stable_rendition_id,
        );
        Tag::serialize_x_media_flags(output, media_type, playback_priority);
        Tag::serialize_x_media_tail(output, media_type, characteristics);
    }

    pub(crate) fn serialize_x_stream_inf(
        output: &mut String,
        stream_inf: &StreamInf,
        frame_rate: &Option<u64>,
        audio_group_id: &Option<String>,
        video_group_id: &Option<String>,
        subtitles_group_id: &Option<String>,
        closed_captions_group_id: &Option<String>,
        uri: &String,
    )
        ensures
            final(output)@ == old(output)@ + spec_x_stream_inf_chars(
                *stream_inf,
                *frame_rate,
                *audio_group_id,
                *video_group_id,
                *subtitles_group_id,
                *closed_captions_group_id,
                *uri,
            ),
    {
        broadcast use lemma_add_assoc;

        output.append("#EXT-X-STREAM-INF:");
        stream_inf.serialize(output);
        Tag::serialize_stream_inf_extras(
            output,
            frame_rate,
            audio_group_id,
            video_group_id,
            subtitles_group_id,
            closed_captions_group_id,
        );
        output.append("\n");
        output.append(uri.as_str());
    }

    pub(crate) fn serialize_stream_inf_extras(
        output: &mut String,
        frame_rate: &Option<u64>,
        audio_group_id: &Option<String>,
        video_group_id: &Option<String>,
        subtitles_group_id: &Option<String>,
        closed_captions_group_id: &Option<String>,
    )
        ensures
            final(output)@ == old(output)@ + spec_stream_inf_extras_chars(
                *frame_rate,
                *audio_group_id,
                *video_group_id,
                *subtitles_group_id,
                *closed_captions_group_id,
            ),
    {
        broadcast use lemma_add_assoc;

        if let Option::Some(frame_rate) = frame_rate {
            output.append(",FRAME-RATE=");
            push_u64(output, *frame_rate / 1000);
            output.append(".");
            push_zero_pad(output, *frame_rate % 1000, 3);
        }
        if let Option::Some(id) = audio_group_id {
            push_quoted_value(output, ",AUDIO=\"", id.as_str());
        }
        if let Option::Some(id) = video_group_id {
            push_quoted_value(output, ",VIDEO=\"", id.as_str());
        }
        if let Option::Some(id) = subtitles_group_id {
            push_quoted_value(output, ",SUBTITLES=\"", id.as_str());
        }
        if let Option::Some(id) = closed_captions_group_id {
            push_quoted_value(output, ",CLOSED-CAPTIONS=\"", id.as_str());
        }
    }

    pub(crate) fn serialize_x_i_frame_stream_inf(
        output: &mut String,
        stream_inf: &StreamInf,
        video_group_id: &Option<String>,
        uri: &String,
    )
        ensures
            final(output)@ == old(output)@ + spec_x_i_frame_stream_inf_chars(
                *stream_inf,
                *video_group_id,
                *uri,
            ),
    {
        broadcast use lemma_add_assoc;

        output.append("#EXT-X-I-FRAME-STREAM-INF:");
        stream_inf.serialize(output);
        if let Option::Some(id) = video_group_id {
            push_quoted_value(output, ",VIDEO=\"", id.as_str());
        }
        push_quoted_value(output, ",URI=\"", uri.as_str());
    }

    pub(crate) fn serialize_x_session_data(output: &mut String, session_data: &SessionData)
        ensures
            final(output)@ == old(output)@ + spec_x_session_data_chars(*session_data),
    {
        broadcast use lemma_add_assoc;

        push_quoted_value(output, "#EXT-X-SESSION-DATA:DATA-ID=\"", session_data.data_id.as_str());
        match &session_data.value {
            SessionDataValue::Value { value, language } => {
                push_quoted_value(output, ",VALUE=\"", value.as_str());
                if let Option::Some(language) = language {
                    push_quoted_value(output, ",LANGUAGE=\"", language.as_str());
                }
            },
            SessionDataValue::Uri { uri, format } => {
                push_quoted_value(output, ",URI=\"", uri.as_str());
                match format {
                    UriFormat::Json => output.append(",FORMAT=JSON"),
                    UriFormat::Raw => output.append(",FORMAT=RAW"),
                }
            },
        }
    }

    pub(crate) fn serialize_x_content_steering(output: &mut String, content_steering: &ContentSteering)
        ensures
            final(output)@ == old(output)@ + spec_x_content_steering_chars(*content_steering),
    {
        broadcast use lemma_add_assoc;

        push_quoted_value(
            output,
            "#EXT-X-CONTENT-STEERING:SERVER-URI=\"",
            content_steering.server_uri.as_str(),
        );
        if let Option::Some(id) = &content_steering.pathway_id {
            push_quoted_value(output, ",PATHWAY-ID=\"", id.as_str());
        }
    }

    pub(crate) fn serialize_x_rendition_report(output: &mut String, report: &RenditionReport)
        ensures
            final(output)@ == old(output)@ + spec_x_rendition_report_chars(*report),
    {
        broadcast use lemma_add_assoc;

        push_quoted_value(output, "#EXT-X-RENDITION-REPORT:URI=\"", report.uri.as_str());
        if let Option::Some(last_sequence_number) = report.last_sequence_number {
            output.append(",LAST-MSN=");
            push_u64(output, last_sequence_number);
        }
        if let Option::Some(last_part_index) = report.last_part_index {
            output.append(",LAST-PART=");
            push_u64(output, last_part_index);
        }
    }

    pub(crate) fn serialize_x_preload_hint(output: &mut String, preload_hint: &PreloadHint)
        ensures
            final(output)@ == old(output)@ + spec_x_preload_hint_chars(*preload_hint),
    {
        broadcast use lemma_add_assoc;

        output.append("#EXT-X-PRELOAD-HINT:TYPE=");
        match preload_hint.hint_type {
            PreloadHintType::Part => output.append("PART"),
            PreloadHintType::InitializationSection => output.append("MAP"),
        }
        push_quoted_value(output, ",URI=\"", preload_hint.uri.as_str());
        if preload_hint.start_byte_offset != 0 {
            output.append(",BYTERANGE-START=");
            push_u64(output, preload_hint.start_byte_offset);
        }
        if let Option::Some(length) = preload_hint.length_in_bytes {
            output.append(",BYTERANGE-LENGTH=");
            push_u64(output, length);
        }
    }

    pub(crate) fn serialize_x_skip(
        output: &mut String,
        number_of_skipped_segments: u64,
        recently_removed_dataranges: &Vec<String>,
    )
        ensures
            final(output)@ == old(output)@ + spec_x_skip_chars(
                number_of_skipped_segments,
                recently_removed_dataranges@,
            ),
    {
        broadcast use lemma_add_assoc;

        output.append("#EXT-X-SKIP:SKIPPED-SEGMENTS=");
        push_u64(output, number_of_skipped_segments);
        if recently_removed_dataranges.len() > 0 {
            output.append(",RECENTLY-REMOVED-DATERANGES=\"");
            push_join_strs(output, recently_removed_dataranges, "\t");
            output.append("\"");
        }
    }

    pub(crate) fn serialize_x_daterange_head(output: &mut String, daterange: &DateRange)
        ensures
            final(output)@ == old(output)@ + spec_x_daterange_head_chars(*daterange),
    {
        broadcast use lemma_add_assoc;

        push_quoted_value(output, "#EXT-X-DATERANGE:ID=\"", daterange.id.as_str());
        if let Option::Some(class) = &daterange.class {
            push_quoted_value(output, ",CLASS=\"", class.as_str());
        }
        output.append(",START-DATE=\"");
        daterange.start_date.serialize(output);
        output.append("\"");
        if let Option::Some(cue) = &daterange.cue {
            match cue.position {
                DateRangeCuePosition::Pre => {
                    if cue.once {
                        output.append(",CUE=\"PRE,ONCE\"");
                    } else {
                        output.append(",CUE=\"PRE\"");
                    }
                },
                DateRangeCuePosition::Post => {
                    if cue.once {
                        output.append(",CUE=\"POST,ONCE\"");
                    } else {
                        output.append(",CUE=\"POST\"");
                    }
                },
                DateRangeCuePosition::Neither => {
                    if cue.once {
                        output.append(",CUE=\"ONCE\"");
                    } else {
                        output.append(",CUE=\"\"");
                    }
                },
            }
        }
    }

    pub(crate) fn serialize_x_daterange_mid(output: &mut String, daterange: &DateRange)
        ensures
            final(output)@ == old(output)@ + spec_x_daterange_mid_chars(*daterange),
    {
        broadcast use lemma_add_assoc;

        if let Option::Some(end_date) = &daterange.end_date {
            output.append(",END-DATE=\"");
            end_date.serialize(output);
            output.append("\"");
        }
        if let Option::Some(duration) = &daterange.duration_seconds {
            output.append(",DURATION=");
            duration.serialize(output);
        }
        if let Option::Some(planned_duration) = &daterange.planned_duration_seconds {
            output.append(",PLANNED-DURATION=");
            planned_duration.serialize(output);
        }
    }

    pub(crate) fn serialize_x_daterange_tail(output: &mut String, daterange: &DateRange)
        ensures
            final(output)@ == old(output)@ + spec_x_daterange_tail_chars(*daterange),
    {
        broadcast use lemma_add_assoc;

        let ghost base = output@;
        let n = daterange.client_attributes.len();
        let mut i: usize = 0;
        while i < n
            invariant
                0 <= i <= n,
                n == daterange.client_attributes@.len(),
                output@ == base + spec_client_attrs_chars(
                    daterange.client_attributes@.take(i as int),
                ),
            decreases n - i,
        {
            broadcast use lemma_add_assoc;

            output.append(",X-");
            output.append(daterange.client_attributes[i].0.as_str());
            output.append("=");
            match &daterange.client_attributes[i].1 {
                AttributeValue::String(string) => {
                    output.append("\"");
                    output.append(string.as_str());
                    output.append("\"");
                },
                AttributeValue::Bytes(bytes) => {
                    output.append("0x");
                    let encoded = hex_encode_upper(bytes);
                    output.append(encoded.as_str());
                },
                AttributeValue::Float(float) => {
                    float.serialize(output);
                },
            }
            proof {
                assert(daterange.client_attributes@.take(i + 1).drop_last()
                    =~= daterange.client_attributes@.take(i as int));
                assert(daterange.client_attributes@.take(i + 1).last()
                    == daterange.client_attributes@[i as int]);
            }
            i += 1;
        }
        proof {
            assert(daterange.client_attributes@.take(n as int) =~= daterange.client_attributes@);
        }
        if daterange.scte35_cmd.len() != 0 {
            output.append(",SCTE35-CMD=0x");
            let encoded = hex_encode_upper(&daterange.scte35_cmd);
            output.append(encoded.as_str());
        }
        if daterange.scte35_out.len() != 0 {
            output.append(",SCTE35-OUT=0x");
            let encoded = hex_encode_upper(&daterange.scte35_out);
            output.append(encoded.as_str());
        }
        if daterange.scte35_in.len() != 0 {
            output.append(",SCTE35-IN=0x");
            let encoded = hex_encode_upper(&daterange.scte35_in);
            output.append(encoded.as_str());
        }
        if daterange.end_on_next {
            output.append(",END-ON-NEXT=YES");
        }
    }

    pub(crate) fn serialize_x_daterange(output: &mut String, daterange: &DateRange)
        ensures
            final(output)@ == old(output)@ + spec_x_daterange_chars(*daterange),
    {
        broadcast use lemma_add_assoc;

        proof {
            reveal(spec_x_daterange_chars);
        }
        Tag::serialize_x_daterange_head(output, daterange);
        Tag::serialize_x_daterange_mid(output, daterange);
        Tag::serialize_x_daterange_tail(output, daterange);
    }

    pub(crate) fn serialize_x_part(
        output: &mut String,
        uri: &String,
        duration_seconds: &Decimal,
        is_independent: bool,
        byte_range: &Option<ByteRange>,
        is_gap: bool,
    )
        ensures
            final(output)@ == old(output)@ + spec_x_part_chars(
                *uri,
                *duration_seconds,
                is_independent,
                *byte_range,
                is_gap,
            ),
    {
        broadcast use lemma_add_assoc;

        proof {
            reveal(spec_x_part_chars);
        }
        output.append("#EXT-X-PART:URI=\"");
        output.append(uri.as_str());
        output.append("\",DURATION=");
        duration_seconds.serialize(output);
        if is_independent {
            output.append(",INDEPENDENT=YES");
        }
        if let Option::Some(byte_range) = byte_range {
            output.append(",BYTERANGE=\"");
            byte_range.serialize(output);
            output.append("\"");
        }
        if is_gap {
            output.append(",GAP=YES");
        }
    }

    pub(crate) fn serialize_x_server_control(
        output: &mut String,
        delta_update_info: &Option<DeltaUpdateInfo>,
        hold_back: &Option<Decimal>,
        part_hold_back: &Option<Decimal>,
        can_block_reload: bool,
    )
        ensures
            final(output)@ == old(output)@ + spec_x_server_control_chars(
                *delta_update_info,
                *hold_back,
                *part_hold_back,
                can_block_reload,
            ),
    {
        broadcast use lemma_add_assoc;

        let mut has_written_attribute = false;
        output.append("#EXT-X-SERVER-CONTROL:");
        if let Option::Some(delta_update_info) = delta_update_info {
            has_written_attribute = true;
            output.append("CAN-SKIP-UNTIL=");
            delta_update_info.skip_boundary_seconds.serialize(output);
            if delta_update_info.can_skip_dateranges {
                output.append(",CAN-SKIP-DATERANGES=YES");
            }
        }
        if let Option::Some(hold_back) = hold_back {
            if has_written_attribute {
                output.append(",");
            }
            output.append("HOLD-BACK=");
            hold_back.serialize(output);
            has_written_attribute = true;
        }
        if let Option::Some(part_hold_back) = part_hold_back {
            if has_written_attribute {
                output.append(",");
            }
            output.append("PART-HOLD-BACK=");
            part_hold_back.serialize(output);
            has_written_attribute = true;
        }
        if can_block_reload {
            if has_written_attribute {
                output.append(",");
            }
            output.append("CAN-BLOCK-RELOAD=YES");
        }
    }
}

} // verus!
