//! High level representations of extended M3U playlists.

use vstd::prelude::*;
use vstd::string::StringExecFns;

use crate::datetime::DateTime;
use crate::tags::{MediaType, Tag};
use crate::text::{lemma_add_assoc, lemma_add_empty_left, lemma_add_empty_right, Decimal};
use crate::{
    AudioChannelInformation, ByteRange, ByteRangeWithOffset, ContentSteering, DefinitionType,
    DeltaUpdateInfo, EncryptionMethod, FloatOrInteger, InStreamId, KeyFormat, PlaylistType,
    PreloadHint, RenditionPlaybackPriority, RenditionReport, SessionData,
};

verus! {

/// A playlist representing a list of renditions and variants of a given piece of media.
#[derive(Debug, Clone)]
pub struct MultivariantPlaylist {
    /// True if all media samples in a Media Segment can be decoded without information
    /// from other segments.
    pub is_independent_segments: bool,
    /// A preferred point at which to start playing a Playlist.
    pub start_offset: Option<StartOffset>,
    /// A list of name value pairs where the name can be substituted for the
    /// value (e.g. `{$<name>}`) in URI lines, quoted string attribute list
    /// values, and hexadecimal-sequence attribute values.
    pub variables: Vec<DefinitionType>,
    /// Groups of renditions that are all alternative renditions of the same content.
    pub renditions_groups: Vec<RenditionGroup>,
    /// A set of [`VariantStream`]s.
    pub variant_streams: Vec<VariantStream>,
    /// The `MediaPlaylist` files containing the I-frames of a multimedia
    /// presentation.
    pub i_frame_streams: Vec<IFrameStream>,
    /// Arbitrary session data.
    pub session_data: Vec<SessionData>,
    /// Encryption keys used in the `MediaPlaylist`s that should be preloaded.
    pub session_key: Vec<EncryptionMethod>,
    /// Identifies a [`crate::steering_manifest::SteeringManifest`].
    pub content_steering: Vec<ContentSteering>,
}

/// Groups of renditions that are all alternative renditions of the same content.
#[derive(Debug, Clone)]
pub enum RenditionGroup {
    /// A group of video renditions.
    Video { group_id: String, renditions: Vec<VideoRendition> },
    /// A group of audio renditions.
    Audio { group_id: String, renditions: Vec<AudioRendition> },
    /// A group of subtitle renditions.
    Subtitles { group_id: String, renditions: Vec<SubtitleRendition> },
    /// A group of closed caption renditions.
    ClosedCaptions { group_id: String, renditions: Vec<ClosedCaptionRendition> },
}

/// A video rendition.
#[derive(Debug, Clone)]
pub struct VideoRendition {
    /// Information about this rendition.
    pub info: RenditionInfo,
    /// The URI that identifies the Media Playlist file.
    pub uri: Option<String>,
}

/// A audio rendition.
#[derive(Debug, Clone)]
pub struct AudioRendition {
    /// The audio bit depth of the rendition.
    pub bit_depth: Option<u64>,
    /// The audio sample rate of the rendition.
    pub sample_rate: Option<u64>,
    /// Information about the audio channels in the rendition.
    pub channels: Option<AudioChannelInformation>,
    /// Information about this rendition.
    pub info: RenditionInfo,
    /// The URI that identifies the Media Playlist file.
    pub uri: Option<String>,
}

/// A subtitle rendition.
#[derive(Debug, Clone)]
pub struct SubtitleRendition {
    /// Information about this rendition.
    pub info: RenditionInfo,
    /// Indicates that the Rendition contains content that is
    /// considered essential to play.
    pub forced: bool,
    /// The URI that identifies the Media Playlist file.
    pub uri: String,
}

/// A closed caption rendition.
#[derive(Debug, Clone)]
pub struct ClosedCaptionRendition {
    pub in_stream_id: InStreamId,
    /// Information about this rendition.
    pub info: RenditionInfo,
}

/// Information about a given rendition.
#[derive(Debug, Clone)]
pub struct RenditionInfo {
    /// A RFC5646 tag which identifies the primary language used in the Rendition.
    pub language: Option<String>,
    /// A RFC5646 tag which identifies a language that is associated with the Rendition.
    pub assoc_language: Option<String>,
    /// A human-readable description of the Rendition.
    pub name: String,
    /// The priority in which a given rendition should be chosen over another rendition.
    pub priority: RenditionPlaybackPriority,
    /// Media Characteristic Tags that indicate individual characteristics of this Rendition.
    pub characteristics: Vec<String>,
    /// Allows the URI of a Rendition to change between two distinct downloads of
    /// the `MultivariantPlaylist`.
    pub stable_rendition_id: Option<String>,
}

/// A set of Renditions that can be combined to play the presentation.
#[derive(Debug, Clone)]
pub struct VariantStream {
    /// Metadata for the stream.
    pub stream_info: crate::StreamInf,
    /// Describes the maximum frame rate for all the video in the
    /// `VariantStream`, in thousandths of frames per second; rendered with
    /// exactly three decimal places.
    pub frame_rate: Option<u64>,
    /// The group id of the audio [`RenditionGroup`] that should be used when
    /// playing the presentation.
    pub audio_group_id: Option<String>,
    /// The group id of the video [`RenditionGroup`] that should be used when
    /// playing the presentation.
    pub video_group_id: Option<String>,
    /// The group id of the subtitle [`RenditionGroup`] that should be used when
    /// playing the presentation.
    pub subtitles_group_id: Option<String>,
    /// The group id of the closed caption [`RenditionGroup`] that should be used when
    /// playing the presentation.
    pub closed_captions_group_id: Option<String>,
    /// The `MediaPlaylist` that carries a Rendition of the Variant Stream.
    pub uri: String,
}

/// Identifies a `MediaPlaylist` containing the I-frames of a multimedia
/// presentation.
#[derive(Debug, Clone)]
pub struct IFrameStream {
    /// The metadata for this stream.
    pub stream_info: crate::StreamInf,
    /// The group id of the video [`RenditionGroup`] that should be used when
    /// playing the presentation.
    pub video_group_id: Option<String>,
    /// The URI that identifies the I-frame `MediaPlaylist` file.
    pub uri: String,
}

/// A playlist representing a list of `MediaSegment`s and relevant information.
#[derive(Debug, Clone)]
pub struct MediaPlaylist {
    /// The `MediaSegments` representing segments of the media stream in order.
    pub segments: Vec<MediaSegment>,
    /// A preferred point at which to start playing a Playlist.
    pub start_offset: Option<StartOffset>,
    /// A list of name value pairs where the name can be substituted for the
    /// value (e.g. `{$<name>}`) in URI lines, quoted string attribute list
    /// values, and hexadecimal-sequence attribute values.
    pub variables: Vec<DefinitionType>,
    /// True if all media samples in a Media Segment can be decoded without information
    /// from other segments.
    pub is_independent_segments: bool,
    /// An upper bound on the duration of all Media
    /// Segments in the Playlist. The duration of each Media Segment
    /// in a Playlist file, when rounded to the nearest integer, MUST be
    /// less than or equal to the Target Duration.
    pub target_duration: u64,
    /// The media sequence number of the first segment in [`MediaPlaylist::segments`].
    pub first_media_sequence_number: u64,
    /// Allows synchronization between different renditions of the same `VariantStream`
    /// or different `VariantStream`s that have EXT-X-DISCONTINUITY tags in their
    /// Media Playlists.
    pub discontinuity_sequence_number: u64,
    /// True if no more Media Segments will be added to the Media Playlist file.
    pub finished: bool,
    /// Whether or not the playlist is for a mutable append-only stream, or a
    /// static immutable stream.
    pub playlist_type: Option<PlaylistType>,
    /// If Some, indicates the server-recommended minimum distance from
    /// the end of the Playlist at which clients should begin to play
    /// or to which they should seek.
    pub hold_back_seconds: Option<Decimal>,
    /// True if each Media Segment in the Playlist describes a single I-frame.
    pub iframes_only: bool,
    /// `Some` if the server supports playlist delta updates.
    pub playlist_delta_updates_information: Option<DeltaUpdateInfo>,
    /// True if the server supports blocking playlist reloads.
    pub supports_blocking_playlist_reloads: bool,
    /// Information about the `PartialSegments` in this playlist.
    pub part_information: Option<PartInformation>,
    /// Information about the playlist that is not associated with
    /// specific Media Segments.
    pub metadata: MediaMetadata,
}

/// Information about `PartialSegments` in a given playlist.
#[derive(Debug, Clone, Copy)]
pub struct PartInformation {
    /// Indicates the server-recommended minimum distance from
    /// the end of the Playlist at which clients should begin to play
    /// or to which they should seek when playing in Low-Latency Mode.
    pub part_hold_back_seconds: Decimal,
    /// An upper bound on the duration of all Partial Segments in the Playlist.
    pub part_target_duration: Decimal,
}

/// Information about the playlist that is not associated with
/// specific Media Segments.
#[derive(Debug, Clone)]
pub struct MediaMetadata {
    /// A duration of time with specific attributes.
    pub date_ranges: Vec<crate::DateRange>,
    /// If Some, this indicates information about skipped `MediaSegments`.
    /// If None, there are no skipped `MediaSegments`.
    pub skip: Option<SkipInformation>,
    /// Hints that the client should request a resource before
    /// it is available to be delivered.
    pub preload_hints: Vec<PreloadHint>,
    /// Information about an associated Renditions that is as up-to-date as
    /// the Playlist that contains the report.
    pub rendition_reports: Vec<RenditionReport>,
}

/// Information about skipped `MediaSegments`.
#[derive(Debug, Clone)]
pub struct SkipInformation {
    /// The number of `MediaSegments` that have been skipped.
    pub number_of_skipped_segments: u64,
    /// The list of [`crate::DateRange`] IDs that have been removed
    /// from the Playlist recently.
    pub recently_removed_dataranges: Vec<String>,
}

/// A segment of the larger media file.
#[derive(Debug, Clone)]
pub struct MediaSegment {
    /// The URI Identifying the media resource.
    pub uri: String,
    /// The duration of this `MediaSegment`.
    pub duration_seconds: FloatOrInteger,
    /// An optional human-readable informative title of the Media Segment.
    /// Empty string for no title.
    pub title: String,
    /// This may contain either a byte range or bitrate, but not both, because they are
    /// mutually exclusive
    pub byte_range_or_bitrate: Option<ByteRangeOrBitrate>,
    /// True if `MediaSegment` is a discontinuity between the Media Segment
    /// that follows it and the one that preceded it.
    pub is_discontinuity: bool,
    /// If Some, represents the encryption method used for this `MediaSegment`.
    /// If None, no encryption is used.
    pub encryption: Option<EncryptionMethod>,
    /// If Some, this `MediaSegment` requires a Media Initialization Section
    /// and the value describes how to acquire it.
    pub media_initialization_section: Option<MediaInitializationSection>,
    /// If Some, the first sample of the `MediaSegment` is associated with this
    /// time.
    pub absolute_time: Option<DateTime>,
    /// If true, this `MediaSegment` does not contain media data
    /// and should not be loaded by clients.
    pub is_gap: bool,
    /// The partial segments for this `MediaSegment`.
    pub parts: Vec<PartialSegment>,
}

/// A common sequence of bytes to initialize the parser before
/// `MediaSegments` can be parsed.
#[derive(Debug, Clone)]
pub struct MediaInitializationSection {
    pub uri: String,
    pub range: Option<ByteRangeWithOffset>,
}

#[derive(Debug, Clone)]
pub enum ByteRangeOrBitrate {
    /// This `MediaSegment` is a sub-range of the resource
    /// identified by its URI.
    ByteRange(ByteRange),
    /// The approximate segment bit rate of this `MediaSegment`
    /// in kbps.
    Bitrate(u64),
}

/// A partial slice of a `MediaSegment.`
#[derive(Debug, Clone)]
pub struct PartialSegment {
    /// The URI for this `PartialSegment`.
    pub uri: String,
    /// The duration of this `PartialSegment`.
    pub duration_in_seconds: Decimal,
    /// True if this `PartialSegment` contains an independent frame.
    pub is_independent: bool,
    /// Some if this `PartialSegment` is a sub-range of the resource specified by the URI.
    pub byte_range: Option<ByteRange>,
    /// True if this `PartialSegment` is not available.
    pub is_gap: bool,
}

/// A preferred point at which to start playing a Playlist.
#[derive(Debug, Clone, Copy)]
pub struct StartOffset {
    /// A positive offset indicates a time offset from the beginning of the Playlist.
    /// A negative offset indicates a negative time offset from the end of the last Media
    /// Segment in the Playlist.
    pub offset_in_seconds: Decimal,
    /// If `true`, clients should start playback at the Media
    /// Segment containing the [`StartOffset::offset_in_seconds`], but should not render
    /// media samples in that segment whose presentation times are prior to the
    /// [`StartOffset::offset_in_seconds`].  If `false`, clients should attempt to render
    /// every media sample in that segment.
    pub is_precise: bool,
}

/// Equality of byte-range-or-bitrate markers, by content.
pub open spec fn spec_bb_eq(a: Option<ByteRangeOrBitrate>, b: Option<ByteRangeOrBitrate>) -> bool {
    match (a, b) {
        (
            Option::Some(ByteRangeOrBitrate::ByteRange(x)),
            Option::Some(ByteRangeOrBitrate::ByteRange(y)),
        ) => x.length_bytes == y.length_bytes && x.start_offset_bytes == y.start_offset_bytes,
        (Option::Some(ByteRangeOrBitrate::Bitrate(m)), Option::Some(ByteRangeOrBitrate::Bitrate(n)))
            => m == n,
        (Option::None, Option::None) => true,
        _ => false,
    }
}

/// Equality of key formats, by content.
pub open spec fn spec_key_format_eq(a: KeyFormat, b: KeyFormat) -> bool {
    match (a, b) {
        (KeyFormat::Identity, KeyFormat::Identity) => true,
        (KeyFormat::Other(x), KeyFormat::Other(y)) => x@ == y@,
        _ => false,
    }
}

/// Equality of encryption methods, by content: same method, same URI, same
/// initialization vector, same key format and versions.
pub open spec fn spec_method_eq(a: EncryptionMethod, b: EncryptionMethod) -> bool {
    match (a, b) {
        (
            EncryptionMethod::Aes128 {
                uri: u1,
                iv: i1,
                key_format: k1,
                key_format_versions: v1,
            },
            EncryptionMethod::Aes128 {
                uri: u2,
                iv: i2,
                key_format: k2,
                key_format_versions: v2,
            },
        ) => u1@ == u2@ && i1 == i2 && spec_key_format_eq(k1, k2) && v1@ == v2@,
        (
            EncryptionMethod::SampleAes { uri: u1, iv: i1, key_format_versions: v1 },
            EncryptionMethod::SampleAes { uri: u2, iv: i2, key_format_versions: v2 },
        ) => u1@ == u2@ && i1 == i2 && v1@ == v2@,
        (
            EncryptionMethod::SampleAesCtr { uri: u1, key_format_versions: v1 },
            EncryptionMethod::SampleAesCtr { uri: u2, key_format_versions: v2 },
        ) => u1@ == u2@ && v1@ == v2@,
        _ => false,
    }
}

/// Equality of optional encryption methods, by content.
pub open spec fn spec_enc_eq(a: Option<EncryptionMethod>, b: Option<EncryptionMethod>) -> bool {
    match (a, b) {
        (Option::Some(x), Option::Some(y)) => spec_method_eq(x, y),
        (Option::None, Option::None) => true,
        _ => false,
    }
}

/// Equality of optional media initialization sections, by content.
pub open spec fn spec_mis_eq(
    a: Option<MediaInitializationSection>,
    b: Option<MediaInitializationSection>,
) -> bool {
    match (a, b) {
        (Option::Some(x), Option::Some(y)) => x.uri@ == y.uri@ && x.range == y.range,
        (Option::None, Option::None) => true,
        _ => false,
    }
}

/// Compares two key-format-version lists element by element.
fn vec_u64_eq(a: &Vec<u64>, b: &Vec<u64>) -> (r: bool)
    ensures
        r == (a@ == b@),
{
    if a.len() != b.len() {
        return false;
    }
    let n = a.len();
    let mut i: usize = 0;
    while i < n
        invariant
            0 <= i <= n,
            n == a@.len() == b@.len(),
            forall|k: int| 0 <= k < i ==> a@[k] == b@[k],
        decreases n - i,
    {
        if a[i] != b[i] {
            return false;
        }
        i += 1;
    }
    proof {
        assert(a@ =~= b@);
    }
    true
}

/// Decides [`spec_bb_eq`].
pub fn bb_eq(a: &Option<ByteRangeOrBitrate>, b: &Option<ByteRangeOrBitrate>) -> (r: bool)
    ensures
        r == spec_bb_eq(*a, *b),
{
    match (a, b) {
        (
            Option::Some(ByteRangeOrBitrate::ByteRange(x)),
            Option::Some(ByteRangeOrBitrate::ByteRange(y)),
        ) => x.length_bytes == y.length_bytes && opt_u64_eq(&x.start_offset_bytes,
            &y.start_offset_bytes),
        (
            Option::Some(ByteRangeOrBitrate::Bitrate(m)),
            Option::Some(ByteRangeOrBitrate::Bitrate(n)),
        ) => m == n,
        (Option::None, Option::None) => true,
        _ => false,
    }
}

fn opt_u64_eq(a: &Option<u64>, b: &Option<u64>) -> (r: bool)
    ensures
        r == (*a == *b),
{
    match (a, b) {
        (Option::Some(x), Option::Some(y)) => x == y,
        (Option::None, Option::None) => true,
        _ => false,
    }
}

fn opt_u128_eq(a: &Option<u128>, b: &Option<u128>) -> (r: bool)
    ensures
        r == (*a == *b),
{
    match (a, b) {
        (Option::Some(x), Option::Some(y)) => x == y,
        (Option::None, Option::None) => true,
        _ => false,
    }
}

fn key_format_eq(a: &KeyFormat, b: &KeyFormat) -> (r: bool)
    ensures
        r == spec_key_format_eq(*a, *b),
{
    match (a, b) {
        (KeyFormat::Identity, KeyFormat::Identity) => true,
        (KeyFormat::Other(x), KeyFormat::Other(y)) => *x == *y,
        _ => false,
    }
}

fn method_eq(a: &EncryptionMethod, b: &EncryptionMethod) -> (r: bool)
    ensures
        r == spec_method_eq(*a, *b),
{
    match (a, b) {
        (
            EncryptionMethod::Aes128 {
                uri: u1,
                iv: i1,
                key_format: k1,
                key_format_versions: v1,
            },
            EncryptionMethod::Aes128 {
                uri: u2,
                iv: i2,
                key_format: k2,
                key_format_versions: v2,
            },
        ) => *u1 == *u2 && opt_u128_eq(i1, i2) && key_format_eq(k1, k2) && vec_u64_eq(v1, v2),
        (
            EncryptionMethod::SampleAes { uri: u1, iv: i1, key_format_versions: v1 },
            EncryptionMethod::SampleAes { uri: u2, iv: i2, key_format_versions: v2 },
        ) => *u1 == *u2 && opt_u128_eq(i1, i2) && vec_u64_eq(v1, v2),
        (
            EncryptionMethod::SampleAesCtr { uri: u1, key_format_versions: v1 },
            EncryptionMethod::SampleAesCtr { uri: u2, key_format_versions: v2 },
        ) => *u1 == *u2 && vec_u64_eq(v1, v2),
        _ => false,
    }
}

/// Decides [`spec_enc_eq`].
pub fn enc_eq(a: &Option<EncryptionMethod>, b: &Option<EncryptionMethod>) -> (r: bool)
    ensures
        r == spec_enc_eq(*a, *b),
{
    match (a, b) {
        (Option::Some(x), Option::Some(y)) => method_eq(x, y),
        (Option::None, Option::None) => true,
        _ => false,
    }
}

/// Decides [`spec_mis_eq`].
pub fn mis_eq(
    a: &Option<MediaInitializationSection>,
    b: &Option<MediaInitializationSection>,
) -> (r: bool)
    ensures
        r == spec_mis_eq(*a, *b),
{
    match (a, b) {
        (Option::Some(x), Option::Some(y)) => x.uri == y.uri && match (&x.range, &y.range) {
            (Option::Some(p), Option::Some(q)) => p.length_bytes == q.length_bytes
                && p.start_offset_bytes == q.start_offset_bytes,
            (Option::None, Option::None) => true,
            _ => false,
        },
        (Option::None, Option::None) => true,
        _ => false,
    }
}

/// The partial-segment tags of one segment, in order.
pub open spec fn spec_parts_chars(parts: Seq<PartialSegment>) -> Seq<char>
    decreases parts.len(),
{
    if parts.len() == 0 {
        Seq::<char>::empty()
    } else {
        spec_parts_chars(parts.drop_last()) + crate::tags::spec_x_part_chars(
            parts.last().uri,
            parts.last().duration_in_seconds,
            parts.last().is_independent,
            parts.last().byte_range,
            parts.last().is_gap,
        ) + "\n"@
    }
}

impl MediaSegment {
    /// The discontinuity and EXTINF lines, always re-emitted.
    pub open spec fn spec_head_chars(&self) -> Seq<char> {
        (if self.is_discontinuity {
            "#EXT-X-DISCONTINUITY"@ + "\n"@
        } else {
            Seq::<char>::empty()
        }) + "#EXTINF:"@ + self.duration_seconds.spec_chars() + (if self.title@.len() == 0 {
            Seq::<char>::empty()
        } else {
            ","@ + self.title@
        }) + "\n"@
    }

    /// The byte-range or bitrate line: a byte range is always re-emitted,
    /// a bitrate only when it differs from the previous segment's marker.
    pub open spec fn spec_bb_chars(&self, prev_bb: Option<ByteRangeOrBitrate>) -> Seq<char> {
        match self.byte_range_or_bitrate {
            Option::Some(ByteRangeOrBitrate::ByteRange(byte_range)) => "#EXT-X-BYTERANGE:"@
                + byte_range.spec_chars() + "\n"@,
            Option::Some(ByteRangeOrBitrate::Bitrate(kbps)) => if spec_bb_eq(
                self.byte_range_or_bitrate,
                prev_bb,
            ) {
                Seq::<char>::empty()
            } else {
                "#EXT-X-BITRATE:"@ + crate::text::spec_dec(kbps as nat) + "\n"@
            },
            Option::None => Seq::<char>::empty(),
        }
    }

    /// The key line, emitted only when the encryption method differs from
    /// the previous segment's.
    pub open spec fn spec_key_chars(&self, prev_enc: Option<EncryptionMethod>) -> Seq<char> {
        if spec_enc_eq(self.encryption, prev_enc) {
            Seq::<char>::empty()
        } else {
            "#EXT-X-KEY:"@ + (match self.encryption {
                Option::Some(method) => method.spec_chars(),
                Option::None => "METHOD=NONE"@,
            }) + "\n"@
        }
    }

    /// The map line, emitted only when an initialization section is present
    /// and differs from the previous segment's.
    pub open spec fn spec_map_chars(
        &self,
        prev_mis: Option<MediaInitializationSection>,
    ) -> Seq<char> {
        match self.media_initialization_section {
            Option::Some(map) => if spec_mis_eq(self.media_initialization_section, prev_mis) {
                Seq::<char>::empty()
            } else {
                "#EXT-X-MAP:URI=\""@ + map.uri@ + "\""@ + (match map.range {
                    Option::Some(range) => ",BYTERANGE=\""@ + range.spec_chars() + "\""@,
                    Option::None => Seq::<char>::empty(),
                }) + "\n"@
            },
            Option::None => Seq::<char>::empty(),
        }
    }

    /// The program-date-time and gap lines that precede the partial
    /// segments.
    pub open spec fn spec_time_gap_chars(&self) -> Seq<char> {
        (match self.absolute_time {
            Option::Some(time) => "#EXT-X-PROGRAM-DATE-TIME:"@ + time.spec_chars() + "\n"@,
            Option::None => Seq::<char>::empty(),
        }) + (if self.is_gap {
            "#EXT-X-GAP"@ + "\n"@
        } else {
            Seq::<char>::empty()
        })
    }

    /// The program-date-time and gap lines, the partial segments, and the
    /// segment's URI line.
    pub open spec fn spec_tail_chars(&self) -> Seq<char> {
        self.spec_time_gap_chars() + spec_parts_chars(self.parts@) + self.uri@ + "\n"@
    }

    /// The full rendering of one segment, given the markers carried over
    /// from the previous segment (all absent before the first one).
    #[verifier::opaque]
    pub open spec fn spec_chars(
        &self,
        prev_bb: Option<ByteRangeOrBitrate>,
        prev_enc: Option<EncryptionMethod>,
        prev_mis: Option<MediaInitializationSection>,
    ) -> Seq<char> {
        self.spec_head_chars() + self.spec_bb_chars(prev_bb) + self.spec_key_chars(prev_enc)
            + self.spec_map_chars(prev_mis) + self.spec_tail_chars()
    }

    fn push_head(&self, output: &mut String)
        ensures
            final(output)@ == old(output)@ + self.spec_head_chars(),
    {
        broadcast use lemma_add_assoc, lemma_add_empty_left, lemma_add_empty_right;

        if self.is_discontinuity {
            output.append("#EXT-X-DISCONTINUITY");
            output.append("\n");
        }
        output.append("#EXTINF:");
        self.duration_seconds.serialize(output);
        if self.title.as_str().unicode_len() != 0 {
            output.append(",");
            output.append(self.title.as_str());
        }
        output.append("\n");
    }

    fn push_bb(&self, last_media_segment: &MediaSegment, output: &mut String)
        ensures
            final(output)@ == old(output)@ + self.spec_bb_chars(
                last_media_segment.byte_range_or_bitrate,
            ),
    {
        broadcast use lemma_add_assoc, lemma_add_empty_left, lemma_add_empty_right;

        if let Option::Some(byte_range_or_bitrate) = &self.byte_range_or_bitrate {
            match byte_range_or_bitrate {
                ByteRangeOrBitrate::ByteRange(byte_range) => {
                    output.append("#EXT-X-BYTERANGE:");
                    byte_range.serialize(output);
                    output.append("\n");
                },
                ByteRangeOrBitrate::Bitrate(kbps) => {
                    if !bb_eq(&self.byte_range_or_bitrate,
                        &last_media_segment.byte_range_or_bitrate) {
                        output.append("#EXT-X-BITRATE:");
                        crate::text::push_u64(output, *kbps);
                        output.append("\n");
                    }
                },
            }
        }
    }

    fn push_key(&self, last_media_segment: &MediaSegment, output: &mut String)
        ensures
            final(output)@ == old(output)@ + self.spec_key_chars(last_media_segment.encryption),
    {
        broadcast use lemma_add_assoc, lemma_add_empty_left, lemma_add_empty_right;

        if !enc_eq(&self.encryption, &last_media_segment.encryption) {
            output.append("#EXT-X-KEY:");
            if let Option::Some(method) = &self.encryption {
                method.serialize(output);
            } else {
                output.append("METHOD=NONE");
            }
            output.append("\n");
        }
    }

    fn push_map(&self, last_media_segment: &MediaSegment, output: &mut String)
        ensures
            final(output)@ == old(output)@ + self.spec_map_chars(
                last_media_segment.media_initialization_section,
            ),
    {
        broadcast use lemma_add_assoc, lemma_add_empty_left, lemma_add_empty_right;

        if let Option::Some(map) = &self.media_initialization_section {
            if !mis_eq(&self.media_initialization_section,
                &last_media_segment.media_initialization_section) {
                crate::text::push_quoted_value(output, "#EXT-X-MAP:URI=\"", map.uri.as_str());
                if let Option::Some(range) = &map.range {
                    output.append(",BYTERANGE=\"");
                    range.serialize(output);
                    output.append("\"");
                }
                output.append("\n");
            }
        }
    }

    fn push_time_gap(&self, output: &mut String)
        ensures
            final(output)@ == old(output)@ + self.spec_time_gap_chars(),
    {
        broadcast use lemma_add_assoc, lemma_add_empty_left, lemma_add_empty_right;

        if let Option::Some(time) = &self.absolute_time {
            output.append("#EXT-X-PROGRAM-DATE-TIME:");
            time.serialize(output);
            output.append("\n");
        }
        if self.is_gap {
            output.append("#EXT-X-GAP");
            output.append("\n");
        }
    }

    #[verifier::rlimit(60)]
    fn push_tail(&self, output: &mut String)
        ensures
            final(output)@ == old(output)@ + self.spec_tail_chars(),
    {
        broadcast use lemma_add_assoc, lemma_add_empty_left, lemma_add_empty_right;

        self.push_time_gap(output);
        let ghost base = output@;
        let n = self.parts.len();
        let mut i: usize = 0;
        while i < n
            invariant
                0 <= i <= n,
                n == self.parts@.len(),
                output@ == base + spec_parts_chars(self.parts@.take(i as int)),
            decreases n - i,
        {
            broadcast use lemma_add_assoc;

            let part = &self.parts[i];
            Tag::serialize_x_part(
                output,
                &part.uri,
                &part.duration_in_seconds,
                part.is_independent,
                &part.byte_range,
                part.is_gap,
            );
            output.append("\n");
            proof {
                assert(self.parts@.take(i + 1).drop_last() =~= self.parts@.take(i as int));
                assert(self.parts@.take(i + 1).last() == self.parts@[i as int]);
            }
            i += 1;
        }
        proof {
            assert(self.parts@.take(n as int) =~= self.parts@);
        }
        output.append(self.uri.as_str());
        output.append("\n");
    }

    /// Renders this segment, re-emitting the byte-range/bitrate marker,
    /// encryption key and initialization section only where they differ
    /// from `last_media_segment`'s.
    pub fn serialize(&self, last_media_segment: &MediaSegment, output: &mut String)
        ensures
            final(output)@ == old(output)@ + self.spec_chars(
                last_media_segment.byte_range_or_bitrate,
                last_media_segment.encryption,
                last_media_segment.media_initialization_section,
            ),
    {
        broadcast use lemma_add_assoc;

        proof {
            reveal(MediaSegment::spec_chars);
        }
        self.push_head(output);
        self.push_bb(last_media_segment, output);
        self.push_key(last_media_segment, output);
        self.push_map(last_media_segment, output);
        self.push_tail(output);
    }
}

/// The EXT-X-DEFINE lines of a playlist, in order.
pub open spec fn spec_defines_chars(vars: Seq<DefinitionType>) -> Seq<char>
    decreases vars.len(),
{
    if vars.len() == 0 {
        Seq::<char>::empty()
    } else {
        spec_defines_chars(vars.drop_last()) + crate::tags::spec_define_chars(vars.last()) + "\n"@
    }
}

/// The EXT-X-DATERANGE lines of a playlist, in order.
pub open spec fn spec_dateranges_chars(items: Seq<crate::DateRange>) -> Seq<char>
    decreases items.len(),
{
    if items.len() == 0 {
        Seq::<char>::empty()
    } else {
        spec_dateranges_chars(items.drop_last()) + crate::tags::spec_x_daterange_chars(
            items.last(),
        ) + "\n"@
    }
}

/// The EXT-X-PRELOAD-HINT lines of a playlist, in order.
pub open spec fn spec_hints_chars(items: Seq<PreloadHint>) -> Seq<char>
    decreases items.len(),
{
    if items.len() == 0 {
        Seq::<char>::empty()
    } else {
        spec_hints_chars(items.drop_last()) + crate::tags::spec_x_preload_hint_chars(items.last())
            + "\n"@
    }
}

/// The EXT-X-RENDITION-REPORT lines of a playlist, in order.
pub open spec fn spec_reports_chars(items: Seq<RenditionReport>) -> Seq<char>
    decreases items.len(),
{
    if items.len() == 0 {
        Seq::<char>::empty()
    } else {
        spec_reports_chars(items.drop_last()) + crate::tags::spec_x_rendition_report_chars(
            items.last(),
        ) + "\n"@
    }
}

impl MediaMetadata {
    /// The date range, skip, preload hint and rendition report lines, in
    /// that order.
    pub open spec fn spec_chars(&self) -> Seq<char> {
        spec_dateranges_chars(self.date_ranges@) + (match self.skip {
            Option::Some(skip) => crate::tags::spec_x_skip_chars(
                skip.number_of_skipped_segments,
                skip.recently_removed_dataranges@,
            ) + "\n"@,
            Option::None => Seq::<char>::empty(),
        }) + spec_hints_chars(self.preload_hints@) + spec_reports_chars(self.rendition_reports@)
    }

    #[verifier::rlimit(100)]
    fn push_date_ranges(&self, output: &mut String)
        ensures
            final(output)@ == old(output)@ + spec_dateranges_chars(self.date_ranges@),
    {
        broadcast use lemma_add_assoc;

        let ghost base0 = output@;
        let n = self.date_ranges.len();
        let mut i: usize = 0;
        while i < n
            invariant
                0 <= i <= n,
                n == self.date_ranges@.len(),
                output@ == base0 + spec_dateranges_chars(self.date_ranges@.take(i as int)),
            decreases n - i,
        {
            broadcast use lemma_add_assoc;

            Tag::serialize_x_daterange(output, &self.date_ranges[i]);
            output.append("\n");
            proof {
                assert(self.date_ranges@.take(i + 1).drop_last() =~= self.date_ranges@.take(
                    i as int,
                ));
                assert(self.date_ranges@.take(i + 1).last() == self.date_ranges@[i as int]);
            }
            i += 1;
        }
        proof {
            assert(self.date_ranges@.take(n as int) =~= self.date_ranges@);
        }
    }

    fn push_hints(&self, output: &mut String)
        ensures
            final(output)@ == old(output)@ + spec_hints_chars(self.preload_hints@),
    {
        broadcast use lemma_add_assoc;

        let ghost base1 = output@;
        let n = self.preload_hints.len();
        let mut i: usize = 0;
        while i < n
            invariant
                0 <= i <= n,
                n == self.preload_hints@.len(),
                output@ == base1 + spec_hints_chars(self.preload_hints@.take(i as int)),
            decreases n - i,
        {
            broadcast use lemma_add_assoc;

            Tag::serialize_x_preload_hint(output, &self.preload_hints[i]);
            output.append("\n");
            proof {
                assert(self.preload_hints@.take(i + 1).drop_last() =~= self.preload_hints@.take(
                    i as int,
                ));
                assert(self.preload_hints@.take(i + 1).last() == self.preload_hints@[i as int]);
            }
            i += 1;
        }
        proof {
            assert(self.preload_hints@.take(n as int) =~= self.preload_hints@);
        }
    }

    fn push_reports(&self, output: &mut String)
        ensures
            final(output)@ == old(output)@ + spec_reports_chars(self.rendition_reports@),
    {
        broadcast use lemma_add_assoc;

        let ghost base2 = output@;
        let n = self.rendition_reports.len();
        let mut i: usize = 0;
        while i < n
            invariant
                0 <= i <= n,
                n == self.rendition_reports@.len(),
                output@ == base2 + spec_reports_chars(self.rendition_reports@.take(i as int)),
            decreases n - i,
        {
            broadcast use lemma_add_assoc;

            Tag::serialize_x_rendition_report(output, &self.rendition_reports[i]);
            output.append("\n");
            proof {
                assert(self.rendition_reports@.take(i + 1).drop_last()
                    =~= self.rendition_reports@.take(i as int));
                assert(self.rendition_reports@.take(i + 1).last()
                    == self.rendition_reports@[i as int]);
            }
            i += 1;
        }
        proof {
            assert(self.rendition_reports@.take(n as int) =~= self.rendition_reports@);
        }
    }

    pub fn serialize(&self, output: &mut String)
        ensures
            final(output)@ == old(output)@ + self.spec_chars(),
    {
        broadcast use lemma_add_assoc, lemma_add_empty_left, lemma_add_empty_right;

        self.push_date_ranges(output);
        if let Option::Some(skip) = &self.skip {
            Tag::serialize_x_skip(
                output,
                skip.number_of_skipped_segments,
                &skip.recently_removed_dataranges,
            );
            output.append("\n");
        }
        self.push_hints(output);
        self.push_reports(output);
    }
}

/// Some element of a key-format-versions list is not the default version 1.
pub open spec fn spec_any_non_default_version(versions: Seq<u64>) -> bool {
    exists|j: int| 0 <= j < versions.len() && #[trigger] versions[j] != 1
}

/// The segment carries an AES-128 key with an explicit initialization
/// vector, which requires at least protocol version 2.
pub open spec fn seg_has_iv(seg: MediaSegment) -> bool {
    match seg.encryption {
        Option::Some(EncryptionMethod::Aes128 { iv: Option::Some(_), .. }) => true,
        _ => false,
    }
}

/// The segment's key uses a non-identity key format, the sample-AES
/// method, or a non-default key format version, all of which require
/// protocol version 5.
pub open spec fn seg_has_v5_key(seg: MediaSegment) -> bool {
    match seg.encryption {
        Option::Some(method) => (match method {
            EncryptionMethod::Aes128 { key_format: KeyFormat::Other(_), .. } => true,
            EncryptionMethod::SampleAes { .. } => true,
            _ => false,
        }) || spec_any_non_default_version(
            match method {
                EncryptionMethod::Aes128 { key_format_versions, .. } => key_format_versions@,
                EncryptionMethod::SampleAes { key_format_versions, .. } => key_format_versions@,
                EncryptionMethod::SampleAesCtr { key_format_versions, .. } => key_format_versions@,
            },
        ),
        Option::None => false,
    }
}

/// The segment's duration is written as a fraction, which requires at
/// least protocol version 3.
pub open spec fn seg_has_float_duration(seg: MediaSegment) -> bool {
    seg.duration_seconds is Float
}

/// The segment declares an explicit byte range, which requires at least
/// protocol version 4.
pub open spec fn seg_has_byte_range(seg: MediaSegment) -> bool {
    match seg.byte_range_or_bitrate {
        Option::Some(ByteRangeOrBitrate::ByteRange(_)) => true,
        _ => false,
    }
}

/// The segment declares a media initialization section.
pub open spec fn seg_has_map(seg: MediaSegment) -> bool {
    seg.media_initialization_section is Some
}

pub open spec fn segs_have_iv(segs: Seq<MediaSegment>) -> bool {
    exists|i: int| 0 <= i < segs.len() && seg_has_iv(#[trigger] segs[i])
}

pub open spec fn segs_have_v5_key(segs: Seq<MediaSegment>) -> bool {
    exists|i: int| 0 <= i < segs.len() && seg_has_v5_key(#[trigger] segs[i])
}

pub open spec fn segs_have_float_duration(segs: Seq<MediaSegment>) -> bool {
    exists|i: int| 0 <= i < segs.len() && seg_has_float_duration(#[trigger] segs[i])
}

pub open spec fn segs_have_byte_range(segs: Seq<MediaSegment>) -> bool {
    exists|i: int| 0 <= i < segs.len() && seg_has_byte_range(#[trigger] segs[i])
}

pub open spec fn segs_have_map(segs: Seq<MediaSegment>) -> bool {
    exists|i: int| 0 <= i < segs.len() && seg_has_map(#[trigger] segs[i])
}

/// Some variable takes its value from a query parameter, which requires
/// protocol version 11.
pub open spec fn vars_have_query_parameter(vars: Seq<DefinitionType>) -> bool {
    exists|i: int| 0 <= i < vars.len() && (#[trigger] vars[i]) is QueryParameter
}

/// The version demanded by the per-segment features alone: the greatest of
/// the versions each present feature requires, or 1 with no features.
pub open spec fn spec_base_version(segs: Seq<MediaSegment>) -> u8 {
    if segs_have_v5_key(segs) || segs_have_map(segs) {
        5
    } else if segs_have_byte_range(segs) {
        4
    } else if segs_have_float_duration(segs) {
        3
    } else if segs_have_iv(segs) {
        2
    } else {
        1
    }
}

/// Extending a scanned prefix by one segment extends each feature
/// predicate by exactly that segment's features.
proof fn lemma_features_take_step(segs: Seq<MediaSegment>, i: int)
    requires
        0 <= i < segs.len(),
    ensures
        segs_have_iv(segs.take(i + 1)) == (segs_have_iv(segs.take(i)) || seg_has_iv(segs[i])),
        segs_have_v5_key(segs.take(i + 1)) == (segs_have_v5_key(segs.take(i)) || seg_has_v5_key(
            segs[i],
        )),
        segs_have_float_duration(segs.take(i + 1)) == (segs_have_float_duration(segs.take(i))
            || seg_has_float_duration(segs[i])),
        segs_have_byte_range(segs.take(i + 1)) == (segs_have_byte_range(segs.take(i))
            || seg_has_byte_range(segs[i])),
        segs_have_map(segs.take(i + 1)) == (segs_have_map(segs.take(i)) || seg_has_map(segs[i])),
{
    assert(segs.take(i + 1).len() == i + 1);
    assert(segs.take(i).len() == i);
    assert(forall|j: int| 0 <= j < i + 1 ==> #[trigger] segs.take(i + 1)[j] == segs[j]);
    assert(forall|j: int| 0 <= j < i ==> #[trigger] segs.take(i)[j] == segs[j]);
    assert(segs.take(i + 1)[i] == segs[i]);
    if segs_have_iv(segs.take(i + 1)) {
        let j = choose|j: int|
            0 <= j < segs.take(i + 1).len() && seg_has_iv(#[trigger] segs.take(i + 1)[j]);
        if j < i {
            assert(seg_has_iv(segs.take(i)[j]));
        }
    }
    if segs_have_v5_key(segs.take(i + 1)) {
        let j = choose|j: int|
            0 <= j < segs.take(i + 1).len() && seg_has_v5_key(#[trigger] segs.take(i + 1)[j]);
        if j < i {
            assert(seg_has_v5_key(segs.take(i)[j]));
        }
    }
    if segs_have_float_duration(segs.take(i + 1)) {
        let j = choose|j: int|
            0 <= j < segs.take(i + 1).len() && seg_has_float_duration(
                #[trigger] segs.take(i + 1)[j],
            );
        if j < i {
            assert(seg_has_float_duration(segs.take(i)[j]));
        }
    }
    if segs_have_byte_range(segs.take(i + 1)) {
        let j = choose|j: int|
            0 <= j < segs.take(i + 1).len() && seg_has_byte_range(#[trigger] segs.take(i + 1)[j]);
        if j < i {
            assert(seg_has_byte_range(segs.take(i)[j]));
        }
    }
    if segs_have_map(segs.take(i + 1)) {
        let j = choose|j: int|
            0 <= j < segs.take(i + 1).len() && seg_has_map(#[trigger] segs.take(i + 1)[j]);
        if j < i {
            assert(seg_has_map(segs.take(i)[j]));
        }
    }
    if segs_have_iv(segs.take(i)) {
        let j = choose|j: int|
            0 <= j < segs.take(i).len() && seg_has_iv(#[trigger] segs.take(i)[j]);
        assert(seg_has_iv(segs.take(i + 1)[j]));
    }
    if segs_have_v5_key(segs.take(i)) {
        let j = choose|j: int|
            0 <= j < segs.take(i).len() && seg_has_v5_key(#[trigger] segs.take(i)[j]);
        assert(seg_has_v5_key(segs.take(i + 1)[j]));
    }
    if segs_have_float_duration(segs.take(i)) {
        let j = choose|j: int|
            0 <= j < segs.take(i).len() && seg_has_float_duration(#[trigger] segs.take(i)[j]);
        assert(seg_has_float_duration(segs.take(i + 1)[j]));
    }
    if segs_have_byte_range(segs.take(i)) {
        let j = choose|j: int|
            0 <= j < segs.take(i).len() && seg_has_byte_range(#[trigger] segs.take(i)[j]);
        assert(seg_has_byte_range(segs.take(i + 1)[j]));
    }
    if segs_have_map(segs.take(i)) {
        let j = choose|j: int|
            0 <= j < segs.take(i).len() && seg_has_map(#[trigger] segs.take(i)[j]);
        assert(seg_has_map(segs.take(i + 1)[j]));
    }
    if seg_has_iv(segs[i]) {
        assert(seg_has_iv(segs.take(i + 1)[i]));
    }
    if seg_has_v5_key(segs[i]) {
        assert(seg_has_v5_key(segs.take(i + 1)[i]));
    }
    if seg_has_float_duration(segs[i]) {
        assert(seg_has_float_duration(segs.take(i + 1)[i]));
    }
    if seg_has_byte_range(segs[i]) {
        assert(seg_has_byte_range(segs.take(i + 1)[i]));
    }
    if seg_has_map(segs[i]) {
        assert(seg_has_map(segs.take(i + 1)[i]));
    }
}

proof fn lemma_query_parameter_take_step(vars: Seq<DefinitionType>, i: int)
    requires
        0 <= i < vars.len(),
    ensures
        vars_have_query_parameter(vars.take(i + 1)) == (vars_have_query_parameter(vars.take(i))
            || vars[i] is QueryParameter),
{
    assert(forall|j: int| 0 <= j < i + 1 ==> #[trigger] vars.take(i + 1)[j] == vars[j]);
    assert(forall|j: int| 0 <= j < i ==> #[trigger] vars.take(i)[j] == vars[j]);
    if vars_have_query_parameter(vars.take(i + 1)) {
        let j = choose|j: int|
            0 <= j < vars.take(i + 1).len() && (#[trigger] vars.take(i + 1)[j]) is QueryParameter;
        if j < i {
            assert(vars.take(i)[j] is QueryParameter);
        }
    }
    if vars_have_query_parameter(vars.take(i)) {
        let j = choose|j: int|
            0 <= j < vars.take(i).len() && (#[trigger] vars.take(i)[j]) is QueryParameter;
        assert(vars.take(i + 1)[j] is QueryParameter);
    }
    if vars[i] is QueryParameter {
        assert(vars.take(i + 1)[i] is QueryParameter);
    }
}

/// Decides [`spec_any_non_default_version`].
fn any_non_default_version(versions: &Vec<u64>) -> (r: bool)
    ensures
        r == spec_any_non_default_version(versions@),
{
    let n = versions.len();
    let mut i: usize = 0;
    while i < n
        invariant
            0 <= i <= n,
            n == versions@.len(),
            forall|k: int| 0 <= k < i ==> #[trigger] versions@[k] == 1,
        decreases n - i,
    {
        if versions[i] != 1 {
            return true;
        }
        i += 1;
    }
    false
}

impl MediaPlaylist {
    /// The minimum compatibility version the playlist must declare,
    /// derived from which optional features appear anywhere in the model.
    pub open spec fn spec_version(&self) -> u8 {
        if vars_have_query_parameter(self.variables@) {
            11
        } else {
            match self.metadata.skip {
                Option::Some(skip) => if skip.recently_removed_dataranges@.len() == 0 {
                    9
                } else {
                    10
                },
                Option::None => if self.variables@.len() > 0 {
                    8
                } else if self.iframes_only {
                    if spec_base_version(self.segments@) < 4 {
                        4
                    } else {
                        spec_base_version(self.segments@)
                    }
                } else if segs_have_map(self.segments@) {
                    6
                } else {
                    spec_base_version(self.segments@)
                },
            }
        }
    }

    /// Computes [`MediaPlaylist::spec_version`] in a single pass: a ratchet
    /// that starts at 1 and rises as features are found, stopping the
    /// segment scan at the first media initialization section.
    pub fn get_version(&self) -> (version: u8)
        ensures
            version == self.spec_version(),
    {
        let mut version: u8 = 1;
        let mut has_map = false;
        let n = self.segments.len();
        let mut i: usize = 0;
        while i < n && !has_map
            invariant
                0 <= i <= n,
                n == self.segments@.len(),
                !has_map ==> version == spec_base_version(self.segments@.take(i as int))
                    && !segs_have_map(self.segments@.take(i as int)),
                has_map ==> version == 5 && segs_have_map(self.segments@.take(i as int)),
            decreases n - i,
        {
            let segment = &self.segments[i];
            proof {
                assert(self.segments@[i as int] == *segment);
            }
            if let Option::Some(method) = &segment.encryption {
                if let EncryptionMethod::Aes128 { iv, key_format, .. } = method {
                    if iv.is_some() {
                        if version < 2 {
                            version = 2;
                        }
                    }
                    if let KeyFormat::Other(_) = key_format {
                        version = 5;
                    }
                } else if let EncryptionMethod::SampleAes { .. } = method {
                    version = 5;
                }
                let key_format_versions = match method {
                    EncryptionMethod::Aes128 { key_format_versions, .. } => key_format_versions,
                    EncryptionMethod::SampleAes { key_format_versions, .. } => key_format_versions,
                    EncryptionMethod::SampleAesCtr { key_format_versions, .. } =>
                        key_format_versions,
                };
                if any_non_default_version(key_format_versions) {
                    version = 5;
                }
            }
            if let FloatOrInteger::Float(_) = segment.duration_seconds {
                if version < 3 {
                    version = 3;
                }
            }
            if let Option::Some(ByteRangeOrBitrate::ByteRange(_)) = segment.byte_range_or_bitrate {
                if version < 4 {
                    version = 4;
                }
            }
            if segment.media_initialization_section.is_some() {
                has_map = true;
                version = 5;
            }
            proof {
                lemma_features_take_step(self.segments@, i as int);
            }
            i += 1;
        }
        proof {
            if !has_map {
                assert(self.segments@.take(n as int) =~= self.segments@);
            } else {
                let j = choose|j: int|
                    0 <= j < self.segments@.take(i as int).len() && seg_has_map(
                        #[trigger] self.segments@.take(i as int)[j],
                    );
                assert(seg_has_map(self.segments@[j]));
                assert(segs_have_map(self.segments@));
            }
        }
        if self.iframes_only {
            if version < 4 {
                version = 4;
            }
        } else if has_map {
            version = 6;
        }
        if self.variables.len() > 0 {
            version = 8;
        }
        if let Option::Some(skip_information) = &self.metadata.skip {
            if skip_information.recently_removed_dataranges.len() == 0 {
                version = 9;
            } else {
                version = 10;
            }
        }
        let ghost version_before_vars = version;
        let vn = self.variables.len();
        let mut k: usize = 0;
        while k < vn
            invariant
                0 <= k <= vn,
                vn == self.variables@.len(),
                version == if vars_have_query_parameter(self.variables@.take(k as int)) {
                    11u8
                } else {
                    version_before_vars
                },
            decreases vn - k,
        {
            if let DefinitionType::QueryParameter { .. } = &self.variables[k] {
                version = 11;
            }
            proof {
                lemma_query_parameter_take_step(self.variables@, k as int);
            }
            k += 1;
        }
        proof {
            assert(self.variables@.take(vn as int) =~= self.variables@);
        }
        version
    }
}

/// The consecutive renderings of the playlist's segments, each against the
/// markers of the segment before it (none before the first).
pub open spec fn spec_segments_chars(segs: Seq<MediaSegment>) -> Seq<char>
    decreases segs.len(),
{
    if segs.len() == 0 {
        Seq::<char>::empty()
    } else {
        spec_segments_chars(segs.drop_last()) + segs.last().spec_chars(
            if segs.len() == 1 {
                Option::None
            } else {
                segs[segs.len() - 2].byte_range_or_bitrate
            },
            if segs.len() == 1 {
                Option::None
            } else {
                segs[segs.len() - 2].encryption
            },
            if segs.len() == 1 {
                Option::None
            } else {
                segs[segs.len() - 2].media_initialization_section
            },
        )
    }
}

impl MediaPlaylist {
    /// The first block of playlist-scoped lines: the file marker, the
    /// version when above the default, the variable definitions, the
    /// independent-segments marker and the start offset.
    pub open spec fn spec_head1_chars(&self) -> Seq<char> {
        "#EXTM3U"@ + "\n"@ + (if self.spec_version() != 1 {
            "#EXT-X-VERSION:"@ + crate::text::spec_dec(self.spec_version() as nat) + "\n"@
        } else {
            Seq::<char>::empty()
        }) + spec_defines_chars(self.variables@) + (if self.is_independent_segments {
            "#EXT-X-INDEPENDENT-SEGMENTS"@ + "\n"@
        } else {
            Seq::<char>::empty()
        }) + (match self.start_offset {
            Option::Some(offset) => "#EXT-X-START:TIME-OFFSET="@
                + offset.offset_in_seconds.spec_chars() + (if offset.is_precise {
                ",PRECISE=YES"@
            } else {
                Seq::<char>::empty()
            }) + "\n"@,
            Option::None => Seq::<char>::empty(),
        })
    }

    /// The second block of playlist-scoped lines: target duration, sequence
    /// numbers, end-list and type markers, part information and server
    /// control.
    pub open spec fn spec_head2_chars(&self) -> Seq<char> {
        "#EXT-X-TARGETDURATION:"@ + crate::text::spec_dec(self.target_duration as nat) + "\n"@ + (
        if self.first_media_sequence_number != 0 {
            "#EXT-X-MEDIA-SEQUENCE:"@ + crate::text::spec_dec(
                self.first_media_sequence_number as nat,
            ) + "\n"@
        } else {
            Seq::<char>::empty()
        }) + (if self.discontinuity_sequence_number != 0 {
            "#EXT-X-DISCONTINUITY-SEQUENCE:"@ + crate::text::spec_dec(
                self.discontinuity_sequence_number as nat,
            ) + "\n"@
        } else {
            Seq::<char>::empty()
        }) + (if self.finished {
            "#EXT-X-ENDLIST"@ + "\n"@
        } else {
            Seq::<char>::empty()
        }) + (match self.playlist_type {
            Option::Some(PlaylistType::Event) => "#EXT-X-PLAYLIST-TYPE:EVENT"@ + "\n"@,
            Option::Some(PlaylistType::Vod) => "#EXT-X-PLAYLIST-TYPE:VOD"@ + "\n"@,
            Option::None => Seq::<char>::empty(),
        }) + (if self.iframes_only {
            "#EXT-X-I-FRAMES-ONLY"@ + "\n"@
        } else {
            Seq::<char>::empty()
        }) + (match self.part_information {
            Option::Some(info) => "#EXT-X-PART-INF:PART-TARGET="@
                + info.part_target_duration.spec_chars() + "\n"@,
            Option::None => Seq::<char>::empty(),
        }) + self.spec_server_control_chars()
    }

    /// The server-control line, present only when some sub-feature is
    /// active.
    pub open spec fn spec_server_control_chars(&self) -> Seq<char> {
        if self.playlist_delta_updates_information is Some || self.hold_back_seconds is Some
            || self.part_information is Some || self.supports_blocking_playlist_reloads {
            crate::tags::spec_x_server_control_chars(
                self.playlist_delta_updates_information,
                self.hold_back_seconds,
                match self.part_information {
                    Option::Some(info) => Option::Some(info.part_hold_back_seconds),
                    Option::None => Option::None,
                },
                self.supports_blocking_playlist_reloads,
            ) + "\n"@
        } else {
            Seq::<char>::empty()
        }
    }

    /// The playlist's full rendering.
    pub open spec fn spec_serialize(&self) -> Seq<char> {
        self.spec_head1_chars() + self.spec_head2_chars() + self.metadata.spec_chars()
            + spec_segments_chars(self.segments@)
    }

    fn push_head1(&self, output: &mut String)
        ensures
            final(output)@ == old(output)@ + self.spec_head1_chars(),
    {
        broadcast use lemma_add_assoc, lemma_add_empty_left, lemma_add_empty_right;

        output.append("#EXTM3U");
        output.append("\n");
        let version = self.get_version();
        if version != 1 {
            output.append("#EXT-X-VERSION:");
            crate::text::push_u64(output, version as u64);
            output.append("\n");
        }
        let ghost base = output@;
        let n = self.variables.len();
        let mut i: usize = 0;
        while i < n
            invariant
                0 <= i <= n,
                n == self.variables@.len(),
                output@ == base + spec_defines_chars(self.variables@.take(i as int)),
            decreases n - i,
        {
            broadcast use lemma_add_assoc;

            Tag::serialize_define(output, &self.variables[i]);
            output.append("\n");
            proof {
                assert(self.variables@.take(i + 1).drop_last() =~= self.variables@.take(i as int));
                assert(self.variables@.take(i + 1).last() == self.variables@[i as int]);
            }
            i += 1;
        }
        proof {
            assert(self.variables@.take(n as int) =~= self.variables@);
        }
        if self.is_independent_segments {
            output.append("#EXT-X-INDEPENDENT-SEGMENTS");
            output.append("\n");
        }
        if let Option::Some(offset) = &self.start_offset {
            output.append("#EXT-X-START:TIME-OFFSET=");
            offset.offset_in_seconds.serialize(output);
            if offset.is_precise {
                output.append(",PRECISE=YES");
            }
            output.append("\n");
        }
    }

    #[verifier::rlimit(100)]
    fn push_head2(&self, output: &mut String)
        ensures
            final(output)@ == old(output)@ + self.spec_head2_chars(),
    {
        broadcast use lemma_add_assoc, lemma_add_empty_left, lemma_add_empty_right;

        output.append("#EXT-X-TARGETDURATION:");
        crate::text::push_u64(output, self.target_duration);
        output.append("\n");
        if self.first_media_sequence_number != 0 {
            output.append("#EXT-X-MEDIA-SEQUENCE:");
            crate::text::push_u64(output, self.first_media_sequence_number);
            output.append("\n");
        }
        if self.discontinuity_sequence_number != 0 {
            output.append("#EXT-X-DISCONTINUITY-SEQUENCE:");
            crate::text::push_u64(output, self.discontinuity_sequence_number);
            output.append("\n");
        }
        if self.finished {
            output.append("#EXT-X-ENDLIST");
            output.append("\n");
        }
        if let Option::Some(playlist_type) = &self.playlist_type {
            match playlist_type {
                PlaylistType::Event => output.append("#EXT-X-PLAYLIST-TYPE:EVENT"),
                PlaylistType::Vod => output.append("#EXT-X-PLAYLIST-TYPE:VOD"),
            }
            output.append("\n");
        }
        if self.iframes_only {
            output.append("#EXT-X-I-FRAMES-ONLY");
            output.append("\n");
        }
        if let Option::Some(part_information) = &self.part_information {
            output.append("#EXT-X-PART-INF:PART-TARGET=");
            part_information.part_target_duration.serialize(output);
            output.append("\n");
        }
        if self.playlist_delta_updates_information.is_some() || self.hold_back_seconds.is_some()
            || self.part_information.is_some() || self.supports_blocking_playlist_reloads {
            let part_hold_back: Option<Decimal> = match &self.part_information {
                Option::Some(info) => Option::Some(info.part_hold_back_seconds),
                Option::None => Option::None,
            };
            Tag::serialize_x_server_control(
                output,
                &self.playlist_delta_updates_information,
                &self.hold_back_seconds,
                &part_hold_back,
                self.supports_blocking_playlist_reloads,
            );
            output.append("\n");
        }
    }

    fn push_segments(&self, output: &mut String)
        ensures
            final(output)@ == old(output)@ + spec_segments_chars(self.segments@),
    {
        broadcast use lemma_add_assoc;

        let last_media_segment = MediaSegment {
            uri: String::new(),
            duration_seconds: FloatOrInteger::Integer(0),
            title: String::new(),
            byte_range_or_bitrate: Option::None,
            is_discontinuity: false,
            encryption: Option::None,
            media_initialization_section: Option::None,
            absolute_time: Option::None,
            is_gap: false,
            parts: Vec::new(),
        };
        let ghost base = output@;
        let n = self.segments.len();
        let mut i: usize = 0;
        while i < n
            invariant
                0 <= i <= n,
                n == self.segments@.len(),
                last_media_segment.byte_range_or_bitrate is None,
                last_media_segment.encryption is None,
                last_media_segment.media_initialization_section is None,
                output@ == base + spec_segments_chars(self.segments@.take(i as int)),
            decreases n - i,
        {
            broadcast use lemma_add_assoc;

            let segment = &self.segments[i];
            if i == 0 {
                segment.serialize(&last_media_segment, output);
            } else {
                segment.serialize(&self.segments[i - 1], output);
            }
            proof {
                assert(self.segments@.take(i + 1).drop_last() =~= self.segments@.take(i as int));
                assert(self.segments@.take(i + 1).last() == self.segments@[i as int]);
                if i > 0 {
                    assert(self.segments@.take(i + 1)[i - 1] == self.segments@[i - 1]);
                }
            }
            i += 1;
        }
        proof {
            assert(self.segments@.take(n as int) =~= self.segments@);
        }
    }

    /// Serializes the `MediaPlaylist` as an extended M3U playlist into
    /// `output`. Guaranteed to write valid UTF-8 only.
    ///
    /// # Note
    ///
    /// This method is not guaranteed to write a valid M3U playlist. It's
    /// your job to create valid input.
    pub fn serialize(&self, output: &mut String)
        ensures
            final(output)@ == old(output)@ + self.spec_serialize(),
    {
        broadcast use lemma_add_assoc;

        self.push_head1(output);
        self.push_head2(output);
        self.metadata.serialize(output);
        self.push_segments(output);
    }
}

/// The playback-priority attributes: `DEFAULT` implies `AUTOSELECT`, and
/// an unspecified priority writes nothing.
pub open spec fn spec_priority_chars(priority: RenditionPlaybackPriority) -> Seq<char> {
    match priority {
        RenditionPlaybackPriority::Default => ",DEFAULT=YES,AUTOSELECT=YES"@,
        RenditionPlaybackPriority::AutoSelect => ",AUTOSELECT=YES"@,
        RenditionPlaybackPriority::Unspecified => Seq::<char>::empty(),
    }
}

/// The attributes shared by every rendition kind, from `GROUP-ID` through
/// the playback priority.
pub open spec fn spec_rendition_info_chars(group_id: String, info: RenditionInfo) -> Seq<char> {
    ",GROUP-ID=\""@ + group_id@ + "\""@ + crate::tags::spec_opt_quoted(
        ",LANGUAGE=\""@,
        info.language,
    ) + crate::tags::spec_opt_quoted(",ASSOC-LANGUAGE=\""@, info.assoc_language) + ",NAME=\""@
        + info.name@ + "\""@ + crate::tags::spec_opt_quoted(
        ",STABLE-RENDITION-ID=\""@,
        info.stable_rendition_id,
    ) + spec_priority_chars(info.priority)
}

/// The `CHARACTERISTICS` attribute, suppressed when the list is empty.
pub open spec fn spec_characteristics_chars(characteristics: Seq<String>) -> Seq<char> {
    if characteristics.len() == 0 {
        Seq::<char>::empty()
    } else {
        ",CHARACTERISTICS=\""@ + crate::text::spec_join_strs(characteristics, ","@) + "\""@
    }
}

/// The EXT-X-MEDIA line of a video rendition.
#[verifier::opaque]
pub open spec fn spec_video_rendition_chars(group_id: String, r: VideoRendition) -> Seq<char> {
    "#EXT-X-MEDIA:TYPE=VIDEO"@ + crate::tags::spec_opt_quoted(",URI=\""@, r.uri)
        + spec_rendition_info_chars(group_id, r.info) + spec_characteristics_chars(
        r.info.characteristics@,
    ) + "\n"@
}

/// The EXT-X-MEDIA line of an audio rendition.
#[verifier::opaque]
pub open spec fn spec_audio_rendition_chars(group_id: String, r: AudioRendition) -> Seq<char> {
    "#EXT-X-MEDIA:TYPE=AUDIO"@ + crate::tags::spec_opt_quoted(",URI=\""@, r.uri)
        + spec_rendition_info_chars(group_id, r.info) + (match r.bit_depth {
        Option::Some(bit_depth) => ",BIT-DEPTH="@ + crate::text::spec_dec(bit_depth as nat),
        Option::None => Seq::<char>::empty(),
    }) + (match r.sample_rate {
        Option::Some(sample_rate) => ",SAMPLE-RATE="@ + crate::text::spec_dec(sample_rate as nat),
        Option::None => Seq::<char>::empty(),
    }) + spec_characteristics_chars(r.info.characteristics@) + (match r.channels {
        Option::Some(channels) => ",CHANNELS=\""@ + crate::tags::spec_channels_chars(channels)
            + "\""@,
        Option::None => Seq::<char>::empty(),
    }) + "\n"@
}

/// The EXT-X-MEDIA line of a subtitle rendition.
#[verifier::opaque]
pub open spec fn spec_subtitle_rendition_chars(group_id: String, r: SubtitleRendition) -> Seq<
    char,
> {
    "#EXT-X-MEDIA:TYPE=SUBTITLES,URI=\""@ + r.uri@ + "\""@ + spec_rendition_info_chars(
        group_id,
        r.info,
    ) + (if r.forced {
        ",FORCED=YES"@
    } else {
        Seq::<char>::empty()
    }) + spec_characteristics_chars(r.info.characteristics@) + "\n"@
}

/// The EXT-X-MEDIA line of a closed caption rendition.
#[verifier::opaque]
pub open spec fn spec_cc_rendition_chars(group_id: String, r: ClosedCaptionRendition) -> Seq<
    char,
> {
    "#EXT-X-MEDIA:TYPE=CLOSED-CAPTIONS"@ + spec_rendition_info_chars(group_id, r.info) + (
    match r.in_stream_id {
        InStreamId::Cc1 => ",INSTREAM-ID=\"CC1\""@,
        InStreamId::Cc2 => ",INSTREAM-ID=\"CC2\""@,
        InStreamId::Cc3 => ",INSTREAM-ID=\"CC3\""@,
        InStreamId::Cc4 => ",INSTREAM-ID=\"CC4\""@,
        InStreamId::Service(id) => ",INSTREAM-ID=\"SERVICE"@ + crate::text::spec_dec(id as nat)
            + "\""@,
    }) + spec_characteristics_chars(r.info.characteristics@) + "\n"@
}

pub open spec fn spec_video_renditions_chars(
    group_id: String,
    rs: Seq<VideoRendition>,
) -> Seq<char>
    decreases rs.len(),
{
    if rs.len() == 0 {
        Seq::<char>::empty()
    } else {
        spec_video_renditions_chars(group_id, rs.drop_last()) + spec_video_rendition_chars(
            group_id,
            rs.last(),
        )
    }
}

pub open spec fn spec_audio_renditions_chars(
    group_id: String,
    rs: Seq<AudioRendition>,
) -> Seq<char>
    decreases rs.len(),
{
    if rs.len() == 0 {
        Seq::<char>::empty()
    } else {
        spec_audio_renditions_chars(group_id, rs.drop_last()) + spec_audio_rendition_chars(
            group_id,
            rs.last(),
        )
    }
}

pub open spec fn spec_subtitle_renditions_chars(
    group_id: String,
    rs: Seq<SubtitleRendition>,
) -> Seq<char>
    decreases rs.len(),
{
    if rs.len() == 0 {
        Seq::<char>::empty()
    } else {
        spec_subtitle_renditions_chars(group_id, rs.drop_last()) + spec_subtitle_rendition_chars(
            group_id,
            rs.last(),
        )
    }
}

pub open spec fn spec_cc_renditions_chars(
    group_id: String,
    rs: Seq<ClosedCaptionRendition>,
) -> Seq<char>
    decreases rs.len(),
{
    if rs.len() == 0 {
        Seq::<char>::empty()
    } else {
        spec_cc_renditions_chars(group_id, rs.drop_last()) + spec_cc_rendition_chars(
            group_id,
            rs.last(),
        )
    }
}

fn push_rendition_info(output: &mut String, group_id: &String, info: &RenditionInfo)
    ensures
        final(output)@ == old(output)@ + spec_rendition_info_chars(*group_id, *info),
{
    broadcast use lemma_add_assoc, lemma_add_empty_left, lemma_add_empty_right;

    crate::text::push_quoted_value(output, ",GROUP-ID=\"", group_id.as_str());
    if let Option::Some(language) = &info.language {
        crate::text::push_quoted_value(output, ",LANGUAGE=\"", language.as_str());
    }
    if let Option::Some(assoc_language) = &info.assoc_language {
        crate::text::push_quoted_value(output, ",ASSOC-LANGUAGE=\"", assoc_language.as_str());
    }
    crate::text::push_quoted_value(output, ",NAME=\"", info.name.as_str());
    if let Option::Some(id) = &info.stable_rendition_id {
        crate::text::push_quoted_value(output, ",STABLE-RENDITION-ID=\"", id.as_str());
    }
    match info.priority {
        RenditionPlaybackPriority::Default => output.append(",DEFAULT=YES,AUTOSELECT=YES"),
        RenditionPlaybackPriority::AutoSelect => output.append(",AUTOSELECT=YES"),
        RenditionPlaybackPriority::Unspecified => {},
    }
}

fn push_characteristics(output: &mut String, characteristics: &Vec<String>)
    ensures
        final(output)@ == old(output)@ + spec_characteristics_chars(characteristics@),
{
    broadcast use lemma_add_assoc;

    if characteristics.len() > 0 {
        output.append(",CHARACTERISTICS=\"");
        crate::text::push_join_strs(output, characteristics, ",");
        output.append("\"");
    }
}

fn serialize_video_rendition(output: &mut String, group_id: &String, r: &VideoRendition)
    ensures
        final(output)@ == old(output)@ + spec_video_rendition_chars(*group_id, *r),
{
    broadcast use lemma_add_assoc, lemma_add_empty_left, lemma_add_empty_right;

    proof {
        reveal(spec_video_rendition_chars);
    }

    output.append("#EXT-X-MEDIA:TYPE=VIDEO");
    if let Option::Some(uri) = &r.uri {
        crate::text::push_quoted_value(output, ",URI=\"", uri.as_str());
    }
    push_rendition_info(output, group_id, &r.info);
    push_characteristics(output, &r.info.characteristics);
    output.append("\n");
}

#[verifier::rlimit(60)]
fn serialize_audio_rendition(output: &mut String, group_id: &String, r: &AudioRendition)
    ensures
        final(output)@ == old(output)@ + spec_audio_rendition_chars(*group_id, *r),
{
    broadcast use lemma_add_assoc, lemma_add_empty_left, lemma_add_empty_right;

    proof {
        reveal(spec_audio_rendition_chars);
    }

    output.append("#EXT-X-MEDIA:TYPE=AUDIO");
    if let Option::Some(uri) = &r.uri {
        crate::text::push_quoted_value(output, ",URI=\"", uri.as_str());
    }
    push_rendition_info(output, group_id, &r.info);
    if let Option::Some(bit_depth) = r.bit_depth {
        output.append(",BIT-DEPTH=");
        crate::text::push_u64(output, bit_depth);
    }
    if let Option::Some(sample_rate) = r.sample_rate {
        output.append(",SAMPLE-RATE=");
        crate::text::push_u64(output, sample_rate);
    }
    push_characteristics(output, &r.info.characteristics);
    if let Option::Some(channels) = &r.channels {
        output.append(",CHANNELS=\"");
        Tag::serialize_channels(output, channels);
        output.append("\"");
    }
    output.append("\n");
}

fn serialize_subtitle_rendition(output: &mut String, group_id: &String, r: &SubtitleRendition)
    ensures
        final(output)@ == old(output)@ + spec_subtitle_rendition_chars(*group_id, *r),
{
    broadcast use lemma_add_assoc, lemma_add_empty_left, lemma_add_empty_right;

    proof {
        reveal(spec_subtitle_rendition_chars);
    }

    crate::text::push_quoted_value(output, "#EXT-X-MEDIA:TYPE=SUBTITLES,URI=\"", r.uri.as_str());
    push_rendition_info(output, group_id, &r.info);
    if r.forced {
        output.append(",FORCED=YES");
    }
    push_characteristics(output, &r.info.characteristics);
    output.append("\n");
}

fn serialize_cc_rendition(output: &mut String, group_id: &String, r: &ClosedCaptionRendition)
    ensures
        final(output)@ == old(output)@ + spec_cc_rendition_chars(*group_id, *r),
{
    broadcast use lemma_add_assoc, lemma_add_empty_left, lemma_add_empty_right;

    proof {
        reveal(spec_cc_rendition_chars);
    }

    output.append("#EXT-X-MEDIA:TYPE=CLOSED-CAPTIONS");
    push_rendition_info(output, group_id, &r.info);
    match &r.in_stream_id {
        InStreamId::Cc1 => output.append(",INSTREAM-ID=\"CC1\""),
        InStreamId::Cc2 => output.append(",INSTREAM-ID=\"CC2\""),
        InStreamId::Cc3 => output.append(",INSTREAM-ID=\"CC3\""),
        InStreamId::Cc4 => output.append(",INSTREAM-ID=\"CC4\""),
        InStreamId::Service(id) => {
            output.append(",INSTREAM-ID=\"SERVICE");
            crate::text::push_u64(output, *id as u64);
            output.append("\"");
        },
    }
    push_characteristics(output, &r.info.characteristics);
    output.append("\n");
}

impl RenditionGroup {
    /// One EXT-X-MEDIA line per rendition of the group, in order.
    pub open spec fn spec_chars(&self) -> Seq<char> {
        match self {
            RenditionGroup::Video { group_id, renditions } => spec_video_renditions_chars(
                *group_id,
                renditions@,
            ),
            RenditionGroup::Audio { group_id, renditions } => spec_audio_renditions_chars(
                *group_id,
                renditions@,
            ),
            RenditionGroup::Subtitles { group_id, renditions } => spec_subtitle_renditions_chars(
                *group_id,
                renditions@,
            ),
            RenditionGroup::ClosedCaptions { group_id, renditions } => spec_cc_renditions_chars(
                *group_id,
                renditions@,
            ),
        }
    }

    pub fn serialize(&self, output: &mut String)
        ensures
            final(output)@ == old(output)@ + self.spec_chars(),
    {
        broadcast use lemma_add_assoc;

        match self {
            RenditionGroup::Video { group_id, renditions } => {
                let ghost base = output@;
                let n = renditions.len();
                let mut i: usize = 0;
                while i < n
                    invariant
                        0 <= i <= n,
                        n == renditions@.len(),
                        output@ == base + spec_video_renditions_chars(
                            *group_id,
                            renditions@.take(i as int),
                        ),
                    decreases n - i,
                {
                    broadcast use lemma_add_assoc;

                    serialize_video_rendition(output, group_id, &renditions[i]);
                    proof {
                        assert(renditions@.take(i + 1).drop_last() =~= renditions@.take(i as int));
                        assert(renditions@.take(i + 1).last() == renditions@[i as int]);
                    }
                    i += 1;
                }
                proof {
                    assert(renditions@.take(n as int) =~= renditions@);
                }
            },
            RenditionGroup::Audio { group_id, renditions } => {
                let ghost base = output@;
                let n = renditions.len();
                let mut i: usize = 0;
                while i < n
                    invariant
                        0 <= i <= n,
                        n == renditions@.len(),
                        output@ == base + spec_audio_renditions_chars(
                            *group_id,
                            renditions@.take(i as int),
                        ),
                    decreases n - i,
                {
                    broadcast use lemma_add_assoc;

                    serialize_audio_rendition(output, group_id, &renditions[i]);
                    proof {
                        assert(renditions@.take(i + 1).drop_last() =~= renditions@.take(i as int));
                        assert(renditions@.take(i + 1).last() == renditions@[i as int]);
                    }
                    i += 1;
                }
                proof {
                    assert(renditions@.take(n as int) =~= renditions@);
                }
            },
            RenditionGroup::Subtitles { group_id, renditions } => {
                let ghost base = output@;
                let n = renditions.len();
                let mut i: usize = 0;
                while i < n
                    invariant
                        0 <= i <= n,
                        n == renditions@.len(),
                        output@ == base + spec_subtitle_renditions_chars(
                            *group_id,
                            renditions@.take(i as int),
                        ),
                    decreases n - i,
                {
                    broadcast use lemma_add_assoc;

                    serialize_subtitle_rendition(output, group_id, &renditions[i]);
                    proof {
                        assert(renditions@.take(i + 1).drop_last() =~= renditions@.take(i as int));
                        assert(renditions@.take(i + 1).last() == renditions@[i as int]);
                    }
                    i += 1;
                }
                proof {
                    assert(renditions@.take(n as int) =~= renditions@);
                }
            },
            RenditionGroup::ClosedCaptions { group_id, renditions } => {
                let ghost base = output@;
                let n = renditions.len();
                let mut i: usize = 0;
                while i < n
                    invariant
                        0 <= i <= n,
                        n == renditions@.len(),
                        output@ == base + spec_cc_renditions_chars(
                            *group_id,
                            renditions@.take(i as int),
                        ),
                    decreases n - i,
                {
                    broadcast use lemma_add_assoc;

                    serialize_cc_rendition(output, group_id, &renditions[i]);
                    proof {
                        assert(renditions@.take(i + 1).drop_last() =~= renditions@.take(i as int));
                        assert(renditions@.take(i + 1).last() == renditions@[i as int]);
                    }
                    i += 1;
                }
                proof {
                    assert(renditions@.take(n as int) =~= renditions@);
                }
            },
        }
    }
}

impl VariantStream {
    /// The EXT-X-STREAM-INF line and its URI line.
    #[verifier::opaque]
    pub open spec fn spec_chars(&self) -> Seq<char> {
        crate::tags::spec_x_stream_inf_chars(
            self.stream_info,
            self.frame_rate,
            self.audio_group_id,
            self.video_group_id,
            self.subtitles_group_id,
            self.closed_captions_group_id,
            self.uri,
        ) + "\n"@
    }

    pub fn serialize(&self, output: &mut String)
        ensures
            final(output)@ == old(output)@ + self.spec_chars(),
    {
        broadcast use lemma_add_assoc;

        proof {
            reveal(VariantStream::spec_chars);
        }
        Tag::serialize_x_stream_inf(
            output,
            &self.stream_info,
            &self.frame_rate,
            &self.audio_group_id,
            &self.video_group_id,
            &self.subtitles_group_id,
            &self.closed_captions_group_id,
            &self.uri,
        );
        output.append("\n");
    }
}

impl IFrameStream {
    /// The EXT-X-I-FRAME-STREAM-INF line.
    #[verifier::opaque]
    pub open spec fn spec_chars(&self) -> Seq<char> {
        crate::tags::spec_x_i_frame_stream_inf_chars(
            self.stream_info,
            self.video_group_id,
            self.uri,
        ) + "\n"@
    }

    pub fn serialize(&self, output: &mut String)
        ensures
            final(output)@ == old(output)@ + self.spec_chars(),
    {
        broadcast use lemma_add_assoc;

        proof {
            reveal(IFrameStream::spec_chars);
        }
        Tag::serialize_x_i_frame_stream_inf(
            output,
            &self.stream_info,
            &self.video_group_id,
            &self.uri,
        );
        output.append("\n");
    }
}

pub open spec fn spec_groups_chars(groups: Seq<RenditionGroup>) -> Seq<char>
    decreases groups.len(),
{
    if groups.len() == 0 {
        Seq::<char>::empty()
    } else {
        spec_groups_chars(groups.drop_last()) + groups.last().spec_chars()
    }
}

pub open spec fn spec_variant_streams_chars(streams: Seq<VariantStream>) -> Seq<char>
    decreases streams.len(),
{
    if streams.len() == 0 {
        Seq::<char>::empty()
    } else {
        spec_variant_streams_chars(streams.drop_last()) + streams.last().spec_chars()
    }
}

pub open spec fn spec_i_frame_streams_chars(streams: Seq<IFrameStream>) -> Seq<char>
    decreases streams.len(),
{
    if streams.len() == 0 {
        Seq::<char>::empty()
    } else {
        spec_i_frame_streams_chars(streams.drop_last()) + streams.last().spec_chars()
    }
}

pub open spec fn spec_session_data_chars(items: Seq<SessionData>) -> Seq<char>
    decreases items.len(),
{
    if items.len() == 0 {
        Seq::<char>::empty()
    } else {
        spec_session_data_chars(items.drop_last()) + crate::tags::spec_x_session_data_chars(
            items.last(),
        ) + "\n"@
    }
}

pub open spec fn spec_session_keys_chars(keys: Seq<EncryptionMethod>) -> Seq<char>
    decreases keys.len(),
{
    if keys.len() == 0 {
        Seq::<char>::empty()
    } else {
        spec_session_keys_chars(keys.drop_last()) + "#EXT-X-SESSION-KEY:"@
            + keys.last().spec_chars() + "\n"@
    }
}

pub open spec fn spec_content_steering_chars(items: Seq<ContentSteering>) -> Seq<char>
    decreases items.len(),
{
    if items.len() == 0 {
        Seq::<char>::empty()
    } else {
        spec_content_steering_chars(items.drop_last())
            + crate::tags::spec_x_content_steering_chars(items.last()) + "\n"@
    }
}

/// The closed caption rendition group contains a rendition addressed by a
/// numbered service block.
pub open spec fn group_has_service_id(group: RenditionGroup) -> bool {
    match group {
        RenditionGroup::ClosedCaptions { renditions, .. } => exists|j: int|
            0 <= j < renditions@.len() && (#[trigger] renditions@[j].in_stream_id) is Service,
        _ => false,
    }
}

pub open spec fn groups_have_service_id(groups: Seq<RenditionGroup>) -> bool {
    exists|i: int| 0 <= i < groups.len() && group_has_service_id(#[trigger] groups[i])
}

/// Some variant stream declares a required video layout.
pub open spec fn streams_have_video_layout(streams: Seq<VariantStream>) -> bool {
    exists|i: int|
        0 <= i < streams.len() && (#[trigger] streams[i]).stream_info.required_video_layout@.len()
            > 0
}

fn cc_renditions_have_service(renditions: &Vec<ClosedCaptionRendition>) -> (r: bool)
    ensures
        r == exists|j: int|
            0 <= j < renditions@.len() && (#[trigger] renditions@[j].in_stream_id) is Service,
{
    let n = renditions.len();
    let mut i: usize = 0;
    while i < n
        invariant
            0 <= i <= n,
            n == renditions@.len(),
            forall|k: int| 0 <= k < i ==> !((#[trigger] renditions@[k].in_stream_id) is Service),
        decreases n - i,
    {
        if let InStreamId::Service(_) = &renditions[i].in_stream_id {
            return true;
        }
        i += 1;
    }
    false
}

impl MultivariantPlaylist {
    /// The minimum compatibility version the playlist must declare,
    /// derived from which optional features appear anywhere in the model.
    pub open spec fn spec_version(&self) -> u8 {
        if streams_have_video_layout(self.variant_streams@) {
            12
        } else if vars_have_query_parameter(self.variables@) {
            11
        } else if self.variables@.len() > 0 {
            8
        } else if groups_have_service_id(self.renditions_groups@) {
            7
        } else {
            1
        }
    }

    /// Computes [`MultivariantPlaylist::spec_version`]: a ratchet that
    /// starts at 1 and rises as features are found.
    pub fn get_version(&self) -> (version: u8)
        ensures
            version == self.spec_version(),
    {
        let mut version: u8 = 1;
        let gn = self.renditions_groups.len();
        let mut i: usize = 0;
        let mut found_service = false;
        while i < gn && !found_service
            invariant
                0 <= i <= gn,
                gn == self.renditions_groups@.len(),
                !found_service ==> forall|k: int|
                    0 <= k < i ==> !group_has_service_id(#[trigger] self.renditions_groups@[k]),
                found_service ==> groups_have_service_id(self.renditions_groups@),
            decreases gn - i,
        {
            if let RenditionGroup::ClosedCaptions { renditions, .. } = &self.renditions_groups[i] {
                if cc_renditions_have_service(renditions) {
                    found_service = true;
                    proof {
                        assert(group_has_service_id(self.renditions_groups@[i as int]));
                    }
                }
            }
            i += 1;
        }
        if found_service {
            version = 7;
        }
        if self.variables.len() > 0 {
            version = 8;
        }
        let ghost version_before_vars = version;
        let vn = self.variables.len();
        let mut k: usize = 0;
        while k < vn
            invariant
                0 <= k <= vn,
                vn == self.variables@.len(),
                version == if vars_have_query_parameter(self.variables@.take(k as int)) {
                    11u8
                } else {
                    version_before_vars
                },
            decreases vn - k,
        {
            if let DefinitionType::QueryParameter { .. } = &self.variables[k] {
                version = 11;
            }
            proof {
                lemma_query_parameter_take_step(self.variables@, k as int);
            }
            k += 1;
        }
        proof {
            assert(self.variables@.take(vn as int) =~= self.variables@);
        }
        let sn = self.variant_streams.len();
        let mut j: usize = 0;
        let mut found_layout = false;
        while j < sn && !found_layout
            invariant
                0 <= j <= sn,
                sn == self.variant_streams@.len(),
                !found_layout ==> forall|k: int|
                    0 <= k < j ==> (#[trigger] self.variant_streams@[k])
                        .stream_info.required_video_layout@.len() == 0,
                found_layout ==> streams_have_video_layout(self.variant_streams@),
            decreases sn - j,
        {
            if self.variant_streams[j].stream_info.required_video_layout.len() > 0 {
                found_layout = true;
                proof {
                    assert((self.variant_streams@[j as int])
                        .stream_info.required_video_layout@.len() > 0);
                }
            }
            j += 1;
        }
        if found_layout {
            version = 12;
        }
        version
    }

    /// The playlist-scoped head lines: the file marker, the version when
    /// above the default, the variable definitions, the
    /// independent-segments marker and the start offset.
    pub open spec fn spec_head_chars(&self) -> Seq<char> {
        "#EXTM3U"@ + "\n"@ + (if self.spec_version() != 1 {
            "#EXT-X-VERSION:"@ + crate::text::spec_dec(self.spec_version() as nat) + "\n"@
        } else {
            Seq::<char>::empty()
        }) + spec_defines_chars(self.variables@) + (if self.is_independent_segments {
            "#EXT-X-INDEPENDENT-SEGMENTS"@ + "\n"@
        } else {
            Seq::<char>::empty()
        }) + (match self.start_offset {
            Option::Some(offset) => "#EXT-X-START:TIME-OFFSET="@
                + offset.offset_in_seconds.spec_chars() + (if offset.is_precise {
                ",PRECISE=YES"@
            } else {
                Seq::<char>::empty()
            }) + "\n"@,
            Option::None => Seq::<char>::empty(),
        })
    }

    /// The playlist's full rendering.
    pub open spec fn spec_serialize(&self) -> Seq<char> {
        self.spec_head_chars() + spec_groups_chars(self.renditions_groups@)
            + spec_variant_streams_chars(self.variant_streams@) + spec_i_frame_streams_chars(
            self.i_frame_streams@,
        ) + spec_session_data_chars(self.session_data@) + spec_session_keys_chars(
            self.session_key@,
        ) + spec_content_steering_chars(self.content_steering@)
    }

    fn push_head(&self, output: &mut String)
        ensures
            final(output)@ == old(output)@ + self.spec_head_chars(),
    {
        broadcast use lemma_add_assoc, lemma_add_empty_left, lemma_add_empty_right;

        output.append("#EXTM3U");
        output.append("\n");
        let version = self.get_version();
        if version != 1 {
            output.append("#EXT-X-VERSION:");
            crate::text::push_u64(output, version as u64);
            output.append("\n");
        }
        let ghost base = output@;
        let n = self.variables.len();
        let mut i: usize = 0;
        while i < n
            invariant
                0 <= i <= n,
                n == self.variables@.len(),
                output@ == base + spec_defines_chars(self.variables@.take(i as int)),
            decreases n - i,
        {
            broadcast use lemma_add_assoc;

            Tag::serialize_define(output, &self.variables[i]);
            output.append("\n");
            proof {
                assert(self.variables@.take(i + 1).drop_last() =~= self.variables@.take(i as int));
                assert(self.variables@.take(i + 1).last() == self.variables@[i as int]);
            }
            i += 1;
        }
        proof {
            assert(self.variables@.take(n as int) =~= self.variables@);
        }
        if self.is_independent_segments {
            output.append("#EXT-X-INDEPENDENT-SEGMENTS");
            output.append("\n");
        }
        if let Option::Some(offset) = &self.start_offset {
            output.append("#EXT-X-START:TIME-OFFSET=");
            offset.offset_in_seconds.serialize(output);
            if offset.is_precise {
                output.append(",PRECISE=YES");
            }
            output.append("\n");
        }
    }

    fn push_groups(&self, output: &mut String)
        ensures
            final(output)@ == old(output)@ + spec_groups_chars(self.renditions_groups@),
    {
        broadcast use lemma_add_assoc;

        let ghost base = output@;
        let n = self.renditions_groups.len();
        let mut i: usize = 0;
        while i < n
            invariant
                0 <= i <= n,
                n == self.renditions_groups@.len(),
                output@ == base + spec_groups_chars(self.renditions_groups@.take(i as int)),
            decreases n - i,
        {
            broadcast use lemma_add_assoc;

            self.renditions_groups[i].serialize(output);
            proof {
                assert(self.renditions_groups@.take(i + 1).drop_last()
                    =~= self.renditions_groups@.take(i as int));
                assert(self.renditions_groups@.take(i + 1).last()
                    == self.renditions_groups@[i as int]);
            }
            i += 1;
        }
        proof {
            assert(self.renditions_groups@.take(n as int) =~= self.renditions_groups@);
        }
    }

    fn push_variant_streams(&self, output: &mut String)
        ensures
            final(output)@ == old(output)@ + spec_variant_streams_chars(self.variant_streams@),
    {
        broadcast use lemma_add_assoc;

        let ghost base = output@;
        let n = self.variant_streams.len();
        let mut i: usize = 0;
        while i < n
            invariant
                0 <= i <= n,
                n == self.variant_streams@.len(),
                output@ == base + spec_variant_streams_chars(self.variant_streams@.take(i as int)),
            decreases n - i,
        {
            broadcast use lemma_add_assoc;

            self.variant_streams[i].serialize(output);
            proof {
                assert(self.variant_streams@.take(i + 1).drop_last()
                    =~= self.variant_streams@.take(i as int));
                assert(self.variant_streams@.take(i + 1).last()
                    == self.variant_streams@[i as int]);
            }
            i += 1;
        }
        proof {
            assert(self.variant_streams@.take(n as int) =~= self.variant_streams@);
        }
    }

    fn push_i_frame_streams(&self, output: &mut String)
        ensures
            final(output)@ == old(output)@ + spec_i_frame_streams_chars(self.i_frame_streams@),
    {
        broadcast use lemma_add_assoc;

        let ghost base = output@;
        let n = self.i_frame_streams.len();
        let mut i: usize = 0;
        while i < n
            invariant
                0 <= i <= n,
                n == self.i_frame_streams@.len(),
                output@ == base + spec_i_frame_streams_chars(self.i_frame_streams@.take(i as int)),
            decreases n - i,
        {
            broadcast use lemma_add_assoc;

            self.i_frame_streams[i].serialize(output);
            proof {
                assert(self.i_frame_streams@.take(i + 1).drop_last()
                    =~= self.i_frame_streams@.take(i as int));
                assert(self.i_frame_streams@.take(i + 1).last()
                    == self.i_frame_streams@[i as int]);
            }
            i += 1;
        }
        proof {
            assert(self.i_frame_streams@.take(n as int) =~= self.i_frame_streams@);
        }
    }

    fn push_session_data(&self, output: &mut String)
        ensures
            final(output)@ == old(output)@ + spec_session_data_chars(self.session_data@),
    {
        broadcast use lemma_add_assoc;

        let ghost base = output@;
        let n = self.session_data.len();
        let mut i: usize = 0;
        while i < n
            invariant
                0 <= i <= n,
                n == self.session_data@.len(),
                output@ == base + spec_session_data_chars(self.session_data@.take(i as int)),
            decreases n - i,
        {
            broadcast use lemma_add_assoc;

            self.session_data[i].serialize(output);
            proof {
                assert(self.session_data@.take(i + 1).drop_last() =~= self.session_data@.take(
                    i as int,
                ));
                assert(self.session_data@.take(i + 1).last() == self.session_data@[i as int]);
            }
            i += 1;
        }
        proof {
            assert(self.session_data@.take(n as int) =~= self.session_data@);
        }
    }

    fn push_session_keys(&self, output: &mut String)
        ensures
            final(output)@ == old(output)@ + spec_session_keys_chars(self.session_key@),
    {
        broadcast use lemma_add_assoc;

        let ghost base = output@;
        let n = self.session_key.len();
        let mut i: usize = 0;
        while i < n
            invariant
                0 <= i <= n,
                n == self.session_key@.len(),
                output@ == base + spec_session_keys_chars(self.session_key@.take(i as int)),
            decreases n - i,
        {
            broadcast use lemma_add_assoc;

            output.append("#EXT-X-SESSION-KEY:");
            self.session_key[i].serialize(output);
            output.append("\n");
            proof {
                assert(self.session_key@.take(i + 1).drop_last() =~= self.session_key@.take(
                    i as int,
                ));
                assert(self.session_key@.take(i + 1).last() == self.session_key@[i as int]);
            }
            i += 1;
        }
        proof {
            assert(self.session_key@.take(n as int) =~= self.session_key@);
        }
    }

    fn push_content_steering(&self, output: &mut String)
        ensures
            final(output)@ == old(output)@ + spec_content_steering_chars(self.content_steering@),
    {
        broadcast use lemma_add_assoc;

        let ghost base = output@;
        let n = self.content_steering.len();
        let mut i: usize = 0;
        while i < n
            invariant
                0 <= i <= n,
                n == self.content_steering@.len(),
                output@ == base + spec_content_steering_chars(
                    self.content_steering@.take(i as int),
                ),
            decreases n - i,
        {
            broadcast use lemma_add_assoc;

            Tag::serialize_x_content_steering(output, &self.content_steering[i]);
            output.append("\n");
            proof {
                assert(self.content_steering@.take(i + 1).drop_last()
                    =~= self.content_steering@.take(i as int));
                assert(self.content_steering@.take(i + 1).last()
                    == self.content_steering@[i as int]);
            }
            i += 1;
        }
        proof {
            assert(self.content_steering@.take(n as int) =~= self.content_steering@);
        }
    }

    /// Serializes the `MultivariantPlaylist` as an extended M3U playlist
    /// into `output`. Guaranteed to write valid UTF-8 only.
    ///
    /// # Note
    ///
    /// This method is not guaranteed to write a valid M3U playlist. It's
    /// your job to create valid input.
    pub fn serialize(&self, output: &mut String)
        ensures
            final(output)@ == old(output)@ + self.spec_serialize(),
    {
        broadcast use lemma_add_assoc;

        self.push_head(output);
        self.push_groups(output);
        self.push_variant_streams(output);
        self.push_i_frame_streams(output);
        self.push_session_data(output);
        self.push_session_keys(output);
        self.push_content_steering(output);
    }
}

impl SessionData {
    /// The EXT-X-SESSION-DATA line.
    pub open spec fn spec_chars(&self) -> Seq<char> {
        crate::tags::spec_x_session_data_chars(*self) + "\n"@
    }

    pub fn serialize(&self, output: &mut String)
        ensures
            final(output)@ == old(output)@ + self.spec_chars(),
    {
        broadcast use lemma_add_assoc;

        Tag::serialize_x_session_data(output, self);
        output.append("\n");
    }
}

/// Rendering is a function of the model alone: encoding the same
/// immutable Media Playlist twice yields byte-identical output.
pub proof fn lemma_media_serialize_deterministic(
    playlist: &MediaPlaylist,
    out1: Seq<char>,
    out2: Seq<char>,
)
    requires
        out1 == playlist.spec_serialize(),
        out2 == playlist.spec_serialize(),
    ensures
        out1 == out2,
{
}

/// Rendering is a function of the model alone: encoding the same
/// immutable Multivariant Playlist twice yields byte-identical output.
pub proof fn lemma_multivariant_serialize_deterministic(
    playlist: &MultivariantPlaylist,
    out1: Seq<char>,
    out2: Seq<char>,
)
    requires
        out1 == playlist.spec_serialize(),
        out2 == playlist.spec_serialize(),
    ensures
        out1 == out2,
{
}

/// A segment's rendering is its head, its byte-range-or-bitrate marker,
/// its key line, its map line and its tail, in that order.
pub proof fn lemma_segment_decomposition(
    seg: &MediaSegment,
    prev_bb: Option<ByteRangeOrBitrate>,
    prev_enc: Option<EncryptionMethod>,
    prev_mis: Option<MediaInitializationSection>,
)
    ensures
        seg.spec_chars(prev_bb, prev_enc, prev_mis) == seg.spec_head_chars() + seg.spec_bb_chars(
            prev_bb,
        ) + seg.spec_key_chars(prev_enc) + seg.spec_map_chars(prev_mis) + seg.spec_tail_chars(),
{
    reveal(MediaSegment::spec_chars);
}

/// The key line of a segment is suppressed exactly when its encryption
/// method equals the previous segment's; otherwise the segment carries
/// exactly one EXT-X-KEY line.
pub proof fn lemma_key_delta(seg: &MediaSegment, prev_enc: Option<EncryptionMethod>)
    ensures
        spec_enc_eq(seg.encryption, prev_enc) <==> seg.spec_key_chars(prev_enc) == Seq::<
            char,
        >::empty(),
        !spec_enc_eq(seg.encryption, prev_enc) ==> seg.spec_key_chars(prev_enc) == "#EXT-X-KEY:"@
            + (match seg.encryption {
            Option::Some(method) => method.spec_chars(),
            Option::None => "METHOD=NONE"@,
        }) + "\n"@,
{
    reveal_strlit("#EXT-X-KEY:");
    if !spec_enc_eq(seg.encryption, prev_enc) {
        assert(seg.spec_key_chars(prev_enc).len() >= "#EXT-X-KEY:"@.len());
    }
}

/// A segment carrying a bitrate marker never emits an EXT-X-BYTERANGE
/// line for it: its marker line is only ever an EXT-X-BITRATE line, and
/// only when the marker differs from the previous segment's.
pub proof fn lemma_bitrate_segment(
    seg: &MediaSegment,
    prev_bb: Option<ByteRangeOrBitrate>,
    kbps: u64,
)
    requires
        seg.byte_range_or_bitrate == Option::Some(ByteRangeOrBitrate::Bitrate(kbps)),
    ensures
        spec_bb_eq(seg.byte_range_or_bitrate, prev_bb) ==> seg.spec_bb_chars(prev_bb) == Seq::<
            char,
        >::empty(),
        !spec_bb_eq(seg.byte_range_or_bitrate, prev_bb) ==> seg.spec_bb_chars(prev_bb)
            == "#EXT-X-BITRATE:"@ + crate::text::spec_dec(kbps as nat) + "\n"@,
{
}

/// A Media Playlist with none of the versioned features infers version 1,
/// and the encoder then suppresses the EXT-X-VERSION line entirely.
pub proof fn lemma_media_version_no_features(playlist: &MediaPlaylist)
    requires
        !segs_have_iv(playlist.segments@),
        !segs_have_v5_key(playlist.segments@),
        !segs_have_float_duration(playlist.segments@),
        !segs_have_byte_range(playlist.segments@),
        !segs_have_map(playlist.segments@),
        !playlist.iframes_only,
        playlist.variables@.len() == 0,
        playlist.metadata.skip is None,
    ensures
        playlist.spec_version() == 1,
{
}

/// Adding features from the version table never decreases the inferred
/// version of a Media Playlist. The i-frames-only flag must be held
/// fixed: with a media initialization section present, setting it moves
/// the inferred version from 6 to 5.
pub proof fn lemma_media_version_monotone(p1: &MediaPlaylist, p2: &MediaPlaylist)
    requires
        segs_have_iv(p1.segments@) ==> segs_have_iv(p2.segments@),
        segs_have_v5_key(p1.segments@) ==> segs_have_v5_key(p2.segments@),
        segs_have_float_duration(p1.segments@) ==> segs_have_float_duration(p2.segments@),
        segs_have_byte_range(p1.segments@) ==> segs_have_byte_range(p2.segments@),
        segs_have_map(p1.segments@) ==> segs_have_map(p2.segments@),
        p1.iframes_only == p2.iframes_only,
        p1.variables@.len() > 0 ==> p2.variables@.len() > 0,
        vars_have_query_parameter(p1.variables@) ==> vars_have_query_parameter(p2.variables@),
        p1.metadata.skip is Some ==> p2.metadata.skip is Some,
        (match p1.metadata.skip {
            Option::Some(skip) => skip.recently_removed_dataranges@.len() > 0,
            Option::None => false,
        }) ==> (match p2.metadata.skip {
            Option::Some(skip) => skip.recently_removed_dataranges@.len() > 0,
            Option::None => false,
        }),
    ensures
        p1.spec_version() <= p2.spec_version(),
{
}

/// A Multivariant Playlist with none of the versioned features infers
/// version 1, and the encoder then suppresses the EXT-X-VERSION line.
pub proof fn lemma_multivariant_version_no_features(playlist: &MultivariantPlaylist)
    requires
        !groups_have_service_id(playlist.renditions_groups@),
        playlist.variables@.len() == 0,
        !streams_have_video_layout(playlist.variant_streams@),
    ensures
        playlist.spec_version() == 1,
{
}

/// Adding features from the version table never decreases the inferred
/// version of a Multivariant Playlist.
pub proof fn lemma_multivariant_version_monotone(
    p1: &MultivariantPlaylist,
    p2: &MultivariantPlaylist,
)
    requires
        groups_have_service_id(p1.renditions_groups@) ==> groups_have_service_id(
            p2.renditions_groups@,
        ),
        p1.variables@.len() > 0 ==> p2.variables@.len() > 0,
        vars_have_query_parameter(p1.variables@) ==> vars_have_query_parameter(p2.variables@),
        streams_have_video_layout(p1.variant_streams@) ==> streams_have_video_layout(
            p2.variant_streams@,
        ),
    ensures
        p1.spec_version() <= p2.spec_version(),
{
}

/// A video rendition's line is exactly the EXT-X-MEDIA tag of the
/// corresponding video media type.
#[verifier::rlimit(100)]
pub proof fn lemma_video_rendition_is_x_media(group_id: String, r: VideoRendition)
    ensures
        spec_video_rendition_chars(group_id, r) == crate::tags::spec_x_media_chars(
            MediaType::Video { uri: r.uri },
            group_id,
            r.info.language,
            r.info.assoc_language,
            r.info.name,
            r.info.stable_rendition_id,
            r.info.priority,
            r.info.characteristics@,
        ) + "\n"@,
{
    broadcast use lemma_add_assoc, lemma_add_empty_left, lemma_add_empty_right;

    reveal(spec_video_rendition_chars);
}

/// An audio rendition's line is exactly the EXT-X-MEDIA tag of the
/// corresponding audio media type.
#[verifier::rlimit(100)]
#[verifier::spinoff_prover]
pub proof fn lemma_audio_rendition_is_x_media(group_id: String, r: AudioRendition)
    ensures
        spec_audio_rendition_chars(group_id, r) == crate::tags::spec_x_media_chars(
            MediaType::Audio {
                uri: r.uri,
                channels: r.channels,
                bit_depth: r.bit_depth,
                sample_rate: r.sample_rate,
            },
            group_id,
            r.info.language,
            r.info.assoc_language,
            r.info.name,
            r.info.stable_rendition_id,
            r.info.priority,
            r.info.characteristics@,
        ) + "\n"@,
{
    broadcast use lemma_add_assoc, lemma_add_empty_left, lemma_add_empty_right;

    reveal(spec_audio_rendition_chars);
    let mt = MediaType::Audio {
        uri: r.uri,
        channels: r.channels,
        bit_depth: r.bit_depth,
        sample_rate: r.sample_rate,
    };
    assert(crate::tags::spec_x_media_head_chars(
        mt,
        group_id,
        r.info.language,
        r.info.assoc_language,
        r.info.name,
        r.info.stable_rendition_id,
    ) + crate::tags::spec_x_media_flags_chars(mt, r.info.priority)
        == "#EXT-X-MEDIA:TYPE=AUDIO"@ + crate::tags::spec_opt_quoted(",URI=\""@, r.uri)
        + spec_rendition_info_chars(group_id, r.info) + (match r.bit_depth {
        Option::Some(bit_depth) => ",BIT-DEPTH="@ + crate::text::spec_dec(bit_depth as nat),
        Option::None => Seq::<char>::empty(),
    }) + (match r.sample_rate {
        Option::Some(sample_rate) => ",SAMPLE-RATE="@ + crate::text::spec_dec(sample_rate as nat),
        Option::None => Seq::<char>::empty(),
    }));
    assert(crate::tags::spec_x_media_tail_chars(mt, r.info.characteristics@)
        == spec_characteristics_chars(r.info.characteristics@) + (match r.channels {
        Option::Some(channels) => ",CHANNELS=\""@ + crate::tags::spec_channels_chars(channels)
            + "\""@,
        Option::None => Seq::<char>::empty(),
    }));
}

/// A subtitle rendition's line is exactly the EXT-X-MEDIA tag of the
/// corresponding subtitles media type.
#[verifier::rlimit(100)]
pub proof fn lemma_subtitle_rendition_is_x_media(group_id: String, r: SubtitleRendition)
    ensures
        spec_subtitle_rendition_chars(group_id, r) == crate::tags::spec_x_media_chars(
            MediaType::Subtitles { uri: r.uri, forced: r.forced },
            group_id,
            r.info.language,
            r.info.assoc_language,
            r.info.name,
            r.info.stable_rendition_id,
            r.info.priority,
            r.info.characteristics@,
        ) + "\n"@,
{
    broadcast use lemma_add_assoc, lemma_add_empty_left, lemma_add_empty_right;

    reveal(spec_subtitle_rendition_chars);
}

/// A closed caption rendition's line is exactly the EXT-X-MEDIA tag of
/// the corresponding closed-captions media type.
#[verifier::rlimit(100)]
pub proof fn lemma_cc_rendition_is_x_media(group_id: String, r: ClosedCaptionRendition)
    ensures
        spec_cc_rendition_chars(group_id, r) == crate::tags::spec_x_media_chars(
            MediaType::ClosedCaptions { in_stream_id: r.in_stream_id },
            group_id,
            r.info.language,
            r.info.assoc_language,
            r.info.name,
            r.info.stable_rendition_id,
            r.info.priority,
            r.info.characteristics@,
        ) + "\n"@,
{
    broadcast use lemma_add_assoc, lemma_add_empty_left, lemma_add_empty_right;

    reveal(spec_cc_rendition_chars);
}

impl Default for MediaMetadata {
    fn default() -> (r: MediaMetadata)
        ensures
            r.date_ranges@.len() == 0,
            r.skip is None,
            r.preload_hints@.len() == 0,
            r.rendition_reports@.len() == 0,
    {
        MediaMetadata {
            date_ranges: Vec::new(),
            skip: Option::None,
            preload_hints: Vec::new(),
            rendition_reports: Vec::new(),
        }
    }
}

impl Default for MediaPlaylist {
    fn default() -> (r: MediaPlaylist)
        ensures
            r.segments@.len() == 0,
            r.start_offset is None,
            r.variables@.len() == 0,
            !r.is_independent_segments,
            r.target_duration == 0,
            r.first_media_sequence_number == 0,
            r.discontinuity_sequence_number == 0,
            !r.finished,
            r.playlist_type is None,
            r.hold_back_seconds is None,
            !r.iframes_only,
            r.playlist_delta_updates_information is None,
            !r.supports_blocking_playlist_reloads,
            r.part_information is None,
            r.metadata.date_ranges@.len() == 0,
            r.metadata.skip is None,
            r.metadata.preload_hints@.len() == 0,
            r.metadata.rendition_reports@.len() == 0,
    {
        MediaPlaylist {
            segments: Vec::new(),
            start_offset: Option::None,
            variables: Vec::new(),
            is_independent_segments: false,
            target_duration: 0,
            first_media_sequence_number: 0,
            discontinuity_sequence_number: 0,
            finished: false,
            playlist_type: Option::None,
            hold_back_seconds: Option::None,
            iframes_only: false,
            playlist_delta_updates_information: Option::None,
            supports_blocking_playlist_reloads: false,
            part_information: Option::None,
            metadata: MediaMetadata::default(),
        }
    }
}

impl Default for MultivariantPlaylist {
    fn default() -> (r: MultivariantPlaylist)
        ensures
            !r.is_independent_segments,
            r.start_offset is None,
            r.variables@.len() == 0,
            r.renditions_groups@.len() == 0,
            r.variant_streams@.len() == 0,
            r.i_frame_streams@.len() == 0,
            r.session_data@.len() == 0,
            r.session_key@.len() == 0,
            r.content_steering@.len() == 0,
    {
        MultivariantPlaylist {
            is_independent_segments: false,
            start_offset: Option::None,
            variables: Vec::new(),
            renditions_groups: Vec::new(),
            variant_streams: Vec::new(),
            i_frame_streams: Vec::new(),
            session_data: Vec::new(),
            session_key: Vec::new(),
            content_steering: Vec::new(),
        }
    }
}

} // verus!
