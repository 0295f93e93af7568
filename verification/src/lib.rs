//! A typed data model and text encoder for HTTP Live Streaming playlists.
//!
//! The model covers Multivariant Playlists (variant streams and rendition
//! groups) and Media Playlists (ordered media segments), and the encoder
//! renders them as Extended M3U text, reproducing the conditional tag
//! vocabulary, attribute ordering, quoting, numeric formatting and
//! version-compatibility rules of the playlist format.

use vstd::prelude::*;
use vstd::string::StringExecFns;

pub mod datetime;
pub mod playlist;
pub mod steering_manifest;
pub mod tags;
pub mod text;

use crate::text::{
    lemma_add_assoc, push_join_strs, push_join_u64, push_u128_hex, push_u64, spec_dec,
    spec_hex_upper, spec_join_strs, spec_join_u64,
};

verus! {

pub use crate::text::Decimal;
pub use crate::datetime::DateTime;

/// The priority in which a given rendition should be chosen over another rendition.
#[derive(Debug, Clone)]
pub enum RenditionPlaybackPriority {
    /// Indicates that the Rendition contains content that is considered essential to play.
    Default,
    /// The client may choose to play this Rendition in the absence of explicit user
    /// preference because it matches the current playback environment, such as
    /// chosen system language.
    AutoSelect,
    /// This rendition may not be auto selected without explicit user preference.
    Unspecified,
}

/// Specifies a Rendition within the segments in the `MediaPlaylist`.
#[derive(Debug, Clone)]
pub enum InStreamId {
    /// Line 21 Data Services channel.
    Cc1,
    /// Line 21 Data Services channel.
    Cc2,
    /// Line 21 Data Services channel.
    Cc3,
    /// Line 21 Data Services channel.
    Cc4,
    /// A Digital Television Closed Captioning service block number between 1 and 63.
    Service(u8),
}

/// Information about the audio channels in a given rendition.
#[derive(Debug, Clone)]
pub enum AudioChannelInformation {
    NumberOfChannelsOnly {
        /// The count of audio channels.
        number_of_channels: u64,
    },
    WithAudioCodingIdentifiers {
        /// The count of audio channels.
        number_of_channels: u64,
        /// A list of Audio Coding Identifiers.
        audio_coding_identifiers: Vec<String>,
    },
    WithSpecialUsageIdentifiers {
        /// The count of audio channels.
        number_of_channels: u64,
        /// A list of Audio Coding Identifiers.
        audio_coding_identifiers: Vec<String>,
        /// The audio is binaural.
        binaural: bool,
        /// The audio is pre-processed content that should not be dynamically spatialized.
        immersive: bool,
        /// The audio is a downmix derivative of some other audio.
        downmix: bool,
    },
}

/// Metadata for a given stream.
#[derive(Debug, Clone)]
pub struct StreamInf {
    /// Represents the peak segment bit rate of the Stream.
    pub bandwidth_bits_per_second: u64,
    /// Represents the average segment bit rate of the Stream.
    pub average_bandwidth_bits_per_second: Option<u64>,
    /// An abstract, relative measure of the playback quality-of-experience
    /// of the Variant Stream.
    pub score: Option<Decimal>,
    /// A list of formats, where each format specifies a media sample type
    /// that is present in the Stream.
    pub codecs: Vec<String>,
    /// Describes media samples with both a backward-compatible base layer
    /// and a newer enhancement layer.
    pub supplemental_codecs: Vec<SupplementalCodec>,
    /// Describes the optimal pixel resolution at which to display the
    /// video in the Stream.
    pub resolution: Option<Resolution>,
    /// Indicates that the stream could fail to play unless the
    /// output is protected by High-bandwidth Digital Content Protection.
    pub hdcp_level: Option<HdcpLevel>,
    /// Indicates that the playback of the stream containing encrypted
    /// `MediaSegments` is to be restricted to devices that guarantee
    /// a certain level of content protection robustness.
    pub allowed_cpc: Vec<ContentProtectionConfiguration>,
    pub video_range: VideoRange,
    /// Indicates whether the video content in the Stream requires
    /// specialized rendering to be properly displayed.
    pub required_video_layout: Vec<VideoChannelSpecifier>,
    /// Allows the URI of the Stream to change between two distinct
    /// downloads of the `MultivariantPlaylist`.
    pub stable_variant_id: Option<String>,
    /// Indicates that the Variant Stream belongs to the identified
    /// Content Steering Pathway.
    pub pathway_id: Option<String>,
}

/// Describes media samples with both a backward-compatible base layer
/// and a newer enhancement layer.
#[derive(Debug, Clone)]
pub struct SupplementalCodec {
    pub supplemental_codec: String,
    pub compatibility_brands: Vec<String>,
}

/// The High-bandwidth Digital Content Protection level.
#[derive(Debug, Clone)]
pub enum HdcpLevel {
    /// No High-bandwidth Digital Content Protection; renders as `NONE`.
    NoProtection,
    /// Type 0 High-bandwidth Digital Content Protection.
    Type0,
    /// Type 1 High-bandwidth Digital Content Protection.
    Type1,
}

/// A video resolution in pixels.
#[derive(Debug, Clone)]
pub struct Resolution {
    pub width: u64,
    pub height: u64,
}

/// Represents required content protection robustness for a given `key_format`
#[derive(Debug, Clone)]
pub struct ContentProtectionConfiguration {
    pub key_format: String,
    /// Classes of playback device that implements the `key_format`
    /// with a certain level of content protection robustness.
    pub cpc_labels: Vec<String>,
}

#[derive(Debug, Clone)]
pub enum VideoRange {
    Sdr,
    Hlg,
    Pq,
    Other(String),
}

/// Indicates whether some video content is stereoscopic or not.
#[derive(Debug, Clone)]
pub enum VideoChannelSpecifier {
    Stereo,
    Mono,
}

/// Arbitrary session data.
#[derive(Debug, Clone)]
pub struct SessionData {
    /// Identifies a particular `SessionData`.
    pub data_id: String,
    /// The data value.
    pub value: crate::SessionDataValue,
}

/// Whether the data is stored inline or identified by a URI.
#[derive(Debug, Clone)]
pub enum SessionDataValue {
    /// The data is stored inline.
    Value {
        /// The data value.
        value: String,
        /// The language that the value is in.
        language: Option<String>,
    },
    /// The data is identified by a URI.
    Uri {
        /// The URI identifying the data value.
        uri: String,
        /// The format of the data identified by the URI.
        format: UriFormat,
    },
}

/// The format of the data value.
#[derive(Debug, Clone)]
pub enum UriFormat {
    /// The value is json data.
    Json,
    /// The value is a binary file.
    Raw,
}

impl Default for UriFormat {
    fn default() -> (r: UriFormat)
        ensures
            r is Json,
    {
        UriFormat::Json
    }
}

/// Information about the encryption method of a given `MediaSegment`.
#[derive(Debug, Clone)]
pub enum EncryptionMethod {
    Aes128 {
        /// A URI that specifies how to obtain the key.
        uri: String,
        /// Specifies an initialization vector to be used with the key.
        iv: Option<u128>,
        /// Specifies how the key is represented in the resource identified by the URI.
        key_format: KeyFormat,
        /// Which versions of the `key_format` are this key is in compliance with.
        key_format_versions: Vec<u64>,
    },
    SampleAes {
        /// A URI that specifies how to obtain the key.
        uri: String,
        /// Specifies an initialization vector to be used with the key.
        iv: Option<u128>,
        /// Which versions of the `key_format` are this key is in compliance with.
        key_format_versions: Vec<u64>,
    },
    SampleAesCtr {
        /// A URI that specifies how to obtain the key.
        uri: String,
        /// Which versions of the `key_format` are this key is in compliance with.
        key_format_versions: Vec<u64>,
    },
}

/// Specifies how a given encryption key is represented.
#[derive(Debug, Clone)]
pub enum KeyFormat {
    Identity,
    Other(String),
}

/// Identifies a [`steering_manifest::SteeringManifest`].
#[derive(Debug, Clone)]
pub struct ContentSteering {
    /// The URI identifying the [`steering_manifest::SteeringManifest`].
    pub server_uri: String,
    pub pathway_id: Option<String>,
}

/// A duration of time with specific attributes.
#[derive(Debug, Clone)]
pub struct DateRange {
    /// Uniquely identifies the `DateRange` in a given Playlist.
    pub id: String,
    /// Identifies some set of attributes and their associated value semantics
    /// for `client_attributes`.
    pub class: Option<String>,
    /// The time at which the `DateRange` begins.
    pub start_date: DateTime,
    /// Indicates when to trigger an action associated with the `DateRange`.
    pub cue: Option<DateRangeCue>,
    /// The time at which the `DateRange` ends.
    pub end_date: Option<DateTime>,
    /// The duration of the `DateRange` in seconds.
    pub duration_seconds: Option<Decimal>,
    /// The duration that the `DateRange` is expected to be in seconds.
    pub planned_duration_seconds: Option<Decimal>,
    /// Various client defined attributes, in the order they are written.
    /// Keys are prefixed with `X-` on serialization.
    pub client_attributes: Vec<(String, AttributeValue)>,
    /// Used to carry SCTE-35 data.
    pub scte35_cmd: Vec<u8>,
    /// Used to carry SCTE-35 data.
    pub scte35_in: Vec<u8>,
    /// Used to carry SCTE-35 data
    pub scte35_out: Vec<u8>,
    /// Indicates that the end of the `DateRange` is equal to the `start_date`
    /// of the range that is closest in time after this `DateRange` and has the same schema
    /// of `client_attributes`.
    pub end_on_next: bool,
}

/// When to trigger an action associated with a given `DateRange`.
#[derive(Debug, Clone)]
pub struct DateRangeCue {
    /// Indicates that an action is to be triggered once and never again.
    pub once: bool,
    /// The relative time at which the action is to be triggered.
    pub position: DateRangeCuePosition,
}

/// The relative time at which a given `DateRange` action is to be triggered.
#[derive(Debug, Clone)]
pub enum DateRangeCuePosition {
    /// Indicates that an action is to be triggered before
    /// playback of the primary asset begins.
    Pre,
    /// Indicates that an action is to be triggered after the
    /// primary asset has been played to its end without error.
    Post,
    Neither,
}

#[derive(Debug, Clone)]
pub enum AttributeValue {
    String(String),
    Bytes(Vec<u8>),
    Float(Decimal),
}

/// A hint that the client should request a resource before
/// it is available to be delivered.
#[derive(Debug, Clone)]
pub struct PreloadHint {
    /// Whether the resource is a `PartialSegment` or a `MediaInitializationSection`.
    pub hint_type: PreloadHintType,
    /// The URI to the hinted resource.
    pub uri: String,
    /// The byte offset of the first byte of the hinted resource, from
    /// the beginning of the resource identified by the URI.
    pub start_byte_offset: u64,
    /// If Some, the value is the length of the hinted resource.
    /// If None, the last byte of the hinted resource is the last byte of the
    /// resource identified by the URI.
    pub length_in_bytes: Option<u64>,
}

/// Whether a given resource is a `PartialSegment` or a `MediaInitializationSection`.
#[derive(Debug, Clone)]
pub enum PreloadHintType {
    /// The resource is a `PartialSegment`.
    Part,
    /// The resource is a `MediaInitializationSection`; renders as `MAP`.
    InitializationSection,
}

/// Represents a range of bytes in a given resource.
#[derive(Debug, Clone)]
pub struct ByteRange {
    /// The length of the range in bytes.
    pub length_bytes: u64,
    /// The offset from the start of the resource to the start of the range
    /// in bytes.
    pub start_offset_bytes: Option<u64>,
}

/// Represents a range of bytes in a given resource.
#[derive(Debug, Clone)]
pub struct ByteRangeWithOffset {
    /// The length of the range in bytes.
    pub length_bytes: u64,
    /// The offset from the start of the resource to the start of the range
    /// in bytes.
    pub start_offset_bytes: u64,
}

/// If `Event`, Media Segments can only be added to the end of the Media Playlist.
/// If `Vod`, the Media Playlist cannot change.
#[derive(Debug, Clone)]
pub enum PlaylistType {
    Event,
    Vod,
}

/// Information about the server's playlist delta update capabilities.
#[derive(Debug, Clone)]
pub struct DeltaUpdateInfo {
    pub skip_boundary_seconds: Decimal,
    /// if the Server can produce Playlist Delta Updates that skip
    /// older EXT-X-DATERANGE tags in addition to Media Segments.
    pub can_skip_dateranges: bool,
}

/// Information about an associated Rendition that is as up-to-date as
/// the Playlist that contains the report.
#[derive(Debug, Clone)]
pub struct RenditionReport {
    /// The URI for the `MediaPlaylist` of the specified rendition.
    pub uri: String,
    /// The media sequence number of the last `MediaSegment` currently
    /// in the specified Rendition.
    pub last_sequence_number: Option<u64>,
    /// The part index of the last `PartialSegment` currently in the
    /// specified rendition whose media sequence number is equal to
    /// `last_sequence_number`.
    pub last_part_index: Option<u64>,
}

#[derive(Debug, Clone)]
pub enum DefinitionType {
    /// The variable is defined here.
    Inline { name: String, value: String },
    /// Use a variable defined in the Multivariant Playlist that referenced
    /// this playlist.
    Import { name: String },
    /// Use the value of the query parameter named `name` from the current
    /// playlist's URI. If the URI is redirected, look for the query
    /// parameter in the 30x response URI.
    QueryParameter { name: String },
}

/// A segment duration: the wire format distinguishes whole-second values
/// from fractional ones, and the distinction affects the inferred
/// compatibility version.
#[derive(Debug, Clone)]
pub enum FloatOrInteger {
    Float(Decimal),
    Integer(u64),
}

impl FloatOrInteger {
    /// The rendering of the duration value itself.
    pub open spec fn spec_chars(&self) -> Seq<char> {
        match self {
            FloatOrInteger::Float(d) => d.spec_chars(),
            FloatOrInteger::Integer(n) => spec_dec(*n as nat),
        }
    }

    pub fn serialize(&self, output: &mut String)
        ensures
            final(output)@ == old(output)@ + self.spec_chars(),
    {
        match self {
            FloatOrInteger::Float(d) => d.serialize(output),
            FloatOrInteger::Integer(n) => push_u64(output, *n),
        }
    }
}

impl ByteRange {
    /// The `length[@offset]` fragment.
    pub open spec fn spec_chars(&self) -> Seq<char> {
        spec_dec(self.length_bytes as nat) + (match self.start_offset_bytes {
            Option::Some(offset) => "@"@ + spec_dec(offset as nat),
            Option::None => Seq::<char>::empty(),
        })
    }

    pub fn serialize(&self, output: &mut String)
        ensures
            final(output)@ == old(output)@ + self.spec_chars(),
    {
        broadcast use lemma_add_assoc;

        push_u64(output, self.length_bytes);
        if let Option::Some(start_offset_bytes) = self.start_offset_bytes {
            output.append("@");
            push_u64(output, start_offset_bytes);
        }
    }
}

impl ByteRangeWithOffset {
    /// The `length@offset` fragment.
    pub open spec fn spec_chars(&self) -> Seq<char> {
        spec_dec(self.length_bytes as nat) + "@"@ + spec_dec(self.start_offset_bytes as nat)
    }

    pub fn serialize(&self, output: &mut String)
        ensures
            final(output)@ == old(output)@ + self.spec_chars(),
    {
        broadcast use lemma_add_assoc;

        push_u64(output, self.length_bytes);
        output.append("@");
        push_u64(output, self.start_offset_bytes);
    }
}

impl SupplementalCodec {
    /// The codec followed by `/`-prefixed compatibility brands.
    pub open spec fn spec_chars(&self) -> Seq<char> {
        self.supplemental_codec@ + spec_slash_brands(self.compatibility_brands@)
    }

    pub fn serialize(&self, output: &mut String)
        ensures
            final(output)@ == old(output)@ + self.spec_chars(),
    {
        broadcast use lemma_add_assoc;

        let ghost base = output@;
        output.append(self.supplemental_codec.as_str());
        let n = self.compatibility_brands.len();
        let mut i: usize = 0;
        while i < n
            invariant
                0 <= i <= n,
                n == self.compatibility_brands@.len(),
                output@ == base + self.supplemental_codec@ + spec_slash_brands(
                    self.compatibility_brands@.take(i as int),
                ),
            decreases n - i,
        {
            broadcast use lemma_add_assoc;

            output.append("/");
            output.append(self.compatibility_brands[i].as_str());
            proof {
                assert(self.compatibility_brands@.take(i + 1).drop_last()
                    =~= self.compatibility_brands@.take(i as int));
                assert(self.compatibility_brands@.take(i + 1).last()
                    == self.compatibility_brands@[i as int]);
            }
            i += 1;
        }
        proof {
            assert(self.compatibility_brands@.take(n as int) =~= self.compatibility_brands@);
        }
    }
}

/// Each brand prefixed by a slash, concatenated in order.
pub open spec fn spec_slash_brands(brands: Seq<String>) -> Seq<char>
    decreases brands.len(),
{
    if brands.len() == 0 {
        Seq::<char>::empty()
    } else {
        spec_slash_brands(brands.drop_last()) + "/"@ + brands.last()@
    }
}

impl ContentProtectionConfiguration {
    /// The `key_format:label/label/...` fragment.
    pub open spec fn spec_chars(&self) -> Seq<char> {
        self.key_format@ + ":"@ + spec_join_strs(self.cpc_labels@, "/"@)
    }

    pub fn serialize(&self, output: &mut String)
        ensures
            final(output)@ == old(output)@ + self.spec_chars(),
    {
        broadcast use lemma_add_assoc;

        output.append(self.key_format.as_str());
        output.append(":");
        push_join_strs(output, &self.cpc_labels, "/");
    }
}

impl EncryptionMethod {
    /// The `METHOD=...,URI="..."` part, present for every method.
    pub open spec fn spec_method_chars(&self) -> Seq<char> {
        match self {
            EncryptionMethod::Aes128 { uri, .. } => "METHOD=AES-128,URI=\""@ + uri@ + "\""@,
            EncryptionMethod::SampleAes { uri, .. } => "METHOD=SAMPLE-AES,URI=\""@ + uri@ + "\""@,
            EncryptionMethod::SampleAesCtr { uri, .. } => "METHOD=SAMPLE-AES-CTR,URI=\""@ + uri@
                + "\""@,
        }
    }

    /// The `,IV=0x...` part, emitted when an initialization vector is present.
    pub open spec fn spec_iv_chars(&self) -> Seq<char> {
        match self {
            EncryptionMethod::Aes128 { iv: Option::Some(iv), .. } => ",IV=0x"@ + spec_hex_upper(
                *iv as nat,
            ),
            EncryptionMethod::SampleAes { iv: Option::Some(iv), .. } => ",IV=0x"@ + spec_hex_upper(
                *iv as nat,
            ),
            _ => Seq::<char>::empty(),
        }
    }

    /// The `,KEYFORMAT="..."` part, emitted only for AES-128 with a
    /// non-identity key format.
    pub open spec fn spec_key_format_chars(&self) -> Seq<char> {
        match self {
            EncryptionMethod::Aes128 { key_format: KeyFormat::Other(key_format), .. } =>
                ",KEYFORMAT=\""@ + key_format@ + "\""@,
            _ => Seq::<char>::empty(),
        }
    }

    pub open spec fn spec_key_format_versions(&self) -> Seq<u64> {
        match self {
            EncryptionMethod::Aes128 { key_format_versions, .. } => key_format_versions@,
            EncryptionMethod::SampleAes { key_format_versions, .. } => key_format_versions@,
            EncryptionMethod::SampleAesCtr { key_format_versions, .. } => key_format_versions@,
        }
    }

    /// The `,KEYFORMATVERSIONS="..."` part, suppressed when the versions are
    /// absent or the single default version 1.
    pub open spec fn spec_kfv_chars(&self) -> Seq<char> {
        if self.spec_key_format_versions().len() == 0 || (self.spec_key_format_versions().len() == 1
            && self.spec_key_format_versions()[0] == 1) {
            Seq::<char>::empty()
        } else {
            ",KEYFORMATVERSIONS=\""@ + spec_join_u64(self.spec_key_format_versions(), "/"@) + "\""@
        }
    }

    /// The full attribute-list fragment of an `EXT-X-KEY`-style tag body.
    pub open spec fn spec_chars(&self) -> Seq<char> {
        self.spec_method_chars() + self.spec_iv_chars() + self.spec_key_format_chars()
            + self.spec_kfv_chars()
    }

    pub fn serialize(&self, output: &mut String)
        ensures
            final(output)@ == old(output)@ + self.spec_chars(),
    {
        broadcast use lemma_add_assoc;

        match self {
            EncryptionMethod::Aes128 { uri, .. } => {
                output.append("METHOD=AES-128,URI=\"");
                output.append(uri.as_str());
                output.append("\"");
            },
            EncryptionMethod::SampleAes { uri, .. } => {
                output.append("METHOD=SAMPLE-AES,URI=\"");
                output.append(uri.as_str());
                output.append("\"");
            },
            EncryptionMethod::SampleAesCtr { uri, .. } => {
                output.append("METHOD=SAMPLE-AES-CTR,URI=\"");
                output.append(uri.as_str());
                output.append("\"");
            },
        }
        match self {
            EncryptionMethod::Aes128 { iv: Option::Some(iv), .. } => {
                output.append(",IV=0x");
                push_u128_hex(output, *iv);
            },
            EncryptionMethod::SampleAes { iv: Option::Some(iv), .. } => {
                output.append(",IV=0x");
                push_u128_hex(output, *iv);
            },
            _ => {},
        }
        if let EncryptionMethod::Aes128 { key_format: KeyFormat::Other(key_format), .. } = self {
            output.append(",KEYFORMAT=\"");
            output.append(key_format.as_str());
            output.append("\"");
        }
        let key_format_versions = match self {
            EncryptionMethod::Aes128 { key_format_versions, .. } => key_format_versions,
            EncryptionMethod::SampleAes { key_format_versions, .. } => key_format_versions,
            EncryptionMethod::SampleAesCtr { key_format_versions, .. } => key_format_versions,
        };
        if !(key_format_versions.len() == 0 || (key_format_versions.len() == 1
            && key_format_versions[0] == 1)) {
            output.append(",KEYFORMATVERSIONS=\"");
            push_join_u64(output, key_format_versions, "/");
            output.append("\"");
        }
    }
}

/// Supplemental codec entries joined by commas.
pub open spec fn spec_join_supplemental(items: Seq<SupplementalCodec>) -> Seq<char>
    decreases items.len(),
{
    if items.len() == 0 {
        Seq::<char>::empty()
    } else if items.len() == 1 {
        items[0].spec_chars()
    } else {
        spec_join_supplemental(items.drop_last()) + ","@ + items.last().spec_chars()
    }
}

/// Content protection configurations joined by commas.
pub open spec fn spec_join_cpc(items: Seq<ContentProtectionConfiguration>) -> Seq<char>
    decreases items.len(),
{
    if items.len() == 0 {
        Seq::<char>::empty()
    } else if items.len() == 1 {
        items[0].spec_chars()
    } else {
        spec_join_cpc(items.drop_last()) + ","@ + items.last().spec_chars()
    }
}

/// The label of one video channel specifier.
pub open spec fn spec_layout_item(v: VideoChannelSpecifier) -> Seq<char> {
    match v {
        VideoChannelSpecifier::Stereo => "CH-STEREO"@,
        VideoChannelSpecifier::Mono => "CH-MONO"@,
    }
}

/// Video channel specifiers joined by commas.
pub open spec fn spec_join_layout(items: Seq<VideoChannelSpecifier>) -> Seq<char>
    decreases items.len(),
{
    if items.len() == 0 {
        Seq::<char>::empty()
    } else if items.len() == 1 {
        spec_layout_item(items[0])
    } else {
        spec_join_layout(items.drop_last()) + ","@ + spec_layout_item(items.last())
    }
}

impl StreamInf {
    /// The `,CODECS="..."` attribute, suppressed when the list is empty.
    pub open spec fn spec_codecs_chars(&self) -> Seq<char> {
        if self.codecs@.len() == 0 {
            Seq::<char>::empty()
        } else {
            ",CODECS=\""@ + spec_join_strs(self.codecs@, ","@) + "\""@
        }
    }

    /// The `,SUPPLEMENTAL-CODECS="..."` attribute, suppressed when empty.
    pub open spec fn spec_supplemental_chars(&self) -> Seq<char> {
        if self.supplemental_codecs@.len() == 0 {
            Seq::<char>::empty()
        } else {
            ",SUPPLEMENTAL-CODECS=\""@ + spec_join_supplemental(self.supplemental_codecs@) + "\""@
        }
    }

    /// The `,RESOLUTION=WxH` attribute.
    pub open spec fn spec_resolution_chars(&self) -> Seq<char> {
        match self.resolution {
            Option::Some(resolution) => ",RESOLUTION="@ + spec_dec(resolution.width as nat) + "x"@
                + spec_dec(resolution.height as nat),
            Option::None => Seq::<char>::empty(),
        }
    }

    /// The `,HDCP-LEVEL=...` attribute.
    pub open spec fn spec_hdcp_chars(&self) -> Seq<char> {
        match self.hdcp_level {
            Option::Some(HdcpLevel::NoProtection) => ",HDCP-LEVEL=NONE"@,
            Option::Some(HdcpLevel::Type0) => ",HDCP-LEVEL=TYPE-0"@,
            Option::Some(HdcpLevel::Type1) => ",HDCP-LEVEL=TYPE-1"@,
            Option::None => Seq::<char>::empty(),
        }
    }

    /// The `,ALLOWED-CPC="..."` attribute, suppressed when empty.
    pub open spec fn spec_cpc_chars(&self) -> Seq<char> {
        if self.allowed_cpc@.len() == 0 {
            Seq::<char>::empty()
        } else {
            ",ALLOWED-CPC=\""@ + spec_join_cpc(self.allowed_cpc@) + "\""@
        }
    }

    /// The `,VIDEO-RANGE=...` attribute; the default `SDR` is suppressed.
    pub open spec fn spec_video_range_chars(&self) -> Seq<char> {
        match self.video_range {
            VideoRange::Sdr => Seq::<char>::empty(),
            VideoRange::Hlg => ",VIDEO-RANGE=HLG"@,
            VideoRange::Pq => ",VIDEO-RANGE=PQ"@,
            VideoRange::Other(other) => ",VIDEO-RANGE="@ + other@,
        }
    }

    /// The `,REQ-VIDEO-LAYOUT="..."` attribute, suppressed when the layout
    /// is empty or the default single monoscopic channel.
    pub open spec fn spec_layout_chars(&self) -> Seq<char> {
        if self.required_video_layout@.len() == 0 || (self.required_video_layout@.len() == 1
            && self.required_video_layout@[0] is Mono) {
            Seq::<char>::empty()
        } else {
            ",REQ-VIDEO-LAYOUT=\""@ + spec_join_layout(self.required_video_layout@) + "\""@
        }
    }

    /// The bandwidth, average bandwidth, score and codecs attributes.
    pub open spec fn spec_head_chars(&self) -> Seq<char> {
        "BANDWIDTH="@ + spec_dec(self.bandwidth_bits_per_second as nat) + (match self
            .average_bandwidth_bits_per_second {
            Option::Some(avg) => ",AVERAGE-BANDWIDTH="@ + spec_dec(avg as nat),
            Option::None => Seq::<char>::empty(),
        }) + (match self.score {
            Option::Some(score) => ",SCORE="@ + score.spec_chars(),
            Option::None => Seq::<char>::empty(),
        }) + self.spec_codecs_chars()
    }

    /// The supplemental codecs, resolution and HDCP attributes.
    pub open spec fn spec_mid_chars(&self) -> Seq<char> {
        self.spec_supplemental_chars() + self.spec_resolution_chars() + self.spec_hdcp_chars()
    }

    /// The content protection, video range, layout and identifier attributes.
    pub open spec fn spec_tail_chars(&self) -> Seq<char> {
        self.spec_cpc_chars() + self.spec_video_range_chars() + self.spec_layout_chars() + (
        match self.stable_variant_id {
            Option::Some(ref id) => ",STABLE-VARIANT-ID=\""@ + id@ + "\""@,
            Option::None => Seq::<char>::empty(),
        }) + (match self.pathway_id {
            Option::Some(ref id) => ",PATHWAY-ID=\""@ + id@ + "\""@,
            Option::None => Seq::<char>::empty(),
        })
    }

    /// The full attribute-list fragment shared by `EXT-X-STREAM-INF` and
    /// `EXT-X-I-FRAME-STREAM-INF`, beginning with `BANDWIDTH`.
    pub open spec fn spec_chars(&self) -> Seq<char> {
        self.spec_head_chars() + self.spec_mid_chars() + self.spec_tail_chars()
    }

    fn push_supplemental_codecs(&self, output: &mut String)
        ensures
            final(output)@ == old(output)@ + self.spec_supplemental_chars(),
    {
        broadcast use lemma_add_assoc;

        if self.supplemental_codecs.len() > 0 {
            let ghost base = output@;
            output.append(",SUPPLEMENTAL-CODECS=\"");
            let n = self.supplemental_codecs.len();
            let mut i: usize = 0;
            while i < n
                invariant
                    0 <= i <= n,
                    n == self.supplemental_codecs@.len(),
                    output@ == base + ",SUPPLEMENTAL-CODECS=\""@ + spec_join_supplemental(
                        self.supplemental_codecs@.take(i as int),
                    ),
                decreases n - i,
            {
                broadcast use lemma_add_assoc;

                if i > 0 {
                    output.append(",");
                }
                self.supplemental_codecs[i].serialize(output);
                proof {
                    assert(self.supplemental_codecs@.take(i + 1).drop_last()
                        =~= self.supplemental_codecs@.take(i as int));
                    assert(self.supplemental_codecs@.take(i + 1).last()
                        == self.supplemental_codecs@[i as int]);
                }
                i += 1;
            }
            output.append("\"");
            proof {
                assert(self.supplemental_codecs@.take(n as int) =~= self.supplemental_codecs@);
            }
        }
    }

    fn push_allowed_cpc(&self, output: &mut String)
        ensures
            final(output)@ == old(output)@ + self.spec_cpc_chars(),
    {
        broadcast use lemma_add_assoc;

        if self.allowed_cpc.len() > 0 {
            let ghost base = output@;
            output.append(",ALLOWED-CPC=\"");
            let n = self.allowed_cpc.len();
            let mut i: usize = 0;
            while i < n
                invariant
                    0 <= i <= n,
                    n == self.allowed_cpc@.len(),
                    output@ == base + ",ALLOWED-CPC=\""@ + spec_join_cpc(
                        self.allowed_cpc@.take(i as int),
                    ),
                decreases n - i,
            {
                broadcast use lemma_add_assoc;

                if i > 0 {
                    output.append(",");
                }
                self.allowed_cpc[i].serialize(output);
                proof {
                    assert(self.allowed_cpc@.take(i + 1).drop_last() =~= self.allowed_cpc@.take(
                        i as int,
                    ));
                    assert(self.allowed_cpc@.take(i + 1).last() == self.allowed_cpc@[i as int]);
                }
                i += 1;
            }
            output.append("\"");
            proof {
                assert(self.allowed_cpc@.take(n as int) =~= self.allowed_cpc@);
            }
        }
    }

    fn push_required_video_layout(&self, output: &mut String)
        ensures
            final(output)@ == old(output)@ + self.spec_layout_chars(),
    {
        broadcast use lemma_add_assoc;

        let suppress = self.required_video_layout.len() == 0 || (self.required_video_layout.len()
            == 1 && match self.required_video_layout[0] {
            VideoChannelSpecifier::Mono => true,
            VideoChannelSpecifier::Stereo => false,
        });
        if !suppress {
            let ghost base = output@;
            output.append(",REQ-VIDEO-LAYOUT=\"");
            let n = self.required_video_layout.len();
            let mut i: usize = 0;
            while i < n
                invariant
                    0 <= i <= n,
                    n == self.required_video_layout@.len(),
                    output@ == base + ",REQ-VIDEO-LAYOUT=\""@ + spec_join_layout(
                        self.required_video_layout@.take(i as int),
                    ),
                decreases n - i,
            {
                broadcast use lemma_add_assoc;

                if i > 0 {
                    output.append(",");
                }
                match self.required_video_layout[i] {
                    VideoChannelSpecifier::Stereo => output.append("CH-STEREO"),
                    VideoChannelSpecifier::Mono => output.append("CH-MONO"),
                }
                proof {
                    assert(self.required_video_layout@.take(i + 1).drop_last()
                        =~= self.required_video_layout@.take(i as int));
                    assert(self.required_video_layout@.take(i + 1).last()
                        == self.required_video_layout@[i as int]);
                }
                i += 1;
            }
            output.append("\"");
            proof {
                assert(self.required_video_layout@.take(n as int)
                    =~= self.required_video_layout@);
            }
        }
    }

    fn push_head(&self, output: &mut String)
        ensures
            final(output)@ == old(output)@ + self.spec_head_chars(),
    {
        broadcast use lemma_add_assoc;

        output.append("BANDWIDTH=");
        push_u64(output, self.bandwidth_bits_per_second);
        if let Option::Some(average_bandwidth) = self.average_bandwidth_bits_per_second {
            output.append(",AVERAGE-BANDWIDTH=");
            push_u64(output, average_bandwidth);
        }
        if let Option::Some(score) = self.score {
            output.append(",SCORE=");
            score.serialize(output);
        }
        if self.codecs.len() > 0 {
            output.append(",CODECS=\"");
            push_join_strs(output, &self.codecs, ",");
            output.append("\"");
        }
    }

    fn push_mid(&self, output: &mut String)
        ensures
            final(output)@ == old(output)@ + self.spec_mid_chars(),
    {
        broadcast use lemma_add_assoc;

        self.push_supplemental_codecs(output);
        if let Option::Some(ref resolution) = self.resolution {
            output.append(",RESOLUTION=");
            push_u64(output, resolution.width);
            output.append("x");
            push_u64(output, resolution.height);
        }
        if let Option::Some(ref level) = self.hdcp_level {
            match level {
                HdcpLevel::NoProtection => output.append(",HDCP-LEVEL=NONE"),
                HdcpLevel::Type0 => output.append(",HDCP-LEVEL=TYPE-0"),
                HdcpLevel::Type1 => output.append(",HDCP-LEVEL=TYPE-1"),
            }
        }
    }

    fn push_tail(&self, output: &mut String)
        ensures
            final(output)@ == old(output)@ + self.spec_tail_chars(),
    {
        broadcast use lemma_add_assoc;

        self.push_allowed_cpc(output);
        match &self.video_range {
            VideoRange::Sdr => {},
            VideoRange::Hlg => output.append(",VIDEO-RANGE=HLG"),
            VideoRange::Pq => output.append(",VIDEO-RANGE=PQ"),
            VideoRange::Other(other) => {
                output.append(",VIDEO-RANGE=");
                output.append(other.as_str());
            },
        }
        self.push_required_video_layout(output);
        if let Option::Some(ref id) = self.stable_variant_id {
            output.append(",STABLE-VARIANT-ID=\"");
            output.append(id.as_str());
            output.append("\"");
        }
        if let Option::Some(ref id) = self.pathway_id {
            output.append(",PATHWAY-ID=\"");
            output.append(id.as_str());
            output.append("\"");
        }
    }

    pub fn serialize(&self, output: &mut String)
        ensures
            final(output)@ == old(output)@ + self.spec_chars(),
    {
        broadcast use lemma_add_assoc;

        self.push_head(output);
        self.push_mid(output);
        self.push_tail(output);
    }
}

/// A stream description with every optional attribute absent renders as
/// the bandwidth attribute alone.
pub proof fn lemma_minimal_stream_inf(stream_inf: &StreamInf)
    requires
        stream_inf.average_bandwidth_bits_per_second is None,
        stream_inf.score is None,
        stream_inf.codecs@.len() == 0,
        stream_inf.supplemental_codecs@.len() == 0,
        stream_inf.resolution is None,
        stream_inf.hdcp_level is None,
        stream_inf.allowed_cpc@.len() == 0,
        stream_inf.video_range is Sdr,
        stream_inf.required_video_layout@.len() == 0,
        stream_inf.stable_variant_id is None,
        stream_inf.pathway_id is None,
    ensures
        stream_inf.spec_chars() == "BANDWIDTH="@ + spec_dec(
            stream_inf.bandwidth_bits_per_second as nat,
        ),
{
    broadcast use crate::text::lemma_add_assoc, crate::text::lemma_add_empty_left, crate::text::lemma_add_empty_right;

}

} // verus!

