use hls_playlist::playlist::{
    ByteRangeOrBitrate, ClosedCaptionRendition, IFrameStream, MediaInitializationSection,
    MediaMetadata, MediaPlaylist, MediaSegment, MultivariantPlaylist, PartInformation,
    PartialSegment, RenditionGroup, RenditionInfo, StartOffset, SkipInformation, VariantStream,
    VideoRendition,
};
use hls_playlist::tags::DefinitionType;
use hls_playlist::{
    ByteRange, ByteRangeWithOffset, ContentProtectionConfiguration, ContentSteering, DateTime,
    Decimal, DeltaUpdateInfo, EncryptionMethod, FloatOrInteger, HdcpLevel, InStreamId, KeyFormat,
    PlaylistType, PreloadHint, PreloadHintType, RenditionPlaybackPriority, RenditionReport,
    Resolution, SessionData, SessionDataValue, StreamInf, SupplementalCodec,
    VideoChannelSpecifier, VideoRange,
};

fn whole(n: u64) -> Decimal {
    Decimal::from_integer(n)
}

fn frac(integer: u64, frac: u64, frac_len: u8) -> Decimal {
    Decimal { negative: false, integer, frac, frac_len }
}

fn example_multivariant_playlist() -> MultivariantPlaylist {
    MultivariantPlaylist {
        is_independent_segments: true,
        start_offset: Some(StartOffset { offset_in_seconds: whole(2), is_precise: true }),
        variables: vec![
            DefinitionType::Inline { name: "cool".into(), value: "foo".into() },
            DefinitionType::QueryParameter { name: "super_cool_actually".into() },
        ],
        renditions_groups: vec![
            RenditionGroup::Video {
                group_id: "cool_video".into(),
                renditions: vec![VideoRendition {
                    info: RenditionInfo {
                        language: Some("en_US".into()),
                        assoc_language: Some("de".into()),
                        name: "English".into(),
                        priority: RenditionPlaybackPriority::Default,
                        characteristics: vec!["private.cool.example".into()],
                        stable_rendition_id: Some("very_stable".into()),
                    },
                    uri: Some("https://example.com/video.m3u8".into()),
                }],
            },
            RenditionGroup::ClosedCaptions {
                group_id: "cool_captions".into(),
                renditions: vec![ClosedCaptionRendition {
                    info: RenditionInfo {
                        language: None,
                        assoc_language: None,
                        name: "somethin".into(),
                        priority: RenditionPlaybackPriority::Unspecified,
                        characteristics: vec![],
                        stable_rendition_id: None,
                    },
                    in_stream_id: InStreamId::Service(8),
                }],
            },
        ],
        variant_streams: vec![VariantStream {
            stream_info: StreamInf {
                bandwidth_bits_per_second: 8024,
                average_bandwidth_bits_per_second: Some(8000),
                score: Some(whole(2)),
                codecs: vec!["mp4a.40.2".into(), "avc1.4d401e".into()],
                supplemental_codecs: vec![SupplementalCodec {
                    supplemental_codec: "somethin2".into(),
                    compatibility_brands: vec![],
                }],
                resolution: Some(Resolution { width: 1080, height: 1920 }),
                hdcp_level: Some(HdcpLevel::Type1),
                allowed_cpc: vec![ContentProtectionConfiguration {
                    key_format: "com.example.drm2".into(),
                    cpc_labels: vec![],
                }],
                video_range: VideoRange::Pq,
                required_video_layout: vec![VideoChannelSpecifier::Stereo],
                stable_variant_id: Some("azBY09+/=.-_".into()),
                pathway_id: Some("cool-pathway".into()),
            },
            frame_rate: Some(60_000),
            audio_group_id: None,
            video_group_id: Some("cool_video".into()),
            subtitles_group_id: None,
            closed_captions_group_id: Some("cool_captions".into()),
            uri: "https://example.com/stuffs.m3u8".into(),
        }],
        i_frame_streams: vec![IFrameStream {
            stream_info: StreamInf {
                bandwidth_bits_per_second: 8000,
                average_bandwidth_bits_per_second: None,
                score: None,
                codecs: vec![],
                supplemental_codecs: vec![],
                resolution: None,
                hdcp_level: None,
                allowed_cpc: vec![],
                video_range: VideoRange::Sdr,
                required_video_layout: vec![],
                stable_variant_id: None,
                pathway_id: None,
            },
            video_group_id: Some("cool_video".into()),
            uri: "https://example.com/video2.m3u8".into(),
        }],
        session_data: vec![SessionData {
            data_id: "i_am_above_you".into(),
            value: SessionDataValue::Value { value: "aksjfnaj".into(), language: None },
        }],
        session_key: vec![EncryptionMethod::SampleAes {
            uri: "https://example.com/key.key".into(),
            iv: None,
            key_format_versions: vec![],
        }],
        content_steering: vec![ContentSteering {
            server_uri: "https://example.com/steering.json".into(),
            pathway_id: Some("cool-pathway".into()),
        }],
    }
}

#[test]
fn serialize_multivariant_playlist() {
    let mut output = String::new();
    let playlist = example_multivariant_playlist();

    playlist.serialize(&mut output);

    assert_eq!(
        output,
        "#EXTM3U
#EXT-X-VERSION:12
#EXT-X-DEFINE:NAME=\"cool\",VALUE=\"foo\"
#EXT-X-DEFINE:QUERYPARAM=\"super_cool_actually\"
#EXT-X-INDEPENDENT-SEGMENTS
#EXT-X-START:TIME-OFFSET=2,PRECISE=YES
#EXT-X-MEDIA:TYPE=VIDEO,URI=\"https://example.com/video.m3u8\",GROUP-ID=\"cool_video\",LANGUAGE=\"en_US\",ASSOC-LANGUAGE=\"de\",NAME=\"English\",STABLE-RENDITION-ID=\"very_stable\",DEFAULT=YES,AUTOSELECT=YES,CHARACTERISTICS=\"private.cool.example\"
#EXT-X-MEDIA:TYPE=CLOSED-CAPTIONS,GROUP-ID=\"cool_captions\",NAME=\"somethin\",INSTREAM-ID=\"SERVICE8\"
#EXT-X-STREAM-INF:BANDWIDTH=8024,AVERAGE-BANDWIDTH=8000,SCORE=2,CODECS=\"mp4a.40.2,avc1.4d401e\",SUPPLEMENTAL-CODECS=\"somethin2\",RESOLUTION=1080x1920,HDCP-LEVEL=TYPE-1,ALLOWED-CPC=\"com.example.drm2:\",VIDEO-RANGE=PQ,REQ-VIDEO-LAYOUT=\"CH-STEREO\",STABLE-VARIANT-ID=\"azBY09+/=.-_\",PATHWAY-ID=\"cool-pathway\",FRAME-RATE=60.000,VIDEO=\"cool_video\",CLOSED-CAPTIONS=\"cool_captions\"
https://example.com/stuffs.m3u8
#EXT-X-I-FRAME-STREAM-INF:BANDWIDTH=8000,VIDEO=\"cool_video\",URI=\"https://example.com/video2.m3u8\"
#EXT-X-SESSION-DATA:DATA-ID=\"i_am_above_you\",VALUE=\"aksjfnaj\"
#EXT-X-SESSION-KEY:METHOD=SAMPLE-AES,URI=\"https://example.com/key.key\"
#EXT-X-CONTENT-STEERING:SERVER-URI=\"https://example.com/steering.json\",PATHWAY-ID=\"cool-pathway\"
"
    );
}

fn example_media_playlist() -> MediaPlaylist {
    MediaPlaylist {
        segments: vec![
            MediaSegment {
                uri: "https://example.com/1.mp4".into(),
                duration_seconds: FloatOrInteger::Float(frac(5, 45, 3)),
                title: "This is the first thingy!".into(),
                byte_range_or_bitrate: Some(ByteRangeOrBitrate::Bitrate(8000)),
                is_discontinuity: false,
                encryption: Some(EncryptionMethod::Aes128 {
                    uri: "https://example.com/key.key".into(),
                    iv: Some(0x0F91_DC05),
                    key_format: KeyFormat::Identity,
                    key_format_versions: vec![1, 7, 6],
                }),
                media_initialization_section: Some(MediaInitializationSection {
                    uri: "https://example.com/1.mp4".into(),
                    range: Some(ByteRangeWithOffset { length_bytes: 400, start_offset_bytes: 0 }),
                }),
                absolute_time: Some(DateTime {
                    year: 2010,
                    month: 2,
                    day: 19,
                    hour: 14,
                    minute: 54,
                    second: 23,
                    nanosecond: 31_000_000,
                    offset_minutes: 8 * 60,
                }),
                is_gap: false,
                parts: vec![
                    PartialSegment {
                        uri: "https://example.com/1.mp4".into(),
                        duration_in_seconds: frac(2, 5225, 4),
                        is_independent: true,
                        byte_range: Some(ByteRange { length_bytes: 400, start_offset_bytes: None }),
                        is_gap: false,
                    },
                    PartialSegment {
                        uri: "https://example.com/1.mp4".into(),
                        duration_in_seconds: frac(2, 5225, 4),
                        is_independent: false,
                        byte_range: Some(ByteRange {
                            length_bytes: 400,
                            start_offset_bytes: Some(400),
                        }),
                        is_gap: false,
                    },
                ],
            },
            MediaSegment {
                uri: "https://example.com/2.mp4".into(),
                duration_seconds: FloatOrInteger::Float(frac(5, 45, 3)),
                title: "This is the second thingy!".into(),
                byte_range_or_bitrate: Some(ByteRangeOrBitrate::Bitrate(8000)),
                is_discontinuity: false,
                encryption: Some(EncryptionMethod::Aes128 {
                    uri: "https://example.com/key.key".into(),
                    iv: Some(0x0F91_DC05),
                    key_format: KeyFormat::Identity,
                    key_format_versions: vec![1, 7, 6],
                }),
                media_initialization_section: Some(MediaInitializationSection {
                    uri: "https://example.com/1.mp4".into(),
                    range: Some(ByteRangeWithOffset { length_bytes: 400, start_offset_bytes: 0 }),
                }),
                absolute_time: None,
                is_gap: false,
                parts: vec![
                    PartialSegment {
                        uri: "https://example.com/2.mp4".into(),
                        duration_in_seconds: frac(2, 5225, 4),
                        is_independent: true,
                        byte_range: Some(ByteRange { length_bytes: 400, start_offset_bytes: None }),
                        is_gap: false,
                    },
                    PartialSegment {
                        uri: "https://example.com/2.mp4".into(),
                        duration_in_seconds: frac(2, 5225, 4),
                        is_independent: false,
                        byte_range: Some(ByteRange {
                            length_bytes: 400,
                            start_offset_bytes: Some(400),
                        }),
                        is_gap: false,
                    },
                ],
            },
            MediaSegment {
                uri: "https://example.com/3.mp4".into(),
                duration_seconds: FloatOrInteger::Float(frac(5, 45, 3)),
                title: String::new(),
                byte_range_or_bitrate: Some(ByteRangeOrBitrate::Bitrate(5000)),
                is_discontinuity: false,
                encryption: None,
                media_initialization_section: None,
                absolute_time: None,
                is_gap: false,
                parts: vec![
                    PartialSegment {
                        uri: "https://example.com/3.mp4".into(),
                        duration_in_seconds: frac(2, 5225, 4),
                        is_independent: true,
                        byte_range: Some(ByteRange { length_bytes: 400, start_offset_bytes: None }),
                        is_gap: false,
                    },
                    PartialSegment {
                        uri: "https://example.com/3.mp4".into(),
                        duration_in_seconds: frac(2, 5225, 4),
                        is_independent: false,
                        byte_range: Some(ByteRange {
                            length_bytes: 400,
                            start_offset_bytes: Some(400),
                        }),
                        is_gap: false,
                    },
                ],
            },
        ],
        start_offset: Some(StartOffset { offset_in_seconds: whole(2), is_precise: false }),
        variables: vec![
            DefinitionType::Inline { name: "cool".into(), value: "foo".into() },
            DefinitionType::Import { name: "not_cool".into() },
            DefinitionType::QueryParameter { name: "super_cool_actually".into() },
        ],
        is_independent_segments: false,
        target_duration: 5,
        first_media_sequence_number: 0,
        discontinuity_sequence_number: 12,
        finished: false,
        playlist_type: Some(PlaylistType::Event),
        hold_back_seconds: None,
        part_information: Some(PartInformation {
            part_hold_back_seconds: whole(9),
            part_target_duration: whole(3),
        }),
        iframes_only: false,
        playlist_delta_updates_information: Some(DeltaUpdateInfo {
            skip_boundary_seconds: whole(18),
            can_skip_dateranges: true,
        }),
        supports_blocking_playlist_reloads: true,
        metadata: MediaMetadata {
            date_ranges: vec![],
            skip: None,
            preload_hints: vec![PreloadHint {
                hint_type: PreloadHintType::Part,
                uri: "https://example.com/4.mp4".into(),
                start_byte_offset: 0,
                length_in_bytes: Some(400),
            }],
            rendition_reports: vec![RenditionReport {
                uri: "/different.m3u8".into(),
                last_sequence_number: None,
                last_part_index: None,
            }],
        },
    }
}

#[test]
fn serialize_media_playlist() {
    let mut output = String::new();
    let playlist = example_media_playlist();

    playlist.serialize(&mut output);

    assert_eq!(
        output,
        "#EXTM3U
#EXT-X-VERSION:11
#EXT-X-DEFINE:NAME=\"cool\",VALUE=\"foo\"
#EXT-X-DEFINE:IMPORT=\"not_cool\"
#EXT-X-DEFINE:QUERYPARAM=\"super_cool_actually\"
#EXT-X-START:TIME-OFFSET=2
#EXT-X-TARGETDURATION:5
#EXT-X-DISCONTINUITY-SEQUENCE:12
#EXT-X-PLAYLIST-TYPE:EVENT
#EXT-X-PART-INF:PART-TARGET=3
#EXT-X-SERVER-CONTROL:CAN-SKIP-UNTIL=18,CAN-SKIP-DATERANGES=YES,PART-HOLD-BACK=9,CAN-BLOCK-RELOAD=YES
#EXT-X-PRELOAD-HINT:TYPE=PART,URI=\"https://example.com/4.mp4\",BYTERANGE-LENGTH=400
#EXT-X-RENDITION-REPORT:URI=\"/different.m3u8\"
#EXTINF:5.045,This is the first thingy!
#EXT-X-BITRATE:8000
#EXT-X-KEY:METHOD=AES-128,URI=\"https://example.com/key.key\",IV=0xF91DC05,KEYFORMATVERSIONS=\"1/7/6\"
#EXT-X-MAP:URI=\"https://example.com/1.mp4\",BYTERANGE=\"400@0\"
#EXT-X-PROGRAM-DATE-TIME:2010-02-19T14:54:23.031+08:00
#EXT-X-PART:URI=\"https://example.com/1.mp4\",DURATION=2.5225,INDEPENDENT=YES,BYTERANGE=\"400\"
#EXT-X-PART:URI=\"https://example.com/1.mp4\",DURATION=2.5225,BYTERANGE=\"400@400\"
https://example.com/1.mp4
#EXTINF:5.045,This is the second thingy!
#EXT-X-PART:URI=\"https://example.com/2.mp4\",DURATION=2.5225,INDEPENDENT=YES,BYTERANGE=\"400\"
#EXT-X-PART:URI=\"https://example.com/2.mp4\",DURATION=2.5225,BYTERANGE=\"400@400\"
https://example.com/2.mp4
#EXTINF:5.045
#EXT-X-BITRATE:5000
#EXT-X-KEY:METHOD=NONE
#EXT-X-PART:URI=\"https://example.com/3.mp4\",DURATION=2.5225,INDEPENDENT=YES,BYTERANGE=\"400\"
#EXT-X-PART:URI=\"https://example.com/3.mp4\",DURATION=2.5225,BYTERANGE=\"400@400\"
https://example.com/3.mp4
"
    );
}

#[test]
fn serialize_is_idempotent() {
    let playlist = example_media_playlist();
    let mut first = String::new();
    playlist.serialize(&mut first);
    let mut second = String::new();
    playlist.serialize(&mut second);
    assert_eq!(first, second);

    let multivariant = example_multivariant_playlist();
    let mut first = String::new();
    multivariant.serialize(&mut first);
    let mut second = String::new();
    multivariant.serialize(&mut second);
    assert_eq!(first, second);
}

fn plain_segment(uri: &str, encryption: Option<EncryptionMethod>) -> MediaSegment {
    MediaSegment {
        uri: uri.into(),
        duration_seconds: FloatOrInteger::Integer(5),
        title: String::new(),
        byte_range_or_bitrate: None,
        is_discontinuity: false,
        encryption,
        media_initialization_section: None,
        absolute_time: None,
        is_gap: false,
        parts: vec![],
    }
}

fn plain_playlist(segments: Vec<MediaSegment>) -> MediaPlaylist {
    MediaPlaylist {
        segments,
        start_offset: None,
        variables: vec![],
        is_independent_segments: false,
        target_duration: 5,
        first_media_sequence_number: 0,
        discontinuity_sequence_number: 0,
        finished: false,
        playlist_type: None,
        hold_back_seconds: None,
        iframes_only: false,
        playlist_delta_updates_information: None,
        supports_blocking_playlist_reloads: false,
        part_information: None,
        metadata: MediaMetadata {
            date_ranges: vec![],
            skip: None,
            preload_hints: vec![],
            rendition_reports: vec![],
        },
    }
}

fn aes_key() -> EncryptionMethod {
    EncryptionMethod::Aes128 {
        uri: "k".into(),
        iv: None,
        key_format: KeyFormat::Identity,
        key_format_versions: vec![],
    }
}

#[test]
fn key_tag_suppressed_while_method_unchanged() {
    let playlist = plain_playlist(vec![
        plain_segment("s1.ts", Some(aes_key())),
        plain_segment("s2.ts", Some(aes_key())),
        plain_segment("s3.ts", None),
    ]);
    let mut output = String::new();
    playlist.serialize(&mut output);
    assert_eq!(
        output,
        "#EXTM3U
#EXT-X-TARGETDURATION:5
#EXTINF:5
#EXT-X-KEY:METHOD=AES-128,URI=\"k\"
s1.ts
#EXTINF:5
s2.ts
#EXTINF:5
#EXT-X-KEY:METHOD=NONE
s3.ts
"
    );
    assert_eq!(output.matches("#EXT-X-KEY").count(), 2);
}

#[test]
fn bitrate_segment_never_writes_byterange() {
    let mut segments = vec![
        plain_segment("s1.ts", None),
        plain_segment("s2.ts", None),
        plain_segment("s3.ts", None),
    ];
    segments[0].byte_range_or_bitrate = Some(ByteRangeOrBitrate::Bitrate(8000));
    segments[1].byte_range_or_bitrate = Some(ByteRangeOrBitrate::Bitrate(8000));
    segments[2].byte_range_or_bitrate = Some(ByteRangeOrBitrate::Bitrate(5000));
    let playlist = plain_playlist(segments);
    let mut output = String::new();
    playlist.serialize(&mut output);
    assert_eq!(
        output,
        "#EXTM3U
#EXT-X-TARGETDURATION:5
#EXTINF:5
#EXT-X-BITRATE:8000
s1.ts
#EXTINF:5
s2.ts
#EXTINF:5
#EXT-X-BITRATE:5000
s3.ts
"
    );
    assert!(!output.contains("BYTERANGE"));
}

#[test]
fn media_playlist_with_skip_golden() {
    let mut playlist = plain_playlist(vec![
        plain_segment("s1.ts", Some(EncryptionMethod::Aes128 {
            uri: "https://example.com/key.key".into(),
            iv: Some(0x0F91_DC05),
            key_format: KeyFormat::Identity,
            key_format_versions: vec![1, 7, 6],
        })),
        plain_segment("s2.ts", None),
    ]);
    playlist.metadata.skip = Some(SkipInformation {
        number_of_skipped_segments: 3,
        recently_removed_dataranges: vec!["a".into(), "b".into()],
    });
    let mut output = String::new();
    playlist.serialize(&mut output);
    assert_eq!(
        output,
        "#EXTM3U
#EXT-X-VERSION:10
#EXT-X-TARGETDURATION:5
#EXT-X-SKIP:SKIPPED-SEGMENTS=3,RECENTLY-REMOVED-DATERANGES=\"a\tb\"
#EXTINF:5
#EXT-X-KEY:METHOD=AES-128,URI=\"https://example.com/key.key\",IV=0xF91DC05,KEYFORMATVERSIONS=\"1/7/6\"
s1.ts
#EXTINF:5
#EXT-X-KEY:METHOD=NONE
s2.ts
"
    );
}

#[test]
fn version_rises_with_features_and_line_is_suppressed_at_one() {
    let plain = plain_playlist(vec![plain_segment("s1.ts", None)]);
    assert_eq!(plain.get_version(), 1);
    let mut output = String::new();
    plain.serialize(&mut output);
    assert!(!output.contains("#EXT-X-VERSION"));

    let mut with_iv = plain_playlist(vec![plain_segment(
        "s1.ts",
        Some(EncryptionMethod::Aes128 {
            uri: "k".into(),
            iv: Some(5),
            key_format: KeyFormat::Identity,
            key_format_versions: vec![],
        }),
    )]);
    assert_eq!(with_iv.get_version(), 2);

    with_iv.segments[0].duration_seconds = FloatOrInteger::Float(frac(5, 5, 1));
    assert_eq!(with_iv.get_version(), 3);

    with_iv.segments[0].byte_range_or_bitrate =
        Some(ByteRangeOrBitrate::ByteRange(ByteRange { length_bytes: 4, start_offset_bytes: None }));
    assert_eq!(with_iv.get_version(), 4);

    with_iv.segments[0].media_initialization_section =
        Some(MediaInitializationSection { uri: "i.mp4".into(), range: None });
    assert_eq!(with_iv.get_version(), 6);

    with_iv.iframes_only = true;
    assert_eq!(with_iv.get_version(), 5);

    with_iv.variables = vec![DefinitionType::Import { name: "x".into() }];
    assert_eq!(with_iv.get_version(), 8);

    with_iv.metadata.skip = Some(SkipInformation {
        number_of_skipped_segments: 1,
        recently_removed_dataranges: vec![],
    });
    assert_eq!(with_iv.get_version(), 9);

    with_iv.metadata.skip = Some(SkipInformation {
        number_of_skipped_segments: 1,
        recently_removed_dataranges: vec!["gone".into()],
    });
    assert_eq!(with_iv.get_version(), 10);

    with_iv.variables.push(DefinitionType::QueryParameter { name: "q".into() });
    assert_eq!(with_iv.get_version(), 11);
}

#[test]
fn multivariant_version_features() {
    let mut playlist = example_multivariant_playlist();
    assert_eq!(playlist.get_version(), 12);

    playlist.variant_streams[0].stream_info.required_video_layout = vec![];
    assert_eq!(playlist.get_version(), 11);

    playlist.variables = vec![DefinitionType::Inline { name: "a".into(), value: "b".into() }];
    assert_eq!(playlist.get_version(), 8);

    playlist.variables = vec![];
    assert_eq!(playlist.get_version(), 7);

    playlist.renditions_groups.pop();
    assert_eq!(playlist.get_version(), 1);
}

#[test]
fn serialize_default_media_playlist() {
    let playlist = MediaPlaylist::default();
    let mut output = String::new();
    playlist.serialize(&mut output);
    assert_eq!(output, "#EXTM3U\n#EXT-X-TARGETDURATION:0\n");

    let multivariant = MultivariantPlaylist::default();
    let mut output = String::new();
    multivariant.serialize(&mut output);
    assert_eq!(output, "#EXTM3U\n");
}
