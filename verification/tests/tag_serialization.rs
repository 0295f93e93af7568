use hls_playlist::tags::{DefinitionType, MediaType, Tag};
use hls_playlist::{
    AudioChannelInformation, ByteRange, ByteRangeWithOffset, ContentProtectionConfiguration,
    ContentSteering, DateTime, Decimal, DeltaUpdateInfo, EncryptionMethod, FloatOrInteger,
    HdcpLevel, InStreamId, KeyFormat, PlaylistType, PreloadHint, PreloadHintType,
    RenditionPlaybackPriority, RenditionReport, Resolution, SessionData, SessionDataValue,
    StreamInf, SupplementalCodec, UriFormat, VideoChannelSpecifier, VideoRange,
};

fn whole(n: u64) -> Decimal {
    Decimal::from_integer(n)
}

#[test]
fn serialize_m3u() {
    let mut output = String::new();
    Tag::M3u.serialize(&mut output);
    assert_eq!(output, "#EXTM3U\n");
}

#[test]
fn serialize_x_version() {
    let mut output = String::new();
    Tag::XVersion { version: 12 }.serialize(&mut output);
    assert_eq!(output, "#EXT-X-VERSION:12\n");
}

#[test]
fn serialize_x_independent_segments() {
    let mut output = String::new();
    Tag::XIndependentSegments.serialize(&mut output);
    assert_eq!(output, "#EXT-X-INDEPENDENT-SEGMENTS\n");
}

#[test]
fn serialize_x_start() {
    let mut output = String::new();
    Tag::XStart {
        offset_seconds: Decimal { negative: true, integer: 84, frac: 0, frac_len: 0 },
        is_precise: false,
    }
    .serialize(&mut output);
    assert_eq!(output, "#EXT-X-START:TIME-OFFSET=-84\n");

    output.clear();
    Tag::XStart {
        offset_seconds: Decimal { negative: false, integer: 5, frac: 53, frac_len: 4 },
        is_precise: true,
    }
    .serialize(&mut output);
    assert_eq!(output, "#EXT-X-START:TIME-OFFSET=5.0053,PRECISE=YES\n");
}

#[test]
fn serialize_x_define() {
    let mut output = String::new();
    Tag::XDefine(DefinitionType::Inline {
        name: "cool-param_A0".into(),
        value: "I am so cool".into(),
    })
    .serialize(&mut output);
    assert_eq!(output, "#EXT-X-DEFINE:NAME=\"cool-param_A0\",VALUE=\"I am so cool\"\n");

    output.clear();
    Tag::XDefine(DefinitionType::Import { name: "foobar-_A0".into() }).serialize(&mut output);
    assert_eq!(output, "#EXT-X-DEFINE:IMPORT=\"foobar-_A0\"\n");

    output.clear();
    Tag::XDefine(DefinitionType::QueryParameter { name: "bAz-_42".into() })
        .serialize(&mut output);
    assert_eq!(output, "#EXT-X-DEFINE:QUERYPARAM=\"bAz-_42\"\n");
}

#[test]
fn serialize_x_target_duration() {
    let mut output = String::new();
    Tag::XTargetDuration { target_duration_seconds: 6942042 }.serialize(&mut output);
    assert_eq!(output, "#EXT-X-TARGETDURATION:6942042\n");
}

#[test]
fn serialize_x_media_sequence() {
    let mut output = String::new();
    Tag::XMediaSequence { sequence_number: 42 }.serialize(&mut output);
    assert_eq!(output, "#EXT-X-MEDIA-SEQUENCE:42\n");
}

#[test]
fn serialize_x_discontinuity_sequence() {
    let mut output = String::new();
    Tag::XDiscontinuitySequence { sequence_number: 420 }.serialize(&mut output);
    assert_eq!(output, "#EXT-X-DISCONTINUITY-SEQUENCE:420\n");
}

#[test]
fn serialize_x_endlist() {
    let mut output = String::new();
    Tag::XEndList.serialize(&mut output);
    assert_eq!(output, "#EXT-X-ENDLIST\n");
}

#[test]
fn serialize_x_playlist_type() {
    let mut output = String::new();
    Tag::XPlaylistType(PlaylistType::Event).serialize(&mut output);
    assert_eq!(output, "#EXT-X-PLAYLIST-TYPE:EVENT\n");

    output.clear();
    Tag::XPlaylistType(PlaylistType::Vod).serialize(&mut output);
    assert_eq!(output, "#EXT-X-PLAYLIST-TYPE:VOD\n");
}

#[test]
fn serialize_x_i_frames_only() {
    let mut output = String::new();
    Tag::XIFramesOnly.serialize(&mut output);
    assert_eq!(output, "#EXT-X-I-FRAMES-ONLY\n");
}

#[test]
fn serialize_x_part_inf() {
    let mut output = String::new();
    Tag::XPartInf {
        part_target_duration_seconds: Decimal { negative: false, integer: 2, frac: 5, frac_len: 1 },
    }
    .serialize(&mut output);
    assert_eq!(output, "#EXT-X-PART-INF:PART-TARGET=2.5\n");
}

#[test]
fn serialize_x_server_control() {
    let mut output = String::new();
    Tag::XServerControl {
        delta_update_info: Some(DeltaUpdateInfo {
            skip_boundary_seconds: Decimal { negative: false, integer: 20, frac: 873, frac_len: 3 },
            can_skip_dateranges: true,
        }),
        hold_back: Some(whole(10)),
        part_hold_back: Some(Decimal { negative: false, integer: 10, frac: 285, frac_len: 3 }),
        can_block_reload: true,
    }
    .serialize(&mut output);
    assert_eq!(output, "#EXT-X-SERVER-CONTROL:CAN-SKIP-UNTIL=20.873,CAN-SKIP-DATERANGES=YES,HOLD-BACK=10,PART-HOLD-BACK=10.285,CAN-BLOCK-RELOAD=YES\n");

    output.clear();
    Tag::XServerControl {
        delta_update_info: Some(DeltaUpdateInfo {
            skip_boundary_seconds: Decimal { negative: false, integer: 20, frac: 873, frac_len: 3 },
            can_skip_dateranges: false,
        }),
        hold_back: Some(whole(10)),
        part_hold_back: Some(Decimal { negative: false, integer: 10, frac: 285, frac_len: 3 }),
        can_block_reload: true,
    }
    .serialize(&mut output);
    assert_eq!(output, "#EXT-X-SERVER-CONTROL:CAN-SKIP-UNTIL=20.873,HOLD-BACK=10,PART-HOLD-BACK=10.285,CAN-BLOCK-RELOAD=YES\n");

    output.clear();
    Tag::XServerControl {
        delta_update_info: None,
        hold_back: None,
        part_hold_back: None,
        can_block_reload: false,
    }
    .serialize(&mut output);
    assert_eq!(output, "#EXT-X-SERVER-CONTROL:\n");
}

#[test]
fn serialize_x_server_control_block_reload_only() {
    let mut output = String::new();
    Tag::XServerControl {
        delta_update_info: None,
        hold_back: None,
        part_hold_back: None,
        can_block_reload: true,
    }
    .serialize(&mut output);
    assert_eq!(output, "#EXT-X-SERVER-CONTROL:CAN-BLOCK-RELOAD=YES\n");
}

#[test]
fn serialize_inf() {
    let mut output = String::new();
    Tag::Inf {
        duration_seconds: FloatOrInteger::Float(Decimal {
            negative: false,
            integer: 5,
            frac: 34,
            frac_len: 2,
        }),
        title: String::new(),
    }
    .serialize(&mut output);
    assert_eq!(output, "#EXTINF:5.34\n");

    output.clear();
    Tag::Inf {
        duration_seconds: FloatOrInteger::Integer(5),
        title: "super cool title".into(),
    }
    .serialize(&mut output);
    assert_eq!(output, "#EXTINF:5,super cool title\n");
}

#[test]
fn serialize_x_byterange() {
    let mut output = String::new();
    Tag::XByterange(ByteRange { length_bytes: 1200, start_offset_bytes: None })
        .serialize(&mut output);
    assert_eq!(output, "#EXT-X-BYTERANGE:1200\n");

    output.clear();
    Tag::XByterange(ByteRange { length_bytes: 1200, start_offset_bytes: Some(158) })
        .serialize(&mut output);
    assert_eq!(output, "#EXT-X-BYTERANGE:1200@158\n");
}

#[test]
fn serialize_x_discontinuity() {
    let mut output = String::new();
    Tag::XDiscontinuity.serialize(&mut output);
    assert_eq!(output, "#EXT-X-DISCONTINUITY\n");
}

#[test]
fn serialize_x_key() {
    let mut output = String::new();
    Tag::XKey(None).serialize(&mut output);
    assert_eq!(output, "#EXT-X-KEY:METHOD=NONE\n");

    output.clear();
    Tag::XKey(Some(EncryptionMethod::Aes128 {
        uri: "https://example.com/foo.key".into(),
        iv: Some(0x0F91_DC05),
        key_format: KeyFormat::Other("super cool key format".into()),
        key_format_versions: vec![1, 16],
    }))
    .serialize(&mut output);
    assert_eq!(output, "#EXT-X-KEY:METHOD=AES-128,URI=\"https://example.com/foo.key\",IV=0xF91DC05,KEYFORMAT=\"super cool key format\",KEYFORMATVERSIONS=\"1/16\"\n");

    output.clear();
    Tag::XKey(Some(EncryptionMethod::Aes128 {
        uri: "https://example.com/foo.key".into(),
        iv: None,
        key_format: KeyFormat::Identity,
        key_format_versions: vec![],
    }))
    .serialize(&mut output);
    assert_eq!(output, "#EXT-X-KEY:METHOD=AES-128,URI=\"https://example.com/foo.key\"\n");

    output.clear();
    Tag::XKey(Some(EncryptionMethod::SampleAes {
        uri: "https://example.com/foo.key".into(),
        iv: Some(0x0F91_DC05),
        key_format_versions: vec![1, 16],
    }))
    .serialize(&mut output);
    assert_eq!(output, "#EXT-X-KEY:METHOD=SAMPLE-AES,URI=\"https://example.com/foo.key\",IV=0xF91DC05,KEYFORMATVERSIONS=\"1/16\"\n");

    output.clear();
    Tag::XKey(Some(EncryptionMethod::SampleAesCtr {
        uri: "https://example.com/foo.key".into(),
        key_format_versions: vec![1, 16],
    }))
    .serialize(&mut output);
    assert_eq!(output, "#EXT-X-KEY:METHOD=SAMPLE-AES-CTR,URI=\"https://example.com/foo.key\",KEYFORMATVERSIONS=\"1/16\"\n");
}

#[test]
fn serialize_x_map() {
    let mut output = String::new();
    Tag::XMap {
        uri: "https://example.com/0.mp4".into(),
        range: Some(ByteRangeWithOffset { length_bytes: 400, start_offset_bytes: 0 }),
    }
    .serialize(&mut output);
    assert_eq!(output, "#EXT-X-MAP:URI=\"https://example.com/0.mp4\",BYTERANGE=\"400@0\"\n");

    output.clear();
    Tag::XMap { uri: "https://example.com/0.mp4".into(), range: None }.serialize(&mut output);
    assert_eq!(output, "#EXT-X-MAP:URI=\"https://example.com/0.mp4\"\n");
}

#[test]
fn serialize_x_program_date_time() {
    let mut output = String::new();
    let time = DateTime {
        year: 2010,
        month: 2,
        day: 19,
        hour: 14,
        minute: 54,
        second: 23,
        nanosecond: 31_000_000,
        offset_minutes: 8 * 60,
    };
    Tag::XProgramDateTime(time).serialize(&mut output);
    assert_eq!(output, "#EXT-X-PROGRAM-DATE-TIME:2010-02-19T14:54:23.031+08:00\n");
}

#[test]
fn serialize_x_program_date_time_whole_second_negative_offset() {
    let mut output = String::new();
    let time = DateTime {
        year: 2018,
        month: 1,
        day: 26,
        hour: 18,
        minute: 30,
        second: 9,
        nanosecond: 0,
        offset_minutes: -(4 * 60 + 30),
    };
    Tag::XProgramDateTime(time).serialize(&mut output);
    assert_eq!(output, "#EXT-X-PROGRAM-DATE-TIME:2018-01-26T18:30:09-04:30\n");
}

#[test]
fn serialize_x_program_date_time_micros() {
    let mut output = String::new();
    let time = DateTime {
        year: 2018,
        month: 1,
        day: 26,
        hour: 18,
        minute: 30,
        second: 9,
        nanosecond: 453_829_000,
        offset_minutes: 0,
    };
    Tag::XProgramDateTime(time).serialize(&mut output);
    assert_eq!(output, "#EXT-X-PROGRAM-DATE-TIME:2018-01-26T18:30:09.453829+00:00\n");
}

#[test]
fn serialize_x_gap() {
    let mut output = String::new();
    Tag::XGap.serialize(&mut output);
    assert_eq!(output, "#EXT-X-GAP\n");
}

#[test]
fn serialize_x_bitrate() {
    let mut output = String::new();
    Tag::XBitrate { kbps: 8000 }.serialize(&mut output);
    assert_eq!(output, "#EXT-X-BITRATE:8000\n");
}

#[test]
fn serialize_x_part() {
    let mut output = String::new();
    Tag::XPart {
        uri: "https://example.com/1.mp4".into(),
        duration_seconds: Decimal { negative: false, integer: 2, frac: 5, frac_len: 1 },
        is_independent: true,
        byte_range: Some(ByteRange { length_bytes: 400, start_offset_bytes: Some(0) }),
        is_gap: true,
    }
    .serialize(&mut output);
    assert_eq!(output, "#EXT-X-PART:URI=\"https://example.com/1.mp4\",DURATION=2.5,INDEPENDENT=YES,BYTERANGE=\"400@0\",GAP=YES\n");

    output.clear();
    Tag::XPart {
        uri: "https://example.com/1.mp4".into(),
        duration_seconds: Decimal { negative: false, integer: 2, frac: 5, frac_len: 1 },
        is_independent: false,
        byte_range: Some(ByteRange { length_bytes: 400, start_offset_bytes: None }),
        is_gap: false,
    }
    .serialize(&mut output);
    assert_eq!(output, "#EXT-X-PART:URI=\"https://example.com/1.mp4\",DURATION=2.5,BYTERANGE=\"400\"\n");
}

#[test]
fn serialize_x_skip() {
    let mut output = String::new();
    Tag::XSkip {
        number_of_skipped_segments: 42,
        recently_removed_dataranges: vec![
            "This is my favorite data range".into(),
            "I hate this one though".into(),
        ],
    }
    .serialize(&mut output);
    assert_eq!(output, "#EXT-X-SKIP:SKIPPED-SEGMENTS=42,RECENTLY-REMOVED-DATERANGES=\"This is my favorite data range\tI hate this one though\"\n");

    output.clear();
    Tag::XSkip { number_of_skipped_segments: 68, recently_removed_dataranges: vec![] }
        .serialize(&mut output);
    assert_eq!(output, "#EXT-X-SKIP:SKIPPED-SEGMENTS=68\n");
}

#[test]
fn serialize_x_preload_hint() {
    let mut output = String::new();
    Tag::XPreloadHint(PreloadHint {
        hint_type: PreloadHintType::Part,
        uri: "https://example.com/1.mp4".into(),
        start_byte_offset: 400,
        length_in_bytes: Some(400),
    })
    .serialize(&mut output);
    assert_eq!(output, "#EXT-X-PRELOAD-HINT:TYPE=PART,URI=\"https://example.com/1.mp4\",BYTERANGE-START=400,BYTERANGE-LENGTH=400\n");

    output.clear();
    Tag::XPreloadHint(PreloadHint {
        hint_type: PreloadHintType::InitializationSection,
        uri: "https://example.com/0.mp4".into(),
        start_byte_offset: 0,
        length_in_bytes: None,
    })
    .serialize(&mut output);
    assert_eq!(output, "#EXT-X-PRELOAD-HINT:TYPE=MAP,URI=\"https://example.com/0.mp4\"\n");
}

#[test]
fn serialize_x_rendition_report() {
    let mut output = String::new();
    Tag::XRenditionReport(RenditionReport {
        uri: "/2.m3u8".into(),
        last_sequence_number: Some(420),
        last_part_index: Some(1),
    })
    .serialize(&mut output);
    assert_eq!(output, "#EXT-X-RENDITION-REPORT:URI=\"/2.m3u8\",LAST-MSN=420,LAST-PART=1\n");

    output.clear();
    Tag::XRenditionReport(RenditionReport {
        uri: "/2.m3u8".into(),
        last_sequence_number: None,
        last_part_index: None,
    })
    .serialize(&mut output);
    assert_eq!(output, "#EXT-X-RENDITION-REPORT:URI=\"/2.m3u8\"\n");
}

#[test]
fn serialize_x_media() {
    let mut output = String::new();
    Tag::XMedia {
        media_type: MediaType::Audio {
            uri: Some("https://example.com/1.m3u8".into()),
            channels: Some(AudioChannelInformation::WithSpecialUsageIdentifiers {
                number_of_channels: 2,
                audio_coding_identifiers: vec!["idk".into(), "This is kinda weird".into()],
                binaural: true,
                immersive: true,
                downmix: true,
            }),
            bit_depth: Some(16),
            sample_rate: Some(40000),
        },
        group_id: "really cool group".into(),
        language: Some("en-US".into()),
        assoc_language: Some("de".into()),
        name: "english audio".into(),
        stable_rendition_id: Some("azBY09+/=.-_".into()),
        playback_priority: RenditionPlaybackPriority::Default,
        characteristics: vec![
            "public.accessibility.describes-video".into(),
            "private.cool.example".into(),
        ],
    }
    .serialize(&mut output);
    assert_eq!(output, "#EXT-X-MEDIA:TYPE=AUDIO,URI=\"https://example.com/1.m3u8\",GROUP-ID=\"really cool group\",LANGUAGE=\"en-US\",ASSOC-LANGUAGE=\"de\",NAME=\"english audio\",STABLE-RENDITION-ID=\"azBY09+/=.-_\",DEFAULT=YES,AUTOSELECT=YES,BIT-DEPTH=16,SAMPLE-RATE=40000,CHARACTERISTICS=\"public.accessibility.describes-video,private.cool.example\",CHANNELS=\"2/idk,This is kinda weird/BINAURAL,IMMERSIVE,DOWNMIX\"\n");

    output.clear();
    Tag::XMedia {
        media_type: MediaType::Audio {
            uri: None,
            channels: Some(AudioChannelInformation::WithAudioCodingIdentifiers {
                number_of_channels: 6,
                audio_coding_identifiers: vec![],
            }),
            bit_depth: None,
            sample_rate: None,
        },
        group_id: "really cool group".into(),
        language: Some("en-US".into()),
        assoc_language: Some("de".into()),
        name: "english audio".into(),
        stable_rendition_id: Some("azBY09+/=.-_".into()),
        playback_priority: RenditionPlaybackPriority::Default,
        characteristics: vec![
            "public.accessibility.describes-video".into(),
            "private.cool.example".into(),
        ],
    }
    .serialize(&mut output);
    assert_eq!(output, "#EXT-X-MEDIA:TYPE=AUDIO,GROUP-ID=\"really cool group\",LANGUAGE=\"en-US\",ASSOC-LANGUAGE=\"de\",NAME=\"english audio\",STABLE-RENDITION-ID=\"azBY09+/=.-_\",DEFAULT=YES,AUTOSELECT=YES,CHARACTERISTICS=\"public.accessibility.describes-video,private.cool.example\",CHANNELS=\"6/-\"\n");

    output.clear();
    Tag::XMedia {
        media_type: MediaType::ClosedCaptions { in_stream_id: InStreamId::Cc2 },
        group_id: "really cool group".into(),
        language: None,
        assoc_language: None,
        name: "english audio".into(),
        stable_rendition_id: None,
        playback_priority: RenditionPlaybackPriority::AutoSelect,
        characteristics: vec![],
    }
    .serialize(&mut output);
    assert_eq!(output, "#EXT-X-MEDIA:TYPE=CLOSED-CAPTIONS,GROUP-ID=\"really cool group\",NAME=\"english audio\",AUTOSELECT=YES,INSTREAM-ID=\"CC2\"\n");

    output.clear();
    Tag::XMedia {
        media_type: MediaType::Subtitles { uri: "whyeven.mp4".into(), forced: true },
        group_id: "really cool group".into(),
        language: None,
        assoc_language: None,
        name: "english audio".into(),
        stable_rendition_id: None,
        playback_priority: RenditionPlaybackPriority::AutoSelect,
        characteristics: vec![],
    }
    .serialize(&mut output);
    assert_eq!(output, "#EXT-X-MEDIA:TYPE=SUBTITLES,URI=\"whyeven.mp4\",GROUP-ID=\"really cool group\",NAME=\"english audio\",AUTOSELECT=YES,FORCED=YES\n");

    output.clear();
    Tag::XMedia {
        media_type: MediaType::Video { uri: None },
        group_id: "really cool group".into(),
        language: None,
        assoc_language: None,
        name: "english audio".into(),
        stable_rendition_id: None,
        playback_priority: RenditionPlaybackPriority::Unspecified,
        characteristics: vec![],
    }
    .serialize(&mut output);
    assert_eq!(output, "#EXT-X-MEDIA:TYPE=VIDEO,GROUP-ID=\"really cool group\",NAME=\"english audio\"\n");
}

fn full_stream_inf() -> StreamInf {
    StreamInf {
        bandwidth_bits_per_second: 82006,
        average_bandwidth_bits_per_second: Some(80000),
        score: Some(Decimal { negative: false, integer: 2, frac: 0, frac_len: 0 }),
        codecs: vec!["mp4a.40.2".into(), "avc1.4d401e".into()],
        supplemental_codecs: vec![
            SupplementalCodec {
                supplemental_codec: "somethin".into(),
                compatibility_brands: vec![],
            },
            SupplementalCodec {
                supplemental_codec: "dvh1.08.07".into(),
                compatibility_brands: vec!["db4h".into(), "idk".into()],
            },
        ],
        resolution: Some(Resolution { width: 1080, height: 1920 }),
        hdcp_level: Some(HdcpLevel::Type1),
        allowed_cpc: vec![
            ContentProtectionConfiguration {
                key_format: "com.example.drm1".into(),
                cpc_labels: vec!["SMART-TV".into(), "PC".into()],
            },
            ContentProtectionConfiguration {
                key_format: "com.example.drm2".into(),
                cpc_labels: vec![],
            },
        ],
        video_range: VideoRange::Pq,
        required_video_layout: vec![VideoChannelSpecifier::Stereo, VideoChannelSpecifier::Mono],
        stable_variant_id: Some("azBY09+/=.-_".into()),
        pathway_id: Some("cool-pathway".into()),
    }
}

#[test]
fn serialize_x_stream_inf() {
    let mut output = String::new();
    Tag::XStreamInf {
        stream_inf: full_stream_inf(),
        frame_rate: Some(59943),
        audio_group_id: Some("great-audio".into()),
        video_group_id: Some("great-video".into()),
        subtitles_group_id: Some("great-subtitles".into()),
        closed_captions_group_id: Some("great-closed-captions".into()),
        uri: "great-playlist.m3u8".into(),
    }
    .serialize(&mut output);
    assert_eq!(output, "#EXT-X-STREAM-INF:BANDWIDTH=82006,AVERAGE-BANDWIDTH=80000,SCORE=2,CODECS=\"mp4a.40.2,avc1.4d401e\",SUPPLEMENTAL-CODECS=\"somethin,dvh1.08.07/db4h/idk\",RESOLUTION=1080x1920,HDCP-LEVEL=TYPE-1,ALLOWED-CPC=\"com.example.drm1:SMART-TV/PC,com.example.drm2:\",VIDEO-RANGE=PQ,REQ-VIDEO-LAYOUT=\"CH-STEREO,CH-MONO\",STABLE-VARIANT-ID=\"azBY09+/=.-_\",PATHWAY-ID=\"cool-pathway\",FRAME-RATE=59.943,AUDIO=\"great-audio\",VIDEO=\"great-video\",SUBTITLES=\"great-subtitles\",CLOSED-CAPTIONS=\"great-closed-captions\"\ngreat-playlist.m3u8\n");

    let mut output = String::new();
    Tag::XStreamInf {
        stream_inf: StreamInf {
            bandwidth_bits_per_second: 82006,
            average_bandwidth_bits_per_second: None,
            score: None,
            codecs: vec![],
            supplemental_codecs: vec![],
            resolution: None,
            hdcp_level: None,
            allowed_cpc: vec![],
            video_range: VideoRange::Sdr,
            required_video_layout: vec![VideoChannelSpecifier::Mono],
            stable_variant_id: None,
            pathway_id: None,
        },
        frame_rate: None,
        audio_group_id: None,
        video_group_id: None,
        subtitles_group_id: None,
        closed_captions_group_id: None,
        uri: "great-playlist.m3u8".into(),
    }
    .serialize(&mut output);
    assert_eq!(output, "#EXT-X-STREAM-INF:BANDWIDTH=82006\ngreat-playlist.m3u8\n");
}

#[test]
fn serialize_x_i_frame_stream_inf() {
    let mut output = String::new();
    Tag::XIFrameStreamInf {
        stream_inf: full_stream_inf(),
        video_group_id: Some("great-video".into()),
        uri: "https://example.com/example.m3u8".into(),
    }
    .serialize(&mut output);
    assert_eq!(output, "#EXT-X-I-FRAME-STREAM-INF:BANDWIDTH=82006,AVERAGE-BANDWIDTH=80000,SCORE=2,CODECS=\"mp4a.40.2,avc1.4d401e\",SUPPLEMENTAL-CODECS=\"somethin,dvh1.08.07/db4h/idk\",RESOLUTION=1080x1920,HDCP-LEVEL=TYPE-1,ALLOWED-CPC=\"com.example.drm1:SMART-TV/PC,com.example.drm2:\",VIDEO-RANGE=PQ,REQ-VIDEO-LAYOUT=\"CH-STEREO,CH-MONO\",STABLE-VARIANT-ID=\"azBY09+/=.-_\",PATHWAY-ID=\"cool-pathway\",VIDEO=\"great-video\",URI=\"https://example.com/example.m3u8\"\n");
}

#[test]
fn serialize_x_session_data() {
    let mut output = String::new();
    Tag::XSessionData(SessionData {
        data_id: "com.example.movie.title".into(),
        value: SessionDataValue::Value { value: "I'm important".into(), language: Some("en".into()) },
    })
    .serialize(&mut output);
    assert_eq!(output, "#EXT-X-SESSION-DATA:DATA-ID=\"com.example.movie.title\",VALUE=\"I'm important\",LANGUAGE=\"en\"\n");

    output.clear();
    Tag::XSessionData(SessionData {
        data_id: "com.example.movie.title".into(),
        value: SessionDataValue::Value { value: "I'm important".into(), language: None },
    })
    .serialize(&mut output);
    assert_eq!(output, "#EXT-X-SESSION-DATA:DATA-ID=\"com.example.movie.title\",VALUE=\"I'm important\"\n");

    output.clear();
    Tag::XSessionData(SessionData {
        data_id: "com.example.movie.title".into(),
        value: SessionDataValue::Uri { uri: "/important.json".into(), format: UriFormat::Json },
    })
    .serialize(&mut output);
    assert_eq!(output, "#EXT-X-SESSION-DATA:DATA-ID=\"com.example.movie.title\",URI=\"/important.json\",FORMAT=JSON\n");

    output.clear();
    Tag::XSessionData(SessionData {
        data_id: "com.example.movie.title".into(),
        value: SessionDataValue::Uri { uri: "/important.bin".into(), format: UriFormat::Raw },
    })
    .serialize(&mut output);
    assert_eq!(output, "#EXT-X-SESSION-DATA:DATA-ID=\"com.example.movie.title\",URI=\"/important.bin\",FORMAT=RAW\n");
}

#[test]
fn serialize_x_session_key() {
    let mut output = String::new();
    Tag::XSessionKey(EncryptionMethod::Aes128 {
        uri: "https://example.com/foo.key".into(),
        iv: Some(0x0F91_DC05),
        key_format: KeyFormat::Other("super cool key format".into()),
        key_format_versions: vec![1, 16],
    })
    .serialize(&mut output);
    assert_eq!(output, "#EXT-X-SESSION-KEY:METHOD=AES-128,URI=\"https://example.com/foo.key\",IV=0xF91DC05,KEYFORMAT=\"super cool key format\",KEYFORMATVERSIONS=\"1/16\"\n");

    output.clear();
    Tag::XSessionKey(EncryptionMethod::SampleAesCtr {
        uri: "https://example.com/foo.key".into(),
        key_format_versions: vec![1, 16],
    })
    .serialize(&mut output);
    assert_eq!(output, "#EXT-X-SESSION-KEY:METHOD=SAMPLE-AES-CTR,URI=\"https://example.com/foo.key\",KEYFORMATVERSIONS=\"1/16\"\n");
}

#[test]
fn serialize_x_content_steering() {
    let mut output = String::new();
    Tag::XContentSteering(ContentSteering {
        server_uri: "https://example.com/steering.json".into(),
        pathway_id: Some("hi".into()),
    })
    .serialize(&mut output);
    assert_eq!(output, "#EXT-X-CONTENT-STEERING:SERVER-URI=\"https://example.com/steering.json\",PATHWAY-ID=\"hi\"\n");

    output.clear();
    Tag::XContentSteering(ContentSteering {
        server_uri: "https://example.com/steering.json".into(),
        pathway_id: None,
    })
    .serialize(&mut output);
    assert_eq!(output, "#EXT-X-CONTENT-STEERING:SERVER-URI=\"https://example.com/steering.json\"\n");
}

#[test]
fn serialize_x_daterange() {
    let mut output = String::new();
    Tag::XDateRange(hls_playlist::DateRange {
        id: "splice-6FFFFFF0".into(),
        class: Some("com.example.class".into()),
        start_date: DateTime {
            year: 2014,
            month: 3,
            day: 5,
            hour: 11,
            minute: 15,
            second: 0,
            nanosecond: 0,
            offset_minutes: -8 * 60,
        },
        cue: Some(hls_playlist::DateRangeCue {
            once: true,
            position: hls_playlist::DateRangeCuePosition::Pre,
        }),
        end_date: Some(DateTime {
            year: 2014,
            month: 3,
            day: 5,
            hour: 11,
            minute: 16,
            second: 0,
            nanosecond: 0,
            offset_minutes: -8 * 60,
        }),
        duration_seconds: Some(Decimal { negative: false, integer: 59, frac: 993, frac_len: 3 }),
        planned_duration_seconds: Some(whole(60)),
        client_attributes: vec![
            (
                "COM-EXAMPLE-AD-ID".into(),
                hls_playlist::AttributeValue::String("XYZ123".into()),
            ),
            (
                "COM-EXAMPLE-BLOB".into(),
                hls_playlist::AttributeValue::Bytes(vec![1, 2, 3, 15, 16]),
            ),
            (
                "COM-EXAMPLE-SCORE".into(),
                hls_playlist::AttributeValue::Float(Decimal {
                    negative: false,
                    integer: 1,
                    frac: 25,
                    frac_len: 2,
                }),
            ),
        ],
        scte35_cmd: vec![],
        scte35_in: vec![0xFC, 0x00],
        scte35_out: vec![0xFC, 0x30, 0x20],
        end_on_next: false,
    })
    .serialize(&mut output);
    assert_eq!(output, "#EXT-X-DATERANGE:ID=\"splice-6FFFFFF0\",CLASS=\"com.example.class\",START-DATE=\"2014-03-05T11:15:00-08:00\",CUE=\"PRE,ONCE\",END-DATE=\"2014-03-05T11:16:00-08:00\",DURATION=59.993,PLANNED-DURATION=60,X-COM-EXAMPLE-AD-ID=\"XYZ123\",X-COM-EXAMPLE-BLOB=0x0102030F10,X-COM-EXAMPLE-SCORE=1.25,SCTE35-OUT=0xFC3020,SCTE35-IN=0xFC00\n");

    output.clear();
    Tag::XDateRange(hls_playlist::DateRange {
        id: "minimal".into(),
        class: None,
        start_date: DateTime {
            year: 2014,
            month: 3,
            day: 5,
            hour: 11,
            minute: 15,
            second: 0,
            nanosecond: 0,
            offset_minutes: 0,
        },
        cue: Some(hls_playlist::DateRangeCue {
            once: false,
            position: hls_playlist::DateRangeCuePosition::Neither,
        }),
        end_date: None,
        duration_seconds: None,
        planned_duration_seconds: None,
        client_attributes: vec![],
        scte35_cmd: vec![],
        scte35_in: vec![],
        scte35_out: vec![],
        end_on_next: true,
    })
    .serialize(&mut output);
    assert_eq!(output, "#EXT-X-DATERANGE:ID=\"minimal\",START-DATE=\"2014-03-05T11:15:00+00:00\",CUE=\"\",END-ON-NEXT=YES\n");
}

#[test]
fn serialize_x_key_zero_iv() {
    let mut output = String::new();
    Tag::XKey(Some(EncryptionMethod::SampleAes {
        uri: "k".into(),
        iv: Some(0),
        key_format_versions: vec![],
    }))
    .serialize(&mut output);
    assert_eq!(output, "#EXT-X-KEY:METHOD=SAMPLE-AES,URI=\"k\",IV=0x0\n");
}

#[test]
fn serialize_x_program_date_time_small_year_is_zero_padded() {
    let mut output = String::new();
    let time = DateTime {
        year: 33,
        month: 12,
        day: 1,
        hour: 0,
        minute: 5,
        second: 7,
        nanosecond: 0,
        offset_minutes: 0,
    };
    Tag::XProgramDateTime(time).serialize(&mut output);
    assert_eq!(output, "#EXT-X-PROGRAM-DATE-TIME:0033-12-01T00:05:07+00:00\n");
}

#[test]
fn serialize_x_start_negative_fraction() {
    let mut output = String::new();
    Tag::XStart {
        offset_seconds: Decimal { negative: true, integer: 0, frac: 5, frac_len: 2 },
        is_precise: false,
    }
    .serialize(&mut output);
    assert_eq!(output, "#EXT-X-START:TIME-OFFSET=-0.05\n");
}
