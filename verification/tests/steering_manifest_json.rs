use hls_playlist::steering_manifest::{PathwayClone, SteeringManifest, UriReplacement};

#[test]
fn serialize_minimal_manifest() {
    let manifest = SteeringManifest {
        ttl_seconds: 300,
        reload_uri: None,
        pathway_priority: vec!["CDN-A".into()],
        pathway_clones: vec![],
    };
    let mut output = String::new();
    manifest.serialize(&mut output);
    assert_eq!(output, "{\"VERSION\":1,\"TTL\":300,\"PATHWAY-PRIORITY\":[\"CDN-A\"]}");
}

#[test]
fn serialize_manifest_with_reload_uri_and_priorities() {
    let manifest = SteeringManifest {
        ttl_seconds: 120,
        reload_uri: Some("https://example.com/steering?session=123".into()),
        pathway_priority: vec!["CDN-A".into(), "CDN-B".into(), "CDN-C".into()],
        pathway_clones: vec![],
    };
    let mut output = String::new();
    manifest.serialize(&mut output);
    assert_eq!(
        output,
        "{\"VERSION\":1,\"TTL\":120,\"RELOAD-URI\":\"https://example.com/steering?session=123\",\"PATHWAY-PRIORITY\":[\"CDN-A\",\"CDN-B\",\"CDN-C\"]}"
    );
}

#[test]
fn serialize_manifest_with_clones() {
    let manifest = SteeringManifest {
        ttl_seconds: 300,
        reload_uri: None,
        pathway_priority: vec!["CDN-A".into(), "CDN-A-CLONE".into()],
        pathway_clones: vec![PathwayClone {
            base_id: "CDN-A".into(),
            id: "CDN-A-CLONE".into(),
            uri_replacement: UriReplacement {
                host: Some("backup.example.com".into()),
                query_parameters: Some(vec![("token".into(), "abc".into())]),
                per_variant_uris: Some(vec![(
                    "low".into(),
                    "https://backup.example.com/low.m3u8".into(),
                )]),
                per_rendition_uris: None,
            },
        }],
    };
    let mut output = String::new();
    manifest.serialize(&mut output);
    assert_eq!(
        output,
        "{\"VERSION\":1,\"TTL\":300,\"PATHWAY-PRIORITY\":[\"CDN-A\",\"CDN-A-CLONE\"],\"PATHWAY-CLONES\":[{\"BASE-ID\":\"CDN-A\",\"ID\":\"CDN-A-CLONE\",\"URI-REPLACEMENT\":{\"HOST\":\"backup.example.com\",\"PARAMS\":{\"token\":\"abc\"},\"PER-VARIANT-URIS\":{\"low\":\"https://backup.example.com/low.m3u8\"}}}]}"
    );
}

#[test]
fn serialize_replacement_without_host_has_no_leading_comma() {
    let replacement = UriReplacement {
        host: None,
        query_parameters: None,
        per_variant_uris: None,
        per_rendition_uris: Some(vec![("r1".into(), "https://other.example.com/a.m3u8".into())]),
    };
    let mut output = String::new();
    replacement.serialize(&mut output);
    assert_eq!(
        output,
        "{\"PER-RENDITION-URIS\":{\"r1\":\"https://other.example.com/a.m3u8\"}}"
    );

    let empty = UriReplacement {
        host: None,
        query_parameters: None,
        per_variant_uris: None,
        per_rendition_uris: None,
    };
    let mut output = String::new();
    empty.serialize(&mut output);
    assert_eq!(output, "{}");
}

#[test]
fn json_strings_are_escaped() {
    let manifest = SteeringManifest {
        ttl_seconds: 1,
        reload_uri: Some("a\"b\\c\nd\te\u{8}f\u{c}g\rh\u{1f}i".into()),
        pathway_priority: vec!["p".into()],
        pathway_clones: vec![],
    };
    let mut output = String::new();
    manifest.serialize(&mut output);
    assert_eq!(
        output,
        "{\"VERSION\":1,\"TTL\":1,\"RELOAD-URI\":\"a\\\"b\\\\c\\nd\\te\\bf\\fg\\rh\\u001fi\",\"PATHWAY-PRIORITY\":[\"p\"]}"
    );
}
