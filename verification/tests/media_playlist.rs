use hls_playlist::decimal::Decimal;
use hls_playlist::error::Error;
use hls_playlist::media_playlist::{
    parse, Key, MediaPlaylist, MediaSegment, Method, PlaylistType,
};

fn decimal(text: &str) -> Decimal {
    Decimal::new(text).unwrap()
}

fn seconds(duration: &Decimal) -> f32 {
    lexical::parse::<f64, _>(duration.as_str()).unwrap() as f32
}

#[test]
fn test_media_playlist() {
    let input = r#"
			#EXTM3U
			#EXT-X-TARGETDURATION:17
			#EXT-X-ALLOW-CACHE:YES
			#EXT-X-PLAYLIST-TYPE:VOD
			#EXT-X-KEY:METHOD=AES-128,URI="https://example.com/mon.key"
			#EXT-X-VERSION:3
			#EXT-X-MEDIA-SEQUENCE:1
			#EXTINF:6.006,
			https://example.com/segment-1.ts
			#EXTINF:4.588,
			https://example.com/segment-2.ts
			#EXT-X-ENDLIST
		"#;

    let media_playlist = parse(input).unwrap();
    assert_eq!(
        media_playlist,
        MediaPlaylist {
            version: 3,
            media_sequence: 1,
            key: Some(Key {
                method: Method::Aes128,
                uri: "https://example.com/mon.key".to_string(),
            }),
            allow_cache: true,
            target_duration: 17,
            playlist_type: PlaylistType::Vod,
            iframes_only: false,
            segments: vec![
                MediaSegment {
                    duration: decimal("6.006"),
                    byte_range: None,
                    url: "https://example.com/segment-1.ts".to_string(),
                },
                MediaSegment {
                    duration: decimal("4.588"),
                    byte_range: None,
                    url: "https://example.com/segment-2.ts".to_string(),
                },
            ],
        }
    );
    assert_eq!(seconds(&media_playlist.segments[0].duration), 6.006);
    assert_eq!(seconds(&media_playlist.segments[1].duration), 4.588);
}

#[test]
fn test_media_playlist_iframes() {
    let input = r#"
			#EXTM3U
			#EXT-X-TARGETDURATION:3
			#EXT-X-VERSION:4
			#EXT-X-MEDIA-SEQUENCE:1
			#EXT-X-PLAYLIST-TYPE:VOD
			#EXT-X-I-FRAMES-ONLY
			#EXTINF:1.120,
			#EXT-X-BYTERANGE:1316@376
			https://example.com/segment-1.ts
			#EXTINF:6.720,
			#EXT-X-BYTERANGE:44744@7896
			https://example.com/segment-2.ts
			#EXT-X-ENDLIST
		"#;

    let media_playlist = parse(input).unwrap();
    assert_eq!(
        media_playlist,
        MediaPlaylist {
            version: 4,
            media_sequence: 1,
            key: None,
            allow_cache: false,
            target_duration: 3,
            playlist_type: PlaylistType::Vod,
            iframes_only: true,
            segments: vec![
                MediaSegment {
                    duration: decimal("1.120"),
                    byte_range: Some(1316..376),
                    url: "https://example.com/segment-1.ts".to_string(),
                },
                MediaSegment {
                    duration: decimal("6.720"),
                    byte_range: Some(44744..7896),
                    url: "https://example.com/segment-2.ts".to_string(),
                },
            ],
        }
    );
    assert_eq!(seconds(&media_playlist.segments[0].duration), 1.12);
    assert_eq!(seconds(&media_playlist.segments[1].duration), 6.72);
}

#[test]
fn empty_text_gives_the_defaults() {
    let playlist = parse("").unwrap();
    assert_eq!(
        playlist,
        MediaPlaylist {
            version: 0,
            media_sequence: 0,
            key: None,
            allow_cache: false,
            target_duration: 0,
            playlist_type: PlaylistType::Event,
            iframes_only: false,
            segments: vec![],
        }
    );
    assert_eq!(parse(" \t\n\x0c").unwrap(), playlist);
    assert_eq!(MediaPlaylist::new(), playlist);
}

#[test]
fn a_field_without_its_tag_keeps_its_default() {
    let playlist = parse("#EXTM3U\n#EXT-X-ALLOW-CACHE:YES\n").unwrap();
    assert_eq!(playlist.version, 0);
    assert_eq!(playlist.media_sequence, 0);
    assert_eq!(playlist.target_duration, 0);
    assert_eq!(playlist.playlist_type, PlaylistType::Event);
    assert!(playlist.allow_cache);
    let playlist = parse("#EXT-X-VERSION:7\n#EXT-X-PLAYLIST-TYPE:EVENT").unwrap();
    assert_eq!(playlist.version, 7);
    assert_eq!(playlist.playlist_type, PlaylistType::Event);
    assert!(!playlist.allow_cache);
}

#[test]
fn the_last_tag_of_a_kind_wins() {
    let playlist = parse("#EXT-X-VERSION:3\n#EXT-X-VERSION:5\n#EXT-X-ALLOW-CACHE:YES\n#EXT-X-ALLOW-CACHE:NO").unwrap();
    assert_eq!(playlist.version, 5);
    assert!(!playlist.allow_cache);
}

#[test]
fn a_number_wider_than_its_field_is_cut_to_the_field() {
    let playlist = parse("#EXT-X-VERSION:300\n#EXT-X-MEDIA-SEQUENCE:4294967297\n#EXT-X-TARGETDURATION:4294967296").unwrap();
    assert_eq!(playlist.version, 44);
    assert_eq!(playlist.media_sequence, 1);
    assert_eq!(playlist.target_duration, 0);
}

#[test]
fn segments_keep_the_order_of_the_text() {
    let input = "#EXTINF:1.5,\nhttps://a/1\n#EXT-X-VERSION:2\n#EXTINF:2.5,\nhttp://a/2\n#EXTINF:3.5,\nhttps://a/3\n";
    let playlist = parse(input).unwrap();
    let durations: Vec<&str> = playlist.segments.iter().map(|s| s.duration.as_str()).collect();
    let urls: Vec<&str> = playlist.segments.iter().map(|s| s.url.as_str()).collect();
    assert_eq!(durations, vec!["1.5", "2.5", "3.5"]);
    assert_eq!(urls, vec!["https://a/1", "http://a/2", "https://a/3"]);
}

#[test]
fn parsing_twice_gives_the_same() {
    let input = "#EXTM3U\n#EXT-X-VERSION:3\n#EXTINF:6.006,\nhttps://example.com/segment-1.ts\n";
    assert_eq!(parse(input), parse(input));
    let bad = "#EXTINF:\n";
    assert_eq!(parse(bad), parse(bad));
}

#[test]
fn what_follows_the_end_tag_is_not_read() {
    let playlist = parse("#EXT-X-VERSION:3\n#EXT-X-ENDLIST\n#EXT-X-VERSION:4\n???").unwrap();
    assert_eq!(playlist.version, 3);
}

#[test]
fn a_byte_range_is_taken_only_in_a_playlist_of_i_frames() {
    let with_flag = "#EXT-X-I-FRAMES-ONLY\n#EXTINF:1.0,\n#EXT-X-BYTERANGE:10@20\nhttps://a/1\n";
    let playlist = parse(with_flag).unwrap();
    assert!(playlist.iframes_only);
    assert_eq!(playlist.segments[0].byte_range, Some(10..20));

    let after_the_url = "#EXTINF:1.0,\nhttps://a/1\n#EXT-X-BYTERANGE:10@20\n";
    let playlist = parse(after_the_url).unwrap();
    assert_eq!(playlist.segments.len(), 1);
    assert_eq!(playlist.segments[0].byte_range, None);

    let flag_too_late = "#EXTINF:1.0,\nhttps://a/1\n#EXT-X-BYTERANGE:10@20\n#EXT-X-I-FRAMES-ONLY\n";
    let playlist = parse(flag_too_late).unwrap();
    assert!(playlist.iframes_only);
    assert_eq!(playlist.segments[0].byte_range, None);

    let in_the_way = "#EXTINF:1.0,\n#EXT-X-BYTERANGE:10@20\nhttps://a/1\n";
    assert_eq!(parse(in_the_way), Err(Error::MissingValue("URL".to_string())));
}

#[test]
fn i_frames_without_a_byte_range() {
    // The four tokens in which a byte range is looked for are used up.
    let input = "#EXT-X-I-FRAMES-ONLY\n#EXTINF:1.0,\nhttps://a/1\n#EXTINF:2.0,\nhttps://a/2\n";
    assert_eq!(parse(input), Err(Error::MissingValue("URL".to_string())));
    let input = "#EXT-X-I-FRAMES-ONLY\n#EXTINF:1.0 , , , , , https://a/1\n";
    let playlist = parse(input).unwrap();
    assert_eq!(playlist.segments.len(), 1);
    assert_eq!(playlist.segments[0].byte_range, None);
    assert_eq!(playlist.segments[0].url, "https://a/1");
}

#[test]
fn a_playlist_type_outside_the_enumeration_fails() {
    let expected = Err(Error::InvalidEnumeration("playlist type".to_string()));
    assert_eq!(parse("#EXT-X-PLAYLIST-TYPE:\"FOO\"\n"), expected);
    assert_eq!(parse("#EXT-X-PLAYLIST-TYPE:FOO\n"), expected);
    assert_eq!(parse("#EXT-X-PLAYLIST-TYPE:YES\n"), expected);
    assert_eq!(parse("#EXT-X-PLAYLIST-TYPE:3\n"), expected);
    let missing = Err(Error::MissingValue("playlist type".to_string()));
    assert_eq!(parse("#EXT-X-PLAYLIST-TYPE:"), missing);
    assert_eq!(parse("#EXT-X-PLAYLIST-TYPE"), missing);
    assert_eq!(parse("#EXT-X-PLAYLIST-TYPE::"), missing);
}

#[test]
fn a_method_outside_the_enumeration_fails() {
    let expected = Err(Error::InvalidEnumeration("method".to_string()));
    assert_eq!(parse("#EXT-X-KEY:METHOD=AES-256,URI=\"k\"\n"), expected);
    assert_eq!(parse("#EXT-X-KEY:METHOD=\"AES-128\",URI=\"k\"\n"), expected);
    assert_eq!(parse("#EXT-X-KEY:METHOD=\n"), Err(Error::MissingValue("method".to_string())));
    assert_eq!(
        parse("#EXT-X-KEY:METHOD=NONE,URI=k\n"),
        Err(Error::Lex("k".to_string()))
    );
    assert_eq!(
        parse("#EXT-X-KEY:METHOD=NONE,URI=3\n"),
        Err(Error::MissingValue("key URI".to_string()))
    );
    let playlist = parse("#EXT-X-KEY:METHOD=SAMPLE-AES,URI=\"k\"\n").unwrap();
    assert_eq!(playlist.key, Some(Key { method: Method::SampleAes, uri: "k".to_string() }));
    let playlist = parse("#EXT-X-KEY:METHOD=NONE,URI=\"\"\n").unwrap();
    assert_eq!(playlist.key, Some(Key { method: Method::Unencrypted, uri: String::new() }));
}

#[test]
fn a_tag_without_its_value_names_its_field() {
    let missing = |field: &str| Err(Error::MissingValue(field.to_string()));
    assert_eq!(parse("#EXTINF"), missing("duration"));
    assert_eq!(parse("#EXTINF:,\nhttps://a/1"), missing("duration"));
    assert_eq!(parse("#EXTINF:6,\nhttps://a/1"), missing("duration"));
    assert_eq!(parse("#EXTINF:6.5,"), missing("URL"));
    assert_eq!(parse("#EXTINF:6.5,\n\"https://a/1\""), missing("URL"));
    assert_eq!(parse("#EXT-X-VERSION:"), missing("version"));
    assert_eq!(parse("#EXT-X-VERSION:3.5"), missing("version"));
    assert_eq!(parse("#EXT-X-MEDIA-SEQUENCE:YES"), missing("media sequence"));
    assert_eq!(parse("#EXT-X-TARGETDURATION"), missing("target duration"));
    assert_eq!(parse("#EXT-X-ALLOW-CACHE:1"), missing("allow cache"));
}

#[test]
fn text_that_is_no_token_fails() {
    assert_eq!(parse("#EXTM3U\n#EXT-X-FOO:1\n"), Err(Error::Lex("#EXT-X-FOO:1".to_string())));
    assert_eq!(parse("#EXT-X-VERSION:abc def"), Err(Error::Lex("abc".to_string())));
    assert_eq!(parse("\u{e9}t\u{e9} x"), Err(Error::Lex("\u{e9}t\u{e9}".to_string())));
    assert_eq!(parse("\"open"), Err(Error::Lex("\"open".to_string())));
    assert_eq!(parse("index.m3u8"), Err(Error::Lex("index.m3u8".to_string())));
}

fn does_not_fit(field: &str, literal: &str) -> Result<MediaPlaylist, Error> {
    Err(Error::InvalidValue { field: field.to_string(), literal: literal.to_string() })
}

#[test]
fn a_number_that_does_not_fit_names_its_field() {
    let big = "340282366920938463463374607431768211456";
    assert_eq!(parse(&format!("#EXT-X-VERSION:{}", big)), does_not_fit("version", big));
    assert_eq!(
        parse(&format!("#EXT-X-MEDIA-SEQUENCE:{}", big)),
        does_not_fit("media sequence", big)
    );
    assert_eq!(
        parse(&format!("#EXT-X-TARGETDURATION:{}", big)),
        does_not_fit("target duration", big)
    );
    assert_eq!(parse(&format!("#EXT-X-ALLOW-CACHE:{}", big)), does_not_fit("allow cache", big));
    assert_eq!(parse(&format!("#EXTINF:{}", big)), does_not_fit("duration", big));
    assert_eq!(parse(&format!("#EXTINF:1.5,\n{}", big)), does_not_fit("URL", big));
    assert_eq!(
        parse(&format!("#EXT-X-KEY:METHOD=NONE,URI={}", big)),
        does_not_fit("key URI", big)
    );
    let range = format!("{}@1", big);
    assert_eq!(
        parse(&format!("#EXT-X-I-FRAMES-ONLY\n#EXTINF:1.5,\n#EXT-X-BYTERANGE:{}\nhttps://a/1", range)),
        does_not_fit("byte range", &range)
    );
    let range = format!("1@{}", big);
    assert_eq!(
        parse(&format!("#EXT-X-I-FRAMES-ONLY\n#EXTINF:1.5,\n#EXT-X-BYTERANGE:{}\nhttps://a/1", range)),
        does_not_fit("byte range", &range)
    );
    let playlist = parse("#EXT-X-VERSION:0000000000000000000000000000000000000007").unwrap();
    assert_eq!(playlist.version, 7);
}

#[test]
fn a_number_that_does_not_fit_and_is_no_value_names_no_field() {
    let big = "340282366920938463463374607431768211456";
    assert_eq!(parse(big), Err(Error::InvalidNumber(big.to_string())));
    assert_eq!(
        parse(&format!("#EXTM3U\n{}\n#EXT-X-VERSION:3", big)),
        Err(Error::InvalidNumber(big.to_string()))
    );
    let range = format!("{}@1", big);
    assert_eq!(parse(&range), Err(Error::InvalidNumber(range.clone())));
    // Before the place of the value the number is no field's.
    assert_eq!(
        parse(&format!("#EXT-X-VERSION{} 3", big)),
        Err(Error::InvalidNumber(big.to_string()))
    );
    // An enumerated field names itself in its own way.
    assert_eq!(
        parse(&format!("#EXT-X-PLAYLIST-TYPE:{}", big)),
        Err(Error::InvalidEnumeration("playlist type".to_string()))
    );
}

#[test]
fn a_tag_in_the_place_of_a_value_is_not_read_as_a_tag() {
    let playlist = parse("#EXT-X-VERSION #EXTINF 3").unwrap();
    assert_eq!(playlist.version, 3);
    assert!(playlist.segments.is_empty());
    let playlist = parse("#EXT-X-VERSION #EXT-X-ENDLIST 3 #EXT-X-MEDIA-SEQUENCE:9").unwrap();
    assert_eq!(playlist.version, 3);
    assert_eq!(playlist.media_sequence, 9);
}

fn plain(segments: &[(&str, &str)], ended: bool) -> String {
    let mut text = String::from("#EXTM3U\n");
    for (duration, url) in segments {
        text.push_str(&format!("#EXTINF:{},\n{}\n", duration, url));
    }
    if ended {
        text.push_str("#EXT-X-ENDLIST");
    }
    text
}

#[test]
fn a_plain_playlist_gives_its_segments_in_order() {
    let written = [
        ("6.006", "https://example.com/segment-1.ts"),
        ("4.588", "http://example.com/segment-2.ts"),
        ("0.0", "https://x"),
        ("6.006", "https://example.com/segment-1.ts"),
        ("10.25", "http://\u{e9}/?a=b,c:d#e\"f\""),
    ];
    for ended in [false, true] {
        for n in 0..=written.len() {
            let playlist = parse(&plain(&written[..n], ended)).unwrap();
            let expected: Vec<MediaSegment> = written[..n]
                .iter()
                .map(|(duration, url)| MediaSegment {
                    duration: decimal(duration),
                    byte_range: None,
                    url: url.to_string(),
                })
                .collect();
            assert_eq!(
                playlist,
                MediaPlaylist {
                    version: 0,
                    media_sequence: 0,
                    key: None,
                    allow_cache: false,
                    target_duration: 0,
                    playlist_type: PlaylistType::Event,
                    iframes_only: false,
                    segments: expected,
                }
            );
            for (segment, (duration, _)) in playlist.segments.iter().zip(written.iter()) {
                assert_eq!(seconds(&segment.duration), duration.parse::<f64>().unwrap() as f32);
            }
        }
    }
}
