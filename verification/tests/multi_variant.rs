use hls_playlist::decimal::Decimal;
use hls_playlist::error::Error;
use hls_playlist::multi_variant::{parse, FrameStream, MultiVariantPlaylist, VariantStream};

fn rate(text: &str) -> Option<Decimal> {
    Some(Decimal::new(text).unwrap())
}

fn per_second(rate: &Option<Decimal>) -> Option<f32> {
    rate.as_ref().map(|rate| lexical::parse::<f64, _>(rate.as_str()).unwrap() as f32)
}

#[test]
fn test_variant_stream_token() {
    let input = "
		#EXTM3U
		#EXT-X-STREAM-INF:PROGRAM-ID=1,BANDWIDTH=2553505,RESOLUTION=1920x1080,FRAME-RATE=25.000,CODECS=\"avc1.640032,mp4a.40.2\"
		index-f1-v1-a1.m3u8
		#EXT-X-STREAM-INF:PROGRAM-ID=1,BANDWIDTH=1420969,RESOLUTION=1280x720,FRAME-RATE=25.000,CODECS=\"avc1.64001f,mp4a.40.2\"
		index-f2-v1-a1.m3u8
		#EXT-X-STREAM-INF:PROGRAM-ID=1,BANDWIDTH=641061,RESOLUTION=640x360,FRAME-RATE=25.000,CODECS=\"avc1.64001e,mp4a.40.2\"
		index-f3-v1-a1.m3u8

		#EXT-X-I-FRAME-STREAM-INF:BANDWIDTH=217533,RESOLUTION=1920x1080,CODECS=\"avc1.640032\",URI=\"iframes-f1-v1-a1.m3u8\"
		#EXT-X-I-FRAME-STREAM-INF:BANDWIDTH=140609,RESOLUTION=1280x720,CODECS=\"avc1.64001f\",URI=\"iframes-f2-v1-a1.m3u8\"
		#EXT-X-I-FRAME-STREAM-INF:BANDWIDTH=58096,RESOLUTION=640x360,CODECS=\"avc1.64001e\",URI=\"iframes-f3-v1-a1.m3u8\"
	";

    let multi_variant_playlist = parse(input).unwrap();
    assert_eq!(
        multi_variant_playlist,
        MultiVariantPlaylist {
            variant_streams: vec![
                VariantStream {
                    program_id: Some(1),
                    bandwidth: 2553505,
                    resolution: (1920, 1080),
                    frame_rate: rate("25.000"),
                    codecs: Some("avc1.640032,mp4a.40.2".to_string()),
                    uri: "index-f1-v1-a1.m3u8".to_string(),
                },
                VariantStream {
                    program_id: Some(1),
                    bandwidth: 1420969,
                    resolution: (1280, 720),
                    frame_rate: rate("25.000"),
                    codecs: Some("avc1.64001f,mp4a.40.2".to_string()),
                    uri: "index-f2-v1-a1.m3u8".to_string(),
                },
                VariantStream {
                    program_id: Some(1),
                    bandwidth: 641061,
                    resolution: (640, 360),
                    frame_rate: rate("25.000"),
                    codecs: Some("avc1.64001e,mp4a.40.2".to_string()),
                    uri: "index-f3-v1-a1.m3u8".to_string(),
                },
            ],
            frame_streams: vec![
                FrameStream {
                    bandwidth: 217533,
                    resolution: (1920, 1080),
                    codecs: "avc1.640032".to_string(),
                    uri: "iframes-f1-v1-a1.m3u8".to_string(),
                },
                FrameStream {
                    bandwidth: 140609,
                    resolution: (1280, 720),
                    codecs: "avc1.64001f".to_string(),
                    uri: "iframes-f2-v1-a1.m3u8".to_string(),
                },
                FrameStream {
                    bandwidth: 58096,
                    resolution: (640, 360),
                    codecs: "avc1.64001e".to_string(),
                    uri: "iframes-f3-v1-a1.m3u8".to_string(),
                },
            ],
        }
    );
    for stream in &multi_variant_playlist.variant_streams {
        assert_eq!(per_second(&stream.frame_rate), Some(25.0));
    }
}

#[test]
fn a_text_without_streams_is_an_empty_playlist() {
    let empty = MultiVariantPlaylist { variant_streams: vec![], frame_streams: vec![] };
    assert_eq!(parse("").unwrap(), empty);
    assert_eq!(parse("#EXTM3U\n").unwrap(), empty);
    assert_eq!(parse("BANDWIDTH=3, \"x\" 1x2 index.m3u8").unwrap(), empty);
}

#[test]
fn attributes_come_in_any_order_and_may_be_absent() {
    let playlist = parse("#EXT-X-STREAM-INF:CODECS=\"a\",BANDWIDTH=7\nlow.m3u8\n#EXT-X-STREAM-INF:\nbare.m3u8").unwrap();
    assert_eq!(
        playlist.variant_streams,
        vec![
            VariantStream {
                program_id: None,
                bandwidth: 7,
                resolution: (0, 0),
                frame_rate: None,
                codecs: Some("a".to_string()),
                uri: "low.m3u8".to_string(),
            },
            VariantStream {
                program_id: None,
                bandwidth: 0,
                resolution: (0, 0),
                frame_rate: None,
                codecs: None,
                uri: "bare.m3u8".to_string(),
            },
        ]
    );
    assert!(playlist.frame_streams.is_empty());
}

#[test]
fn a_stream_that_the_text_ends_in_has_no_uri() {
    let playlist = parse("#EXT-X-STREAM-INF:BANDWIDTH=7").unwrap();
    assert_eq!(playlist.variant_streams.len(), 1);
    assert_eq!(playlist.variant_streams[0].bandwidth, 7);
    assert_eq!(playlist.variant_streams[0].uri, "");
    let playlist = parse("#EXT-X-I-FRAME-STREAM-INF:CODECS=\"c\"").unwrap();
    assert_eq!(
        playlist.frame_streams,
        vec![FrameStream {
            bandwidth: 0,
            resolution: (0, 0),
            codecs: "c".to_string(),
            uri: String::new(),
        }]
    );
}

#[test]
fn a_program_id_that_is_no_number_is_left_unset() {
    let playlist = parse("#EXT-X-STREAM-INF:PROGRAM-ID=\"one\",BANDWIDTH=7\nlow.m3u8").unwrap();
    assert_eq!(playlist.variant_streams[0].program_id, None);
    assert_eq!(playlist.variant_streams[0].bandwidth, 7);
    let playlist = parse("#EXT-X-STREAM-INF:PROGRAM-ID=258\nlow.m3u8").unwrap();
    assert_eq!(playlist.variant_streams[0].program_id, Some(2));
    let playlist = parse("#EXT-X-STREAM-INF:PROGRAM-ID").unwrap();
    assert_eq!(playlist.variant_streams[0].program_id, None);
}

#[test]
fn numbers_wider_than_their_fields_are_cut() {
    let playlist = parse("#EXT-X-STREAM-INF:BANDWIDTH=4294967298,RESOLUTION=65537x65538\nlow.m3u8").unwrap();
    assert_eq!(playlist.variant_streams[0].bandwidth, 2);
    assert_eq!(playlist.variant_streams[0].resolution, (1, 2));
}

#[test]
fn an_attribute_without_its_value_names_its_field() {
    let missing = |field: &str| Err(Error::MissingValue(field.to_string()));
    assert_eq!(parse("#EXT-X-STREAM-INF:BANDWIDTH=\"7\""), missing("bandwidth"));
    assert_eq!(parse("#EXT-X-STREAM-INF:BANDWIDTH="), missing("bandwidth"));
    assert_eq!(parse("#EXT-X-STREAM-INF:RESOLUTION=7"), missing("resolution"));
    assert_eq!(parse("#EXT-X-STREAM-INF:FRAME-RATE=25"), missing("frame rate"));
    assert_eq!(parse("#EXT-X-STREAM-INF:CODECS=avc.m3u8"), missing("codecs"));
    assert_eq!(parse("#EXT-X-I-FRAME-STREAM-INF:BANDWIDTH=x"), Err(Error::Lex("x".to_string())));
    assert_eq!(parse("#EXT-X-I-FRAME-STREAM-INF:BANDWIDTH=1.5"), missing("bandwidth"));
    assert_eq!(parse("#EXT-X-I-FRAME-STREAM-INF:RESOLUTION=,"), missing("resolution"));
    assert_eq!(parse("#EXT-X-I-FRAME-STREAM-INF:CODECS=1"), missing("codecs"));
    assert_eq!(parse("#EXT-X-I-FRAME-STREAM-INF:URI=a.m3u8"), missing("uri"));
    assert_eq!(parse("#EXT-X-I-FRAME-STREAM-INF:URI="), missing("uri"));
}

#[test]
fn a_token_that_is_no_attribute_fails_the_stream() {
    assert_eq!(
        parse("#EXT-X-STREAM-INF:URI=\"a\""),
        Err(Error::Generic("Invalid variant stream".to_string()))
    );
    assert_eq!(
        parse("#EXT-X-STREAM-INF:BANDWIDTH=1\n#EXT-X-STREAM-INF:BANDWIDTH=2\na.m3u8"),
        Err(Error::Generic("Invalid variant stream".to_string()))
    );
    assert_eq!(
        parse("#EXT-X-I-FRAME-STREAM-INF:FRAME-RATE=25.0,URI=\"a\""),
        Err(Error::Generic("Invalid frame stream".to_string()))
    );
    assert_eq!(
        parse("#EXT-X-I-FRAME-STREAM-INF:BANDWIDTH=1\na.m3u8"),
        Err(Error::Generic("Invalid frame stream".to_string()))
    );
}

#[test]
fn tags_of_a_media_playlist_are_no_tokens_here() {
    assert_eq!(
        parse("#EXTM3U\n#EXT-X-VERSION:4\n"),
        Err(Error::Lex("#EXT-X-VERSION:4".to_string()))
    );
    assert_eq!(
        parse("#EXT-X-STREAM-INF:BANDWIDTH=1\nhttps://example.com/a.m3u8"),
        Err(Error::Lex("https://example.com/a.m3u8".to_string()))
    );
}

#[test]
fn parsing_a_multi_variant_playlist_twice_gives_the_same() {
    let input = "#EXT-X-STREAM-INF:BANDWIDTH=7,FRAME-RATE=29.970\nlow.m3u8";
    assert_eq!(parse(input), parse(input));
}

fn does_not_fit(field: &str, literal: &str) -> Result<MultiVariantPlaylist, Error> {
    Err(Error::InvalidValue { field: field.to_string(), literal: literal.to_string() })
}

#[test]
fn a_number_that_does_not_fit_names_its_attribute() {
    assert_eq!(
        parse("#EXT-X-STREAM-INF:RESOLUTION=99999999999999999999999x1\nindex.m3u8"),
        does_not_fit("resolution", "99999999999999999999999x1")
    );
    assert_eq!(
        parse("#EXT-X-STREAM-INF:RESOLUTION=1x99999999999999999999999\nindex.m3u8"),
        does_not_fit("resolution", "1x99999999999999999999999")
    );
    let big = "340282366920938463463374607431768211456";
    for (name, field) in [
        ("BANDWIDTH", "bandwidth"),
        ("PROGRAM-ID", "program id"),
        ("FRAME-RATE", "frame rate"),
        ("CODECS", "codecs"),
    ] {
        assert_eq!(
            parse(&format!("#EXT-X-STREAM-INF:{}={}\nindex.m3u8", name, big)),
            does_not_fit(field, big)
        );
    }
    for (name, field) in [
        ("BANDWIDTH", "bandwidth"),
        ("RESOLUTION", "resolution"),
        ("CODECS", "codecs"),
        ("URI", "uri"),
    ] {
        assert_eq!(
            parse(&format!("#EXT-X-I-FRAME-STREAM-INF:{}={}", name, big)),
            does_not_fit(field, big)
        );
    }
    // Outside the value of an attribute the number is no field's.
    assert_eq!(parse(big), Err(Error::InvalidNumber(big.to_string())));
    assert_eq!(
        parse(&format!("#EXT-X-STREAM-INF:{}", big)),
        Err(Error::InvalidNumber(big.to_string()))
    );
    assert_eq!(
        parse(&format!("#EXT-X-STREAM-INF:BANDWIDTH{}", big)),
        Err(Error::InvalidNumber(big.to_string()))
    );
}
