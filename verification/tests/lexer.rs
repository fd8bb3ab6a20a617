use hls_playlist::decimal::Decimal;
use hls_playlist::error::{Context, Error};
use hls_playlist::lexer::{media_rules, multi_variant_rules, Lexer};
use hls_playlist::media_playlist::{Method, PlaylistType};
use hls_playlist::scan::{find_longest, found_at, measure, scan_run, ByteClass, Pattern, Rule};
use hls_playlist::text::slice;
use hls_playlist::token::{make_token, number, pair, Kind, Token};

fn all<'a>(mut lexer: Lexer<'a>) -> Vec<Result<Token<'a>, Error>> {
    let mut tokens = Vec::new();
    while let Some(item) = lexer.next() {
        let failed = item.is_err();
        tokens.push(item);
        if failed {
            break;
        }
    }
    tokens
}

#[test]
fn the_tokens_of_a_media_playlist() {
    let text = "#EXTM3U #EXT-X-ENDLIST #EXT-X-TARGETDURATION #EXT-X-VERSION #EXT-X-MEDIA-SEQUENCE \
                #EXT-X-KEY #EXT-X-ALLOW-CACHE #EXT-X-PLAYLIST-TYPE #EXT-X-I-FRAMES-ONLY #EXTINF \
                #EXT-X-BYTERANGE METHOD URI = , : 12.50 12 \"a b\" AES-128 SAMPLE-AES NONE YES NO \
                7@9 VOD EVENT http://h/p https://h/p?q=1,2";
    let expected = vec![
        Ok(Token::ExtM3U),
        Ok(Token::EndList),
        Ok(Token::TargetDuration),
        Ok(Token::Version),
        Ok(Token::MediaSequence),
        Ok(Token::Key),
        Ok(Token::AllowCache),
        Ok(Token::PlaylistType),
        Ok(Token::IFramesOnly),
        Ok(Token::Inf),
        Ok(Token::ByteRange),
        Ok(Token::Method),
        Ok(Token::Uri),
        Ok(Token::Equal),
        Ok(Token::Comma),
        Ok(Token::Colon),
        Ok(Token::Float(Decimal::new("12.50").unwrap())),
        Ok(Token::Integer(12)),
        Ok(Token::String("a b")),
        Ok(Token::MethodValue(Method::Aes128)),
        Ok(Token::MethodValue(Method::SampleAes)),
        Ok(Token::MethodValue(Method::Unencrypted)),
        Ok(Token::AllowCacheValue(true)),
        Ok(Token::AllowCacheValue(false)),
        Ok(Token::ByteRangeValue(7..9)),
        Ok(Token::PlaylistTypeValue(PlaylistType::Vod)),
        Ok(Token::PlaylistTypeValue(PlaylistType::Event)),
        Ok(Token::UriValue("http://h/p")),
        Ok(Token::UriValue("https://h/p?q=1,2")),
    ];
    assert_eq!(all(Lexer::media(text)), expected);
}

#[test]
fn the_tokens_of_a_multi_variant_playlist() {
    let text = "#EXTM3U#EXT-X-STREAM-INF#EXT-X-I-FRAME-STREAM-INF PROGRAM-ID BANDWIDTH RESOLUTION \
                FRAME-RATE CODECS URI=,:29.970 5 \"\" 640x360 a-b_C9.m3u8";
    let expected = vec![
        Ok(Token::ExtM3U),
        Ok(Token::StreamInf),
        Ok(Token::IFrameStreamInf),
        Ok(Token::ProgramId),
        Ok(Token::Bandwidth),
        Ok(Token::Resolution),
        Ok(Token::FrameRate),
        Ok(Token::Codecs),
        Ok(Token::Uri),
        Ok(Token::Equal),
        Ok(Token::Comma),
        Ok(Token::Colon),
        Ok(Token::Float(Decimal::new("29.970").unwrap())),
        Ok(Token::Integer(5)),
        Ok(Token::String("")),
        Ok(Token::ResolutionValue((640, 360))),
        Ok(Token::UriValue("a-b_C9.m3u8")),
    ];
    assert_eq!(all(Lexer::multi_variant(text)), expected);
}

#[test]
fn the_longest_match_wins() {
    assert_eq!(
        all(Lexer::media("NONE NO NOYES 1.5 1.x")),
        vec![
            Ok(Token::MethodValue(Method::Unencrypted)),
            Ok(Token::AllowCacheValue(false)),
            Ok(Token::AllowCacheValue(false)),
            Ok(Token::AllowCacheValue(true)),
            Ok(Token::Float(Decimal::new("1.5").unwrap())),
            Ok(Token::Integer(1)),
            Err(Error::Lex(".x".to_string())),
        ]
    );
    assert_eq!(
        all(Lexer::multi_variant("URI URI.m3u8 12 12.m3u8 12.5 1x2 1x2.m3u8 BANDWIDTH-2.m3u8")),
        vec![
            Ok(Token::Uri),
            Ok(Token::UriValue("URI.m3u8")),
            Ok(Token::Integer(12)),
            Ok(Token::UriValue("12.m3u8")),
            Ok(Token::Float(Decimal::new("12.5").unwrap())),
            Ok(Token::ResolutionValue((1, 2))),
            Ok(Token::UriValue("1x2.m3u8")),
            Ok(Token::UriValue("BANDWIDTH-2.m3u8")),
        ]
    );
}

#[test]
fn a_failed_lexer_stays_where_it_is() {
    let mut lexer = Lexer::media(": ?? :");
    assert_eq!(lexer.next(), Some(Ok(Token::Colon)));
    assert_eq!(lexer.next(), Some(Err(Error::Lex("??".to_string()))));
    assert_eq!(lexer.next(), Some(Err(Error::Lex("??".to_string()))));
    assert_eq!(lexer.nth(3), Some(Err(Error::Lex("??".to_string()))));
    let mut lexer = Lexer::media(" : ");
    assert_eq!(lexer.next(), Some(Ok(Token::Colon)));
    assert_eq!(lexer.next(), None);
    assert_eq!(lexer.next(), None);
}

#[test]
fn nth_drops_the_tokens_before() {
    let mut lexer = Lexer::media("1 2 3 4 5");
    assert_eq!(lexer.nth(0), Some(Ok(Token::Integer(1))));
    assert_eq!(lexer.nth(1), Some(Ok(Token::Integer(3))));
    assert_eq!(lexer.nth(2), None);
    let mut lexer = Lexer::media("1 2 3 4 5");
    assert_eq!(lexer.nth(4), Some(Ok(Token::Integer(5))));
    assert_eq!(lexer.nth(0), None);
    let mut lexer = Lexer::media("1 2 ! 4");
    assert_eq!(lexer.nth(3), Some(Err(Error::Lex("!".to_string()))));
}

#[test]
fn required_and_enumerated_values() {
    let mut lexer = Lexer::media(": 7 : VOD");
    assert_eq!(lexer.required(1, "version"), Ok(Token::Integer(7)));
    assert_eq!(
        lexer.enumerated(1, "playlist type"),
        Ok(Token::PlaylistTypeValue(PlaylistType::Vod))
    );
    assert_eq!(lexer.required(0, "version"), Err(Error::MissingValue("version".to_string())));
    let mut lexer = Lexer::media(": : :");
    assert_eq!(
        lexer.enumerated(1, "method"),
        Err(Error::MissingValue("method".to_string()))
    );
    assert_eq!(lexer.next(), Some(Ok(Token::Colon)));
    let mut lexer = Lexer::media("? :");
    assert_eq!(lexer.enumerated(1, "method"), Err(Error::Lex("?".to_string())));
    let mut lexer = Lexer::media("? :");
    assert_eq!(
        lexer.enumerated(0, "method"),
        Err(Error::InvalidEnumeration("method".to_string()))
    );
    let mut lexer = Lexer::media("?");
    assert_eq!(lexer.required(0, "version"), Err(Error::Lex("?".to_string())));
}

#[test]
fn the_value_of_a_field() {
    let big = "340282366920938463463374607431768211456";
    let text = format!(": {} :", big);
    let of_the_field = Error::InvalidValue {
        field: "version".to_string(),
        literal: big.to_string(),
    };
    let mut lexer = Lexer::media(&text);
    assert_eq!(lexer.value(1, "version"), Some(Err(of_the_field)));
    let mut lexer = Lexer::media(&text);
    assert_eq!(lexer.value(2, "version"), Some(Err(Error::InvalidNumber(big.to_string()))));
    let mut lexer = Lexer::media(&text);
    assert_eq!(lexer.value(0, "version"), Some(Ok(Token::Colon)));
    assert_eq!(lexer.nth(0), Some(Err(Error::InvalidNumber(big.to_string()))));
    let mut lexer = Lexer::media(": :");
    assert_eq!(lexer.value(1, "version"), Some(Ok(Token::Colon)));
    assert_eq!(lexer.value(0, "version"), None);
    let mut lexer = Lexer::media(": :");
    assert_eq!(lexer.value(2, "version"), None);
    let mut lexer = Lexer::media(": ?");
    assert_eq!(lexer.value(1, "version"), Some(Err(Error::Lex("?".to_string()))));
}

#[test]
fn runs_of_a_class() {
    let bytes = b"  \t\n\x0c\rab12-_.";
    assert_eq!(scan_run(bytes, 0, ByteClass::Space), 5);
    assert_eq!(scan_run(bytes, 5, ByteClass::Space), 5);
    assert_eq!(scan_run(bytes, 5, ByteClass::Word), bytes.len());
    assert_eq!(scan_run(bytes, 6, ByteClass::Name), 12);
    assert_eq!(scan_run(bytes, 8, ByteClass::Digit), 10);
    assert_eq!(scan_run(bytes, 6, ByteClass::Digit), 6);
    assert_eq!(scan_run(b"ab\"c", 0, ByteClass::Unquoted), 2);
    assert_eq!(scan_run(bytes, bytes.len(), ByteClass::Word), bytes.len());
    assert!(ByteClass::Name.holds(b'z') && ByteClass::Name.holds(b'A') && !ByteClass::Name.holds(b'.'));
    assert!(!ByteClass::Digit.holds(b'/') && !ByteClass::Digit.holds(b':'));
}

#[test]
fn patterns_match_as_much_as_they_can() {
    assert!(found_at(b"abcd", 1, b"bc"));
    assert!(!found_at(b"abcd", 1, b"bd"));
    assert!(!found_at(b"abcd", 3, b"de"));
    assert!(found_at(b"abcd", 4, b""));
    assert_eq!(measure(Pattern::Literal("bc"), b"abcd", 1), 2);
    assert_eq!(measure(Pattern::Literal("bc"), b"abcd", 2), 0);
    assert_eq!(measure(Pattern::Digits, b"a123b", 1), 3);
    assert_eq!(measure(Pattern::Digits, b"a123b", 0), 0);
    assert_eq!(measure(Pattern::Pair(b'.'), b"12.345,", 0), 6);
    assert_eq!(measure(Pattern::Pair(b'.'), b"12.", 0), 0);
    assert_eq!(measure(Pattern::Pair(b'.'), b".5", 0), 0);
    assert_eq!(measure(Pattern::Pair(b'@'), b"12.5", 0), 0);
    assert_eq!(measure(Pattern::Quoted, b"\"ab\"c\"", 0), 4);
    assert_eq!(measure(Pattern::Quoted, b"\"\"", 0), 2);
    assert_eq!(measure(Pattern::Quoted, b"\"ab", 0), 0);
    assert_eq!(measure(Pattern::Prefixed("http://"), b"http://a b", 0), 8);
    assert_eq!(measure(Pattern::Prefixed("http://"), b"http:// b", 0), 0);
    assert_eq!(measure(Pattern::Named(".m3u8"), b"a-b.m3u8.x", 0), 8);
    assert_eq!(measure(Pattern::Named(".m3u8"), b".m3u8", 0), 0);
    assert_eq!(measure(Pattern::Named(".m3u8"), b"a.m3u", 0), 0);
}

#[test]
fn of_equal_matches_the_first_rule_wins() {
    let rules = vec![
        Rule { kind: 1u8, pattern: Pattern::Literal("ab") },
        Rule { kind: 2u8, pattern: Pattern::Literal("abc") },
        Rule { kind: 3u8, pattern: Pattern::Named("") },
        Rule { kind: 4u8, pattern: Pattern::Digits },
    ];
    assert_eq!(find_longest(&rules, b"ab.", 0), Some((1, 2)));
    assert_eq!(find_longest(&rules, b"abc.", 0), Some((2, 3)));
    assert_eq!(find_longest(&rules, b"abcd.", 0), Some((3, 4)));
    assert_eq!(find_longest(&rules, b"12", 0), Some((3, 2)));
    assert_eq!(find_longest(&rules, b".", 0), None);
    assert_eq!(find_longest(&rules, b"ab", 2), None);
}

#[test]
fn slices_by_byte_positions() {
    assert_eq!(slice("a\u{e9}b", 1, 3), "\u{e9}");
    assert_eq!(slice("abc", 0, 3), "abc");
    assert_eq!(slice("abc", 2, 2), "");
}

#[test]
fn numbers_and_pairs() {
    assert_eq!(number(b"0"), Some(0));
    assert_eq!(number(b"007"), Some(7));
    assert_eq!(number(b"65536"), Some(65536));
    assert_eq!(number(b""), None);
    assert_eq!(number(b"+7"), None);
    assert_eq!(number(b"7a"), None);
    assert_eq!(number(usize::MAX.to_string().as_bytes()), Some(usize::MAX));
    assert_eq!(number(format!("{}0", usize::MAX).as_bytes()), None);
    assert_eq!(number(b"340282366920938463463374607431768211456"), None);
    assert_eq!(pair(b"12@34"), Some((12, 34)));
    assert_eq!(pair(b"12x034"), Some((12, 34)));
    assert_eq!(pair(b"12@"), None);
    assert_eq!(pair(b"@34"), None);
    assert_eq!(pair(b"12"), None);
    assert_eq!(pair(b"12@3@4"), None);
}

#[test]
fn tokens_from_kinds_and_texts() {
    assert_eq!(make_token(Kind::Version, "#EXT-X-VERSION"), Ok(Token::Version));
    assert_eq!(make_token(Kind::Integer, "42"), Ok(Token::Integer(42)));
    assert_eq!(make_token(Kind::Integer, "4x"), Err(Error::InvalidNumber("4x".to_string())));
    assert_eq!(make_token(Kind::Float, "4.2"), Ok(Token::Float(Decimal::new("4.2").unwrap())));
    assert_eq!(make_token(Kind::Float, "4."), Err(Error::InvalidNumber("4.".to_string())));
    assert_eq!(make_token(Kind::String, "\"\u{e9}\""), Ok(Token::String("\u{e9}")));
    assert_eq!(make_token(Kind::String, "\""), Err(Error::Lex("\"".to_string())));
    assert_eq!(make_token(Kind::ByteRangeValue, "1@2"), Ok(Token::ByteRangeValue(1..2)));
    assert_eq!(make_token(Kind::ResolutionValue, "1x2"), Ok(Token::ResolutionValue((1, 2))));
    assert_eq!(make_token(Kind::HttpsUri, "https://x"), Ok(Token::UriValue("https://x")));
    assert_eq!(make_token(Kind::PlaylistFile, "x.m3u8"), Ok(Token::UriValue("x.m3u8")));
    assert!(Token::Integer(1).is_literal() && Token::UriValue("x").is_literal());
    assert!(!Token::Colon.is_literal() && !Token::Inf.is_literal());
}

#[test]
fn decimals_are_literals() {
    assert_eq!(Decimal::new("6.006").unwrap().as_str(), "6.006");
    assert_eq!(Decimal::new("0.0").unwrap().as_str(), "0.0");
    for text in ["", "6", "6.", ".5", "-1.5", "1.5e3", "1.5 ", "1,5", "1.5.2"] {
        assert_eq!(Decimal::new(text), None);
    }
}

#[test]
fn errors_in_words() {
    assert_eq!(Error::Lex("?".to_string()).message(), "Unrecognized input: ?");
    assert_eq!(Error::MissingValue("duration".to_string()).message(), "Missing value: duration");
    assert_eq!(
        Error::InvalidEnumeration("method".to_string()).message(),
        "Invalid enumeration value: method"
    );
    assert_eq!(Error::InvalidNumber("99".to_string()).message(), "Invalid number: 99");
    assert_eq!(
        Error::InvalidValue { field: "version".to_string(), literal: "99".to_string() }.message(),
        "Invalid number for version: 99"
    );
    assert_eq!(
        Error::InvalidNumber("99".to_string()).attributed("version"),
        Error::InvalidValue { field: "version".to_string(), literal: "99".to_string() }
    );
    assert_eq!(Error::Lex("?".to_string()).attributed("version"), Error::Lex("?".to_string()));
    assert_eq!(Error::Generic("oops".to_string()).message(), "Generic Error: oops");
    assert_eq!(Error::from("oops".to_string()), Error::Generic("oops".to_string()));
}

#[test]
fn context_names_the_field_of_an_absent_value() {
    assert_eq!(Some(3).context("version"), Ok(3));
    assert_eq!(None::<u8>.context("version"), Err(Error::MissingValue("version".to_string())));
}

#[test]
fn a_lexer_takes_any_rules() {
    let rules = vec![Kind::Integer.to_rule(), Kind::Comma.to_rule()];
    assert_eq!(
        all(Lexer::new("1,2 : 3", rules)),
        vec![
            Ok(Token::Integer(1)),
            Ok(Token::Comma),
            Ok(Token::Integer(2)),
            Err(Error::Lex(":".to_string())),
        ]
    );
    assert_eq!(all(Lexer::new(" 1 ", vec![])), vec![Err(Error::Lex("1".to_string()))]);
    assert_eq!(all(Lexer::new("  ", vec![])), vec![]);
}

#[test]
fn the_two_grammars() {
    assert_eq!(media_rules().len(), 29);
    assert_eq!(multi_variant_rules().len(), 17);
    assert!(matches!(media_rules()[0].pattern, Pattern::Literal("#EXTM3U")));
    assert!(matches!(multi_variant_rules()[16].pattern, Pattern::Named(".m3u8")));
    assert!(matches!(Kind::Float.to_rule().pattern, Pattern::Pair(b'.')));
    assert!(matches!(Kind::ByteRangeValue.to_rule().pattern, Pattern::Pair(b'@')));
    assert!(matches!(Kind::ResolutionValue.to_rule().pattern, Pattern::Pair(b'x')));
}
