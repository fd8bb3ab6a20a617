//! The tokens of a playlist, and how the text of a lexeme becomes one.

use vstd::prelude::*;
use vstd::slice::slice_subrange;
use vstd::string::*;
use vstd::utf8::*;
use std::ops::Range;
use crate::decimal::{is_decimal, Decimal};
use crate::error::{Error, ErrorView};
use crate::media_playlist::{Method, PlaylistType};
use crate::number::{all_digits, decimal_value, is_digit, parse_decimal};
use crate::scan::{
    lemma_match_len_bounds, lemma_run_end, lemma_run_end_within, match_len, run_end, scan_run,
    ByteClass, Pattern, Rule,
};
use crate::text::{lemma_boundary_around_ascii, slice};

verus! {

/// A token: a tag, an attribute's keyword, a punctuation mark or a literal.
#[derive(Debug, PartialEq)]
pub enum Token<'a> {
    /// `#EXTM3U`
    ExtM3U,
    /// `#EXT-X-ENDLIST`
    EndList,
    /// `#EXT-X-TARGETDURATION`
    TargetDuration,
    /// `#EXT-X-VERSION`
    Version,
    /// `#EXT-X-MEDIA-SEQUENCE`
    MediaSequence,
    /// `#EXT-X-KEY`
    Key,
    /// `#EXT-X-ALLOW-CACHE`
    AllowCache,
    /// `#EXT-X-PLAYLIST-TYPE`
    PlaylistType,
    /// `#EXT-X-I-FRAMES-ONLY`
    IFramesOnly,
    /// `#EXTINF`
    Inf,
    /// `#EXT-X-BYTERANGE`
    ByteRange,
    /// `#EXT-X-STREAM-INF`
    StreamInf,
    /// `#EXT-X-I-FRAME-STREAM-INF`
    IFrameStreamInf,
    /// `METHOD`
    Method,
    /// `URI`
    Uri,
    /// `PROGRAM-ID`
    ProgramId,
    /// `BANDWIDTH`
    Bandwidth,
    /// `RESOLUTION`
    Resolution,
    /// `FRAME-RATE`
    FrameRate,
    /// `CODECS`
    Codecs,
    /// `=`
    Equal,
    /// `,`
    Comma,
    /// `:`
    Colon,
    /// Digits, a point, digits.
    Float(Decimal),
    /// Digits.
    Integer(usize),
    /// A text between double quotes; the token holds what is between them.
    String(&'a str),
    /// `AES-128`, `SAMPLE-AES` or `NONE`.
    MethodValue(Method),
    /// `YES` or `NO`.
    AllowCacheValue(bool),
    /// Digits, `@`, digits: the first number is the range's start, the second its end.
    ByteRangeValue(Range<usize>),
    /// `VOD` or `EVENT`.
    PlaylistTypeValue(PlaylistType),
    /// Digits, `x`, digits: a width and a height.
    ResolutionValue((usize, usize)),
    /// A URI that stands alone on its line.
    UriValue(&'a str),
}

/// The mathematical value of a [`Token`].
pub enum TokenView {
    ExtM3U,
    EndList,
    TargetDuration,
    Version,
    MediaSequence,
    Key,
    AllowCache,
    PlaylistType,
    IFramesOnly,
    Inf,
    ByteRange,
    StreamInf,
    IFrameStreamInf,
    Method,
    Uri,
    ProgramId,
    Bandwidth,
    Resolution,
    FrameRate,
    Codecs,
    Equal,
    Comma,
    Colon,
    Float(Seq<char>),
    Integer(usize),
    String(Seq<char>),
    MethodValue(Method),
    AllowCacheValue(bool),
    ByteRangeValue(Range<usize>),
    PlaylistTypeValue(PlaylistType),
    ResolutionValue((usize, usize)),
    UriValue(Seq<char>),
}

impl<'a> View for Token<'a> {
    type V = TokenView;

    open spec fn view(&self) -> TokenView {
        match self {
            Token::ExtM3U => TokenView::ExtM3U,
            Token::EndList => TokenView::EndList,
            Token::TargetDuration => TokenView::TargetDuration,
            Token::Version => TokenView::Version,
            Token::MediaSequence => TokenView::MediaSequence,
            Token::Key => TokenView::Key,
            Token::AllowCache => TokenView::AllowCache,
            Token::PlaylistType => TokenView::PlaylistType,
            Token::IFramesOnly => TokenView::IFramesOnly,
            Token::Inf => TokenView::Inf,
            Token::ByteRange => TokenView::ByteRange,
            Token::StreamInf => TokenView::StreamInf,
            Token::IFrameStreamInf => TokenView::IFrameStreamInf,
            Token::Method => TokenView::Method,
            Token::Uri => TokenView::Uri,
            Token::ProgramId => TokenView::ProgramId,
            Token::Bandwidth => TokenView::Bandwidth,
            Token::Resolution => TokenView::Resolution,
            Token::FrameRate => TokenView::FrameRate,
            Token::Codecs => TokenView::Codecs,
            Token::Equal => TokenView::Equal,
            Token::Comma => TokenView::Comma,
            Token::Colon => TokenView::Colon,
            Token::Float(number) => TokenView::Float(number@),
            Token::Integer(number) => TokenView::Integer(*number),
            Token::String(text) => TokenView::String(text@),
            Token::MethodValue(method) => TokenView::MethodValue(*method),
            Token::AllowCacheValue(allow) => TokenView::AllowCacheValue(*allow),
            Token::ByteRangeValue(range) => TokenView::ByteRangeValue(*range),
            Token::PlaylistTypeValue(playlist_type) => TokenView::PlaylistTypeValue(
                *playlist_type,
            ),
            Token::ResolutionValue(size) => TokenView::ResolutionValue(*size),
            Token::UriValue(uri) => TokenView::UriValue(uri@),
        }
    }
}

impl TokenView {
    /// Whether the token is a literal: a number, a quoted text, a value of
    /// an enumeration, a pair of numbers or a URI.
    pub open spec fn is_literal(self) -> bool {
        match self {
            TokenView::Float(_) => true,
            TokenView::Integer(_) => true,
            TokenView::String(_) => true,
            TokenView::MethodValue(_) => true,
            TokenView::AllowCacheValue(_) => true,
            TokenView::ByteRangeValue(_) => true,
            TokenView::PlaylistTypeValue(_) => true,
            TokenView::ResolutionValue(_) => true,
            TokenView::UriValue(_) => true,
            _ => false,
        }
    }
}

impl<'a> Token<'a> {
    /// Tests whether the token is a literal.
    pub fn is_literal(&self) -> (r: bool)
        ensures
            r == self@.is_literal(),
    {
        match self {
            Token::Float(_) => true,
            Token::Integer(_) => true,
            Token::String(_) => true,
            Token::MethodValue(_) => true,
            Token::AllowCacheValue(_) => true,
            Token::ByteRangeValue(_) => true,
            Token::PlaylistTypeValue(_) => true,
            Token::ResolutionValue(_) => true,
            Token::UriValue(_) => true,
            _ => false,
        }
    }
}

/// What a lexical rule recognises. Each kind has one pattern; several kinds
/// may give the same token.
#[derive(Debug, Clone, Copy)]
pub enum Kind {
    ExtM3U,
    EndList,
    TargetDuration,
    Version,
    MediaSequence,
    Key,
    AllowCache,
    PlaylistType,
    IFramesOnly,
    Inf,
    ByteRange,
    StreamInf,
    IFrameStreamInf,
    Method,
    Uri,
    ProgramId,
    Bandwidth,
    Resolution,
    FrameRate,
    Codecs,
    Equal,
    Comma,
    Colon,
    Float,
    Integer,
    String,
    Aes128,
    SampleAes,
    Unencrypted,
    Yes,
    No,
    ByteRangeValue,
    Vod,
    Event,
    ResolutionValue,
    /// An absolute URI that starts with `http://`.
    HttpUri,
    /// An absolute URI that starts with `https://`.
    HttpsUri,
    /// The name of a playlist file: name bytes and the ending `.m3u8`.
    PlaylistFile,
}

impl Kind {
    /// The pattern of the lexemes of this kind.
    pub open spec fn pattern(self) -> Pattern {
        match self {
            Kind::ExtM3U => Pattern::Literal("#EXTM3U"),
            Kind::EndList => Pattern::Literal("#EXT-X-ENDLIST"),
            Kind::TargetDuration => Pattern::Literal("#EXT-X-TARGETDURATION"),
            Kind::Version => Pattern::Literal("#EXT-X-VERSION"),
            Kind::MediaSequence => Pattern::Literal("#EXT-X-MEDIA-SEQUENCE"),
            Kind::Key => Pattern::Literal("#EXT-X-KEY"),
            Kind::AllowCache => Pattern::Literal("#EXT-X-ALLOW-CACHE"),
            Kind::PlaylistType => Pattern::Literal("#EXT-X-PLAYLIST-TYPE"),
            Kind::IFramesOnly => Pattern::Literal("#EXT-X-I-FRAMES-ONLY"),
            Kind::Inf => Pattern::Literal("#EXTINF"),
            Kind::ByteRange => Pattern::Literal("#EXT-X-BYTERANGE"),
            Kind::StreamInf => Pattern::Literal("#EXT-X-STREAM-INF"),
            Kind::IFrameStreamInf => Pattern::Literal("#EXT-X-I-FRAME-STREAM-INF"),
            Kind::Method => Pattern::Literal("METHOD"),
            Kind::Uri => Pattern::Literal("URI"),
            Kind::ProgramId => Pattern::Literal("PROGRAM-ID"),
            Kind::Bandwidth => Pattern::Literal("BANDWIDTH"),
            Kind::Resolution => Pattern::Literal("RESOLUTION"),
            Kind::FrameRate => Pattern::Literal("FRAME-RATE"),
            Kind::Codecs => Pattern::Literal("CODECS"),
            Kind::Equal => Pattern::Literal("="),
            Kind::Comma => Pattern::Literal(","),
            Kind::Colon => Pattern::Literal(":"),
            Kind::Float => Pattern::Pair(0x2e),
            Kind::Integer => Pattern::Digits,
            Kind::String => Pattern::Quoted,
            Kind::Aes128 => Pattern::Literal("AES-128"),
            Kind::SampleAes => Pattern::Literal("SAMPLE-AES"),
            Kind::Unencrypted => Pattern::Literal("NONE"),
            Kind::Yes => Pattern::Literal("YES"),
            Kind::No => Pattern::Literal("NO"),
            Kind::ByteRangeValue => Pattern::Pair(0x40),
            Kind::Vod => Pattern::Literal("VOD"),
            Kind::Event => Pattern::Literal("EVENT"),
            Kind::ResolutionValue => Pattern::Pair(0x78),
            Kind::HttpUri => Pattern::Prefixed("http://"),
            Kind::HttpsUri => Pattern::Prefixed("https://"),
            Kind::PlaylistFile => Pattern::Named(".m3u8"),
        }
    }

    /// The rule that recognises this kind.
    pub open spec fn rule(self) -> Rule<Kind> {
        Rule { kind: self, pattern: self.pattern() }
    }

    /// Makes the rule that recognises this kind.
    pub fn to_rule(self) -> (rule: Rule<Kind>)
        ensures
            rule == self.rule(),
    {
        let pattern = match self {
            Kind::ExtM3U => Pattern::Literal("#EXTM3U"),
            Kind::EndList => Pattern::Literal("#EXT-X-ENDLIST"),
            Kind::TargetDuration => Pattern::Literal("#EXT-X-TARGETDURATION"),
            Kind::Version => Pattern::Literal("#EXT-X-VERSION"),
            Kind::MediaSequence => Pattern::Literal("#EXT-X-MEDIA-SEQUENCE"),
            Kind::Key => Pattern::Literal("#EXT-X-KEY"),
            Kind::AllowCache => Pattern::Literal("#EXT-X-ALLOW-CACHE"),
            Kind::PlaylistType => Pattern::Literal("#EXT-X-PLAYLIST-TYPE"),
            Kind::IFramesOnly => Pattern::Literal("#EXT-X-I-FRAMES-ONLY"),
            Kind::Inf => Pattern::Literal("#EXTINF"),
            Kind::ByteRange => Pattern::Literal("#EXT-X-BYTERANGE"),
            Kind::StreamInf => Pattern::Literal("#EXT-X-STREAM-INF"),
            Kind::IFrameStreamInf => Pattern::Literal("#EXT-X-I-FRAME-STREAM-INF"),
            Kind::Method => Pattern::Literal("METHOD"),
            Kind::Uri => Pattern::Literal("URI"),
            Kind::ProgramId => Pattern::Literal("PROGRAM-ID"),
            Kind::Bandwidth => Pattern::Literal("BANDWIDTH"),
            Kind::Resolution => Pattern::Literal("RESOLUTION"),
            Kind::FrameRate => Pattern::Literal("FRAME-RATE"),
            Kind::Codecs => Pattern::Literal("CODECS"),
            Kind::Equal => Pattern::Literal("="),
            Kind::Comma => Pattern::Literal(","),
            Kind::Colon => Pattern::Literal(":"),
            Kind::Float => Pattern::Pair(0x2e),
            Kind::Integer => Pattern::Digits,
            Kind::String => Pattern::Quoted,
            Kind::Aes128 => Pattern::Literal("AES-128"),
            Kind::SampleAes => Pattern::Literal("SAMPLE-AES"),
            Kind::Unencrypted => Pattern::Literal("NONE"),
            Kind::Yes => Pattern::Literal("YES"),
            Kind::No => Pattern::Literal("NO"),
            Kind::ByteRangeValue => Pattern::Pair(0x40),
            Kind::Vod => Pattern::Literal("VOD"),
            Kind::Event => Pattern::Literal("EVENT"),
            Kind::ResolutionValue => Pattern::Pair(0x78),
            Kind::HttpUri => Pattern::Prefixed("http://"),
            Kind::HttpsUri => Pattern::Prefixed("https://"),
            Kind::PlaylistFile => Pattern::Named(".m3u8"),
        };
        Rule { kind: self, pattern }
    }
}

/// The number that `bytes` denotes, where `bytes` is a non-empty run of
/// digits whose value fits a `usize`.
pub open spec fn number_of(bytes: Seq<u8>) -> Option<usize> {
    if bytes.len() > 0 && all_digits(bytes) && decimal_value(bytes) <= usize::MAX {
        Some(decimal_value(bytes) as usize)
    } else {
        None
    }
}

/// The two numbers that `bytes` denotes, where `bytes` is two such runs of
/// digits with one byte between them.
pub open spec fn pair_of(bytes: Seq<u8>) -> Option<(usize, usize)> {
    let middle = run_end(bytes, 0, ByteClass::Digit);
    if middle < bytes.len() {
        match (
            number_of(bytes.subrange(0, middle)),
            number_of(bytes.subrange(middle + 1, bytes.len() as int)),
        ) {
            (Some(first), Some(second)) => Some((first, second)),
            _ => None,
        }
    } else {
        None
    }
}

/// The token that a lexeme of the given kind and text is, or the error that
/// it gives: a number or literal that cannot be converted.
pub open spec fn token_of(kind: Kind, bytes: Seq<u8>) -> Result<TokenView, ErrorView> {
    match kind {
        Kind::ExtM3U => Ok(TokenView::ExtM3U),
        Kind::EndList => Ok(TokenView::EndList),
        Kind::TargetDuration => Ok(TokenView::TargetDuration),
        Kind::Version => Ok(TokenView::Version),
        Kind::MediaSequence => Ok(TokenView::MediaSequence),
        Kind::Key => Ok(TokenView::Key),
        Kind::AllowCache => Ok(TokenView::AllowCache),
        Kind::PlaylistType => Ok(TokenView::PlaylistType),
        Kind::IFramesOnly => Ok(TokenView::IFramesOnly),
        Kind::Inf => Ok(TokenView::Inf),
        Kind::ByteRange => Ok(TokenView::ByteRange),
        Kind::StreamInf => Ok(TokenView::StreamInf),
        Kind::IFrameStreamInf => Ok(TokenView::IFrameStreamInf),
        Kind::Method => Ok(TokenView::Method),
        Kind::Uri => Ok(TokenView::Uri),
        Kind::ProgramId => Ok(TokenView::ProgramId),
        Kind::Bandwidth => Ok(TokenView::Bandwidth),
        Kind::Resolution => Ok(TokenView::Resolution),
        Kind::FrameRate => Ok(TokenView::FrameRate),
        Kind::Codecs => Ok(TokenView::Codecs),
        Kind::Equal => Ok(TokenView::Equal),
        Kind::Comma => Ok(TokenView::Comma),
        Kind::Colon => Ok(TokenView::Colon),
        Kind::Float => if is_decimal(bytes) {
            Ok(TokenView::Float(decode_utf8(bytes)))
        } else {
            Err(ErrorView::InvalidNumber(decode_utf8(bytes)))
        },
        Kind::Integer => match number_of(bytes) {
            Some(number) => Ok(TokenView::Integer(number)),
            None => Err(ErrorView::InvalidNumber(decode_utf8(bytes))),
        },
        Kind::String => if bytes.len() >= 2 && bytes[0] == 0x22 && bytes.last() == 0x22 {
            Ok(TokenView::String(decode_utf8(bytes.subrange(1, bytes.len() - 1))))
        } else {
            Err(ErrorView::Lex(decode_utf8(bytes)))
        },
        Kind::Aes128 => Ok(TokenView::MethodValue(Method::Aes128)),
        Kind::SampleAes => Ok(TokenView::MethodValue(Method::SampleAes)),
        Kind::Unencrypted => Ok(TokenView::MethodValue(Method::Unencrypted)),
        Kind::Yes => Ok(TokenView::AllowCacheValue(true)),
        Kind::No => Ok(TokenView::AllowCacheValue(false)),
        Kind::ByteRangeValue => match pair_of(bytes) {
            Some((first, second)) => Ok(
                TokenView::ByteRangeValue(Range { start: first, end: second }),
            ),
            None => Err(ErrorView::InvalidNumber(decode_utf8(bytes))),
        },
        Kind::Vod => Ok(TokenView::PlaylistTypeValue(PlaylistType::Vod)),
        Kind::Event => Ok(TokenView::PlaylistTypeValue(PlaylistType::Event)),
        Kind::ResolutionValue => match pair_of(bytes) {
            Some(size) => Ok(TokenView::ResolutionValue(size)),
            None => Err(ErrorView::InvalidNumber(decode_utf8(bytes))),
        },
        Kind::HttpUri => Ok(TokenView::UriValue(decode_utf8(bytes))),
        Kind::HttpsUri => Ok(TokenView::UriValue(decode_utf8(bytes))),
        Kind::PlaylistFile => Ok(TokenView::UriValue(decode_utf8(bytes))),
    }
}

/// Whether the lexeme can be converted: whether no number in it exceeds
/// `usize::MAX`. Only the kinds that hold numbers can fail here.
pub open spec fn converts(kind: Kind, lexeme: Seq<u8>) -> bool {
    match kind {
        Kind::Integer => decimal_value(lexeme) <= usize::MAX,
        Kind::ByteRangeValue | Kind::ResolutionValue => {
            let middle = run_end(lexeme, 0, ByteClass::Digit);
            &&& decimal_value(lexeme.subrange(0, middle)) <= usize::MAX
            &&& decimal_value(lexeme.subrange(middle + 1, lexeme.len() as int)) <= usize::MAX
        },
        _ => true,
    }
}

/// A lexeme that matches the pattern of its kind is a token, unless a number
/// in it is too large: then it is that error and no other.
pub proof fn lemma_lexeme_converts(kind: Kind, bytes: Seq<u8>, at: int)
    requires
        0 <= at <= bytes.len(),
        match_len(kind.pattern(), bytes, at) > 0,
    ensures
        ({
            let lexeme = bytes.subrange(at, at + match_len(kind.pattern(), bytes, at));
            match token_of(kind, lexeme) {
                Ok(_) => converts(kind, lexeme),
                Err(error) => !converts(kind, lexeme) && error == ErrorView::InvalidNumber(
                    decode_utf8(lexeme),
                ),
            }
        }),
{
    let n = match_len(kind.pattern(), bytes, at);
    let end = at + n;
    let lexeme = bytes.subrange(at, end);
    lemma_match_len_bounds(kind.pattern(), bytes, at);
    match kind {
        Kind::Integer => {
            lemma_run_end(bytes, at, ByteClass::Digit);
            assert forall|i: int| 0 <= i < lexeme.len() implies is_digit(
                #[trigger] lexeme[i],
            ) by {
                assert(ByteClass::Digit.contains(bytes[at + i]));
            }
        },
        Kind::String => {
            lemma_run_end(bytes, at + 1, ByteClass::Unquoted);
            assert(lexeme[0] == bytes[at]);
            assert(lexeme.last() == bytes[end - 1]);
        },
        Kind::Float | Kind::ByteRangeValue | Kind::ResolutionValue => {
            let middle = run_end(bytes, at, ByteClass::Digit);
            lemma_run_end(bytes, at, ByteClass::Digit);
            lemma_run_end(bytes, middle + 1, ByteClass::Digit);
            lemma_run_end_within(bytes, at, end, at, ByteClass::Digit);
            lemma_run_end_within(bytes, at, end, middle + 1, ByteClass::Digit);
            assert(lexeme[middle - at] == bytes[middle]);
            let first = lexeme.subrange(0, middle - at);
            let second = lexeme.subrange(middle - at + 1, lexeme.len() as int);
            assert forall|i: int| 0 <= i < first.len() implies is_digit(#[trigger] first[i]) by {
                assert(ByteClass::Digit.contains(bytes[at + i]));
            }
            assert forall|i: int| 0 <= i < second.len() implies is_digit(
                #[trigger] second[i],
            ) by {
                assert(ByteClass::Digit.contains(bytes[middle + 1 + i]));
            }
        },
        _ => {},
    }
}

/// The mathematical value of a token or of the error in its place.
pub open spec fn token_result(r: Result<Token, Error>) -> Result<TokenView, ErrorView> {
    match r {
        Ok(token) => Ok(token@),
        Err(error) => Err(error@),
    }
}

/// Reads a run of digits as a number.
pub fn number(bytes: &[u8]) -> (r: Option<usize>)
    ensures
        r == number_of(bytes@),
{
    let end = scan_run(bytes, 0, ByteClass::Digit);
    proof {
        lemma_run_end(bytes@, 0, ByteClass::Digit);
    }
    if bytes.len() > 0 && end == bytes.len() {
        parse_decimal(bytes)
    } else {
        None
    }
}

/// Reads two runs of digits with one byte between them as two numbers.
pub fn pair(bytes: &[u8]) -> (r: Option<(usize, usize)>)
    ensures
        r == pair_of(bytes@),
{
    let middle = scan_run(bytes, 0, ByteClass::Digit);
    if middle < bytes.len() {
        let first = number(slice_subrange(bytes, 0, middle));
        let second = number(slice_subrange(bytes, middle + 1, bytes.len()));
        match (first, second) {
            (Some(first), Some(second)) => Some((first, second)),
            _ => None,
        }
    } else {
        None
    }
}

/// Makes the token that a lexeme of the given kind and text is.
pub fn make_token<'a>(kind: Kind, text: &'a str) -> (r: Result<Token<'a>, Error>)
    ensures
        token_result(r) == token_of(kind, text.spec_bytes()),
{
    proof {
        encode_utf8_decode_utf8(text@);
        encode_utf8_valid_utf8(text@);
    }
    match kind {
        Kind::ExtM3U => Ok(Token::ExtM3U),
        Kind::EndList => Ok(Token::EndList),
        Kind::TargetDuration => Ok(Token::TargetDuration),
        Kind::Version => Ok(Token::Version),
        Kind::MediaSequence => Ok(Token::MediaSequence),
        Kind::Key => Ok(Token::Key),
        Kind::AllowCache => Ok(Token::AllowCache),
        Kind::PlaylistType => Ok(Token::PlaylistType),
        Kind::IFramesOnly => Ok(Token::IFramesOnly),
        Kind::Inf => Ok(Token::Inf),
        Kind::ByteRange => Ok(Token::ByteRange),
        Kind::StreamInf => Ok(Token::StreamInf),
        Kind::IFrameStreamInf => Ok(Token::IFrameStreamInf),
        Kind::Method => Ok(Token::Method),
        Kind::Uri => Ok(Token::Uri),
        Kind::ProgramId => Ok(Token::ProgramId),
        Kind::Bandwidth => Ok(Token::Bandwidth),
        Kind::Resolution => Ok(Token::Resolution),
        Kind::FrameRate => Ok(Token::FrameRate),
        Kind::Codecs => Ok(Token::Codecs),
        Kind::Equal => Ok(Token::Equal),
        Kind::Comma => Ok(Token::Comma),
        Kind::Colon => Ok(Token::Colon),
        Kind::Float => match Decimal::new(text) {
            Some(number) => Ok(Token::Float(number)),
            None => Err(Error::InvalidNumber(String::from_str(text))),
        },
        Kind::Integer => match number(text.as_bytes()) {
            Some(number) => Ok(Token::Integer(number)),
            None => Err(Error::InvalidNumber(String::from_str(text))),
        },
        Kind::String => {
            let bytes = text.as_bytes();
            let len = bytes.len();
            if len >= 2 && bytes[0] == 0x22 && bytes[len - 1] == 0x22 {
                proof {
                    lemma_boundary_around_ascii(bytes@, 0);
                    lemma_boundary_around_ascii(bytes@, len - 1);
                }
                Ok(Token::String(slice(text, 1, len - 1)))
            } else {
                Err(Error::Lex(String::from_str(text)))
            }
        },
        Kind::Aes128 => Ok(Token::MethodValue(Method::Aes128)),
        Kind::SampleAes => Ok(Token::MethodValue(Method::SampleAes)),
        Kind::Unencrypted => Ok(Token::MethodValue(Method::Unencrypted)),
        Kind::Yes => Ok(Token::AllowCacheValue(true)),
        Kind::No => Ok(Token::AllowCacheValue(false)),
        Kind::ByteRangeValue => match pair(text.as_bytes()) {
            Some((first, second)) => Ok(Token::ByteRangeValue(first..second)),
            None => Err(Error::InvalidNumber(String::from_str(text))),
        },
        Kind::Vod => Ok(Token::PlaylistTypeValue(PlaylistType::Vod)),
        Kind::Event => Ok(Token::PlaylistTypeValue(PlaylistType::Event)),
        Kind::ResolutionValue => match pair(text.as_bytes()) {
            Some(size) => Ok(Token::ResolutionValue(size)),
            None => Err(Error::InvalidNumber(String::from_str(text))),
        },
        Kind::HttpUri => Ok(Token::UriValue(text)),
        Kind::HttpsUri => Ok(Token::UriValue(text)),
        Kind::PlaylistFile => Ok(Token::UriValue(text)),
    }
}

} // verus!
