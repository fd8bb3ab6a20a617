//! Media Playlists: the segments of one rendition, in order.
//!
//! [`parse`] reads the tokens of the text one tag at a time. What it does
//! with each tag is [`step`]; what it gives for a whole text is [`run`] from
//! the playlist in which nothing is set.

use vstd::prelude::*;
use vstd::string::*;
use std::ops::Range;
use crate::decimal::Decimal;
use crate::error::{Error, ErrorView};
use crate::lexer::{lemma_skip_none, lemma_skip_skip, media_grammar, tokenize, Lexer, TokenStream};
pub use crate::token::Token;
use crate::token::TokenView;

pub mod laws;
pub mod plain;

verus! {

/// How the segments of a playlist are encrypted.
#[derive(Debug, PartialEq, Eq, Clone, Copy)]
pub enum Method {
    /// `AES-128`: whole segments, AES with 128-bit keys.
    Aes128,
    /// `SAMPLE-AES`: the media samples within the segments.
    SampleAes,
    /// `NONE`: not at all.
    Unencrypted,
}

/// Whether a playlist may still change.
#[derive(Debug, PartialEq, Eq, Clone, Copy)]
pub enum PlaylistType {
    /// `VOD`: the playlist is complete and stays as it is.
    Vod,
    /// `EVENT`: segments may be added at the end.
    Event,
}

/// How to decrypt the segments.
#[derive(Debug, PartialEq)]
pub struct Key {
    pub method: Method,
    /// Where the key is found.
    pub uri: String,
}

/// One piece of media.
#[derive(Debug, PartialEq)]
pub struct MediaSegment {
    /// How long it plays, in seconds.
    pub duration: Decimal,
    /// The part of the resource that is the segment, as the text gives it:
    /// `start` holds the number before the `@`, `end` the number after it.
    pub byte_range: Option<Range<usize>>,
    pub url: String,
}

/// A Media Playlist.
#[derive(Debug, PartialEq)]
pub struct MediaPlaylist {
    /// The version of the protocol; 0 where the text names none.
    pub version: u8,
    /// The number of the first segment; 0 where the text names none.
    pub media_sequence: u32,
    pub key: Option<Key>,
    /// Whether clients may keep segments; `false` where the text does not say.
    pub allow_cache: bool,
    /// The longest duration of a segment, in seconds; 0 where the text names none.
    pub target_duration: u32,
    /// `Event` where the text names no type.
    pub playlist_type: PlaylistType,
    /// Whether every segment is a single I-frame.
    pub iframes_only: bool,
    /// The segments, in the order of the text.
    pub segments: Vec<MediaSegment>,
}

/// The mathematical value of a [`Key`].
pub struct KeyView {
    pub method: Method,
    pub uri: Seq<char>,
}

/// The mathematical value of a [`MediaSegment`].
pub struct MediaSegmentView {
    pub duration: Seq<char>,
    pub byte_range: Option<Range<usize>>,
    pub url: Seq<char>,
}

/// The mathematical value of a [`MediaPlaylist`].
pub struct MediaPlaylistView {
    pub version: u8,
    pub media_sequence: u32,
    pub key: Option<KeyView>,
    pub allow_cache: bool,
    pub target_duration: u32,
    pub playlist_type: PlaylistType,
    pub iframes_only: bool,
    pub segments: Seq<MediaSegmentView>,
}

impl View for Key {
    type V = KeyView;

    open spec fn view(&self) -> KeyView {
        KeyView { method: self.method, uri: self.uri@ }
    }
}

impl View for MediaSegment {
    type V = MediaSegmentView;

    open spec fn view(&self) -> MediaSegmentView {
        MediaSegmentView {
            duration: self.duration@,
            byte_range: self.byte_range,
            url: self.url@,
        }
    }
}

impl View for MediaPlaylist {
    type V = MediaPlaylistView;

    open spec fn view(&self) -> MediaPlaylistView {
        MediaPlaylistView {
            version: self.version,
            media_sequence: self.media_sequence,
            key: match self.key {
                Some(key) => Some(key@),
                None => None,
            },
            allow_cache: self.allow_cache,
            target_duration: self.target_duration,
            playlist_type: self.playlist_type,
            iframes_only: self.iframes_only,
            segments: self.segments@.map_values(|segment: MediaSegment| segment@),
        }
    }
}

impl MediaPlaylistView {
    /// The playlist of a text without tags.
    pub open spec fn initial() -> MediaPlaylistView {
        MediaPlaylistView {
            version: 0,
            media_sequence: 0,
            key: None,
            allow_cache: false,
            target_duration: 0,
            playlist_type: PlaylistType::Event,
            iframes_only: false,
            segments: Seq::empty(),
        }
    }
}

impl MediaPlaylist {
    /// The playlist of a text without tags.
    pub fn new() -> (playlist: MediaPlaylist)
        ensures
            playlist@ == MediaPlaylistView::initial(),
    {
        let playlist = MediaPlaylist {
            version: 0,
            media_sequence: 0,
            key: None,
            allow_cache: false,
            target_duration: 0,
            playlist_type: PlaylistType::Event,
            iframes_only: false,
            segments: Vec::new(),
        };
        assert(playlist@.segments =~= Seq::empty());
        playlist
    }
}

/// What one tag does to the playlist.
pub enum Step {
    /// The tag and its values are read: so many tokens after the tag are
    /// used up, and the playlist is now this.
    Next { consumed: int, playlist: MediaPlaylistView },
    /// The tag ends the playlist.
    Stop,
    /// The tag lacks a value.
    Fail(ErrorView),
}

/// The error for a literal that is no member of the field's enumeration.
pub open spec fn not_a_member(field: Seq<char>) -> Step {
    Step::Fail(ErrorView::InvalidEnumeration(field))
}

/// The error for a value of the wrong kind.
pub open spec fn missing(field: Seq<char>) -> Step {
    Step::Fail(ErrorView::MissingValue(field))
}

/// What the tag `#EXT-X-KEY` does: the method is the fourth token after the
/// tag, the URI the fourth after the method.
pub open spec fn key_step(rest: TokenStream, playlist: MediaPlaylistView) -> Step {
    match rest.enumerated(3, "method"@) {
        Ok(TokenView::MethodValue(method)) => match rest.skip(4).required(3, "key URI"@) {
            Ok(TokenView::String(uri)) => Step::Next {
                consumed: 8,
                playlist: MediaPlaylistView { key: Some(KeyView { method, uri }), ..playlist },
            },
            Ok(_) => missing("key URI"@),
            Err(error) => Step::Fail(error),
        },
        Ok(_) => not_a_member("method"@),
        Err(error) => Step::Fail(error),
    }
}

/// The same step, with `n` tokens more counted as used up.
pub open spec fn after(n: int, step: Step) -> Step {
    match step {
        Step::Next { consumed, playlist } => Step::Next { consumed: consumed + n, playlist },
        other => other,
    }
}

/// The end of a segment: its URL is the token `skip` tokens ahead in
/// `stream`, and the segment is added to the playlist.
pub open spec fn segment_step(
    stream: TokenStream,
    playlist: MediaPlaylistView,
    skip: int,
    duration: Seq<char>,
    byte_range: Option<Range<usize>>,
) -> Step {
    match stream.required(skip, "URL"@) {
        Ok(TokenView::UriValue(url)) => Step::Next {
            consumed: skip + 1,
            playlist: MediaPlaylistView {
                segments: playlist.segments.push(MediaSegmentView { duration, byte_range, url }),
                ..playlist
            },
        },
        Ok(_) => missing("URL"@),
        Err(error) => Step::Fail(error),
    }
}

/// What the tag `#EXTINF` does. The duration is the second token after the
/// tag. In a playlist of I-frames the fourth token after the duration may be
/// a byte range, and then the URL follows it at once; where it is anything
/// else, those four tokens are used up all the same, and the URL is the
/// second token after them; where the stream fails there, the step fails,
/// and a number that does not fit is the byte range's. In any other playlist
/// the URL is the second token after the duration, and a byte range is not
/// looked for.
pub open spec fn inf_step(rest: TokenStream, playlist: MediaPlaylistView) -> Step {
    match rest.required(1, "duration"@) {
        Ok(TokenView::Float(duration)) => if playlist.iframes_only {
            match rest.skip(2).value(3, "byte range"@) {
                Some(Ok(TokenView::ByteRangeValue(range))) => after(
                    6,
                    segment_step(rest.skip(6), playlist, 0, duration, Some(range)),
                ),
                Some(Err(error)) => Step::Fail(error),
                _ => after(6, segment_step(rest.skip(6), playlist, 1, duration, None)),
            }
        } else {
            after(2, segment_step(rest.skip(2), playlist, 1, duration, None))
        },
        Ok(_) => missing("duration"@),
        Err(error) => Step::Fail(error),
    }
}

/// What the token `token` does at the head of a line, where `rest` is what
/// follows it. A tag with a value takes it from the second token after the
/// tag; of a number wider than the field only the low bits that fit the
/// field are kept. A token that is no tag of a Media Playlist does nothing.
pub open spec fn step(token: TokenView, rest: TokenStream, playlist: MediaPlaylistView) -> Step {
    match token {
        TokenView::Version => match rest.required(1, "version"@) {
            Ok(TokenView::Integer(version)) => Step::Next {
                consumed: 2,
                playlist: MediaPlaylistView { version: version as u8, ..playlist },
            },
            Ok(_) => missing("version"@),
            Err(error) => Step::Fail(error),
        },
        TokenView::MediaSequence => match rest.required(1, "media sequence"@) {
            Ok(TokenView::Integer(sequence)) => Step::Next {
                consumed: 2,
                playlist: MediaPlaylistView { media_sequence: sequence as u32, ..playlist },
            },
            Ok(_) => missing("media sequence"@),
            Err(error) => Step::Fail(error),
        },
        TokenView::TargetDuration => match rest.required(1, "target duration"@) {
            Ok(TokenView::Integer(duration)) => Step::Next {
                consumed: 2,
                playlist: MediaPlaylistView { target_duration: duration as u32, ..playlist },
            },
            Ok(_) => missing("target duration"@),
            Err(error) => Step::Fail(error),
        },
        TokenView::AllowCache => match rest.required(1, "allow cache"@) {
            Ok(TokenView::AllowCacheValue(allow_cache)) => Step::Next {
                consumed: 2,
                playlist: MediaPlaylistView { allow_cache, ..playlist },
            },
            Ok(_) => missing("allow cache"@),
            Err(error) => Step::Fail(error),
        },
        TokenView::PlaylistType => match rest.enumerated(1, "playlist type"@) {
            Ok(TokenView::PlaylistTypeValue(playlist_type)) => Step::Next {
                consumed: 2,
                playlist: MediaPlaylistView { playlist_type, ..playlist },
            },
            Ok(_) => not_a_member("playlist type"@),
            Err(error) => Step::Fail(error),
        },
        TokenView::Key => key_step(rest, playlist),
        TokenView::IFramesOnly => Step::Next {
            consumed: 0,
            playlist: MediaPlaylistView { iframes_only: true, ..playlist },
        },
        TokenView::Inf => inf_step(rest, playlist),
        TokenView::EndList => Step::Stop,
        _ => Step::Next { consumed: 0, playlist },
    }
}

/// The playlist that the tokens of `stream` make of `playlist`: each tag in
/// turn does its step, up to the end of the tokens or the tag that ends the
/// playlist. The first failure, of a tag or of the stream, is the result.
pub open spec fn run(stream: TokenStream, playlist: MediaPlaylistView) -> Result<
    MediaPlaylistView,
    ErrorView,
>
    decreases stream.tokens.len(),
{
    match stream.nth(0) {
        None => Ok(playlist),
        Some(Err(error)) => Err(error),
        Some(Ok(token)) => match step(token, stream.skip(1), playlist) {
            Step::Next { consumed, playlist } => run(stream.skip(1).skip(consumed), playlist),
            Step::Stop => Ok(playlist),
            Step::Fail(error) => Err(error),
        },
    }
}

/// The Media Playlist that a text is, or the error in it.
pub open spec fn parse_spec(text: Seq<u8>) -> Result<MediaPlaylistView, ErrorView> {
    run(tokenize(media_grammar(), text), MediaPlaylistView::initial())
}

/// The mathematical value of a playlist or of the error in its place.
pub open spec fn playlist_result(r: Result<MediaPlaylist, Error>) -> Result<
    MediaPlaylistView,
    ErrorView,
> {
    match r {
        Ok(playlist) => Ok(playlist@),
        Err(error) => Err(error@),
    }
}

/// Reads the values of the tag `#EXT-X-KEY` into the playlist.
fn parse_key<'a>(lexer: &mut Lexer<'a>, playlist: &mut MediaPlaylist) -> (r: Result<(), Error>)
    ensures
        match key_step(old(lexer).remaining(), old(playlist)@) {
            Step::Next { consumed, playlist: expected } => r is Ok && final(playlist)@
                == expected && final(lexer).remaining() == old(lexer).remaining().skip(consumed),
            Step::Stop => false,
            Step::Fail(error) => r is Err && r->Err_0@ == error,
        },
{
    let ghost rest = lexer.remaining();
    let method = match lexer.enumerated(3, "method") {
        Ok(Token::MethodValue(method)) => method,
        Ok(_) => {
            return Err(Error::invalid_enumeration("method"));
        },
        Err(error) => {
            return Err(error);
        },
    };
    let uri = match lexer.required(3, "key URI") {
        Ok(Token::String(uri)) => String::from_str(uri),
        Ok(_) => {
            return Err(Error::missing_value("key URI"));
        },
        Err(error) => {
            return Err(error);
        },
    };
    playlist.key = Some(Key { method, uri });
    proof {
        lemma_skip_skip(rest, 4, 4);
    }
    Ok(())
}

/// Reads the URL of a segment and adds the segment to the playlist.
fn parse_segment<'a>(
    lexer: &mut Lexer<'a>,
    playlist: &mut MediaPlaylist,
    skip: usize,
    duration: Decimal,
    byte_range: Option<Range<usize>>,
) -> (r: Result<(), Error>)
    ensures
        match segment_step(
            old(lexer).remaining(),
            old(playlist)@,
            skip as int,
            duration@,
            byte_range,
        ) {
            Step::Next { consumed, playlist: expected } => r is Ok && final(playlist)@
                == expected && final(lexer).remaining() == old(lexer).remaining().skip(consumed),
            Step::Stop => false,
            Step::Fail(error) => r is Err && r->Err_0@ == error,
        },
{
    let url = match lexer.required(skip, "URL") {
        Ok(Token::UriValue(url)) => String::from_str(url),
        Ok(_) => {
            return Err(Error::missing_value("URL"));
        },
        Err(error) => {
            return Err(error);
        },
    };
    let ghost before = playlist@;
    let segment = MediaSegment { duration, byte_range, url };
    playlist.segments.push(segment);
    proof {
        assert(playlist@.segments =~= before.segments.push(segment@));
    }
    Ok(())
}

/// Reads the values of the tag `#EXTINF` and adds a segment to the playlist.
fn parse_inf<'a>(lexer: &mut Lexer<'a>, playlist: &mut MediaPlaylist) -> (r: Result<(), Error>)
    ensures
        match inf_step(old(lexer).remaining(), old(playlist)@) {
            Step::Next { consumed, playlist: expected } => r is Ok && final(playlist)@
                == expected && final(lexer).remaining() == old(lexer).remaining().skip(consumed),
            Step::Stop => false,
            Step::Fail(error) => r is Err && r->Err_0@ == error,
        },
{
    let ghost rest = lexer.remaining();
    let duration = match lexer.required(1, "duration") {
        Ok(Token::Float(duration)) => duration,
        Ok(_) => {
            return Err(Error::missing_value("duration"));
        },
        Err(error) => {
            return Err(error);
        },
    };
    proof {
        lemma_skip_skip(rest, 2, 4);
        lemma_skip_skip(rest, 2, 2);
        lemma_skip_skip(rest, 6, 1);
        lemma_skip_skip(rest, 6, 2);
    }
    if playlist.iframes_only {
        match lexer.value(3, "byte range") {
            Some(Ok(Token::ByteRangeValue(range))) => parse_segment(
                lexer,
                playlist,
                0,
                duration,
                Some(range),
            ),
            Some(Err(error)) => Err(error),
            _ => parse_segment(lexer, playlist, 1, duration, None),
        }
    } else {
        parse_segment(lexer, playlist, 1, duration, None)
    }
}

/// Reads a Media Playlist.
///
/// The text is read tag by tag. Every tag sets its field: the last one of a
/// kind wins. Each `#EXTINF` adds a segment. `#EXT-X-ENDLIST` ends the
/// playlist, and what follows it is not read. A text that ends without it is
/// complete too. Tokens that are no tag of a Media Playlist are passed over.
/// The first tag that lacks its value, and the first piece of text that is
/// no token, fails the whole text.
pub fn parse(input: &str) -> (r: Result<MediaPlaylist, Error>)
    ensures
        playlist_result(r) == parse_spec(input.spec_bytes()),
{
    let mut lexer = Lexer::media(input);
    let mut playlist = MediaPlaylist::new();
    loop
        invariant
            run(lexer.remaining(), playlist@) == parse_spec(input.spec_bytes()),
        decreases lexer.remaining().tokens.len(),
    {
        let ghost stream = lexer.remaining();
        let ghost before = playlist@;
        let token = match lexer.next() {
            None => {
                return Ok(playlist);
            },
            Some(Err(error)) => {
                return Err(error);
            },
            Some(Ok(token)) => token,
        };
        let ghost rest = lexer.remaining();
        match token {
            Token::Version => {
                match lexer.required(1, "version") {
                    Ok(Token::Integer(version)) => {
                        playlist.version = #[verifier::truncate]
                        (version as u8);
                    },
                    Ok(_) => {
                        return Err(Error::missing_value("version"));
                    },
                    Err(error) => {
                        return Err(error);
                    },
                }
            },
            Token::MediaSequence => {
                match lexer.required(1, "media sequence") {
                    Ok(Token::Integer(sequence)) => {
                        playlist.media_sequence = #[verifier::truncate]
                        (sequence as u32);
                    },
                    Ok(_) => {
                        return Err(Error::missing_value("media sequence"));
                    },
                    Err(error) => {
                        return Err(error);
                    },
                }
            },
            Token::TargetDuration => {
                match lexer.required(1, "target duration") {
                    Ok(Token::Integer(duration)) => {
                        playlist.target_duration = #[verifier::truncate]
                        (duration as u32);
                    },
                    Ok(_) => {
                        return Err(Error::missing_value("target duration"));
                    },
                    Err(error) => {
                        return Err(error);
                    },
                }
            },
            Token::AllowCache => {
                match lexer.required(1, "allow cache") {
                    Ok(Token::AllowCacheValue(allow_cache)) => {
                        playlist.allow_cache = allow_cache;
                    },
                    Ok(_) => {
                        return Err(Error::missing_value("allow cache"));
                    },
                    Err(error) => {
                        return Err(error);
                    },
                }
            },
            Token::PlaylistType => {
                match lexer.enumerated(1, "playlist type") {
                    Ok(Token::PlaylistTypeValue(playlist_type)) => {
                        playlist.playlist_type = playlist_type;
                    },
                    Ok(_) => {
                        return Err(Error::invalid_enumeration("playlist type"));
                    },
                    Err(error) => {
                        return Err(error);
                    },
                }
            },
            Token::Key => {
                match parse_key(&mut lexer, &mut playlist) {
                    Ok(()) => {},
                    Err(error) => {
                        return Err(error);
                    },
                }
            },
            Token::IFramesOnly => {
                playlist.iframes_only = true;
                proof {
                    lemma_skip_none(rest);
                }
            },
            Token::Inf => {
                match parse_inf(&mut lexer, &mut playlist) {
                    Ok(()) => {},
                    Err(error) => {
                        return Err(error);
                    },
                }
            },
            Token::EndList => {
                return Ok(playlist);
            },
            _ => {
                proof {
                    lemma_skip_none(rest);
                }
            },
        }
    }
}

} // verus!
