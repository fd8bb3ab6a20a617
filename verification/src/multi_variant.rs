//! Multi-Variant Playlists: the renditions of one content.
//!
//! [`parse`] reads the tokens of the text. Each `#EXT-X-STREAM-INF` opens
//! the attributes of a variant stream, each `#EXT-X-I-FRAME-STREAM-INF` those
//! of an I-frame stream; what they give is [`variant_attributes`] and
//! [`frame_attributes`], and what a whole text gives is [`run`] from the
//! empty playlist.

use vstd::prelude::*;
use vstd::string::*;
use crate::decimal::Decimal;
use crate::error::{Error, ErrorView};
use crate::lexer::{
    lemma_skip_empty, lemma_skip_none, lemma_skip_skip, multi_variant_grammar, tokenize, Lexer,
    TokenStream,
};
pub use crate::token::Token;
use crate::token::TokenView;

verus! {

/// A Multi-Variant Playlist.
#[derive(Debug, PartialEq)]
pub struct MultiVariantPlaylist {
    /// The variant streams: the same content at several bit rates and
    /// resolutions, among which a player chooses as the network allows.
    pub variant_streams: Vec<VariantStream>,
    /// The I-frame streams: key frames only, for seeking and fast play.
    pub frame_streams: Vec<FrameStream>,
}

/// One encoding of the content.
#[derive(Debug, PartialEq)]
pub struct VariantStream {
    /// The program that the stream belongs to.
    pub program_id: Option<u8>,
    /// The bit rate, in bits per second; 0 where the text names none.
    pub bandwidth: u32,
    /// Width and height of the picture; `(0, 0)` where the text names none.
    pub resolution: (u16, u16),
    /// Frames per second.
    pub frame_rate: Option<Decimal>,
    /// The codecs of the audio and video.
    pub codecs: Option<String>,
    /// Where the Media Playlist of the stream is found; empty where the text
    /// ends before it.
    pub uri: String,
}

/// A stream of key frames.
#[derive(Debug, PartialEq)]
pub struct FrameStream {
    /// The bit rate, in bits per second; 0 where the text names none.
    pub bandwidth: u32,
    /// Width and height of the picture; `(0, 0)` where the text names none.
    pub resolution: (u16, u16),
    /// The codecs of the stream; empty where the text names none.
    pub codecs: String,
    /// Where the Media Playlist of the stream is found; empty where the text
    /// ends before it.
    pub uri: String,
}

/// The mathematical value of a [`VariantStream`].
pub struct VariantStreamView {
    pub program_id: Option<u8>,
    pub bandwidth: u32,
    pub resolution: (u16, u16),
    pub frame_rate: Option<Seq<char>>,
    pub codecs: Option<Seq<char>>,
    pub uri: Seq<char>,
}

/// The mathematical value of a [`FrameStream`].
pub struct FrameStreamView {
    pub bandwidth: u32,
    pub resolution: (u16, u16),
    pub codecs: Seq<char>,
    pub uri: Seq<char>,
}

/// The mathematical value of a [`MultiVariantPlaylist`].
pub struct MultiVariantPlaylistView {
    pub variant_streams: Seq<VariantStreamView>,
    pub frame_streams: Seq<FrameStreamView>,
}

impl View for VariantStream {
    type V = VariantStreamView;

    open spec fn view(&self) -> VariantStreamView {
        VariantStreamView {
            program_id: self.program_id,
            bandwidth: self.bandwidth,
            resolution: self.resolution,
            frame_rate: match self.frame_rate {
                Some(rate) => Some(rate@),
                None => None,
            },
            codecs: match self.codecs {
                Some(codecs) => Some(codecs@),
                None => None,
            },
            uri: self.uri@,
        }
    }
}

impl View for FrameStream {
    type V = FrameStreamView;

    open spec fn view(&self) -> FrameStreamView {
        FrameStreamView {
            bandwidth: self.bandwidth,
            resolution: self.resolution,
            codecs: self.codecs@,
            uri: self.uri@,
        }
    }
}

impl View for MultiVariantPlaylist {
    type V = MultiVariantPlaylistView;

    open spec fn view(&self) -> MultiVariantPlaylistView {
        MultiVariantPlaylistView {
            variant_streams: self.variant_streams@.map_values(|stream: VariantStream| stream@),
            frame_streams: self.frame_streams@.map_values(|stream: FrameStream| stream@),
        }
    }
}

impl VariantStreamView {
    /// The variant stream of which no attribute is set.
    pub open spec fn initial() -> VariantStreamView {
        VariantStreamView {
            program_id: None,
            bandwidth: 0,
            resolution: (0, 0),
            frame_rate: None,
            codecs: None,
            uri: Seq::empty(),
        }
    }
}

impl FrameStreamView {
    /// The I-frame stream of which no attribute is set.
    pub open spec fn initial() -> FrameStreamView {
        FrameStreamView {
            bandwidth: 0,
            resolution: (0, 0),
            codecs: Seq::empty(),
            uri: Seq::empty(),
        }
    }
}

impl MultiVariantPlaylistView {
    /// The playlist without streams.
    pub open spec fn initial() -> MultiVariantPlaylistView {
        MultiVariantPlaylistView { variant_streams: Seq::empty(), frame_streams: Seq::empty() }
    }
}

/// What one token does to a stream's entry.
pub enum Attribute<V> {
    /// The entry goes on: so many tokens after this one are used up, and the
    /// entry is now this.
    Next { consumed: int, entry: V },
    /// The entry is complete, after so many tokens more.
    Done { consumed: int, entry: V },
    /// The token cannot stand in the entry, or lacks its value.
    Fail(ErrorView),
}

/// An entry and the number of tokens that it took.
pub struct Entry<V> {
    pub entry: V,
    pub consumed: int,
}

/// The same result, with `n` tokens more counted as taken.
pub open spec fn after<V>(n: int, r: Result<Entry<V>, ErrorView>) -> Result<
    Entry<V>,
    ErrorView,
> {
    match r {
        Ok(found) => Ok(Entry { entry: found.entry, consumed: found.consumed + n }),
        Err(error) => Err(error),
    }
}

/// The error for a value of the wrong kind.
pub open spec fn missing<V>(field: Seq<char>) -> Attribute<V> {
    Attribute::Fail(ErrorView::MissingValue(field))
}

/// What `token` does to a variant stream's entry, where `rest` is what
/// follows it. A keyword takes its value from the second token after it; of
/// a number wider than the field only the low bits that fit are kept. The
/// program's number is taken where it is a number and left unset where it is
/// not. A URI completes the entry. Punctuation does nothing. Any other token
/// fails the entry.
pub open spec fn variant_attribute(
    token: TokenView,
    rest: TokenStream,
    entry: VariantStreamView,
) -> Attribute<VariantStreamView> {
    match token {
        TokenView::Colon => Attribute::Next { consumed: 0, entry },
        TokenView::Equal => Attribute::Next { consumed: 0, entry },
        TokenView::Comma => Attribute::Next { consumed: 0, entry },
        TokenView::ProgramId => match rest.value(1, "program id"@) {
            Some(Ok(TokenView::Integer(id))) => Attribute::Next {
                consumed: 2,
                entry: VariantStreamView { program_id: Some(id as u8), ..entry },
            },
            Some(Err(error)) => Attribute::Fail(error),
            _ => Attribute::Next { consumed: 2, entry },
        },
        TokenView::Bandwidth => match rest.required(1, "bandwidth"@) {
            Ok(TokenView::Integer(bandwidth)) => Attribute::Next {
                consumed: 2,
                entry: VariantStreamView { bandwidth: bandwidth as u32, ..entry },
            },
            Ok(_) => missing("bandwidth"@),
            Err(error) => Attribute::Fail(error),
        },
        TokenView::Resolution => match rest.required(1, "resolution"@) {
            Ok(TokenView::ResolutionValue(size)) => Attribute::Next {
                consumed: 2,
                entry: VariantStreamView {
                    resolution: (size.0 as u16, size.1 as u16),
                    ..entry
                },
            },
            Ok(_) => missing("resolution"@),
            Err(error) => Attribute::Fail(error),
        },
        TokenView::FrameRate => match rest.required(1, "frame rate"@) {
            Ok(TokenView::Float(rate)) => Attribute::Next {
                consumed: 2,
                entry: VariantStreamView { frame_rate: Some(rate), ..entry },
            },
            Ok(_) => missing("frame rate"@),
            Err(error) => Attribute::Fail(error),
        },
        TokenView::Codecs => match rest.required(1, "codecs"@) {
            Ok(TokenView::String(codecs)) => Attribute::Next {
                consumed: 2,
                entry: VariantStreamView { codecs: Some(codecs), ..entry },
            },
            Ok(_) => missing("codecs"@),
            Err(error) => Attribute::Fail(error),
        },
        TokenView::UriValue(uri) => Attribute::Done {
            consumed: 0,
            entry: VariantStreamView { uri, ..entry },
        },
        _ => Attribute::Fail(ErrorView::Generic("Invalid variant stream"@)),
    }
}

/// What `token` does to an I-frame stream's entry, where `rest` is what
/// follows it. A keyword takes its value from the second token after it; of
/// a number wider than the field only the low bits that fit are kept. The
/// keyword `URI` completes the entry with its value. Punctuation does
/// nothing. Any other token fails the entry.
pub open spec fn frame_attribute(
    token: TokenView,
    rest: TokenStream,
    entry: FrameStreamView,
) -> Attribute<FrameStreamView> {
    match token {
        TokenView::Colon => Attribute::Next { consumed: 0, entry },
        TokenView::Equal => Attribute::Next { consumed: 0, entry },
        TokenView::Comma => Attribute::Next { consumed: 0, entry },
        TokenView::Bandwidth => match rest.required(1, "bandwidth"@) {
            Ok(TokenView::Integer(bandwidth)) => Attribute::Next {
                consumed: 2,
                entry: FrameStreamView { bandwidth: bandwidth as u32, ..entry },
            },
            Ok(_) => missing("bandwidth"@),
            Err(error) => Attribute::Fail(error),
        },
        TokenView::Resolution => match rest.required(1, "resolution"@) {
            Ok(TokenView::ResolutionValue(size)) => Attribute::Next {
                consumed: 2,
                entry: FrameStreamView { resolution: (size.0 as u16, size.1 as u16), ..entry },
            },
            Ok(_) => missing("resolution"@),
            Err(error) => Attribute::Fail(error),
        },
        TokenView::Codecs => match rest.required(1, "codecs"@) {
            Ok(TokenView::String(codecs)) => Attribute::Next {
                consumed: 2,
                entry: FrameStreamView { codecs, ..entry },
            },
            Ok(_) => missing("codecs"@),
            Err(error) => Attribute::Fail(error),
        },
        TokenView::Uri => match rest.required(1, "uri"@) {
            Ok(TokenView::String(uri)) => Attribute::Done {
                consumed: 2,
                entry: FrameStreamView { uri, ..entry },
            },
            Ok(_) => missing("uri"@),
            Err(error) => Attribute::Fail(error),
        },
        _ => Attribute::Fail(ErrorView::Generic("Invalid frame stream"@)),
    }
}

/// The variant stream that the tokens of `stream` make of `entry`, and how
/// many of them it takes: each token in turn does what `variant_attribute`
/// says, up to the one that completes the entry or the end of the tokens.
pub open spec fn variant_attributes(stream: TokenStream, entry: VariantStreamView) -> Result<
    Entry<VariantStreamView>,
    ErrorView,
>
    decreases stream.tokens.len(),
{
    match stream.nth(0) {
        None => Ok(Entry { entry, consumed: 0 }),
        Some(Err(error)) => Err(error),
        Some(Ok(token)) => match variant_attribute(token, stream.skip(1), entry) {
            Attribute::Next { consumed, entry } => after(
                1 + consumed,
                variant_attributes(stream.skip(1).skip(consumed), entry),
            ),
            Attribute::Done { consumed, entry } => Ok(Entry { entry, consumed: 1 + consumed }),
            Attribute::Fail(error) => Err(error),
        },
    }
}

/// The I-frame stream that the tokens of `stream` make of `entry`, and how
/// many of them it takes: each token in turn does what `frame_attribute`
/// says, up to the one that completes the entry or the end of the tokens.
pub open spec fn frame_attributes(stream: TokenStream, entry: FrameStreamView) -> Result<
    Entry<FrameStreamView>,
    ErrorView,
>
    decreases stream.tokens.len(),
{
    match stream.nth(0) {
        None => Ok(Entry { entry, consumed: 0 }),
        Some(Err(error)) => Err(error),
        Some(Ok(token)) => match frame_attribute(token, stream.skip(1), entry) {
            Attribute::Next { consumed, entry } => after(
                1 + consumed,
                frame_attributes(stream.skip(1).skip(consumed), entry),
            ),
            Attribute::Done { consumed, entry } => Ok(Entry { entry, consumed: 1 + consumed }),
            Attribute::Fail(error) => Err(error),
        },
    }
}

/// The playlist that the tokens of `stream` make of `playlist`: each of the
/// two stream tags adds the entry that its attributes give, and every other
/// token is passed over. The first failure, of an entry or of the stream, is
/// the result.
pub open spec fn run(stream: TokenStream, playlist: MultiVariantPlaylistView) -> Result<
    MultiVariantPlaylistView,
    ErrorView,
>
    decreases stream.tokens.len(),
{
    match stream.nth(0) {
        None => Ok(playlist),
        Some(Err(error)) => Err(error),
        Some(Ok(TokenView::StreamInf)) => match variant_attributes(
            stream.skip(1),
            VariantStreamView::initial(),
        ) {
            Ok(found) => run(
                stream.skip(1).skip(found.consumed),
                MultiVariantPlaylistView {
                    variant_streams: playlist.variant_streams.push(found.entry),
                    ..playlist
                },
            ),
            Err(error) => Err(error),
        },
        Some(Ok(TokenView::IFrameStreamInf)) => match frame_attributes(
            stream.skip(1),
            FrameStreamView::initial(),
        ) {
            Ok(found) => run(
                stream.skip(1).skip(found.consumed),
                MultiVariantPlaylistView {
                    frame_streams: playlist.frame_streams.push(found.entry),
                    ..playlist
                },
            ),
            Err(error) => Err(error),
        },
        Some(Ok(_)) => run(stream.skip(1), playlist),
    }
}

/// The Multi-Variant Playlist that a text is, or the error in it.
pub open spec fn parse_spec(text: Seq<u8>) -> Result<MultiVariantPlaylistView, ErrorView> {
    run(tokenize(multi_variant_grammar(), text), MultiVariantPlaylistView::initial())
}

/// The mathematical value of a playlist or of the error in its place.
pub open spec fn playlist_result(r: Result<MultiVariantPlaylist, Error>) -> Result<
    MultiVariantPlaylistView,
    ErrorView,
> {
    match r {
        Ok(playlist) => Ok(playlist@),
        Err(error) => Err(error@),
    }
}

/// Parsing is a function of the text: what [`parse`] gives for two texts of
/// the same bytes has the same value, be it a playlist or an error.
pub proof fn lemma_parse_is_deterministic(
    first_text: &str,
    second_text: &str,
    first: Result<MultiVariantPlaylist, Error>,
    second: Result<MultiVariantPlaylist, Error>,
)
    requires
        first_text.spec_bytes() == second_text.spec_bytes(),
        playlist_result(first) == parse_spec(first_text.spec_bytes()),
        playlist_result(second) == parse_spec(second_text.spec_bytes()),
    ensures
        playlist_result(first) == playlist_result(second),
{
}

/// An entry never takes a negative number of tokens.
pub proof fn lemma_variant_consumed(stream: TokenStream, entry: VariantStreamView)
    ensures
        variant_attributes(stream, entry) matches Ok(found) ==> found.consumed >= 0,
    decreases stream.tokens.len(),
{
    if let Some(Ok(token)) = stream.nth(0) {
        if let Attribute::Next { consumed, entry } = variant_attribute(
            token,
            stream.skip(1),
            entry,
        ) {
            lemma_variant_consumed(stream.skip(1).skip(consumed), entry);
        }
    }
}

/// An entry never takes a negative number of tokens.
pub proof fn lemma_frame_consumed(stream: TokenStream, entry: FrameStreamView)
    ensures
        frame_attributes(stream, entry) matches Ok(found) ==> found.consumed >= 0,
    decreases stream.tokens.len(),
{
    if let Some(Ok(token)) = stream.nth(0) {
        if let Attribute::Next { consumed, entry } = frame_attribute(
            token,
            stream.skip(1),
            entry,
        ) {
            lemma_frame_consumed(stream.skip(1).skip(consumed), entry);
        }
    }
}

/// Reads the attributes of a variant stream, up to its URI.
fn parse_variant_stream<'a>(lexer: &mut Lexer<'a>) -> (r: Result<VariantStream, Error>)
    ensures
        match variant_attributes(old(lexer).remaining(), VariantStreamView::initial()) {
            Ok(found) => r is Ok && r->Ok_0@ == found.entry && final(lexer).remaining() == old(
                lexer,
            ).remaining().skip(found.consumed),
            Err(error) => r is Err && r->Err_0@ == error,
        },
{
    let ghost start = lexer.remaining();
    let ghost mut done: int = 0;
    let mut entry = VariantStream {
        program_id: None,
        bandwidth: 0,
        resolution: (0, 0),
        frame_rate: None,
        codecs: None,
        uri: String::new(),
    };
    proof {
        lemma_skip_none(start);
    }
    loop
        invariant
            0 <= done,
            start == old(lexer).remaining(),
            lexer.remaining() == start.skip(done),
            after(done, variant_attributes(lexer.remaining(), entry@)) == variant_attributes(
                start,
                VariantStreamView::initial(),
            ),
        decreases lexer.remaining().tokens.len(),
    {
        let ghost stream = lexer.remaining();
        let token = match lexer.next() {
            None => {
                proof {
                    lemma_skip_empty(stream, 1);
                }
                return Ok(entry);
            },
            Some(Err(error)) => {
                return Err(error);
            },
            Some(Ok(token)) => token,
        };
        let ghost rest = lexer.remaining();
        proof {
            lemma_skip_skip(start, done, 1);
            lemma_skip_skip(start, done + 1, 2);
            lemma_skip_none(rest);
        }
        match token {
            Token::Colon => {},
            Token::Equal => {},
            Token::Comma => {},
            Token::ProgramId => {
                match lexer.value(1, "program id") {
                    Some(Ok(Token::Integer(id))) => {
                        entry.program_id = Some(
                            #[verifier::truncate]
                            (id as u8),
                        );
                    },
                    Some(Err(error)) => {
                        return Err(error);
                    },
                    _ => {},
                }
                proof {
                    done = done + 2;
                }
            },
            Token::Bandwidth => {
                match lexer.required(1, "bandwidth") {
                    Ok(Token::Integer(bandwidth)) => {
                        entry.bandwidth = #[verifier::truncate]
                        (bandwidth as u32);
                    },
                    Ok(_) => {
                        return Err(Error::missing_value("bandwidth"));
                    },
                    Err(error) => {
                        return Err(error);
                    },
                }
                proof {
                    done = done + 2;
                }
            },
            Token::Resolution => {
                match lexer.required(1, "resolution") {
                    Ok(Token::ResolutionValue(size)) => {
                        entry.resolution = (
                            #[verifier::truncate]
                            (size.0 as u16),
                            #[verifier::truncate]
                            (size.1 as u16),
                        );
                    },
                    Ok(_) => {
                        return Err(Error::missing_value("resolution"));
                    },
                    Err(error) => {
                        return Err(error);
                    },
                }
                proof {
                    done = done + 2;
                }
            },
            Token::FrameRate => {
                match lexer.required(1, "frame rate") {
                    Ok(Token::Float(rate)) => {
                        entry.frame_rate = Some(rate);
                    },
                    Ok(_) => {
                        return Err(Error::missing_value("frame rate"));
                    },
                    Err(error) => {
                        return Err(error);
                    },
                }
                proof {
                    done = done + 2;
                }
            },
            Token::Codecs => {
                match lexer.required(1, "codecs") {
                    Ok(Token::String(codecs)) => {
                        entry.codecs = Some(String::from_str(codecs));
                    },
                    Ok(_) => {
                        return Err(Error::missing_value("codecs"));
                    },
                    Err(error) => {
                        return Err(error);
                    },
                }
                proof {
                    done = done + 2;
                }
            },
            Token::UriValue(uri) => {
                entry.uri = String::from_str(uri);
                return Ok(entry);
            },
            _ => {
                return Err(Error::Generic(String::from_str("Invalid variant stream")));
            },
        }
        proof {
            done = done + 1;
        }
    }
}

/// Reads the attributes of an I-frame stream, up to its URI.
fn parse_frame_stream<'a>(lexer: &mut Lexer<'a>) -> (r: Result<FrameStream, Error>)
    ensures
        match frame_attributes(old(lexer).remaining(), FrameStreamView::initial()) {
            Ok(found) => r is Ok && r->Ok_0@ == found.entry && final(lexer).remaining() == old(
                lexer,
            ).remaining().skip(found.consumed),
            Err(error) => r is Err && r->Err_0@ == error,
        },
{
    let ghost start = lexer.remaining();
    let ghost mut done: int = 0;
    let mut entry = FrameStream {
        bandwidth: 0,
        resolution: (0, 0),
        codecs: String::new(),
        uri: String::new(),
    };
    proof {
        lemma_skip_none(start);
    }
    loop
        invariant
            0 <= done,
            start == old(lexer).remaining(),
            lexer.remaining() == start.skip(done),
            after(done, frame_attributes(lexer.remaining(), entry@)) == frame_attributes(
                start,
                FrameStreamView::initial(),
            ),
        decreases lexer.remaining().tokens.len(),
    {
        let ghost stream = lexer.remaining();
        let token = match lexer.next() {
            None => {
                proof {
                    lemma_skip_empty(stream, 1);
                }
                return Ok(entry);
            },
            Some(Err(error)) => {
                return Err(error);
            },
            Some(Ok(token)) => token,
        };
        let ghost rest = lexer.remaining();
        proof {
            lemma_skip_skip(start, done, 1);
            lemma_skip_skip(start, done + 1, 2);
            lemma_skip_none(rest);
        }
        match token {
            Token::Colon => {},
            Token::Equal => {},
            Token::Comma => {},
            Token::Bandwidth => {
                match lexer.required(1, "bandwidth") {
                    Ok(Token::Integer(bandwidth)) => {
                        entry.bandwidth = #[verifier::truncate]
                        (bandwidth as u32);
                    },
                    Ok(_) => {
                        return Err(Error::missing_value("bandwidth"));
                    },
                    Err(error) => {
                        return Err(error);
                    },
                }
                proof {
                    done = done + 2;
                }
            },
            Token::Resolution => {
                match lexer.required(1, "resolution") {
                    Ok(Token::ResolutionValue(size)) => {
                        entry.resolution = (
                            #[verifier::truncate]
                            (size.0 as u16),
                            #[verifier::truncate]
                            (size.1 as u16),
                        );
                    },
                    Ok(_) => {
                        return Err(Error::missing_value("resolution"));
                    },
                    Err(error) => {
                        return Err(error);
                    },
                }
                proof {
                    done = done + 2;
                }
            },
            Token::Codecs => {
                match lexer.required(1, "codecs") {
                    Ok(Token::String(codecs)) => {
                        entry.codecs = String::from_str(codecs);
                    },
                    Ok(_) => {
                        return Err(Error::missing_value("codecs"));
                    },
                    Err(error) => {
                        return Err(error);
                    },
                }
                proof {
                    done = done + 2;
                }
            },
            Token::Uri => {
                match lexer.required(1, "uri") {
                    Ok(Token::String(uri)) => {
                        entry.uri = String::from_str(uri);
                        return Ok(entry);
                    },
                    Ok(_) => {
                        return Err(Error::missing_value("uri"));
                    },
                    Err(error) => {
                        return Err(error);
                    },
                }
            },
            _ => {
                return Err(Error::Generic(String::from_str("Invalid frame stream")));
            },
        }
        proof {
            done = done + 1;
        }
    }
}

/// Reads a Multi-Variant Playlist.
///
/// Each `#EXT-X-STREAM-INF` gives a variant stream, each
/// `#EXT-X-I-FRAME-STREAM-INF` an I-frame stream, both in the order of the
/// text. An attribute that the text does not name keeps its default. Tokens
/// outside the attributes of a stream are passed over. The first attribute
/// that lacks its value, the first token that cannot stand among a stream's
/// attributes, and the first piece of text that is no token, fails the whole
/// text.
pub fn parse(input: &str) -> (r: Result<MultiVariantPlaylist, Error>)
    ensures
        playlist_result(r) == parse_spec(input.spec_bytes()),
{
    let mut lexer = Lexer::multi_variant(input);
    let mut variant_streams: Vec<VariantStream> = Vec::new();
    let mut frame_streams: Vec<FrameStream> = Vec::new();
    proof {
        assert(variant_streams@.map_values(|stream: VariantStream| stream@) =~= Seq::empty());
        assert(frame_streams@.map_values(|stream: FrameStream| stream@) =~= Seq::empty());
    }
    loop
        invariant
            run(
                lexer.remaining(),
                MultiVariantPlaylistView {
                    variant_streams: variant_streams@.map_values(|stream: VariantStream| stream@),
                    frame_streams: frame_streams@.map_values(|stream: FrameStream| stream@),
                },
            ) == parse_spec(input.spec_bytes()),
        decreases lexer.remaining().tokens.len(),
    {
        let ghost variants = variant_streams@.map_values(|stream: VariantStream| stream@);
        let ghost frames = frame_streams@.map_values(|stream: FrameStream| stream@);
        let token = match lexer.next() {
            None => {
                return Ok(MultiVariantPlaylist { variant_streams, frame_streams });
            },
            Some(Err(error)) => {
                return Err(error);
            },
            Some(Ok(token)) => token,
        };
        let ghost rest = lexer.remaining();
        match token {
            Token::StreamInf => {
                proof {
                    lemma_variant_consumed(rest, VariantStreamView::initial());
                }
                match parse_variant_stream(&mut lexer) {
                    Ok(stream) => {
                        variant_streams.push(stream);
                        proof {
                            assert(variant_streams@.map_values(|stream: VariantStream| stream@)
                                =~= variants.push(stream@));
                        }
                    },
                    Err(error) => {
                        return Err(error);
                    },
                }
            },
            Token::IFrameStreamInf => {
                proof {
                    lemma_frame_consumed(rest, FrameStreamView::initial());
                }
                match parse_frame_stream(&mut lexer) {
                    Ok(stream) => {
                        frame_streams.push(stream);
                        proof {
                            assert(frame_streams@.map_values(|stream: FrameStream| stream@)
                                =~= frames.push(stream@));
                        }
                    },
                    Err(error) => {
                        return Err(error);
                    },
                }
            },
            _ => {},
        }
    }
}

} // verus!
