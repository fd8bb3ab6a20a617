//! Plain playlists: texts that hold the header, segments written in the
//! usual way, and perhaps the end tag. What [`parse_spec`] gives for such a
//! text is stated here over the text itself.

use vstd::prelude::*;
use vstd::utf8::*;
use crate::decimal::is_decimal;
use crate::error::ErrorView;
use crate::keywords::{keyword, lemma_spelled, spelled};
use crate::lexer::{
    lemma_grammars, lemma_skip_none, lemma_skip_skip, media_grammar, tokenize, tokens_from,
    TokenStream,
};
use crate::media_playlist::{
    parse_spec, run, step, MediaPlaylistView, MediaSegmentView, Step,
};
use crate::scan::{
    lemma_longest_is, lemma_run_end, lemma_run_end_within, lemma_run_ends_at, longest, match_len,
    occurs_at, run_end, ByteClass,
};
use crate::token::{token_of, Kind, TokenView};

verus! {

/// Whether the keyword of the kind is a tag: whether it starts with `#`.
pub open spec fn is_tag_kind(kind: Kind) -> bool {
    match kind {
        Kind::ExtM3U => true,
        Kind::EndList => true,
        Kind::TargetDuration => true,
        Kind::Version => true,
        Kind::MediaSequence => true,
        Kind::Key => true,
        Kind::AllowCache => true,
        Kind::PlaylistType => true,
        Kind::IFramesOnly => true,
        Kind::Inf => true,
        Kind::ByteRange => true,
        Kind::StreamInf => true,
        Kind::IFrameStreamInf => true,
        _ => false,
    }
}

/// Whether the pattern of the kind begins with a keyword.
pub open spec fn has_keyword(kind: Kind) -> bool {
    kind.pattern() is Literal || kind.pattern() is Prefixed
}

/// A keyword that differs from the text at some place does not stand there.
proof fn lemma_differs(kind: Kind, bytes: Seq<u8>, at: int, i: int)
    requires
        has_keyword(kind),
        0 <= at,
        0 <= i < spelled(kind).len(),
        at + i < bytes.len() ==> bytes[at + i] != spelled(kind)[i],
    ensures
        match_len(kind.pattern(), bytes, at) == 0,
{
    lemma_spelled(kind);
    let text = keyword(kind);
    if occurs_at(bytes, at, text) {
        assert(bytes.subrange(at, at + text.len())[i] == bytes[at + i]);
    }
}

/// A kind of the Media Playlist's grammar that matches more bytes than any
/// other kind is the one that `longest` finds.
proof fn lemma_wins(bytes: Seq<u8>, at: int, kind: Kind, n: int)
    requires
        n > 0,
        match_len(kind.pattern(), bytes, at) == n,
        forall|other: Kind| other != kind ==> match_len(#[trigger] other.pattern(), bytes, at) < n,
        kind is ExtM3U || kind is EndList || kind is Inf || kind is Colon || kind is Comma
            || kind is Float || kind is HttpUri || kind is HttpsUri,
    ensures
        longest(media_grammar(), bytes, at) == Some((kind, n)),
{
    let rules = media_grammar();
    lemma_grammars();
    let i: int = match kind {
        Kind::ExtM3U => 0,
        Kind::EndList => 1,
        Kind::Inf => 9,
        Kind::Comma => 14,
        Kind::Colon => 15,
        Kind::Float => 16,
        Kind::HttpUri => 27,
        _ => 28,
    };
    assert(rules[i].kind == kind);
    assert forall|j: int| 0 <= j < rules.len() implies if (#[trigger] rules[j]).kind == kind {
        match_len(rules[j].pattern, bytes, at) == n
    } else {
        match_len(rules[j].pattern, bytes, at) < n
    } by {
        assert(rules[j].pattern == rules[j].kind.pattern());
    }
    lemma_longest_is(rules, bytes, at, kind, n);
}

/// Where the keyword of one of the tags or marks of a plain playlist stands
/// in the text, `longest` finds it.
proof fn lemma_keyword_wins(bytes: Seq<u8>, at: int, kind: Kind)
    requires
        kind is ExtM3U || kind is EndList || kind is Inf || kind is Colon || kind is Comma,
        occurs_at(bytes, at, keyword(kind)),
    ensures
        longest(media_grammar(), bytes, at) == Some((kind, keyword(kind).len() as int)),
        keyword(kind).len() > 0,
{
    lemma_spelled(kind);
    let word = spelled(kind);
    let n = word.len() as int;
    assert forall|i: int| 0 <= i < n implies bytes[at + i] == word[i] by {
        assert(bytes.subrange(at, at + n)[i] == bytes[at + i]);
    }
    assert(bytes[at] == word[0]);
    lemma_run_end(bytes, at, ByteClass::Digit);
    lemma_run_end(bytes, at, ByteClass::Name);
    assert forall|other: Kind| other != kind implies match_len(
        #[trigger] other.pattern(),
        bytes,
        at,
    ) < n by {
        if has_keyword(other) {
            let i: int = if !is_tag_kind(other) || !is_tag_kind(kind) {
                0
            } else if kind is EndList && !(other is ExtM3U) && !(other is Inf) {
                7
            } else {
                4
            };
            lemma_differs(other, bytes, at, i);
        }
    }
    lemma_wins(bytes, at, kind, n);
}

/// Whether `url` is an absolute URI as the grammar has it: `http://` or
/// `https://` and then one or more bytes, none of them white space.
pub open spec fn is_http_uri(url: Seq<u8>) -> bool {
    url.len() > 0 && (match_len(Kind::HttpUri.pattern(), url, 0) == url.len() || match_len(
        Kind::HttpsUri.pattern(),
        url,
        0,
    ) == url.len())
}

/// The kind of lexeme that an absolute URI is.
pub open spec fn uri_kind(url: Seq<u8>) -> Kind {
    if match_len(Kind::HttpUri.pattern(), url, 0) == url.len() {
        Kind::HttpUri
    } else {
        Kind::HttpsUri
    }
}

/// Whether `part` stands in `bytes` at `at` and the byte after it, if there
/// is one, is `next`.
pub open spec fn stands_before(bytes: Seq<u8>, at: int, part: Seq<u8>, next: u8) -> bool {
    &&& occurs_at(bytes, at, part)
    &&& at + part.len() < bytes.len() ==> bytes[at + part.len()] == next
}

/// A decimal literal that stands in the text before a comma is the lexeme
/// there, and a number with a fraction.
proof fn lemma_decimal_wins(bytes: Seq<u8>, at: int, literal: Seq<u8>)
    requires
        is_decimal(literal),
        stands_before(bytes, at, literal, 0x2c),
    ensures
        longest(media_grammar(), bytes, at) == Some((Kind::Float, literal.len() as int)),
{
    let n = literal.len() as int;
    let point = run_end(literal, 0, ByteClass::Digit);
    let end = at + n;
    assert(bytes.subrange(at, end) == literal);
    assert forall|i: int| 0 <= i < n implies bytes[at + i] == literal[i] by {
        assert(bytes.subrange(at, end)[i] == bytes[at + i]);
    }
    lemma_run_end(literal, 0, ByteClass::Digit);
    lemma_run_end(literal, point + 1, ByteClass::Digit);
    lemma_run_end_within(bytes, at, end, at, ByteClass::Digit);
    lemma_run_end_within(bytes, at, end, at + point + 1, ByteClass::Digit);
    lemma_run_end(bytes, at, ByteClass::Digit);
    lemma_run_end(bytes, at + point + 1, ByteClass::Digit);
    assert(run_end(bytes, at, ByteClass::Digit) == at + point);
    let last = run_end(bytes, at + point + 1, ByteClass::Digit);
    assert(last == end) by {
        if last > end {
            assert(ByteClass::Digit.contains(bytes[end]));
        }
    }
    assert(bytes[at + point] == 0x2e);
    assert(match_len(Kind::Float.pattern(), bytes, at) == n);
    // The digits before the point are a name, and no more of the text is.
    assert forall|i: int| at <= i < at + point implies ByteClass::Name.contains(
        #[trigger] bytes[i],
    ) by {
        assert(ByteClass::Digit.contains(bytes[i]));
    }
    lemma_run_ends_at(bytes, at, at + point, ByteClass::Name);
    lemma_spelled(Kind::PlaylistFile);
    assert(ByteClass::Digit.contains(bytes[at + point + 1]));
    assert(match_len(Kind::PlaylistFile.pattern(), bytes, at) == 0) by {
        let ending = keyword(Kind::PlaylistFile);
        if occurs_at(bytes, at + point, ending) {
            assert(bytes.subrange(at + point, at + point + ending.len())[1] == bytes[at + point
                + 1]);
        }
    }
    assert(ByteClass::Digit.contains(bytes[at]));
    assert forall|other: Kind| other != Kind::Float implies match_len(
        #[trigger] other.pattern(),
        bytes,
        at,
    ) < n by {
        if has_keyword(other) {
            lemma_differs(other, bytes, at, 0);
        }
    }
    lemma_wins(bytes, at, Kind::Float, n);
}

/// An absolute URI that stands in the text before a line feed is the lexeme
/// there.
proof fn lemma_uri_wins(bytes: Seq<u8>, at: int, url: Seq<u8>)
    requires
        is_http_uri(url),
        stands_before(bytes, at, url, 0x0a),
    ensures
        longest(media_grammar(), bytes, at) == Some((uri_kind(url), url.len() as int)),
{
    let n = url.len() as int;
    let kind = uri_kind(url);
    let end = at + n;
    lemma_spelled(Kind::HttpUri);
    lemma_spelled(Kind::HttpsUri);
    lemma_spelled(Kind::PlaylistFile);
    let scheme = keyword(kind);
    let from = scheme.len() as int;
    assert(bytes.subrange(at, end) == url);
    assert forall|i: int| 0 <= i < n implies bytes[at + i] == url[i] by {
        assert(bytes.subrange(at, end)[i] == bytes[at + i]);
    }
    assert forall|i: int| 0 <= i < from implies url[i] == scheme[i] by {
        assert(url.subrange(0, from)[i] == url[i]);
    }
    assert(bytes.subrange(at, at + from) =~= scheme);
    lemma_run_end(url, from, ByteClass::Word);
    lemma_run_end_within(bytes, at, end, at + from, ByteClass::Word);
    lemma_run_end(bytes, at + from, ByteClass::Word);
    let last = run_end(bytes, at + from, ByteClass::Word);
    assert(last == end) by {
        if last > end {
            assert(ByteClass::Word.contains(bytes[end]));
        }
    }
    assert(match_len(kind.pattern(), bytes, at) == n);
    // The name at the start of the URI ends at its colon.
    let colon: int = if kind is HttpUri {
        4
    } else {
        5
    };
    assert forall|i: int| at <= i < at + colon implies ByteClass::Name.contains(
        #[trigger] bytes[i],
    ) by {
        assert(bytes[i] == scheme[i - at]);
    }
    assert(bytes[at + colon] == scheme[colon]);
    lemma_run_ends_at(bytes, at, at + colon, ByteClass::Name);
    assert(match_len(Kind::PlaylistFile.pattern(), bytes, at) == 0) by {
        let ending = keyword(Kind::PlaylistFile);
        if occurs_at(bytes, at + colon, ending) {
            assert(bytes.subrange(at + colon, at + colon + ending.len())[0] == bytes[at + colon]);
        }
    }
    lemma_run_end(bytes, at, ByteClass::Digit);
    assert(bytes[at] == 0x68);
    assert forall|other: Kind| other != kind implies match_len(
        #[trigger] other.pattern(),
        bytes,
        at,
    ) < n by {
        if has_keyword(other) {
            let i: int = if other is HttpUri || other is HttpsUri {
                4
            } else {
                0
            };
            lemma_differs(other, bytes, at, i);
        }
    }
    lemma_wins(bytes, at, kind, n);
}

/// The stream that gives `token` first and then what `stream` gives.
pub open spec fn prepend(token: TokenView, stream: TokenStream) -> TokenStream {
    TokenStream { tokens: seq![token] + stream.tokens, failure: stream.failure }
}

/// White space before a lexeme is passed over.
proof fn lemma_pass_space(bytes: Seq<u8>, at: int)
    requires
        0 <= at < bytes.len(),
        ByteClass::Space.contains(bytes[at]),
    ensures
        tokens_from(media_grammar(), bytes, at) == tokens_from(media_grammar(), bytes, at + 1),
{
    assert(run_end(bytes, at, ByteClass::Space) == run_end(bytes, at + 1, ByteClass::Space));
}

/// The lexeme that `longest` finds at `at` gives the first token from there.
proof fn lemma_token(bytes: Seq<u8>, at: int, kind: Kind, n: int, token: TokenView)
    requires
        0 <= at < bytes.len(),
        !ByteClass::Space.contains(bytes[at]),
        longest(media_grammar(), bytes, at) == Some((kind, n)),
        token_of(kind, bytes.subrange(at, at + n)) == Ok::<TokenView, ErrorView>(token),
    ensures
        tokens_from(media_grammar(), bytes, at) == prepend(
            token,
            tokens_from(media_grammar(), bytes, at + n),
        ),
{
    assert(run_end(bytes, at, ByteClass::Space) == at);
}

/// A part of a part of the text stands in the text, and so does the byte
/// after it.
proof fn lemma_piece(bytes: Seq<u8>, at: int, whole: Seq<u8>, from: int, piece: Seq<u8>)
    requires
        occurs_at(bytes, at, whole),
        0 <= from,
        from + piece.len() <= whole.len(),
        whole.subrange(from, from + piece.len()) == piece,
    ensures
        occurs_at(bytes, at + from, piece),
        from + piece.len() < whole.len() ==> bytes[at + from + piece.len()] == whole[from
            + piece.len()],
{
    let inner = bytes.subrange(at, at + whole.len());
    assert(bytes.subrange(at + from, at + from + piece.len()) =~= inner.subrange(
        from,
        from + piece.len(),
    ));
    if from + piece.len() < whole.len() {
        assert(inner[from + piece.len()] == bytes[at + from + piece.len()]);
    }
}

/// A segment as it is written: its duration and its URL.
pub struct Written {
    pub duration: Seq<u8>,
    pub url: Seq<u8>,
}

impl Written {
    /// Whether the duration is a decimal literal and the URL an absolute URI.
    pub open spec fn well_written(self) -> bool {
        is_decimal(self.duration) && is_http_uri(self.url)
    }

    /// The two lines of the segment: `#EXTINF:`, the duration, a comma and a
    /// line feed; the URL and a line feed.
    pub open spec fn text(self) -> Seq<u8> {
        keyword(Kind::Inf) + keyword(Kind::Colon) + self.duration + keyword(Kind::Comma)
            + seq![0x0au8] + self.url + seq![0x0au8]
    }

    /// The tokens of the two lines.
    pub open spec fn tokens(self) -> Seq<TokenView> {
        seq![
            TokenView::Inf,
            TokenView::Colon,
            TokenView::Float(decode_utf8(self.duration)),
            TokenView::Comma,
            TokenView::UriValue(decode_utf8(self.url)),
        ]
    }

    /// The segment.
    pub open spec fn segment(self) -> MediaSegmentView {
        MediaSegmentView {
            duration: decode_utf8(self.duration),
            byte_range: None,
            url: decode_utf8(self.url),
        }
    }
}

/// The token of a keyword of a plain playlist.
pub open spec fn keyword_token(kind: Kind) -> TokenView {
    match kind {
        Kind::ExtM3U => TokenView::ExtM3U,
        Kind::EndList => TokenView::EndList,
        Kind::Inf => TokenView::Inf,
        Kind::Colon => TokenView::Colon,
        _ => TokenView::Comma,
    }
}

/// A keyword of a plain playlist, where it stands in a text, gives its token.
proof fn lemma_keyword_lexed(bytes: Seq<u8>, at: int, kind: Kind)
    requires
        kind is ExtM3U || kind is EndList || kind is Inf || kind is Colon || kind is Comma,
        occurs_at(bytes, at, keyword(kind)),
    ensures
        tokens_from(media_grammar(), bytes, at) == prepend(
            keyword_token(kind),
            tokens_from(media_grammar(), bytes, at + keyword(kind).len()),
        ),
{
    lemma_keyword_wins(bytes, at, kind);
    lemma_spelled(kind);
    assert(bytes.subrange(at, at + keyword(kind).len())[0] == bytes[at]);
    lemma_token(bytes, at, kind, keyword(kind).len() as int, keyword_token(kind));
}

/// A decimal literal, where it stands in a text before a comma, gives a
/// number with a fraction.
proof fn lemma_decimal_lexed(bytes: Seq<u8>, at: int, literal: Seq<u8>)
    requires
        is_decimal(literal),
        stands_before(bytes, at, literal, 0x2c),
    ensures
        tokens_from(media_grammar(), bytes, at) == prepend(
            TokenView::Float(decode_utf8(literal)),
            tokens_from(media_grammar(), bytes, at + literal.len()),
        ),
{
    lemma_decimal_wins(bytes, at, literal);
    lemma_run_end(literal, 0, ByteClass::Digit);
    assert(ByteClass::Digit.contains(literal[0]));
    assert(bytes.subrange(at, at + literal.len())[0] == bytes[at]);
    lemma_token(
        bytes,
        at,
        Kind::Float,
        literal.len() as int,
        TokenView::Float(decode_utf8(literal)),
    );
}

/// An absolute URI, where it stands in a text before a line feed, gives a
/// URI.
proof fn lemma_uri_lexed(bytes: Seq<u8>, at: int, url: Seq<u8>)
    requires
        is_http_uri(url),
        stands_before(bytes, at, url, 0x0a),
    ensures
        tokens_from(media_grammar(), bytes, at) == prepend(
            TokenView::UriValue(decode_utf8(url)),
            tokens_from(media_grammar(), bytes, at + url.len()),
        ),
{
    lemma_uri_wins(bytes, at, url);
    lemma_spelled(uri_kind(url));
    let scheme = keyword(uri_kind(url));
    assert(url.subrange(0, scheme.len() as int)[0] == url[0]);
    assert(bytes.subrange(at, at + url.len())[0] == bytes[at]);
    lemma_token(
        bytes,
        at,
        uri_kind(url),
        url.len() as int,
        TokenView::UriValue(decode_utf8(url)),
    );
}

/// Whether the lines of the segment stand in the text at `at`, piece by
/// piece.
pub open spec fn written_at(bytes: Seq<u8>, at: int, written: Written) -> bool {
    let colon = at + keyword(Kind::Inf).len();
    let duration = colon + keyword(Kind::Colon).len();
    let comma = duration + written.duration.len();
    let feed = comma + keyword(Kind::Comma).len();
    let url = feed + 1;
    let end = url + written.url.len();
    &&& occurs_at(bytes, at, keyword(Kind::Inf))
    &&& occurs_at(bytes, colon, keyword(Kind::Colon))
    &&& stands_before(bytes, duration, written.duration, 0x2c)
    &&& occurs_at(bytes, comma, keyword(Kind::Comma))
    &&& stands_before(bytes, url, written.url, 0x0a)
    &&& end < bytes.len()
    &&& bytes[feed] == 0x0a
    &&& bytes[end] == 0x0a
    &&& end + 1 == at + written.text().len()
}

/// Where the lines of a segment stand in a text, their pieces stand there.
proof fn lemma_written_at(bytes: Seq<u8>, at: int, written: Written)
    requires
        occurs_at(bytes, at, written.text()),
    ensures
        written_at(bytes, at, written),
{
    let whole = written.text();
    let tag = keyword(Kind::Inf);
    let colon = keyword(Kind::Colon);
    let comma = keyword(Kind::Comma);
    let duration = written.duration;
    let url = written.url;
    lemma_spelled(Kind::Comma);
    let a1 = tag.len() as int;
    let a2 = a1 + colon.len();
    let a3 = a2 + duration.len();
    let a4 = a3 + comma.len();
    let a5 = a4 + 1;
    let a6 = a5 + url.len();
    assert(whole.len() == a6 + 1);
    assert(whole.subrange(0, a1) =~= tag);
    assert(whole.subrange(a1, a2) =~= colon);
    assert(whole.subrange(a2, a3) =~= duration);
    assert(whole.subrange(a3, a4) =~= comma);
    assert(whole.subrange(a5, a6) =~= url);
    assert(whole[a3] == comma[0]);
    assert(whole[a4] == 0x0a);
    assert(whole[a6] == 0x0a);
    lemma_piece(bytes, at, whole, 0, tag);
    lemma_piece(bytes, at, whole, a1, colon);
    lemma_piece(bytes, at, whole, a2, duration);
    lemma_piece(bytes, at, whole, a3, comma);
    lemma_piece(bytes, at, whole, a5, url);
}

/// The lines of a segment, where they stand in a text, give the segment's
/// tokens.
proof fn lemma_segment_lexed(bytes: Seq<u8>, at: int, written: Written)
    requires
        written.well_written(),
        occurs_at(bytes, at, written.text()),
    ensures
        tokens_from(media_grammar(), bytes, at) == (TokenStream {
            tokens: written.tokens() + tokens_from(
                media_grammar(),
                bytes,
                at + written.text().len(),
            ).tokens,
            failure: tokens_from(media_grammar(), bytes, at + written.text().len()).failure,
        }),
{
    let rules = media_grammar();
    lemma_written_at(bytes, at, written);
    let a1 = at + keyword(Kind::Inf).len();
    let a2 = a1 + keyword(Kind::Colon).len();
    let a3 = a2 + written.duration.len();
    let a4 = a3 + keyword(Kind::Comma).len();
    let a5 = a4 + 1;
    let a6 = a5 + written.url.len();
    lemma_keyword_lexed(bytes, at, Kind::Inf);
    lemma_keyword_lexed(bytes, a1, Kind::Colon);
    lemma_decimal_lexed(bytes, a2, written.duration);
    lemma_keyword_lexed(bytes, a3, Kind::Comma);
    lemma_pass_space(bytes, a4);
    lemma_uri_lexed(bytes, a5, written.url);
    lemma_pass_space(bytes, a6);
    let rest = tokens_from(rules, bytes, a6 + 1);
    assert(tokens_from(rules, bytes, at).tokens =~= written.tokens() + rest.tokens);
}

/// The lines of the segments, one segment after the other.
pub open spec fn segments_text(segments: Seq<Written>) -> Seq<u8>
    decreases segments.len(),
{
    if segments.len() == 0 {
        Seq::empty()
    } else {
        segments[0].text() + segments_text(segments.drop_first())
    }
}

/// The tokens of those lines.
pub open spec fn segments_tokens(segments: Seq<Written>) -> Seq<TokenView>
    decreases segments.len(),
{
    if segments.len() == 0 {
        Seq::empty()
    } else {
        segments[0].tokens() + segments_tokens(segments.drop_first())
    }
}

/// The end of a plain playlist: the end tag, or nothing.
pub open spec fn end_text(ended: bool) -> Seq<u8> {
    if ended {
        keyword(Kind::EndList)
    } else {
        Seq::empty()
    }
}

/// The tokens of that end.
pub open spec fn end_tokens(ended: bool) -> Seq<TokenView> {
    if ended {
        seq![TokenView::EndList]
    } else {
        Seq::empty()
    }
}

/// A plain playlist: the header on a line of its own, the lines of the
/// segments, and the end tag or nothing.
pub open spec fn playlist_text(segments: Seq<Written>, ended: bool) -> Seq<u8> {
    keyword(Kind::ExtM3U) + seq![0x0au8] + segments_text(segments) + end_text(ended)
}

/// The segments written.
pub open spec fn segments_of(segments: Seq<Written>) -> Seq<MediaSegmentView> {
    Seq::new(segments.len(), |n: int| segments[n].segment())
}

/// Every segment is well written.
pub open spec fn all_well_written(segments: Seq<Written>) -> bool {
    forall|n: int| 0 <= n < segments.len() ==> (#[trigger] segments[n]).well_written()
}

/// A text that ends in the lines of segments and the end of a plain playlist
/// gives their tokens and no failure.
proof fn lemma_segments_lexed(bytes: Seq<u8>, at: int, segments: Seq<Written>, ended: bool)
    requires
        all_well_written(segments),
        0 <= at <= bytes.len(),
        bytes.subrange(at, bytes.len() as int) == segments_text(segments) + end_text(ended),
    ensures
        tokens_from(media_grammar(), bytes, at) == (TokenStream {
            tokens: segments_tokens(segments) + end_tokens(ended),
            failure: None,
        }),
    decreases segments.len(),
{
    let rules = media_grammar();
    let tail = bytes.subrange(at, bytes.len() as int);
    if segments.len() == 0 {
        assert(tail =~= end_text(ended));
        if ended {
            assert(bytes.subrange(at, at + keyword(Kind::EndList).len()) =~= tail);
            lemma_keyword_lexed(bytes, at, Kind::EndList);
            let after = tokens_from(rules, bytes, bytes.len() as int);
            assert(after == TokenStream::ended());
            assert(tokens_from(rules, bytes, at).tokens =~= segments_tokens(segments)
                + end_tokens(ended));
        } else {
            assert(at == bytes.len());
            assert(tokens_from(rules, bytes, at) == TokenStream::ended());
            assert(tokens_from(rules, bytes, at).tokens =~= segments_tokens(segments)
                + end_tokens(ended));
        }
    } else {
        let first = segments[0];
        let others = segments.drop_first();
        let lines = first.text();
        assert(first.well_written());
        assert forall|n: int| 0 <= n < others.len() implies (#[trigger] others[n])
            .well_written() by {
            assert(others[n] == segments[n + 1]);
        }
        assert(bytes.subrange(at, at + lines.len()) =~= tail.subrange(0, lines.len() as int));
        assert(tail.subrange(0, lines.len() as int) =~= lines);
        lemma_segment_lexed(bytes, at, first);
        let next = at + lines.len();
        let remainder = segments_text(others) + end_text(ended);
        assert(tail =~= lines + remainder);
        assert(bytes.subrange(next, bytes.len() as int) =~= tail.subrange(
            lines.len() as int,
            tail.len() as int,
        ));
        assert(tail.subrange(lines.len() as int, tail.len() as int) =~= remainder);
        lemma_segments_lexed(bytes, next, others, ended);
        assert(tokens_from(rules, bytes, at).tokens =~= segments_tokens(segments) + end_tokens(
            ended,
        ));
    }
}

/// The tokens of segments and of the end of a plain playlist add the
/// segments, in their order, to a playlist that is not one of I-frames, and
/// change nothing else.
proof fn lemma_segments_run(segments: Seq<Written>, ended: bool, start: MediaPlaylistView)
    requires
        !start.iframes_only,
    ensures
        run(
            TokenStream { tokens: segments_tokens(segments) + end_tokens(ended), failure: None },
            start,
        ) == Ok::<MediaPlaylistView, ErrorView>(
            MediaPlaylistView { segments: start.segments + segments_of(segments), ..start },
        ),
    decreases segments.len(),
{
    let stream = TokenStream {
        tokens: segments_tokens(segments) + end_tokens(ended),
        failure: None,
    };
    if segments.len() == 0 {
        assert(stream.tokens =~= end_tokens(ended));
        assert(start.segments + segments_of(segments) =~= start.segments);
    } else {
        let first = segments[0];
        let others = segments.drop_first();
        let later = TokenStream {
            tokens: segments_tokens(others) + end_tokens(ended),
            failure: None,
        };
        assert(stream.tokens =~= first.tokens() + later.tokens);
        assert(stream.tokens[0] == TokenView::Inf);
        assert(stream.tokens[2] == TokenView::Float(decode_utf8(first.duration)));
        assert(stream.tokens[4] == TokenView::UriValue(decode_utf8(first.url)));
        let rest = stream.skip(1);
        assert(rest.tokens[1] == stream.tokens[2]);
        assert(rest.skip(2).tokens[1] == stream.tokens[4]);
        let next = MediaPlaylistView { segments: start.segments.push(first.segment()), ..start };
        assert(step(stream.tokens[0], rest, start) == Step::Next { consumed: 4, playlist: next });
        lemma_skip_skip(stream, 1, 4);
        assert(stream.skip(5).tokens =~= later.tokens);
        lemma_segments_run(others, ended, next);
        assert(next.segments + segments_of(others) =~= start.segments + segments_of(segments));
    }
}

/// A plain playlist gives its segments, in the order in which they are
/// written, each with its duration and its URL and without a byte range; all
/// other fields have their defaults. No segment is dropped, repeated or moved.
pub proof fn lemma_plain_playlist(segments: Seq<Written>, ended: bool)
    requires
        all_well_written(segments),
    ensures
        parse_spec(playlist_text(segments, ended)) == Ok::<MediaPlaylistView, ErrorView>(
            MediaPlaylistView { segments: segments_of(segments), ..MediaPlaylistView::initial() },
        ),
{
    let rules = media_grammar();
    let bytes = playlist_text(segments, ended);
    let header = keyword(Kind::ExtM3U);
    let feed = header.len() as int;
    assert(bytes.subrange(0, feed) =~= header);
    assert(bytes[feed] == 0x0a);
    lemma_keyword_lexed(bytes, 0, Kind::ExtM3U);
    lemma_pass_space(bytes, feed);
    assert(bytes.subrange(feed + 1, bytes.len() as int) =~= segments_text(segments) + end_text(
        ended,
    ));
    lemma_segments_lexed(bytes, feed + 1, segments, ended);
    let later = TokenStream {
        tokens: segments_tokens(segments) + end_tokens(ended),
        failure: None,
    };
    let stream = tokenize(rules, bytes);
    assert(stream == prepend(TokenView::ExtM3U, later));
    assert(stream.tokens[0] == TokenView::ExtM3U);
    assert(stream.skip(1).tokens =~= later.tokens);
    lemma_skip_none(stream.skip(1));
    let start = MediaPlaylistView::initial();
    lemma_segments_run(segments, ended, start);
    assert(start.segments + segments_of(segments) =~= segments_of(segments));
}

} // verus!
