//! What holds of every Media Playlist that [`run`] gives.

use vstd::prelude::*;
use vstd::string::*;
use crate::error::{Error, ErrorView};
use crate::keywords::keyword;
use crate::lexer::{
    is_grammar, lemma_grammars, lemma_skip_none, lemma_skip_nth, lemma_skip_skip, media_grammar,
    tokenize, tokens_from, TokenStream,
};
use crate::scan::{
    lemma_longest, lemma_longest_bounds, lemma_run_end, longest, match_len, occurs_at, run_end,
    ByteClass, Rule,
};
use crate::media_playlist::{
    parse_spec, playlist_result, run, step, MediaPlaylist, MediaPlaylistView, PlaylistType, Step,
};
use crate::token::{token_of, Kind, TokenView};

verus! {

/// Parsing is a function of the text: what [`parse`](crate::media_playlist::parse)
/// gives for two texts of the same bytes has the same value, be it a playlist
/// or an error.
pub proof fn lemma_parse_is_deterministic(
    first_text: &str,
    second_text: &str,
    first: Result<MediaPlaylist, Error>,
    second: Result<MediaPlaylist, Error>,
)
    requires
        first_text.spec_bytes() == second_text.spec_bytes(),
        playlist_result(first) == parse_spec(first_text.spec_bytes()),
        playlist_result(second) == parse_spec(second_text.spec_bytes()),
    ensures
        playlist_result(first) == playlist_result(second),
{
}

/// Whether the token is a tag that [`step`] acts on.
pub open spec fn is_tag(token: TokenView) -> bool {
    match token {
        TokenView::Version => true,
        TokenView::MediaSequence => true,
        TokenView::TargetDuration => true,
        TokenView::AllowCache => true,
        TokenView::PlaylistType => true,
        TokenView::Key => true,
        TokenView::IFramesOnly => true,
        TokenView::Inf => true,
        TokenView::EndList => true,
        _ => false,
    }
}

/// A text without tags is never an error: where no token of the stream is a
/// tag and the stream does not fail, the playlist stays as it is. From the
/// playlist in which nothing is set, every field has its default.
pub proof fn lemma_no_tags_no_change(stream: TokenStream, start: MediaPlaylistView)
    requires
        stream.failure is None,
        forall|i: int| 0 <= i < stream.tokens.len() ==> !is_tag(#[trigger] stream.tokens[i]),
    ensures
        run(stream, start) == Ok::<MediaPlaylistView, ErrorView>(start),
    decreases stream.tokens.len(),
{
    if stream.tokens.len() > 0 {
        assert(!is_tag(stream.tokens[0]));
        let rest = stream.skip(1);
        lemma_skip_none(rest);
        assert forall|i: int| 0 <= i < rest.tokens.len() implies !is_tag(
            #[trigger] rest.tokens[i],
        ) by {
            assert(rest.tokens[i] == stream.tokens[i + 1]);
        }
        lemma_no_tags_no_change(rest, start);
    }
}

/// A field whose tag does not occur keeps its value. From the playlist in
/// which nothing is set that is the default: 0 for the version, the media
/// sequence and the target duration, `Event` for the playlist type, `false`
/// for the two flags, no key.
pub proof fn lemma_absent_tag_keeps_field(stream: TokenStream, start: MediaPlaylistView)
    ensures
        run(stream, start) matches Ok(playlist) ==> {
            &&& !stream.tokens.contains(TokenView::Version) ==> playlist.version == start.version
            &&& !stream.tokens.contains(TokenView::MediaSequence) ==> playlist.media_sequence
                == start.media_sequence
            &&& !stream.tokens.contains(TokenView::TargetDuration) ==> playlist.target_duration
                == start.target_duration
            &&& !stream.tokens.contains(TokenView::PlaylistType) ==> playlist.playlist_type
                == start.playlist_type
            &&& !stream.tokens.contains(TokenView::AllowCache) ==> playlist.allow_cache
                == start.allow_cache
            &&& !stream.tokens.contains(TokenView::IFramesOnly) ==> playlist.iframes_only
                == start.iframes_only
            &&& !stream.tokens.contains(TokenView::Key) ==> playlist.key == start.key
        },
    decreases stream.tokens.len(),
{
    if let Some(Ok(token)) = stream.nth(0) {
        let rest = stream.skip(1);
        if let Step::Next { consumed, playlist: next } = step(token, rest, start) {
            let later = rest.skip(consumed);
            lemma_absent_tag_keeps_field(later, next);
            lemma_skip_skip(stream, 1, consumed);
            assert(stream.tokens[0] == token);
            assert forall|other: TokenView| later.tokens.contains(other) implies #[trigger]
                stream.tokens.contains(other) by {
                let i = choose|i: int| 0 <= i < later.tokens.len() && later.tokens[i] == other;
                assert(stream.tokens[i + 1 + consumed] == other);
            }
        }
    }
}

/// The defaults of a text: what [`parse`](crate::media_playlist::parse) gives
/// for a text among whose tokens a tag does not occur has the default in that
/// tag's field.
pub proof fn lemma_defaults(text: Seq<u8>)
    ensures
        parse_spec(text) matches Ok(playlist) ==> {
            let tokens = tokenize(media_grammar(), text).tokens;
            &&& !tokens.contains(TokenView::Version) ==> playlist.version == 0
            &&& !tokens.contains(TokenView::MediaSequence) ==> playlist.media_sequence == 0
            &&& !tokens.contains(TokenView::TargetDuration) ==> playlist.target_duration == 0
            &&& !tokens.contains(TokenView::PlaylistType) ==> playlist.playlist_type
                == PlaylistType::Event
            &&& !tokens.contains(TokenView::AllowCache) ==> !playlist.allow_cache
            &&& !tokens.contains(TokenView::IFramesOnly) ==> !playlist.iframes_only
            &&& !tokens.contains(TokenView::Key) ==> playlist.key is None
        },
{
    lemma_absent_tag_keeps_field(tokenize(media_grammar(), text), MediaPlaylistView::initial());
}

/// The token of a tag that sets a field.
pub open spec fn field_tag(kind: Kind) -> TokenView {
    match kind {
        Kind::Version => TokenView::Version,
        Kind::MediaSequence => TokenView::MediaSequence,
        Kind::TargetDuration => TokenView::TargetDuration,
        Kind::PlaylistType => TokenView::PlaylistType,
        Kind::AllowCache => TokenView::AllowCache,
        Kind::IFramesOnly => TokenView::IFramesOnly,
        _ => TokenView::Key,
    }
}

/// Whether the kind is that of a tag that sets a field.
pub open spec fn sets_a_field(kind: Kind) -> bool {
    kind is Version || kind is MediaSequence || kind is TargetDuration || kind is PlaylistType
        || kind is AllowCache || kind is IFramesOnly || kind is Key
}

/// Whether the keyword of the kind stands somewhere in the text.
pub open spec fn mentions(text: Seq<u8>, kind: Kind) -> bool {
    exists|at: int| #[trigger] occurs_at(text, at, keyword(kind))
}

/// A tag is among the tokens only where it is written: the token of a tag
/// that sets a field comes from the tag's keyword, which stands in the text.
pub proof fn lemma_tag_is_written(rules: Seq<Rule<Kind>>, text: Seq<u8>, at: int, kind: Kind)
    requires
        is_grammar(rules),
        sets_a_field(kind),
    ensures
        tokens_from(rules, text, at).tokens.contains(field_tag(kind)) ==> mentions(text, kind),
    decreases text.len() - at,
{
    let start = run_end(text, at, ByteClass::Space);
    let stream = tokens_from(rules, text, at);
    if stream.tokens.contains(field_tag(kind)) {
        lemma_run_end(text, at, ByteClass::Space);
        lemma_longest(rules, text, start);
        lemma_longest_bounds(rules, text, start);
        let found = longest(rules, text, start)->Some_0;
        let n = found.1;
        let later = tokens_from(rules, text, start + n);
        let token = token_of(found.0, text.subrange(start, start + n))->Ok_0;
        assert(stream.tokens =~= seq![token] + later.tokens);
        let place = choose|place: int|
            0 <= place < stream.tokens.len() && stream.tokens[place] == field_tag(kind);
        if place == 0 {
            assert(found.0 == kind);
            let i = choose|i: int|
                0 <= i < rules.len() && #[trigger] rules[i].kind == found.0 && match_len(
                    rules[i].pattern,
                    text,
                    start,
                ) == n;
            assert(rules[i].pattern == kind.pattern());
            assert(occurs_at(text, start, keyword(kind)));
        } else {
            assert(later.tokens[place - 1] == field_tag(kind));
            lemma_tag_is_written(rules, text, start + n, kind);
        }
    }
}

/// The defaults of a text: what [`parse`](crate::media_playlist::parse) gives
/// for a text in which the keyword of a tag is nowhere written has the
/// default in that tag's field.
pub proof fn lemma_defaults_of_text(text: Seq<u8>)
    ensures
        parse_spec(text) matches Ok(playlist) ==> {
            &&& !mentions(text, Kind::Version) ==> playlist.version == 0
            &&& !mentions(text, Kind::MediaSequence) ==> playlist.media_sequence == 0
            &&& !mentions(text, Kind::TargetDuration) ==> playlist.target_duration == 0
            &&& !mentions(text, Kind::PlaylistType) ==> playlist.playlist_type
                == PlaylistType::Event
            &&& !mentions(text, Kind::AllowCache) ==> !playlist.allow_cache
            &&& !mentions(text, Kind::IFramesOnly) ==> !playlist.iframes_only
            &&& !mentions(text, Kind::Key) ==> playlist.key is None
        },
{
    let rules = media_grammar();
    lemma_grammars();
    lemma_defaults(text);
    lemma_tag_is_written(rules, text, 0, Kind::Version);
    lemma_tag_is_written(rules, text, 0, Kind::MediaSequence);
    lemma_tag_is_written(rules, text, 0, Kind::TargetDuration);
    lemma_tag_is_written(rules, text, 0, Kind::PlaylistType);
    lemma_tag_is_written(rules, text, 0, Kind::AllowCache);
    lemma_tag_is_written(rules, text, 0, Kind::IFramesOnly);
    lemma_tag_is_written(rules, text, 0, Kind::Key);
}

/// Whether [`run`], begun on `stream` with the playlist `start`, comes to
/// read the token at place `at` of the stream as a tag, the playlist then
/// being `playlist`.
pub open spec fn reads(
    stream: TokenStream,
    start: MediaPlaylistView,
    at: int,
    playlist: MediaPlaylistView,
) -> bool
    decreases stream.tokens.len(),
{
    match stream.nth(0) {
        Some(Ok(token)) => (at == 0 && playlist == start) || match step(
            token,
            stream.skip(1),
            start,
        ) {
            Step::Next { consumed, playlist: next } => at > consumed && reads(
                stream.skip(1).skip(consumed),
                next,
                at - 1 - consumed,
                playlist,
            ),
            _ => false,
        },
        _ => false,
    }
}

/// From a tag that `run` reads, the result is that of `run` begun there.
pub proof fn lemma_run_from_tag(
    stream: TokenStream,
    start: MediaPlaylistView,
    at: int,
    playlist: MediaPlaylistView,
)
    requires
        reads(stream, start, at, playlist),
    ensures
        0 <= at < stream.tokens.len(),
        run(stream, start) == run(stream.skip(at), playlist),
    decreases stream.tokens.len(),
{
    if at == 0 && playlist == start {
        lemma_skip_none(stream);
    } else {
        let token = stream.tokens[0];
        let rest = stream.skip(1);
        match step(token, rest, start) {
            Step::Next { consumed, playlist: next } => {
                let later = rest.skip(consumed);
                lemma_run_from_tag(later, next, at - 1 - consumed, playlist);
                lemma_skip_skip(stream, 1, consumed);
                lemma_skip_skip(stream, 1 + consumed, at - 1 - consumed);
            },
            _ => {},
        }
    }
}

/// The first failure is the result: where `run` reads a tag whose step
/// fails, the whole run fails with that error.
pub proof fn lemma_first_failure(
    stream: TokenStream,
    start: MediaPlaylistView,
    at: int,
    playlist: MediaPlaylistView,
)
    requires
        reads(stream, start, at, playlist),
    ensures
        0 <= at < stream.tokens.len(),
        step(stream.tokens[at], stream.skip(at + 1), playlist) matches Step::Fail(error)
            ==> run(stream, start) == Err::<MediaPlaylistView, ErrorView>(error),
{
    lemma_run_from_tag(stream, start, at, playlist);
    lemma_skip_skip(stream, at, 1);
}

/// The enumerations are closed. Where `run` reads the tag of the playlist
/// type and the second token after it is no playlist type, the run fails;
/// so it does where it reads the tag of the key and the fourth token after
/// it is no method. No other value is taken in their place.
pub proof fn lemma_enumerations_are_closed(
    stream: TokenStream,
    start: MediaPlaylistView,
    at: int,
    playlist: MediaPlaylistView,
)
    requires
        reads(stream, start, at, playlist),
    ensures
        0 <= at < stream.tokens.len(),
        stream.tokens[at] == TokenView::PlaylistType && !(stream.nth(at + 2) matches Some(
            Ok(TokenView::PlaylistTypeValue(_)),
        )) ==> run(stream, start) is Err,
        stream.tokens[at] == TokenView::Key && !(stream.nth(at + 4) matches Some(
            Ok(TokenView::MethodValue(_)),
        )) ==> run(stream, start) is Err,
{
    lemma_first_failure(stream, start, at, playlist);
    lemma_skip_nth(stream, at + 1, 1);
    lemma_skip_nth(stream, at + 1, 3);
}

/// The value of an enumerated field is the one that the text names: a step
/// that sets the playlist type sets it to the playlist type that stands
/// second after the tag, and a step that sets the key takes the method that
/// stands fourth after the tag.
pub proof fn lemma_enumerated_values(rest: TokenStream, playlist: MediaPlaylistView)
    ensures
        step(TokenView::PlaylistType, rest, playlist) matches Step::Next { playlist: next, .. }
            ==> rest.nth(1) == Some(
            Ok::<TokenView, ErrorView>(TokenView::PlaylistTypeValue(next.playlist_type)),
        ),
        step(TokenView::Key, rest, playlist) matches Step::Next { playlist: next, .. }
            ==> next.key is Some && rest.nth(3) == Some(
            Ok::<TokenView, ErrorView>(TokenView::MethodValue(next.key->Some_0.method)),
        ),
        step(TokenView::PlaylistType, rest, playlist) !is Stop,
        step(TokenView::Key, rest, playlist) !is Stop,
{
}

/// The places of the `#EXTINF` tags that `run` reads, begun on `stream`
/// with the playlist `start`, in the order of the text. An `#EXTINF` that
/// stands where another tag takes its value is not among them.
pub open spec fn segment_tags(stream: TokenStream, start: MediaPlaylistView) -> Seq<int>
    decreases stream.tokens.len(),
{
    match stream.nth(0) {
        Some(Ok(token)) => match step(token, stream.skip(1), start) {
            Step::Next { consumed, playlist: next } => {
                let later = segment_tags(stream.skip(1).skip(consumed), next).map_values(
                    |at: int| at + 1 + consumed,
                );
                if token is Inf {
                    seq![0int] + later
                } else {
                    later
                }
            },
            _ => Seq::empty(),
        },
        _ => Seq::empty(),
    }
}

/// Whether the playlist is one of I-frames when `run` comes to place `at`:
/// it was so from the start, or the tag that makes it so stands before.
pub open spec fn flagged_before(stream: TokenStream, start: MediaPlaylistView, at: int) -> bool {
    start.iframes_only || exists|j: int|
        0 <= j < at && j < stream.tokens.len() && #[trigger] stream.tokens[j]
            == TokenView::IFramesOnly
}

/// Whether the token at place `at` of the stream is the URL `url`.
pub open spec fn url_at(stream: TokenStream, at: int, url: Seq<char>) -> bool {
    0 <= at < stream.tokens.len() && stream.tokens[at] == TokenView::UriValue(url)
}

/// What holds of the segment that the `#EXTINF` at place `at` has added as
/// segment number `n`. The tag stands there, and the duration is the literal
/// second after the tag. A byte range is attached only in a playlist of
/// I-frames, where it is the literal sixth after the tag, and the URL
/// follows it. Without a byte range the URL stands fourth after the tag, or,
/// in a playlist of I-frames, eighth after it.
pub open spec fn segment_from_tag(
    stream: TokenStream,
    start: MediaPlaylistView,
    playlist: MediaPlaylistView,
    at: int,
    n: int,
) -> bool {
    &&& 0 <= at
    &&& at + 2 < stream.tokens.len()
    &&& 0 <= n < playlist.segments.len()
    &&& stream.tokens[at] == TokenView::Inf
    &&& stream.tokens[at + 2] == TokenView::Float(playlist.segments[n].duration)
    &&& match playlist.segments[n].byte_range {
        Some(range) => {
            &&& flagged_before(stream, start, at)
            &&& at + 6 < stream.tokens.len()
            &&& stream.tokens[at + 6] == TokenView::ByteRangeValue(range)
            &&& url_at(stream, at + 7, playlist.segments[n].url)
        },
        None => if flagged_before(stream, start, at) {
            url_at(stream, at + 4, playlist.segments[n].url) || url_at(
                stream,
                at + 8,
                playlist.segments[n].url,
            )
        } else {
            url_at(stream, at + 4, playlist.segments[n].url)
        },
    }
}

/// A step changes the segments only by adding one, and only at `#EXTINF`;
/// it makes the playlist one of I-frames only at `#EXT-X-I-FRAMES-ONLY`.
pub proof fn lemma_step_segments(token: TokenView, rest: TokenStream, start: MediaPlaylistView)
    ensures
        step(token, rest, start) matches Step::Next { consumed, playlist: next } ==> {
            &&& consumed >= 0
            &&& next.iframes_only ==> start.iframes_only || token is IFramesOnly
            &&& if token is Inf {
                next.segments.len() == start.segments.len() + 1 && next.segments.drop_last()
                    == start.segments
            } else {
                next.segments == start.segments
            }
        },
{
    if let Step::Next { consumed, playlist: next } = step(token, rest, start) {
        if token is Inf {
            assert(next.segments.drop_last() =~= start.segments);
        }
    }
}

/// The segment that an `#EXTINF` at the head of the stream adds is made of
/// the tokens that follow the tag.
proof fn lemma_segment_at_head(
    stream: TokenStream,
    start: MediaPlaylistView,
    playlist: MediaPlaylistView,
)
    requires
        stream.nth(0) == Some(Ok::<TokenView, ErrorView>(TokenView::Inf)),
        step(TokenView::Inf, stream.skip(1), start) matches Step::Next { playlist: next, .. }
            && start.segments.len() < playlist.segments.len() && next.segments.last()
            == playlist.segments[start.segments.len() as int],
    ensures
        segment_from_tag(stream, start, playlist, 0, start.segments.len() as int),
{
    let rest = stream.skip(1);
    lemma_skip_nth(rest, 2, 3);
    lemma_skip_nth(rest, 6, 0);
    lemma_skip_nth(rest, 6, 1);
    lemma_skip_nth(rest, 2, 1);
    assert(!start.iframes_only ==> !flagged_before(stream, start, 0));
    assert(forall|i: int| 0 <= i < rest.tokens.len() ==> stream.tokens[i + 1] == rest.tokens[i]);
}

/// What holds of a segment and its tag in the rest of a stream holds of
/// them in the whole stream, the places counted from its start.
proof fn lemma_segment_later(
    stream: TokenStream,
    start: MediaPlaylistView,
    playlist: MediaPlaylistView,
    at: int,
    n: int,
)
    requires
        stream.nth(0) is Some,
        stream.nth(0)->Some_0 is Ok,
        step(stream.tokens[0], stream.skip(1), start) matches Step::Next {
            consumed,
            playlist: next,
        } && segment_from_tag(stream.skip(1).skip(consumed), next, playlist, at, n),
    ensures
        step(stream.tokens[0], stream.skip(1), start) matches Step::Next { consumed, .. }
            && segment_from_tag(stream, start, playlist, at + 1 + consumed, n),
{
    let token = stream.tokens[0];
    if let Step::Next { consumed, playlist: next } = step(token, stream.skip(1), start) {
        let shift = 1 + consumed;
        let later = stream.skip(1).skip(consumed);
        let url = playlist.segments[n].url;
        lemma_step_segments(token, stream.skip(1), start);
        lemma_skip_skip(stream, 1, consumed);
        assert(later.tokens.len() > 0);
        assert(forall|i: int|
            0 <= i < later.tokens.len() ==> stream.tokens[i + shift] == #[trigger] later.tokens[i]);
        assert(forall|place: int|
            url_at(later, place, url) ==> stream.tokens[place + shift] == later.tokens[place]);
        if flagged_before(later, next, at) {
            if !next.iframes_only {
                let j = choose|j: int|
                    0 <= j < at && j < later.tokens.len() && #[trigger] later.tokens[j]
                        == TokenView::IFramesOnly;
                assert(stream.tokens[j + shift] == TokenView::IFramesOnly);
            } else if !start.iframes_only {
                assert(stream.tokens[0] == TokenView::IFramesOnly);
            }
            assert(flagged_before(stream, start, at + shift));
        }
        assert(url_at(later, at + 4, url) ==> url_at(stream, at + shift + 4, url));
        assert(url_at(later, at + 7, url) ==> url_at(stream, at + shift + 7, url));
        assert(url_at(later, at + 8, url) ==> url_at(stream, at + shift + 8, url));
    }
}

/// Segments keep the order of the text. The playlist that `run` gives holds
/// the segments it began with, and after them one segment for each `#EXTINF`
/// that it read: the n-th of these segments comes from the n-th of these
/// tags. A segment has a byte range only where the playlist was one of
/// I-frames before the segment's tag.
pub proof fn lemma_segments_follow_tags(stream: TokenStream, start: MediaPlaylistView)
    ensures
        run(stream, start) matches Ok(playlist) ==> {
            let tags = segment_tags(stream, start);
            let before = start.segments.len() as int;
            &&& playlist.segments.len() == before + tags.len()
            &&& forall|n: int| 0 <= n < before ==> playlist.segments[n] == start.segments[n]
            &&& forall|n: int|
                0 <= n < tags.len() ==> segment_from_tag(
                    stream,
                    start,
                    playlist,
                    #[trigger] tags[n],
                    before + n,
                )
            &&& forall|m: int, n: int| 0 <= m < n < tags.len() ==> tags[m] < tags[n]
        },
    decreases stream.tokens.len(),
{
    if let Ok(playlist) = run(stream, start) {
        if let Some(Ok(token)) = stream.nth(0) {
            let rest = stream.skip(1);
            if let Step::Next { consumed, playlist: next } = step(token, rest, start) {
                let later = rest.skip(consumed);
                let shift = 1 + consumed;
                let later_tags = segment_tags(later, next);
                let tags = segment_tags(stream, start);
                let before = start.segments.len() as int;
                let middle = next.segments.len() as int;
                lemma_segments_follow_tags(later, next);
                lemma_step_segments(token, rest, start);
                let own: int = if token is Inf {
                    1
                } else {
                    0
                };
                assert(middle == before + own);
                assert(tags.len() == own + later_tags.len());
                assert forall|n: int| own <= n < tags.len() implies tags[n] == later_tags[n - own]
                    + shift by {}
                assert forall|n: int| 0 <= n < before implies playlist.segments[n]
                    == start.segments[n] by {
                    assert(next.segments[n] == start.segments[n]);
                }
                assert forall|n: int| 0 <= n < tags.len() implies segment_from_tag(
                    stream,
                    start,
                    playlist,
                    #[trigger] tags[n],
                    before + n,
                ) by {
                    if n < own {
                        assert(tags[n] == 0);
                        assert(playlist.segments[before] == next.segments[before]);
                        lemma_segment_at_head(stream, start, playlist);
                    } else {
                        let at = later_tags[n - own];
                        assert(segment_from_tag(later, next, playlist, at, middle + (n - own)));
                        lemma_segment_later(stream, start, playlist, at, before + n);
                    }
                }
                assert forall|m: int, n: int| 0 <= m < n < tags.len() implies tags[m]
                    < tags[n] by {
                    if m >= own {
                        assert(later_tags[m - own] < later_tags[n - own]);
                    } else {
                        assert(segment_from_tag(
                            later,
                            next,
                            playlist,
                            later_tags[n - own],
                            middle + (n - own),
                        ));
                    }
                }
            }
        }
    }
}

/// The segments of a text: what [`parse`](crate::media_playlist::parse)
/// gives has one segment for each `#EXTINF` that is read as a tag, the n-th
/// segment from the n-th such tag.
pub proof fn lemma_parsed_segments_follow_tags(text: Seq<u8>)
    ensures
        parse_spec(text) matches Ok(playlist) ==> {
            let stream = tokenize(media_grammar(), text);
            let tags = segment_tags(stream, MediaPlaylistView::initial());
            &&& playlist.segments.len() == tags.len()
            &&& forall|n: int|
                0 <= n < tags.len() ==> segment_from_tag(
                    stream,
                    MediaPlaylistView::initial(),
                    playlist,
                    #[trigger] tags[n],
                    n,
                )
            &&& forall|m: int, n: int| 0 <= m < n < tags.len() ==> tags[m] < tags[n]
        },
{
    lemma_segments_follow_tags(tokenize(media_grammar(), text), MediaPlaylistView::initial());
}

} // verus!
