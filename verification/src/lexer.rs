//! The lexer: from a text to its tokens, one at a time.
//!
//! White space between lexemes is passed over. At each lexeme the rule of
//! the grammar that matches the most bytes decides the token. Where no rule
//! matches, or a lexeme cannot be converted, lexing fails and goes no
//! further. A parser that looks for the value of a field and meets there a
//! number that cannot be converted gets an error that names the field.

use vstd::prelude::*;
use vstd::string::*;
use vstd::utf8::*;
use crate::error::{Context, Error, ErrorView};
use crate::scan::{
    find_longest, lemma_longest, lemma_longest_bounds, lemma_match_boundary, lemma_run_end,
    longest, match_len, run_end, scan_run, ByteClass, Rule,
};
use crate::text::{lemma_boundary_around_ascii, slice};
use crate::token::{
    lemma_lexeme_converts, make_token, token_of, token_result, Kind, Token, TokenView,
};

verus! {

/// The rules for the text of a Media Playlist, in the order of their priority.
pub open spec fn media_grammar() -> Seq<Rule<Kind>> {
    seq![
        Kind::ExtM3U.rule(),
        Kind::EndList.rule(),
        Kind::TargetDuration.rule(),
        Kind::Version.rule(),
        Kind::MediaSequence.rule(),
        Kind::Key.rule(),
        Kind::AllowCache.rule(),
        Kind::PlaylistType.rule(),
        Kind::IFramesOnly.rule(),
        Kind::Inf.rule(),
        Kind::ByteRange.rule(),
        Kind::Method.rule(),
        Kind::Uri.rule(),
        Kind::Equal.rule(),
        Kind::Comma.rule(),
        Kind::Colon.rule(),
        Kind::Float.rule(),
        Kind::Integer.rule(),
        Kind::String.rule(),
        Kind::Aes128.rule(),
        Kind::SampleAes.rule(),
        Kind::Unencrypted.rule(),
        Kind::Yes.rule(),
        Kind::No.rule(),
        Kind::ByteRangeValue.rule(),
        Kind::Vod.rule(),
        Kind::Event.rule(),
        Kind::HttpUri.rule(),
        Kind::HttpsUri.rule(),
    ]
}

/// The rules for the text of a Multi-Variant Playlist, in the order of their priority.
pub open spec fn multi_variant_grammar() -> Seq<Rule<Kind>> {
    seq![
        Kind::ExtM3U.rule(),
        Kind::StreamInf.rule(),
        Kind::IFrameStreamInf.rule(),
        Kind::ProgramId.rule(),
        Kind::Bandwidth.rule(),
        Kind::Resolution.rule(),
        Kind::FrameRate.rule(),
        Kind::Codecs.rule(),
        Kind::Uri.rule(),
        Kind::Equal.rule(),
        Kind::Comma.rule(),
        Kind::Colon.rule(),
        Kind::Float.rule(),
        Kind::Integer.rule(),
        Kind::String.rule(),
        Kind::ResolutionValue.rule(),
        Kind::PlaylistFile.rule(),
    ]
}

/// Makes the rules for the text of a Media Playlist.
pub fn media_rules() -> (rules: Vec<Rule<Kind>>)
    ensures
        rules@ == media_grammar(),
{
    let rules = vec![
        Kind::ExtM3U.to_rule(),
        Kind::EndList.to_rule(),
        Kind::TargetDuration.to_rule(),
        Kind::Version.to_rule(),
        Kind::MediaSequence.to_rule(),
        Kind::Key.to_rule(),
        Kind::AllowCache.to_rule(),
        Kind::PlaylistType.to_rule(),
        Kind::IFramesOnly.to_rule(),
        Kind::Inf.to_rule(),
        Kind::ByteRange.to_rule(),
        Kind::Method.to_rule(),
        Kind::Uri.to_rule(),
        Kind::Equal.to_rule(),
        Kind::Comma.to_rule(),
        Kind::Colon.to_rule(),
        Kind::Float.to_rule(),
        Kind::Integer.to_rule(),
        Kind::String.to_rule(),
        Kind::Aes128.to_rule(),
        Kind::SampleAes.to_rule(),
        Kind::Unencrypted.to_rule(),
        Kind::Yes.to_rule(),
        Kind::No.to_rule(),
        Kind::ByteRangeValue.to_rule(),
        Kind::Vod.to_rule(),
        Kind::Event.to_rule(),
        Kind::HttpUri.to_rule(),
        Kind::HttpsUri.to_rule(),
    ];
    assert(rules@ =~= media_grammar());
    rules
}

/// Makes the rules for the text of a Multi-Variant Playlist.
pub fn multi_variant_rules() -> (rules: Vec<Rule<Kind>>)
    ensures
        rules@ == multi_variant_grammar(),
{
    let rules = vec![
        Kind::ExtM3U.to_rule(),
        Kind::StreamInf.to_rule(),
        Kind::IFrameStreamInf.to_rule(),
        Kind::ProgramId.to_rule(),
        Kind::Bandwidth.to_rule(),
        Kind::Resolution.to_rule(),
        Kind::FrameRate.to_rule(),
        Kind::Codecs.to_rule(),
        Kind::Uri.to_rule(),
        Kind::Equal.to_rule(),
        Kind::Comma.to_rule(),
        Kind::Colon.to_rule(),
        Kind::Float.to_rule(),
        Kind::Integer.to_rule(),
        Kind::String.to_rule(),
        Kind::ResolutionValue.to_rule(),
        Kind::PlaylistFile.to_rule(),
    ];
    assert(rules@ =~= multi_variant_grammar());
    rules
}

/// What a lexer has yet to give: tokens, and then either the end of the
/// text or a failure.
pub struct TokenStream {
    /// The tokens, in the order of the text.
    pub tokens: Seq<TokenView>,
    /// The error that follows the last token, where lexing fails.
    pub failure: Option<ErrorView>,
}

impl TokenStream {
    /// The stream of a text that holds nothing more.
    pub open spec fn ended() -> TokenStream {
        TokenStream { tokens: Seq::empty(), failure: None }
    }

    /// The stream of a text whose next lexeme gives the error.
    pub open spec fn failed(error: ErrorView) -> TokenStream {
        TokenStream { tokens: Seq::empty(), failure: Some(error) }
    }

    /// What pulling `n` tokens and then one more gives: that token; the
    /// failure, where the stream fails before it; nothing, where the stream
    /// ends before it.
    pub open spec fn nth(self, n: int) -> Option<Result<TokenView, ErrorView>> {
        if 0 <= n < self.tokens.len() {
            Some(Ok(self.tokens[n]))
        } else {
            match self.failure {
                Some(error) => Some(Err(error)),
                None => None,
            }
        }
    }

    /// The stream after `n` pulls.
    pub open spec fn skip(self, n: int) -> TokenStream {
        if 0 <= n <= self.tokens.len() {
            TokenStream { tokens: self.tokens.skip(n), failure: self.failure }
        } else {
            TokenStream { tokens: Seq::empty(), failure: self.failure }
        }
    }

    /// What stands where the value of the field `field` is looked for, `n`
    /// tokens ahead: the token there; the failure of the stream, where it
    /// fails before or there; nothing, where it ends before. Where the stream
    /// fails at that very place on a number that does not fit, the number is
    /// the field's value, and the error names the field.
    pub open spec fn value(self, n: int, field: Seq<char>) -> Option<
        Result<TokenView, ErrorView>,
    > {
        if 0 <= n < self.tokens.len() {
            Some(Ok(self.tokens[n]))
        } else {
            match self.failure {
                Some(error) => Some(
                    Err(
                        if n == self.tokens.len() {
                            error.attributed(field)
                        } else {
                            error
                        },
                    ),
                ),
                None => None,
            }
        }
    }

    /// The value that a field must have, `n` tokens ahead: what `value`
    /// finds there, and a missing value for the field where it finds
    /// nothing.
    pub open spec fn required(self, n: int, field: Seq<char>) -> Result<TokenView, ErrorView> {
        match self.value(n, field) {
            Some(Ok(token)) => Ok(token),
            Some(Err(error)) => Err(error),
            None => Err(ErrorView::MissingValue(field)),
        }
    }

    /// The value that an enumerated field must have, `n` tokens ahead: the
    /// literal there. Where the text at that place is no token at all, it
    /// is no member of the enumeration. Where the stream fails earlier, it
    /// gives its failure; where anything but a literal stands there, or
    /// nothing, the value is missing.
    pub open spec fn enumerated(self, n: int, field: Seq<char>) -> Result<
        TokenView,
        ErrorView,
    > {
        if 0 <= n < self.tokens.len() {
            if self.tokens[n].is_literal() {
                Ok(self.tokens[n])
            } else {
                Err(ErrorView::MissingValue(field))
            }
        } else {
            match self.failure {
                Some(error) => if n == self.tokens.len() {
                    Err(ErrorView::InvalidEnumeration(field))
                } else {
                    Err(error)
                },
                None => Err(ErrorView::MissingValue(field)),
            }
        }
    }
}

/// A number that does not fit, met where the value of a field is looked
/// for, is never handed on without the field: the error that `required`
/// gives for it names the field and holds the literal.
pub proof fn lemma_required_names_field(stream: TokenStream, n: int, field: Seq<char>)
    requires
        n == stream.tokens.len(),
    ensures
        stream.failure matches Some(ErrorView::InvalidNumber(literal)) ==> stream.required(
            n,
            field,
        ) == Err::<TokenView, ErrorView>(ErrorView::InvalidValue { field, literal }),
        stream.failure matches Some(ErrorView::InvalidNumber(literal)) ==> stream.value(n, field)
            == Some(Err::<TokenView, ErrorView>(ErrorView::InvalidValue { field, literal })),
{
}

/// Not pulling leaves the stream as it is.
pub proof fn lemma_skip_none(stream: TokenStream)
    ensures
        stream.skip(0) == stream,
{
    assert(stream.skip(0).tokens =~= stream.tokens);
}

/// Pulling from a stream without tokens leaves it as it is.
pub proof fn lemma_skip_empty(stream: TokenStream, n: int)
    requires
        stream.tokens.len() == 0,
    ensures
        stream.skip(n) == stream,
{
    assert(stream.skip(n).tokens =~= stream.tokens);
}

/// Pulling `a` times and then `b` times is pulling `a + b` times.
pub proof fn lemma_skip_skip(stream: TokenStream, a: int, b: int)
    requires
        0 <= a,
        0 <= b,
    ensures
        stream.skip(a).skip(b) == stream.skip(a + b),
{
    assert(stream.skip(a).skip(b).tokens =~= stream.skip(a + b).tokens);
}

/// The token `b` pulls ahead, after `a` pulls, is the token `a + b` pulls ahead.
pub proof fn lemma_skip_nth(stream: TokenStream, a: int, b: int)
    requires
        0 <= a,
        0 <= b,
    ensures
        stream.skip(a).nth(b) == stream.nth(a + b),
{
}

/// The tokens of `bytes` from position `at` on, by the rules of a grammar.
pub open spec fn tokens_from(rules: Seq<Rule<Kind>>, bytes: Seq<u8>, at: int) -> TokenStream
    decreases bytes.len() - at,
    via tokens_from_terminates
{
    let start = run_end(bytes, at, ByteClass::Space);
    if at < 0 || start >= bytes.len() {
        TokenStream::ended()
    } else {
        match longest(rules, bytes, start) {
            None => TokenStream::failed(
                ErrorView::Lex(
                    decode_utf8(bytes.subrange(start, run_end(bytes, start, ByteClass::Word))),
                ),
            ),
            Some((kind, n)) => match token_of(kind, bytes.subrange(start, start + n)) {
                Err(error) => TokenStream::failed(error),
                Ok(token) => {
                    let rest = tokens_from(rules, bytes, start + n);
                    TokenStream { tokens: seq![token] + rest.tokens, failure: rest.failure }
                },
            },
        }
    }
}

#[via_fn]
proof fn tokens_from_terminates(rules: Seq<Rule<Kind>>, bytes: Seq<u8>, at: int) {
    let start = run_end(bytes, at, ByteClass::Space);
    if 0 <= at && start < bytes.len() {
        lemma_run_end(bytes, at, ByteClass::Space);
        lemma_longest_bounds(rules, bytes, start);
    }
}

/// Whether each rule pairs a kind with the pattern of that kind.
pub open spec fn is_grammar(rules: Seq<Rule<Kind>>) -> bool {
    forall|i: int| 0 <= i < rules.len() ==> (#[trigger] rules[i]).pattern == rules[i].kind.pattern()
}

/// The two grammars pair each kind with its pattern.
pub proof fn lemma_grammars()
    ensures
        is_grammar(media_grammar()),
        is_grammar(multi_variant_grammar()),
{
}

/// Lexing fails in two ways only: on a piece of text that no rule matches,
/// and on a number that is too large.
pub proof fn lemma_failures(rules: Seq<Rule<Kind>>, bytes: Seq<u8>, at: int)
    requires
        is_grammar(rules),
    ensures
        tokens_from(rules, bytes, at).failure matches Some(error) ==> error is Lex
            || error is InvalidNumber,
    decreases bytes.len() - at,
{
    let start = run_end(bytes, at, ByteClass::Space);
    if 0 <= at && start < bytes.len() {
        lemma_run_end(bytes, at, ByteClass::Space);
        lemma_longest(rules, bytes, start);
        lemma_longest_bounds(rules, bytes, start);
        if let Some((kind, n)) = longest(rules, bytes, start) {
            let i = choose|i: int|
                0 <= i < rules.len() && #[trigger] rules[i].kind == kind && match_len(
                    rules[i].pattern,
                    bytes,
                    start,
                ) == n;
            assert(rules[i].pattern == rules[i].kind.pattern());
            lemma_lexeme_converts(kind, bytes, start);
            if token_of(kind, bytes.subrange(start, start + n)) is Ok {
                lemma_failures(rules, bytes, start + n);
            }
        }
    }
}

/// The tokens of a text, by the rules of a grammar.
pub open spec fn tokenize(rules: Seq<Rule<Kind>>, bytes: Seq<u8>) -> TokenStream {
    tokens_from(rules, bytes, 0)
}

/// The mathematical value of what a pull gives.
pub open spec fn pull_result(r: Option<Result<Token, Error>>) -> Option<
    Result<TokenView, ErrorView>,
> {
    match r {
        Some(item) => Some(token_result(item)),
        None => None,
    }
}

/// A cursor over the tokens of a text. It only moves forward.
pub struct Lexer<'a> {
    source: &'a str,
    at: usize,
    rules: Vec<Rule<Kind>>,
}

impl<'a> Lexer<'a> {
    #[verifier::type_invariant]
    spec fn well_formed(&self) -> bool {
        &&& self.at <= self.source.spec_bytes().len()
        &&& is_char_boundary(self.source.spec_bytes(), self.at as int)
    }

    /// The tokens that the lexer has yet to give.
    pub closed spec fn remaining(&self) -> TokenStream {
        tokens_from(self.rules@, self.source.spec_bytes(), self.at as int)
    }

    /// A lexer at the start of `source`, with the rules of a grammar.
    pub fn new(source: &'a str, rules: Vec<Rule<Kind>>) -> (lexer: Lexer<'a>)
        ensures
            lexer.remaining() == tokenize(rules@, source.spec_bytes()),
    {
        proof {
            encode_utf8_valid_utf8(source@);
            is_char_boundary_start_end_of_seq(source.spec_bytes());
        }
        Lexer { source, at: 0, rules }
    }

    /// A lexer for the text of a Media Playlist.
    pub fn media(source: &'a str) -> (lexer: Lexer<'a>)
        ensures
            lexer.remaining() == tokenize(media_grammar(), source.spec_bytes()),
    {
        Lexer::new(source, media_rules())
    }

    /// A lexer for the text of a Multi-Variant Playlist.
    pub fn multi_variant(source: &'a str) -> (lexer: Lexer<'a>)
        ensures
            lexer.remaining() == tokenize(multi_variant_grammar(), source.spec_bytes()),
    {
        Lexer::new(source, multi_variant_rules())
    }

    /// Pulls the next token. After a failure, and at the end of the text,
    /// the lexer stays where it is.
    pub fn next(&mut self) -> (r: Option<Result<Token<'a>, Error>>)
        ensures
            pull_result(r) == old(self).remaining().nth(0),
            final(self).remaining() == old(self).remaining().skip(1),
    {
        proof {
            use_type_invariant(&*self);
        }
        let source: &'a str = self.source;
        let bytes = source.as_bytes();
        let start = scan_run(bytes, self.at, ByteClass::Space);
        let ghost stream = self.remaining();
        proof {
            encode_utf8_valid_utf8(source@);
            lemma_run_end(bytes@, self.at as int, ByteClass::Space);
            if start > self.at {
                assert(ByteClass::Space.contains(bytes@[start - 1]));
                lemma_boundary_around_ascii(bytes@, start - 1);
            }
        }
        if start >= bytes.len() {
            return None;
        }
        match find_longest(&self.rules, bytes, start) {
            None => {
                let end = scan_run(bytes, start, ByteClass::Word);
                proof {
                    lemma_run_end(bytes@, start as int, ByteClass::Word);
                    if end < bytes@.len() {
                        lemma_boundary_around_ascii(bytes@, end as int);
                    } else {
                        is_char_boundary_start_end_of_seq(bytes@);
                    }
                }
                let text = slice(source, start, end);
                Some(Err(Error::Lex(String::from_str(text))))
            },
            Some((kind, n)) => {
                proof {
                    lemma_longest(self.rules@, bytes@, start as int);
                    let i = choose|i: int|
                        0 <= i < self.rules@.len() && #[trigger] self.rules@[i].kind == kind
                            && match_len(self.rules@[i].pattern, bytes@, start as int) == n;
                    lemma_match_boundary(self.rules@[i].pattern, bytes@, start as int);
                }
                let text = slice(source, start, start + n);
                match make_token(kind, text) {
                    Ok(token) => {
                        self.at = start + n;
                        proof {
                            let rest = self.remaining();
                            assert((seq![token@] + rest.tokens).skip(1) =~= rest.tokens);
                        }
                        Some(Ok(token))
                    },
                    Err(error) => Some(Err(error)),
                }
            },
        }
    }

    /// Pulls `n` tokens and drops them, then pulls one more and gives it.
    pub fn nth(&mut self, n: usize) -> (r: Option<Result<Token<'a>, Error>>)
        ensures
            pull_result(r) == old(self).remaining().nth(n as int),
            final(self).remaining() == old(self).remaining().skip(n + 1),
    {
        let ghost stream = self.remaining();
        let mut i: usize = 0;
        proof {
            assert(stream.skip(0).tokens =~= stream.tokens);
        }
        while i < n
            invariant
                i <= n,
                stream == old(self).remaining(),
                self.remaining() == stream.skip(i as int),
                i <= stream.tokens.len(),
            decreases n - i,
        {
            match self.next() {
                Some(Ok(_)) => {
                    proof {
                        assert(stream.skip(i as int).skip(1).tokens =~= stream.skip(
                            i + 1,
                        ).tokens);
                    }
                },
                other => {
                    proof {
                        assert(stream.skip(i as int).tokens.len() == 0);
                        assert(i == stream.tokens.len());
                        assert(stream.skip(i as int).skip(1).tokens =~= stream.skip(
                            n + 1,
                        ).tokens);
                    }
                    return other;
                },
            }
            i = i + 1;
        }
        let r = self.next();
        proof {
            assert(stream.skip(n as int).skip(1).tokens =~= stream.skip(n + 1).tokens);
        }
        r
    }

    /// Pulls `n` tokens and drops them, then pulls what stands where the
    /// value of the field `field` is looked for.
    pub fn value(&mut self, n: usize, field: &str) -> (r: Option<Result<Token<'a>, Error>>)
        ensures
            pull_result(r) == old(self).remaining().value(n as int, field@),
            final(self).remaining() == old(self).remaining().skip(n + 1),
    {
        let ghost stream = self.remaining();
        if n > 0 {
            match self.nth(n - 1) {
                Some(Ok(_)) => {},
                other => {
                    proof {
                        lemma_skip_empty(stream.skip(n as int), 1);
                        lemma_skip_skip(stream, n as int, 1);
                    }
                    return other;
                },
            }
        } else {
            proof {
                lemma_skip_none(stream);
            }
        }
        let pulled = self.next();
        proof {
            lemma_skip_skip(stream, n as int, 1);
        }
        match pulled {
            Some(Err(error)) => Some(Err(error.attributed(field))),
            other => other,
        }
    }

    /// Pulls `n` tokens and drops them, then pulls the value of the field
    /// that `field` names.
    pub fn required(&mut self, n: usize, field: &str) -> (r: Result<Token<'a>, Error>)
        ensures
            token_result(r) == old(self).remaining().required(n as int, field@),
            final(self).remaining() == old(self).remaining().skip(n + 1),
    {
        match self.value(n, field).context(field) {
            Ok(Ok(token)) => Ok(token),
            Ok(Err(error)) => Err(error),
            Err(error) => Err(error),
        }
    }

    /// Pulls `n` tokens and drops them, then pulls the value of the
    /// enumerated field that `field` names.
    pub fn enumerated(&mut self, n: usize, field: &str) -> (r: Result<Token<'a>, Error>)
        ensures
            token_result(r) == old(self).remaining().enumerated(n as int, field@),
            final(self).remaining() == old(self).remaining().skip(n + 1),
    {
        let ghost stream = self.remaining();
        if n > 0 {
            match self.nth(n - 1) {
                Some(Ok(_)) => {},
                Some(Err(error)) => {
                    proof {
                        assert(stream.skip(n as int).tokens =~= stream.skip(n + 1).tokens);
                    }
                    return Err(error);
                },
                None => {
                    proof {
                        assert(stream.skip(n as int).tokens =~= stream.skip(n + 1).tokens);
                    }
                    return Err(Error::missing_value(field));
                },
            }
        } else {
            proof {
                assert(stream.skip(0).tokens =~= stream.tokens);
            }
        }
        let pulled = self.next();
        proof {
            assert(stream.skip(n as int).skip(1).tokens =~= stream.skip(n + 1).tokens);
        }
        match pulled {
            Some(Ok(token)) => {
                if token.is_literal() {
                    Ok(token)
                } else {
                    Err(Error::missing_value(field))
                }
            },
            Some(Err(_)) => Err(Error::invalid_enumeration(field)),
            None => Err(Error::missing_value(field)),
        }
    }
}

} // verus!
