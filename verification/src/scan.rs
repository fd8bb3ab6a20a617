//! Matching of lexical patterns against the bytes of a text.
//!
//! A grammar is a table of [`Rule`]s. At a position of the text each rule's
//! pattern matches some number of bytes, [`match_len`]; the rule that matches
//! the most bytes wins, and among rules that match equally many the one that
//! stands first in the table: [`longest`].

use vstd::prelude::*;
use vstd::string::*;
use vstd::utf8::*;
use crate::number::is_digit;
use crate::text::{lemma_boundary_after_block, lemma_boundary_around_ascii};

verus! {

/// A set of bytes that a run is made of.
#[derive(Clone, Copy, Debug)]
pub enum ByteClass {
    /// Space, tab, line feed and form feed.
    Space,
    /// The ASCII digits.
    Digit,
    /// ASCII letters, digits, `-` and `_`.
    Name,
    /// Every byte that is not in `Space`.
    Word,
    /// Every byte but the double quote.
    Unquoted,
}

impl ByteClass {
    /// Whether the byte `b` belongs to the class.
    pub open spec fn contains(self, b: u8) -> bool {
        match self {
            ByteClass::Space => b == 0x20 || b == 0x09 || b == 0x0a || b == 0x0c,
            ByteClass::Digit => is_digit(b),
            ByteClass::Name => is_digit(b) || (0x41 <= b <= 0x5a) || (0x61 <= b <= 0x7a)
                || b == 0x2d || b == 0x5f,
            ByteClass::Word => !(b == 0x20 || b == 0x09 || b == 0x0a || b == 0x0c),
            ByteClass::Unquoted => b != 0x22,
        }
    }

    /// Tests whether the byte `b` belongs to the class.
    pub fn holds(self, b: u8) -> (r: bool)
        ensures
            r == self.contains(b),
    {
        match self {
            ByteClass::Space => b == 0x20 || b == 0x09 || b == 0x0a || b == 0x0c,
            ByteClass::Digit => 0x30 <= b && b <= 0x39,
            ByteClass::Name => (0x30 <= b && b <= 0x39) || (0x41 <= b && b <= 0x5a) || (0x61 <= b
                && b <= 0x7a) || b == 0x2d || b == 0x5f,
            ByteClass::Word => !(b == 0x20 || b == 0x09 || b == 0x0a || b == 0x0c),
            ByteClass::Unquoted => b != 0x22,
        }
    }
}

/// Where the longest run of bytes of `class` that starts at `from` ends:
/// the first position at or after `from` whose byte is not in the class, or
/// the end of `bytes`.
pub open spec fn run_end(bytes: Seq<u8>, from: int, class: ByteClass) -> int
    decreases bytes.len() - from,
{
    if 0 <= from < bytes.len() && class.contains(bytes[from]) {
        run_end(bytes, from + 1, class)
    } else {
        from
    }
}

/// `run_end` gives the end of a run of the class which no further byte extends.
pub proof fn lemma_run_end(bytes: Seq<u8>, from: int, class: ByteClass)
    requires
        0 <= from <= bytes.len(),
    ensures
        from <= run_end(bytes, from, class) <= bytes.len(),
        forall|i: int|
            from <= i < run_end(bytes, from, class) ==> class.contains(#[trigger] bytes[i]),
        run_end(bytes, from, class) < bytes.len() ==> !class.contains(
            bytes[run_end(bytes, from, class)],
        ),
    decreases bytes.len() - from,
{
    if from < bytes.len() && class.contains(bytes[from]) {
        lemma_run_end(bytes, from + 1, class);
    }
}

/// A run ends where its bytes end: where every byte from `from` up to `end`
/// is of the class and the byte at `end` is not, or the text ends there.
pub proof fn lemma_run_ends_at(bytes: Seq<u8>, from: int, end: int, class: ByteClass)
    requires
        0 <= from <= end <= bytes.len(),
        forall|i: int| from <= i < end ==> class.contains(#[trigger] bytes[i]),
        end < bytes.len() ==> !class.contains(bytes[end]),
    ensures
        run_end(bytes, from, class) == end,
    decreases end - from,
{
    if from < end {
        assert(class.contains(bytes[from]));
        lemma_run_ends_at(bytes, from + 1, end, class);
    }
}

/// A run within a part of the text is the run within the whole text, cut
/// off at the end of the part.
pub proof fn lemma_run_end_within(bytes: Seq<u8>, from: int, to: int, at: int, class: ByteClass)
    requires
        0 <= from <= at <= to <= bytes.len(),
    ensures
        run_end(bytes.subrange(from, to), at - from, class) + from == if run_end(bytes, at, class)
            < to {
            run_end(bytes, at, class)
        } else {
            to
        },
    decreases to - at,
{
    let part = bytes.subrange(from, to);
    lemma_run_end(bytes, at, class);
    if at < to {
        assert(part[at - from] == bytes[at]);
        if class.contains(bytes[at]) {
            lemma_run_end_within(bytes, from, to, at + 1, class);
        }
    }
}

/// Finds the end of the longest run of bytes of `class` that starts at `from`.
pub fn scan_run(bytes: &[u8], from: usize, class: ByteClass) -> (end: usize)
    requires
        from <= bytes@.len(),
    ensures
        end == run_end(bytes@, from as int, class),
        from <= end <= bytes@.len(),
{
    let mut end: usize = from;
    while end < bytes.len() && class.holds(bytes[end])
        invariant
            from <= end <= bytes@.len(),
            run_end(bytes@, end as int, class) == run_end(bytes@, from as int, class),
        decreases bytes@.len() - end,
    {
        end = end + 1;
    }
    end
}

/// Whether `text` stands in `bytes` at position `at`.
pub open spec fn occurs_at(bytes: Seq<u8>, at: int, text: Seq<u8>) -> bool {
    &&& 0 <= at
    &&& at + text.len() <= bytes.len()
    &&& bytes.subrange(at, at + text.len()) == text
}

/// Tests whether `text` stands in `bytes` at position `at`.
pub fn found_at(bytes: &[u8], at: usize, text: &[u8]) -> (r: bool)
    requires
        at <= bytes@.len(),
    ensures
        r == occurs_at(bytes@, at as int, text@),
{
    if text.len() > bytes.len() - at {
        return false;
    }
    let mut i: usize = 0;
    while i < text.len()
        invariant
            at + text@.len() <= bytes@.len() <= usize::MAX,
            i <= text@.len(),
            bytes@.subrange(at as int, at + i) == text@.subrange(0, i as int),
        decreases text@.len() - i,
    {
        if bytes[at + i] != text[i] {
            proof {
                let whole = bytes@.subrange(at as int, at + text@.len());
                assert(whole[i as int] == bytes@[at + i]);
            }
            return false;
        }
        proof {
            assert(bytes@.subrange(at as int, at + i + 1) =~= bytes@.subrange(
                at as int,
                at + i,
            ).push(bytes@[at + i]));
            assert(text@.subrange(0, i + 1) =~= text@.subrange(0, i as int).push(text@[i as int]));
        }
        i = i + 1;
    }
    proof {
        assert(text@.subrange(0, i as int) =~= text@);
    }
    true
}

/// The shape of a lexeme.
#[derive(Clone, Copy, Debug)]
pub enum Pattern {
    /// Exactly the given text.
    Literal(&'static str),
    /// One or more digits.
    Digits,
    /// One or more digits, the given byte, one or more digits.
    Pair(u8),
    /// A double quote, any bytes but a double quote, a double quote.
    Quoted,
    /// The given text followed by one or more bytes that are not white space.
    Prefixed(&'static str),
    /// One or more name bytes followed by the given text.
    Named(&'static str),
}

/// How many bytes of `bytes` the pattern matches at `at`, taking as many as it
/// can; 0 where it does not match.
pub open spec fn match_len(pattern: Pattern, bytes: Seq<u8>, at: int) -> int {
    match pattern {
        Pattern::Literal(text) => if occurs_at(bytes, at, text.spec_bytes()) {
            text.spec_bytes().len() as int
        } else {
            0
        },
        Pattern::Digits => run_end(bytes, at, ByteClass::Digit) - at,
        Pattern::Pair(separator) => {
            let middle = run_end(bytes, at, ByteClass::Digit);
            let end = run_end(bytes, middle + 1, ByteClass::Digit);
            if at < middle < bytes.len() && bytes[middle] == separator && middle + 1 < end {
                end - at
            } else {
                0
            }
        },
        Pattern::Quoted => {
            let close = run_end(bytes, at + 1, ByteClass::Unquoted);
            if 0 <= at < bytes.len() && bytes[at] == 0x22 && close < bytes.len() {
                close + 1 - at
            } else {
                0
            }
        },
        Pattern::Prefixed(text) => {
            let from = at + text.spec_bytes().len();
            let end = run_end(bytes, from, ByteClass::Word);
            if occurs_at(bytes, at, text.spec_bytes()) && from < end {
                end - at
            } else {
                0
            }
        },
        Pattern::Named(text) => {
            let stem = run_end(bytes, at, ByteClass::Name);
            if at < stem && occurs_at(bytes, stem, text.spec_bytes()) {
                stem + text.spec_bytes().len() - at
            } else {
                0
            }
        },
    }
}

/// A match never reaches beyond the end of the text.
pub proof fn lemma_match_len_bounds(pattern: Pattern, bytes: Seq<u8>, at: int)
    requires
        0 <= at <= bytes.len(),
    ensures
        0 <= match_len(pattern, bytes, at) <= bytes.len() - at,
{
    lemma_run_end(bytes, at, ByteClass::Digit);
    lemma_run_end(bytes, at, ByteClass::Name);
    match pattern {
        Pattern::Pair(_) => {
            let middle = run_end(bytes, at, ByteClass::Digit);
            if middle < bytes.len() {
                lemma_run_end(bytes, middle + 1, ByteClass::Digit);
            }
        },
        Pattern::Quoted => {
            if at < bytes.len() {
                lemma_run_end(bytes, at + 1, ByteClass::Unquoted);
            }
        },
        Pattern::Prefixed(text) => {
            let from = at + text.spec_bytes().len();
            if from <= bytes.len() {
                lemma_run_end(bytes, from, ByteClass::Word);
            }
        },
        _ => {},
    }
}

/// In a UTF-8 text, a match that starts between two characters ends between
/// two characters.
pub proof fn lemma_match_boundary(pattern: Pattern, bytes: Seq<u8>, at: int)
    requires
        valid_utf8(bytes),
        0 <= at <= bytes.len(),
        is_char_boundary(bytes, at),
        match_len(pattern, bytes, at) > 0,
    ensures
        is_char_boundary(bytes, at + match_len(pattern, bytes, at)),
{
    lemma_match_len_bounds(pattern, bytes, at);
    match pattern {
        Pattern::Literal(text) => {
            encode_utf8_valid_utf8(text@);
            lemma_boundary_after_block(bytes, at, at + text.spec_bytes().len());
        },
        Pattern::Digits => {
            let end = run_end(bytes, at, ByteClass::Digit);
            lemma_run_end(bytes, at, ByteClass::Digit);
            assert(ByteClass::Digit.contains(bytes[end - 1]));
            lemma_boundary_around_ascii(bytes, end - 1);
        },
        Pattern::Pair(_) => {
            let middle = run_end(bytes, at, ByteClass::Digit);
            let end = run_end(bytes, middle + 1, ByteClass::Digit);
            lemma_run_end(bytes, at, ByteClass::Digit);
            lemma_run_end(bytes, middle + 1, ByteClass::Digit);
            assert(ByteClass::Digit.contains(bytes[end - 1]));
            lemma_boundary_around_ascii(bytes, end - 1);
        },
        Pattern::Quoted => {
            let close = run_end(bytes, at + 1, ByteClass::Unquoted);
            lemma_run_end(bytes, at + 1, ByteClass::Unquoted);
            lemma_boundary_around_ascii(bytes, close);
        },
        Pattern::Prefixed(text) => {
            let from = at + text.spec_bytes().len();
            let end = run_end(bytes, from, ByteClass::Word);
            lemma_run_end(bytes, from, ByteClass::Word);
            if end < bytes.len() {
                lemma_boundary_around_ascii(bytes, end);
            } else {
                is_char_boundary_start_end_of_seq(bytes);
            }
        },
        Pattern::Named(text) => {
            let stem = run_end(bytes, at, ByteClass::Name);
            lemma_run_end(bytes, at, ByteClass::Name);
            assert(ByteClass::Name.contains(bytes[stem - 1]));
            lemma_boundary_around_ascii(bytes, stem - 1);
            encode_utf8_valid_utf8(text@);
            lemma_boundary_after_block(bytes, stem, stem + text.spec_bytes().len());
        },
    }
}

/// Computes how many bytes the pattern matches at `at`.
pub fn measure(pattern: Pattern, bytes: &[u8], at: usize) -> (n: usize)
    requires
        at <= bytes@.len(),
    ensures
        n == match_len(pattern, bytes@, at as int),
        n <= bytes@.len() - at,
{
    proof {
        lemma_match_len_bounds(pattern, bytes@, at as int);
    }
    let total = bytes.len();
    match pattern {
        Pattern::Literal(text) => {
            let text = text.as_bytes();
            if found_at(bytes, at, text) {
                text.len()
            } else {
                0
            }
        },
        Pattern::Digits => scan_run(bytes, at, ByteClass::Digit) - at,
        Pattern::Pair(separator) => {
            let middle = scan_run(bytes, at, ByteClass::Digit);
            if at < middle && middle < total && bytes[middle] == separator {
                let end = scan_run(bytes, middle + 1, ByteClass::Digit);
                if middle + 1 < end {
                    end - at
                } else {
                    0
                }
            } else {
                0
            }
        },
        Pattern::Quoted => {
            if at < total && bytes[at] == 0x22 {
                let close = scan_run(bytes, at + 1, ByteClass::Unquoted);
                if close < total {
                    close + 1 - at
                } else {
                    0
                }
            } else {
                0
            }
        },
        Pattern::Prefixed(text) => {
            let text = text.as_bytes();
            if found_at(bytes, at, text) {
                let from = at + text.len();
                let end = scan_run(bytes, from, ByteClass::Word);
                if from < end {
                    end - at
                } else {
                    0
                }
            } else {
                0
            }
        },
        Pattern::Named(text) => {
            let text = text.as_bytes();
            let stem = scan_run(bytes, at, ByteClass::Name);
            if at < stem && found_at(bytes, stem, text) {
                stem + text.len() - at
            } else {
                0
            }
        },
    }
}

/// One line of a grammar: lexemes of this pattern are tokens of this kind.
#[derive(Debug)]
pub struct Rule<K> {
    pub kind: K,
    pub pattern: Pattern,
}

/// The kind and length of the lexeme at `at`: of all rules the one whose
/// pattern matches the most bytes, and of several such the first in the table.
/// `None` where no rule matches a byte.
pub open spec fn longest<K>(rules: Seq<Rule<K>>, bytes: Seq<u8>, at: int) -> Option<(K, int)>
    decreases rules.len(),
{
    if rules.len() == 0 {
        None
    } else {
        let earlier = longest(rules.drop_last(), bytes, at);
        let n = match_len(rules.last().pattern, bytes, at);
        if n > 0 && (earlier matches Some(found) ==> n > found.1) {
            Some((rules.last().kind, n))
        } else {
            earlier
        }
    }
}

/// The lexeme that `longest` finds is the match of one of the rules, no rule
/// matches more, and no rule before that one matches as much.
pub proof fn lemma_longest<K>(rules: Seq<Rule<K>>, bytes: Seq<u8>, at: int)
    ensures
        match longest(rules, bytes, at) {
            Some((kind, n)) => n > 0 && exists|i: int|
                {
                    &&& 0 <= i < rules.len()
                    &&& #[trigger] rules[i].kind == kind
                    &&& match_len(rules[i].pattern, bytes, at) == n
                    &&& forall|j: int|
                        0 <= j < i ==> match_len(#[trigger] rules[j].pattern, bytes, at) < n
                } && forall|j: int|
                0 <= j < rules.len() ==> match_len(#[trigger] rules[j].pattern, bytes, at) <= n,
            None => forall|j: int|
                0 <= j < rules.len() ==> match_len(#[trigger] rules[j].pattern, bytes, at) <= 0,
        },
    decreases rules.len(),
{
    if rules.len() > 0 {
        let front = rules.drop_last();
        let last = rules.len() - 1;
        lemma_longest(front, bytes, at);
        assert(forall|j: int| 0 <= j < last ==> front[j] == rules[j]);
        let n = match_len(rules.last().pattern, bytes, at);
        match longest(front, bytes, at) {
            Some((kind, m)) => {
                let i = choose|i: int|
                    {
                        &&& 0 <= i < front.len()
                        &&& #[trigger] front[i].kind == kind
                        &&& match_len(front[i].pattern, bytes, at) == m
                        &&& forall|j: int|
                            0 <= j < i ==> match_len(#[trigger] front[j].pattern, bytes, at) < m
                    };
                if n > m {
                    assert(rules[last].kind == rules.last().kind);
                    assert forall|j: int| 0 <= j < last implies match_len(
                        #[trigger] rules[j].pattern,
                        bytes,
                        at,
                    ) < n by {
                        assert(front[j] == rules[j]);
                    }
                } else {
                    assert(rules[i].kind == kind);
                    assert forall|j: int| 0 <= j < i implies match_len(
                        #[trigger] rules[j].pattern,
                        bytes,
                        at,
                    ) < m by {
                        assert(front[j] == rules[j]);
                    }
                }
                assert forall|j: int| 0 <= j < rules.len() implies match_len(
                    #[trigger] rules[j].pattern,
                    bytes,
                    at,
                ) <= (if n > m {
                    n
                } else {
                    m
                }) by {
                    if j < last {
                        assert(front[j] == rules[j]);
                    }
                }
            },
            None => {
                if n > 0 {
                    assert(rules[last].kind == rules.last().kind);
                }
                assert forall|j: int| 0 <= j < rules.len() implies match_len(
                    #[trigger] rules[j].pattern,
                    bytes,
                    at,
                ) <= (if n > 0 {
                    n
                } else {
                    0
                }) by {
                    if j < last {
                        assert(front[j] == rules[j]);
                    }
                }
            },
        }
    }
}

/// Where the rules of one kind match `n` bytes and every other rule matches
/// fewer, `longest` finds that kind with `n` bytes.
pub proof fn lemma_longest_is<K>(rules: Seq<Rule<K>>, bytes: Seq<u8>, at: int, kind: K, n: int)
    requires
        n > 0,
        exists|i: int| 0 <= i < rules.len() && (#[trigger] rules[i]).kind == kind,
        forall|j: int|
            0 <= j < rules.len() ==> if (#[trigger] rules[j]).kind == kind {
                match_len(rules[j].pattern, bytes, at) == n
            } else {
                match_len(rules[j].pattern, bytes, at) < n
            },
    ensures
        longest(rules, bytes, at) == Some((kind, n)),
    decreases rules.len(),
{
    let front = rules.drop_last();
    let last = rules.len() - 1;
    assert(forall|j: int| 0 <= j < last ==> front[j] == rules[j]);
    assert(rules[last] == rules.last());
    if exists|i: int| 0 <= i < front.len() && (#[trigger] front[i]).kind == kind {
        lemma_longest_is(front, bytes, at, kind, n);
    } else {
        let i = choose|i: int| 0 <= i < rules.len() && (#[trigger] rules[i]).kind == kind;
        assert(i == last) by {
            if i < last {
                assert(front[i].kind == kind);
            }
        }
        lemma_longest(front, bytes, at);
        if let Some((other, m)) = longest(front, bytes, at) {
            let j = choose|j: int|
                0 <= j < front.len() && #[trigger] front[j].kind == other && match_len(
                    front[j].pattern,
                    bytes,
                    at,
                ) == m;
            assert(front[j] == rules[j]);
            assert(rules[j].kind != kind);
        }
    }
}

/// The lexeme that `longest` finds holds at least one byte and ends within the text.
pub proof fn lemma_longest_bounds<K>(rules: Seq<Rule<K>>, bytes: Seq<u8>, at: int)
    requires
        0 <= at <= bytes.len(),
    ensures
        longest(rules, bytes, at) matches Some(found) ==> 0 < found.1 <= bytes.len() - at,
    decreases rules.len(),
{
    if rules.len() > 0 {
        lemma_longest_bounds(rules.drop_last(), bytes, at);
        lemma_match_len_bounds(rules.last().pattern, bytes, at);
    }
}

/// Finds the kind and length of the lexeme at `at`.
pub fn find_longest<K: Copy>(rules: &Vec<Rule<K>>, bytes: &[u8], at: usize) -> (r: Option<
    (K, usize),
>)
    requires
        at <= bytes@.len(),
    ensures
        match r {
            Some((kind, n)) => longest(rules@, bytes@, at as int) == Some((kind, n as int)) && 0
                < n <= bytes@.len() - at,
            None => longest(rules@, bytes@, at as int) is None,
        },
{
    let mut best: Option<(K, usize)> = None;
    let mut i: usize = 0;
    while i < rules.len()
        invariant
            i <= rules@.len(),
            at <= bytes@.len(),
            match best {
                Some((kind, n)) => longest(rules@.take(i as int), bytes@, at as int) == Some(
                    (kind, n as int),
                ) && 0 < n <= bytes@.len() - at,
                None => longest(rules@.take(i as int), bytes@, at as int) is None,
            },
        decreases rules@.len() - i,
    {
        let n = measure(rules[i].pattern, bytes, at);
        proof {
            assert(rules@.take(i + 1).drop_last() =~= rules@.take(i as int));
            assert(rules@.take(i + 1).last() == rules@[i as int]);
        }
        let better = match best {
            Some((_, m)) => n > m,
            None => n > 0,
        };
        if better {
            best = Some((rules[i].kind, n));
        }
        i = i + 1;
    }
    proof {
        assert(rules@.take(i as int) =~= rules@);
    }
    best
}

} // verus!
