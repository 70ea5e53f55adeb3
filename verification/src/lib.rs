//! A lexical scanner for the punctuators and operators of an
//! ECMAScript-like language.
//!
//! [`tokenize`] turns source text into a pull-based sequence of [`Token`]s:
//! the returned [`Scanner`] yields one token per [`Scanner::next`] call
//! until the input is exhausted. Dispatch is by maximal munch: at a shared
//! prefix (a lone `=` versus the two-character `=>`) the scanner peeks one
//! unit ahead through its [`Cursor`] and commits to the longest match,
//! never consuming a unit that belongs to the next token. Every character
//! is classified — a character outside the recognized set becomes an
//! `Unknown` token — so scanning never fails.
//!
//! Offsets are character offsets into the source; a token's lexeme is the
//! exact substring of the source it was derived from.

mod cursor;
mod token;

pub use cursor::Cursor;
pub use cursor::unit_at;
pub use token::Token;
pub use token::TokenKind;

use vstd::prelude::*;

verus! {

/// Whether the two-character arrow operator `=>` starts at position `i` of
/// the source: maximal munch extends a `=` to `=>` exactly here.
pub open spec fn arrow_at(s: Seq<char>, i: int) -> bool {
    &&& 0 <= i < s.len()
    &&& s[i] == '='
    &&& i + 1 < s.len()
    &&& s[i + 1] == '>'
}

/// Where the token starting at `start` ends (exclusive): two characters for
/// the arrow operator, one character for everything else.
pub open spec fn token_end(s: Seq<char>, start: int) -> int {
    if arrow_at(s, start) {
        start + 2
    } else {
        start + 1
    }
}

/// The kind of the token starting at `start`: the scanner's dispatch, as a
/// function of the source alone.
pub open spec fn kind_for(s: Seq<char>, start: int) -> TokenKind {
    let c = s[start];
    if c == '=' {
        if arrow_at(s, start) {
            TokenKind::Arrow
        } else {
            TokenKind::Assign
        }
    } else if c == '(' {
        TokenKind::Lparen
    } else if c == ')' {
        TokenKind::Rparen
    } else if c == '[' {
        TokenKind::Lbrack
    } else if c == ']' {
        TokenKind::Rbrack
    } else if c == '{' {
        TokenKind::Lbrace
    } else if c == '}' {
        TokenKind::Rbrace
    } else if c == ':' {
        TokenKind::Colon
    } else if c == ';' {
        TokenKind::Semicolon
    } else if c == '.' {
        TokenKind::Period
    } else if c == '?' {
        TokenKind::Conditional
    } else {
        TokenKind::Unknown
    }
}

/// `t` is the token the scan produces at position `start` of source `s`:
/// its kind is the dispatch's choice and its lexeme is exactly the source
/// text from `start` to where that token ends.
pub open spec fn is_token_at(t: Token, s: Seq<char>, start: int) -> bool {
    &&& 0 <= start < s.len()
    &&& t.kind() == kind_for(s, start)
    &&& t.lexeme() == s.subrange(start, token_end(s, start))
}

/// `ts` is the sequence of tokens the scan produces over the span `[start,
/// end)` of source `s`: each token stands where the one before it ended, and
/// the last one ends exactly at `end`. A full scan of `s` is a scan over
/// `[0, s.len())`.
pub open spec fn is_scan_span(ts: Seq<Token>, s: Seq<char>, start: int, end: int) -> bool
    decreases ts.len(),
{
    if ts.len() == 0 {
        start == end
    } else {
        &&& is_token_at(ts[0], s, start)
        &&& is_scan_span(ts.drop_first(), s, token_end(s, start), end)
    }
}

/// The lexemes of `ts`, concatenated in order.
pub open spec fn concat_lexemes(ts: Seq<Token>) -> Seq<char>
    decreases ts.len(),
{
    if ts.len() == 0 {
        Seq::empty()
    } else {
        ts[0].lexeme() + concat_lexemes(ts.drop_first())
    }
}

/// The characters the dispatch recognizes as (the start of) a punctuator or
/// operator; every other character falls back to an `Unknown` token.
pub open spec fn recognized(c: char) -> bool {
    ||| c == '='
    ||| c == '('
    ||| c == ')'
    ||| c == '['
    ||| c == ']'
    ||| c == '{'
    ||| c == '}'
    ||| c == ':'
    ||| c == ';'
    ||| c == '.'
    ||| c == '?'
}

/// A scan span runs forward: it is empty exactly on an empty token
/// sequence, and each token ends strictly past where it starts.
pub proof fn lemma_span_le(ts: Seq<Token>, s: Seq<char>, start: int, end: int)
    requires
        is_scan_span(ts, s, start, end),
    ensures
        ts.len() == 0 ==> start == end,
        ts.len() > 0 ==> start < end,
    decreases ts.len(),
{
    if ts.len() > 0 {
        lemma_span_le(ts.drop_first(), s, token_end(s, start), end);
    }
}

/// Extending a scan span: a token standing exactly at the end of a span
/// extends it to where that token ends.
pub proof fn lemma_scan_span_push(ts: Seq<Token>, t: Token, s: Seq<char>, start: int, mid: int)
    requires
        is_scan_span(ts, s, start, mid),
        is_token_at(t, s, mid),
    ensures
        is_scan_span(ts.push(t), s, start, token_end(s, mid)),
    decreases ts.len(),
{
    if ts.len() == 0 {
        assert(ts.push(t)[0] == t);
        assert(is_scan_span(Seq::<Token>::empty(), s, token_end(s, mid), token_end(s, mid)));
        assert(ts.push(t).drop_first() =~= Seq::<Token>::empty());
    } else {
        lemma_scan_span_push(ts.drop_first(), t, s, token_end(s, start), mid);
        assert(ts.push(t)[0] == ts[0]);
        assert(ts.push(t).drop_first() =~= ts.drop_first().push(t));
    }
}

proof fn lemma_coverage_span(ts: Seq<Token>, s: Seq<char>, start: int, end: int)
    requires
        is_scan_span(ts, s, start, end),
        0 <= start <= end <= s.len(),
    ensures
        concat_lexemes(ts) == s.subrange(start, end),
    decreases ts.len(),
{
    if ts.len() == 0 {
        assert(s.subrange(start, end) =~= Seq::<char>::empty());
    } else {
        let mid = token_end(s, start);
        lemma_span_le(ts.drop_first(), s, mid, end);
        lemma_coverage_span(ts.drop_first(), s, mid, end);
        assert(s.subrange(start, mid) + s.subrange(mid, end) =~= s.subrange(start, end));
    }
}

/// Total coverage: concatenating the lexemes of the tokens of a full scan,
/// in order, reconstructs the source exactly.
pub proof fn lemma_total_coverage(ts: Seq<Token>, s: Seq<char>)
    requires
        is_scan_span(ts, s, 0, s.len() as int),
    ensures
        concat_lexemes(ts) == s,
{
    lemma_coverage_span(ts, s, 0, s.len() as int);
    assert(s.subrange(0, s.len() as int) =~= s);
}

proof fn lemma_deterministic_span(
    ts1: Seq<Token>,
    ts2: Seq<Token>,
    s: Seq<char>,
    start: int,
    end: int,
)
    requires
        is_scan_span(ts1, s, start, end),
        is_scan_span(ts2, s, start, end),
    ensures
        ts1.len() == ts2.len(),
        forall|i: int|
            0 <= i < ts1.len() ==> (#[trigger] ts1[i]).kind() == (#[trigger] ts2[i]).kind()
                && ts1[i].lexeme() == ts2[i].lexeme(),
    decreases ts1.len(),
{
    lemma_span_le(ts1, s, start, end);
    lemma_span_le(ts2, s, start, end);
    if ts1.len() > 0 {
        lemma_deterministic_span(
            ts1.drop_first(),
            ts2.drop_first(),
            s,
            token_end(s, start),
            end,
        );
        assert forall|i: int|
            0 <= i < ts1.len() implies (#[trigger] ts1[i]).kind() == (#[trigger] ts2[i]).kind()
            && ts1[i].lexeme() == ts2[i].lexeme() by {
            if i > 0 {
                assert(ts1[i] == ts1.drop_first()[i - 1]);
                assert(ts2[i] == ts2.drop_first()[i - 1]);
            }
        }
    }
}

/// Determinism: two full scans of the same source yield identical token
/// sequences — the same count, and at every position the same kind and the
/// same lexeme.
pub proof fn lemma_scan_deterministic(ts1: Seq<Token>, ts2: Seq<Token>, s: Seq<char>)
    requires
        is_scan_span(ts1, s, 0, s.len() as int),
        is_scan_span(ts2, s, 0, s.len() as int),
    ensures
        ts1.len() == ts2.len(),
        forall|i: int|
            0 <= i < ts1.len() ==> (#[trigger] ts1[i]).kind() == (#[trigger] ts2[i]).kind()
                && ts1[i].lexeme() == ts2[i].lexeme(),
{
    lemma_deterministic_span(ts1, ts2, s, 0, s.len() as int);
}

/// Unknown fallback: a character outside the recognized punctuator and
/// operator set always scans to an `Unknown` token wrapping exactly that
/// one character.
pub proof fn lemma_unknown_fallback(t: Token, s: Seq<char>, start: int)
    requires
        is_token_at(t, s, start),
        !recognized(s[start]),
    ensures
        t is Unknown,
        t.lexeme() =~= seq![s[start]],
{
}

/// The lazy token sequence over a source string: holds the source and a
/// [`Cursor`] into it, and yields one token per [`Scanner::next`] call.
///
/// Between calls the only state is the cursor's position and its single
/// lookahead slot — where a peeked unit turned out to start the next token,
/// it stays cached there and is neither lost nor read twice.
pub struct Scanner<'a> {
    src: &'a str,
    cursor: Cursor<'a>,
}

impl<'a> Scanner<'a> {
    /// The characters of the source being scanned.
    pub closed spec fn src(self) -> Seq<char> {
        self.src@
    }

    /// The character offset at which the next token will start.
    pub closed spec fn pos(self) -> int {
        self.cursor.pos()
    }

    /// The scanner's invariant: its cursor walks its own source.
    pub closed spec fn wf(self) -> bool {
        &&& self.cursor.wf()
        &&& self.cursor.src() == self.src@
    }

    /// A well-formed scanner stands somewhere inside its source, whose
    /// character count fits a `usize`.
    pub proof fn lemma_bounds(&self)
        requires
            self.wf(),
        ensures
            0 <= self.pos() <= self.src().len() <= usize::MAX,
    {
        self.cursor.lemma_bounds();
    }

    /// Produce the next token, or `None` once the source is exhausted.
    ///
    /// On success the token is exactly the one the scan determines at the
    /// current position — dispatch kind, maximal-munch extent and lexeme —
    /// and the scanner moves to where that token ends, so consecutive
    /// tokens' lexeme ranges are contiguous and non-overlapping.
    pub fn next(&mut self) -> (t: Option<Token<'a>>)
        requires
            old(self).wf(),
        ensures
            final(self).wf(),
            final(self).src() == old(self).src(),
            old(self).pos() < old(self).src().len() ==> {
                &&& t matches Some(tok) && is_token_at(tok, old(self).src(), old(self).pos())
                &&& final(self).pos() == token_end(old(self).src(), old(self).pos())
            },
            old(self).pos() >= old(self).src().len() ==> {
                &&& t is None
                &&& final(self).pos() == old(self).pos()
            },
    {
        proof {
            self.cursor.lemma_bounds();
        }
        match self.cursor.next() {
            None => None,
            Some((start, c)) => match c {
                '=' => from_eq(self.src, start, &mut self.cursor),
                '(' => Some(Token::Lparen(self.src.substring_char(start, start + 1))),
                ')' => Some(Token::Rparen(self.src.substring_char(start, start + 1))),
                '[' => Some(Token::Lbrack(self.src.substring_char(start, start + 1))),
                ']' => Some(Token::Rbrack(self.src.substring_char(start, start + 1))),
                '{' => Some(Token::Lbrace(self.src.substring_char(start, start + 1))),
                '}' => Some(Token::Rbrace(self.src.substring_char(start, start + 1))),
                ':' => Some(Token::Colon(self.src.substring_char(start, start + 1))),
                ';' => Some(Token::Semicolon(self.src.substring_char(start, start + 1))),
                '.' => Some(Token::Period(self.src.substring_char(start, start + 1))),
                '?' => Some(Token::Conditional(self.src.substring_char(start, start + 1))),
                _ => Some(Token::Unknown(self.src.substring_char(start, start + 1))),
            },
        }
    }
}

/// Scan `input` into its token sequence: the returned scanner stands at the
/// start of the input and yields the tokens one at a time.
pub fn tokenize<'a>(input: &'a str) -> (s: Scanner<'a>)
    ensures
        s.wf(),
        s.src() == input@,
        s.pos() == 0,
{
    Scanner { src: input, cursor: Cursor::new(input) }
}

/// Scan `input` to exhaustion and collect the tokens: the result is the
/// full scan of the source, over which total coverage and determinism hold.
pub fn scan_all<'a>(input: &'a str) -> (r: Vec<Token<'a>>)
    ensures
        is_scan_span(r@, input@, 0, input@.len() as int),
{
    let mut scanner = tokenize(input);
    let mut r: Vec<Token<'a>> = Vec::new();
    proof {
        scanner.lemma_bounds();
    }
    loop
        invariant
            scanner.wf(),
            scanner.src() == input@,
            0 <= scanner.pos() <= input@.len(),
            is_scan_span(r@, input@, 0, scanner.pos()),
        decreases input@.len() - scanner.pos(),
    {
        let ghost pre: int = scanner.pos();
        let ghost collected = r@;
        match scanner.next() {
            Some(t) => {
                proof {
                    lemma_scan_span_push(collected, t, input@, 0, pre);
                }
                r.push(t);
            },
            None => {
                return r;
            },
        }
        proof {
            scanner.lemma_bounds();
        }
    }
}

/// Resolve the token that starts with a `=` already consumed at offset
/// `start`: peek one unit ahead, commit to the arrow `=>` when a `>`
/// follows (discarding the peeked unit, now part of this token), and fall
/// back to a lone assignment otherwise — leaving the peeked unit cached for
/// the next token, and to a one-character lexeme at the end of the source.
fn from_eq<'a>(input: &'a str, start: usize, reader: &mut Cursor<'a>) -> (t: Option<Token<'a>>)
    requires
        old(reader).wf(),
        old(reader).src() == input@,
        start < input@.len(),
        old(reader).pos() == start + 1,
        input@[start as int] == '=',
    ensures
        final(reader).wf(),
        final(reader).src() == old(reader).src(),
        t matches Some(tok) && is_token_at(tok, input@, start as int),
        final(reader).pos() == token_end(input@, start as int),
{
    proof {
        reader.lemma_bounds();
    }
    match reader.peek() {
        Some((i, c)) => {
            if c == '>' {
                let v = Some(Token::Arrow(input.substring_char(start, i + 1)));
                reader.discard_peek();
                v
            } else {
                Some(Token::Assign(input.substring_char(start, i)))
            }
        },
        None => Some(Token::Assign(input.substring_char(start, start + 1))),
    }
}

} // verus!
