//! Tokens and the plain tokenizer.
//!
//! A token is a maximal run of Cyrillic letters, of Latin letters or of digits, or a single
//! punctuation or other non-space character. Spans count characters of the source text.
use vstd::prelude::*;
use vstd::string::*;

use crate::morph::form::Form;
use crate::span::Span;
use crate::text::{join_seq, lowercase_chars, to_lowercase};

verus! {

/// Kind of a token.
#[derive(Debug, Clone, Copy, PartialEq, Eq, Hash, Structural)]
pub enum TokenType {
    Russian,
    Latin,
    Int,
    Punct,
    Other,
}

/// A token of the source text: its surface value, its span, its kind, and the
/// morphological parses of its word (none for a plain token).
#[derive(Debug, Clone, PartialEq, Eq, Hash)]
pub struct Token {
    pub value: String,
    pub span: Span,
    pub token_type: TokenType,
    pub forms: Vec<Form>,
}

/// The normal form of a token: the normal form of its first parse, else its value in lower
/// case.
pub open spec fn token_lemma(t: Token) -> Seq<char> {
    if t.forms@.len() > 0 {
        t.forms@[0].normalized@
    } else {
        lowercase_chars(t.value@)
    }
}

impl Token {
    /// Creates a token.
    pub fn new(value: &str, span: Span, token_type: TokenType) -> (r: Token)
        ensures
            r.value@ == value@,
            r.span == span,
            r.token_type == token_type,
    {
        Token { value: String::from_str(value), span, token_type, forms: Vec::new() }
    }

    /// The token with the given parses of its word.
    pub fn morphed(self, forms: Vec<Form>) -> (r: Token)
        ensures
            r.value == self.value,
            r.span == self.span,
            r.token_type == self.token_type,
            r.forms == forms,
    {
        Token { value: self.value, span: self.span, token_type: self.token_type, forms }
    }

    /// Copies the token field by field, its parses copied in turn.
    pub fn copy(&self) -> (r: Token)
        ensures
            r.value@ == self.value@,
            r.span == self.span,
            r.token_type == self.token_type,
            r.forms@.len() == self.forms@.len(),
            forall|i: int| 0 <= i < self.forms@.len() ==> (#[trigger] r.forms@[i]).normalized@ == self.forms@[i].normalized@,
            token_lemma(r) == token_lemma(*self),
    {
        let mut forms: Vec<Form> = Vec::new();
        let mut i: usize = 0;
        while i < self.forms.len()
            invariant
                i <= self.forms@.len(),
                forms@.len() == i,
                forall|j: int| 0 <= j < i ==> (#[trigger] forms@[j]).normalized@ == self.forms@[j].normalized@,
            decreases self.forms@.len() - i,
        {
            forms.push(self.forms[i].copy());
            i += 1;
        }
        Token { value: self.value.clone(), span: self.span, token_type: self.token_type, forms }
    }

    /// The normal form of the token (see [`token_lemma`]): the normal form of its first
    /// parse, else its value in lower case.
    pub fn normalized(&self) -> (r: String)
        ensures
            r@ == token_lemma(*self),
    {
        if self.forms.len() > 0 {
            self.forms[0].normalized.clone()
        } else {
            to_lowercase(self.value.as_str())
        }
    }
}

/// Character classes of the tokenizer.
pub open spec fn is_russian_char(c: char) -> bool {
    let u = c as u32;
    (0x0410 <= u && u <= 0x044F) || u == 0x0401 || u == 0x0451
}

pub open spec fn is_latin_char(c: char) -> bool {
    let u = c as u32;
    (0x41 <= u && u <= 0x5A) || (0x61 <= u && u <= 0x7A)
}

pub open spec fn is_digit_char(c: char) -> bool {
    let u = c as u32;
    0x30 <= u && u <= 0x39
}

pub open spec fn is_space_char(c: char) -> bool {
    let u = c as u32;
    u == 0x20 || u == 0x09 || u == 0x0A || u == 0x0D || u == 0x0B || u == 0x0C || u == 0xA0
}

pub open spec fn is_punct_char(c: char) -> bool {
    let u = c as u32;
    (0x21 <= u && u <= 0x2F) || (0x3A <= u && u <= 0x40) || (0x5B <= u && u <= 0x60)
        || (0x7B <= u && u <= 0x7E) || u == 0xAB || u == 0xBB || u == 0x2013 || u == 0x2014
        || u == 0x2026 || u == 0x2116 || u == 0x201C || u == 0x201D || u == 0x201E
}

/// The kind of token that a non-space character starts.
pub open spec fn char_type(c: char) -> TokenType {
    if is_russian_char(c) {
        TokenType::Russian
    } else if is_latin_char(c) {
        TokenType::Latin
    } else if is_digit_char(c) {
        TokenType::Int
    } else if is_punct_char(c) {
        TokenType::Punct
    } else {
        TokenType::Other
    }
}

/// Kinds whose tokens are maximal runs of characters.
pub open spec fn is_run_type(t: TokenType) -> bool {
    t == TokenType::Russian || t == TokenType::Latin || t == TokenType::Int
}

fn exec_char_type(c: char) -> (t: TokenType)
    ensures
        t == char_type(c),
{
    let u = c as u32;
    if (0x0410 <= u && u <= 0x044F) || u == 0x0401 || u == 0x0451 {
        TokenType::Russian
    } else if (0x41 <= u && u <= 0x5A) || (0x61 <= u && u <= 0x7A) {
        TokenType::Latin
    } else if 0x30 <= u && u <= 0x39 {
        TokenType::Int
    } else if (0x21 <= u && u <= 0x2F) || (0x3A <= u && u <= 0x40) || (0x5B <= u && u <= 0x60)
        || (0x7B <= u && u <= 0x7E) || u == 0xAB || u == 0xBB || u == 0x2013 || u == 0x2014
        || u == 0x2026 || u == 0x2116 || u == 0x201C || u == 0x201D || u == 0x201E {
        TokenType::Punct
    } else {
        TokenType::Other
    }
}

fn exec_is_space(c: char) -> (b: bool)
    ensures
        b == is_space_char(c),
{
    let u = c as u32;
    u == 0x20 || u == 0x09 || u == 0x0A || u == 0x0D || u == 0x0B || u == 0x0C || u == 0xA0
}

/// `tok` is the token of `text` that covers `[start, stop)`.
pub open spec fn token_of(text: Seq<char>, tok: Token) -> bool {
    &&& tok.span.start < tok.span.stop <= text.len()
    &&& tok.value@ == text.subrange(tok.span.start as int, tok.span.stop as int)
    &&& !is_space_char(text[tok.span.start as int])
    &&& tok.token_type == char_type(text[tok.span.start as int])
    &&& if is_run_type(tok.token_type) {
        &&& forall|p: int| tok.span.start <= p < tok.span.stop ==> #[trigger] char_type(text[p])
            == tok.token_type && !is_space_char(text[p])
        &&& (tok.span.stop < text.len() ==> char_type(text[tok.span.stop as int])
            != tok.token_type || is_space_char(text[tok.span.stop as int]))
        &&& (tok.span.start > 0 ==> char_type(text[tok.span.start - 1]) != tok.token_type
            || is_space_char(text[tok.span.start - 1]))
    } else {
        tok.span.stop == tok.span.start + 1
    }
}

/// The tokenization of `text`: tokens in order, not overlapping, covering every non-space character.
pub open spec fn is_tokenization(text: Seq<char>, toks: Seq<Token>) -> bool {
    &&& forall|k: int| 0 <= k < toks.len() ==> token_of(text, #[trigger] toks[k])
    &&& forall|k: int, l: int| 0 <= k < l < toks.len() ==> #[trigger] toks[k].span.stop
        <= #[trigger] toks[l].span.start
    &&& forall|p: int| 0 <= p < text.len() && !is_space_char(#[trigger] text[p]) ==> exists|k: int|
        #![trigger toks[k]] 0 <= k < toks.len() && toks[k].span.start <= p < toks[k].span.stop
}

/// Splits text into tokens.
#[derive(Debug, Clone, Copy, Default)]
pub struct Tokenizer;

impl Tokenizer {
    /// Creates the tokenizer.
    pub fn new() -> (r: Tokenizer) {
        Tokenizer
    }

    /// Splits `text` into tokens (see [`is_tokenization`]).
    #[verifier::rlimit(100)]
    #[verifier::spinoff_prover]
    pub fn tokenize(&self, text: &str) -> (r: Vec<Token>)
        ensures
            is_tokenization(text@, r@),
    {
        let n = text.unicode_len();
        let ghost t = text@;
        let mut out: Vec<Token> = Vec::new();
        let mut i: usize = 0;
        while i < n
            invariant
                n == t.len(),
                t == text@,
                i <= n,
                forall|k: int| 0 <= k < out@.len() ==> token_of(t, #[trigger] out@[k]),
                forall|k: int, l: int| 0 <= k < l < out@.len() ==> #[trigger] out@[k].span.stop
                    <= #[trigger] out@[l].span.start,
                forall|k: int| 0 <= k < out@.len() ==> #[trigger] out@[k].span.stop <= i,
                forall|p: int| 0 <= p < i && !is_space_char(#[trigger] t[p]) ==> exists|k: int|
                    #![trigger out@[k]] 0 <= k < out@.len() && out@[k].span.start <= p < out@[k].span.stop,
                i > 0 && i < n && !is_space_char(t[i as int]) && !is_space_char(t[i - 1])
                    && is_run_type(char_type(t[i as int])) ==> char_type(t[i - 1]) != char_type(t[i as int]),
            decreases n - i,
        {
            let c = text.get_char(i);
            if exec_is_space(c) {
                i += 1;
                proof {
                    assert forall|p: int| 0 <= p < i && !is_space_char(#[trigger] t[p]) implies exists|k: int|
                        #![trigger out@[k]] 0 <= k < out@.len() && out@[k].span.start <= p < out@[k].span.stop by {
                        if p < i - 1 {
                        }
                    }
                }
            } else {
                let ty = exec_char_type(c);
                let mut j: usize = i + 1;
                if ty == TokenType::Russian || ty == TokenType::Latin || ty == TokenType::Int {
                    while j < n
                        invariant
                            n == t.len(),
                            t == text@,
                            i < j <= n,
                            ty == char_type(t[i as int]),
                            forall|p: int| i <= p < j ==> #[trigger] char_type(t[p]) == ty
                                && !is_space_char(t[p]),
                        ensures
                            i < j <= n,
                            forall|p: int| i <= p < j ==> #[trigger] char_type(t[p]) == ty
                                && !is_space_char(t[p]),
                            j < n ==> is_space_char(t[j as int]) || char_type(t[j as int]) != ty,
                        decreases n - j,
                    {
                        let d = text.get_char(j);
                        if exec_is_space(d) || exec_char_type(d) != ty {
                            break;
                        }
                        j += 1;
                    }
                }
                let piece = text.substring_char(i, j);
                let tok = Token { value: String::from_str(piece), span: Span { start: i, stop: j }, token_type: ty, forms: Vec::new() };
                proof {
                    assert(tok.value@ == t.subrange(i as int, j as int));
                    assert(token_of(t, tok));
                }
                let ghost old_out = out@;
                out.push(tok);
                proof {
                    assert forall|p: int| 0 <= p < j && !is_space_char(#[trigger] t[p]) implies exists|k: int|
                        #![trigger out@[k]] 0 <= k < out@.len() && out@[k].span.start <= p < out@[k].span.stop by {
                        if p < i {
                            let k = choose|k: int| #![trigger old_out[k]] 0 <= k < old_out.len() && old_out[k].span.start <= p < old_out[k].span.stop;
                            assert(out@[k] == old_out[k]);
                        } else {
                            assert(out@[old_out.len() as int] == tok);
                        }
                    }
                    assert forall|k: int, l: int| 0 <= k < l < out@.len() implies #[trigger] out@[k].span.stop
                        <= #[trigger] out@[l].span.start by {
                        if l == old_out.len() {
                            assert(out@[k] == old_out[k]);
                        }
                    }
                    assert forall|k: int| 0 <= k < out@.len() implies token_of(t, #[trigger] out@[k]) by {
                        if k < old_out.len() {
                            assert(out@[k] == old_out[k]);
                        }
                    }
                    if j < n && !is_space_char(t[j as int]) && is_run_type(char_type(t[j as int])) {
                        assert(t[j - 1] == t[j - 1]);
                        if !is_run_type(ty) {
                            assert(j == i + 1);
                        }
                    }
                }
                i = j;
            }
        }
        out
    }
}

/// Values of a token sequence.
pub open spec fn token_values(toks: Seq<Token>) -> Seq<Seq<char>> {
    toks.map_values(|t: Token| t.value@)
}

/// Normal forms of a token sequence (see [`token_lemma`]).
pub open spec fn token_normal_values(toks: Seq<Token>) -> Seq<Seq<char>> {
    toks.map_values(|t: Token| token_lemma(t))
}

/// The surface text of a token chain: values joined by single spaces.
pub open spec fn spec_join_tokens(toks: Seq<Token>) -> Seq<char> {
    join_seq(token_values(toks), seq![' '])
}

/// The normalized text of a token chain: normal forms of the tokens joined by single spaces.
pub open spec fn spec_join_normalized(toks: Seq<Token>) -> Seq<char> {
    join_seq(token_normal_values(toks), seq![' '])
}

/// Joins token values with single spaces.
pub fn join_tokens(tokens: &Vec<Token>) -> (r: String)
    ensures
        r@ == spec_join_tokens(tokens@),
{
    let mut parts: Vec<String> = Vec::new();
    let mut i: usize = 0;
    while i < tokens.len()
        invariant
            i <= tokens@.len(),
            parts@.len() == i,
            forall|k: int| 0 <= k < i ==> #[trigger] parts@[k]@ == tokens@[k].value@,
        decreases tokens@.len() - i,
    {
        parts.push(tokens[i].value.clone());
        i += 1;
    }
    let r = crate::text::join_strings(&parts, " ");
    proof {
        reveal_strlit(" ");
        assert(" "@ =~= seq![' ']);
        assert(crate::text::string_views(parts@) =~= token_values(tokens@));
    }
    r
}

/// Joins the normal forms of the tokens with single spaces.
pub fn join_normalized_tokens(tokens: &Vec<Token>) -> (r: String)
    ensures
        r@ == spec_join_normalized(tokens@),
{
    let mut parts: Vec<String> = Vec::new();
    let mut i: usize = 0;
    while i < tokens.len()
        invariant
            i <= tokens@.len(),
            parts@.len() == i,
            forall|k: int| 0 <= k < i ==> #[trigger] parts@[k]@ == token_lemma(tokens@[k]),
        decreases tokens@.len() - i,
    {
        parts.push(tokens[i].normalized());
        i += 1;
    }
    let r = crate::text::join_strings(&parts, " ");
    proof {
        reveal_strlit(" ");
        assert(" "@ =~= seq![' ']);
        assert(crate::text::string_views(parts@) =~= token_normal_values(tokens@));
    }
    r
}

/// The span from the first token's start to the last token's stop.
pub open spec fn spec_tokens_span(toks: Seq<Token>) -> Option<Span> {
    if toks.len() == 0 {
        None
    } else {
        Some(Span { start: toks[0].span.start, stop: toks.last().span.stop })
    }
}

/// The span covered by a token chain, if it is not empty.
pub fn get_tokens_span(tokens: &Vec<Token>) -> (r: Option<Span>)
    ensures
        r == spec_tokens_span(tokens@),
{
    if tokens.len() == 0 {
        None
    } else {
        Some(Span { start: tokens[0].span.start, stop: tokens[tokens.len() - 1].span.stop })
    }
}

} // verus!
