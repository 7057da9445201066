//! Tokenization of rule text.
//!
//! Rule text is a line-oriented DSL over ASCII text: words are separated by
//! blanks, and line breaks terminate clauses. The tokenizer produces the
//! words and line breaks as position ranges into the original text.

use vstd::prelude::*;
use vstd::string::StringSliceAdditionalSpecFns;

verus! {

broadcast use vstd::string::is_ascii_spec_bytes;

/// One token of rule text: a line break, or a word spanning `[start, end)`.
#[derive(Debug, Clone, Copy, PartialEq)]
pub struct Token {
    /// Whether this token is a line break.
    pub is_eol: bool,
    /// Position of the token's first character.
    pub start: usize,
    /// Position one past the token's last character.
    pub end: usize,
}

/// Mathematical model of a token.
pub ghost struct TokModel {
    /// Whether this token is a line break.
    pub is_eol: bool,
    /// Position of the token's first character.
    pub start: int,
    /// Position one past the token's last character.
    pub end: int,
}

impl View for Token {
    type V = TokModel;

    open spec fn view(&self) -> TokModel {
        TokModel { is_eol: self.is_eol, start: self.start as int, end: self.end as int }
    }
}

/// The models of a token vector.
pub open spec fn toks_m(toks: Seq<Token>) -> Seq<TokModel> {
    toks.map_values(|t: Token| t@)
}

/// Whether an ASCII code is a blank within a line.
pub open spec fn spec_is_space(b: u8) -> bool {
    b == 32 || b == 9 || b == 13
}

/// Whether an ASCII code belongs to a word.
pub open spec fn spec_is_word_char(b: u8) -> bool {
    !spec_is_space(b) && b != 10
}

/// Position one past the end of the word starting at `i`.
pub open spec fn spec_word_end(s: Seq<char>, i: int) -> int
    decreases s.len() - i when 0 <= i <= s.len()
{
    if i >= s.len() {
        i
    } else if spec_is_word_char(s[i] as u8) {
        spec_word_end(s, i + 1)
    } else {
        i
    }
}

/// The word starting at `i` ends at or after `i`, within the text, and
/// consists of word characters only.
pub proof fn lemma_word_end(s: Seq<char>, i: int)
    requires
        0 <= i <= s.len(),
    ensures
        i <= spec_word_end(s, i) <= s.len(),
        forall|k: int|
            i <= k < spec_word_end(s, i) ==> spec_is_word_char((#[trigger] s[k]) as u8),
        spec_word_end(s, i) < s.len() ==> !spec_is_word_char(s[spec_word_end(s, i)] as u8),
    decreases s.len() - i,
{
    if i < s.len() && spec_is_word_char(s[i] as u8) {
        lemma_word_end(s, i + 1);
    }
}

/// The tokens of the text from position `i` on: blanks are skipped, each
/// line break is one token, and each maximal run of word characters is one
/// word token.
pub open spec fn spec_tokens(s: Seq<char>, i: int) -> Seq<TokModel>
    decreases s.len() - i when 0 <= i <= s.len() via spec_tokens_decreases
{
    if i >= s.len() {
        Seq::empty()
    } else if s[i] as u8 == 10 {
        seq![TokModel { is_eol: true, start: i, end: i + 1 }] + spec_tokens(s, i + 1)
    } else if spec_is_space(s[i] as u8) {
        spec_tokens(s, i + 1)
    } else {
        seq![TokModel { is_eol: false, start: i, end: spec_word_end(s, i) }] + spec_tokens(
            s,
            spec_word_end(s, i),
        )
    }
}

#[via_fn]
proof fn spec_tokens_decreases(s: Seq<char>, i: int) {
    if 0 <= i < s.len() && s[i] as u8 != 10 && !spec_is_space(s[i] as u8) {
        lemma_word_end(s, i + 1);
        assert(spec_word_end(s, i) == spec_word_end(s, i + 1));
    }
}

/// Every token lies within the text, in order, and every word token is
/// nonempty.
pub proof fn lemma_tokens_valid(s: Seq<char>, i: int)
    requires
        0 <= i <= s.len(),
    ensures
        forall|k: int|
            0 <= k < spec_tokens(s, i).len() ==> {
                let t = #[trigger] spec_tokens(s, i)[k];
                i <= t.start < t.end <= s.len()
            },
    decreases s.len() - i,
{
    if i < s.len() {
        if s[i] as u8 == 10 {
            lemma_tokens_valid(s, i + 1);
            assert forall|k: int| 0 <= k < spec_tokens(s, i).len() implies {
                let t = #[trigger] spec_tokens(s, i)[k];
                i <= t.start < t.end <= s.len()
            } by {
                if k > 0 {
                    assert(spec_tokens(s, i)[k] == spec_tokens(s, i + 1)[k - 1]);
                }
            }
        } else if spec_is_space(s[i] as u8) {
            lemma_tokens_valid(s, i + 1);
            assert forall|k: int| 0 <= k < spec_tokens(s, i).len() implies {
                let t = #[trigger] spec_tokens(s, i)[k];
                i <= t.start < t.end <= s.len()
            } by {
                assert(spec_tokens(s, i)[k] == spec_tokens(s, i + 1)[k]);
            }
        } else {
            lemma_word_end(s, i + 1);
            assert(spec_word_end(s, i) == spec_word_end(s, i + 1));
            lemma_tokens_valid(s, spec_word_end(s, i));
            assert forall|k: int| 0 <= k < spec_tokens(s, i).len() implies {
                let t = #[trigger] spec_tokens(s, i)[k];
                i <= t.start < t.end <= s.len()
            } by {
                if k > 0 {
                    assert(spec_tokens(s, i)[k] == spec_tokens(s, spec_word_end(s, i))[k - 1]);
                }
            }
        }
    }
}

/// Splits ASCII text into its tokens.
pub fn tokenize(text: &str) -> (r: Vec<Token>)
    requires
        text.is_ascii(),
    ensures
        toks_m(r@) == spec_tokens(text@, 0),
{
    let n = text.as_bytes().len();
    proof {
        vstd::string::is_ascii_spec_bytes(text);
        assert(text.spec_bytes().len() == text@.len());
        assert(n == text@.len());
    }
    let mut toks: Vec<Token> = Vec::new();
    let mut i: usize = 0;
    while i < n
        invariant
            text.is_ascii(),
            n == text@.len(),
            i <= n,
            toks_m(toks@) + spec_tokens(text@, i as int) == spec_tokens(text@, 0),
        decreases n - i,
    {
        let b = text.get_ascii(i);
        if b == 10 {
            let ghost before = toks@;
            toks.push(Token { is_eol: true, start: i, end: i + 1 });
            proof {
                assert(toks_m(toks@) =~= toks_m(before).push(
                    TokModel { is_eol: true, start: i as int, end: i as int + 1 },
                ));
                assert(toks_m(toks@) + spec_tokens(text@, i as int + 1) =~= toks_m(before)
                    + spec_tokens(text@, i as int));
            }
            i = i + 1;
        } else if b == 32 || b == 9 || b == 13 {
            i = i + 1;
        } else {
            let s0 = i;
            let mut j = i + 1;
            proof {
                assert(spec_word_end(text@, s0 as int) == spec_word_end(text@, j as int));
            }
            while j < n
                invariant_except_break
                    text.is_ascii(),
                    n == text@.len(),
                    s0 < j <= n,
                    spec_word_end(text@, s0 as int) == spec_word_end(text@, j as int),
                ensures
                    s0 < j <= n,
                    spec_word_end(text@, s0 as int) == j as int,
                decreases n - j,
            {
                let c = text.get_ascii(j);
                if c == 32 || c == 9 || c == 13 || c == 10 {
                    proof {
                        assert(spec_word_end(text@, j as int) == j as int);
                    }
                    break;
                }
                j = j + 1;
            }
            let ghost before = toks@;
            toks.push(Token { is_eol: false, start: s0, end: j });
            proof {
                assert(toks_m(toks@) =~= toks_m(before).push(
                    TokModel { is_eol: false, start: s0 as int, end: j as int },
                ));
                assert(spec_tokens(text@, s0 as int) == seq![
                    TokModel { is_eol: false, start: s0 as int, end: j as int },
                ] + spec_tokens(text@, j as int));
                assert(toks_m(toks@) + spec_tokens(text@, j as int) =~= toks_m(before)
                    + spec_tokens(text@, s0 as int));
            }
            i = j;
        }
    }
    proof {
        assert(spec_tokens(text@, n as int) =~= Seq::<TokModel>::empty());
        assert(toks_m(toks@) =~= toks_m(toks@) + spec_tokens(text@, n as int));
    }
    toks
}

} // verus!
