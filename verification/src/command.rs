//! The command-argument parser.
//!
//! The platform locates a command inside message text by a span measured in
//! UTF-16 code units. Everything after that span is the command's argument
//! text; it is split into words shell-style: words are separated by
//! whitespace, a single- or double-quoted run is kept together (quotes
//! removed) and may sit inside a word, and an unterminated quote is a parse
//! failure. A span end that falls inside one character's two-unit UTF-16
//! encoding is a decoding failure, distinct from a quote mismatch.

use vstd::prelude::*;
use vstd::string::*;

verus! {

/// An error in parsing a command's arguments out of message text.
#[derive(Clone, Copy, Debug, PartialEq, Eq, Structural)]
pub enum CommandError {
    /// The command span's end does not fall on a UTF-16 character boundary,
    /// so the trailing text cannot be decoded.
    FromUtf16,
    /// The argument text contains an unterminated quoted run.
    MismatchedQuotes,
}

/// Number of UTF-16 code units that encode `c`: two for characters outside
/// the basic multilingual plane, one otherwise.
pub open spec fn utf16_units(c: char) -> nat {
    if (c as u32) >= 0x10000 {
        2
    } else {
        1
    }
}

/// Length of `s` in UTF-16 code units.
pub open spec fn utf16_len(s: Seq<char>) -> nat
    decreases s.len(),
{
    if s.len() == 0 {
        0
    } else {
        utf16_len(s.drop_last()) + utf16_units(s.last())
    }
}

/// Whether unit offset `pos` falls on a character boundary of the UTF-16
/// encoding of `s`: some prefix of `s` encodes to exactly `pos` units.
pub open spec fn is_unit_boundary(s: Seq<char>, pos: int) -> bool {
    exists|k: int| 0 <= k <= s.len() && utf16_len(#[trigger] s.take(k)) == pos
}

/// The character index whose prefix encodes to exactly `pos` UTF-16 units.
/// Meaningful only when `is_unit_boundary(s, pos)` holds; unique then,
/// since prefix unit lengths grow strictly.
pub open spec fn boundary_char_index(s: Seq<char>, pos: int) -> int {
    choose|k: int| 0 <= k <= s.len() && utf16_len(#[trigger] s.take(k)) == pos
}

/// One more character in the prefix adds that character's unit count.
proof fn lemma_utf16_take_succ(s: Seq<char>, i: int)
    requires
        0 <= i < s.len(),
    ensures
        utf16_len(s.take(i + 1)) == utf16_len(s.take(i)) + utf16_units(s[i]),
{
    assert(s.take(i + 1).drop_last() =~= s.take(i));
    assert(s.take(i + 1).last() == s[i]);
}

/// Prefix unit lengths are strictly increasing in the prefix length.
proof fn lemma_utf16_strict_mono(s: Seq<char>, k1: int, k2: int)
    requires
        0 <= k1 < k2 <= s.len(),
    ensures
        utf16_len(s.take(k1)) < utf16_len(s.take(k2)),
    decreases k2 - k1,
{
    lemma_utf16_take_succ(s, k2 - 1);
    if k1 < k2 - 1 {
        lemma_utf16_strict_mono(s, k1, k2 - 1);
    }
}

/// Total unit length of a string equals the unit length of its full prefix.
proof fn lemma_utf16_take_all(s: Seq<char>)
    ensures
        utf16_len(s.take(s.len() as int)) == utf16_len(s),
{
    assert(s.take(s.len() as int) =~= s);
}

/// Length of `s` in UTF-16 code units, counted at run time.
pub fn utf16_length(s: &str) -> (n: u128)
    ensures
        n == utf16_len(s@),
{
    let len = s.unicode_len();
    let mut i: usize = 0;
    let mut acc: u128 = 0;
    while i < len
        invariant
            i <= len,
            len == s@.len(),
            acc == utf16_len(s@.take(i as int)),
            acc <= 2 * i,
        decreases len - i,
    {
        let c = s.get_char(i);
        proof {
            lemma_utf16_take_succ(s@, i as int);
        }
        if (c as u32) >= 0x10000 {
            acc = acc + 2;
        } else {
            acc = acc + 1;
        }
        i = i + 1;
    }
    proof {
        lemma_utf16_take_all(s@);
    }
    acc
}

/// The trailing text of `text` after a command span of `length` units at
/// unit offset `offset`: decodes the units past the span's end back to
/// text, or fails if the span's end splits one character's encoding.
pub fn trailing_after<'a>(text: &'a str, offset: usize, length: usize) -> (r: Result<
    &'a str,
    CommandError,
>)
    requires
        offset + length <= utf16_len(text@),
    ensures
        r is Ok <==> is_unit_boundary(text@, offset + length),
        r matches Ok(rest) ==> rest@ == text@.skip(boundary_char_index(text@, offset + length)),
        r matches Err(e) ==> e == CommandError::FromUtf16,
{
    let ghost pos: int = offset + length;
    let target: u128 = offset as u128 + length as u128;
    let len = text.unicode_len();
    let mut i: usize = 0;
    let mut acc: u128 = 0;
    while acc < target
        invariant
            i <= len,
            len == text@.len(),
            target == pos,
            pos == offset + length,
            pos <= utf16_len(text@),
            acc == utf16_len(text@.take(i as int)),
            acc <= target,
        decreases target - acc,
    {
        proof {
            if i >= len {
                lemma_utf16_take_all(text@);
            }
        }
        let c = text.get_char(i);
        let u: u128 = if (c as u32) >= 0x10000 {
            2
        } else {
            1
        };
        proof {
            lemma_utf16_take_succ(text@, i as int);
        }
        if acc + u > target {
            proof {
                assert forall|k: int| 0 <= k <= text@.len() implies utf16_len(
                    #[trigger] text@.take(k),
                ) != pos by {
                    if k < i {
                        lemma_utf16_strict_mono(text@, k, i as int);
                    } else if k > i + 1 {
                        lemma_utf16_strict_mono(text@, i + 1, k);
                    }
                }
            }
            return Err(CommandError::FromUtf16);
        }
        acc = acc + u;
        i = i + 1;
    }
    proof {
        assert(utf16_len(text@.take(i as int)) == pos);
        assert(is_unit_boundary(text@, pos));
        let k = boundary_char_index(text@, pos);
        if k < i {
            lemma_utf16_strict_mono(text@, k, i as int);
        } else if k > i {
            lemma_utf16_strict_mono(text@, i as int, k);
        }
        assert(k == i);
    }
    let rest = text.substring_char(i, len);
    proof {
        assert(rest@ =~= text@.skip(i as int));
    }
    Ok(rest)
}

/// State of the word splitter after some prefix of the input: the words
/// already finished, the word being built (if any), and the quote character
/// of the quoted run being read (if any).
pub struct SplitState {
    pub toks: Seq<Seq<char>>,
    pub cur: Option<Seq<char>>,
    pub quote: Option<char>,
}

/// Whitespace separating words.
pub open spec fn is_space(c: char) -> bool {
    c == ' ' || c == '\t' || c == '\n' || c == '\r'
}

/// A quote character opening or closing a quoted run.
pub open spec fn is_quote(c: char) -> bool {
    c == '\'' || c == '"'
}

pub open spec fn split_init() -> SplitState {
    SplitState { toks: Seq::empty(), cur: None, quote: None }
}

/// The word under construction, or the empty word if none has started.
pub open spec fn cur_word(st: SplitState) -> Seq<char> {
    match st.cur {
        Some(t) => t,
        None => Seq::empty(),
    }
}

/// One step of the word splitter on character `c`.
pub open spec fn split_step(st: SplitState, c: char) -> SplitState {
    match st.quote {
        Some(q) => if c == q {
            SplitState { toks: st.toks, cur: st.cur, quote: None }
        } else {
            SplitState { toks: st.toks, cur: Some(cur_word(st).push(c)), quote: st.quote }
        },
        None => if is_space(c) {
            match st.cur {
                Some(t) => SplitState { toks: st.toks.push(t), cur: None, quote: None },
                None => st,
            }
        } else if is_quote(c) {
            SplitState { toks: st.toks, cur: Some(cur_word(st)), quote: Some(c) }
        } else {
            SplitState { toks: st.toks, cur: Some(cur_word(st).push(c)), quote: None }
        },
    }
}

/// The splitter state after reading all of `s`.
pub open spec fn split_run(s: Seq<char>) -> SplitState
    decreases s.len(),
{
    if s.len() == 0 {
        split_init()
    } else {
        split_step(split_run(s.drop_last()), s.last())
    }
}

/// The words of `s` under shell-style splitting, or a quote-mismatch
/// failure if `s` ends inside a quoted run.
pub open spec fn split_words(s: Seq<char>) -> Result<Seq<Seq<char>>, CommandError> {
    let st = split_run(s);
    if st.quote is Some {
        Err(CommandError::MismatchedQuotes)
    } else {
        match st.cur {
            Some(t) => Ok(st.toks.push(t)),
            None => Ok(st.toks),
        }
    }
}

/// Splits `s` into shell-style words: whitespace separates words, a quoted
/// run (single or double quotes) is kept as part of one word with its
/// quotes removed, and an unterminated quote is an error.
pub fn split(s: &str) -> (r: Result<Vec<String>, CommandError>)
    ensures
        match (r, split_words(s@)) {
            (Ok(v), Ok(words)) => v.deep_view() == words,
            (Err(e), Err(e2)) => e == e2,
            _ => false,
        },
{
    let len = s.unicode_len();
    let mut toks: Vec<String> = Vec::new();
    let mut cur: String = String::new();
    let mut have_cur: bool = false;
    let mut quote: Option<char> = None;
    let mut i: usize = 0;
    while i < len
        invariant
            i <= len,
            len == s@.len(),
            toks.deep_view() == split_run(s@.take(i as int)).toks,
            split_run(s@.take(i as int)).cur == if have_cur {
                Some(cur@)
            } else {
                Option::<Seq<char>>::None
            },
            !have_cur ==> cur@ == Seq::<char>::empty(),
            quote == split_run(s@.take(i as int)).quote,
        decreases len - i,
    {
        let ghost st = split_run(s@.take(i as int));
        let c = s.get_char(i);
        proof {
            assert(s@.take(i + 1).drop_last() =~= s@.take(i as int));
            assert(s@.take(i + 1).last() == s@[i as int]);
            assert(split_run(s@.take(i + 1)) == split_step(st, c));
        }
        let piece = s.substring_char(i, i + 1);
        match quote {
            Some(q) => {
                if c == q {
                    quote = None;
                } else {
                    cur.append(piece);
                    proof {
                        assert(cur@ =~= cur_word(st).push(c));
                    }
                    have_cur = true;
                }
            },
            None => {
                if c == ' ' || c == '\t' || c == '\n' || c == '\r' {
                    if have_cur {
                        toks.push(cur);
                        cur = String::new();
                        have_cur = false;
                        proof {
                            assert(toks.deep_view() =~= split_run(s@.take(i + 1)).toks);
                        }
                    }
                } else if c == '\'' || c == '"' {
                    quote = Some(c);
                    have_cur = true;
                    proof {
                        assert(cur@ =~= cur_word(st));
                    }
                } else {
                    cur.append(piece);
                    proof {
                        assert(cur@ =~= cur_word(st).push(c));
                    }
                    have_cur = true;
                }
            },
        }
        i = i + 1;
    }
    proof {
        assert(s@.take(len as int) =~= s@);
    }
    if quote.is_some() {
        return Err(CommandError::MismatchedQuotes);
    }
    if have_cur {
        toks.push(cur);
        proof {
            assert(toks.deep_view() =~= split_words(s@).unwrap());
        }
    }
    Ok(toks)
}

/// What parsing the arguments of a command span ending at unit offset
/// `pos` in `s` yields: a decode failure if `pos` splits a character,
/// otherwise the shell-style words of the trailing text.
pub open spec fn parse_args_spec(s: Seq<char>, pos: int) -> Result<Seq<Seq<char>>, CommandError> {
    if is_unit_boundary(s, pos) {
        split_words(s.skip(boundary_char_index(s, pos)))
    } else {
        Err(CommandError::FromUtf16)
    }
}

/// Parses the arguments that follow a command span of `length` UTF-16
/// units at unit offset `offset` inside `text`.
pub fn parse_args(text: &str, offset: usize, length: usize) -> (r: Result<Vec<String>, CommandError>)
    requires
        offset + length <= utf16_len(text@),
    ensures
        match (r, parse_args_spec(text@, offset + length)) {
            (Ok(v), Ok(words)) => v.deep_view() == words,
            (Err(e), Err(e2)) => e == e2,
            _ => false,
        },
{
    match trailing_after(text, offset, length) {
        Ok(rest) => split(rest),
        Err(e) => Err(e),
    }
}

} // verus!
