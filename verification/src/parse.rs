//! Response parsing: a recursive-descent reader for the documented
//! response shapes, specified by spec functions that state the wire
//! grammar directly.
//!
//! Each shape is an object whose known members may stand in any
//! order; unknown members are skipped, a repeated member is an error,
//! and a member backing an optional field may be absent or `null`.
//! Whitespace is allowed between tokens. String literals use the
//! standard JSON escapes, `\u` included, with astral-plane characters
//! written as surrogate pairs; unescaped control characters are
//! rejected, as are number literals with a leading zero. Embedding
//! values are kept as their raw number tokens.

use vstd::prelude::*;
use crate::text::{is_digit, digit_val, digits_val, string_from_chars, str_chars};
use crate::model::{
    Message, MessageV, Usage, UsageV, ChatChoice, ChatChoiceV, ChatCompletionResponse,
    ChatCompletionResponseV, Delta, DeltaV, ChatChoiceDelta, ChatChoiceDeltaV,
    ChatCompletionChunk, ChatCompletionChunkV, CompletionResponse, CompletionResponseV,
    EmbeddingData, EmbeddingDataV, EmbeddingResponse, EmbeddingResponseV,
};

verus! {

proof fn lemma_char_casts(c: char)
    ensures
        (c as u32) as int == c as int,
{
}

pub open spec fn is_ws(c: char) -> bool {
    c == ' ' || c == '\t' || c == '\n' || c == '\r'
}

/// The first position at or after `i` that holds no whitespace.
pub open spec fn sp_ws(s: Seq<char>, i: int) -> int
    decreases s.len() - i,
{
    if 0 <= i < s.len() && is_ws(s[i]) {
        sp_ws(s, i + 1)
    } else {
        i
    }
}

fn is_ws_x(c: char) -> (r: bool)
    ensures
        r == is_ws(c),
{
    c == ' ' || c == '\t' || c == '\n' || c == '\r'
}

pub fn p_ws(s: &Vec<char>, i: usize) -> (r: usize)
    requires
        i <= s.len(),
    ensures
        r as int == sp_ws(s@, i as int),
        i <= r <= s@.len(),
    decreases s@.len() - i,
{
    if i < s.len() && is_ws_x(s[i]) {
        p_ws(s, i + 1)
    } else {
        i
    }
}

/// Match the exact characters `t` at position `i`.
pub open spec fn sp_exact(s: Seq<char>, i: int, t: Seq<char>) -> Option<int> {
    if 0 <= i && i + t.len() <= s.len() && s.subrange(i, i + t.len()) == t {
        Some(i + t.len())
    } else {
        None
    }
}

pub fn p_exact(s: &Vec<char>, i: usize, t: &Vec<char>) -> (r: Option<usize>)
    requires
        i <= s.len(),
    ensures
        match r {
            Some(j) => sp_exact(s@, i as int, t@) == Some(j as int) && i <= j <= s@.len(),
            None => sp_exact(s@, i as int, t@) is None,
        },
{
    if t.len() > s.len() - i {
        assert(sp_exact(s@, i as int, t@) is None);
        return None;
    }
    let mut k: usize = 0;
    while k < t.len()
        invariant
            0 <= k <= t.len(),
            i + t.len() <= s.len(),
            s@.subrange(i as int, i + k as int) =~= t@.subrange(0, k as int),
        decreases t.len() - k,
    {
        if s[i + k] != t[k] {
            assert(s@.subrange(i as int, i + t@.len()) != t@) by {
                assert(s@.subrange(i as int, i + t@.len())[k as int] == s@[i + k]);
            }
            return None;
        }
        k = k + 1;
        assert(s@.subrange(i as int, i + k as int) =~= t@.subrange(0, k as int));
    }
    assert(s@.subrange(i as int, i + t@.len()) =~= t@) by {
        assert(t@.subrange(0, t@.len() as int) =~= t@);
    }
    Some(i + t.len())
}

pub open spec fn is_hex(c: char) -> bool {
    is_digit(c) || ('a' <= c && c <= 'f') || ('A' <= c && c <= 'F')
}

pub open spec fn hex_val(c: char) -> int {
    if is_digit(c) {
        digit_val(c)
    } else if 'a' <= c && c <= 'f' {
        c as int - 'a' as int + 10
    } else {
        c as int - 'A' as int + 10
    }
}

fn is_hex_x(c: char) -> (r: bool)
    ensures
        r == is_hex(c),
{
    let v = c as u32;
    (48 <= v && v <= 57) || (97 <= v && v <= 102) || (65 <= v && v <= 70)
}

fn hex_val_x(c: char) -> (r: u32)
    requires
        is_hex(c),
    ensures
        r as int == hex_val(c),
        r < 16,
{
    let v = c as u32;
    if 48 <= v && v <= 57 {
        v - 48
    } else if 97 <= v && v <= 102 {
        v - 97 + 10
    } else {
        v - 65 + 10
    }
}

/// Relies on `char::from_u32`: every value below the surrogate range,
/// and every value between the surrogates and the code point ceiling,
/// is a Unicode scalar value.
#[verifier::external_body]
fn char_from_scalar(v: u32) -> (c: char)
    requires
        v < 0xD800 || (0xE000 <= v && v < 0x110000),
    ensures
        c == (v as char),
{
    char::from_u32(v).unwrap_or('\u{FFFD}')
}

/// One escape sequence, entered just after the backslash. Yields the
/// denoted character and the position after the escape.
pub open spec fn sp_escape(s: Seq<char>, i: int) -> Option<(char, int)> {
    if !(0 <= i < s.len()) {
        None
    } else if s[i] == '"' { Some(('"', i + 1)) }
    else if s[i] == '\\' { Some(('\\', i + 1)) }
    else if s[i] == '/' { Some(('/', i + 1)) }
    else if s[i] == 'n' { Some(('\n', i + 1)) }
    else if s[i] == 'r' { Some(('\r', i + 1)) }
    else if s[i] == 't' { Some(('\t', i + 1)) }
    else if s[i] == 'b' { Some(('\u{8}', i + 1)) }
    else if s[i] == 'f' { Some(('\u{c}', i + 1)) }
    else if s[i] == 'u' {
        if i + 5 <= s.len() && is_hex(s[i + 1]) && is_hex(s[i + 2]) && is_hex(s[i + 3])
            && is_hex(s[i + 4]) {
            let v = hex_val(s[i + 1]) * 4096 + hex_val(s[i + 2]) * 256 + hex_val(s[i + 3]) * 16
                + hex_val(s[i + 4]);
            if v < 0xD800 || v >= 0xE000 {
                Some(((v as char), i + 5))
            } else if v < 0xDC00 {
                // A high surrogate: the low half must follow as a second
                // escape, and the pair denotes one astral-plane character.
                if i + 11 <= s.len() && s[i + 5] == '\\' && s[i + 6] == 'u' && is_hex(s[i + 7])
                    && is_hex(s[i + 8]) && is_hex(s[i + 9]) && is_hex(s[i + 10]) {
                    let w = hex_val(s[i + 7]) * 4096 + hex_val(s[i + 8]) * 256 + hex_val(
                        s[i + 9],
                    ) * 16 + hex_val(s[i + 10]);
                    if 0xDC00 <= w < 0xE000 {
                        Some((((0x10000 + (v - 0xD800) * 0x400 + (w - 0xDC00)) as char), i + 11))
                    } else {
                        None
                    }
                } else {
                    None
                }
            } else {
                None
            }
        } else {
            None
        }
    } else {
        None
    }
}

pub fn p_escape(s: &Vec<char>, i: usize) -> (r: Option<(char, usize)>)
    requires
        i <= s.len(),
    ensures
        match r {
            Some((c, j)) => sp_escape(s@, i as int) == Some((c, j as int)) && i < j <= s@.len(),
            None => sp_escape(s@, i as int) is None,
        },
{
    if i >= s.len() {
        return None;
    }
    let c = s[i];
    if c == '"' { Some(('"', i + 1)) }
    else if c == '\\' { Some(('\\', i + 1)) }
    else if c == '/' { Some(('/', i + 1)) }
    else if c == 'n' { Some(('\n', i + 1)) }
    else if c == 'r' { Some(('\r', i + 1)) }
    else if c == 't' { Some(('\t', i + 1)) }
    else if c == 'b' { Some(('\u{8}', i + 1)) }
    else if c == 'f' { Some(('\u{c}', i + 1)) }
    else if c == 'u' {
        if s.len() - i >= 5 && is_hex_x(s[i + 1]) && is_hex_x(s[i + 2]) && is_hex_x(s[i + 3])
            && is_hex_x(s[i + 4]) {
            let v = hex_val_x(s[i + 1]) * 4096 + hex_val_x(s[i + 2]) * 256
                + hex_val_x(s[i + 3]) * 16 + hex_val_x(s[i + 4]);
            if v < 0xD800 || v >= 0xE000 {
                Some((char_from_scalar(v), i + 5))
            } else if v < 0xDC00 {
                if s.len() - i >= 11 && s[i + 5] == '\\' && s[i + 6] == 'u' && is_hex_x(
                    s[i + 7],
                ) && is_hex_x(s[i + 8]) && is_hex_x(s[i + 9]) && is_hex_x(s[i + 10]) {
                    let w = hex_val_x(s[i + 7]) * 4096 + hex_val_x(s[i + 8]) * 256 + hex_val_x(
                        s[i + 9],
                    ) * 16 + hex_val_x(s[i + 10]);
                    if 0xDC00 <= w && w < 0xE000 {
                        let sc = 0x10000 + (v - 0xD800) * 0x400 + (w - 0xDC00);
                        assert(0xE000 <= sc < 0x110000);
                        Some((char_from_scalar(sc), i + 11))
                    } else {
                        None
                    }
                } else {
                    None
                }
            } else {
                None
            }
        } else {
            None
        }
    } else {
        None
    }
}

/// The body of a string literal, entered just after the opening quote.
/// Yields the unescaped text and the position after the closing quote.
pub open spec fn sp_str_body(s: Seq<char>, i: int) -> Option<(Seq<char>, int)>
    decreases s.len() - i,
{
    if !(0 <= i < s.len()) {
        None
    } else if s[i] == '"' {
        Some((Seq::empty(), i + 1))
    } else if s[i] == '\\' {
        match sp_escape(s, i + 1) {
            None => None,
            Some((c, j)) => if i < j && j <= s.len() {
                match sp_str_body(s, j) {
                    None => None,
                    Some((t, e)) => Some((seq![c] + t, e)),
                }
            } else {
                None
            },
        }
    } else if (s[i] as int) < 32 {
        None
    } else {
        match sp_str_body(s, i + 1) {
            None => None,
            Some((t, e)) => Some((seq![s[i]] + t, e)),
        }
    }
}

pub fn p_str_body(s: &Vec<char>, i: usize) -> (r: Option<(Vec<char>, usize)>)
    requires
        i <= s.len(),
    ensures
        match r {
            Some((v, j)) => sp_str_body(s@, i as int) == Some((v@, j as int)) && i < j
                <= s@.len(),
            None => sp_str_body(s@, i as int) is None,
        },
    decreases s@.len() - i,
{
    if i >= s.len() {
        return None;
    }
    let c = s[i];
    if c == '"' {
        let v: Vec<char> = Vec::new();
        assert(v@ =~= Seq::<char>::empty());
        Some((v, i + 1))
    } else if c == '\\' {
        match p_escape(s, i + 1) {
            None => None,
            Some((e, j)) => {
                match p_str_body(s, j) {
                    None => None,
                    Some((t, end)) => {
                        let mut t = t;
                        t.insert(0, e);
                        assert(t@ =~= seq![e] + t@.subrange(1, t@.len() as int));
                        Some((t, end))
                    },
                }
            },
        }
    } else if (c as u32) < 32 {
        proof {
            lemma_char_casts(c);
        }
        None
    } else {
        proof {
            lemma_char_casts(c);
        }
        match p_str_body(s, i + 1) {
            None => None,
            Some((t, end)) => {
                let mut t = t;
                t.insert(0, c);
                assert(t@ =~= seq![c] + t@.subrange(1, t@.len() as int));
                Some((t, end))
            },
        }
    }
}

/// A string literal after optional whitespace.
pub open spec fn sp_string(s: Seq<char>, i: int) -> Option<(Seq<char>, int)> {
    let a = sp_ws(s, i);
    if a < s.len() && s[a] == '"' {
        sp_str_body(s, a + 1)
    } else {
        None
    }
}

pub fn p_string(s: &Vec<char>, i: usize) -> (r: Option<(Vec<char>, usize)>)
    requires
        i <= s.len(),
    ensures
        match r {
            Some((v, j)) => sp_string(s@, i as int) == Some((v@, j as int)) && i < j <= s@.len(),
            None => sp_string(s@, i as int) is None,
        },
{
    let a = p_ws(s, i);
    if a < s.len() && s[a] == '"' {
        p_str_body(s, a + 1)
    } else {
        None
    }
}

} // verus!

verus! {

/// A maximal run of decimal digits, at least one.
pub open spec fn sp_digits(s: Seq<char>, i: int) -> Option<(Seq<char>, int)>
    decreases s.len() - i,
{
    if 0 <= i < s.len() && is_digit(s[i]) {
        match sp_digits(s, i + 1) {
            None => Some((seq![s[i]], i + 1)),
            Some((t, j)) => Some((seq![s[i]] + t, j)),
        }
    } else {
        None
    }
}

fn is_digit_x(c: char) -> (r: bool)
    ensures
        r == is_digit(c),
{
    let v = c as u32;
    48 <= v && v <= 57
}

pub fn p_digits(s: &Vec<char>, i: usize) -> (r: Option<(Vec<char>, usize)>)
    requires
        i <= s.len(),
    ensures
        match r {
            Some((v, j)) => sp_digits(s@, i as int) == Some((v@, j as int)) && i < j <= s@.len(),
            None => sp_digits(s@, i as int) is None,
        },
    decreases s@.len() - i,
{
    if i < s.len() && is_digit_x(s[i]) {
        match p_digits(s, i + 1) {
            None => {
                let mut v: Vec<char> = Vec::new();
                v.push(s[i]);
                assert(v@ =~= seq![s@[i as int]]);
                Some((v, i + 1))
            },
            Some((t, j)) => {
                let mut t = t;
                t.insert(0, s[i]);
                assert(t@ =~= seq![s@[i as int]] + t@.subrange(1, t@.len() as int));
                Some((t, j))
            },
        }
    } else {
        None
    }
}

/// Every character of a digit run is a digit.
pub proof fn lemma_sp_digits_all_digits(s: Seq<char>, i: int)
    ensures
        sp_digits(s, i) matches Some((t, j)) ==> forall|k: int|
            0 <= k < t.len() ==> is_digit(#[trigger] t[k]),
    decreases s.len() - i,
{
    if 0 <= i < s.len() && is_digit(s[i]) {
        lemma_sp_digits_all_digits(s, i + 1);
    }
}

/// A digit string's value is not negative.
pub proof fn lemma_digits_val_nonneg(t: Seq<char>)
    requires
        forall|k: int| 0 <= k < t.len() ==> is_digit(#[trigger] t[k]),
    ensures
        digits_val(t) >= 0,
    decreases t.len(),
{
    if t.len() > 0 {
        lemma_digits_val_nonneg(t.drop_last());
    }
}

/// A digit string's value bounds the value of each of its prefixes.
pub proof fn lemma_digits_val_mono(t: Seq<char>, n: int)
    requires
        0 <= n <= t.len(),
        forall|k: int| 0 <= k < t.len() ==> is_digit(#[trigger] t[k]),
    ensures
        digits_val(t) >= digits_val(t.take(n)),
    decreases t.len() - n,
{
    if n == t.len() {
        assert(t.take(n) =~= t);
    } else {
        assert(t.drop_last().take(n) =~= t.take(n));
        lemma_digits_val_mono(t.drop_last(), n);
        lemma_digits_val_nonneg(t.drop_last());
        assert(digit_val(t.last()) >= 0);
    }
}

/// The value of a digit string, or nothing where it exceeds `u64::MAX`.
fn digits_to_u64(t: &Vec<char>) -> (r: Option<u64>)
    requires
        forall|k: int| 0 <= k < t@.len() ==> is_digit(#[trigger] t@[k]),
    ensures
        match r {
            Some(v) => v as int == digits_val(t@),
            None => digits_val(t@) > u64::MAX as int,
        },
{
    let mut acc: u64 = 0;
    let mut n: usize = 0;
    while n < t.len()
        invariant
            0 <= n <= t@.len(),
            forall|k: int| 0 <= k < t@.len() ==> is_digit(#[trigger] t@[k]),
            acc as int == digits_val(t@.take(n as int)),
        decreases t@.len() - n,
    {
        let c = t[n];
        assert(is_digit(t@[n as int]));
        let d: u64 = (c as u32 - 48) as u64;
        assert(d as int == digit_val(c));
        assert(d <= 9);
        if acc > u64::MAX / 10 || (acc == u64::MAX / 10 && d > u64::MAX % 10) {
            proof {
                assert(t@.take(n + 1 as int).drop_last() =~= t@.take(n as int));
                assert(t@.take(n + 1 as int).last() == t@[n as int]);
                assert(digits_val(t@.take(n + 1 as int)) > u64::MAX as int);
                lemma_digits_val_mono(t@, n + 1);
            }
            return None;
        }
        proof {
            assert(t@.take(n + 1 as int).drop_last() =~= t@.take(n as int));
            assert(t@.take(n + 1 as int).last() == t@[n as int]);
        }
        acc = acc * 10 + d;
        n = n + 1;
    }
    assert(t@.take(t@.len() as int) =~= t@);
    Some(acc)
}

/// An unsigned integer after optional whitespace: its mathematical
/// value and the position after its digits.
pub open spec fn sp_uint(s: Seq<char>, i: int) -> Option<(int, int)> {
    let a = sp_ws(s, i);
    match sp_digits(s, a) {
        None => None,
        Some((t, j)) => if t.len() > 1 && t[0] == '0' {
            None
        } else {
            Some((digits_val(t), j))
        },
    }
}

pub fn p_u64(s: &Vec<char>, i: usize) -> (r: Option<(u64, usize)>)
    requires
        i <= s.len(),
    ensures
        match r {
            Some((v, j)) => sp_uint(s@, i as int) == Some((v as int, j as int)) && i < j
                <= s@.len(),
            None => sp_uint(s@, i as int) matches Some((v, j)) ==> v > u64::MAX as int,
        },
{
    let a = p_ws(s, i);
    match p_digits(s, a) {
        None => None,
        Some((t, j)) => {
            if t.len() > 1 && t[0] == '0' {
                return None;
            }
            proof {
                lemma_sp_digits_all_digits(s@, a as int);
            }
            match digits_to_u64(&t) {
                None => None,
                Some(v) => Some((v, j)),
            }
        },
    }
}

pub fn p_u32(s: &Vec<char>, i: usize) -> (r: Option<(u32, usize)>)
    requires
        i <= s.len(),
    ensures
        match r {
            Some((v, j)) => sp_uint(s@, i as int) == Some((v as int, j as int)) && i < j
                <= s@.len(),
            None => sp_uint(s@, i as int) matches Some((v, j)) ==> v > u32::MAX as int,
        },
{
    match p_u64(s, i) {
        None => None,
        Some((v, j)) => {
            if v <= 0xFFFF_FFFF {
                Some((v as u32, j))
            } else {
                None
            }
        },
    }
}

/// A character that may stand in a JSON number token.
pub open spec fn is_numch(c: char) -> bool {
    is_digit(c) || c == '-' || c == '+' || c == '.' || c == 'e' || c == 'E'
}

fn is_numch_x(c: char) -> (r: bool)
    ensures
        r == is_numch(c),
{
    is_digit_x(c) || c == '-' || c == '+' || c == '.' || c == 'e' || c == 'E'
}

/// A maximal run of number characters, at least one: the raw token of
/// a JSON number, kept uninterpreted.
pub open spec fn sp_numrun(s: Seq<char>, i: int) -> Option<(Seq<char>, int)>
    decreases s.len() - i,
{
    if 0 <= i < s.len() && is_numch(s[i]) {
        match sp_numrun(s, i + 1) {
            None => Some((seq![s[i]], i + 1)),
            Some((t, j)) => Some((seq![s[i]] + t, j)),
        }
    } else {
        None
    }
}

pub fn p_numrun(s: &Vec<char>, i: usize) -> (r: Option<(Vec<char>, usize)>)
    requires
        i <= s.len(),
    ensures
        match r {
            Some((v, j)) => sp_numrun(s@, i as int) == Some((v@, j as int)) && i < j <= s@.len(),
            None => sp_numrun(s@, i as int) is None,
        },
    decreases s@.len() - i,
{
    if i < s.len() && is_numch_x(s[i]) {
        match p_numrun(s, i + 1) {
            None => {
                let mut v: Vec<char> = Vec::new();
                v.push(s[i]);
                assert(v@ =~= seq![s@[i as int]]);
                Some((v, i + 1))
            },
            Some((t, j)) => {
                let mut t = t;
                t.insert(0, s[i]);
                assert(t@ =~= seq![s@[i as int]] + t@.subrange(1, t@.len() as int));
                Some((t, j))
            },
        }
    } else {
        None
    }
}

/// A number token after optional whitespace.
pub open spec fn sp_numtok(s: Seq<char>, i: int) -> Option<(Seq<char>, int)> {
    let a = sp_ws(s, i);
    sp_numrun(s, a)
}

pub fn p_numtok(s: &Vec<char>, i: usize) -> (r: Option<(Vec<char>, usize)>)
    requires
        i <= s.len(),
    ensures
        match r {
            Some((v, j)) => sp_numtok(s@, i as int) == Some((v@, j as int)) && i < j <= s@.len(),
            None => sp_numtok(s@, i as int) is None,
        },
{
    let a = p_ws(s, i);
    p_numrun(s, a)
}

/// One expected punctuation character after optional whitespace.
pub open spec fn sp_char_tok(s: Seq<char>, i: int, c: char) -> Option<int> {
    let a = sp_ws(s, i);
    if a < s.len() && s[a] == c {
        Some(a + 1)
    } else {
        None
    }
}

pub fn p_char_tok(s: &Vec<char>, i: usize, c: char) -> (r: Option<usize>)
    requires
        i <= s.len(),
    ensures
        match r {
            Some(j) => sp_char_tok(s@, i as int, c) == Some(j as int) && i < j <= s@.len(),
            None => sp_char_tok(s@, i as int, c) is None,
        },
{
    let a = p_ws(s, i);
    if a < s.len() && s[a] == c {
        Some(a + 1)
    } else {
        None
    }
}

/// The literal `null` after optional whitespace.
pub open spec fn sp_null(s: Seq<char>, i: int) -> Option<int> {
    let a = sp_ws(s, i);
    sp_exact(s, a, "null"@)
}

pub fn p_null(s: &Vec<char>, i: usize) -> (r: Option<usize>)
    requires
        i <= s.len(),
    ensures
        match r {
            Some(j) => sp_null(s@, i as int) == Some(j as int) && i < j <= s@.len(),
            None => sp_null(s@, i as int) is None,
        },
{
    let a = p_ws(s, i);
    let q = str_chars("null");
    match p_exact(s, a, &q) {
        None => None,
        Some(j) => {
            proof {
                reveal_strlit("null");
            }
            Some(j)
        },
    }
}

/// The literal `true` or `false` after optional whitespace.
pub open spec fn sp_bool(s: Seq<char>, i: int) -> Option<(bool, int)> {
    let a = sp_ws(s, i);
    match sp_exact(s, a, "true"@) {
        Some(j) => Some((true, j)),
        None => match sp_exact(s, a, "false"@) {
            Some(j) => Some((false, j)),
            None => None,
        },
    }
}

pub fn p_bool(s: &Vec<char>, i: usize) -> (r: Option<(bool, usize)>)
    requires
        i <= s.len(),
    ensures
        match r {
            Some((v, j)) => sp_bool(s@, i as int) == Some((v, j as int)) && i < j <= s@.len(),
            None => sp_bool(s@, i as int) is None,
        },
{
    let a = p_ws(s, i);
    let qt = str_chars("true");
    match p_exact(s, a, &qt) {
        Some(j) => {
            proof {
                reveal_strlit("true");
            }
            Some((true, j))
        },
        None => {
            let qf = str_chars("false");
            match p_exact(s, a, &qf) {
                Some(j) => {
                    proof {
                        reveal_strlit("false");
                    }
                    Some((false, j))
                },
                None => None,
            }
        },
    }
}

} // verus!

verus! {

/// An unsigned integer that fits `u32`, as a member value.
pub open spec fn sp_u32f(s: Seq<char>, i: int) -> Option<(u32, int)> {
    match sp_uint(s, i) {
        None => None,
        Some((v, j)) => if 0 <= v <= u32::MAX as int {
            Some((v as u32, j))
        } else {
            None
        },
    }
}

pub fn p_u32f(s: &Vec<char>, i: usize) -> (r: Option<(u32, usize)>)
    requires
        i <= s.len(),
    ensures
        match r {
            Some((v, j)) => sp_u32f(s@, i as int) == Some((v, j as int)) && i < j <= s@.len(),
            None => sp_u32f(s@, i as int) is None,
        },
{
    match p_u32(s, i) {
        Some((v, j)) => Some((v, j)),
        None => {
            proof {
                let a = sp_ws(s@, i as int);
                if let Some((t, _j)) = sp_digits(s@, a) {
                    lemma_sp_digits_all_digits(s@, a);
                    lemma_digits_val_nonneg(t);
                }
            }
            None
        },
    }
}

/// An unsigned integer that fits `u64`, as a member value.
pub open spec fn sp_u64f(s: Seq<char>, i: int) -> Option<(u64, int)> {
    match sp_uint(s, i) {
        None => None,
        Some((v, j)) => if 0 <= v <= u64::MAX as int {
            Some((v as u64, j))
        } else {
            None
        },
    }
}

pub fn p_u64f(s: &Vec<char>, i: usize) -> (r: Option<(u64, usize)>)
    requires
        i <= s.len(),
    ensures
        match r {
            Some((v, j)) => sp_u64f(s@, i as int) == Some((v, j as int)) && i < j <= s@.len(),
            None => sp_u64f(s@, i as int) is None,
        },
{
    match p_u64(s, i) {
        Some((v, j)) => Some((v, j)),
        None => {
            proof {
                let a = sp_ws(s@, i as int);
                if let Some((t, _j)) = sp_digits(s@, a) {
                    lemma_sp_digits_all_digits(s@, a);
                    lemma_digits_val_nonneg(t);
                }
            }
            None
        },
    }
}

/// A member value that is either `null` or a `u32`.
pub open spec fn sp_u32_or_null(s: Seq<char>, i: int) -> Option<(Option<u32>, int)> {
    match sp_null(s, i) {
        Some(j) => Some((None, j)),
        None => match sp_u32f(s, i) {
            Some((v, j)) => Some((Some(v), j)),
            None => None,
        },
    }
}

pub fn p_u32_or_null(s: &Vec<char>, i: usize) -> (r: Option<(Option<u32>, usize)>)
    requires
        i <= s.len(),
    ensures
        match r {
            Some((v, j)) => sp_u32_or_null(s@, i as int) == Some((v, j as int)) && i < j
                <= s@.len(),
            None => sp_u32_or_null(s@, i as int) is None,
        },
{
    match p_null(s, i) {
        Some(j) => Some((None, j)),
        None => match p_u32f(s, i) {
            Some((v, j)) => Some((Some(v), j)),
            None => None,
        },
    }
}

/// A member value that is either `null` or a string.
pub open spec fn sp_string_or_null(s: Seq<char>, i: int) -> Option<(Option<Seq<char>>, int)> {
    match sp_null(s, i) {
        Some(j) => Some((None, j)),
        None => match sp_string(s, i) {
            Some((v, j)) => Some((Some(v), j)),
            None => None,
        },
    }
}

pub fn p_string_or_null(s: &Vec<char>, i: usize) -> (r: Option<(Option<Vec<char>>, usize)>)
    requires
        i <= s.len(),
    ensures
        match r {
            Some((v, j)) => sp_string_or_null(s@, i as int) == Some((v.deep_view(), j as int))
                && i < j <= s@.len(),
            None => sp_string_or_null(s@, i as int) is None,
        },
{
    match p_null(s, i) {
        Some(j) => Some((None, j)),
        None => match p_string(s, i) {
            Some((v, j)) => Some((Some(v), j)),
            None => None,
        },
    }
}

/// A member value that is either `null` or a boolean.
pub open spec fn sp_bool_or_null(s: Seq<char>, i: int) -> Option<(Option<bool>, int)> {
    match sp_null(s, i) {
        Some(j) => Some((None, j)),
        None => match sp_bool(s, i) {
            Some((v, j)) => Some((Some(v), j)),
            None => None,
        },
    }
}

pub fn p_bool_or_null(s: &Vec<char>, i: usize) -> (r: Option<(Option<bool>, usize)>)
    requires
        i <= s.len(),
    ensures
        match r {
            Some((v, j)) => sp_bool_or_null(s@, i as int) == Some((v, j as int)) && i < j
                <= s@.len(),
            None => sp_bool_or_null(s@, i as int) is None,
        },
{
    match p_null(s, i) {
        Some(j) => Some((None, j)),
        None => match p_bool(s, i) {
            Some((v, j)) => Some((Some(v), j)),
            None => None,
        },
    }
}

/// The items of a choices array, after the opening bracket: choices
/// separated by commas, closed by the bracket.
pub open spec fn sp_choices_items(s: Seq<char>, i: int) -> Option<(Seq<ChatChoiceV>, int)>
    decreases s.len() - i,
{
    if !(0 <= i <= s.len()) {
        None
    } else {
        match sp_choice(s, i) {
            None => None,
            Some((v, j)) => if !(i < j <= s.len()) {
                None
            } else {
                match sp_char_tok(s, j, ',') {
                    Some(j2) => if j < j2 <= s.len() {
                        match sp_choices_items(s, j2) {
                            None => None,
                            Some((t, e)) => Some((seq![v] + t, e)),
                        }
                    } else {
                        None
                    },
                    None => match sp_char_tok(s, j, ']') {
                        Some(e) => Some((seq![v], e)),
                        None => None,
                    },
                }
            },
        }
    }
}

pub fn p_choices_items(s: &Vec<char>, i: usize) -> (r: Option<(Vec<ChatChoice>, usize)>)
    requires
        i <= s.len(),
    ensures
        match r {
            Some((v, j)) => sp_choices_items(s@, i as int) == Some((v.deep_view(), j as int))
                && i < j <= s@.len(),
            None => sp_choices_items(s@, i as int) is None,
        },
    decreases s@.len() - i,
{
    match p_choice(s, i) {
        None => None,
        Some((v, j)) => {
            match p_char_tok(s, j, ',') {
                Some(j2) => {
                    match p_choices_items(s, j2) {
                        None => None,
                        Some((t, e)) => {
                            let ghost tv = t.deep_view();
                            let mut t = t;
                            t.insert(0, v);
                            proof {
                                assert(t.deep_view() =~= seq![v@] + tv);
                            }
                            Some((t, e))
                        },
                    }
                },
                None => {
                    match p_char_tok(s, j, ']') {
                        Some(e) => {
                            let mut t: Vec<ChatChoice> = Vec::new();
                            t.push(v);
                            proof {
                                assert(t.deep_view() =~= seq![v@]);
                            }
                            Some((t, e))
                        },
                        None => None,
                    }
                },
            }
        },
    }
}

/// A choices array: possibly empty, in brackets.
pub open spec fn sp_choices(s: Seq<char>, i: int) -> Option<(Seq<ChatChoiceV>, int)> {
    match sp_char_tok(s, i, '[') {
        None => None,
        Some(a) => match sp_char_tok(s, a, ']') {
            Some(e) => Some((Seq::empty(), e)),
            None => if 0 <= a <= s.len() {
                sp_choices_items(s, a)
            } else {
                None
            },
        },
    }
}

pub fn p_choices(s: &Vec<char>, i: usize) -> (r: Option<(Vec<ChatChoice>, usize)>)
    requires
        i <= s.len(),
    ensures
        match r {
            Some((v, j)) => sp_choices(s@, i as int) == Some((v.deep_view(), j as int)) && i < j
                <= s@.len(),
            None => sp_choices(s@, i as int) is None,
        },
{
    match p_char_tok(s, i, '[') {
        None => None,
        Some(a) => match p_char_tok(s, a, ']') {
            Some(e) => {
                let t: Vec<ChatChoice> = Vec::new();
                proof {
                    assert(t.deep_view() =~= Seq::<ChatChoiceV>::empty());
                }
                Some((t, e))
            },
            None => p_choices_items(s, a),
        },
    }
}

} // verus!

verus! {

/// The items of a streamed choices array, after the opening bracket.
pub open spec fn sp_dchoices_items(s: Seq<char>, i: int) -> Option<(Seq<ChatChoiceDeltaV>, int)>
    decreases s.len() - i,
{
    if !(0 <= i <= s.len()) {
        None
    } else {
        match sp_choice_delta(s, i) {
            None => None,
            Some((v, j)) => if !(i < j <= s.len()) {
                None
            } else {
                match sp_char_tok(s, j, ',') {
                    Some(j2) => if j < j2 <= s.len() {
                        match sp_dchoices_items(s, j2) {
                            None => None,
                            Some((t, e)) => Some((seq![v] + t, e)),
                        }
                    } else {
                        None
                    },
                    None => match sp_char_tok(s, j, ']') {
                        Some(e) => Some((seq![v], e)),
                        None => None,
                    },
                }
            },
        }
    }
}

pub fn p_dchoices_items(s: &Vec<char>, i: usize) -> (r: Option<(Vec<ChatChoiceDelta>, usize)>)
    requires
        i <= s.len(),
    ensures
        match r {
            Some((v, j)) => sp_dchoices_items(s@, i as int) == Some((v.deep_view(), j as int))
                && i < j <= s@.len(),
            None => sp_dchoices_items(s@, i as int) is None,
        },
    decreases s@.len() - i,
{
    match p_choice_delta(s, i) {
        None => None,
        Some((v, j)) => {
            match p_char_tok(s, j, ',') {
                Some(j2) => {
                    match p_dchoices_items(s, j2) {
                        None => None,
                        Some((t, e)) => {
                            let ghost tv = t.deep_view();
                            let mut t = t;
                            t.insert(0, v);
                            proof {
                                assert(t.deep_view() =~= seq![v@] + tv);
                            }
                            Some((t, e))
                        },
                    }
                },
                None => {
                    match p_char_tok(s, j, ']') {
                        Some(e) => {
                            let mut t: Vec<ChatChoiceDelta> = Vec::new();
                            t.push(v);
                            proof {
                                assert(t.deep_view() =~= seq![v@]);
                            }
                            Some((t, e))
                        },
                        None => None,
                    }
                },
            }
        },
    }
}

/// A streamed choices array: possibly empty, in brackets.
pub open spec fn sp_dchoices(s: Seq<char>, i: int) -> Option<(Seq<ChatChoiceDeltaV>, int)> {
    match sp_char_tok(s, i, '[') {
        None => None,
        Some(a) => match sp_char_tok(s, a, ']') {
            Some(e) => Some((Seq::empty(), e)),
            None => if 0 <= a <= s.len() {
                sp_dchoices_items(s, a)
            } else {
                None
            },
        },
    }
}

pub fn p_dchoices(s: &Vec<char>, i: usize) -> (r: Option<(Vec<ChatChoiceDelta>, usize)>)
    requires
        i <= s.len(),
    ensures
        match r {
            Some((v, j)) => sp_dchoices(s@, i as int) == Some((v.deep_view(), j as int)) && i < j
                <= s@.len(),
            None => sp_dchoices(s@, i as int) is None,
        },
{
    match p_char_tok(s, i, '[') {
        None => None,
        Some(a) => match p_char_tok(s, a, ']') {
            Some(e) => {
                let t: Vec<ChatChoiceDelta> = Vec::new();
                proof {
                    assert(t.deep_view() =~= Seq::<ChatChoiceDeltaV>::empty());
                }
                Some((t, e))
            },
            None => p_dchoices_items(s, a),
        },
    }
}

} // verus!

verus! {

/// The items of an embedding vector, after the opening bracket: number
/// tokens separated by commas, closed by the bracket.
pub open spec fn sp_numtoks_items(s: Seq<char>, i: int) -> Option<(Seq<Seq<char>>, int)>
    decreases s.len() - i,
{
    if !(0 <= i <= s.len()) {
        None
    } else {
        match sp_numtok(s, i) {
            None => None,
            Some((v, j)) => if !(i < j <= s.len()) {
                None
            } else {
                match sp_char_tok(s, j, ',') {
                    Some(j2) => if j < j2 <= s.len() {
                        match sp_numtoks_items(s, j2) {
                            None => None,
                            Some((t, e)) => Some((seq![v] + t, e)),
                        }
                    } else {
                        None
                    },
                    None => match sp_char_tok(s, j, ']') {
                        Some(e) => Some((seq![v], e)),
                        None => None,
                    },
                }
            },
        }
    }
}

pub fn p_numtoks_items(s: &Vec<char>, i: usize) -> (r: Option<(Vec<String>, usize)>)
    requires
        i <= s.len(),
    ensures
        match r {
            Some((v, j)) => sp_numtoks_items(s@, i as int) == Some((v.deep_view(), j as int))
                && i < j <= s@.len(),
            None => sp_numtoks_items(s@, i as int) is None,
        },
    decreases s@.len() - i,
{
    match p_numtok(s, i) {
        None => None,
        Some((v, j)) => {
            let vs = string_from_chars(&v);
            match p_char_tok(s, j, ',') {
                Some(j2) => {
                    match p_numtoks_items(s, j2) {
                        None => None,
                        Some((t, e)) => {
                            let ghost tv = t.deep_view();
                            let mut t = t;
                            t.insert(0, vs);
                            proof {
                                assert(t.deep_view() =~= seq![v@] + tv);
                            }
                            Some((t, e))
                        },
                    }
                },
                None => {
                    match p_char_tok(s, j, ']') {
                        Some(e) => {
                            let mut t: Vec<String> = Vec::new();
                            t.push(vs);
                            proof {
                                assert(t.deep_view() =~= seq![v@]);
                            }
                            Some((t, e))
                        },
                        None => None,
                    }
                },
            }
        },
    }
}

/// An embedding vector: possibly empty, in brackets.
pub open spec fn sp_numtoks(s: Seq<char>, i: int) -> Option<(Seq<Seq<char>>, int)> {
    match sp_char_tok(s, i, '[') {
        None => None,
        Some(a) => match sp_char_tok(s, a, ']') {
            Some(e) => Some((Seq::empty(), e)),
            None => if 0 <= a <= s.len() {
                sp_numtoks_items(s, a)
            } else {
                None
            },
        },
    }
}

pub fn p_numtoks(s: &Vec<char>, i: usize) -> (r: Option<(Vec<String>, usize)>)
    requires
        i <= s.len(),
    ensures
        match r {
            Some((v, j)) => sp_numtoks(s@, i as int) == Some((v.deep_view(), j as int)) && i < j
                <= s@.len(),
            None => sp_numtoks(s@, i as int) is None,
        },
{
    match p_char_tok(s, i, '[') {
        None => None,
        Some(a) => match p_char_tok(s, a, ']') {
            Some(e) => {
                let t: Vec<String> = Vec::new();
                proof {
                    assert(t.deep_view() =~= Seq::<Seq<char>>::empty());
                }
                Some((t, e))
            },
            None => p_numtoks_items(s, a),
        },
    }
}

/// The items of the embedding data array, after the opening bracket.
pub open spec fn sp_edata_items(s: Seq<char>, i: int) -> Option<(Seq<EmbeddingDataV>, int)>
    decreases s.len() - i,
{
    if !(0 <= i <= s.len()) {
        None
    } else {
        match sp_edata(s, i) {
            None => None,
            Some((v, j)) => if !(i < j <= s.len()) {
                None
            } else {
                match sp_char_tok(s, j, ',') {
                    Some(j2) => if j < j2 <= s.len() {
                        match sp_edata_items(s, j2) {
                            None => None,
                            Some((t, e)) => Some((seq![v] + t, e)),
                        }
                    } else {
                        None
                    },
                    None => match sp_char_tok(s, j, ']') {
                        Some(e) => Some((seq![v], e)),
                        None => None,
                    },
                }
            },
        }
    }
}

pub fn p_edata_items(s: &Vec<char>, i: usize) -> (r: Option<(Vec<EmbeddingData>, usize)>)
    requires
        i <= s.len(),
    ensures
        match r {
            Some((v, j)) => sp_edata_items(s@, i as int) == Some((v.deep_view(), j as int))
                && i < j <= s@.len(),
            None => sp_edata_items(s@, i as int) is None,
        },
    decreases s@.len() - i,
{
    match p_edata(s, i) {
        None => None,
        Some((v, j)) => {
            match p_char_tok(s, j, ',') {
                Some(j2) => {
                    match p_edata_items(s, j2) {
                        None => None,
                        Some((t, e)) => {
                            let ghost tv = t.deep_view();
                            let mut t = t;
                            t.insert(0, v);
                            proof {
                                assert(t.deep_view() =~= seq![v@] + tv);
                            }
                            Some((t, e))
                        },
                    }
                },
                None => {
                    match p_char_tok(s, j, ']') {
                        Some(e) => {
                            let mut t: Vec<EmbeddingData> = Vec::new();
                            t.push(v);
                            proof {
                                assert(t.deep_view() =~= seq![v@]);
                            }
                            Some((t, e))
                        },
                        None => None,
                    }
                },
            }
        },
    }
}

/// The embedding data array: possibly empty, in brackets.
pub open spec fn sp_edata_arr(s: Seq<char>, i: int) -> Option<(Seq<EmbeddingDataV>, int)> {
    match sp_char_tok(s, i, '[') {
        None => None,
        Some(a) => match sp_char_tok(s, a, ']') {
            Some(e) => Some((Seq::empty(), e)),
            None => if 0 <= a <= s.len() {
                sp_edata_items(s, a)
            } else {
                None
            },
        },
    }
}

pub fn p_edata_arr(s: &Vec<char>, i: usize) -> (r: Option<(Vec<EmbeddingData>, usize)>)
    requires
        i <= s.len(),
    ensures
        match r {
            Some((v, j)) => sp_edata_arr(s@, i as int) == Some((v.deep_view(), j as int)) && i
                < j <= s@.len(),
            None => sp_edata_arr(s@, i as int) is None,
        },
{
    match p_char_tok(s, i, '[') {
        None => None,
        Some(a) => match p_char_tok(s, a, ']') {
            Some(e) => {
                let t: Vec<EmbeddingData> = Vec::new();
                proof {
                    assert(t.deep_view() =~= Seq::<EmbeddingDataV>::empty());
                }
                Some((t, e))
            },
            None => p_edata_items(s, a),
        },
    }
}

/// A whole document holding one non-streaming chat completion
/// response, with nothing but whitespace after it.
pub open spec fn sp_chat_response_doc(s: Seq<char>) -> Option<ChatCompletionResponseV> {
    match sp_chat_response(s, 0) {
        None => None,
        Some((v, j)) => if 0 <= j <= s.len() && sp_ws(s, j) == s.len() {
            Some(v)
        } else {
            None
        },
    }
}

/// Parse a non-streaming chat completion response body.
pub fn parse_chat_completion_response(s: &str) -> (r: Option<ChatCompletionResponse>)
    ensures
        match r {
            Some(v) => sp_chat_response_doc(s@) == Some(v@),
            None => sp_chat_response_doc(s@) is None,
        },
{
    let cs = str_chars(s);
    match p_chat_response(&cs, 0) {
        None => None,
        Some((v, j)) => {
            let e = p_ws(&cs, j);
            if e == cs.len() {
                Some(v)
            } else {
                None
            }
        },
    }
}

/// A whole document holding one streamed chunk, with nothing but
/// whitespace after it.
pub open spec fn sp_chunk_doc(s: Seq<char>) -> Option<ChatCompletionChunkV> {
    match sp_chunk(s, 0) {
        None => None,
        Some((v, j)) => if 0 <= j <= s.len() && sp_ws(s, j) == s.len() {
            Some(v)
        } else {
            None
        },
    }
}

/// Parse one streamed chat completion chunk.
pub fn parse_chat_completion_chunk(s: &str) -> (r: Option<ChatCompletionChunk>)
    ensures
        match r {
            Some(v) => sp_chunk_doc(s@) == Some(v@),
            None => sp_chunk_doc(s@) is None,
        },
{
    let cs = str_chars(s);
    match p_chunk(&cs, 0) {
        None => None,
        Some((v, j)) => {
            let e = p_ws(&cs, j);
            if e == cs.len() {
                Some(v)
            } else {
                None
            }
        },
    }
}

/// A whole document holding one text completion response.
pub open spec fn sp_completion_doc(s: Seq<char>) -> Option<CompletionResponseV> {
    match sp_completion(s, 0) {
        None => None,
        Some((v, j)) => if 0 <= j <= s.len() && sp_ws(s, j) == s.len() {
            Some(v)
        } else {
            None
        },
    }
}

/// Parse a text completion response body.
pub fn parse_completion_response(s: &str) -> (r: Option<CompletionResponse>)
    ensures
        match r {
            Some(v) => sp_completion_doc(s@) == Some(v@),
            None => sp_completion_doc(s@) is None,
        },
{
    let cs = str_chars(s);
    match p_completion(&cs, 0) {
        None => None,
        Some((v, j)) => {
            let e = p_ws(&cs, j);
            if e == cs.len() {
                Some(v)
            } else {
                None
            }
        },
    }
}

/// A whole document holding one embedding response.
pub open spec fn sp_embedding_doc(s: Seq<char>) -> Option<EmbeddingResponseV> {
    match sp_embedding(s, 0) {
        None => None,
        Some((v, j)) => if 0 <= j <= s.len() && sp_ws(s, j) == s.len() {
            Some(v)
        } else {
            None
        },
    }
}

/// Parse an embedding response body.
pub fn parse_embedding_response(s: &str) -> (r: Option<EmbeddingResponse>)
    ensures
        match r {
            Some(v) => sp_embedding_doc(s@) == Some(v@),
            None => sp_embedding_doc(s@) is None,
        },
{
    let cs = str_chars(s);
    match p_embedding(&cs, 0) {
        None => None,
        Some((v, j)) => {
            let e = p_ws(&cs, j);
            if e == cs.len() {
                Some(v)
            } else {
                None
            }
        },
    }
}

} // verus!

verus! {

/// The value behind an optional member: absent and `null` both mean
/// the field is unset.
pub open spec fn opt_flat<T>(o: Option<Option<T>>) -> Option<T> {
    match o {
        None => None,
        Some(x) => x,
    }
}

/// An object member's key: a JSON string followed by a colon, with
/// whitespace allowed around both.
pub open spec fn sp_member_key(s: Seq<char>, i: int) -> Option<(Seq<char>, int)> {
    match sp_string(s, i) {
        None => None,
        Some((k, j)) => match sp_char_tok(s, j, ':') {
            None => None,
            Some(j2) => Some((k, j2)),
        },
    }
}

pub fn p_member_key(s: &Vec<char>, i: usize) -> (r: Option<(Vec<char>, usize)>)
    requires
        i <= s.len(),
    ensures
        match r {
            Some((k, j)) => sp_member_key(s@, i as int) == Some((k@, j as int)) && i < j
                <= s@.len(),
            None => sp_member_key(s@, i as int) is None,
        },
{
    match p_string(s, i) {
        None => None,
        Some((k, j)) => match p_char_tok(s, j, ':') {
            None => None,
            Some(j2) => Some((k, j2)),
        },
    }
}

/// Whether a parsed key is a given member name.
fn vec_eq_str(k: &Vec<char>, t: &str) -> (r: bool)
    ensures
        r == (k@ == t@),
{
    let tc = str_chars(t);
    if k.len() != tc.len() {
        proof {
            if k@ == t@ {
                assert(k@.len() == t@.len());
            }
        }
        return false;
    }
    match p_exact(k, 0, &tc) {
        Some(_) => {
            proof {
                assert(k@.subrange(0, t@.len() as int) =~= k@);
            }
            true
        },
        None => {
            proof {
                if k@ == t@ {
                    assert(k@.subrange(0, t@.len() as int) =~= k@);
                    assert(sp_exact(k@, 0, t@) is Some);
                }
            }
            false
        },
    }
}

/// Skip one JSON value of any form, yielding the position after it.
/// Unknown members carry arbitrary values; only their extent matters.
pub open spec fn sp_skip_value(s: Seq<char>, i: int) -> Option<int>
    decreases s.len() - i, 0int,
{
    let a = sp_ws(s, i);
    if !(i <= a && a < s.len()) {
        None
    } else if s[a] == '"' {
        match sp_str_body(s, a + 1) {
            None => None,
            Some((t, e)) => Some(e),
        }
    } else if s[a] == '{' {
        sp_skip_obj(s, a + 1)
    } else if s[a] == '[' {
        sp_skip_arr(s, a + 1)
    } else if s[a] == 't' {
        sp_exact(s, a, "true"@)
    } else if s[a] == 'f' {
        sp_exact(s, a, "false"@)
    } else if s[a] == 'n' {
        sp_exact(s, a, "null"@)
    } else if is_numch(s[a]) {
        match sp_numrun(s, a) {
            None => None,
            Some((t, e)) => Some(e),
        }
    } else {
        None
    }
}

/// Skip the rest of an object, entered after its opening brace or
/// after a member's comma.
pub open spec fn sp_skip_obj(s: Seq<char>, i: int) -> Option<int>
    decreases s.len() - i, 1int,
{
    let a = sp_ws(s, i);
    if !(i <= a && a < s.len()) {
        None
    } else if s[a] == '}' {
        Some(a + 1)
    } else {
        match sp_member_key(s, i) {
            None => None,
            Some((k, j)) => if !(i < j && j <= s.len()) {
                None
            } else {
                match sp_skip_value(s, j) {
                    None => None,
                    Some(j2) => if !(j < j2 && j2 <= s.len()) {
                        None
                    } else {
                        match sp_char_tok(s, j2, ',') {
                            Some(j3) => if j2 < j3 && j3 <= s.len() {
                                sp_skip_obj(s, j3)
                            } else {
                                None
                            },
                            None => sp_char_tok(s, j2, '}'),
                        }
                    },
                }
            },
        }
    }
}

/// Skip the rest of an array, entered after its opening bracket or
/// after an element's comma.
pub open spec fn sp_skip_arr(s: Seq<char>, i: int) -> Option<int>
    decreases s.len() - i, 1int,
{
    let a = sp_ws(s, i);
    if !(i <= a && a < s.len()) {
        None
    } else if s[a] == ']' {
        Some(a + 1)
    } else {
        match sp_skip_value(s, i) {
            None => None,
            Some(j2) => if !(i < j2 && j2 <= s.len()) {
                None
            } else {
                match sp_char_tok(s, j2, ',') {
                    Some(j3) => if j2 < j3 && j3 <= s.len() {
                        sp_skip_arr(s, j3)
                    } else {
                        None
                    },
                    None => sp_char_tok(s, j2, ']'),
                }
            },
        }
    }
}

pub fn p_skip_value(s: &Vec<char>, i: usize) -> (r: Option<usize>)
    requires
        i <= s.len(),
    ensures
        match r {
            Some(j) => sp_skip_value(s@, i as int) == Some(j as int) && i < j <= s@.len(),
            None => sp_skip_value(s@, i as int) is None,
        },
    decreases s@.len() - i, 0nat,
{
    let a = p_ws(s, i);
    if a >= s.len() {
        return None;
    }
    let c = s[a];
    if c == '"' {
        match p_str_body(s, a + 1) {
            None => None,
            Some((_t, e)) => Some(e),
        }
    } else if c == '{' {
        p_skip_obj(s, a + 1)
    } else if c == '[' {
        p_skip_arr(s, a + 1)
    } else if c == 't' {
        let q = str_chars("true");
        match p_exact(s, a, &q) {
            None => None,
            Some(e) => {
                proof {
                    reveal_strlit("true");
                }
                Some(e)
            },
        }
    } else if c == 'f' {
        let q = str_chars("false");
        match p_exact(s, a, &q) {
            None => None,
            Some(e) => {
                proof {
                    reveal_strlit("false");
                }
                Some(e)
            },
        }
    } else if c == 'n' {
        let q = str_chars("null");
        match p_exact(s, a, &q) {
            None => None,
            Some(e) => {
                proof {
                    reveal_strlit("null");
                }
                Some(e)
            },
        }
    } else if is_numch_x(c) {
        match p_numrun(s, a) {
            None => None,
            Some((_t, e)) => Some(e),
        }
    } else {
        None
    }
}

pub fn p_skip_obj(s: &Vec<char>, i: usize) -> (r: Option<usize>)
    requires
        i <= s.len(),
    ensures
        match r {
            Some(j) => sp_skip_obj(s@, i as int) == Some(j as int) && i <= j <= s@.len(),
            None => sp_skip_obj(s@, i as int) is None,
        },
    decreases s@.len() - i, 1nat,
{
    let a = p_ws(s, i);
    if a >= s.len() {
        return None;
    }
    if s[a] == '}' {
        return Some(a + 1);
    }
    match p_member_key(s, i) {
        None => None,
        Some((_k, j)) => match p_skip_value(s, j) {
            None => None,
            Some(j2) => match p_char_tok(s, j2, ',') {
                Some(j3) => p_skip_obj(s, j3),
                None => p_char_tok(s, j2, '}'),
            },
        },
    }
}

pub fn p_skip_arr(s: &Vec<char>, i: usize) -> (r: Option<usize>)
    requires
        i <= s.len(),
    ensures
        match r {
            Some(j) => sp_skip_arr(s@, i as int) == Some(j as int) && i <= j <= s@.len(),
            None => sp_skip_arr(s@, i as int) is None,
        },
    decreases s@.len() - i, 1nat,
{
    let a = p_ws(s, i);
    if a >= s.len() {
        return None;
    }
    if s[a] == ']' {
        return Some(a + 1);
    }
    match p_skip_value(s, i) {
        None => None,
        Some(j2) => match p_char_tok(s, j2, ',') {
            Some(j3) => p_skip_arr(s, j3),
            None => p_char_tok(s, j2, ']'),
        },
    }
}

} // verus!


verus! {

/// Finish a message object: the required members must all have been
/// seen; an optional member that was absent or `null` is unset.
pub open spec fn sp_message_fin(a_role: Option<Seq<char>>, a_content: Option<Seq<char>>, e: int) -> Option<(MessageV, int)> {
    match (a_role, a_content) {
        (Some(role), Some(content)) => Some((MessageV { role: role, content: content }, e)),
        _ => None,
    }
}

fn p_message_fin(a_role: Option<Vec<char>>, a_content: Option<Vec<char>>, e: usize) -> (r: Option<(Message, usize)>)
    ensures
        match r {
            Some((v, j)) => j == e && sp_message_fin(a_role.deep_view(), a_content.deep_view(), e as int) == Some((v@, e as int)),
            None => sp_message_fin(a_role.deep_view(), a_content.deep_view(), e as int) is None,
        },
{
    match (a_role, a_content) {
        (Some(role), Some(content)) => {
            proof {
                assert(role.deep_view() =~= role@);
            }
            proof {
                assert(content.deep_view() =~= content@);
            }

            Some((Message { role: string_from_chars(&role), content: string_from_chars(&content) }, e))
        },
        _ => None,
    }
}

/// The members of a message object, in any order: a known member is
/// read by its type, a repeated member is an error, and an unknown
/// member is skipped.
pub open spec fn sp_message_fold(s: Seq<char>, i: int, a_role: Option<Seq<char>>, a_content: Option<Seq<char>>) -> Option<(MessageV, int)>
    decreases s.len() - i,
{
    match sp_member_key(s, i) {
        None => None,
        Some((k, j)) => if !(i < j && j <= s.len()) {
            None
        } else {
            let step = if k == "role"@ {
                if a_role is Some {
                    None
                } else {
                    match sp_string(s, j) {
                        None => None,
                        Some((v, j2)) => Some(((Some(v), a_content), j2)),
                    }
                }
            } else if k == "content"@ {
                if a_content is Some {
                    None
                } else {
                    match sp_string(s, j) {
                        None => None,
                        Some((v, j2)) => Some(((a_role, Some(v)), j2)),
                    }
                }
            } else {
                match sp_skip_value(s, j) {
                    None => None,
                    Some(j2) => Some(((a_role, a_content), j2)),
                }
            };
            match step {
                None => None,
                Some((acc, j2)) => if !(j < j2 && j2 <= s.len()) {
                    None
                } else {
                    match sp_char_tok(s, j2, ',') {
                        Some(j3) => if j2 < j3 && j3 <= s.len() {
                            sp_message_fold(s, j3, acc.0, acc.1)
                        } else {
                            None
                        },
                        None => match sp_char_tok(s, j2, '}') {
                            None => None,
                            Some(e) => sp_message_fin(acc.0, acc.1, e),
                        },
                    }
                },
            }
        },
    }
}

pub fn p_message_fold(s: &Vec<char>, i: usize, a_role: Option<Vec<char>>, a_content: Option<Vec<char>>) -> (r: Option<(Message, usize)>)
    requires
        i <= s.len(),
    ensures
        match r {
            Some((v, j)) => sp_message_fold(s@, i as int, a_role.deep_view(), a_content.deep_view()) == Some((v@, j as int)) && i < j
                <= s@.len(),
            None => sp_message_fold(s@, i as int, a_role.deep_view(), a_content.deep_view()) is None,
        },
    decreases s@.len() - i,
{
    match p_member_key(s, i) {
        None => None,
        Some((k, j)) => {
            let step: Option<((Option<Vec<char>>, Option<Vec<char>>), usize)> = if vec_eq_str(&k, "role") {
                if a_role.is_some() {
                    None
                } else {
                    match p_string(s, j) {
                        None => None,
                        Some((v, j2)) => {
                            proof {
                            assert(v.deep_view() =~= v@);
                        }
                        Some(((Some(v), a_content), j2))
                        },
                    }
                }
            } else if vec_eq_str(&k, "content") {
                if a_content.is_some() {
                    None
                } else {
                    match p_string(s, j) {
                        None => None,
                        Some((v, j2)) => {
                            proof {
                            assert(v.deep_view() =~= v@);
                        }
                        Some(((a_role, Some(v)), j2))
                        },
                    }
                }
            } else {
                match p_skip_value(s, j) {
                    None => None,
                    Some(j2) => Some(((a_role, a_content), j2)),
                }
            };
            match step {
                None => None,
                Some((acc, j2)) => {
                    match p_char_tok(s, j2, ',') {
                        Some(j3) => p_message_fold(s, j3, acc.0, acc.1),
                        None => match p_char_tok(s, j2, '}') {
                            None => None,
                            Some(e) => p_message_fin(acc.0, acc.1, e),
                        },
                    }
                },
            }
        },
    }
}

/// A message object.
pub open spec fn sp_message(s: Seq<char>, i: int) -> Option<(MessageV, int)> {
    match sp_char_tok(s, i, '{') {
        None => None,
        Some(o) => if !(0 <= o && o <= s.len()) {
            None
        } else {
            match sp_char_tok(s, o, '}') {
                Some(e) => sp_message_fin(None, None, e),
                None => sp_message_fold(s, o, None, None),
            }
        },
    }
}

pub fn p_message(s: &Vec<char>, i: usize) -> (r: Option<(Message, usize)>)
    requires
        i <= s.len(),
    ensures
        match r {
            Some((v, j)) => sp_message(s@, i as int) == Some((v@, j as int)) && i < j <= s@.len(),
            None => sp_message(s@, i as int) is None,
        },
{
    match p_char_tok(s, i, '{') {
        None => None,
        Some(o) => match p_char_tok(s, o, '}') {
            Some(e) => p_message_fin(None, None, e),
            None => p_message_fold(s, o, None, None),
        },
    }
}

} // verus!


verus! {

/// Finish a usage object: the required members must all have been
/// seen; an optional member that was absent or `null` is unset.
pub open spec fn sp_usage_fin(a_prompt_tokens: Option<u32>, a_completion_tokens: Option<Option<u32>>, a_total_tokens: Option<u32>, e: int) -> Option<(UsageV, int)> {
    match (a_prompt_tokens, a_total_tokens) {
        (Some(prompt_tokens), Some(total_tokens)) => Some((UsageV { prompt_tokens: prompt_tokens, completion_tokens: opt_flat(a_completion_tokens), total_tokens: total_tokens }, e)),
        _ => None,
    }
}

fn p_usage_fin(a_prompt_tokens: Option<u32>, a_completion_tokens: Option<Option<u32>>, a_total_tokens: Option<u32>, e: usize) -> (r: Option<(Usage, usize)>)
    ensures
        match r {
            Some((v, j)) => j == e && sp_usage_fin(a_prompt_tokens, a_completion_tokens, a_total_tokens, e as int) == Some((v@, e as int)),
            None => sp_usage_fin(a_prompt_tokens, a_completion_tokens, a_total_tokens, e as int) is None,
        },
{
    match (a_prompt_tokens, a_total_tokens) {
        (Some(prompt_tokens), Some(total_tokens)) => {

            let completion_tokens_v = match a_completion_tokens {
                Some(x) => x,
                None => None,
            };
            Some((Usage { prompt_tokens: prompt_tokens, completion_tokens: completion_tokens_v, total_tokens: total_tokens }, e))
        },
        _ => None,
    }
}

/// The members of a usage object, in any order: a known member is
/// read by its type, a repeated member is an error, and an unknown
/// member is skipped.
pub open spec fn sp_usage_fold(s: Seq<char>, i: int, a_prompt_tokens: Option<u32>, a_completion_tokens: Option<Option<u32>>, a_total_tokens: Option<u32>) -> Option<(UsageV, int)>
    decreases s.len() - i,
{
    match sp_member_key(s, i) {
        None => None,
        Some((k, j)) => if !(i < j && j <= s.len()) {
            None
        } else {
            let step = if k == "prompt_tokens"@ {
                if a_prompt_tokens is Some {
                    None
                } else {
                    match sp_u32f(s, j) {
                        None => None,
                        Some((v, j2)) => Some(((Some(v), a_completion_tokens, a_total_tokens), j2)),
                    }
                }
            } else if k == "completion_tokens"@ {
                if a_completion_tokens is Some {
                    None
                } else {
                    match sp_u32_or_null(s, j) {
                        None => None,
                        Some((v, j2)) => Some(((a_prompt_tokens, Some(v), a_total_tokens), j2)),
                    }
                }
            } else if k == "total_tokens"@ {
                if a_total_tokens is Some {
                    None
                } else {
                    match sp_u32f(s, j) {
                        None => None,
                        Some((v, j2)) => Some(((a_prompt_tokens, a_completion_tokens, Some(v)), j2)),
                    }
                }
            } else {
                match sp_skip_value(s, j) {
                    None => None,
                    Some(j2) => Some(((a_prompt_tokens, a_completion_tokens, a_total_tokens), j2)),
                }
            };
            match step {
                None => None,
                Some((acc, j2)) => if !(j < j2 && j2 <= s.len()) {
                    None
                } else {
                    match sp_char_tok(s, j2, ',') {
                        Some(j3) => if j2 < j3 && j3 <= s.len() {
                            sp_usage_fold(s, j3, acc.0, acc.1, acc.2)
                        } else {
                            None
                        },
                        None => match sp_char_tok(s, j2, '}') {
                            None => None,
                            Some(e) => sp_usage_fin(acc.0, acc.1, acc.2, e),
                        },
                    }
                },
            }
        },
    }
}

pub fn p_usage_fold(s: &Vec<char>, i: usize, a_prompt_tokens: Option<u32>, a_completion_tokens: Option<Option<u32>>, a_total_tokens: Option<u32>) -> (r: Option<(Usage, usize)>)
    requires
        i <= s.len(),
    ensures
        match r {
            Some((v, j)) => sp_usage_fold(s@, i as int, a_prompt_tokens, a_completion_tokens, a_total_tokens) == Some((v@, j as int)) && i < j
                <= s@.len(),
            None => sp_usage_fold(s@, i as int, a_prompt_tokens, a_completion_tokens, a_total_tokens) is None,
        },
    decreases s@.len() - i,
{
    match p_member_key(s, i) {
        None => None,
        Some((k, j)) => {
            let step: Option<((Option<u32>, Option<Option<u32>>, Option<u32>), usize)> = if vec_eq_str(&k, "prompt_tokens") {
                if a_prompt_tokens.is_some() {
                    None
                } else {
                    match p_u32f(s, j) {
                        None => None,
                        Some((v, j2)) => {
                            Some(((Some(v), a_completion_tokens, a_total_tokens), j2))
                        },
                    }
                }
            } else if vec_eq_str(&k, "completion_tokens") {
                if a_completion_tokens.is_some() {
                    None
                } else {
                    match p_u32_or_null(s, j) {
                        None => None,
                        Some((v, j2)) => {
                            Some(((a_prompt_tokens, Some(v), a_total_tokens), j2))
                        },
                    }
                }
            } else if vec_eq_str(&k, "total_tokens") {
                if a_total_tokens.is_some() {
                    None
                } else {
                    match p_u32f(s, j) {
                        None => None,
                        Some((v, j2)) => {
                            Some(((a_prompt_tokens, a_completion_tokens, Some(v)), j2))
                        },
                    }
                }
            } else {
                match p_skip_value(s, j) {
                    None => None,
                    Some(j2) => Some(((a_prompt_tokens, a_completion_tokens, a_total_tokens), j2)),
                }
            };
            match step {
                None => None,
                Some((acc, j2)) => {
                    match p_char_tok(s, j2, ',') {
                        Some(j3) => p_usage_fold(s, j3, acc.0, acc.1, acc.2),
                        None => match p_char_tok(s, j2, '}') {
                            None => None,
                            Some(e) => p_usage_fin(acc.0, acc.1, acc.2, e),
                        },
                    }
                },
            }
        },
    }
}

/// A usage object.
pub open spec fn sp_usage(s: Seq<char>, i: int) -> Option<(UsageV, int)> {
    match sp_char_tok(s, i, '{') {
        None => None,
        Some(o) => if !(0 <= o && o <= s.len()) {
            None
        } else {
            match sp_char_tok(s, o, '}') {
                Some(e) => sp_usage_fin(None, None, None, e),
                None => sp_usage_fold(s, o, None, None, None),
            }
        },
    }
}

pub fn p_usage(s: &Vec<char>, i: usize) -> (r: Option<(Usage, usize)>)
    requires
        i <= s.len(),
    ensures
        match r {
            Some((v, j)) => sp_usage(s@, i as int) == Some((v@, j as int)) && i < j <= s@.len(),
            None => sp_usage(s@, i as int) is None,
        },
{
    match p_char_tok(s, i, '{') {
        None => None,
        Some(o) => match p_char_tok(s, o, '}') {
            Some(e) => p_usage_fin(None, None, None, e),
            None => p_usage_fold(s, o, None, None, None),
        },
    }
}

} // verus!


verus! {

/// Finish a delta object: the required members must all have been
/// seen; an optional member that was absent or `null` is unset.
pub open spec fn sp_delta_fin(a_role: Option<Option<Seq<char>>>, a_content: Option<Option<Seq<char>>>, e: int) -> Option<(DeltaV, int)> {
    match () {
        () => Some((DeltaV { role: opt_flat(a_role), content: opt_flat(a_content) }, e)),
        _ => None,
    }
}

fn p_delta_fin(a_role: Option<Option<Vec<char>>>, a_content: Option<Option<Vec<char>>>, e: usize) -> (r: Option<(Delta, usize)>)
    ensures
        match r {
            Some((v, j)) => j == e && sp_delta_fin(a_role.deep_view(), a_content.deep_view(), e as int) == Some((v@, e as int)),
            None => sp_delta_fin(a_role.deep_view(), a_content.deep_view(), e as int) is None,
        },
{
    match () {
        () => {

            let role_v: Option<String> = match a_role {
                Some(Some(v)) => {
                    proof {
                        assert(v.deep_view() =~= v@);
                    }
                    Some(string_from_chars(&v))
                },
                Some(None) => None,
                None => None,
            };
            let content_v: Option<String> = match a_content {
                Some(Some(v)) => {
                    proof {
                        assert(v.deep_view() =~= v@);
                    }
                    Some(string_from_chars(&v))
                },
                Some(None) => None,
                None => None,
            };
            Some((Delta { role: role_v, content: content_v }, e))
        },
        _ => None,
    }
}

/// The members of a delta object, in any order: a known member is
/// read by its type, a repeated member is an error, and an unknown
/// member is skipped.
pub open spec fn sp_delta_fold(s: Seq<char>, i: int, a_role: Option<Option<Seq<char>>>, a_content: Option<Option<Seq<char>>>) -> Option<(DeltaV, int)>
    decreases s.len() - i,
{
    match sp_member_key(s, i) {
        None => None,
        Some((k, j)) => if !(i < j && j <= s.len()) {
            None
        } else {
            let step = if k == "role"@ {
                if a_role is Some {
                    None
                } else {
                    match sp_string_or_null(s, j) {
                        None => None,
                        Some((v, j2)) => Some(((Some(v), a_content), j2)),
                    }
                }
            } else if k == "content"@ {
                if a_content is Some {
                    None
                } else {
                    match sp_string_or_null(s, j) {
                        None => None,
                        Some((v, j2)) => Some(((a_role, Some(v)), j2)),
                    }
                }
            } else {
                match sp_skip_value(s, j) {
                    None => None,
                    Some(j2) => Some(((a_role, a_content), j2)),
                }
            };
            match step {
                None => None,
                Some((acc, j2)) => if !(j < j2 && j2 <= s.len()) {
                    None
                } else {
                    match sp_char_tok(s, j2, ',') {
                        Some(j3) => if j2 < j3 && j3 <= s.len() {
                            sp_delta_fold(s, j3, acc.0, acc.1)
                        } else {
                            None
                        },
                        None => match sp_char_tok(s, j2, '}') {
                            None => None,
                            Some(e) => sp_delta_fin(acc.0, acc.1, e),
                        },
                    }
                },
            }
        },
    }
}

pub fn p_delta_fold(s: &Vec<char>, i: usize, a_role: Option<Option<Vec<char>>>, a_content: Option<Option<Vec<char>>>) -> (r: Option<(Delta, usize)>)
    requires
        i <= s.len(),
    ensures
        match r {
            Some((v, j)) => sp_delta_fold(s@, i as int, a_role.deep_view(), a_content.deep_view()) == Some((v@, j as int)) && i < j
                <= s@.len(),
            None => sp_delta_fold(s@, i as int, a_role.deep_view(), a_content.deep_view()) is None,
        },
    decreases s@.len() - i,
{
    match p_member_key(s, i) {
        None => None,
        Some((k, j)) => {
            let step: Option<((Option<Option<Vec<char>>>, Option<Option<Vec<char>>>), usize)> = if vec_eq_str(&k, "role") {
                if a_role.is_some() {
                    None
                } else {
                    match p_string_or_null(s, j) {
                        None => None,
                        Some((v, j2)) => {
                            Some(((Some(v), a_content), j2))
                        },
                    }
                }
            } else if vec_eq_str(&k, "content") {
                if a_content.is_some() {
                    None
                } else {
                    match p_string_or_null(s, j) {
                        None => None,
                        Some((v, j2)) => {
                            Some(((a_role, Some(v)), j2))
                        },
                    }
                }
            } else {
                match p_skip_value(s, j) {
                    None => None,
                    Some(j2) => Some(((a_role, a_content), j2)),
                }
            };
            match step {
                None => None,
                Some((acc, j2)) => {
                    match p_char_tok(s, j2, ',') {
                        Some(j3) => p_delta_fold(s, j3, acc.0, acc.1),
                        None => match p_char_tok(s, j2, '}') {
                            None => None,
                            Some(e) => p_delta_fin(acc.0, acc.1, e),
                        },
                    }
                },
            }
        },
    }
}

/// A delta object.
pub open spec fn sp_delta(s: Seq<char>, i: int) -> Option<(DeltaV, int)> {
    match sp_char_tok(s, i, '{') {
        None => None,
        Some(o) => if !(0 <= o && o <= s.len()) {
            None
        } else {
            match sp_char_tok(s, o, '}') {
                Some(e) => sp_delta_fin(None, None, e),
                None => sp_delta_fold(s, o, None, None),
            }
        },
    }
}

pub fn p_delta(s: &Vec<char>, i: usize) -> (r: Option<(Delta, usize)>)
    requires
        i <= s.len(),
    ensures
        match r {
            Some((v, j)) => sp_delta(s@, i as int) == Some((v@, j as int)) && i < j <= s@.len(),
            None => sp_delta(s@, i as int) is None,
        },
{
    match p_char_tok(s, i, '{') {
        None => None,
        Some(o) => match p_char_tok(s, o, '}') {
            Some(e) => p_delta_fin(None, None, e),
            None => p_delta_fold(s, o, None, None),
        },
    }
}

} // verus!


verus! {

/// Finish a choice object: the required members must all have been
/// seen; an optional member that was absent or `null` is unset.
pub open spec fn sp_choice_fin(a_index: Option<u32>, a_message: Option<MessageV>, a_finish_reason: Option<Option<Seq<char>>>, e: int) -> Option<(ChatChoiceV, int)> {
    match (a_index, a_message) {
        (Some(index), Some(message)) => Some((ChatChoiceV { index: index, message: message, finish_reason: opt_flat(a_finish_reason) }, e)),
        _ => None,
    }
}

fn p_choice_fin(a_index: Option<u32>, a_message: Option<Message>, a_finish_reason: Option<Option<Vec<char>>>, e: usize) -> (r: Option<(ChatChoice, usize)>)
    ensures
        match r {
            Some((v, j)) => j == e && sp_choice_fin(a_index, a_message.deep_view(), a_finish_reason.deep_view(), e as int) == Some((v@, e as int)),
            None => sp_choice_fin(a_index, a_message.deep_view(), a_finish_reason.deep_view(), e as int) is None,
        },
{
    match (a_index, a_message) {
        (Some(index), Some(message)) => {

            let finish_reason_v: Option<String> = match a_finish_reason {
                Some(Some(v)) => {
                    proof {
                        assert(v.deep_view() =~= v@);
                    }
                    Some(string_from_chars(&v))
                },
                Some(None) => None,
                None => None,
            };
            Some((ChatChoice { index: index, message: message, finish_reason: finish_reason_v }, e))
        },
        _ => None,
    }
}

/// The members of a choice object, in any order: a known member is
/// read by its type, a repeated member is an error, and an unknown
/// member is skipped.
pub open spec fn sp_choice_fold(s: Seq<char>, i: int, a_index: Option<u32>, a_message: Option<MessageV>, a_finish_reason: Option<Option<Seq<char>>>) -> Option<(ChatChoiceV, int)>
    decreases s.len() - i,
{
    match sp_member_key(s, i) {
        None => None,
        Some((k, j)) => if !(i < j && j <= s.len()) {
            None
        } else {
            let step = if k == "index"@ {
                if a_index is Some {
                    None
                } else {
                    match sp_u32f(s, j) {
                        None => None,
                        Some((v, j2)) => Some(((Some(v), a_message, a_finish_reason), j2)),
                    }
                }
            } else if k == "message"@ {
                if a_message is Some {
                    None
                } else {
                    match sp_message(s, j) {
                        None => None,
                        Some((v, j2)) => Some(((a_index, Some(v), a_finish_reason), j2)),
                    }
                }
            } else if k == "finish_reason"@ {
                if a_finish_reason is Some {
                    None
                } else {
                    match sp_string_or_null(s, j) {
                        None => None,
                        Some((v, j2)) => Some(((a_index, a_message, Some(v)), j2)),
                    }
                }
            } else {
                match sp_skip_value(s, j) {
                    None => None,
                    Some(j2) => Some(((a_index, a_message, a_finish_reason), j2)),
                }
            };
            match step {
                None => None,
                Some((acc, j2)) => if !(j < j2 && j2 <= s.len()) {
                    None
                } else {
                    match sp_char_tok(s, j2, ',') {
                        Some(j3) => if j2 < j3 && j3 <= s.len() {
                            sp_choice_fold(s, j3, acc.0, acc.1, acc.2)
                        } else {
                            None
                        },
                        None => match sp_char_tok(s, j2, '}') {
                            None => None,
                            Some(e) => sp_choice_fin(acc.0, acc.1, acc.2, e),
                        },
                    }
                },
            }
        },
    }
}

pub fn p_choice_fold(s: &Vec<char>, i: usize, a_index: Option<u32>, a_message: Option<Message>, a_finish_reason: Option<Option<Vec<char>>>) -> (r: Option<(ChatChoice, usize)>)
    requires
        i <= s.len(),
    ensures
        match r {
            Some((v, j)) => sp_choice_fold(s@, i as int, a_index, a_message.deep_view(), a_finish_reason.deep_view()) == Some((v@, j as int)) && i < j
                <= s@.len(),
            None => sp_choice_fold(s@, i as int, a_index, a_message.deep_view(), a_finish_reason.deep_view()) is None,
        },
    decreases s@.len() - i,
{
    match p_member_key(s, i) {
        None => None,
        Some((k, j)) => {
            let step: Option<((Option<u32>, Option<Message>, Option<Option<Vec<char>>>), usize)> = if vec_eq_str(&k, "index") {
                if a_index.is_some() {
                    None
                } else {
                    match p_u32f(s, j) {
                        None => None,
                        Some((v, j2)) => {
                            Some(((Some(v), a_message, a_finish_reason), j2))
                        },
                    }
                }
            } else if vec_eq_str(&k, "message") {
                if a_message.is_some() {
                    None
                } else {
                    match p_message(s, j) {
                        None => None,
                        Some((v, j2)) => {
                            Some(((a_index, Some(v), a_finish_reason), j2))
                        },
                    }
                }
            } else if vec_eq_str(&k, "finish_reason") {
                if a_finish_reason.is_some() {
                    None
                } else {
                    match p_string_or_null(s, j) {
                        None => None,
                        Some((v, j2)) => {
                            Some(((a_index, a_message, Some(v)), j2))
                        },
                    }
                }
            } else {
                match p_skip_value(s, j) {
                    None => None,
                    Some(j2) => Some(((a_index, a_message, a_finish_reason), j2)),
                }
            };
            match step {
                None => None,
                Some((acc, j2)) => {
                    match p_char_tok(s, j2, ',') {
                        Some(j3) => p_choice_fold(s, j3, acc.0, acc.1, acc.2),
                        None => match p_char_tok(s, j2, '}') {
                            None => None,
                            Some(e) => p_choice_fin(acc.0, acc.1, acc.2, e),
                        },
                    }
                },
            }
        },
    }
}

/// A choice object.
pub open spec fn sp_choice(s: Seq<char>, i: int) -> Option<(ChatChoiceV, int)> {
    match sp_char_tok(s, i, '{') {
        None => None,
        Some(o) => if !(0 <= o && o <= s.len()) {
            None
        } else {
            match sp_char_tok(s, o, '}') {
                Some(e) => sp_choice_fin(None, None, None, e),
                None => sp_choice_fold(s, o, None, None, None),
            }
        },
    }
}

pub fn p_choice(s: &Vec<char>, i: usize) -> (r: Option<(ChatChoice, usize)>)
    requires
        i <= s.len(),
    ensures
        match r {
            Some((v, j)) => sp_choice(s@, i as int) == Some((v@, j as int)) && i < j <= s@.len(),
            None => sp_choice(s@, i as int) is None,
        },
{
    match p_char_tok(s, i, '{') {
        None => None,
        Some(o) => match p_char_tok(s, o, '}') {
            Some(e) => p_choice_fin(None, None, None, e),
            None => p_choice_fold(s, o, None, None, None),
        },
    }
}

} // verus!


verus! {

/// Finish a streamed choice object: the required members must all have been
/// seen; an optional member that was absent or `null` is unset.
pub open spec fn sp_choice_delta_fin(a_index: Option<u32>, a_delta: Option<DeltaV>, a_finish_reason: Option<Option<Seq<char>>>, e: int) -> Option<(ChatChoiceDeltaV, int)> {
    match (a_index, a_delta) {
        (Some(index), Some(delta)) => Some((ChatChoiceDeltaV { index: index, delta: delta, finish_reason: opt_flat(a_finish_reason) }, e)),
        _ => None,
    }
}

fn p_choice_delta_fin(a_index: Option<u32>, a_delta: Option<Delta>, a_finish_reason: Option<Option<Vec<char>>>, e: usize) -> (r: Option<(ChatChoiceDelta, usize)>)
    ensures
        match r {
            Some((v, j)) => j == e && sp_choice_delta_fin(a_index, a_delta.deep_view(), a_finish_reason.deep_view(), e as int) == Some((v@, e as int)),
            None => sp_choice_delta_fin(a_index, a_delta.deep_view(), a_finish_reason.deep_view(), e as int) is None,
        },
{
    match (a_index, a_delta) {
        (Some(index), Some(delta)) => {

            let finish_reason_v: Option<String> = match a_finish_reason {
                Some(Some(v)) => {
                    proof {
                        assert(v.deep_view() =~= v@);
                    }
                    Some(string_from_chars(&v))
                },
                Some(None) => None,
                None => None,
            };
            Some((ChatChoiceDelta { index: index, delta: delta, finish_reason: finish_reason_v }, e))
        },
        _ => None,
    }
}

/// The members of a streamed choice object, in any order: a known member is
/// read by its type, a repeated member is an error, and an unknown
/// member is skipped.
pub open spec fn sp_choice_delta_fold(s: Seq<char>, i: int, a_index: Option<u32>, a_delta: Option<DeltaV>, a_finish_reason: Option<Option<Seq<char>>>) -> Option<(ChatChoiceDeltaV, int)>
    decreases s.len() - i,
{
    match sp_member_key(s, i) {
        None => None,
        Some((k, j)) => if !(i < j && j <= s.len()) {
            None
        } else {
            let step = if k == "index"@ {
                if a_index is Some {
                    None
                } else {
                    match sp_u32f(s, j) {
                        None => None,
                        Some((v, j2)) => Some(((Some(v), a_delta, a_finish_reason), j2)),
                    }
                }
            } else if k == "delta"@ {
                if a_delta is Some {
                    None
                } else {
                    match sp_delta(s, j) {
                        None => None,
                        Some((v, j2)) => Some(((a_index, Some(v), a_finish_reason), j2)),
                    }
                }
            } else if k == "finish_reason"@ {
                if a_finish_reason is Some {
                    None
                } else {
                    match sp_string_or_null(s, j) {
                        None => None,
                        Some((v, j2)) => Some(((a_index, a_delta, Some(v)), j2)),
                    }
                }
            } else {
                match sp_skip_value(s, j) {
                    None => None,
                    Some(j2) => Some(((a_index, a_delta, a_finish_reason), j2)),
                }
            };
            match step {
                None => None,
                Some((acc, j2)) => if !(j < j2 && j2 <= s.len()) {
                    None
                } else {
                    match sp_char_tok(s, j2, ',') {
                        Some(j3) => if j2 < j3 && j3 <= s.len() {
                            sp_choice_delta_fold(s, j3, acc.0, acc.1, acc.2)
                        } else {
                            None
                        },
                        None => match sp_char_tok(s, j2, '}') {
                            None => None,
                            Some(e) => sp_choice_delta_fin(acc.0, acc.1, acc.2, e),
                        },
                    }
                },
            }
        },
    }
}

pub fn p_choice_delta_fold(s: &Vec<char>, i: usize, a_index: Option<u32>, a_delta: Option<Delta>, a_finish_reason: Option<Option<Vec<char>>>) -> (r: Option<(ChatChoiceDelta, usize)>)
    requires
        i <= s.len(),
    ensures
        match r {
            Some((v, j)) => sp_choice_delta_fold(s@, i as int, a_index, a_delta.deep_view(), a_finish_reason.deep_view()) == Some((v@, j as int)) && i < j
                <= s@.len(),
            None => sp_choice_delta_fold(s@, i as int, a_index, a_delta.deep_view(), a_finish_reason.deep_view()) is None,
        },
    decreases s@.len() - i,
{
    match p_member_key(s, i) {
        None => None,
        Some((k, j)) => {
            let step: Option<((Option<u32>, Option<Delta>, Option<Option<Vec<char>>>), usize)> = if vec_eq_str(&k, "index") {
                if a_index.is_some() {
                    None
                } else {
                    match p_u32f(s, j) {
                        None => None,
                        Some((v, j2)) => {
                            Some(((Some(v), a_delta, a_finish_reason), j2))
                        },
                    }
                }
            } else if vec_eq_str(&k, "delta") {
                if a_delta.is_some() {
                    None
                } else {
                    match p_delta(s, j) {
                        None => None,
                        Some((v, j2)) => {
                            Some(((a_index, Some(v), a_finish_reason), j2))
                        },
                    }
                }
            } else if vec_eq_str(&k, "finish_reason") {
                if a_finish_reason.is_some() {
                    None
                } else {
                    match p_string_or_null(s, j) {
                        None => None,
                        Some((v, j2)) => {
                            Some(((a_index, a_delta, Some(v)), j2))
                        },
                    }
                }
            } else {
                match p_skip_value(s, j) {
                    None => None,
                    Some(j2) => Some(((a_index, a_delta, a_finish_reason), j2)),
                }
            };
            match step {
                None => None,
                Some((acc, j2)) => {
                    match p_char_tok(s, j2, ',') {
                        Some(j3) => p_choice_delta_fold(s, j3, acc.0, acc.1, acc.2),
                        None => match p_char_tok(s, j2, '}') {
                            None => None,
                            Some(e) => p_choice_delta_fin(acc.0, acc.1, acc.2, e),
                        },
                    }
                },
            }
        },
    }
}

/// A streamed choice object.
pub open spec fn sp_choice_delta(s: Seq<char>, i: int) -> Option<(ChatChoiceDeltaV, int)> {
    match sp_char_tok(s, i, '{') {
        None => None,
        Some(o) => if !(0 <= o && o <= s.len()) {
            None
        } else {
            match sp_char_tok(s, o, '}') {
                Some(e) => sp_choice_delta_fin(None, None, None, e),
                None => sp_choice_delta_fold(s, o, None, None, None),
            }
        },
    }
}

pub fn p_choice_delta(s: &Vec<char>, i: usize) -> (r: Option<(ChatChoiceDelta, usize)>)
    requires
        i <= s.len(),
    ensures
        match r {
            Some((v, j)) => sp_choice_delta(s@, i as int) == Some((v@, j as int)) && i < j <= s@.len(),
            None => sp_choice_delta(s@, i as int) is None,
        },
{
    match p_char_tok(s, i, '{') {
        None => None,
        Some(o) => match p_char_tok(s, o, '}') {
            Some(e) => p_choice_delta_fin(None, None, None, e),
            None => p_choice_delta_fold(s, o, None, None, None),
        },
    }
}

} // verus!


verus! {

/// Finish a streamed chunk object: the required members must all have been
/// seen; an optional member that was absent or `null` is unset.
pub open spec fn sp_chunk_fin(a_id: Option<Seq<char>>, a_object: Option<Seq<char>>, a_created: Option<u64>, a_model: Option<Seq<char>>, a_choices: Option<Seq<ChatChoiceDeltaV>>, e: int) -> Option<(ChatCompletionChunkV, int)> {
    match (a_id, a_object, a_created, a_model, a_choices) {
        (Some(id), Some(object), Some(created), Some(model), Some(choices)) => Some((ChatCompletionChunkV { id: id, object: object, created: created, model: model, choices: choices }, e)),
        _ => None,
    }
}

fn p_chunk_fin(a_id: Option<Vec<char>>, a_object: Option<Vec<char>>, a_created: Option<u64>, a_model: Option<Vec<char>>, a_choices: Option<Vec<ChatChoiceDelta>>, e: usize) -> (r: Option<(ChatCompletionChunk, usize)>)
    ensures
        match r {
            Some((v, j)) => j == e && sp_chunk_fin(a_id.deep_view(), a_object.deep_view(), a_created, a_model.deep_view(), a_choices.deep_view(), e as int) == Some((v@, e as int)),
            None => sp_chunk_fin(a_id.deep_view(), a_object.deep_view(), a_created, a_model.deep_view(), a_choices.deep_view(), e as int) is None,
        },
{
    match (a_id, a_object, a_created, a_model, a_choices) {
        (Some(id), Some(object), Some(created), Some(model), Some(choices)) => {
            proof {
                assert(id.deep_view() =~= id@);
            }
            proof {
                assert(object.deep_view() =~= object@);
            }
            proof {
                assert(model.deep_view() =~= model@);
            }

            Some((ChatCompletionChunk { id: string_from_chars(&id), object: string_from_chars(&object), created: created, model: string_from_chars(&model), choices: choices }, e))
        },
        _ => None,
    }
}

/// The members of a streamed chunk object, in any order: a known member is
/// read by its type, a repeated member is an error, and an unknown
/// member is skipped.
pub open spec fn sp_chunk_fold(s: Seq<char>, i: int, a_id: Option<Seq<char>>, a_object: Option<Seq<char>>, a_created: Option<u64>, a_model: Option<Seq<char>>, a_choices: Option<Seq<ChatChoiceDeltaV>>) -> Option<(ChatCompletionChunkV, int)>
    decreases s.len() - i,
{
    match sp_member_key(s, i) {
        None => None,
        Some((k, j)) => if !(i < j && j <= s.len()) {
            None
        } else {
            let step = if k == "id"@ {
                if a_id is Some {
                    None
                } else {
                    match sp_string(s, j) {
                        None => None,
                        Some((v, j2)) => Some(((Some(v), a_object, a_created, a_model, a_choices), j2)),
                    }
                }
            } else if k == "object"@ {
                if a_object is Some {
                    None
                } else {
                    match sp_string(s, j) {
                        None => None,
                        Some((v, j2)) => Some(((a_id, Some(v), a_created, a_model, a_choices), j2)),
                    }
                }
            } else if k == "created"@ {
                if a_created is Some {
                    None
                } else {
                    match sp_u64f(s, j) {
                        None => None,
                        Some((v, j2)) => Some(((a_id, a_object, Some(v), a_model, a_choices), j2)),
                    }
                }
            } else if k == "model"@ {
                if a_model is Some {
                    None
                } else {
                    match sp_string(s, j) {
                        None => None,
                        Some((v, j2)) => Some(((a_id, a_object, a_created, Some(v), a_choices), j2)),
                    }
                }
            } else if k == "choices"@ {
                if a_choices is Some {
                    None
                } else {
                    match sp_dchoices(s, j) {
                        None => None,
                        Some((v, j2)) => Some(((a_id, a_object, a_created, a_model, Some(v)), j2)),
                    }
                }
            } else {
                match sp_skip_value(s, j) {
                    None => None,
                    Some(j2) => Some(((a_id, a_object, a_created, a_model, a_choices), j2)),
                }
            };
            match step {
                None => None,
                Some((acc, j2)) => if !(j < j2 && j2 <= s.len()) {
                    None
                } else {
                    match sp_char_tok(s, j2, ',') {
                        Some(j3) => if j2 < j3 && j3 <= s.len() {
                            sp_chunk_fold(s, j3, acc.0, acc.1, acc.2, acc.3, acc.4)
                        } else {
                            None
                        },
                        None => match sp_char_tok(s, j2, '}') {
                            None => None,
                            Some(e) => sp_chunk_fin(acc.0, acc.1, acc.2, acc.3, acc.4, e),
                        },
                    }
                },
            }
        },
    }
}

pub fn p_chunk_fold(s: &Vec<char>, i: usize, a_id: Option<Vec<char>>, a_object: Option<Vec<char>>, a_created: Option<u64>, a_model: Option<Vec<char>>, a_choices: Option<Vec<ChatChoiceDelta>>) -> (r: Option<(ChatCompletionChunk, usize)>)
    requires
        i <= s.len(),
    ensures
        match r {
            Some((v, j)) => sp_chunk_fold(s@, i as int, a_id.deep_view(), a_object.deep_view(), a_created, a_model.deep_view(), a_choices.deep_view()) == Some((v@, j as int)) && i < j
                <= s@.len(),
            None => sp_chunk_fold(s@, i as int, a_id.deep_view(), a_object.deep_view(), a_created, a_model.deep_view(), a_choices.deep_view()) is None,
        },
    decreases s@.len() - i,
{
    match p_member_key(s, i) {
        None => None,
        Some((k, j)) => {
            let step: Option<((Option<Vec<char>>, Option<Vec<char>>, Option<u64>, Option<Vec<char>>, Option<Vec<ChatChoiceDelta>>), usize)> = if vec_eq_str(&k, "id") {
                if a_id.is_some() {
                    None
                } else {
                    match p_string(s, j) {
                        None => None,
                        Some((v, j2)) => {
                            proof {
                            assert(v.deep_view() =~= v@);
                        }
                        Some(((Some(v), a_object, a_created, a_model, a_choices), j2))
                        },
                    }
                }
            } else if vec_eq_str(&k, "object") {
                if a_object.is_some() {
                    None
                } else {
                    match p_string(s, j) {
                        None => None,
                        Some((v, j2)) => {
                            proof {
                            assert(v.deep_view() =~= v@);
                        }
                        Some(((a_id, Some(v), a_created, a_model, a_choices), j2))
                        },
                    }
                }
            } else if vec_eq_str(&k, "created") {
                if a_created.is_some() {
                    None
                } else {
                    match p_u64f(s, j) {
                        None => None,
                        Some((v, j2)) => {
                            Some(((a_id, a_object, Some(v), a_model, a_choices), j2))
                        },
                    }
                }
            } else if vec_eq_str(&k, "model") {
                if a_model.is_some() {
                    None
                } else {
                    match p_string(s, j) {
                        None => None,
                        Some((v, j2)) => {
                            proof {
                            assert(v.deep_view() =~= v@);
                        }
                        Some(((a_id, a_object, a_created, Some(v), a_choices), j2))
                        },
                    }
                }
            } else if vec_eq_str(&k, "choices") {
                if a_choices.is_some() {
                    None
                } else {
                    match p_dchoices(s, j) {
                        None => None,
                        Some((v, j2)) => {
                            Some(((a_id, a_object, a_created, a_model, Some(v)), j2))
                        },
                    }
                }
            } else {
                match p_skip_value(s, j) {
                    None => None,
                    Some(j2) => Some(((a_id, a_object, a_created, a_model, a_choices), j2)),
                }
            };
            match step {
                None => None,
                Some((acc, j2)) => {
                    match p_char_tok(s, j2, ',') {
                        Some(j3) => p_chunk_fold(s, j3, acc.0, acc.1, acc.2, acc.3, acc.4),
                        None => match p_char_tok(s, j2, '}') {
                            None => None,
                            Some(e) => p_chunk_fin(acc.0, acc.1, acc.2, acc.3, acc.4, e),
                        },
                    }
                },
            }
        },
    }
}

/// A streamed chunk object.
pub open spec fn sp_chunk(s: Seq<char>, i: int) -> Option<(ChatCompletionChunkV, int)> {
    match sp_char_tok(s, i, '{') {
        None => None,
        Some(o) => if !(0 <= o && o <= s.len()) {
            None
        } else {
            match sp_char_tok(s, o, '}') {
                Some(e) => sp_chunk_fin(None, None, None, None, None, e),
                None => sp_chunk_fold(s, o, None, None, None, None, None),
            }
        },
    }
}

pub fn p_chunk(s: &Vec<char>, i: usize) -> (r: Option<(ChatCompletionChunk, usize)>)
    requires
        i <= s.len(),
    ensures
        match r {
            Some((v, j)) => sp_chunk(s@, i as int) == Some((v@, j as int)) && i < j <= s@.len(),
            None => sp_chunk(s@, i as int) is None,
        },
{
    match p_char_tok(s, i, '{') {
        None => None,
        Some(o) => match p_char_tok(s, o, '}') {
            Some(e) => p_chunk_fin(None, None, None, None, None, e),
            None => p_chunk_fold(s, o, None, None, None, None, None),
        },
    }
}

} // verus!


verus! {

/// Finish a non-streaming chat completion response object: the required members must all have been
/// seen; an optional member that was absent or `null` is unset.
pub open spec fn sp_chat_response_fin(a_id: Option<Seq<char>>, a_object: Option<Seq<char>>, a_created: Option<u64>, a_model: Option<Seq<char>>, a_choices: Option<Seq<ChatChoiceV>>, a_usage: Option<UsageV>, e: int) -> Option<(ChatCompletionResponseV, int)> {
    match (a_id, a_object, a_created, a_model, a_choices, a_usage) {
        (Some(id), Some(object), Some(created), Some(model), Some(choices), Some(usage)) => Some((ChatCompletionResponseV { id: id, object: object, created: created, model: model, choices: choices, usage: usage }, e)),
        _ => None,
    }
}

fn p_chat_response_fin(a_id: Option<Vec<char>>, a_object: Option<Vec<char>>, a_created: Option<u64>, a_model: Option<Vec<char>>, a_choices: Option<Vec<ChatChoice>>, a_usage: Option<Usage>, e: usize) -> (r: Option<(ChatCompletionResponse, usize)>)
    ensures
        match r {
            Some((v, j)) => j == e && sp_chat_response_fin(a_id.deep_view(), a_object.deep_view(), a_created, a_model.deep_view(), a_choices.deep_view(), a_usage.deep_view(), e as int) == Some((v@, e as int)),
            None => sp_chat_response_fin(a_id.deep_view(), a_object.deep_view(), a_created, a_model.deep_view(), a_choices.deep_view(), a_usage.deep_view(), e as int) is None,
        },
{
    match (a_id, a_object, a_created, a_model, a_choices, a_usage) {
        (Some(id), Some(object), Some(created), Some(model), Some(choices), Some(usage)) => {
            proof {
                assert(id.deep_view() =~= id@);
            }
            proof {
                assert(object.deep_view() =~= object@);
            }
            proof {
                assert(model.deep_view() =~= model@);
            }

            Some((ChatCompletionResponse { id: string_from_chars(&id), object: string_from_chars(&object), created: created, model: string_from_chars(&model), choices: choices, usage: usage }, e))
        },
        _ => None,
    }
}

/// The members of a non-streaming chat completion response object, in any order: a known member is
/// read by its type, a repeated member is an error, and an unknown
/// member is skipped.
pub open spec fn sp_chat_response_fold(s: Seq<char>, i: int, a_id: Option<Seq<char>>, a_object: Option<Seq<char>>, a_created: Option<u64>, a_model: Option<Seq<char>>, a_choices: Option<Seq<ChatChoiceV>>, a_usage: Option<UsageV>) -> Option<(ChatCompletionResponseV, int)>
    decreases s.len() - i,
{
    match sp_member_key(s, i) {
        None => None,
        Some((k, j)) => if !(i < j && j <= s.len()) {
            None
        } else {
            let step = if k == "id"@ {
                if a_id is Some {
                    None
                } else {
                    match sp_string(s, j) {
                        None => None,
                        Some((v, j2)) => Some(((Some(v), a_object, a_created, a_model, a_choices, a_usage), j2)),
                    }
                }
            } else if k == "object"@ {
                if a_object is Some {
                    None
                } else {
                    match sp_string(s, j) {
                        None => None,
                        Some((v, j2)) => Some(((a_id, Some(v), a_created, a_model, a_choices, a_usage), j2)),
                    }
                }
            } else if k == "created"@ {
                if a_created is Some {
                    None
                } else {
                    match sp_u64f(s, j) {
                        None => None,
                        Some((v, j2)) => Some(((a_id, a_object, Some(v), a_model, a_choices, a_usage), j2)),
                    }
                }
            } else if k == "model"@ {
                if a_model is Some {
                    None
                } else {
                    match sp_string(s, j) {
                        None => None,
                        Some((v, j2)) => Some(((a_id, a_object, a_created, Some(v), a_choices, a_usage), j2)),
                    }
                }
            } else if k == "choices"@ {
                if a_choices is Some {
                    None
                } else {
                    match sp_choices(s, j) {
                        None => None,
                        Some((v, j2)) => Some(((a_id, a_object, a_created, a_model, Some(v), a_usage), j2)),
                    }
                }
            } else if k == "usage"@ {
                if a_usage is Some {
                    None
                } else {
                    match sp_usage(s, j) {
                        None => None,
                        Some((v, j2)) => Some(((a_id, a_object, a_created, a_model, a_choices, Some(v)), j2)),
                    }
                }
            } else {
                match sp_skip_value(s, j) {
                    None => None,
                    Some(j2) => Some(((a_id, a_object, a_created, a_model, a_choices, a_usage), j2)),
                }
            };
            match step {
                None => None,
                Some((acc, j2)) => if !(j < j2 && j2 <= s.len()) {
                    None
                } else {
                    match sp_char_tok(s, j2, ',') {
                        Some(j3) => if j2 < j3 && j3 <= s.len() {
                            sp_chat_response_fold(s, j3, acc.0, acc.1, acc.2, acc.3, acc.4, acc.5)
                        } else {
                            None
                        },
                        None => match sp_char_tok(s, j2, '}') {
                            None => None,
                            Some(e) => sp_chat_response_fin(acc.0, acc.1, acc.2, acc.3, acc.4, acc.5, e),
                        },
                    }
                },
            }
        },
    }
}

pub fn p_chat_response_fold(s: &Vec<char>, i: usize, a_id: Option<Vec<char>>, a_object: Option<Vec<char>>, a_created: Option<u64>, a_model: Option<Vec<char>>, a_choices: Option<Vec<ChatChoice>>, a_usage: Option<Usage>) -> (r: Option<(ChatCompletionResponse, usize)>)
    requires
        i <= s.len(),
    ensures
        match r {
            Some((v, j)) => sp_chat_response_fold(s@, i as int, a_id.deep_view(), a_object.deep_view(), a_created, a_model.deep_view(), a_choices.deep_view(), a_usage.deep_view()) == Some((v@, j as int)) && i < j
                <= s@.len(),
            None => sp_chat_response_fold(s@, i as int, a_id.deep_view(), a_object.deep_view(), a_created, a_model.deep_view(), a_choices.deep_view(), a_usage.deep_view()) is None,
        },
    decreases s@.len() - i,
{
    match p_member_key(s, i) {
        None => None,
        Some((k, j)) => {
            let step: Option<((Option<Vec<char>>, Option<Vec<char>>, Option<u64>, Option<Vec<char>>, Option<Vec<ChatChoice>>, Option<Usage>), usize)> = if vec_eq_str(&k, "id") {
                if a_id.is_some() {
                    None
                } else {
                    match p_string(s, j) {
                        None => None,
                        Some((v, j2)) => {
                            proof {
                            assert(v.deep_view() =~= v@);
                        }
                        Some(((Some(v), a_object, a_created, a_model, a_choices, a_usage), j2))
                        },
                    }
                }
            } else if vec_eq_str(&k, "object") {
                if a_object.is_some() {
                    None
                } else {
                    match p_string(s, j) {
                        None => None,
                        Some((v, j2)) => {
                            proof {
                            assert(v.deep_view() =~= v@);
                        }
                        Some(((a_id, Some(v), a_created, a_model, a_choices, a_usage), j2))
                        },
                    }
                }
            } else if vec_eq_str(&k, "created") {
                if a_created.is_some() {
                    None
                } else {
                    match p_u64f(s, j) {
                        None => None,
                        Some((v, j2)) => {
                            Some(((a_id, a_object, Some(v), a_model, a_choices, a_usage), j2))
                        },
                    }
                }
            } else if vec_eq_str(&k, "model") {
                if a_model.is_some() {
                    None
                } else {
                    match p_string(s, j) {
                        None => None,
                        Some((v, j2)) => {
                            proof {
                            assert(v.deep_view() =~= v@);
                        }
                        Some(((a_id, a_object, a_created, Some(v), a_choices, a_usage), j2))
                        },
                    }
                }
            } else if vec_eq_str(&k, "choices") {
                if a_choices.is_some() {
                    None
                } else {
                    match p_choices(s, j) {
                        None => None,
                        Some((v, j2)) => {
                            Some(((a_id, a_object, a_created, a_model, Some(v), a_usage), j2))
                        },
                    }
                }
            } else if vec_eq_str(&k, "usage") {
                if a_usage.is_some() {
                    None
                } else {
                    match p_usage(s, j) {
                        None => None,
                        Some((v, j2)) => {
                            Some(((a_id, a_object, a_created, a_model, a_choices, Some(v)), j2))
                        },
                    }
                }
            } else {
                match p_skip_value(s, j) {
                    None => None,
                    Some(j2) => Some(((a_id, a_object, a_created, a_model, a_choices, a_usage), j2)),
                }
            };
            match step {
                None => None,
                Some((acc, j2)) => {
                    match p_char_tok(s, j2, ',') {
                        Some(j3) => p_chat_response_fold(s, j3, acc.0, acc.1, acc.2, acc.3, acc.4, acc.5),
                        None => match p_char_tok(s, j2, '}') {
                            None => None,
                            Some(e) => p_chat_response_fin(acc.0, acc.1, acc.2, acc.3, acc.4, acc.5, e),
                        },
                    }
                },
            }
        },
    }
}

/// A non-streaming chat completion response object.
pub open spec fn sp_chat_response(s: Seq<char>, i: int) -> Option<(ChatCompletionResponseV, int)> {
    match sp_char_tok(s, i, '{') {
        None => None,
        Some(o) => if !(0 <= o && o <= s.len()) {
            None
        } else {
            match sp_char_tok(s, o, '}') {
                Some(e) => sp_chat_response_fin(None, None, None, None, None, None, e),
                None => sp_chat_response_fold(s, o, None, None, None, None, None, None),
            }
        },
    }
}

pub fn p_chat_response(s: &Vec<char>, i: usize) -> (r: Option<(ChatCompletionResponse, usize)>)
    requires
        i <= s.len(),
    ensures
        match r {
            Some((v, j)) => sp_chat_response(s@, i as int) == Some((v@, j as int)) && i < j <= s@.len(),
            None => sp_chat_response(s@, i as int) is None,
        },
{
    match p_char_tok(s, i, '{') {
        None => None,
        Some(o) => match p_char_tok(s, o, '}') {
            Some(e) => p_chat_response_fin(None, None, None, None, None, None, e),
            None => p_chat_response_fold(s, o, None, None, None, None, None, None),
        },
    }
}

} // verus!


verus! {

/// Finish a text completion response object: the required members must all have been
/// seen; an optional member that was absent or `null` is unset.
pub open spec fn sp_completion_fin(a_content: Option<Seq<char>>, a_model: Option<Option<Seq<char>>>, a_stop: Option<Option<bool>>, a_tokens_predicted: Option<Option<u32>>, a_tokens_evaluated: Option<Option<u32>>, e: int) -> Option<(CompletionResponseV, int)> {
    match (a_content) {
        (Some(content)) => Some((CompletionResponseV { content: content, model: opt_flat(a_model), stop: opt_flat(a_stop), tokens_predicted: opt_flat(a_tokens_predicted), tokens_evaluated: opt_flat(a_tokens_evaluated) }, e)),
        _ => None,
    }
}

fn p_completion_fin(a_content: Option<Vec<char>>, a_model: Option<Option<Vec<char>>>, a_stop: Option<Option<bool>>, a_tokens_predicted: Option<Option<u32>>, a_tokens_evaluated: Option<Option<u32>>, e: usize) -> (r: Option<(CompletionResponse, usize)>)
    ensures
        match r {
            Some((v, j)) => j == e && sp_completion_fin(a_content.deep_view(), a_model.deep_view(), a_stop, a_tokens_predicted, a_tokens_evaluated, e as int) == Some((v@, e as int)),
            None => sp_completion_fin(a_content.deep_view(), a_model.deep_view(), a_stop, a_tokens_predicted, a_tokens_evaluated, e as int) is None,
        },
{
    match (a_content) {
        (Some(content)) => {
            proof {
                assert(content.deep_view() =~= content@);
            }
            let model_v: Option<String> = match a_model {
                Some(Some(v)) => {
                    proof {
                        assert(v.deep_view() =~= v@);
                    }
                    Some(string_from_chars(&v))
                },
                Some(None) => None,
                None => None,
            };
            let stop_v = match a_stop {
                Some(x) => x,
                None => None,
            };
            let tokens_predicted_v = match a_tokens_predicted {
                Some(x) => x,
                None => None,
            };
            let tokens_evaluated_v = match a_tokens_evaluated {
                Some(x) => x,
                None => None,
            };
            Some((CompletionResponse { content: string_from_chars(&content), model: model_v, stop: stop_v, tokens_predicted: tokens_predicted_v, tokens_evaluated: tokens_evaluated_v }, e))
        },
        _ => None,
    }
}

/// The members of a text completion response object, in any order: a known member is
/// read by its type, a repeated member is an error, and an unknown
/// member is skipped.
pub open spec fn sp_completion_fold(s: Seq<char>, i: int, a_content: Option<Seq<char>>, a_model: Option<Option<Seq<char>>>, a_stop: Option<Option<bool>>, a_tokens_predicted: Option<Option<u32>>, a_tokens_evaluated: Option<Option<u32>>) -> Option<(CompletionResponseV, int)>
    decreases s.len() - i,
{
    match sp_member_key(s, i) {
        None => None,
        Some((k, j)) => if !(i < j && j <= s.len()) {
            None
        } else {
            let step = if k == "content"@ {
                if a_content is Some {
                    None
                } else {
                    match sp_string(s, j) {
                        None => None,
                        Some((v, j2)) => Some(((Some(v), a_model, a_stop, a_tokens_predicted, a_tokens_evaluated), j2)),
                    }
                }
            } else if k == "model"@ {
                if a_model is Some {
                    None
                } else {
                    match sp_string_or_null(s, j) {
                        None => None,
                        Some((v, j2)) => Some(((a_content, Some(v), a_stop, a_tokens_predicted, a_tokens_evaluated), j2)),
                    }
                }
            } else if k == "stop"@ {
                if a_stop is Some {
                    None
                } else {
                    match sp_bool_or_null(s, j) {
                        None => None,
                        Some((v, j2)) => Some(((a_content, a_model, Some(v), a_tokens_predicted, a_tokens_evaluated), j2)),
                    }
                }
            } else if k == "tokens_predicted"@ {
                if a_tokens_predicted is Some {
                    None
                } else {
                    match sp_u32_or_null(s, j) {
                        None => None,
                        Some((v, j2)) => Some(((a_content, a_model, a_stop, Some(v), a_tokens_evaluated), j2)),
                    }
                }
            } else if k == "tokens_evaluated"@ {
                if a_tokens_evaluated is Some {
                    None
                } else {
                    match sp_u32_or_null(s, j) {
                        None => None,
                        Some((v, j2)) => Some(((a_content, a_model, a_stop, a_tokens_predicted, Some(v)), j2)),
                    }
                }
            } else {
                match sp_skip_value(s, j) {
                    None => None,
                    Some(j2) => Some(((a_content, a_model, a_stop, a_tokens_predicted, a_tokens_evaluated), j2)),
                }
            };
            match step {
                None => None,
                Some((acc, j2)) => if !(j < j2 && j2 <= s.len()) {
                    None
                } else {
                    match sp_char_tok(s, j2, ',') {
                        Some(j3) => if j2 < j3 && j3 <= s.len() {
                            sp_completion_fold(s, j3, acc.0, acc.1, acc.2, acc.3, acc.4)
                        } else {
                            None
                        },
                        None => match sp_char_tok(s, j2, '}') {
                            None => None,
                            Some(e) => sp_completion_fin(acc.0, acc.1, acc.2, acc.3, acc.4, e),
                        },
                    }
                },
            }
        },
    }
}

pub fn p_completion_fold(s: &Vec<char>, i: usize, a_content: Option<Vec<char>>, a_model: Option<Option<Vec<char>>>, a_stop: Option<Option<bool>>, a_tokens_predicted: Option<Option<u32>>, a_tokens_evaluated: Option<Option<u32>>) -> (r: Option<(CompletionResponse, usize)>)
    requires
        i <= s.len(),
    ensures
        match r {
            Some((v, j)) => sp_completion_fold(s@, i as int, a_content.deep_view(), a_model.deep_view(), a_stop, a_tokens_predicted, a_tokens_evaluated) == Some((v@, j as int)) && i < j
                <= s@.len(),
            None => sp_completion_fold(s@, i as int, a_content.deep_view(), a_model.deep_view(), a_stop, a_tokens_predicted, a_tokens_evaluated) is None,
        },
    decreases s@.len() - i,
{
    match p_member_key(s, i) {
        None => None,
        Some((k, j)) => {
            let step: Option<((Option<Vec<char>>, Option<Option<Vec<char>>>, Option<Option<bool>>, Option<Option<u32>>, Option<Option<u32>>), usize)> = if vec_eq_str(&k, "content") {
                if a_content.is_some() {
                    None
                } else {
                    match p_string(s, j) {
                        None => None,
                        Some((v, j2)) => {
                            proof {
                            assert(v.deep_view() =~= v@);
                        }
                        Some(((Some(v), a_model, a_stop, a_tokens_predicted, a_tokens_evaluated), j2))
                        },
                    }
                }
            } else if vec_eq_str(&k, "model") {
                if a_model.is_some() {
                    None
                } else {
                    match p_string_or_null(s, j) {
                        None => None,
                        Some((v, j2)) => {
                            Some(((a_content, Some(v), a_stop, a_tokens_predicted, a_tokens_evaluated), j2))
                        },
                    }
                }
            } else if vec_eq_str(&k, "stop") {
                if a_stop.is_some() {
                    None
                } else {
                    match p_bool_or_null(s, j) {
                        None => None,
                        Some((v, j2)) => {
                            Some(((a_content, a_model, Some(v), a_tokens_predicted, a_tokens_evaluated), j2))
                        },
                    }
                }
            } else if vec_eq_str(&k, "tokens_predicted") {
                if a_tokens_predicted.is_some() {
                    None
                } else {
                    match p_u32_or_null(s, j) {
                        None => None,
                        Some((v, j2)) => {
                            Some(((a_content, a_model, a_stop, Some(v), a_tokens_evaluated), j2))
                        },
                    }
                }
            } else if vec_eq_str(&k, "tokens_evaluated") {
                if a_tokens_evaluated.is_some() {
                    None
                } else {
                    match p_u32_or_null(s, j) {
                        None => None,
                        Some((v, j2)) => {
                            Some(((a_content, a_model, a_stop, a_tokens_predicted, Some(v)), j2))
                        },
                    }
                }
            } else {
                match p_skip_value(s, j) {
                    None => None,
                    Some(j2) => Some(((a_content, a_model, a_stop, a_tokens_predicted, a_tokens_evaluated), j2)),
                }
            };
            match step {
                None => None,
                Some((acc, j2)) => {
                    match p_char_tok(s, j2, ',') {
                        Some(j3) => p_completion_fold(s, j3, acc.0, acc.1, acc.2, acc.3, acc.4),
                        None => match p_char_tok(s, j2, '}') {
                            None => None,
                            Some(e) => p_completion_fin(acc.0, acc.1, acc.2, acc.3, acc.4, e),
                        },
                    }
                },
            }
        },
    }
}

/// A text completion response object.
pub open spec fn sp_completion(s: Seq<char>, i: int) -> Option<(CompletionResponseV, int)> {
    match sp_char_tok(s, i, '{') {
        None => None,
        Some(o) => if !(0 <= o && o <= s.len()) {
            None
        } else {
            match sp_char_tok(s, o, '}') {
                Some(e) => sp_completion_fin(None, None, None, None, None, e),
                None => sp_completion_fold(s, o, None, None, None, None, None),
            }
        },
    }
}

pub fn p_completion(s: &Vec<char>, i: usize) -> (r: Option<(CompletionResponse, usize)>)
    requires
        i <= s.len(),
    ensures
        match r {
            Some((v, j)) => sp_completion(s@, i as int) == Some((v@, j as int)) && i < j <= s@.len(),
            None => sp_completion(s@, i as int) is None,
        },
{
    match p_char_tok(s, i, '{') {
        None => None,
        Some(o) => match p_char_tok(s, o, '}') {
            Some(e) => p_completion_fin(None, None, None, None, None, e),
            None => p_completion_fold(s, o, None, None, None, None, None),
        },
    }
}

} // verus!


verus! {

/// Finish a embedding record object: the required members must all have been
/// seen; an optional member that was absent or `null` is unset.
pub open spec fn sp_edata_fin(a_object: Option<Seq<char>>, a_embedding: Option<Seq<Seq<char>>>, a_index: Option<u32>, e: int) -> Option<(EmbeddingDataV, int)> {
    match (a_object, a_embedding, a_index) {
        (Some(object), Some(embedding), Some(index)) => Some((EmbeddingDataV { object: object, embedding: embedding, index: index }, e)),
        _ => None,
    }
}

fn p_edata_fin(a_object: Option<Vec<char>>, a_embedding: Option<Vec<String>>, a_index: Option<u32>, e: usize) -> (r: Option<(EmbeddingData, usize)>)
    ensures
        match r {
            Some((v, j)) => j == e && sp_edata_fin(a_object.deep_view(), a_embedding.deep_view(), a_index, e as int) == Some((v@, e as int)),
            None => sp_edata_fin(a_object.deep_view(), a_embedding.deep_view(), a_index, e as int) is None,
        },
{
    match (a_object, a_embedding, a_index) {
        (Some(object), Some(embedding), Some(index)) => {
            proof {
                assert(object.deep_view() =~= object@);
            }

            Some((EmbeddingData { object: string_from_chars(&object), embedding: embedding, index: index }, e))
        },
        _ => None,
    }
}

/// The members of a embedding record object, in any order: a known member is
/// read by its type, a repeated member is an error, and an unknown
/// member is skipped.
pub open spec fn sp_edata_fold(s: Seq<char>, i: int, a_object: Option<Seq<char>>, a_embedding: Option<Seq<Seq<char>>>, a_index: Option<u32>) -> Option<(EmbeddingDataV, int)>
    decreases s.len() - i,
{
    match sp_member_key(s, i) {
        None => None,
        Some((k, j)) => if !(i < j && j <= s.len()) {
            None
        } else {
            let step = if k == "object"@ {
                if a_object is Some {
                    None
                } else {
                    match sp_string(s, j) {
                        None => None,
                        Some((v, j2)) => Some(((Some(v), a_embedding, a_index), j2)),
                    }
                }
            } else if k == "embedding"@ {
                if a_embedding is Some {
                    None
                } else {
                    match sp_numtoks(s, j) {
                        None => None,
                        Some((v, j2)) => Some(((a_object, Some(v), a_index), j2)),
                    }
                }
            } else if k == "index"@ {
                if a_index is Some {
                    None
                } else {
                    match sp_u32f(s, j) {
                        None => None,
                        Some((v, j2)) => Some(((a_object, a_embedding, Some(v)), j2)),
                    }
                }
            } else {
                match sp_skip_value(s, j) {
                    None => None,
                    Some(j2) => Some(((a_object, a_embedding, a_index), j2)),
                }
            };
            match step {
                None => None,
                Some((acc, j2)) => if !(j < j2 && j2 <= s.len()) {
                    None
                } else {
                    match sp_char_tok(s, j2, ',') {
                        Some(j3) => if j2 < j3 && j3 <= s.len() {
                            sp_edata_fold(s, j3, acc.0, acc.1, acc.2)
                        } else {
                            None
                        },
                        None => match sp_char_tok(s, j2, '}') {
                            None => None,
                            Some(e) => sp_edata_fin(acc.0, acc.1, acc.2, e),
                        },
                    }
                },
            }
        },
    }
}

pub fn p_edata_fold(s: &Vec<char>, i: usize, a_object: Option<Vec<char>>, a_embedding: Option<Vec<String>>, a_index: Option<u32>) -> (r: Option<(EmbeddingData, usize)>)
    requires
        i <= s.len(),
    ensures
        match r {
            Some((v, j)) => sp_edata_fold(s@, i as int, a_object.deep_view(), a_embedding.deep_view(), a_index) == Some((v@, j as int)) && i < j
                <= s@.len(),
            None => sp_edata_fold(s@, i as int, a_object.deep_view(), a_embedding.deep_view(), a_index) is None,
        },
    decreases s@.len() - i,
{
    match p_member_key(s, i) {
        None => None,
        Some((k, j)) => {
            let step: Option<((Option<Vec<char>>, Option<Vec<String>>, Option<u32>), usize)> = if vec_eq_str(&k, "object") {
                if a_object.is_some() {
                    None
                } else {
                    match p_string(s, j) {
                        None => None,
                        Some((v, j2)) => {
                            proof {
                            assert(v.deep_view() =~= v@);
                        }
                        Some(((Some(v), a_embedding, a_index), j2))
                        },
                    }
                }
            } else if vec_eq_str(&k, "embedding") {
                if a_embedding.is_some() {
                    None
                } else {
                    match p_numtoks(s, j) {
                        None => None,
                        Some((v, j2)) => {
                            Some(((a_object, Some(v), a_index), j2))
                        },
                    }
                }
            } else if vec_eq_str(&k, "index") {
                if a_index.is_some() {
                    None
                } else {
                    match p_u32f(s, j) {
                        None => None,
                        Some((v, j2)) => {
                            Some(((a_object, a_embedding, Some(v)), j2))
                        },
                    }
                }
            } else {
                match p_skip_value(s, j) {
                    None => None,
                    Some(j2) => Some(((a_object, a_embedding, a_index), j2)),
                }
            };
            match step {
                None => None,
                Some((acc, j2)) => {
                    match p_char_tok(s, j2, ',') {
                        Some(j3) => p_edata_fold(s, j3, acc.0, acc.1, acc.2),
                        None => match p_char_tok(s, j2, '}') {
                            None => None,
                            Some(e) => p_edata_fin(acc.0, acc.1, acc.2, e),
                        },
                    }
                },
            }
        },
    }
}

/// A embedding record object.
pub open spec fn sp_edata(s: Seq<char>, i: int) -> Option<(EmbeddingDataV, int)> {
    match sp_char_tok(s, i, '{') {
        None => None,
        Some(o) => if !(0 <= o && o <= s.len()) {
            None
        } else {
            match sp_char_tok(s, o, '}') {
                Some(e) => sp_edata_fin(None, None, None, e),
                None => sp_edata_fold(s, o, None, None, None),
            }
        },
    }
}

pub fn p_edata(s: &Vec<char>, i: usize) -> (r: Option<(EmbeddingData, usize)>)
    requires
        i <= s.len(),
    ensures
        match r {
            Some((v, j)) => sp_edata(s@, i as int) == Some((v@, j as int)) && i < j <= s@.len(),
            None => sp_edata(s@, i as int) is None,
        },
{
    match p_char_tok(s, i, '{') {
        None => None,
        Some(o) => match p_char_tok(s, o, '}') {
            Some(e) => p_edata_fin(None, None, None, e),
            None => p_edata_fold(s, o, None, None, None),
        },
    }
}

} // verus!


verus! {

/// Finish a embedding response object: the required members must all have been
/// seen; an optional member that was absent or `null` is unset.
pub open spec fn sp_embedding_fin(a_object: Option<Seq<char>>, a_data: Option<Seq<EmbeddingDataV>>, a_model: Option<Seq<char>>, a_usage: Option<UsageV>, e: int) -> Option<(EmbeddingResponseV, int)> {
    match (a_object, a_data, a_model, a_usage) {
        (Some(object), Some(data), Some(model), Some(usage)) => Some((EmbeddingResponseV { object: object, data: data, model: model, usage: usage }, e)),
        _ => None,
    }
}

fn p_embedding_fin(a_object: Option<Vec<char>>, a_data: Option<Vec<EmbeddingData>>, a_model: Option<Vec<char>>, a_usage: Option<Usage>, e: usize) -> (r: Option<(EmbeddingResponse, usize)>)
    ensures
        match r {
            Some((v, j)) => j == e && sp_embedding_fin(a_object.deep_view(), a_data.deep_view(), a_model.deep_view(), a_usage.deep_view(), e as int) == Some((v@, e as int)),
            None => sp_embedding_fin(a_object.deep_view(), a_data.deep_view(), a_model.deep_view(), a_usage.deep_view(), e as int) is None,
        },
{
    match (a_object, a_data, a_model, a_usage) {
        (Some(object), Some(data), Some(model), Some(usage)) => {
            proof {
                assert(object.deep_view() =~= object@);
            }
            proof {
                assert(model.deep_view() =~= model@);
            }

            Some((EmbeddingResponse { object: string_from_chars(&object), data: data, model: string_from_chars(&model), usage: usage }, e))
        },
        _ => None,
    }
}

/// The members of a embedding response object, in any order: a known member is
/// read by its type, a repeated member is an error, and an unknown
/// member is skipped.
pub open spec fn sp_embedding_fold(s: Seq<char>, i: int, a_object: Option<Seq<char>>, a_data: Option<Seq<EmbeddingDataV>>, a_model: Option<Seq<char>>, a_usage: Option<UsageV>) -> Option<(EmbeddingResponseV, int)>
    decreases s.len() - i,
{
    match sp_member_key(s, i) {
        None => None,
        Some((k, j)) => if !(i < j && j <= s.len()) {
            None
        } else {
            let step = if k == "object"@ {
                if a_object is Some {
                    None
                } else {
                    match sp_string(s, j) {
                        None => None,
                        Some((v, j2)) => Some(((Some(v), a_data, a_model, a_usage), j2)),
                    }
                }
            } else if k == "data"@ {
                if a_data is Some {
                    None
                } else {
                    match sp_edata_arr(s, j) {
                        None => None,
                        Some((v, j2)) => Some(((a_object, Some(v), a_model, a_usage), j2)),
                    }
                }
            } else if k == "model"@ {
                if a_model is Some {
                    None
                } else {
                    match sp_string(s, j) {
                        None => None,
                        Some((v, j2)) => Some(((a_object, a_data, Some(v), a_usage), j2)),
                    }
                }
            } else if k == "usage"@ {
                if a_usage is Some {
                    None
                } else {
                    match sp_usage(s, j) {
                        None => None,
                        Some((v, j2)) => Some(((a_object, a_data, a_model, Some(v)), j2)),
                    }
                }
            } else {
                match sp_skip_value(s, j) {
                    None => None,
                    Some(j2) => Some(((a_object, a_data, a_model, a_usage), j2)),
                }
            };
            match step {
                None => None,
                Some((acc, j2)) => if !(j < j2 && j2 <= s.len()) {
                    None
                } else {
                    match sp_char_tok(s, j2, ',') {
                        Some(j3) => if j2 < j3 && j3 <= s.len() {
                            sp_embedding_fold(s, j3, acc.0, acc.1, acc.2, acc.3)
                        } else {
                            None
                        },
                        None => match sp_char_tok(s, j2, '}') {
                            None => None,
                            Some(e) => sp_embedding_fin(acc.0, acc.1, acc.2, acc.3, e),
                        },
                    }
                },
            }
        },
    }
}

pub fn p_embedding_fold(s: &Vec<char>, i: usize, a_object: Option<Vec<char>>, a_data: Option<Vec<EmbeddingData>>, a_model: Option<Vec<char>>, a_usage: Option<Usage>) -> (r: Option<(EmbeddingResponse, usize)>)
    requires
        i <= s.len(),
    ensures
        match r {
            Some((v, j)) => sp_embedding_fold(s@, i as int, a_object.deep_view(), a_data.deep_view(), a_model.deep_view(), a_usage.deep_view()) == Some((v@, j as int)) && i < j
                <= s@.len(),
            None => sp_embedding_fold(s@, i as int, a_object.deep_view(), a_data.deep_view(), a_model.deep_view(), a_usage.deep_view()) is None,
        },
    decreases s@.len() - i,
{
    match p_member_key(s, i) {
        None => None,
        Some((k, j)) => {
            let step: Option<((Option<Vec<char>>, Option<Vec<EmbeddingData>>, Option<Vec<char>>, Option<Usage>), usize)> = if vec_eq_str(&k, "object") {
                if a_object.is_some() {
                    None
                } else {
                    match p_string(s, j) {
                        None => None,
                        Some((v, j2)) => {
                            proof {
                            assert(v.deep_view() =~= v@);
                        }
                        Some(((Some(v), a_data, a_model, a_usage), j2))
                        },
                    }
                }
            } else if vec_eq_str(&k, "data") {
                if a_data.is_some() {
                    None
                } else {
                    match p_edata_arr(s, j) {
                        None => None,
                        Some((v, j2)) => {
                            Some(((a_object, Some(v), a_model, a_usage), j2))
                        },
                    }
                }
            } else if vec_eq_str(&k, "model") {
                if a_model.is_some() {
                    None
                } else {
                    match p_string(s, j) {
                        None => None,
                        Some((v, j2)) => {
                            proof {
                            assert(v.deep_view() =~= v@);
                        }
                        Some(((a_object, a_data, Some(v), a_usage), j2))
                        },
                    }
                }
            } else if vec_eq_str(&k, "usage") {
                if a_usage.is_some() {
                    None
                } else {
                    match p_usage(s, j) {
                        None => None,
                        Some((v, j2)) => {
                            Some(((a_object, a_data, a_model, Some(v)), j2))
                        },
                    }
                }
            } else {
                match p_skip_value(s, j) {
                    None => None,
                    Some(j2) => Some(((a_object, a_data, a_model, a_usage), j2)),
                }
            };
            match step {
                None => None,
                Some((acc, j2)) => {
                    match p_char_tok(s, j2, ',') {
                        Some(j3) => p_embedding_fold(s, j3, acc.0, acc.1, acc.2, acc.3),
                        None => match p_char_tok(s, j2, '}') {
                            None => None,
                            Some(e) => p_embedding_fin(acc.0, acc.1, acc.2, acc.3, e),
                        },
                    }
                },
            }
        },
    }
}

/// A embedding response object.
pub open spec fn sp_embedding(s: Seq<char>, i: int) -> Option<(EmbeddingResponseV, int)> {
    match sp_char_tok(s, i, '{') {
        None => None,
        Some(o) => if !(0 <= o && o <= s.len()) {
            None
        } else {
            match sp_char_tok(s, o, '}') {
                Some(e) => sp_embedding_fin(None, None, None, None, e),
                None => sp_embedding_fold(s, o, None, None, None, None),
            }
        },
    }
}

pub fn p_embedding(s: &Vec<char>, i: usize) -> (r: Option<(EmbeddingResponse, usize)>)
    requires
        i <= s.len(),
    ensures
        match r {
            Some((v, j)) => sp_embedding(s@, i as int) == Some((v@, j as int)) && i < j <= s@.len(),
            None => sp_embedding(s@, i as int) is None,
        },
{
    match p_char_tok(s, i, '{') {
        None => None,
        Some(o) => match p_char_tok(s, o, '}') {
            Some(e) => p_embedding_fin(None, None, None, None, e),
            None => p_embedding_fold(s, o, None, None, None, None),
        },
    }
}

} // verus!
