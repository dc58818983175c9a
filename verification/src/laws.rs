//! Round-trip laws: a canonical rendering of a response shape parses
//! back to exactly the value it was rendered from. Stated over the
//! grammar spec functions; the rendering here is ghost, used only to
//! quantify over every well-formed text of the shape.

use vstd::prelude::*;
use crate::text::{dec_of, digit_char, digit_val, digits_val, is_digit, esc_str, esc_char, hex_char};
use crate::model::{UsageV, MessageV, DeltaV};
use crate::ser::ser_string;
use crate::parse::{
    is_ws, sp_ws, sp_exact, sp_char_tok, sp_digits, sp_u32f, sp_usage, sp_null, sp_str_body,
    sp_string, sp_message, is_hex, hex_val, sp_member_key, opt_flat, sp_message_fold,
    sp_message_fin, sp_usage_fold, sp_usage_fin, sp_delta, sp_delta_fold, sp_delta_fin,
};

verus! {

/// Every character of a canonical decimal rendering is a digit.
pub proof fn lemma_dec_of_digits(n: nat)
    ensures
        dec_of(n).len() >= 1,
        forall|k: int| 0 <= k < dec_of(n).len() ==> is_digit(#[trigger] dec_of(n)[k]),
    decreases n,
{
    if n < 10 {
        assert(is_digit(digit_char(n as int)));
    } else {
        lemma_dec_of_digits(n / 10);
        assert(is_digit(digit_char((n % 10) as int)));
        assert forall|k: int| 0 <= k < dec_of(n).len() implies is_digit(
            #[trigger] dec_of(n)[k],
        ) by {
            if k < dec_of(n / 10).len() {
                assert(dec_of(n)[k] == dec_of(n / 10)[k]);
            }
        }
    }
}

/// Reading back a canonical decimal rendering gives the number itself.
pub proof fn lemma_digits_val_dec_of(n: nat)
    ensures
        digits_val(dec_of(n)) == n,
    decreases n,
{
    if n < 10 {
        assert(dec_of(n) == seq![digit_char(n as int)]);
        assert(seq![digit_char(n as int)].drop_last() =~= Seq::<char>::empty());
        assert(digits_val(Seq::<char>::empty()) == 0);
        assert(seq![digit_char(n as int)].last() == digit_char(n as int));
        assert(digit_val(digit_char(n as int)) == n);
    } else {
        lemma_digits_val_dec_of(n / 10);
        assert(dec_of(n).drop_last() =~= dec_of(n / 10));
        assert(dec_of(n).last() == digit_char((n % 10) as int));
        assert(digit_val(digit_char((n % 10) as int)) == n % 10);
    }
}

/// A digit run that stands verbatim in the text, followed by no digit,
/// is exactly what the digit scanner reads.
pub proof fn lemma_sp_digits_exact(s: Seq<char>, i: int, d: Seq<char>)
    requires
        0 <= i,
        i + d.len() <= s.len(),
        d.len() >= 1,
        forall|k: int| 0 <= k < d.len() ==> is_digit(#[trigger] d[k]),
        s.subrange(i, i + d.len()) == d,
        i + d.len() == s.len() || !is_digit(s[i + d.len()]),
    ensures
        sp_digits(s, i) == Some((d, i + d.len())),
    decreases d.len(),
{
    assert(s[i] == d[0]);
    if d.len() == 1 {
        assert(sp_digits(s, i + 1) is None);
        assert(seq![s[i]] =~= d);
    } else {
        let d2 = d.subrange(1, d.len() as int);
        assert(s.subrange(i + 1, i + 1 + d2.len()) =~= d2);
        lemma_sp_digits_exact(s, i + 1, d2);
        assert(seq![s[i]] + d2 =~= d);
    }
}

/// A whitespace-free position is where the whitespace skip stops.
pub proof fn lemma_ws_stops(s: Seq<char>, i: int)
    requires
        0 <= i <= s.len(),
        i < s.len() ==> !is_ws(s[i]),
    ensures
        sp_ws(s, i) == i,
{
}

/// The canonical text of a number has no leading zero.
pub proof fn lemma_dec_of_no_lead(n: nat)
    ensures
        dec_of(n).len() > 1 ==> dec_of(n)[0] != '0',
    decreases n,
{
    if n >= 10 {
        lemma_dec_of_no_lead(n / 10);
        assert(dec_of(n)[0] == dec_of(n / 10)[0]);
        if n / 10 < 10 {
            assert(dec_of(n / 10) == seq![digit_char((n / 10) as int)]);
            assert(1 <= n / 10 <= 9);
            assert(digit_char((n / 10) as int) != '0');
        } else {
            lemma_dec_of_digits(n / 100);
            assert(dec_of(n / 10).len() >= 2);
            assert(dec_of(n / 10)[0] != '0');
        }
    }
}

/// A value that fits `u32`, rendered canonically into the text with no
/// digit after it, is exactly what the member-value reader reads.
pub proof fn lemma_u32_at(s: Seq<char>, i: int, n: u32)
    requires
        0 <= i,
        i + dec_of(n as nat).len() <= s.len(),
        s.subrange(i, i + dec_of(n as nat).len()) == dec_of(n as nat),
        i + dec_of(n as nat).len() == s.len() || !is_digit(s[i + dec_of(n as nat).len()]),
    ensures
        sp_u32f(s, i) == Some((n, i + dec_of(n as nat).len())),
{
    lemma_dec_of_digits(n as nat);
    assert(!is_ws(s[i])) by {
        assert(s[i] == dec_of(n as nat)[0]);
        assert(is_digit(s[i]));
    }
    lemma_ws_stops(s, i);
    lemma_sp_digits_exact(s, i, dec_of(n as nat));
    lemma_digits_val_dec_of(n as nat);
    lemma_dec_of_no_lead(n as nat);
}

/// A punctuation character written verbatim is exactly what the token
/// reader reads.
pub proof fn lemma_char_tok_at(s: Seq<char>, i: int, c: char)
    requires
        0 <= i < s.len(),
        s[i] == c,
        !is_ws(c),
    ensures
        sp_char_tok(s, i, c) == Some(i + 1),
{
    lemma_ws_stops(s, i);
}

/// Escaping works from the front as well: the escaped text of a
/// non-empty string is its first character's escape followed by the
/// escaped rest.
pub proof fn lemma_esc_str_first(x: Seq<char>)
    requires
        x.len() > 0,
    ensures
        esc_str(x) == esc_char(x[0]) + esc_str(x.skip(1)),
    decreases x.len(),
{
    if x.len() == 1 {
        assert(x.drop_last() =~= Seq::<char>::empty());
        assert(x.skip(1) =~= Seq::<char>::empty());
        assert(esc_str(x) =~= esc_char(x[0]) + esc_str(x.skip(1)));
    } else {
        lemma_esc_str_first(x.drop_last());
        assert(x.drop_last()[0] == x[0]);
        assert(x.drop_last().skip(1) =~= x.skip(1).drop_last());
        assert(x.skip(1).last() == x.last());
        assert(esc_str(x.skip(1)) == esc_str(x.skip(1).drop_last()) + esc_char(x.skip(1).last()));
        assert(esc_str(x) == esc_str(x.drop_last()) + esc_char(x.last()));
        assert(esc_str(x) =~= esc_char(x[0]) + esc_str(x.skip(1)));
    }
}

/// A character's scalar value is in the Unicode scalar range.
pub proof fn lemma_char_bounds(c: char)
    ensures
        0 <= c as int <= 0x10FFFF,
{
}

/// A hexadecimal digit character reads back as its value.
pub proof fn lemma_hex_char_val(d: int)
    requires
        0 <= d < 16,
    ensures
        is_hex(hex_char(d)),
        hex_val(hex_char(d)) == d,
{
    if d < 10 {
        assert(is_digit(digit_char(d)));
        assert(digit_val(digit_char(d)) == d);
    }
}

/// A string body written verbatim in its escaped form, closed by a
/// quote, is exactly what the string reader reads back.
#[verifier::rlimit(100)]
pub proof fn lemma_str_body_exact(s: Seq<char>, i: int, x: Seq<char>)
    requires
        0 <= i,
        i + esc_str(x).len() + 1 <= s.len(),
        s.subrange(i, i + esc_str(x).len() + 1) == esc_str(x) + seq!['"'],
    ensures
        sp_str_body(s, i) == Some((x, i + esc_str(x).len() + 1)),
    decreases x.len(),
{
    if x.len() == 0 {
        assert(esc_str(x) =~= Seq::<char>::empty());
        assert(s[i] == '"') by {
            assert(s[i] == s.subrange(i, i + esc_str(x).len() + 1)[0]);
        }
        assert(x =~= Seq::<char>::empty());
    } else {
        let c = x[0];
        let e = esc_char(c);
        lemma_esc_str_first(x);
        let x2 = x.skip(1);
        let j = i + e.len();
        assert forall|k: int| 0 <= k < e.len() implies #[trigger] s[i + k] == e[k] by {
            assert(s[i + k] == s.subrange(i, i + esc_str(x).len() + 1)[k]);
            assert((esc_str(x) + seq!['"'])[k] == esc_str(x)[k]);
            assert(esc_str(x)[k] == (e + esc_str(x2))[k]);
        }
        assert(s.subrange(j, j + esc_str(x2).len() + 1) =~= esc_str(x2) + seq!['"']) by {
            assert forall|k: int| 0 <= k < esc_str(x2).len() + 1 implies s.subrange(
                j,
                j + esc_str(x2).len() + 1,
            )[k] == (esc_str(x2) + seq!['"'])[k] by {
                assert(s.subrange(j, j + esc_str(x2).len() + 1)[k] == s[j + k]);
                assert(s[j + k] == s.subrange(i, i + esc_str(x).len() + 1)[j - i + k]);
                assert((esc_str(x) + seq!['"'])[j - i + k] == (esc_str(x2) + seq!['"'])[k]);
            }
        }
        lemma_str_body_exact(s, j, x2);
        assert(seq![c] + x2 =~= x);
        if c == '"' {
            assert(s[i + 0] == e[0] && s[i + 1] == e[1]);
            assert(s[i] == '\\' && s[i + 1] == '"');
        } else if c == '\\' {
            assert(s[i + 0] == e[0] && s[i + 1] == e[1]);
            assert(s[i] == '\\' && s[i + 1] == '\\');
        } else if c == '\n' {
            assert(s[i + 0] == e[0] && s[i + 1] == e[1]);
            assert(s[i] == '\\' && s[i + 1] == 'n');
        } else if c == '\r' {
            assert(s[i + 0] == e[0] && s[i + 1] == e[1]);
            assert(s[i] == '\\' && s[i + 1] == 'r');
        } else if c == '\t' {
            assert(s[i + 0] == e[0] && s[i + 1] == e[1]);
            assert(s[i] == '\\' && s[i + 1] == 't');
        } else if (c as int) < 32 {
            let hi = (c as int) / 16;
            let lo = (c as int) % 16;
            lemma_char_bounds(c);
            assert(0 <= (c as int) && (c as int) < 32);
            assert(0 <= hi && hi < 2);
            assert(0 <= lo && lo < 16);
            assert(s[i + 0] == e[0] && s[i + 1] == e[1] && s[i + 2] == e[2] && s[i + 3] == e[3]
                && s[i + 4] == e[4] && s[i + 5] == e[5]);
            assert(s[i] == '\\' && s[i + 1] == 'u' && s[i + 2] == '0' && s[i + 3] == '0');
            assert(s[i + 4] == hex_char(hi) && s[i + 5] == hex_char(lo));
            lemma_hex_char_val(0);
            assert(hex_char(0) == '0');
            lemma_hex_char_val(hi);
            lemma_hex_char_val(lo);
            let v = hex_val(s[i + 2]) * 4096 + hex_val(s[i + 3]) * 256 + hex_val(s[i + 4]) * 16
                + hex_val(s[i + 5]);
            assert(v == c as int);
            assert((v as char) == c);
        } else {
            assert(e =~= seq![c]);
            assert(s[i + 0] == e[0]);
            assert(s[i] == c);
        }
    }
}

/// A string literal written verbatim in its rendered form is exactly
/// what the string reader reads back.
pub proof fn lemma_string_at(s: Seq<char>, i: int, x: Seq<char>)
    requires
        0 <= i,
        i + esc_str(x).len() + 2 <= s.len(),
        s.subrange(i, i + esc_str(x).len() + 2) == ser_string(x),
    ensures
        sp_string(s, i) == Some((x, i + esc_str(x).len() + 2)),
{
    assert(s[i] == '"') by {
        assert(s[i] == s.subrange(i, i + esc_str(x).len() + 2)[0]);
    }
    lemma_ws_stops(s, i);
    assert(s.subrange(i + 1, i + 1 + esc_str(x).len() + 1) =~= esc_str(x) + seq!['"']) by {
        assert forall|k: int| 0 <= k < esc_str(x).len() + 1 implies s.subrange(
            i + 1,
            i + 1 + esc_str(x).len() + 1,
        )[k] == (esc_str(x) + seq!['"'])[k] by {
            assert(s.subrange(i + 1, i + 1 + esc_str(x).len() + 1)[k] == s[i + 1 + k]);
            assert(s[i + 1 + k] == s.subrange(i, i + esc_str(x).len() + 2)[k + 1]);
            assert(ser_string(x)[k + 1] == (esc_str(x) + seq!['"'])[k]);
        }
    }
    lemma_str_body_exact(s, i + 1, x);
}


/// One member key written verbatim: the rendered key string, then a
/// colon.
pub open spec fn key_text(k: Seq<char>) -> Seq<char> {
    ser_string(k) + seq![':']
}

/// A member key written verbatim is exactly what the member-key reader
/// reads, ending just after the colon.
pub proof fn lemma_member_key_at(s: Seq<char>, i: int, k: Seq<char>)
    requires
        0 <= i,
        i + esc_str(k).len() + 3 <= s.len(),
        s.subrange(i, i + esc_str(k).len() + 3) == key_text(k),
    ensures
        sp_member_key(s, i) == Some((k, i + esc_str(k).len() + 3)),
{
    let m: int = i + esc_str(k).len() + 2;
    assert(s.subrange(i, m) =~= ser_string(k)) by {
        assert forall|q: int| 0 <= q < esc_str(k).len() + 2 implies s.subrange(i, m)[q]
            == ser_string(k)[q] by {
            assert(s.subrange(i, m)[q] == s[i + q]);
            assert(s[i + q] == s.subrange(i, i + esc_str(k).len() + 3)[q]);
            assert(key_text(k)[q] == ser_string(k)[q]);
        }
    }
    lemma_string_at(s, i, k);
    assert(s[m] == ':') by {
        assert(s[m] == s.subrange(i, i + esc_str(k).len() + 3)[esc_str(k).len() as int + 2]);
    }
    lemma_char_tok_at(s, m, ':');
}

/// The canonical text of a usage object: the two required members, the
/// optional one exactly while it is set, in the documented order — one
/// text of the many member orders the grammar accepts.
pub open spec fn usage_text(u: UsageV) -> Seq<char> {
    seq!['{'] + key_text("prompt_tokens"@) + dec_of(u.prompt_tokens as nat) + (match u
        .completion_tokens {
        Some(c) => seq![','] + key_text("completion_tokens"@) + dec_of(c as nat),
        None => Seq::empty(),
    }) + seq![','] + key_text("total_tokens"@) + dec_of(u.total_tokens as nat) + seq!['}']
}

/// The tail of the usage walk: from the comma before `total_tokens`,
/// the reader takes the last member and the closing brace and yields
/// the whole value.
#[verifier::rlimit(100)]
proof fn lemma_usage_tail(u: UsageV, s: Seq<char>, p: int, a_ct: Option<Option<u32>>)
    requires
        s == usage_text(u),
        opt_flat(a_ct) == u.completion_tokens,
        p == s.len() - (1 + esc_str("total_tokens"@).len() + 3 + dec_of(
            u.total_tokens as nat,
        ).len() + 1),
        0 <= p < s.len(),
        s[p] == ',',
    ensures
        sp_usage_fold(s, p + 1, Some(u.prompt_tokens), a_ct, None) == Some((u, s.len() as int)),
{
    let kt = "total_tokens"@;
    let kp = "prompt_tokens"@;
    let kc = "completion_tokens"@;
    assert(kt != kp && kt != kc) by {
        reveal_strlit("prompt_tokens");
        reveal_strlit("completion_tokens");
        reveal_strlit("total_tokens");
    }
    let dt = dec_of(u.total_tokens as nat);
    lemma_dec_of_digits(u.total_tokens as nat);
    let ktl: int = esc_str(kt).len() as int + 3;
    assert(s.subrange(p + 1, p + 1 + ktl) =~= key_text(kt));
    lemma_member_key_at(s, p + 1, kt);
    let t1: int = p + 1 + ktl;
    let t2: int = t1 + dt.len() as int;
    assert(s.subrange(t1, t2) =~= dt);
    assert(s[t2] == '}');
    assert(!is_digit('}'));
    lemma_u32_at(s, t1, u.total_tokens);
    lemma_ws_stops(s, t2);
    assert(sp_char_tok(s, t2, ',') is None);
    lemma_char_tok_at(s, t2, '}');
    assert(t2 + 1 == s.len());
    assert(sp_usage_fin(Some(u.prompt_tokens), a_ct, Some(u.total_tokens), s.len() as int)
        == Some((u, s.len() as int))) by {
        assert(u == (UsageV {
            prompt_tokens: u.prompt_tokens,
            completion_tokens: u.completion_tokens,
            total_tokens: u.total_tokens,
        }));
    }
}

/// Round trip for the usage shape: the canonical text of any usage
/// value parses back to exactly that value, the whole text consumed;
/// an omitted optional member reads back as absent.
#[verifier::rlimit(100)]
pub proof fn lemma_usage_round_trip(u: UsageV)
    ensures
        sp_usage(usage_text(u), 0) == Some((u, usage_text(u).len() as int)),
{
    let s = usage_text(u);
    let kp = "prompt_tokens"@;
    let kc = "completion_tokens"@;
    let kt = "total_tokens"@;
    assert(kp != kc && kp != kt && kc != kt) by {
        reveal_strlit("prompt_tokens");
        reveal_strlit("completion_tokens");
        reveal_strlit("total_tokens");
    }
    let dp = dec_of(u.prompt_tokens as nat);
    lemma_dec_of_digits(u.prompt_tokens as nat);

    assert(s[0int] == '{');
    lemma_char_tok_at(s, 0, '{');
    assert(s[1int] == '"');
    lemma_ws_stops(s, 1);
    assert(sp_char_tok(s, 1, '}') is None);

    let kpl: int = esc_str(kp).len() as int + 3;
    assert(s.subrange(1, 1 + kpl) =~= key_text(kp));
    lemma_member_key_at(s, 1, kp);
    let p1: int = 1 + kpl;
    let p2: int = p1 + dp.len() as int;
    assert(s.subrange(p1, p2) =~= dp);
    assert(s[p2] == ',');
    lemma_u32_at(s, p1, u.prompt_tokens);
    lemma_char_tok_at(s, p2, ',');

    match u.completion_tokens {
        Some(c) => {
            let dc = dec_of(c as nat);
            lemma_dec_of_digits(c as nat);
            let kcl: int = esc_str(kc).len() as int + 3;
            assert(s.subrange(p2 + 1, p2 + 1 + kcl) =~= key_text(kc));
            lemma_member_key_at(s, p2 + 1, kc);
            let q1: int = p2 + 1 + kcl;
            let q2: int = q1 + dc.len() as int;
            assert(s.subrange(q1, q2) =~= dc);
            assert(s[q2] == ',');
            lemma_u32_at(s, q1, c);
            assert(sp_null(s, q1) is None) by {
                reveal_strlit("null");
                assert(s[q1] == dc[0]);
                assert(is_digit(s[q1]));
                lemma_ws_stops(s, q1);
                if sp_exact(s, q1, "null"@) is Some {
                    assert(s.subrange(q1, q1 + 4)[0] == 'n');
                }
            }
            lemma_char_tok_at(s, q2, ',');
            lemma_usage_tail(u, s, q2, Some(Some(c)));
            assert(sp_usage_fold(s, p2 + 1, Some(u.prompt_tokens), None, None)
                == sp_usage_fold(s, q2 + 1, Some(u.prompt_tokens), Some(Some(c)), None));
            assert(sp_usage_fold(s, 1, None, None, None) == sp_usage_fold(s, p2 + 1,
                Some(u.prompt_tokens), None, None));
        },
        None => {
            lemma_usage_tail(u, s, p2, None);
            assert(sp_usage_fold(s, 1, None, None, None) == sp_usage_fold(s, p2 + 1,
                Some(u.prompt_tokens), None, None));
        },
    }
}

/// The canonical text of a message object.
pub open spec fn message_text(m: MessageV) -> Seq<char> {
    seq!['{'] + key_text("role"@) + ser_string(m.role) + seq![','] + key_text("content"@)
        + ser_string(m.content) + seq!['}']
}

/// Round trip for the message shape: the canonical text of any message
/// parses back to exactly that message, the whole text consumed, both
/// strings with their escapes undone.
#[verifier::rlimit(100)]
pub proof fn lemma_message_round_trip(m: MessageV)
    ensures
        sp_message(message_text(m), 0) == Some((m, message_text(m).len() as int)),
{
    let s = message_text(m);
    let kr = "role"@;
    let kc = "content"@;
    assert(kr != kc) by {
        reveal_strlit("role");
        reveal_strlit("content");
    }
    assert(s[0int] == '{');
    lemma_char_tok_at(s, 0, '{');
    assert(s[1int] == '"');
    lemma_ws_stops(s, 1);
    assert(sp_char_tok(s, 1, '}') is None);

    let krl: int = esc_str(kr).len() as int + 3;
    assert(s.subrange(1, 1 + krl) =~= key_text(kr));
    lemma_member_key_at(s, 1, kr);
    let p1: int = 1 + krl;
    let sr = ser_string(m.role);
    let p2: int = p1 + sr.len() as int;
    assert(s.subrange(p1, p2) =~= sr);
    lemma_string_at(s, p1, m.role);
    assert(s[p2] == ',');
    lemma_char_tok_at(s, p2, ',');

    let kcl: int = esc_str(kc).len() as int + 3;
    assert(s.subrange(p2 + 1, p2 + 1 + kcl) =~= key_text(kc));
    lemma_member_key_at(s, p2 + 1, kc);
    let q1: int = p2 + 1 + kcl;
    let sc = ser_string(m.content);
    let q2: int = q1 + sc.len() as int;
    assert(s.subrange(q1, q2) =~= sc);
    lemma_string_at(s, q1, m.content);
    assert(s[q2] == '}');
    lemma_ws_stops(s, q2);
    assert(sp_char_tok(s, q2, ',') is None);
    lemma_char_tok_at(s, q2, '}');
    assert(q2 + 1 == s.len());
    assert(sp_message_fold(s, p2 + 1, Some(m.role), None) == sp_message_fin(Some(m.role),
        Some(m.content), s.len() as int));
    assert(sp_message_fold(s, 1, None, None) == sp_message_fold(s, p2 + 1, Some(m.role), None));
    assert(m == (MessageV { role: m.role, content: m.content }));
}


/// At a string literal no `null` token can stand.
proof fn lemma_null_not_string(s: Seq<char>, i: int)
    requires
        0 <= i < s.len(),
        s[i] == '"',
    ensures
        sp_null(s, i) is None,
{
    reveal_strlit("null");
    lemma_ws_stops(s, i);
    if sp_exact(s, i, "null"@) is Some {
        assert(s.subrange(i, i + 4)[0] == 'n');
    }
}

/// The canonical text of a delta object: one member per set field, in
/// the documented order; the empty delta is the empty object.
pub open spec fn delta_text(d: DeltaV) -> Seq<char> {
    match (d.role, d.content) {
        (None, None) => seq!['{', '}'],
        (Some(r), None) => seq!['{'] + key_text("role"@) + ser_string(r) + seq!['}'],
        (None, Some(c)) => seq!['{'] + key_text("content"@) + ser_string(c) + seq!['}'],
        (Some(r), Some(c)) => seq!['{'] + key_text("role"@) + ser_string(r) + seq![',']
            + key_text("content"@) + ser_string(c) + seq!['}'],
    }
}

/// Round trip for an empty delta.
#[verifier::rlimit(100)]
proof fn lemma_delta_rt_empty(d: DeltaV)
    requires
        d.role is None,
        d.content is None,
    ensures
        sp_delta(delta_text(d), 0) == Some((d, delta_text(d).len() as int)),
{
    let s = delta_text(d);
    assert(s[0int] == '{');
    lemma_char_tok_at(s, 0, '{');
    assert(s[1int] == '}');
    lemma_char_tok_at(s, 1, '}');
    assert(sp_delta_fin(None, None, 2) == Some((d, 2int))) by {
        assert(d == (DeltaV { role: None, content: None }));
    }
}

/// Round trip for a delta with only its role set.
#[verifier::rlimit(100)]
proof fn lemma_delta_rt_role(d: DeltaV, r: Seq<char>)
    requires
        d.role == Some(r),
        d.content is None,
    ensures
        sp_delta(delta_text(d), 0) == Some((d, delta_text(d).len() as int)),
{
    let s = delta_text(d);
    let kr = "role"@;
    assert(s[0int] == '{');
    lemma_char_tok_at(s, 0, '{');
    assert(s[1int] == '"');
    lemma_ws_stops(s, 1);
    assert(sp_char_tok(s, 1, '}') is None);
    let krl: int = esc_str(kr).len() as int + 3;
    assert(s.subrange(1, 1 + krl) =~= key_text(kr));
    lemma_member_key_at(s, 1, kr);
    let p1: int = 1 + krl;
    let sr = ser_string(r);
    let p2: int = p1 + sr.len() as int;
    assert(s.subrange(p1, p2) =~= sr);
    lemma_string_at(s, p1, r);
    assert(s[p1] == sr[0]);
    lemma_null_not_string(s, p1);
    assert(s[p2] == '}');
    lemma_ws_stops(s, p2);
    assert(sp_char_tok(s, p2, ',') is None);
    lemma_char_tok_at(s, p2, '}');
    assert(p2 + 1 == s.len());
    assert(sp_delta_fold(s, 1, None, None) == sp_delta_fin(Some(Some(r)), None,
        s.len() as int));
    assert(d == (DeltaV { role: Some(r), content: None }));
}

/// Round trip for a delta with only its content set.
#[verifier::rlimit(100)]
proof fn lemma_delta_rt_content(d: DeltaV, c: Seq<char>)
    requires
        d.role is None,
        d.content == Some(c),
    ensures
        sp_delta(delta_text(d), 0) == Some((d, delta_text(d).len() as int)),
{
    let s = delta_text(d);
    let kr = "role"@;
    let kc = "content"@;
    assert(kr != kc) by {
        reveal_strlit("role");
        reveal_strlit("content");
    }
    assert(s[0int] == '{');
    lemma_char_tok_at(s, 0, '{');
    assert(s[1int] == '"');
    lemma_ws_stops(s, 1);
    assert(sp_char_tok(s, 1, '}') is None);
    let kcl: int = esc_str(kc).len() as int + 3;
    assert(s.subrange(1, 1 + kcl) =~= key_text(kc));
    lemma_member_key_at(s, 1, kc);
    let p1: int = 1 + kcl;
    let sc = ser_string(c);
    let p2: int = p1 + sc.len() as int;
    assert(s.subrange(p1, p2) =~= sc);
    lemma_string_at(s, p1, c);
    assert(s[p1] == sc[0]);
    lemma_null_not_string(s, p1);
    assert(s[p2] == '}');
    lemma_ws_stops(s, p2);
    assert(sp_char_tok(s, p2, ',') is None);
    lemma_char_tok_at(s, p2, '}');
    assert(p2 + 1 == s.len());
    assert(sp_delta_fold(s, 1, None, None) == sp_delta_fin(None, Some(Some(c)),
        s.len() as int));
    assert(d == (DeltaV { role: None, content: Some(c) }));
}

/// Round trip for a delta with both fields set.
#[verifier::rlimit(100)]
proof fn lemma_delta_rt_both(d: DeltaV, r: Seq<char>, c: Seq<char>)
    requires
        d.role == Some(r),
        d.content == Some(c),
    ensures
        sp_delta(delta_text(d), 0) == Some((d, delta_text(d).len() as int)),
{
    let s = delta_text(d);
    let kr = "role"@;
    let kc = "content"@;
    assert(kr != kc) by {
        reveal_strlit("role");
        reveal_strlit("content");
    }
    assert(s[0int] == '{');
    lemma_char_tok_at(s, 0, '{');
    assert(s[1int] == '"');
    lemma_ws_stops(s, 1);
    assert(sp_char_tok(s, 1, '}') is None);
    let krl: int = esc_str(kr).len() as int + 3;
    assert(s.subrange(1, 1 + krl) =~= key_text(kr));
    lemma_member_key_at(s, 1, kr);
    let p1: int = 1 + krl;
    let sr = ser_string(r);
    let p2: int = p1 + sr.len() as int;
    assert(s.subrange(p1, p2) =~= sr);
    lemma_string_at(s, p1, r);
    assert(s[p1] == sr[0]);
    lemma_null_not_string(s, p1);
    assert(s[p2] == ',');
    lemma_char_tok_at(s, p2, ',');
    let kcl: int = esc_str(kc).len() as int + 3;
    assert(s.subrange(p2 + 1, p2 + 1 + kcl) =~= key_text(kc));
    lemma_member_key_at(s, p2 + 1, kc);
    let q1: int = p2 + 1 + kcl;
    let sc = ser_string(c);
    let q2: int = q1 + sc.len() as int;
    assert(s.subrange(q1, q2) =~= sc);
    lemma_string_at(s, q1, c);
    assert(s[q1] == sc[0]);
    lemma_null_not_string(s, q1);
    assert(s[q2] == '}');
    lemma_ws_stops(s, q2);
    assert(sp_char_tok(s, q2, ',') is None);
    lemma_char_tok_at(s, q2, '}');
    assert(q2 + 1 == s.len());
    assert(sp_delta_fold(s, p2 + 1, Some(Some(r)), None) == sp_delta_fin(Some(Some(r)),
        Some(Some(c)), s.len() as int));
    assert(sp_delta_fold(s, 1, None, None) == sp_delta_fold(s, p2 + 1, Some(Some(r)), None));
    assert(d == (DeltaV { role: Some(r), content: Some(c) }));
}

/// Round trip for the delta shape: the canonical text of any delta
/// parses back to exactly that delta; an omitted member reads back as
/// absent, and the empty object reads back as the empty delta.
pub proof fn lemma_delta_round_trip(d: DeltaV)
    ensures
        sp_delta(delta_text(d), 0) == Some((d, delta_text(d).len() as int)),
{
    match (d.role, d.content) {
        (None, None) => lemma_delta_rt_empty(d),
        (Some(r), None) => lemma_delta_rt_role(d, r),
        (None, Some(c)) => lemma_delta_rt_content(d, c),
        (Some(r), Some(c)) => lemma_delta_rt_both(d, r, c),
    }
}

} // verus!
