//! The streaming response decoder: each network read is decoded as
//! text (lossily, so invalid bytes cannot abort the stream), split
//! into lines, and scanned for the first `data: ` payload other than
//! the `[DONE]` sentinel; that payload is parsed as one chunk. A read
//! without such a payload yields a failure element, never a panic.
//! Reads are decoded independently, one element per read, exactly as
//! the wire protocol frames them; the stream ends with the byte
//! source, not with the sentinel.

use vstd::prelude::*;
use crate::model::{ChatCompletionChunk, ChatCompletionChunkV};
use crate::parse::{sp_chunk_doc, p_chunk, p_ws, p_exact, sp_exact};
use crate::text::str_chars;

verus! {

/// What the characters of one network read decode to.
#[derive(Clone, Copy, Debug, PartialEq, Eq, Structural)]
pub enum DecodeError {
    /// No line of the read carried a `data: ` payload other than the
    /// sentinel.
    NoData,
    /// The first such payload was not a well-formed chunk.
    MalformedChunk,
}

/// What a raw byte sequence decodes to as text, with invalid sequences
/// replaced rather than rejected.
pub uninterp spec fn lossy_of(b: Seq<u8>) -> Seq<char>;

/// Relies on `String::from_utf8_lossy`: invalid sequences become
/// replacement characters, the rest decodes as UTF-8; in particular
/// bytes that are all ASCII decode to exactly those characters.
#[verifier::external_body]
pub(crate) fn lossy_decode(b: &Vec<u8>) -> (r: String)
    ensures
        r@ == lossy_of(b@),
        (forall|k: int| 0 <= k < b@.len() ==> b@[k] < 0x80) ==> r@ == b@.map_values(
            |x: u8| x as char,
        ),
{
    String::from_utf8_lossy(b).into_owned()
}

/// The position of the first line feed at or after `i`, or the end.
pub open spec fn sp_find_nl(s: Seq<char>, i: int) -> int
    decreases s.len() - i,
{
    if 0 <= i < s.len() {
        if s[i] == '\n' {
            i
        } else {
            sp_find_nl(s, i + 1)
        }
    } else {
        i
    }
}

pub fn p_find_nl(s: &Vec<char>, i: usize) -> (r: usize)
    requires
        i <= s.len(),
    ensures
        r as int == sp_find_nl(s@, i as int),
        i <= r <= s@.len(),
    decreases s@.len() - i,
{
    if i < s.len() {
        if s[i] == '\n' {
            i
        } else {
            p_find_nl(s, i + 1)
        }
    } else {
        i
    }
}

/// A line as the line iterator of the standard library yields it: the
/// text before the line feed, with one carriage return before the line
/// feed stripped.
pub open spec fn strip_cr(line: Seq<char>) -> Seq<char> {
    if line.len() > 0 && line.last() == '\r' {
        line.drop_last()
    } else {
        line
    }
}

/// The payload of the first `data: ` line at or after position `i`
/// whose payload is not the `[DONE]` sentinel.
pub open spec fn sp_scan(s: Seq<char>, i: int) -> Option<Seq<char>>
    decreases s.len() - i,
{
    if !(0 <= i < s.len()) {
        None
    } else {
        let j = sp_find_nl(s, i);
        if !(i <= j <= s.len()) {
            None
        } else {
            let line = strip_cr(s.subrange(i, j));
            let hit = line.len() >= 6 && line.subrange(0, 6) == "data: "@ && line.skip(6)
                != "[DONE]"@;
            if hit {
                Some(line.skip(6))
            } else if j < s.len() {
                sp_scan(s, j + 1)
            } else {
                None
            }
        }
    }
}

/// What one read's text decodes to: the first usable payload parsed
/// as a chunk, a decode failure where the payload is malformed, and
/// `NoData` where no line carries a usable payload.
pub open spec fn sp_decode_text(s: Seq<char>) -> Result<ChatCompletionChunkV, DecodeError> {
    match sp_scan(s, 0) {
        None => Err(DecodeError::NoData),
        Some(p) => match sp_chunk_doc(p) {
            Some(v) => Ok(v),
            None => Err(DecodeError::MalformedChunk),
        },
    }
}

/// The first usable payload of the text, as its own characters.
fn scan_text(s: &Vec<char>, i: usize) -> (r: Option<Vec<char>>)
    requires
        i <= s.len(),
    ensures
        match r {
            Some(p) => sp_scan(s@, i as int) == Some(p@),
            None => sp_scan(s@, i as int) is None,
        },
    decreases s@.len() - i,
{
    if i >= s.len() {
        return None;
    }
    let j = p_find_nl(s, i);
    let end: usize = if j > i && s[j - 1] == '\r' {
        j - 1
    } else {
        j
    };
    let ghost line = s@.subrange(i as int, end as int);
    proof {
        assert(strip_cr(s@.subrange(i as int, j as int)) =~= line);
    }
    let ghost spec_hit = line.len() >= 6 && line.subrange(0, 6) == "data: "@ && line.skip(6)
        != "[DONE]"@;
    let mut hit = false;
    let mut payload: Vec<char> = Vec::new();
    if end - i >= 6 {
        let prefix = str_chars("data: ");
        match p_exact(s, i, &prefix) {
            Some(_q) => {
                proof {
                    reveal_strlit("data: ");
                    assert(line.subrange(0, 6) =~= s@.subrange(i as int, i + 6));
                    assert(line.subrange(0, 6) == "data: "@);
                }
                let mut k: usize = i + 6;
                while k < end
                    invariant
                        i + 6 <= k <= end <= s@.len(),
                        payload@ == s@.subrange(i + 6 as int, k as int),
                    decreases end - k,
                {
                    payload.push(s[k]);
                    k = k + 1;
                    assert(payload@ =~= s@.subrange(i + 6 as int, k as int));
                }
                proof {
                    assert(payload@ =~= line.skip(6));
                }
                let done = str_chars("[DONE]");
                let de = p_exact(&payload, 0, &done);
                let is_done = payload.len() == 6 && de.is_some();
                proof {
                    reveal_strlit("[DONE]");
                    if is_done {
                        assert(payload@.subrange(0, 6) =~= payload@);
                        assert(payload@ == "[DONE]"@);
                    } else {
                        if payload@ == "[DONE]"@ {
                            assert(payload@.len() == 6);
                            assert(payload@.subrange(0, 6) =~= payload@);
                            assert(sp_exact(payload@, 0, "[DONE]"@) is Some);
                        }
                        assert(payload@ != "[DONE]"@);
                    }
                }
                if !is_done {
                    hit = true;
                }
                proof {
                    assert(hit == spec_hit);
                }
            },
            None => {
                proof {
                    reveal_strlit("data: ");
                    if line.len() >= 6 && line.subrange(0, 6) == "data: "@ {
                        assert(s@.subrange(i as int, i + 6) =~= line.subrange(0, 6));
                        assert(sp_exact(s@, i as int, "data: "@) is Some);
                    }
                    assert(!spec_hit);
                }
            },
        }
    } else {
        proof {
            reveal_strlit("data: ");
            assert(line.len() < 6);
            assert(!spec_hit);
        }
    }
    if hit {
        proof {
            assert(sp_scan(s@, i as int) == Some(line.skip(6)));
        }
        Some(payload)
    } else if j < s.len() {
        let r = scan_text(s, j + 1);
        proof {
            assert(sp_scan(s@, i as int) == sp_scan(s@, j + 1 as int));
        }
        r
    } else {
        None
    }
}

/// Decode the text of one network read.
pub fn decode_text(s: &str) -> (r: Result<ChatCompletionChunk, DecodeError>)
    ensures
        match r {
            Ok(v) => sp_decode_text(s@) == Ok::<ChatCompletionChunkV, DecodeError>(v@),
            Err(e) => sp_decode_text(s@) == Err::<ChatCompletionChunkV, DecodeError>(e),
        },
{
    let cs = str_chars(s);
    match scan_text(&cs, 0) {
        None => Err(DecodeError::NoData),
        Some(p) => {
            match p_chunk(&p, 0) {
                None => Err(DecodeError::MalformedChunk),
                Some((v, j)) => {
                    let e = p_ws(&p, j);
                    if e == p.len() {
                        Ok(v)
                    } else {
                        Err(DecodeError::MalformedChunk)
                    }
                },
            }
        },
    }
}

/// Decode one raw network read: lossy text decoding first, so invalid
/// bytes are replaced and the rest is still scanned, then the line
/// scan. Yields exactly one element per read.
pub fn decode_read(bytes: &Vec<u8>) -> (r: Result<ChatCompletionChunk, DecodeError>)
    ensures
        match r {
            Ok(v) => sp_decode_text(lossy_of(bytes@)) == Ok::<ChatCompletionChunkV, DecodeError>(
                v@,
            ),
            Err(e) => sp_decode_text(lossy_of(bytes@)) == Err::<
                ChatCompletionChunkV,
                DecodeError,
            >(e),
        },
{
    let text = lossy_decode(bytes);
    decode_text(text.as_str())
}

/// What a whole session of reads decodes to: one element per read, in
/// the reads' order, each read decoded independently.
pub open spec fn sp_decode_session(reads: Seq<Seq<u8>>) -> Seq<
    Result<ChatCompletionChunkV, DecodeError>,
> {
    reads.map_values(|b: Seq<u8>| sp_decode_text(lossy_of(b)))
}

/// Decode a sequence of reads, eagerly. The streaming caller applies
/// `decode_read` to each read as it arrives; this function fixes what
/// that produces: the session of the reads, in order, ending with the
/// reads themselves.
pub fn decode_reads(reads: &Vec<Vec<u8>>) -> (r: Vec<Result<ChatCompletionChunk, DecodeError>>)
    ensures
        r@.len() == sp_decode_session(reads.deep_view()).len(),
        forall|k: int| 0 <= k < r@.len() ==> #[trigger] result_view(r@[k]) == sp_decode_session(
            reads.deep_view(),
        )[k],
{
    let mut out: Vec<Result<ChatCompletionChunk, DecodeError>> = Vec::new();
    let mut i: usize = 0;
    while i < reads.len()
        invariant
            i <= reads@.len(),
            out@.len() == i,
            forall|k: int| 0 <= k < i ==> #[trigger] result_view(out@[k]) == sp_decode_text(
                lossy_of(reads.deep_view()[k]),
            ),
        decreases reads@.len() - i,
    {
        let r = decode_read(&reads[i]);
        out.push(r);
        proof {
            assert(reads.deep_view()[i as int] =~= reads@[i as int]@);
            assert(result_view(out@[i as int]) == sp_decode_text(
                lossy_of(reads.deep_view()[i as int]),
            ));
        }
        i = i + 1;
    }
    proof {
        assert forall|k: int| 0 <= k < out@.len() implies #[trigger] result_view(out@[k])
            == sp_decode_session(reads.deep_view())[k] by {
            assert(sp_decode_session(reads.deep_view())[k] == sp_decode_text(
                lossy_of(reads.deep_view()[k]),
            ));
        }
    }
    out
}

/// The abstract value of one decoded element.
pub open spec fn result_view(r: Result<ChatCompletionChunk, DecodeError>) -> Result<
    ChatCompletionChunkV,
    DecodeError,
> {
    match r {
        Ok(v) => Ok(v@),
        Err(e) => Err(e),
    }
}

/// Two consecutive reads decode to two consecutive elements: the
/// session of two reads is exactly the decode of the first, then the
/// decode of the second, in that order.
pub proof fn lemma_session_order(a: Seq<u8>, b: Seq<u8>)
    ensures
        sp_decode_session(seq![a, b]) == seq![
            sp_decode_text(lossy_of(a)),
            sp_decode_text(lossy_of(b)),
        ],
{
    assert(sp_decode_session(seq![a, b]) =~= seq![
        sp_decode_text(lossy_of(a)),
        sp_decode_text(lossy_of(b)),
    ]);
}


/// The first line feed is where the first line-feed-free stretch ends.
pub proof fn lemma_find_nl_at(s: Seq<char>, i: int, m: int)
    requires
        0 <= i <= m <= s.len(),
        forall|k: int| i <= k < m ==> s[k] != '\n',
        m == s.len() || s[m] == '\n',
    ensures
        sp_find_nl(s, i) == m,
    decreases m - i,
{
    if i < m {
        lemma_find_nl_at(s, i + 1, m);
    }
}

/// A single read holding one `data: ` line with a payload other than
/// the sentinel decodes to exactly that payload's parse: one chunk
/// where the payload is a well-formed chunk, one malformed-chunk
/// failure otherwise.
pub proof fn lemma_decode_single_data_line(p: Seq<char>)
    requires
        forall|k: int| 0 <= k < p.len() ==> p[k] != '\n',
        p.len() > 0 ==> p.last() != '\r',
        p != "[DONE]"@,
    ensures
        sp_decode_text("data: "@ + p + seq!['\n']) == match sp_chunk_doc(p) {
            Some(v) => Ok::<ChatCompletionChunkV, DecodeError>(v),
            None => Err::<ChatCompletionChunkV, DecodeError>(DecodeError::MalformedChunk),
        },
{
    reveal_strlit("data: ");
    let t = "data: "@ + p + seq!['\n'];
    let m = 6 + p.len() as int;
    assert forall|k: int| 0 <= k < m implies t[k] != '\n' by {
        if k < 6 {
            assert(t[k] == "data: "@[k]);
        } else {
            assert(t[k] == p[k - 6]);
        }
    }
    assert(t[m] == '\n');
    lemma_find_nl_at(t, 0, m);
    let line = strip_cr(t.subrange(0, m));
    assert(t.subrange(0, m) =~= "data: "@ + p);
    assert(line == "data: "@ + p);
    assert(line.subrange(0, 6) =~= "data: "@);
    assert(line.skip(6) =~= p);
    assert(sp_scan(t, 0) == Some(p));
}

/// A read holding only the sentinel line decodes to exactly one
/// failure element, the one that says the read carried no data.
#[verifier::rlimit(100)]
pub proof fn lemma_decode_done_line()
    ensures
        sp_decode_text("data: [DONE]\n"@) == Err::<ChatCompletionChunkV, DecodeError>(
            DecodeError::NoData,
        ),
{
    let t = "data: [DONE]\n"@;
    let u = "data: "@ + "[DONE]"@ + seq!['\n'];
    assert(t =~= u) by {
        reveal_strlit("data: [DONE]\n");
        reveal_strlit("data: ");
        reveal_strlit("[DONE]");
    }
    assert forall|k: int| 0 <= k < 12 implies u[k] != '\n' by {
        reveal_strlit("data: ");
        reveal_strlit("[DONE]");
        if k < 6 {
            assert(u[k] == "data: "@[k]);
        } else {
            assert(u[k] == "[DONE]"@[k - 6]);
        }
    }
    assert(u.len() == 13) by {
        reveal_strlit("data: ");
        reveal_strlit("[DONE]");
    }
    lemma_find_nl_at(u, 0, 12);
    let line = strip_cr(u.subrange(0, 12));
    assert(u.subrange(0, 12) =~= "data: "@ + "[DONE]"@);
    assert(u.subrange(0, 12).last() == ']') by {
        reveal_strlit("[DONE]");
    }
    assert(']' != '\r');
    assert(line == "data: "@ + "[DONE]"@);
    assert(line.skip(6) =~= "[DONE]"@) by {
        reveal_strlit("data: ");
        reveal_strlit("[DONE]");
    }
    assert(!(line.len() >= 6 && line.subrange(0, 6) == "data: "@ && line.skip(6) != "[DONE]"@));
    assert(sp_scan(u, 13) is None);
    assert(sp_scan(u, 0) is None);
    assert(sp_decode_text(t) == Err::<ChatCompletionChunkV, DecodeError>(DecodeError::NoData));
}

} // verus!
