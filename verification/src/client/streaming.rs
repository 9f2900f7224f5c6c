//! The server-sent-event stream: a line-buffered decoder from raw
//! network bytes to `data:` payloads, and the adapter that consumes the
//! resulting chunk sequence.
//!
//! One network read may carry a partial line or several frames, so the
//! decoder keeps the bytes after the last newline across reads and
//! interprets a line only once its newline has arrived. The buffering
//! law `lemma_feed_split` states that where the reads are cut can never
//! change the payloads.

use vstd::prelude::*;
use vstd::string::StringExecFns;
use vstd::string::StringSliceAdditionalSpecFns;
use crate::client::decode::{decode_chunk_bytes, json_doc, json_parses, reads_chunk};
use crate::client::error::{GlmError, GlmResult};
use crate::client::types::StreamingChatCompletionResponse;

verus! {

// --- The line model of a byte stream ---

/// The bytes after the last newline: the partial line a decoder must
/// hold back.
pub open spec fn sse_rest(s: Seq<u8>) -> Seq<u8>
    decreases s.len(),
{
    if s.len() == 0 {
        Seq::<u8>::empty()
    } else if s.last() == 10 {
        Seq::<u8>::empty()
    } else {
        sse_rest(s.drop_last()).push(s.last())
    }
}

/// The complete, newline-terminated lines of a byte stream, in order,
/// without their newlines.
pub open spec fn sse_lines(s: Seq<u8>) -> Seq<Seq<u8>>
    decreases s.len(),
{
    if s.len() == 0 {
        Seq::<Seq<u8>>::empty()
    } else if s.last() == 10 {
        sse_lines(s.drop_last()).push(sse_rest(s.drop_last()))
    } else {
        sse_lines(s.drop_last())
    }
}

/// The `"data: "` frame prefix.
pub open spec fn data_prefix() -> Seq<u8> {
    seq![100u8, 97u8, 116u8, 97u8, 58u8, 32u8]
}

/// What one complete line contributes: blank lines, comment lines
/// (leading `:`), and lines without the `"data: "` prefix carry nothing;
/// a data line carries the bytes after the prefix.
pub open spec fn line_payload(line: Seq<u8>) -> Option<Seq<u8>> {
    if line.len() == 0 {
        None
    } else if line[0] == 58 {
        None
    } else if line.len() >= 6 && line.subrange(0, 6) == data_prefix() {
        Some(line.skip(6))
    } else {
        None
    }
}

/// ASCII whitespace, as the terminal-marker comparison ignores it.
pub open spec fn is_ws(b: u8) -> bool {
    b == 32 || b == 9 || b == 13 || b == 10
}

pub open spec fn trim_right(s: Seq<u8>) -> Seq<u8>
    decreases s.len(),
{
    if s.len() == 0 {
        s
    } else if is_ws(s.last()) {
        trim_right(s.drop_last())
    } else {
        s
    }
}

pub open spec fn trim_left(s: Seq<u8>) -> Seq<u8>
    decreases s.len(),
{
    if s.len() == 0 {
        s
    } else if is_ws(s[0]) {
        trim_left(s.drop_first())
    } else {
        s
    }
}

pub open spec fn trim_bytes(s: Seq<u8>) -> Seq<u8> {
    trim_left(trim_right(s))
}

/// The `[DONE]` terminal marker.
pub open spec fn done_marker() -> Seq<u8> {
    seq![91u8, 68u8, 79u8, 78u8, 69u8, 93u8]
}

/// Whether a payload, ignoring surrounding whitespace, is the terminal
/// marker that ends the stream.
pub open spec fn is_done_marker(p: Seq<u8>) -> bool {
    trim_bytes(p) == done_marker()
}

/// The payloads a sequence of complete lines yields, stopping at the
/// terminal marker: nothing after `[DONE]` is emitted.
pub open spec fn payloads_of_lines(lines: Seq<Seq<u8>>) -> Seq<Seq<u8>>
    decreases lines.len(),
{
    if lines.len() == 0 {
        Seq::<Seq<u8>>::empty()
    } else {
        match line_payload(lines[0]) {
            Some(p) => if is_done_marker(p) {
                Seq::<Seq<u8>>::empty()
            } else {
                seq![p] + payloads_of_lines(lines.drop_first())
            },
            None => payloads_of_lines(lines.drop_first()),
        }
    }
}

/// Whether some line carries the terminal marker.
pub open spec fn done_in_lines(lines: Seq<Seq<u8>>) -> bool
    decreases lines.len(),
{
    if lines.len() == 0 {
        false
    } else {
        match line_payload(lines[0]) {
            Some(p) => is_done_marker(p) || done_in_lines(lines.drop_first()),
            None => done_in_lines(lines.drop_first()),
        }
    }
}

/// The payloads of a whole byte stream.
pub open spec fn sse_payloads(s: Seq<u8>) -> Seq<Seq<u8>> {
    payloads_of_lines(sse_lines(s))
}

pub open spec fn sse_done(s: Seq<u8>) -> bool {
    done_in_lines(sse_lines(s))
}

// --- Laws of the model ---

proof fn lemma_rest_no_newline(s: Seq<u8>)
    ensures
        forall|i: int| 0 <= i < sse_rest(s).len() ==> sse_rest(s)[i] != 10,
    decreases s.len(),
{
    if s.len() > 0 && s.last() != 10 {
        lemma_rest_no_newline(s.drop_last());
        assert forall|i: int| 0 <= i < sse_rest(s).len() implies sse_rest(s)[i] != 10 by {
            if i < sse_rest(s).len() - 1 {
                assert(sse_rest(s)[i] == sse_rest(s.drop_last())[i]);
            } else {
                assert(sse_rest(s)[i] == s.last());
            }
        }
    }
}

proof fn lemma_newline_free(s: Seq<u8>)
    requires
        forall|i: int| 0 <= i < s.len() ==> s[i] != 10,
    ensures
        sse_lines(s) =~= Seq::<Seq<u8>>::empty(),
        sse_rest(s) =~= s,
    decreases s.len(),
{
    if s.len() > 0 {
        assert(s.last() != 10);
        lemma_newline_free(s.drop_last());
    }
}

/// The buffering law at the level of lines: cutting the stream after `a`
/// and carrying `sse_rest(a)` forward yields the very lines of the uncut
/// stream, in order, and the same residue.
pub proof fn lemma_lines_split(a: Seq<u8>, b: Seq<u8>)
    ensures
        sse_lines(a + b) =~= sse_lines(a) + sse_lines(sse_rest(a) + b),
        sse_rest(a + b) =~= sse_rest(sse_rest(a) + b),
    decreases b.len(),
{
    if b.len() == 0 {
        assert(a + b =~= a);
        lemma_rest_no_newline(a);
        lemma_newline_free(sse_rest(a));
        assert(sse_rest(a) + b =~= sse_rest(a));
        assert(sse_lines(a) + sse_lines(sse_rest(a) + b) =~= sse_lines(a));
    } else {
        let b0 = b.drop_last();
        lemma_lines_split(a, b0);
        assert((a + b).drop_last() =~= a + b0);
        assert((sse_rest(a) + b).drop_last() =~= sse_rest(a) + b0);
        if b.last() == 10 {
            assert(sse_lines(a + b) =~= sse_lines(a + b0).push(sse_rest(a + b0)));
            assert(sse_lines(sse_rest(a) + b) =~= sse_lines(sse_rest(a) + b0).push(
                sse_rest(sse_rest(a) + b0),
            ));
        }
    }
}

/// Appending lines after the terminal marker changes nothing; before it,
/// their payloads follow in order.
pub proof fn lemma_payloads_concat(l1: Seq<Seq<u8>>, l2: Seq<Seq<u8>>)
    ensures
        done_in_lines(l1 + l2) == (done_in_lines(l1) || done_in_lines(l2)),
        payloads_of_lines(l1 + l2) =~= if done_in_lines(l1) {
            payloads_of_lines(l1)
        } else {
            payloads_of_lines(l1) + payloads_of_lines(l2)
        },
    decreases l1.len(),
{
    if l1.len() == 0 {
        assert(l1 + l2 =~= l2);
    } else {
        assert((l1 + l2)[0] == l1[0]);
        assert((l1 + l2).drop_first() =~= l1.drop_first() + l2);
        lemma_payloads_concat(l1.drop_first(), l2);
    }
}

/// The buffering law (the reason the decoder is line-buffered): however
/// a byte stream is cut into two reads, feeding the pieces through the
/// decoder yields exactly the payloads of the uncut stream.
pub proof fn lemma_feed_split(a: Seq<u8>, b: Seq<u8>)
    ensures
        sse_done(a + b) == (sse_done(a) || sse_done(sse_rest(a) + b)),
        sse_payloads(a + b) =~= if sse_done(a) {
            sse_payloads(a)
        } else {
            sse_payloads(a) + sse_payloads(sse_rest(a) + b)
        },
{
    lemma_lines_split(a, b);
    lemma_payloads_concat(sse_lines(a), sse_lines(sse_rest(a) + b));
}

proof fn lemma_lines_push(lines: Seq<Seq<u8>>, l: Seq<u8>)
    ensures
        done_in_lines(lines.push(l)) == (done_in_lines(lines) || (line_payload(l) matches Some(p)
            && is_done_marker(p))),
        payloads_of_lines(lines.push(l)) =~= if done_in_lines(lines) {
            payloads_of_lines(lines)
        } else {
            match line_payload(l) {
                Some(p) => if is_done_marker(p) {
                    payloads_of_lines(lines)
                } else {
                    payloads_of_lines(lines).push(p)
                },
                None => payloads_of_lines(lines),
            }
        },
    decreases lines.len(),
{
    if lines.len() == 0 {
        assert(lines.push(l)[0] == l);
        assert(lines.push(l).drop_first() =~= Seq::<Seq<u8>>::empty());
        assert(lines.push(l).drop_first() == Seq::<Seq<u8>>::empty());
        assert(!done_in_lines(Seq::<Seq<u8>>::empty()));
        assert(payloads_of_lines(Seq::<Seq<u8>>::empty()) == Seq::<Seq<u8>>::empty());
        match line_payload(l) {
            Some(p) => {
                if !is_done_marker(p) {
                    assert(payloads_of_lines(lines.push(l)) == seq![p] + payloads_of_lines(
                        lines.push(l).drop_first(),
                    ));
                    assert(seq![p] + Seq::<Seq<u8>>::empty() =~= payloads_of_lines(lines).push(
                        p,
                    ));
                }
            },
            None => {},
        }
    } else {
        assert(lines.push(l)[0] == lines[0]);
        assert(lines.push(l).drop_first() =~= lines.drop_first().push(l));
        lemma_lines_push(lines.drop_first(), l);
    }
}

// --- Executable helpers ---

proof fn lemma_trim_right_at(s: Seq<u8>, r: int)
    requires
        0 <= r <= s.len(),
        forall|j: int| r <= j < s.len() ==> is_ws(#[trigger] s[j]),
        r == 0 || !is_ws(s[r - 1]),
    ensures
        trim_right(s) =~= s.subrange(0, r),
    decreases s.len(),
{
    if s.len() == 0 {
    } else if is_ws(s.last()) {
        assert(r < s.len());
        lemma_trim_right_at(s.drop_last(), r);
        assert(s.drop_last().subrange(0, r) =~= s.subrange(0, r));
    } else {
        assert(r == s.len());
        assert(s.subrange(0, r) =~= s);
    }
}

proof fn lemma_trim_left_at(s: Seq<u8>, l: int)
    requires
        0 <= l <= s.len(),
        forall|j: int| 0 <= j < l ==> is_ws(#[trigger] s[j]),
        l == s.len() || !is_ws(s[l]),
    ensures
        trim_left(s) =~= s.skip(l),
    decreases s.len(),
{
    if s.len() == 0 {
    } else if is_ws(s[0]) {
        assert(l > 0);
        lemma_trim_left_at(s.drop_first(), l - 1);
        assert(s.drop_first().skip(l - 1) =~= s.skip(l));
    } else {
        assert(l == 0);
        assert(s.skip(0) =~= s);
    }
}

/// Whether a payload is the `[DONE]` terminal marker, up to surrounding
/// whitespace.
#[verifier::loop_isolation(false)]
pub fn payload_is_done(p: &[u8]) -> (r: bool)
    ensures
        r == is_done_marker(p@),
{
    let mut hi: usize = p.len();
    while hi > 0 && (p[hi - 1] == 32 || p[hi - 1] == 9 || p[hi - 1] == 13 || p[hi - 1] == 10)
        invariant
            hi <= p@.len(),
            forall|j: int| hi <= j < p@.len() ==> is_ws(#[trigger] p@[j]),
        decreases hi,
    {
        hi = hi - 1;
    }
    proof {
        lemma_trim_right_at(p@, hi as int);
    }
    let ghost tr = trim_right(p@);
    let mut lo: usize = 0;
    while lo < hi && (p[lo] == 32 || p[lo] == 9 || p[lo] == 13 || p[lo] == 10)
        invariant
            lo <= hi,
            forall|j: int| 0 <= j < lo ==> is_ws(#[trigger] p@[j]),
        decreases hi - lo,
    {
        lo = lo + 1;
    }
    proof {
        assert(forall|j: int| 0 <= j < lo ==> is_ws(#[trigger] tr[j]));
        assert(lo == tr.len() || !is_ws(tr[lo as int]));
        lemma_trim_left_at(tr, lo as int);
        assert(trim_bytes(p@) =~= p@.subrange(lo as int, hi as int));
    }
    if hi - lo != 6 {
        return false;
    }
    let r = p[lo] == 91 && p[lo + 1] == 68 && p[lo + 2] == 79 && p[lo + 3] == 78 && p[lo + 4]
        == 69 && p[lo + 5] == 93;
    proof {
        if r {
            assert(trim_bytes(p@) =~= done_marker());
        } else {
            assert(trim_bytes(p@) != done_marker());
        }
    }
    r
}

/// The bytes of a line from `start` on, as an owned vector.
#[verifier::loop_isolation(false)]
fn byte_tail(line: &Vec<u8>, start: usize) -> (r: Vec<u8>)
    requires
        start <= line@.len(),
    ensures
        r@ == line@.skip(start as int),
{
    let mut out: Vec<u8> = Vec::new();
    let mut i: usize = start;
    while i < line.len()
        invariant
            start <= i <= line@.len(),
            out@ =~= line@.subrange(start as int, i as int),
        decreases line@.len() - i,
    {
        out.push(line[i]);
        proof {
            assert(out@ =~= line@.subrange(start as int, i + 1));
        }
        i = i + 1;
    }
    proof {
        assert(line@.subrange(start as int, line@.len() as int) =~= line@.skip(start as int));
    }
    out
}

/// The payload of one complete line, if it is a data line.
fn classify_line(line: &Vec<u8>) -> (r: Option<Vec<u8>>)
    ensures
        match r {
            Some(p) => line_payload(line@) == Some(p@),
            None => line_payload(line@) is None,
        },
{
    if line.len() == 0 {
        return None;
    }
    if line[0] == 58 {
        return None;
    }
    if line.len() < 6 {
        proof {
            assert(line_payload(line@) is None);
        }
        return None;
    }
    if line[0] == 100 && line[1] == 97 && line[2] == 116 && line[3] == 97 && line[4] == 58
        && line[5] == 32 {
        proof {
            assert(line@.subrange(0, 6) =~= data_prefix());
        }
        Some(byte_tail(line, 6))
    } else {
        proof {
            assert(line@.subrange(0, 6) != data_prefix());
        }
        None
    }
}

/// Pairwise view equality between owned byte vectors and their model.
pub open spec fn payload_vecs_eq(vs: Seq<Vec<u8>>, ps: Seq<Seq<u8>>) -> bool {
    vs.len() == ps.len() && forall|i: int| 0 <= i < vs.len() ==> #[trigger] vs[i]@ == ps[i]
}

// --- The decoder ---

/// A line-buffered decoder from raw response-body bytes to `data:`
/// payloads. It holds the bytes after the last newline across reads and
/// stops emitting once the terminal marker has been seen.
pub struct SseDecoder {
    buf: Vec<u8>,
    done: bool,
}

impl SseDecoder {
    /// The partial line held back so far.
    pub closed spec fn pending(&self) -> Seq<u8> {
        self.buf@
    }

    /// The held-back bytes never contain a newline: `new` establishes
    /// this and `feed` preserves it.
    pub closed spec fn wf(&self) -> bool {
        forall|i: int| 0 <= i < self.buf@.len() ==> self.buf@[i] != 10
    }

    /// Whether the terminal marker has been seen.
    pub closed spec fn spec_done(&self) -> bool {
        self.done
    }

    pub fn new() -> (r: Self)
        ensures
            r.pending() == Seq::<u8>::empty(),
            !r.spec_done(),
            r.wf(),
    {
        SseDecoder { buf: Vec::new(), done: false }
    }

    pub fn is_done(&self) -> (r: bool)
        ensures
            r == self.spec_done(),
    {
        self.done
    }

    /// Consumes one network read. The payloads of the newly completed
    /// lines come out in arrival order; the partial last line stays
    /// buffered; once the terminal marker arrives, the stream is over
    /// and nothing further is emitted.
    #[verifier::loop_isolation(false)]
    pub fn feed(&mut self, input: &[u8]) -> (payloads: Vec<Vec<u8>>)
        requires
            old(self).wf(),
        ensures
            final(self).wf(),
            old(self).spec_done() ==> {
                &&& payloads@.len() == 0
                &&& final(self).spec_done()
            },
            !old(self).spec_done() ==> {
                let hist = old(self).pending() + input@;
                &&& payload_vecs_eq(payloads@, sse_payloads(hist))
                &&& final(self).spec_done() == sse_done(hist)
                &&& final(self).pending() == sse_rest(hist)
            },
    {
        if self.done {
            return Vec::new();
        }
        let ghost hist = self.buf@ + input@;
        let mut cur: Vec<u8> = Vec::new();
        core::mem::swap(&mut cur, &mut self.buf);
        let mut out: Vec<Vec<u8>> = Vec::new();
        let mut done: bool = false;
        let mut i: usize = 0;
        proof {
            assert(hist.subrange(0, cur@.len() as int) =~= cur@);
            lemma_newline_free(cur@);
        }
        while i < input.len()
            invariant
                i <= input@.len(),
                ({
                    let processed = hist.subrange(0, old(self).pending().len() + i);
                    &&& cur@ =~= sse_rest(processed)
                    &&& done == sse_done(processed)
                    &&& payload_vecs_eq(out@, sse_payloads(processed))
                }),
            decreases input@.len() - i,
        {
            let ghost processed = hist.subrange(0, old(self).pending().len() + i);
            let ghost processed1 = hist.subrange(0, old(self).pending().len() + i + 1);
            let b = input[i];
            proof {
                assert(processed1.drop_last() =~= processed);
                assert(processed1.last() == b);
            }
            if b == 10 {
                proof {
                    assert(sse_lines(processed1) =~= sse_lines(processed).push(
                        sse_rest(processed),
                    ));
                    assert(sse_rest(processed1) =~= Seq::<u8>::empty());
                    lemma_lines_push(sse_lines(processed), sse_rest(processed));
                }
                if !done {
                    match classify_line(&cur) {
                        Some(p) => {
                            if payload_is_done(p.as_slice()) {
                                done = true;
                            } else {
                                out.push(p);
                            }
                        },
                        None => {},
                    }
                }
                cur.clear();
            } else {
                proof {
                    assert(sse_lines(processed1) =~= sse_lines(processed));
                    assert(sse_rest(processed1) =~= sse_rest(processed).push(b));
                }
                cur.push(b);
            }
            i = i + 1;
        }
        proof {
            assert(hist.subrange(0, old(self).pending().len() + input@.len() as int) =~= hist);
        }
        proof {
            lemma_rest_no_newline(hist);
        }
        self.buf = cur;
        self.done = done;
        out
    }
}

// --- Per-line parsing, as the transport hands lines across ---

/// Parses one server-sent-event line. Blank lines, comments, non-data
/// lines and the terminal marker carry no item; any other data payload
/// yields exactly one item: the one chunk the payload reads as, or an
/// in-band streaming error for a payload that is no chunk, rather than
/// the end of the sequence.
pub fn parse_sse_line(line: &str) -> (r: Option<GlmResult<StreamingChatCompletionResponse>>)
    ensures
        line_payload(line.spec_bytes()) is None ==> r is None,
        line_payload(line.spec_bytes()) matches Some(p) && is_done_marker(p) ==> r is None,
        line_payload(line.spec_bytes()) matches Some(p) && !is_done_marker(p) ==> (r matches Some(
            item,
        ) && (match item {
            Ok(c) => json_parses(line.spec_bytes().skip(6)) && reads_chunk(
                json_doc(line.spec_bytes().skip(6)),
                c,
            ),
            Err(_) => !json_parses(line.spec_bytes().skip(6)) || (forall|
                c: StreamingChatCompletionResponse,
            |
                !reads_chunk(json_doc(line.spec_bytes().skip(6)), c)),
        })),
        r matches Some(item) ==> (item matches Err(e) ==> e matches GlmError::StreamingError {
            ..
        }),
{
    let bytes = line.as_bytes();
    let owned: Vec<u8> = vstd::slice::slice_to_vec(bytes);
    let payload = match classify_line(&owned) {
        Some(p) => p,
        None => {
            return None;
        },
    };
    if payload_is_done(payload.as_slice()) {
        return None;
    }
    Some(decode_chunk_bytes(payload.as_slice()))
}

// --- The stream adapter ---

/// Where one consumption of a stream stands. `Finished` and `Failed`
/// are terminal: nothing further is read once either is reached.
#[derive(Debug, Clone, Copy, PartialEq, Eq, Structural)]
pub enum StreamState {
    Streaming,
    Finished,
    Failed,
}

/// The state one consumption of the item sequence reaches: `Finished`
/// at the first chunk that reports a finish reason, `Failed` at the
/// first in-band error, `Streaming` while neither has been seen.
pub open spec fn spec_stream_state(
    items: Seq<GlmResult<StreamingChatCompletionResponse>>,
) -> StreamState
    decreases items.len(),
{
    if items.len() == 0 {
        StreamState::Streaming
    } else {
        match items[0] {
            Err(_) => StreamState::Failed,
            Ok(c) => {
                if chunk_finishes(c) {
                    StreamState::Finished
                } else {
                    spec_stream_state(items.drop_first())
                }
            },
        }
    }
}

/// Accumulation fails exactly when the consumption reaches `Failed`,
/// and yields a string exactly when it stays open or reaches `Finished`.
pub proof fn lemma_state_matches_collect(
    items: Seq<GlmResult<StreamingChatCompletionResponse>>,
)
    ensures
        spec_stream_state(items) is Failed <==> spec_collect(items) is Err,
        !(spec_stream_state(items) is Failed) <==> spec_collect(items) is Ok,
    decreases items.len(),
{
    if items.len() > 0 {
        match items[0] {
            Err(_) => {},
            Ok(c) => {
                if !chunk_finishes(c) {
                    lemma_state_matches_collect(items.drop_first());
                }
            },
        }
    }
}

/// Both terminal states absorb: what stands after them cannot change
/// the state a consumption reaches.
pub proof fn lemma_state_terminal(
    items: Seq<GlmResult<StreamingChatCompletionResponse>>,
    k: int,
)
    requires
        0 <= k < items.len(),
        !(spec_stream_state(items.take(k + 1)) is Streaming),
    ensures
        spec_stream_state(items) == spec_stream_state(items.take(k + 1)),
    decreases k,
{
    assert(items.take(k + 1)[0] == items[0]);
    match items[0] {
        Err(_) => {},
        Ok(c) => {
            if !chunk_finishes(c) {
                assert(k > 0) by {
                    if k == 0 {
                        assert(items.take(1).drop_first() =~= Seq::<
                            GlmResult<StreamingChatCompletionResponse>,
                        >::empty());
                    }
                }
                assert(items.take(k + 1).drop_first() =~= items.drop_first().take(k));
                lemma_state_terminal(items.drop_first(), k - 1);
            }
        },
    }
}

/// The text the first choice of a chunk contributes.
pub open spec fn chunk_content(c: StreamingChatCompletionResponse) -> Seq<char> {
    if c.choices@.len() > 0 {
        match c.choices@[0].delta.content {
            Some(s) => s@,
            None => Seq::<char>::empty(),
        }
    } else {
        Seq::<char>::empty()
    }
}

/// Whether a chunk ends its stream: its first choice reports a finish
/// reason.
pub open spec fn chunk_finishes(c: StreamingChatCompletionResponse) -> bool {
    c.choices@.len() > 0 && c.choices@[0].finish_reason is Some
}

/// What accumulating a chunk sequence yields: the concatenated
/// first-choice content up to and including the first finishing chunk,
/// or the first in-band error, whole and alone — no partial text
/// survives a failure.
pub open spec fn spec_collect(items: Seq<GlmResult<StreamingChatCompletionResponse>>) -> Result<
    Seq<char>,
    GlmError,
>
    decreases items.len(),
{
    if items.len() == 0 {
        Ok(Seq::<char>::empty())
    } else {
        match items[0] {
            Err(e) => Err(e),
            Ok(c) => {
                if chunk_finishes(c) {
                    Ok(chunk_content(c))
                } else {
                    match spec_collect(items.drop_first()) {
                        Ok(rest) => Ok(chunk_content(c) + rest),
                        Err(e) => Err(e),
                    }
                }
            },
        }
    }
}

/// An error item before any finishing chunk fails the whole accumulation:
/// no partial string comes back.
pub proof fn lemma_error_aborts(
    items: Seq<GlmResult<StreamingChatCompletionResponse>>,
    k: int,
)
    requires
        0 <= k < items.len(),
        items[k] is Err,
        forall|j: int| 0 <= j < k ==> (#[trigger] items[j] matches Ok(c) && !chunk_finishes(c)),
    ensures
        spec_collect(items) == Err::<Seq<char>, GlmError>(items[k]->Err_0),
    decreases k,
{
    if k == 0 {
    } else {
        assert(items[0] matches Ok(c) && !chunk_finishes(c));
        lemma_error_aborts(items.drop_first(), k - 1);
    }
}

/// Once a chunk reports a finish reason, nothing after it is read: the
/// accumulation over the whole sequence equals the accumulation over the
/// prefix that ends at that chunk.
pub proof fn lemma_finish_stops(
    items: Seq<GlmResult<StreamingChatCompletionResponse>>,
    k: int,
)
    requires
        0 <= k < items.len(),
        items[k] matches Ok(c) && chunk_finishes(c),
        forall|j: int| 0 <= j < k ==> (#[trigger] items[j] matches Ok(c) && !chunk_finishes(c)),
    ensures
        spec_collect(items) == spec_collect(items.take(k + 1)),
    decreases k,
{
    if k == 0 {
        assert(items.take(1)[0] == items[0]);
    } else {
        assert(items[0] matches Ok(c) && !chunk_finishes(c));
        lemma_finish_stops(items.drop_first(), k - 1);
        assert(items.take(k + 1)[0] == items[0]);
        assert(items.take(k + 1).drop_first() =~= items.drop_first().take(k));
    }
}

/// A single-pass wrapper around a decoded chunk sequence, consumed at
/// most once, in arrival order.
pub struct StreamingResponse {
    items: Vec<GlmResult<StreamingChatCompletionResponse>>,
}

impl StreamingResponse {
    /// The items not yet consumed.
    pub closed spec fn remaining(&self) -> Seq<GlmResult<StreamingChatCompletionResponse>> {
        self.items@
    }

    pub fn new(items: Vec<GlmResult<StreamingChatCompletionResponse>>) -> (r: Self)
        ensures
            r.remaining() == items@,
    {
        StreamingResponse { items }
    }

    /// Accumulate mode: concatenates every first-choice content fragment
    /// in arrival order, stops at the first finish reason, and fails
    /// whole on the first in-band error.
    #[verifier::loop_isolation(false)]
    pub fn collect_content(self) -> (r: GlmResult<String>)
        ensures
            (spec_collect(self.remaining()) matches Ok(s) ==> (r matches Ok(out) && out@ == s)),
            (spec_collect(self.remaining()) matches Err(e) ==> r == Err::<String, GlmError>(e)),
    {
        let StreamingResponse { mut items } = self;
        let ghost whole = items@;
        let mut content = String::new();
        let mut i: usize = 0;
        proof {
            assert(items@.skip(0) =~= items@);
        }
        while i < items.len()
            invariant
                i <= items@.len(),
                (spec_collect(items@.skip(i as int)) matches Ok(s) ==> (spec_collect(whole)
                    matches Ok(full) && full == content@ + s)),
                (spec_collect(items@.skip(i as int)) matches Err(e) ==> spec_collect(whole)
                    == Err::<Seq<char>, GlmError>(e)),
            decreases items@.len() - i,
        {
            let ghost rest = items@.skip(i as int);
            proof {
                assert(rest[0] == items@[i as int]);
                assert(rest.drop_first() =~= items@.skip(i + 1));
            }
            if items[i].is_err() {
                match items.remove(i) {
                    Err(e) => {
                        return Err(e);
                    },
                    Ok(_) => {
                        return vstd::pervasive::unreached();
                    },
                }
            }
            match &items[i] {
                Err(_) => {
                    return vstd::pervasive::unreached();
                },
                Ok(c) => {
                    let mut finished = false;
                    if c.choices.len() > 0 {
                        if let Some(delta_content) = &c.choices[0].delta.content {
                            content.append(delta_content.as_str());
                        }
                        if c.choices[0].finish_reason.is_some() {
                            finished = true;
                        }
                    }
                    proof {
                        if chunk_content(items@[i as int]->Ok_0).len() == 0 {
                            assert(content@ =~= content@ + chunk_content(
                                items@[i as int]->Ok_0,
                            ));
                        }
                    }
                    if finished {
                        return Ok(content);
                    }
                    proof {
                        match spec_collect(items@.skip(i + 1)) {
                            Ok(s) => {
                                assert(content@ + (chunk_content(items@[i as int]->Ok_0) + s)
                                    =~= (content@ + chunk_content(items@[i as int]->Ok_0)) + s);
                            },
                            Err(_) => {},
                        }
                    }
                },
            }
            i = i + 1;
        }
        proof {
            assert(items@.skip(items@.len() as int).len() == 0);
            assert(content@ + Seq::<char>::empty() =~= content@);
        }
        Ok(content)
    }

    /// For-each mode: hands every chunk to the callback in arrival
    /// order, stops after the first chunk that reports a finish reason,
    /// and aborts on the first in-band error or callback failure without
    /// further invocations. A sequence whose consumption reaches
    /// `Failed` always fails the call; for a callback that never fails,
    /// the call fails with exactly the first in-band error and succeeds
    /// otherwise.
    #[verifier::loop_isolation(false)]
    pub fn for_each<F: FnMut(&StreamingChatCompletionResponse) -> GlmResult<()>>(
        self,
        f: F,
    ) -> (r: GlmResult<()>)
        requires
            forall|c: &StreamingChatCompletionResponse| call_requires(f, (c,)),
        ensures
            spec_stream_state(self.remaining()) is Failed ==> r is Err,
            (forall|c: &StreamingChatCompletionResponse, out: GlmResult<()>|
                call_ensures(f, (c,), out) ==> out is Ok) ==> {
                &&& (spec_collect(self.remaining()) matches Err(e) ==> r == Err::<(), GlmError>(
                    e,
                ))
                &&& (spec_collect(self.remaining()) is Ok ==> r is Ok)
            },
    {
        let StreamingResponse { mut items } = self;
        let ghost whole = items@;
        let ghost f0 = f;
        let mut callback = f;
        let mut i: usize = 0;
        proof {
            assert(whole.skip(0) =~= whole);
        }
        while i < items.len()
            invariant
                i <= items@.len(),
                items@ == whole,
                callback == f0,
                spec_stream_state(whole) == spec_stream_state(whole.skip(i as int)),
                (spec_collect(whole.skip(i as int)) matches Err(e) ==> spec_collect(whole)
                    == Err::<Seq<char>, GlmError>(e)),
                (spec_collect(whole.skip(i as int)) is Ok ==> spec_collect(whole) is Ok),
                forall|c: &StreamingChatCompletionResponse| call_requires(f0, (c,)),
            decreases items@.len() - i,
        {
            let ghost rest = whole.skip(i as int);
            proof {
                assert(rest[0] == whole[i as int]);
                assert(rest.drop_first() =~= whole.skip(i + 1));
            }
            if items[i].is_err() {
                match items.remove(i) {
                    Err(e) => {
                        return Err(e);
                    },
                    Ok(_) => {
                        return vstd::pervasive::unreached();
                    },
                }
            }
            match &items[i] {
                Err(_) => {
                    return vstd::pervasive::unreached();
                },
                Ok(c) => {
                    let cb = callback(c);
                    if let Err(e) = cb {
                        return Err(e);
                    }
                    if c.choices.len() > 0 {
                        if c.choices[0].finish_reason.is_some() {
                            return Ok(());
                        }
                    }
                },
            }
            i = i + 1;
        }
        proof {
            assert(whole.skip(whole.len() as int).len() == 0);
        }
        Ok(())
    }
}

/// Whether this chunk is the logical terminal chunk of its stream.
pub fn has_finish(c: &StreamingChatCompletionResponse) -> (r: bool)
    ensures
        r == chunk_finishes(*c),
{
    if c.choices.len() > 0 {
        c.choices[0].finish_reason.is_some()
    } else {
        false
    }
}

} // verus!
