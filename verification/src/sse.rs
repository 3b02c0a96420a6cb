//! The streaming response reader: consumes the byte-chunk text of a
//! streamed chat response, splits it into lines, and extracts the
//! incremental text deltas from lines of the form `data: {...}`.
//!
//! The reader buffers the not-yet-terminated tail of the input across
//! chunks, so a line split between two chunks is still read whole.  The
//! sentinel line `data: [DONE]` marks the stream finished: every later
//! line is ignored.  A `data: ` line whose payload does not parse, or
//! parses without a delta at the expected field path, is skipped silently
//! and contributes nothing.  Deltas are handed back in arrival order; the
//! accumulated text is exactly their concatenation
//! ([`lemma_final_text_is_deltas_in_order`]).

use vstd::prelude::*;
use crate::strutil::{push_char, str_eq, str_starts_with};

verus! {

/// The incremental text delta found in one `data: ` payload, if any: what
/// parsing the payload as JSON and reading `choices[0].delta.content`
/// yields.  The result is a function of the payload text alone; nothing
/// further is assumed about it.
pub uninterp spec fn delta_of(payload: Seq<char>) -> Option<Seq<char>>;

/// Relies on `serde_json::from_str` and `serde_json::Value::{get, as_str}`:
/// parses the payload and reads the delta at `choices[0].delta.content`.
/// Parsing is deterministic in the payload text, which is all the contract
/// names.
#[verifier::external_body]
fn parse_delta(payload: &str) -> (r: Option<String>)
    ensures
        (r is Some) == (delta_of(payload@) is Some),
        r matches Some(d) ==> delta_of(payload@) == Some(d@),
{
    let value: serde_json::Value = serde_json::from_str(payload).ok()?;
    let content = value.get("choices")?.get(0)?.get("delta")?.get("content")?.as_str()?;
    Some(content.to_string())
}

/// The reader's abstract state: the unterminated tail of the input, the
/// accumulated text, whether the sentinel has been seen, and the deltas
/// emitted so far.
pub ghost struct ReaderState {
    pub line: Seq<char>,
    pub acc: Seq<char>,
    pub done: bool,
    pub out: Seq<Seq<char>>,
}

/// A complete line with a trailing carriage return removed, as a
/// `\r\n`-terminated line should read.
pub open spec fn strip_cr(line: Seq<char>) -> Seq<char> {
    if line.len() > 0 && line[line.len() - 1] == '\r' {
        line.take(line.len() - 1)
    } else {
        line
    }
}

/// What one complete line does to the state.  After the sentinel nothing
/// changes; a `data: [DONE]` line sets the sentinel; a `data: ` line with
/// a delta appends and emits it; everything else — other lines, payloads
/// without a delta — is skipped.
pub open spec fn on_line(st: ReaderState, line: Seq<char>) -> ReaderState {
    if st.done {
        st
    } else if line.len() >= 6 && line.take(6) == "data: "@ {
        let payload = line.skip(6);
        if payload == "[DONE]"@ {
            ReaderState { done: true, ..st }
        } else {
            match delta_of(payload) {
                Some(d) => ReaderState { acc: st.acc + d, out: st.out.push(d), ..st },
                None => st,
            }
        }
    } else {
        st
    }
}

/// One character of input: a newline completes the buffered line and
/// processes it; any other character extends the buffered line.
pub open spec fn step_char(st: ReaderState, c: char) -> ReaderState {
    if c == '\n' {
        let st1 = on_line(st, strip_cr(st.line));
        ReaderState { line: Seq::empty(), ..st1 }
    } else {
        ReaderState { line: st.line.push(c), ..st }
    }
}

/// A whole chunk of input: its characters, one at a time.
pub open spec fn feed_spec(st: ReaderState, s: Seq<char>) -> ReaderState
    decreases s.len(),
{
    if s.len() == 0 {
        st
    } else {
        feed_spec(step_char(st, s[0]), s.skip(1))
    }
}

/// The end of the stream: whatever is still buffered counts as a final
/// line.
pub open spec fn finish_spec(st: ReaderState) -> ReaderState {
    on_line(st, strip_cr(st.line))
}

/// The state of a fresh reader.
pub open spec fn initial_state() -> ReaderState {
    ReaderState { line: Seq::empty(), acc: Seq::empty(), done: false, out: Seq::empty() }
}

proof fn lemma_feed_push(st: ReaderState, s: Seq<char>, c: char)
    ensures
        feed_spec(st, s.push(c)) == step_char(feed_spec(st, s), c),
    decreases s.len(),
{
    if s.len() == 0 {
        assert(s.push(c).skip(1) =~= Seq::<char>::empty());
        assert(s.push(c)[0] == c);
        assert(feed_spec(st, s.push(c)) == feed_spec(step_char(st, c), s.push(c).skip(1)));
        assert(feed_spec(step_char(st, c), Seq::<char>::empty()) == step_char(st, c));
        assert(feed_spec(st, s) == st);
    } else {
        lemma_feed_push(step_char(st, s[0]), s.skip(1), c);
        assert(s.push(c).skip(1) =~= s.skip(1).push(c));
        assert(s.push(c)[0] == s[0]);
        assert(feed_spec(st, s.push(c)) == feed_spec(step_char(st, s[0]), s.skip(1).push(c)));
        assert(feed_spec(st, s) == feed_spec(step_char(st, s[0]), s.skip(1)));
    }
}

/// The streaming response reader.
pub struct StreamReader {
    line: String,
    acc: String,
    done: bool,
}

/// The abstract state of a reader that has emitted `out` so far.
pub closed spec fn model(r: &StreamReader, out: Seq<Seq<char>>) -> ReaderState {
    ReaderState { line: r.line@, acc: r.acc@, done: r.done, out }
}

impl StreamReader {
    /// A fresh reader: nothing buffered, nothing accumulated.
    pub fn new() -> (r: Self)
        ensures
            model(&r, Seq::empty()) == initial_state(),
    {
        StreamReader { line: String::new(), acc: String::new(), done: false }
    }

    /// Processes the buffered line as one complete line, then clears the
    /// buffer; emitted deltas are pushed onto `deltas`.
    fn handle_line(&mut self, deltas: &mut Vec<String>)
        ensures
            model(final(self), final(deltas)@.map_values(|d: String| d@)) == step_char(
                model(old(self), old(deltas)@.map_values(|d: String| d@)),
                '\n',
            ),
    {
        let ghost st0 = model(old(self), old(deltas)@.map_values(|d: String| d@));
        let mut line = String::new();
        core::mem::swap(&mut line, &mut self.line);
        if self.done {
            return ;
        }
        let lref = line.as_str();
        let llen = lref.unicode_len();
        let stripped: &str = if llen > 0 && lref.get_char(llen - 1) == '\r' {
            lref.substring_char(0, llen - 1)
        } else {
            lref.substring_char(0, llen)
        };
        proof {
            assert(lref@.subrange(0, llen as int) =~= lref@);
            assert(stripped@ == strip_cr(st0.line));
        }
        proof {
            reveal_strlit("data: ");
        }
        if str_starts_with(stripped, "data: ") {
            let slen = stripped.unicode_len();
            let payload = stripped.substring_char(6, slen);
            if str_eq(payload, "[DONE]") {
                self.done = true;
            } else {
                match parse_delta(payload) {
                    Some(d) => {
                        self.acc.append(d.as_str());
                        deltas.push(d);
                        proof {
                            assert(final(deltas)@.map_values(|x: String| x@) =~= st0.out.push(
                                delta_of(stripped@.skip(6))->0,
                            ));
                        }
                    },
                    None => {},
                }
            }
        }
    }

    /// Feeds one received chunk.  Complete lines are processed; the
    /// unterminated tail stays buffered for the next chunk.  Returns the
    /// deltas this chunk emitted, in arrival order.
    #[verifier::loop_isolation(false)]
    pub fn feed(&mut self, chunk: &str) -> (deltas: Vec<String>)
        ensures
            model(final(self), deltas@.map_values(|d: String| d@)) == feed_spec(
                model(old(self), Seq::empty()),
                chunk@,
            ),
    {
        let ghost st0 = model(old(self), Seq::empty());
        let mut deltas: Vec<String> = Vec::new();
        let len = chunk.unicode_len();
        let mut i: usize = 0;
        proof {
            assert(deltas@.map_values(|d: String| d@) =~= Seq::<Seq<char>>::empty());
            assert(chunk@.take(0) =~= Seq::<char>::empty());
        }
        while i < len
            invariant
                0 <= i <= len,
                model(self, deltas@.map_values(|d: String| d@)) == feed_spec(
                    st0,
                    chunk@.take(i as int),
                ),
            decreases len - i,
        {
            let c = chunk.get_char(i);
            if c == '\n' {
                self.handle_line(&mut deltas);
            } else {
                let ghost lpre = self.line@;
                push_char(&mut self.line, c);
                proof {
                    assert(self.line@ =~= lpre.push(c));
                }
            }
            proof {
                lemma_feed_push(st0, chunk@.take(i as int), chunk@[i as int]);
                assert(chunk@.take(i as int).push(chunk@[i as int]) =~= chunk@.take(i + 1));
            }
            i += 1;
        }
        proof {
            assert(chunk@.take(len as int) =~= chunk@);
        }
        deltas
    }

    /// Ends the stream: the unterminated tail, if any, is processed as a
    /// final line.  Returns the full accumulated text and whatever deltas
    /// that last line emitted.
    pub fn finish(self) -> (r: (String, Vec<String>))
        ensures
            ({
                let st1 = finish_spec(model(&self, Seq::empty()));
                r.0@ == st1.acc && r.1@.map_values(|d: String| d@) == st1.out
            }),
    {
        let mut this = self;
        let mut deltas: Vec<String> = Vec::new();
        proof {
            assert(deltas@.map_values(|d: String| d@) =~= Seq::<Seq<char>>::empty());
        }
        this.handle_line(&mut deltas);
        (this.acc, deltas)
    }

    /// The text accumulated so far.
    pub fn accumulated(&self) -> (r: &String)
        ensures
            r@ == model(self, Seq::empty()).acc,
    {
        &self.acc
    }
}

/// A malformed `data: ` line — a payload that does not parse, or parses
/// without a delta at the expected path — changes nothing: the stream is
/// not aborted and the accumulator is untouched.
pub proof fn lemma_malformed_line_is_skipped(st: ReaderState, line: Seq<char>)
    requires
        line.len() >= 6 && line.take(6) == "data: "@,
        line.skip(6) != "[DONE]"@,
        delta_of(line.skip(6)) is None,
    ensures
        on_line(st, line) == st,
{
}

/// The sentinel is final: once `data: [DONE]` has been seen, no further
/// input emits a delta or touches the accumulated text.
pub proof fn lemma_done_is_final(st: ReaderState, s: Seq<char>)
    requires
        st.done,
    ensures
        feed_spec(st, s).acc == st.acc,
        feed_spec(st, s).out == st.out,
        feed_spec(st, s).done,
    decreases s.len(),
{
    if s.len() > 0 {
        lemma_done_is_final(step_char(st, s[0]), s.skip(1));
    }
}

/// The accumulated text is exactly the concatenation of the emitted
/// deltas, in emission order: feeding any input from any state keeps
/// `acc == prefix + out.flatten()`.
pub proof fn lemma_final_text_is_deltas_in_order(st: ReaderState, s: Seq<char>, prefix: Seq<char>)
    requires
        st.acc == prefix + st.out.flatten(),
    ensures
        feed_spec(st, s).acc == prefix + feed_spec(st, s).out.flatten(),
    decreases s.len(),
{
    if s.len() > 0 {
        lemma_step_keeps_concat(st, s[0], prefix);
        lemma_final_text_is_deltas_in_order(step_char(st, s[0]), s.skip(1), prefix);
    }
}

proof fn lemma_step_keeps_concat(st: ReaderState, c: char, prefix: Seq<char>)
    requires
        st.acc == prefix + st.out.flatten(),
    ensures
        step_char(st, c).acc == prefix + step_char(st, c).out.flatten(),
{
    let line = strip_cr(st.line);
    if c == '\n' && !st.done && line.len() >= 6 && line.take(6) == "data: "@ && line.skip(6)
        != "[DONE]"@ && delta_of(line.skip(6)) is Some {
        let d = delta_of(line.skip(6))->0;
        st.out.lemma_flatten_push(d);
        assert(prefix + st.out.flatten() + d =~= prefix + (st.out.flatten() + d));
    }
}

} // verus!
