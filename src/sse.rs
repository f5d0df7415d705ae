//! Line framing of a server-push event stream.
//!
//! The decoder is an explicit state machine over bytes: `line` holds the
//! bytes of the current, unfinished line, and `pending` the payload of the
//! last `data:` line of the current event. A blank line ends the event and
//! hands its payload out.
use vstd::prelude::*;
use vstd::slice::slice_subrange;

verus! {

/// The text that `String::from_utf8_lossy` makes of `b`.
pub uninterp spec fn utf8_lossy(b: Seq<u8>) -> Seq<char>;

/// The text that `str::trim` makes of `s`.
pub uninterp spec fn trim_whitespace(s: Seq<char>) -> Seq<char>;

/// Relies on `String::from_utf8_lossy`: the text decoded from `b`, with each
/// invalid sequence replaced; the result depends on the bytes alone.
#[verifier::external_body]
fn decode_lossy(b: &[u8]) -> (r: String)
    ensures
        r@ == utf8_lossy(b@),
{
    String::from_utf8_lossy(b).into_owned()
}

/// Relies on `str::trim`: `s` without leading and trailing white space; the
/// result depends on the characters alone.
#[verifier::external_body]
fn trim(s: &str) -> (r: String)
    ensures
        r@ == trim_whitespace(s@),
{
    s.trim().to_string()
}

/// Line feed.
pub const LF: u8 = 10;

/// Carriage return.
pub const CR: u8 = 13;

/// The field prefix `data:` as bytes.
pub open spec fn data_prefix() -> Seq<u8> {
    seq![100u8, 97u8, 116u8, 97u8, 58u8]
}

/// `b` with every trailing carriage return removed.
pub open spec fn strip_trailing_cr(b: Seq<u8>) -> Seq<u8>
    decreases b.len(),
{
    if b.len() > 0 && b.last() == CR {
        strip_trailing_cr(b.drop_last())
    } else {
        b
    }
}

/// Whether a line (carriage returns stripped) is a `data:` field.
pub open spec fn is_data_line(line: Seq<u8>) -> bool {
    line.len() >= 5 && line.subrange(0, 5) == data_prefix()
}

/// The payload a `data:` line carries: the rest of the line, as text,
/// trimmed of white space.
pub open spec fn data_payload(line: Seq<u8>) -> Seq<char> {
    trim_whitespace(utf8_lossy(line.subrange(5, line.len() as int)))
}

/// The state of the decoder.
pub struct DecoderView {
    pub line: Seq<u8>,
    pub pending: Seq<char>,
}

/// The new pending payload, and the finished event's payload if any, once a
/// complete line `raw` (without its line feed) has been read.
pub open spec fn on_line(pending: Seq<char>, raw: Seq<u8>) -> (Seq<char>, Option<Seq<char>>) {
    let line = strip_trailing_cr(raw);
    if is_data_line(line) {
        (data_payload(line), None)
    } else if line.len() == 0 && pending.len() > 0 {
        (Seq::empty(), Some(pending))
    } else {
        (pending, None)
    }
}

/// The decoder's step on one byte.
pub open spec fn on_byte(st: DecoderView, b: u8) -> (DecoderView, Option<Seq<char>>) {
    if b == LF {
        let (p, out) = on_line(st.pending, st.line);
        (DecoderView { line: Seq::empty(), pending: p }, out)
    } else {
        (DecoderView { line: st.line.push(b), pending: st.pending }, None)
    }
}

/// The decoder's state after `bytes`, and the payloads of the events that
/// they finished, in order.
pub open spec fn feed(st: DecoderView, bytes: Seq<u8>) -> (DecoderView, Seq<Seq<char>>)
    decreases bytes.len(),
{
    if bytes.len() == 0 {
        (st, Seq::empty())
    } else {
        let (s1, o1) = feed(st, bytes.drop_last());
        let (s2, o2) = on_byte(s1, bytes.last());
        (
            s2,
            match o2 {
                Some(p) => o1.push(p),
                None => o1,
            },
        )
    }
}

/// The texts of a sequence of strings.
pub open spec fn texts(v: Seq<String>) -> Seq<Seq<char>> {
    v.map_values(|s: String| s@)
}

/// An event-stream decoder for one connection.
pub struct SseDecoder {
    line: Vec<u8>,
    pending: String,
}

impl View for SseDecoder {
    type V = DecoderView;

    closed spec fn view(&self) -> DecoderView {
        DecoderView { line: self.line@, pending: self.pending@ }
    }
}

impl SseDecoder {
    /// A decoder with no partial line and no pending payload.
    pub fn new() -> (r: Self)
        ensures
            r@ == (DecoderView { line: Seq::empty(), pending: Seq::empty() }),
    {
        let r = SseDecoder { line: Vec::new(), pending: String::new() };
        assert(r@.line =~= Seq::<u8>::empty());
        r
    }

    /// Ends the current line: updates the pending payload and returns the
    /// payload of the event that the line finished, if any.
    fn end_line(&mut self) -> (r: Option<String>)
        ensures
            final(self)@.line == Seq::<u8>::empty(),
            ({
                let (p, out) = on_line(old(self)@.pending, old(self)@.line);
                final(self)@.pending == p && match out {
                    Some(t) => r is Some && r->0@ == t,
                    None => r is None,
                }
            }),
    {
        let mut k: usize = self.line.len();
        assert(self.line@.subrange(0, k as int) =~= self.line@);
        while k > 0 && self.line[k - 1] == CR
            invariant
                k <= self.line@.len(),
                strip_trailing_cr(self.line@) == strip_trailing_cr(
                    self.line@.subrange(0, k as int),
                ),
            decreases k,
        {
            assert(self.line@.subrange(0, k - 1) =~= self.line@.subrange(0, k as int).drop_last());
            k = k - 1;
        }
        let ghost line = self.line@.subrange(0, k as int);
        assert(strip_trailing_cr(line) == line);
        let is_data = k >= 5 && self.line[0] == 100u8 && self.line[1] == 97u8 && self.line[2]
            == 116u8 && self.line[3] == 97u8 && self.line[4] == 58u8;
        assert(is_data == is_data_line(line)) by {
            if k >= 5 {
                let sub = line.subrange(0, 5);
                if is_data {
                    assert(sub =~= data_prefix());
                } else if sub == data_prefix() {
                    assert(sub[0] == self.line@[0] && sub[1] == self.line@[1] && sub[2]
                        == self.line@[2] && sub[3] == self.line@[3] && sub[4] == self.line@[4]);
                }
            }
        }
        let mut out: Option<String> = None;
        if is_data {
            let rest = slice_subrange(self.line.as_slice(), 5, k);
            assert(rest@ =~= line.subrange(5, line.len() as int));
            let text = decode_lossy(rest);
            self.pending = trim(text.as_str());
        } else if k == 0 && self.pending.as_str().unicode_len() > 0 {
            let mut done = String::new();
            std::mem::swap(&mut self.pending, &mut done);
            out = Some(done);
        }
        self.line = Vec::new();
        assert(self@.line =~= Seq::<u8>::empty());
        out
    }

    /// Reads a chunk of the stream and returns, in order, the payloads of
    /// the events it finished. A partial line stays buffered.
    pub fn push_bytes(&mut self, chunk: &[u8]) -> (r: Vec<String>)
        ensures
            (final(self)@, texts(r@)) == feed(old(self)@, chunk@),
    {
        let mut out: Vec<String> = Vec::new();
        let mut i: usize = 0;
        assert(chunk@.subrange(0, 0) =~= Seq::<u8>::empty());
        assert(texts(out@) =~= Seq::<Seq<char>>::empty());
        while i < chunk.len()
            invariant
                i <= chunk@.len(),
                (self@, texts(out@)) == feed(old(self)@, chunk@.subrange(0, i as int)),
            decreases chunk@.len() - i,
        {
            let b = chunk[i];
            let ghost before = self@;
            let ghost out_before = texts(out@);
            assert(chunk@.subrange(0, i + 1).drop_last() =~= chunk@.subrange(0, i as int));
            if b == LF {
                let done = self.end_line();
                match done {
                    Some(p) => {
                        out.push(p);
                        assert(texts(out@) =~= out_before.push(p@));
                    },
                    None => {},
                }
            } else {
                self.line.push(b);
            }
            proof {
                let (s2, o2) = on_byte(before, b);
                assert(self@ =~= s2);
            }
            i = i + 1;
        }
        assert(chunk@.subrange(0, i as int) =~= chunk@);
        out
    }
}

} // verus!
