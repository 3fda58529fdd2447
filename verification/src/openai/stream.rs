//! The incremental decoder of a streamed response.
//!
//! The decoder is fed the chunks of the transport as they arrive, as text
//! or as bytes. It cuts complete frames out of what it has received, hands
//! the payload of each on for forwarding, and adds the frames up until the
//! stream ends.

use crate::json::{json_text_value, Json, JsonValue};
use crate::openai::accumulator::{ends_stream, AccumulatorView, StreamAccumulator};
use crate::openai::delta::{chunk_of, CompletionChunk};
use crate::openai::frames::{
    find_break, find_frame_end, frame_payload_text, lemma_find_break_extend,
    lemma_find_break_is_first, lemma_find_break_skip, payload_of,
};
use crate::openai::bytes::{lemma_decode_concat, lemma_valid_prefix_nearby, lemma_valid_suffix};
use crate::text::{chars_of, str_eq, texts_of, utf8_text};
use vstd::prelude::*;
use vstd::utf8::{decode_utf8, valid_utf8};

verus! {

/// Why a stream could not be read to its end.
#[derive(Clone, Copy, Debug, PartialEq, Eq, Structural)]
pub enum StreamError {
    /// A frame's payload is no JSON document of a chunk.
    Malformed,
    /// A frame's chunk has no choice.
    NoChoice,
    /// The bytes of the stream are no UTF-8 text.
    InvalidUtf8,
}

/// How far a stream has been read.
#[derive(Clone, Copy, Debug, PartialEq, Eq, Structural)]
pub enum StreamStatus {
    /// More frames may follow.
    Open,
    /// The stream has ended: by the `[DONE]` frame, by a stop or by a frame
    /// with a finish reason that is not empty.
    Finished,
    /// The stream was given up.
    Failed(StreamError),
}

/// The payload that ends a stream.
pub open spec fn done_marker() -> Seq<char> {
    "[DONE]"@
}

/// What the document of a frame does to the state.
pub open spec fn chunk_step(acc: AccumulatorView, document: JsonValue) -> (
    AccumulatorView,
    StreamStatus,
) {
    match chunk_of(document) {
        None => (acc, StreamStatus::Failed(StreamError::Malformed)),
        Some(chunk) => if chunk.choices.len() == 0 {
            (acc, StreamStatus::Failed(StreamError::NoChoice))
        } else {
            (
                acc.step(chunk.choices[0]),
                if ends_stream(chunk.choices[0]) {
                    StreamStatus::Finished
                } else {
                    StreamStatus::Open
                },
            )
        },
    }
}

/// What the payload of a frame does to the state.
pub open spec fn payload_step(acc: AccumulatorView, payload: Seq<char>) -> (
    AccumulatorView,
    StreamStatus,
) {
    if payload == done_marker() {
        (acc, StreamStatus::Finished)
    } else {
        match json_text_value(payload) {
            None => (acc, StreamStatus::Failed(StreamError::Malformed)),
            Some(document) => chunk_step(acc, document),
        }
    }
}

/// The outcome of reading the frames in a buffer.
pub struct Drained {
    pub acc: AccumulatorView,
    /// The text behind the last frame that was read.
    pub pending: Seq<char>,
    /// The payloads of the frames that were read, in their order.
    pub forwarded: Seq<Seq<char>>,
    pub status: StreamStatus,
}

/// Reads the complete frames in `buffer`, one after the other, until the
/// stream ends, a frame fails or no complete frame is left. Every payload
/// is forwarded before it is read, the last one too.
pub open spec fn drain(acc: AccumulatorView, buffer: Seq<char>, forwarded: Seq<Seq<char>>) -> Drained
    decreases buffer.len(),
{
    match find_break(buffer, 0) {
        None => Drained { acc, pending: buffer, forwarded, status: StreamStatus::Open },
        Some(end) => {
            proof {
                lemma_find_break_is_first(buffer, 0);
            }
            let rest = buffer.skip(end + 2);
            match payload_of(buffer.take(end)) {
                None => drain(acc, rest, forwarded),
                Some(payload) => {
                    let (next, status) = payload_step(acc, payload);
                    if status is Open {
                        drain(next, rest, forwarded.push(payload))
                    } else {
                        Drained {
                            acc: next,
                            pending: rest,
                            forwarded: forwarded.push(payload),
                            status,
                        }
                    }
                },
            }
        },
    }
}

/// Takes the document of a frame into the state.
pub fn apply_chunk_document(acc: &mut StreamAccumulator, document: &Json) -> (status:
    StreamStatus)
    ensures
        (final(acc)@, status) == chunk_step(old(acc)@, document@),
        old(acc).wf() ==> final(acc).wf(),
{
    match CompletionChunk::from_json(document) {
        None => StreamStatus::Failed(StreamError::Malformed),
        Some(chunk) => {
            if chunk.choices.len() == 0 {
                StreamStatus::Failed(StreamError::NoChoice)
            } else {
                if acc.step(&chunk.choices[0]) {
                    StreamStatus::Finished
                } else {
                    StreamStatus::Open
                }
            }
        },
    }
}

/// Takes the payload of a frame into the state.
pub fn apply_payload(acc: &mut StreamAccumulator, payload: &str) -> (status: StreamStatus)
    ensures
        (final(acc)@, status) == payload_step(old(acc)@, payload@),
        old(acc).wf() ==> final(acc).wf(),
{
    if str_eq(payload, "[DONE]") {
        StreamStatus::Finished
    } else {
        match Json::parse(payload) {
            None => StreamStatus::Failed(StreamError::Malformed),
            Some(document) => apply_chunk_document(acc, &document),
        }
    }
}

/// The value of a [`StreamDecoder`].
pub struct DecoderView {
    pub acc: AccumulatorView,
    /// The text behind the last frame that was read.
    pub pending: Seq<char>,
    /// The bytes at the end of what was received that do not make a whole
    /// character yet.
    pub carry: Seq<u8>,
    pub status: StreamStatus,
}

/// How many of the bytes are text: all of them, or all but the last one,
/// two or three, which may be the beginning of a character that the next
/// chunk completes. Nothing where no such beginning makes the rest text.
pub open spec fn text_prefix(bytes: Seq<u8>) -> Option<int> {
    if valid_utf8(bytes) {
        Some(bytes.len() as int)
    } else if bytes.len() >= 1 && valid_utf8(bytes.take(bytes.len() - 1)) {
        Some(bytes.len() - 1)
    } else if bytes.len() >= 2 && valid_utf8(bytes.take(bytes.len() - 2)) {
        Some(bytes.len() - 2)
    } else if bytes.len() >= 3 && valid_utf8(bytes.take(bytes.len() - 3)) {
        Some(bytes.len() - 3)
    } else {
        None
    }
}

impl DecoderView {
    /// The decoder before anything was received.
    pub open spec fn empty() -> DecoderView {
        DecoderView {
            acc: AccumulatorView::empty(),
            pending: Seq::empty(),
            carry: Seq::empty(),
            status: StreamStatus::Open,
        }
    }

    /// The decoder after a text was received, and the payloads that were
    /// read. While the stream is open, the text is added to what was left
    /// of the texts before and the complete frames are read. Once the
    /// stream has ended or failed, nothing more is read.
    pub open spec fn fed(self, text: Seq<char>) -> (DecoderView, Seq<Seq<char>>) {
        if self.status is Open {
            let d = drain(self.acc, self.pending + text, Seq::empty());
            (DecoderView { acc: d.acc, pending: d.pending, status: d.status, ..self }, d.forwarded)
        } else {
            (self, Seq::empty())
        }
    }

    /// The decoder after bytes were received, and the payloads that were
    /// read. The bytes are added to the bytes that were held back; as much
    /// of them as is text is read as text, and an unfinished character at
    /// their end is held back. Bytes that are no text fail the stream; at
    /// which chunk they do depends on where the transport cuts them, since
    /// up to three bytes at the end of a chunk are waited for.
    pub open spec fn fed_bytes(self, bytes: Seq<u8>) -> (DecoderView, Seq<Seq<char>>) {
        if self.status is Open {
            let all = self.carry + bytes;
            match text_prefix(all) {
                Some(k) => (DecoderView { carry: all.skip(k), ..self }).fed(
                    decode_utf8(all.take(k)),
                ),
                None => (
                    DecoderView {
                        status: StreamStatus::Failed(StreamError::InvalidUtf8),
                        ..self
                    },
                    Seq::empty(),
                ),
            }
        } else {
            (self, Seq::empty())
        }
    }
}

/// The bytes of `bytes[from..to]`.
fn copy_bytes(bytes: &Vec<u8>, from: usize, to: usize) -> (r: Vec<u8>)
    requires
        from <= to <= bytes@.len(),
    ensures
        r@ == bytes@.subrange(from as int, to as int),
{
    let mut out: Vec<u8> = Vec::new();
    let mut i: usize = from;
    while i < to
        invariant
            from <= i <= to <= bytes@.len(),
            out@ == bytes@.subrange(from as int, i as int),
        decreases to - i,
    {
        out.push(bytes[i]);
        i += 1;
    }
    out
}

/// What one call of [`StreamDecoder::feed`] reports.
#[derive(Debug)]
pub struct FeedReport {
    /// The payloads of the frames that were read, for forwarding.
    pub forwarded: Vec<String>,
    pub status: StreamStatus,
}

/// The decoder of one streamed exchange.
#[derive(Debug)]
pub struct StreamDecoder {
    acc: StreamAccumulator,
    pending: Vec<char>,
    carry: Vec<u8>,
    status: StreamStatus,
}

impl View for StreamDecoder {
    type V = DecoderView;

    closed spec fn view(&self) -> DecoderView {
        DecoderView {
            acc: self.acc@,
            pending: self.pending@,
            carry: self.carry@,
            status: self.status,
        }
    }
}

impl StreamDecoder {
    /// The rebuilt tool calls stand in the order of their positions.
    pub closed spec fn wf(&self) -> bool {
        self.acc.wf()
    }

    /// A decoder that has received nothing.
    pub fn new() -> (r: Self)
        ensures
            r@ == DecoderView::empty(),
            r.wf(),
    {
        StreamDecoder {
            acc: StreamAccumulator::new(),
            pending: Vec::new(),
            carry: Vec::new(),
            status: StreamStatus::Open,
        }
    }

    /// How far the stream has been read.
    pub fn status(&self) -> (r: StreamStatus)
        ensures
            r == self@.status,
    {
        self.status
    }

    /// What has been added up.
    pub fn accumulator(&self) -> (r: &StreamAccumulator)
        ensures
            r@ == self@.acc,
            self.wf() ==> r.wf(),
    {
        &self.acc
    }

    /// Takes the text of one chunk of the transport.
    pub fn feed(&mut self, chunk: &str) -> (report: FeedReport)
        ensures
            (final(self)@, texts_of(report.forwarded@)) == old(self)@.fed(chunk@),
            report.status == final(self)@.status,
            old(self).wf() ==> final(self).wf(),
    {
        let mut forwarded: Vec<String> = Vec::new();
        assert(texts_of(forwarded@) =~= Seq::empty());
        match self.status {
            StreamStatus::Open => {},
            _ => {
                return FeedReport { forwarded, status: self.status };
            },
        }
        let mut chars = chars_of(chunk);
        self.pending.append(&mut chars);
        let ghost acc0 = old(self)@.acc;
        let ghost full = self.pending@;
        assert(full == old(self)@.pending + chunk@);
        let mut start: usize = 0;
        let mut status = StreamStatus::Open;
        assert(full.skip(0) == full);
        assert(texts_of(forwarded@) =~= Seq::empty());
        while status == StreamStatus::Open
            invariant
                start <= full.len(),
                self.pending@ == full,
                self.carry == old(self).carry,
                old(self).wf() ==> self.acc.wf(),
                drain(acc0, full, Seq::empty()) == if status is Open {
                    drain(self.acc@, full.skip(start as int), texts_of(forwarded@))
                } else {
                    Drained {
                        acc: self.acc@,
                        pending: full.skip(start as int),
                        forwarded: texts_of(forwarded@),
                        status,
                    }
                },
            ensures
                start <= full.len(),
                self.pending@ == full,
                self.carry == old(self).carry,
                old(self).wf() ==> self.acc.wf(),
                drain(acc0, full, Seq::empty()) == (Drained {
                    acc: self.acc@,
                    pending: full.skip(start as int),
                    forwarded: texts_of(forwarded@),
                    status,
                }),
            decreases full.len() - start,
        {
            let ghost rest = full.skip(start as int);
            proof {
                lemma_find_break_skip(full, start as int, 0);
            }
            match find_frame_end(&self.pending, start) {
                None => {
                    break ;
                },
                Some(end) => {
                    proof {
                        assert(find_break(rest, 0) == Some(end - start));
                        assert(rest.take(end - start) == full.subrange(start as int, end as int));
                        assert(rest.skip(end - start + 2) == full.skip(end + 2));
                    }
                    let payload = frame_payload_text(&self.pending, start, end);
                    assert(end + 2 <= self.pending.len());
                    start = end + 2;
                    match payload {
                        None => {},
                        Some(data) => {
                            status = apply_payload(&mut self.acc, data.as_str());
                            let ghost before = texts_of(forwarded@);
                            forwarded.push(data);
                            assert(texts_of(forwarded@) =~= before.push(data@));
                        },
                    }
                },
            }
        }
        let rest = self.pending.split_off(start);
        self.pending = rest;
        self.status = status;
        FeedReport { forwarded, status }
    }

    /// Takes the bytes of one chunk of the transport, which may end in the
    /// middle of a character.
    pub fn feed_bytes(&mut self, chunk: &[u8]) -> (report: FeedReport)
        ensures
            (final(self)@, texts_of(report.forwarded@)) == old(self)@.fed_bytes(chunk@),
            report.status == final(self)@.status,
            old(self).wf() ==> final(self).wf(),
    {
        let forwarded: Vec<String> = Vec::new();
        assert(texts_of(forwarded@) =~= Seq::empty());
        match self.status {
            StreamStatus::Open => {},
            _ => {
                return FeedReport { forwarded, status: self.status };
            },
        }
        let mut all = copy_bytes(&self.carry, 0, self.carry.len());
        assert(self.carry@.subrange(0, self.carry@.len() as int) == self.carry@);
        let mut i: usize = 0;
        assert(chunk@.take(0) == Seq::<u8>::empty());
        while i < chunk.len()
            invariant
                i <= chunk@.len(),
                all@ == old(self)@.carry + chunk@.take(i as int),
            decreases chunk@.len() - i,
        {
            all.push(chunk[i]);
            assert(chunk@.take(i + 1) == chunk@.take(i as int).push(chunk@[i as int]));
            i += 1;
        }
        assert(chunk@.take(chunk@.len() as int) == chunk@);
        let n = all.len();
        let mut held: usize = 0;
        while held <= 3 && held <= n
            invariant
                n == all@.len(),
                held <= 4,
                all@ == old(self)@.carry + chunk@,
                *self == *old(self),
                self.status is Open,
                forall|h: int| 0 <= h < held ==> !valid_utf8(#[trigger] all@.take(n - h)),
            decreases 4 - held,
        {
            let prefix = copy_bytes(&all, 0, n - held);
            assert(all@.subrange(0, n - held) == all@.take(n - held));
            match utf8_text(prefix) {
                Some(text) => {
                    proof {
                        assert(all@.take(n as int) == all@);
                        if held >= 1 {
                            assert(!valid_utf8(all@.take(n - 0)));
                        }
                        if held >= 2 {
                            assert(!valid_utf8(all@.take(n - 1)));
                        }
                        if held >= 3 {
                            assert(!valid_utf8(all@.take(n - 2)));
                        }
                        assert(text_prefix(all@) == Some(n - held));
                    }
                    self.carry = copy_bytes(&all, n - held, n);
                    assert(all@.subrange(n - held, n as int) == all@.skip(n - held));
                    return self.feed(text.as_str());
                },
                None => {},
            }
            held += 1;
        }
        proof {
            assert(all@.take(n as int) == all@);
            assert(!valid_utf8(all@.take(n - 0)));
            if n >= 1 {
                assert(!valid_utf8(all@.take(n - 1)));
            }
            if n >= 2 {
                assert(!valid_utf8(all@.take(n - 2)));
            }
            if n >= 3 {
                assert(!valid_utf8(all@.take(n - 3)));
            }
            assert(text_prefix(all@) is None);
        }
        self.status = StreamStatus::Failed(StreamError::InvalidUtf8);
        FeedReport { forwarded, status: self.status }
    }

    /// The one result of the exchange, in the shape of a buffered response.
    /// It can be asked for at any time: a stream that breaks off gives what
    /// was added up until then.
    pub fn finish(&self) -> (r: Json)
        ensures
            r@ == crate::openai::accumulator::assembled(self@.acc),
    {
        self.acc.assemble()
    }
}

/// Frames do not depend on how the transport cuts the text into chunks:
/// reading a text and then, with what was left of it, a second text gives
/// what reading the two texts as one gives. Where the first text already
/// ends the stream, the second is not read.
pub proof fn lemma_drain_in_two(
    acc: AccumulatorView,
    first: Seq<char>,
    second: Seq<char>,
    forwarded: Seq<Seq<char>>,
)
    ensures
        drain(acc, first, forwarded).status is Open ==> drain(acc, first + second, forwarded)
            == drain(
            drain(acc, first, forwarded).acc,
            drain(acc, first, forwarded).pending + second,
            drain(acc, first, forwarded).forwarded,
        ),
        !(drain(acc, first, forwarded).status is Open) ==> drain(acc, first + second, forwarded)
            == (Drained {
            pending: drain(acc, first, forwarded).pending + second,
            ..drain(acc, first, forwarded)
        }),
    decreases first.len(),
{
    let whole = first + second;
    match find_break(first, 0) {
        None => {},
        Some(end) => {
            lemma_find_break_is_first(first, 0);
            lemma_find_break_extend(first, second, 0);
            assert(whole.take(end) == first.take(end));
            assert(whole.skip(end + 2) == first.skip(end + 2) + second);
            let rest = first.skip(end + 2);
            match payload_of(first.take(end)) {
                None => {
                    lemma_drain_in_two(acc, rest, second, forwarded);
                },
                Some(payload) => {
                    let (next, status) = payload_step(acc, payload);
                    if status is Open {
                        lemma_drain_in_two(next, rest, second, forwarded.push(payload));
                    }
                },
            }
        },
    }
}

/// What a reading forwards is what was forwarded before it and then what
/// the same reading forwards when nothing was; the rest of what it gives
/// does not depend on what was forwarded before.
pub proof fn lemma_drain_forwards_after(
    acc: AccumulatorView,
    buffer: Seq<char>,
    forwarded: Seq<Seq<char>>,
)
    ensures
        drain(acc, buffer, forwarded) == (Drained {
            forwarded: forwarded + drain(acc, buffer, Seq::empty()).forwarded,
            ..drain(acc, buffer, Seq::empty())
        }),
    decreases buffer.len(),
{
    let none = Seq::<Seq<char>>::empty();
    match find_break(buffer, 0) {
        None => {
            assert(forwarded + none =~= forwarded);
        },
        Some(end) => {
            lemma_find_break_is_first(buffer, 0);
            let rest = buffer.skip(end + 2);
            match payload_of(buffer.take(end)) {
                None => {
                    lemma_drain_forwards_after(acc, rest, forwarded);
                },
                Some(payload) => {
                    let (next, status) = payload_step(acc, payload);
                    if status is Open {
                        lemma_drain_forwards_after(next, rest, forwarded.push(payload));
                        lemma_drain_forwards_after(next, rest, none.push(payload));
                        assert(forwarded.push(payload) + drain(next, rest, none).forwarded
                            =~= forwarded + (none.push(payload) + drain(
                            next,
                            rest,
                            none,
                        ).forwarded));
                    } else {
                        assert(forwarded.push(payload) =~= forwarded + none.push(payload));
                    }
                },
            }
        },
    }
}

/// A decoder does not depend on how the transport cuts the text into
/// chunks: while the stream is open after a first text, feeding a second
/// one gives the decoder, and forwards in all the payloads, that feeding
/// the two as one text gives. Where the first text ends the stream, the
/// second is not read, and read as one text the two add up to the same and
/// forward the same.
pub proof fn lemma_fed_in_two(d: DecoderView, first: Seq<char>, second: Seq<char>)
    ensures
        d.fed(first).0.status is Open ==> d.fed(first).0.fed(second).0 == d.fed(first + second).0
            && d.fed(first).1 + d.fed(first).0.fed(second).1 == d.fed(first + second).1,
        !(d.fed(first).0.status is Open) ==> d.fed(first).0.fed(second) == (
            d.fed(first).0,
            Seq::<Seq<char>>::empty(),
        ) && d.fed(first + second).0.acc == d.fed(first).0.acc && d.fed(first + second).0.status
            == d.fed(first).0.status && d.fed(first + second).1 == d.fed(first).1,
{
    if d.status is Open {
        let none = Seq::<Seq<char>>::empty();
        let one = drain(d.acc, d.pending + first, none);
        lemma_drain_in_two(d.acc, d.pending + first, second, none);
        assert((d.pending + first) + second =~= d.pending + (first + second));
        if one.status is Open {
            lemma_drain_forwards_after(one.acc, one.pending + second, one.forwarded);
        }
    }
}

/// A decoder does not depend on how the transport cuts the bytes of a text
/// into chunks either, wherever the cuts fall, inside a character too:
/// what [`lemma_fed_in_two`] says of two texts holds of two runs of bytes
/// that, behind the bytes held back, make a text.
pub proof fn lemma_fed_bytes_in_two(d: DecoderView, first: Seq<u8>, second: Seq<u8>)
    requires
        valid_utf8(d.carry + first + second),
    ensures
        d.fed_bytes(first).0.status is Open ==> d.fed_bytes(first).0.fed_bytes(second).0
            == d.fed_bytes(first + second).0 && d.fed_bytes(first).1 + d.fed_bytes(
            first,
        ).0.fed_bytes(second).1 == d.fed_bytes(first + second).1,
        !(d.fed_bytes(first).0.status is Open) ==> d.fed_bytes(first).0.fed_bytes(second) == (
            d.fed_bytes(first).0,
            Seq::<Seq<char>>::empty(),
        ) && d.fed_bytes(first + second).0.acc == d.fed_bytes(first).0.acc && d.fed_bytes(
            first + second,
        ).0.status == d.fed_bytes(first).0.status && d.fed_bytes(first + second).1 == d.fed_bytes(
            first,
        ).1,
{
    if d.status is Open {
        let all = d.carry + first;
        let whole = d.carry + (first + second);
        assert(whole =~= d.carry + first + second);
        assert(whole =~= all + second);
        lemma_valid_prefix_nearby(whole, all.len() as int);
        let held = choose|held: int|
            0 <= held <= 3 && held <= all.len() && valid_utf8(
                #[trigger] whole.take(all.len() - held),
            );
        assert(whole.take(all.len() - held) =~= all.take(all.len() - held));
        assert(all.take(all.len() - 0) =~= all);
        let k = text_prefix(all).unwrap();
        let head = all.take(k);
        let tail = all.skip(k) + second;
        assert(whole =~= head + tail);
        lemma_valid_suffix(head, tail);
        lemma_decode_concat(head, tail);
        assert(tail.take(tail.len() as int) =~= tail);
        assert(whole.take(whole.len() as int) =~= whole);
        assert(tail.skip(tail.len() as int) =~= Seq::<u8>::empty());
        assert(whole.skip(whole.len() as int) =~= Seq::<u8>::empty());
        let begun = DecoderView { carry: all.skip(k), ..d };
        let plain = DecoderView { carry: Seq::<u8>::empty(), ..d };
        lemma_fed_in_two(begun, decode_utf8(head), decode_utf8(tail));
        lemma_fed_in_two(plain, decode_utf8(head), decode_utf8(tail));
    }
}

} // verus!
