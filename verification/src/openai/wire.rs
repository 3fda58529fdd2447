//! What a decoder makes of a stream as the service writes it: frame after
//! frame, each with one payload.

use crate::json::json_text_value;
use crate::openai::accumulator::{
    assembled, ends_stream, entry_at, joined_arguments, kept_content, lemma_streamed_content,
    opened, pieces_for, AccumulatorView,
};
use crate::openai::delta::{chunk_of, ChoiceView};
use crate::openai::frames::{
    break_at, data_prefix, find_break, lemma_find_break_is_first, payload_of,
};
use crate::openai::rebuild::{lemma_arguments_of_stream, stream_pieces};
use crate::openai::response::{completion_of, CompletionView};
use crate::openai::stream::{done_marker, drain, payload_step, DecoderView, Drained, StreamStatus};
use crate::text::{is_white_space, lemma_trim_end_take, lemma_trim_start_skip, trim};
use vstd::prelude::*;

verus! {

/// A payload as the service writes it: not empty, without white space at
/// its ends and without a blank line in it.
pub open spec fn plain_payload(payload: Seq<char>) -> bool {
    &&& payload.len() > 0
    &&& !is_white_space(payload[0])
    &&& !is_white_space(payload.last())
    &&& forall|i: int| !break_at(payload, i)
}

/// The frame that carries a payload: the marker, the payload and a blank
/// line.
pub open spec fn frame_of(payload: Seq<char>) -> Seq<char> {
    data_prefix() + payload + seq!['\n', '\n']
}

/// The text of a stream: the frames of its payloads, one after the other.
pub open spec fn stream_text(payloads: Seq<Seq<char>>) -> Seq<char>
    decreases payloads.len(),
{
    if payloads.len() == 0 {
        Seq::empty()
    } else {
        frame_of(payloads[0]) + stream_text(payloads.drop_first())
    }
}

/// What reading payload after payload gives: each is forwarded and taken
/// into the state, up to the first that ends or fails the stream; the
/// frames behind that one are left unread.
pub open spec fn read_payloads(
    acc: AccumulatorView,
    payloads: Seq<Seq<char>>,
    forwarded: Seq<Seq<char>>,
) -> Drained
    decreases payloads.len(),
{
    if payloads.len() == 0 {
        Drained { acc, pending: Seq::empty(), forwarded, status: StreamStatus::Open }
    } else {
        let (next, status) = payload_step(acc, payloads[0]);
        if status is Open {
            read_payloads(next, payloads.drop_first(), forwarded.push(payloads[0]))
        } else {
            Drained {
                acc: next,
                pending: stream_text(payloads.drop_first()),
                forwarded: forwarded.push(payloads[0]),
                status,
            }
        }
    }
}

/// The payload is the JSON text of a chunk whose first choice is `choice`.
pub open spec fn reads_as(payload: Seq<char>, choice: ChoiceView) -> bool {
    payload != done_marker() && match json_text_value(payload) {
        Some(document) => match chunk_of(document) {
            Some(chunk) => chunk.choices.len() > 0 && chunk.choices[0] == choice,
            None => false,
        },
        None => false,
    }
}

/// A frame is read whole. Of a text that begins with the frame of a plain
/// payload, exactly that payload is read first, and the reading goes on
/// with what follows the frame unless the payload ends or fails the
/// stream.
pub proof fn lemma_frame_is_read(
    acc: AccumulatorView,
    payload: Seq<char>,
    rest: Seq<char>,
    forwarded: Seq<Seq<char>>,
)
    requires
        plain_payload(payload),
    ensures
        drain(acc, frame_of(payload) + rest, forwarded) == if payload_step(acc, payload).1 is Open {
            drain(payload_step(acc, payload).0, rest, forwarded.push(payload))
        } else {
            Drained {
                acc: payload_step(acc, payload).0,
                pending: rest,
                forwarded: forwarded.push(payload),
                status: payload_step(acc, payload).1,
            }
        },
{
    reveal_strlit("data: ");
    let marker = data_prefix();
    let buffer = frame_of(payload) + rest;
    let end = (marker.len() + payload.len()) as int;
    assert(marker.len() == 6);
    assert(break_at(buffer, end));
    lemma_find_break_is_first(buffer, 0);
    let found = find_break(buffer, 0)->Some_0;
    if found < end {
        if found < 6 {
            assert(buffer[found] == marker[found]);
        } else if found + 1 < end {
            assert(buffer[found] == payload[found - 6]);
            assert(buffer[found + 1] == payload[found - 6 + 1]);
            assert(break_at(payload, found - 6));
        } else {
            assert(buffer[found] == payload.last());
        }
    }
    assert(found == end);
    let frame = buffer.take(end);
    assert(frame =~= marker + payload);
    assert(buffer.skip(end + 2) =~= rest);
    assert(frame[0] == 'd');
    assert(frame.last() == payload.last());
    lemma_trim_start_skip(frame, 0);
    lemma_trim_end_take(frame, frame.len() as int);
    assert(frame.skip(0) =~= frame);
    assert(frame.take(frame.len() as int) =~= frame);
    assert(trim(frame) == frame);
    assert(frame.subrange(0, 6) =~= marker);
    assert(frame.skip(6) =~= payload);
    lemma_trim_start_skip(payload, 0);
    lemma_trim_end_take(payload, payload.len() as int);
    assert(payload.skip(0) =~= payload);
    assert(payload.take(payload.len() as int) =~= payload);
    assert(trim(payload) == payload);
    assert(payload_of(frame) == Some(payload));
}

/// A stream is read frame by frame: reading the text of a stream of plain
/// payloads gives what reading the payloads one after the other gives.
pub proof fn lemma_stream_is_read(
    acc: AccumulatorView,
    payloads: Seq<Seq<char>>,
    forwarded: Seq<Seq<char>>,
)
    requires
        forall|i: int| 0 <= i < payloads.len() ==> plain_payload(#[trigger] payloads[i]),
    ensures
        drain(acc, stream_text(payloads), forwarded) == read_payloads(acc, payloads, forwarded),
    decreases payloads.len(),
{
    if payloads.len() == 0 {
        assert(find_break(Seq::<char>::empty(), 0) is None);
    } else {
        let rest = payloads.drop_first();
        assert forall|i: int| 0 <= i < rest.len() implies plain_payload(#[trigger] rest[i]) by {
            assert(rest[i] == payloads[i + 1]);
        }
        lemma_frame_is_read(acc, payloads[0], stream_text(rest), forwarded);
        let (next, status) = payload_step(acc, payloads[0]);
        if status is Open {
            lemma_stream_is_read(next, rest, forwarded.push(payloads[0]));
        }
    }
}

/// Payloads that read as choices add up as the choices do: up to the first
/// choice that ends the stream, which ends the reading.
pub proof fn lemma_payloads_add_up(
    acc: AccumulatorView,
    payloads: Seq<Seq<char>>,
    choices: Seq<ChoiceView>,
    forwarded: Seq<Seq<char>>,
)
    requires
        payloads.len() == choices.len(),
        forall|i: int| 0 <= i < payloads.len() ==> reads_as(#[trigger] payloads[i], choices[i]),
    ensures
        read_payloads(acc, payloads, forwarded).acc == acc.run(choices),
        read_payloads(acc, payloads, forwarded).status == if exists|i: int|
            0 <= i < choices.len() && ends_stream(#[trigger] choices[i]) {
            StreamStatus::Finished
        } else {
            StreamStatus::Open
        },
    decreases payloads.len(),
{
    if payloads.len() > 0 {
        let rest = payloads.drop_first();
        let others = choices.drop_first();
        assert(reads_as(payloads[0], choices[0]));
        assert forall|i: int| 0 <= i < rest.len() implies reads_as(
            #[trigger] rest[i],
            others[i],
        ) by {
            assert(rest[i] == payloads[i + 1]);
            assert(others[i] == choices[i + 1]);
        }
        if !ends_stream(choices[0]) {
            lemma_payloads_add_up(
                acc.absorb(choices[0].delta),
                rest,
                others,
                forwarded.push(payloads[0]),
            );
            if exists|i: int| 0 <= i < others.len() && ends_stream(#[trigger] others[i]) {
                let i = choose|i: int| 0 <= i < others.len() && ends_stream(#[trigger] others[i]);
                assert(ends_stream(choices[i + 1]));
            }
            if exists|i: int| 0 <= i < choices.len() && ends_stream(#[trigger] choices[i]) {
                let i = choose|i: int| 0 <= i < choices.len() && ends_stream(#[trigger] choices[i]);
                assert(ends_stream(others[i - 1]));
            }
        }
    }
}

/// The frame that ends a stream ends the reading: behind payloads that
/// leave the stream open it is forwarded and the stream is finished, and
/// behind payloads that end or fail the stream it is not read. What was
/// added up is the same either way.
pub proof fn lemma_done_ends_the_reading(
    acc: AccumulatorView,
    payloads: Seq<Seq<char>>,
    forwarded: Seq<Seq<char>>,
)
    ensures
        read_payloads(acc, payloads.push(done_marker()), forwarded).acc == read_payloads(
            acc,
            payloads,
            forwarded,
        ).acc,
        read_payloads(acc, payloads, forwarded).status is Open ==> read_payloads(
            acc,
            payloads.push(done_marker()),
            forwarded,
        ).status == StreamStatus::Finished && read_payloads(
            acc,
            payloads.push(done_marker()),
            forwarded,
        ).forwarded == read_payloads(acc, payloads, forwarded).forwarded.push(done_marker()),
        !(read_payloads(acc, payloads, forwarded).status is Open) ==> read_payloads(
            acc,
            payloads.push(done_marker()),
            forwarded,
        ).status == read_payloads(acc, payloads, forwarded).status && read_payloads(
            acc,
            payloads.push(done_marker()),
            forwarded,
        ).forwarded == read_payloads(acc, payloads, forwarded).forwarded,
    decreases payloads.len(),
{
    let all = payloads.push(done_marker());
    if payloads.len() == 0 {
        assert(all[0] == done_marker());
    } else {
        assert(all[0] == payloads[0]);
        assert(all.drop_first() =~= payloads.drop_first().push(done_marker()));
        let (next, status) = payload_step(acc, payloads[0]);
        if status is Open {
            lemma_done_ends_the_reading(next, payloads.drop_first(), forwarded.push(payloads[0]));
        }
    }
}

/// The content of a streamed answer is the texts of its content frames
/// joined in their order, without the frames that are a stop or bear a
/// finish reason that is not empty. This holds of a stream of frames of
/// content and stops that the frame `[DONE]` ends, in which no content
/// frame that goes on follows a frame that ends the stream: a decoder
/// that is fed its text has finished and has added up to a response with
/// exactly that content.
pub proof fn lemma_content_of_stream(payloads: Seq<Seq<char>>, choices: Seq<ChoiceView>)
    requires
        payloads.len() == choices.len(),
        forall|i: int|
            0 <= i < payloads.len() ==> plain_payload(#[trigger] payloads[i]) && reads_as(
                payloads[i],
                choices[i],
            ),
        forall|k: int|
            0 <= k < choices.len() ==> (#[trigger] choices[k]).delta is Content
                || choices[k].delta is Stop,
        forall|i: int, j: int|
            0 <= i < j < choices.len() && ends_stream(choices[i]) ==> ends_stream(choices[j]),
    ensures
        DecoderView::empty().fed(stream_text(payloads.push(done_marker()))).0.status
            == StreamStatus::Finished,
        completion_of(
            assembled(DecoderView::empty().fed(stream_text(payloads.push(done_marker()))).0.acc),
        ) == CompletionView::Content(kept_content(choices)),
{
    lemma_stream_adds_up(payloads, choices);
    lemma_streamed_content(choices);
}

/// A stream adds up as its frames do. A decoder that is fed the text of
/// a stream of plain payloads, each the chunk of a choice, with the frame
/// `[DONE]` at its end, has finished and has added up what the choices add
/// up to, one after the other.
pub proof fn lemma_stream_adds_up(payloads: Seq<Seq<char>>, choices: Seq<ChoiceView>)
    requires
        payloads.len() == choices.len(),
        forall|i: int|
            0 <= i < payloads.len() ==> plain_payload(#[trigger] payloads[i]) && reads_as(
                payloads[i],
                choices[i],
            ),
    ensures
        DecoderView::empty().fed(stream_text(payloads.push(done_marker()))).0.status
            == StreamStatus::Finished,
        DecoderView::empty().fed(stream_text(payloads.push(done_marker()))).0.acc
            == AccumulatorView::empty().run(choices),
{
    reveal_strlit("[DONE]");
    let all = payloads.push(done_marker());
    let text = stream_text(all);
    let none = Seq::<Seq<char>>::empty();
    let start = AccumulatorView::empty();
    assert(plain_payload(done_marker())) by {
        assert(done_marker().len() == 6);
        assert(done_marker().last() == ']');
        assert forall|i: int| !break_at(done_marker(), i) by {
            if 0 <= i && i + 1 < 6 {
                assert(done_marker()[i] != '\n');
            }
        }
    }
    assert forall|i: int| 0 <= i < all.len() implies plain_payload(#[trigger] all[i]) by {
        if i < payloads.len() {
            assert(all[i] == payloads[i]);
        }
    }
    assert(Seq::<char>::empty() + text =~= text);
    lemma_stream_is_read(start, all, none);
    lemma_done_ends_the_reading(start, payloads, none);
    lemma_payloads_add_up(start, payloads, choices, none);
}

/// The arguments of a tool call are rebuilt from the stream as the service
/// writes it. Where the pieces that the frames of a stream deliver for a
/// position are one opening piece followed by argument fragments, a
/// decoder that is fed the text of the stream ends with an entry at that
/// position that has the id, the name and the type of the opening piece
/// and the argument texts joined in the order of their arrival, whatever
/// the frames hold for other positions in between.
pub proof fn lemma_tool_call_of_stream(
    payloads: Seq<Seq<char>>,
    choices: Seq<ChoiceView>,
    index: int,
)
    requires
        payloads.len() == choices.len(),
        forall|i: int|
            0 <= i < payloads.len() ==> plain_payload(#[trigger] payloads[i]) && reads_as(
                payloads[i],
                choices[i],
            ),
        pieces_for(stream_pieces(choices), index).len() > 0,
        pieces_for(stream_pieces(choices), index)[0] is Init,
        forall|k: int|
            1 <= k < pieces_for(stream_pieces(choices), index).len() ==> (#[trigger] pieces_for(
                stream_pieces(choices),
                index,
            )[k]) is ArgsDelta,
    ensures
        entry_at(
            DecoderView::empty().fed(stream_text(payloads.push(done_marker()))).0.acc.tool_calls,
            index,
        ) == Some(
            opened(
                pieces_for(stream_pieces(choices), index)[0]->Init_id,
                index,
                pieces_for(stream_pieces(choices), index)[0]->Init_name,
                joined_arguments(pieces_for(stream_pieces(choices), index)),
                pieces_for(stream_pieces(choices), index)[0]->Init_kind,
            ),
        ),
{
    lemma_stream_adds_up(payloads, choices);
    lemma_arguments_of_stream(choices, index);
}

} // verus!
