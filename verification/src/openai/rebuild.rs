//! The tool calls of a stream: what the frames of a stream, taken in one
//! after the other, rebuild at each position.

use crate::openai::accumulator::{
    apply_chunk, apply_chunks, ends_stream, entry_at, joined_arguments,
    lemma_apply_chunks_ordered, lemma_arguments_rebuilt, lemma_entry_at_apply_chunks,
    lemma_extend_ordered, lemma_upsert_positions, opened, ordered, pieces_for, replay,
    replay_chunk, AccumulatorView, ToolCallFinalView,
};
use crate::openai::delta::{ChoiceView, DeltaView, ToolCallChunkView};
use vstd::prelude::*;

verus! {

/// The pieces of tool calls that a stream delivers, in the order of their
/// arrival: those of every frame before the first that ends the stream.
pub open spec fn stream_pieces(choices: Seq<ChoiceView>) -> Seq<ToolCallChunkView>
    decreases choices.len(),
{
    if choices.len() == 0 || ends_stream(choices[0]) {
        Seq::empty()
    } else {
        let head = match choices[0].delta {
            DeltaView::ToolCall { tool_calls } => tool_calls,
            _ => Seq::empty(),
        };
        head + stream_pieces(choices.drop_first())
    }
}

/// Pieces taken in one run give what the same pieces give when they are
/// taken in as two runs, one after the other.
pub proof fn lemma_apply_chunks_concat(
    entries: Seq<ToolCallFinalView>,
    first: Seq<ToolCallChunkView>,
    second: Seq<ToolCallChunkView>,
)
    ensures
        apply_chunks(entries, first + second) == apply_chunks(apply_chunks(entries, first), second),
    decreases first.len(),
{
    if first.len() == 0 {
        assert(first + second =~= second);
    } else {
        assert((first + second)[0] == first[0]);
        assert((first + second).drop_first() =~= first.drop_first() + second);
        lemma_apply_chunks_concat(apply_chunk(entries, first[0]), first.drop_first(), second);
    }
}

/// The tool calls that a stream adds up to are what its pieces rebuild,
/// however the pieces are spread over the frames.
pub proof fn lemma_run_tool_calls(acc: AccumulatorView, choices: Seq<ChoiceView>)
    ensures
        acc.run(choices).tool_calls == apply_chunks(acc.tool_calls, stream_pieces(choices)),
    decreases choices.len(),
{
    if choices.len() > 0 && !ends_stream(choices[0]) {
        let rest = choices.drop_first();
        lemma_run_tool_calls(acc.absorb(choices[0].delta), rest);
        match choices[0].delta {
            DeltaView::ToolCall { tool_calls } => {
                lemma_apply_chunks_concat(acc.tool_calls, tool_calls, stream_pieces(rest));
            },
            _ => {
                assert(Seq::<ToolCallChunkView>::empty() + stream_pieces(rest) =~= stream_pieces(
                    rest,
                ));
            },
        }
    }
}

/// The arguments of a tool call of a stream are rebuilt exactly. Where the
/// pieces that the stream delivers for a position are one opening piece
/// followed by argument fragments, the stream adds up to an entry at that
/// position with the id, the name and the type of the opening piece and
/// with the argument texts joined in the order of their arrival, however
/// the pieces are spread over the frames and whatever arrives for other
/// positions in between.
pub proof fn lemma_arguments_of_stream(choices: Seq<ChoiceView>, index: int)
    requires
        pieces_for(stream_pieces(choices), index).len() > 0,
        pieces_for(stream_pieces(choices), index)[0] is Init,
        forall|k: int|
            1 <= k < pieces_for(stream_pieces(choices), index).len() ==> (#[trigger] pieces_for(
                stream_pieces(choices),
                index,
            )[k]) is ArgsDelta,
    ensures
        entry_at(AccumulatorView::empty().run(choices).tool_calls, index) == Some(
            opened(
                pieces_for(stream_pieces(choices), index)[0]->Init_id,
                index,
                pieces_for(stream_pieces(choices), index)[0]->Init_name,
                joined_arguments(pieces_for(stream_pieces(choices), index)),
                pieces_for(stream_pieces(choices), index)[0]->Init_kind,
            ),
        ),
{
    lemma_run_tool_calls(AccumulatorView::empty(), choices);
    lemma_arguments_rebuilt(Seq::empty(), stream_pieces(choices), index);
}

/// One of the pieces opens position `index`.
pub open spec fn opens(chunks: Seq<ToolCallChunkView>, index: int) -> bool {
    exists|i: int| 0 <= i < chunks.len() && (#[trigger] chunks[i]) is Init && chunks[i].index() == index
}

/// An entry that is there stays, and a position that is opened has an
/// entry from then on.
pub proof fn lemma_replay_keeps(
    entry: Option<ToolCallFinalView>,
    chunks: Seq<ToolCallChunkView>,
    index: int,
)
    requires
        entry is Some || opens(chunks, index),
    ensures
        replay(entry, chunks, index) is Some,
    decreases chunks.len(),
{
    if chunks.len() > 0 {
        let rest = chunks.drop_first();
        let next = replay_chunk(entry, chunks[0], index);
        if next is None {
            let i = choose|i: int|
                0 <= i < chunks.len() && (#[trigger] chunks[i]) is Init && chunks[i].index()
                    == index;
            assert(i > 0);
            assert(rest[i - 1] == chunks[i]);
            assert(opens(rest, index));
        }
        lemma_replay_keeps(next, rest, index);
    }
}

/// One of the entries is for position `index`.
pub open spec fn holds_position(entries: Seq<ToolCallFinalView>, index: int) -> bool {
    exists|i: int| 0 <= i < entries.len() && (#[trigger] entries[i]).index == index
}

/// The entry for a position stands among the entries.
pub proof fn lemma_entry_at_found(entries: Seq<ToolCallFinalView>, index: int)
    requires
        entry_at(entries, index) is Some,
    ensures
        holds_position(entries, index),
    decreases entries.len(),
{
    if entries[0].index != index {
        let rest = entries.drop_first();
        lemma_entry_at_found(rest, index);
        let i = choose|i: int| 0 <= i < rest.len() && (#[trigger] rest[i]).index == index;
        assert(entries[i + 1] == rest[i]);
    }
}

/// Entries are only made for positions that are opened: where the entries
/// and the opening pieces lie below a bound, so do the entries after the
/// pieces.
pub proof fn lemma_positions_bounded(
    entries: Seq<ToolCallFinalView>,
    chunks: Seq<ToolCallChunkView>,
    n: int,
)
    requires
        forall|i: int| 0 <= i < entries.len() ==> 0 <= (#[trigger] entries[i]).index < n,
        forall|i: int|
            0 <= i < chunks.len() && (#[trigger] chunks[i]) is Init ==> 0 <= chunks[i].index() < n,
    ensures
        forall|i: int|
            0 <= i < apply_chunks(entries, chunks).len() ==> 0 <= (#[trigger] apply_chunks(
                entries,
                chunks,
            )[i]).index < n,
    decreases chunks.len(),
{
    if chunks.len() > 0 {
        let rest = chunks.drop_first();
        let next = apply_chunk(entries, chunks[0]);
        assert forall|i: int| 0 <= i < next.len() implies 0 <= (#[trigger] next[i]).index < n by {
            match chunks[0] {
                ToolCallChunkView::Init { id, index, name, arguments, kind } => {
                    let entry = opened(id, index, name, arguments, kind);
                    lemma_upsert_positions(entries, entry);
                    if next[i] != entry {
                        let k = choose|k: int| 0 <= k < entries.len() && entries[k] == next[i];
                        assert(0 <= entries[k].index < n);
                    }
                },
                ToolCallChunkView::ArgsDelta { index, arguments } => {
                    lemma_extend_ordered(entries, index, arguments);
                    assert(next[i].index == entries[i].index);
                },
            }
        }
        assert forall|i: int| 0 <= i < rest.len() && (#[trigger] rest[i]) is Init implies 0
            <= rest[i].index() < n by {
            assert(rest[i] == chunks[i + 1]);
        }
        lemma_positions_bounded(next, rest, n);
        assert(apply_chunks(entries, chunks) == apply_chunks(next, rest));
    } else {
        assert(apply_chunks(entries, chunks) == entries);
    }
}

/// In entries that stand in the order of their positions, an entry is at
/// least as far on as it stands, counted from the first position that may
/// occur.
pub proof fn lemma_position_at_least(entries: Seq<ToolCallFinalView>, i: int)
    requires
        ordered(entries),
        0 <= i < entries.len(),
        entries[0].index >= 0,
    ensures
        entries[i].index >= i,
    decreases i,
{
    if i > 0 {
        lemma_position_at_least(entries, i - 1);
    }
}

/// Entries in the order of their positions that hold every position below
/// `n` and no other hold position `k` at place `k`.
pub proof fn lemma_dense_at(entries: Seq<ToolCallFinalView>, n: int, k: int)
    requires
        ordered(entries),
        forall|i: int| 0 <= i < entries.len() ==> 0 <= (#[trigger] entries[i]).index < n,
        forall|p: int| 0 <= p < n ==> #[trigger] holds_position(entries, p),
        0 <= k < n,
    ensures
        k < entries.len(),
        entries[k].index == k,
    decreases k,
{
    assert(holds_position(entries, k));
    let i = choose|i: int| 0 <= i < entries.len() && (#[trigger] entries[i]).index == k;
    assert(entries[0].index >= 0);
    lemma_position_at_least(entries, i);
    if i < k {
        lemma_dense_at(entries, n, i);
    }
}

/// Positions that are opened without a gap give as many entries as there
/// are positions, the one for position `k` at place `k`. This holds where
/// the pieces open every position below `n` and none from `n` on, in
/// whatever order and however often.
pub proof fn lemma_dense_positions(chunks: Seq<ToolCallChunkView>, n: int)
    requires
        0 <= n,
        forall|i: int|
            0 <= i < chunks.len() && (#[trigger] chunks[i]) is Init ==> 0 <= chunks[i].index() < n,
        forall|k: int| 0 <= k < n ==> opens(chunks, k),
    ensures
        apply_chunks(Seq::empty(), chunks).len() == n,
        forall|k: int|
            0 <= k < n ==> (#[trigger] apply_chunks(Seq::empty(), chunks)[k]).index == k,
{
    let none = Seq::<ToolCallFinalView>::empty();
    let entries = apply_chunks(none, chunks);
    lemma_apply_chunks_ordered(none, chunks);
    lemma_positions_bounded(none, chunks, n);
    assert forall|p: int| 0 <= p < n implies #[trigger] holds_position(entries, p) by {
        assert(opens(chunks, p));
        lemma_entry_at_apply_chunks(none, chunks, p);
        lemma_replay_keeps(entry_at(none, p), chunks, p);
        lemma_entry_at_found(entries, p);
    }
    assert forall|k: int| 0 <= k < n implies k < entries.len() && (#[trigger] entries[k]).index
        == k by {
        lemma_dense_at(entries, n, k);
    }
    if entries.len() > n {
        assert(entries[0].index >= 0);
        lemma_position_at_least(entries, n);
        assert(entries[n].index < n);
    }
    if n > 0 {
        lemma_dense_at(entries, n, n - 1);
    }
}

/// The tool calls of a stream stand at their positions: where the pieces
/// that a stream delivers open every position below `n` and none from `n`
/// on, the stream adds up to `n` tool calls, the one for position `k` at
/// place `k`.
pub proof fn lemma_positions_of_stream(choices: Seq<ChoiceView>, n: int)
    requires
        0 <= n,
        forall|i: int|
            0 <= i < stream_pieces(choices).len() && (#[trigger] stream_pieces(choices)[i])
                is Init ==> 0 <= stream_pieces(choices)[i].index() < n,
        forall|k: int| 0 <= k < n ==> opens(stream_pieces(choices), k),
    ensures
        AccumulatorView::empty().run(choices).tool_calls.len() == n,
        forall|k: int|
            0 <= k < n ==> (#[trigger] AccumulatorView::empty().run(choices).tool_calls[k]).index
                == k,
{
    lemma_run_tool_calls(AccumulatorView::empty(), choices);
    lemma_dense_positions(stream_pieces(choices), n);
}

} // verus!
