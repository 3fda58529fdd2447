//! What a streamed response has added up to so far.
//!
//! Content and reasoning are concatenated as they arrive. Tool calls are
//! rebuilt by position: the first piece for a position opens an entry and
//! later pieces add to its arguments.

use crate::json::{
    members_of, push_member, push_value, values_of, Field, Json, JsonValue, Member,
};
use crate::json::lemma_lookup_push;
use crate::openai::response::{completion_of, message_of, CompletionView};
use crate::openai::delta::{
    chunks_of, ChoiceView, CompletionChunkChoice, Delta, DeltaView, ToolCallChunk,
    ToolCallChunkView,
};
use crate::text::str_eq;
use vstd::prelude::*;
use vstd::string::StringExecFns;

verus! {

/// The name and the arguments of a rebuilt tool call.
#[derive(Debug)]
pub struct FunctionFinal {
    pub name: String,
    pub arguments: String,
}

/// A tool call rebuilt from its pieces.
#[derive(Debug)]
pub struct ToolCallFinal {
    pub id: String,
    pub index: usize,
    pub function: FunctionFinal,
    pub kind: String,
}

/// The value of a [`ToolCallFinal`].
pub struct ToolCallFinalView {
    pub id: Seq<char>,
    pub index: int,
    pub name: Seq<char>,
    pub arguments: Seq<char>,
    pub kind: Seq<char>,
}

impl View for ToolCallFinal {
    type V = ToolCallFinalView;

    open spec fn view(&self) -> ToolCallFinalView {
        ToolCallFinalView {
            id: self.id@,
            index: self.index as int,
            name: self.function.name@,
            arguments: self.function.arguments@,
            kind: self.kind@,
        }
    }
}

impl ToolCallFinalView {
    /// The entry with `fragment` added to its arguments.
    pub open spec fn extended(self, fragment: Seq<char>) -> ToolCallFinalView {
        ToolCallFinalView { arguments: self.arguments + fragment, ..self }
    }
}

/// The values of a sequence of entries.
pub open spec fn entries_of(entries: Seq<ToolCallFinal>) -> Seq<ToolCallFinalView> {
    Seq::new(entries.len(), |i: int| entries[i]@)
}

/// The entries stand in the order of their positions, each position once.
pub open spec fn ordered(entries: Seq<ToolCallFinalView>) -> bool {
    forall|i: int, j: int| 0 <= i < j < entries.len() ==> entries[i].index < entries[j].index
}

/// The entry for position `index`.
pub open spec fn entry_at(entries: Seq<ToolCallFinalView>, index: int) -> Option<
    ToolCallFinalView,
>
    decreases entries.len(),
{
    if entries.len() == 0 {
        None
    } else if entries[0].index == index {
        Some(entries[0])
    } else {
        entry_at(entries.drop_first(), index)
    }
}

/// The entries with `entry` put at its position: in place of the entry
/// that has the position, or else before the first entry of a later one.
pub open spec fn upsert(entries: Seq<ToolCallFinalView>, entry: ToolCallFinalView) -> Seq<
    ToolCallFinalView,
>
    decreases entries.len(),
{
    if entries.len() == 0 {
        seq![entry]
    } else if entries[0].index == entry.index {
        seq![entry] + entries.drop_first()
    } else if entries[0].index > entry.index {
        seq![entry] + entries
    } else {
        seq![entries[0]] + upsert(entries.drop_first(), entry)
    }
}

/// The entries with `fragment` added to the arguments of the entry for
/// position `index`; unchanged where there is no such entry.
pub open spec fn extend_arguments(
    entries: Seq<ToolCallFinalView>,
    index: int,
    fragment: Seq<char>,
) -> Seq<ToolCallFinalView>
    decreases entries.len(),
{
    if entries.len() == 0 {
        entries
    } else if entries[0].index == index {
        seq![entries[0].extended(fragment)] + entries.drop_first()
    } else {
        seq![entries[0]] + extend_arguments(entries.drop_first(), index, fragment)
    }
}

/// The entry that an opening piece creates.
pub open spec fn opened(
    id: Seq<char>,
    index: int,
    name: Seq<char>,
    arguments: Seq<char>,
    kind: Seq<char>,
) -> ToolCallFinalView {
    ToolCallFinalView { id, index, name, arguments, kind }
}

/// The entries after one piece.
pub open spec fn apply_chunk(entries: Seq<ToolCallFinalView>, chunk: ToolCallChunkView) -> Seq<
    ToolCallFinalView,
> {
    match chunk {
        ToolCallChunkView::Init { id, index, name, arguments, kind } => upsert(
            entries,
            opened(id, index, name, arguments, kind),
        ),
        ToolCallChunkView::ArgsDelta { index, arguments } => extend_arguments(
            entries,
            index,
            arguments,
        ),
    }
}

/// The entries after a sequence of pieces, taken in their order.
pub open spec fn apply_chunks(
    entries: Seq<ToolCallFinalView>,
    chunks: Seq<ToolCallChunkView>,
) -> Seq<ToolCallFinalView>
    decreases chunks.len(),
{
    if chunks.len() == 0 {
        entries
    } else {
        apply_chunks(apply_chunk(entries, chunks[0]), chunks.drop_first())
    }
}

/// What one piece makes of the entry for position `index`, whatever the
/// other entries are: a piece for another position changes nothing.
pub open spec fn replay_chunk(
    entry: Option<ToolCallFinalView>,
    chunk: ToolCallChunkView,
    index: int,
) -> Option<ToolCallFinalView> {
    match chunk {
        ToolCallChunkView::Init { id, index: at, name, arguments, kind } => if at == index {
            Some(opened(id, at, name, arguments, kind))
        } else {
            entry
        },
        ToolCallChunkView::ArgsDelta { index: at, arguments } => if at == index {
            match entry {
                Some(e) => Some(e.extended(arguments)),
                None => None,
            }
        } else {
            entry
        },
    }
}

/// What a sequence of pieces makes of the entry for position `index`.
pub open spec fn replay(
    entry: Option<ToolCallFinalView>,
    chunks: Seq<ToolCallChunkView>,
    index: int,
) -> Option<ToolCallFinalView>
    decreases chunks.len(),
{
    if chunks.len() == 0 {
        entry
    } else {
        replay(replay_chunk(entry, chunks[0], index), chunks.drop_first(), index)
    }
}

/// The pieces for position `index`, in their order.
pub open spec fn pieces_for(chunks: Seq<ToolCallChunkView>, index: int) -> Seq<ToolCallChunkView>
    decreases chunks.len(),
{
    if chunks.len() == 0 {
        chunks
    } else if chunks[0].index() == index {
        seq![chunks[0]] + pieces_for(chunks.drop_first(), index)
    } else {
        pieces_for(chunks.drop_first(), index)
    }
}

/// The argument fragments of a sequence of pieces, joined in their order.
pub open spec fn joined_arguments(chunks: Seq<ToolCallChunkView>) -> Seq<char>
    decreases chunks.len(),
{
    if chunks.len() == 0 {
        Seq::empty()
    } else {
        let head = match chunks[0] {
            ToolCallChunkView::Init { arguments, .. } => arguments,
            ToolCallChunkView::ArgsDelta { arguments, .. } => arguments,
        };
        head + joined_arguments(chunks.drop_first())
    }
}

/// After `entry` was put at its position it is the entry there, and the
/// entries for all other positions are as before.
pub proof fn lemma_entry_at_upsert(
    entries: Seq<ToolCallFinalView>,
    entry: ToolCallFinalView,
    index: int,
)
    ensures
        entry_at(upsert(entries, entry), index) == if index == entry.index {
            Some(entry)
        } else {
            entry_at(entries, index)
        },
    decreases entries.len(),
{
    let after = upsert(entries, entry);
    if entries.len() == 0 {
        assert(after[0] == entry);
        assert(after.drop_first() =~= Seq::empty());
    } else if entries[0].index == entry.index {
        assert(after[0] == entry);
        assert(after.drop_first() =~= entries.drop_first());
    } else if entries[0].index > entry.index {
        assert(after[0] == entry);
        assert(after.drop_first() =~= entries);
    } else {
        assert(after[0] == entries[0]);
        assert(after.drop_first() =~= upsert(entries.drop_first(), entry));
        lemma_entry_at_upsert(entries.drop_first(), entry, index);
    }
}

/// After a fragment was added for a position, the entry there has the
/// fragment at the end of its arguments, and the entries for all other
/// positions are as before.
pub proof fn lemma_entry_at_extend(
    entries: Seq<ToolCallFinalView>,
    at: int,
    fragment: Seq<char>,
    index: int,
)
    ensures
        entry_at(extend_arguments(entries, at, fragment), index) == if index == at {
            match entry_at(entries, index) {
                Some(e) => Some(e.extended(fragment)),
                None => None,
            }
        } else {
            entry_at(entries, index)
        },
    decreases entries.len(),
{
    let after = extend_arguments(entries, at, fragment);
    if entries.len() == 0 {
    } else if entries[0].index == at {
        assert(after.drop_first() =~= entries.drop_first());
    } else {
        assert(after.drop_first() =~= extend_arguments(entries.drop_first(), at, fragment));
        lemma_entry_at_extend(entries.drop_first(), at, fragment, index);
    }
}

/// The entry that a sequence of pieces leaves at a position is what the
/// pieces make of the entry that was there, whatever else is rebuilt at
/// other positions.
pub proof fn lemma_entry_at_apply_chunks(
    entries: Seq<ToolCallFinalView>,
    chunks: Seq<ToolCallChunkView>,
    index: int,
)
    ensures
        entry_at(apply_chunks(entries, chunks), index) == replay(
            entry_at(entries, index),
            chunks,
            index,
        ),
    decreases chunks.len(),
{
    if chunks.len() == 0 {
    } else {
        match chunks[0] {
            ToolCallChunkView::Init { id, index: at, name, arguments, kind } => {
                lemma_entry_at_upsert(entries, opened(id, at, name, arguments, kind), index);
            },
            ToolCallChunkView::ArgsDelta { index: at, arguments } => {
                lemma_entry_at_extend(entries, at, arguments, index);
            },
        }
        lemma_entry_at_apply_chunks(apply_chunk(entries, chunks[0]), chunks.drop_first(), index);
    }
}

/// Only the pieces for a position bear on its entry: pieces for other
/// positions may stand anywhere among them.
pub proof fn lemma_replay_ignores_other_positions(
    entry: Option<ToolCallFinalView>,
    chunks: Seq<ToolCallChunkView>,
    index: int,
)
    ensures
        replay(entry, chunks, index) == replay(entry, pieces_for(chunks, index), index),
    decreases chunks.len(),
{
    if chunks.len() == 0 {
    } else {
        let rest = chunks.drop_first();
        let own = pieces_for(chunks, index);
        if chunks[0].index() == index {
            assert(own[0] == chunks[0]);
            assert(own.drop_first() =~= pieces_for(rest, index));
            lemma_replay_ignores_other_positions(
                replay_chunk(entry, chunks[0], index),
                rest,
                index,
            );
        } else {
            assert(replay_chunk(entry, chunks[0], index) == entry);
            lemma_replay_ignores_other_positions(entry, rest, index);
        }
    }
}

/// Argument fragments for an open entry add up: after them its arguments
/// are what they were, followed by the fragments in their order.
pub proof fn lemma_replay_joins_fragments(
    entry: ToolCallFinalView,
    chunks: Seq<ToolCallChunkView>,
    index: int,
)
    requires
        forall|k: int|
            0 <= k < chunks.len() ==> (#[trigger] chunks[k]) is ArgsDelta && chunks[k].index()
                == index,
    ensures
        replay(Some(entry), chunks, index) == Some(entry.extended(joined_arguments(chunks))),
    decreases chunks.len(),
{
    if chunks.len() == 0 {
        assert(entry.arguments + Seq::<char>::empty() =~= entry.arguments);
    } else {
        let rest = chunks.drop_first();
        let fragment = chunks[0]->ArgsDelta_arguments;
        assert(chunks[0] is ArgsDelta && chunks[0].index() == index);
        assert forall|k: int| 0 <= k < rest.len() implies (#[trigger] rest[k]) is ArgsDelta
            && rest[k].index() == index by {
            assert(rest[k] == chunks[k + 1]);
        }
        lemma_replay_joins_fragments(entry.extended(fragment), rest, index);
        assert(entry.arguments + fragment + joined_arguments(rest) =~= entry.arguments + (fragment
            + joined_arguments(rest)));
    }
}

/// The arguments of a streamed tool call are rebuilt exactly. Where the
/// pieces for a position are one opening piece followed by argument
/// fragments, the entry at that position ends with the opening piece's id,
/// name and type, and with all the argument texts joined in their order of
/// arrival, however the pieces for other positions are interleaved.
pub proof fn lemma_arguments_rebuilt(
    entries: Seq<ToolCallFinalView>,
    chunks: Seq<ToolCallChunkView>,
    index: int,
)
    requires
        pieces_for(chunks, index).len() > 0,
        pieces_for(chunks, index)[0] is Init,
        forall|k: int|
            1 <= k < pieces_for(chunks, index).len() ==> (#[trigger] pieces_for(
                chunks,
                index,
            )[k]) is ArgsDelta,
    ensures
        entry_at(apply_chunks(entries, chunks), index) == Some(
            opened(
                pieces_for(chunks, index)[0]->Init_id,
                index,
                pieces_for(chunks, index)[0]->Init_name,
                joined_arguments(pieces_for(chunks, index)),
                pieces_for(chunks, index)[0]->Init_kind,
            ),
        ),
{
    let own = pieces_for(chunks, index);
    let rest = own.drop_first();
    lemma_pieces_for_index(chunks, index);
    lemma_entry_at_apply_chunks(entries, chunks, index);
    lemma_replay_ignores_other_positions(entry_at(entries, index), chunks, index);
    let first = opened(
        own[0]->Init_id,
        index,
        own[0]->Init_name,
        own[0]->Init_arguments,
        own[0]->Init_kind,
    );
    assert(own[0].index() == index);
    assert(replay_chunk(entry_at(entries, index), own[0], index) == Some(first));
    assert forall|k: int| 0 <= k < rest.len() implies (#[trigger] rest[k]) is ArgsDelta
        && rest[k].index() == index by {
        assert(rest[k] == own[k + 1]);
    }
    lemma_replay_joins_fragments(first, rest, index);
}

/// Every piece among the pieces for a position is for that position.
pub proof fn lemma_pieces_for_index(chunks: Seq<ToolCallChunkView>, index: int)
    ensures
        forall|k: int|
            0 <= k < pieces_for(chunks, index).len() ==> (#[trigger] pieces_for(
                chunks,
                index,
            )[k]).index() == index,
    decreases chunks.len(),
{
    if chunks.len() == 0 {
    } else {
        lemma_pieces_for_index(chunks.drop_first(), index);
        let own = pieces_for(chunks, index);
        let tail = pieces_for(chunks.drop_first(), index);
        assert forall|k: int| 0 <= k < own.len() implies (#[trigger] own[k]).index() == index by {
            if chunks[0].index() == index {
                if k > 0 {
                    assert(own[k] == tail[k - 1]);
                }
            } else {
                assert(own[k] == tail[k]);
            }
        }
    }
}

/// Where the entries before `p` have earlier positions than `entry` and
/// the entry at `p`, if any, has not, `entry` takes the place at `p`: it
/// replaces the entry there where that has the same position, and stands
/// before it otherwise.
pub proof fn lemma_upsert_at(entries: Seq<ToolCallFinalView>, entry: ToolCallFinalView, p: int)
    requires
        0 <= p <= entries.len(),
        forall|k: int| 0 <= k < p ==> (#[trigger] entries[k]).index < entry.index,
        p < entries.len() ==> entries[p].index >= entry.index,
    ensures
        upsert(entries, entry) == if p < entries.len() && entries[p].index == entry.index {
            entries.update(p, entry)
        } else {
            entries.insert(p, entry)
        },
    decreases p,
{
    if entries.len() == 0 {
        assert(seq![entry] =~= entries.insert(0, entry));
    } else if p == 0 {
        if entries[0].index == entry.index {
            assert(seq![entry] + entries.drop_first() =~= entries.update(0, entry));
        } else {
            assert(seq![entry] + entries =~= entries.insert(0, entry));
        }
    } else {
        let rest = entries.drop_first();
        assert(entries[0].index < entry.index);
        assert forall|k: int| 0 <= k < p - 1 implies (#[trigger] rest[k]).index < entry.index by {
            assert(rest[k] == entries[k + 1]);
        }
        lemma_upsert_at(rest, entry, p - 1);
        if p < entries.len() && entries[p].index == entry.index {
            assert(seq![entries[0]] + rest.update(p - 1, entry) =~= entries.update(p, entry));
        } else {
            assert(seq![entries[0]] + rest.insert(p - 1, entry) =~= entries.insert(p, entry));
        }
    }
}

/// Where no entry before `p` has the position `index` and the entry at
/// `p`, if any, has it, a fragment for `index` goes to the entry at `p`.
pub proof fn lemma_extend_at(
    entries: Seq<ToolCallFinalView>,
    index: int,
    fragment: Seq<char>,
    p: int,
)
    requires
        0 <= p <= entries.len(),
        forall|k: int| 0 <= k < p ==> (#[trigger] entries[k]).index != index,
        p < entries.len() ==> entries[p].index == index,
    ensures
        extend_arguments(entries, index, fragment) == if p < entries.len() {
            entries.update(p, entries[p].extended(fragment))
        } else {
            entries
        },
    decreases p,
{
    if entries.len() == 0 {
    } else if p == 0 {
        assert(seq![entries[0].extended(fragment)] + entries.drop_first() =~= entries.update(
            0,
            entries[0].extended(fragment),
        ));
    } else {
        let rest = entries.drop_first();
        assert(entries[0].index != index);
        assert forall|k: int| 0 <= k < p - 1 implies (#[trigger] rest[k]).index != index by {
            assert(rest[k] == entries[k + 1]);
        }
        lemma_extend_at(rest, index, fragment, p - 1);
        if p < entries.len() {
            assert(seq![entries[0]] + rest.update(p - 1, rest[p - 1].extended(fragment))
                =~= entries.update(p, entries[p].extended(fragment)));
        } else {
            assert(seq![entries[0]] + rest =~= entries);
        }
    }
}

/// Putting an entry at its position keeps the entries in order.
pub proof fn lemma_upsert_ordered(entries: Seq<ToolCallFinalView>, entry: ToolCallFinalView)
    requires
        ordered(entries),
    ensures
        ordered(upsert(entries, entry)),
    decreases entries.len(),
{
    let after = upsert(entries, entry);
    if entries.len() == 0 {
    } else if entries[0].index == entry.index {
        assert(after =~= entries.update(0, entry));
    } else if entries[0].index > entry.index {
        assert forall|i: int, j: int| 0 <= i < j < after.len() implies after[i].index
            < after[j].index by {
            if i == 0 {
                assert(after[j] == entries[j - 1]);
                assert(entries[0].index <= entries[j - 1].index);
            } else {
                assert(after[i] == entries[i - 1] && after[j] == entries[j - 1]);
            }
        }
    } else {
        let rest = entries.drop_first();
        assert(ordered(rest)) by {
            assert forall|i: int, j: int| 0 <= i < j < rest.len() implies rest[i].index
                < rest[j].index by {
                assert(rest[i] == entries[i + 1] && rest[j] == entries[j + 1]);
            }
        }
        lemma_upsert_ordered(rest, entry);
        let tail = upsert(rest, entry);
        lemma_upsert_positions(rest, entry);
        assert forall|i: int, j: int| 0 <= i < j < after.len() implies after[i].index
            < after[j].index by {
            if i == 0 {
                assert(after[j] == tail[j - 1]);
                if tail[j - 1] != entry {
                    let k = choose|k: int| 0 <= k < rest.len() && rest[k] == tail[j - 1];
                    assert(rest[k] == entries[k + 1]);
                }
            } else {
                assert(after[i] == tail[i - 1] && after[j] == tail[j - 1]);
            }
        }
    }
}

/// Every entry after putting `entry` at its position is `entry` or one of
/// the entries from before.
pub proof fn lemma_upsert_positions(entries: Seq<ToolCallFinalView>, entry: ToolCallFinalView)
    ensures
        forall|j: int|
            0 <= j < upsert(entries, entry).len() ==> (#[trigger] upsert(entries, entry)[j])
                == entry || exists|k: int|
                0 <= k < entries.len() && entries[k] == upsert(entries, entry)[j],
    decreases entries.len(),
{
    let after = upsert(entries, entry);
    if entries.len() == 0 {
    } else if entries[0].index == entry.index {
        assert forall|j: int| 0 <= j < after.len() implies (#[trigger] after[j]) == entry
            || exists|k: int| 0 <= k < entries.len() && entries[k] == after[j] by {
            if j > 0 {
                assert(entries[j] == after[j]);
            }
        }
    } else if entries[0].index > entry.index {
        assert forall|j: int| 0 <= j < after.len() implies (#[trigger] after[j]) == entry
            || exists|k: int| 0 <= k < entries.len() && entries[k] == after[j] by {
            if j > 0 {
                assert(entries[j - 1] == after[j]);
            }
        }
    } else {
        let rest = entries.drop_first();
        let tail = upsert(rest, entry);
        lemma_upsert_positions(rest, entry);
        assert forall|j: int| 0 <= j < after.len() implies (#[trigger] after[j]) == entry
            || exists|k: int| 0 <= k < entries.len() && entries[k] == after[j] by {
            if j == 0 {
                assert(entries[0] == after[0]);
            } else {
                assert(after[j] == tail[j - 1]);
                if tail[j - 1] != entry {
                    let k = choose|k: int| 0 <= k < rest.len() && rest[k] == tail[j - 1];
                    assert(entries[k + 1] == after[j]);
                }
            }
        }
    }
}

/// Adding a fragment keeps the entries at their positions, and so in order.
pub proof fn lemma_extend_ordered(
    entries: Seq<ToolCallFinalView>,
    index: int,
    fragment: Seq<char>,
)
    ensures
        extend_arguments(entries, index, fragment).len() == entries.len(),
        forall|k: int|
            0 <= k < entries.len() ==> (#[trigger] extend_arguments(
                entries,
                index,
                fragment,
            )[k]).index == entries[k].index,
        ordered(entries) ==> ordered(extend_arguments(entries, index, fragment)),
    decreases entries.len(),
{
    let after = extend_arguments(entries, index, fragment);
    if entries.len() == 0 {
    } else if entries[0].index == index {
        assert forall|k: int| 0 <= k < entries.len() implies (#[trigger] after[k]).index
            == entries[k].index by {
            if k > 0 {
                assert(after[k] == entries[k]);
            }
        }
    } else {
        let rest = entries.drop_first();
        lemma_extend_ordered(rest, index, fragment);
        let tail = extend_arguments(rest, index, fragment);
        assert forall|k: int| 0 <= k < entries.len() implies (#[trigger] after[k]).index
            == entries[k].index by {
            if k > 0 {
                assert(after[k] == tail[k - 1]);
                assert(rest[k - 1] == entries[k]);
            }
        }
    }
}

/// A sequence of pieces keeps the entries in order.
pub proof fn lemma_apply_chunks_ordered(
    entries: Seq<ToolCallFinalView>,
    chunks: Seq<ToolCallChunkView>,
)
    requires
        ordered(entries),
    ensures
        ordered(apply_chunks(entries, chunks)),
    decreases chunks.len(),
{
    if chunks.len() > 0 {
        match chunks[0] {
            ToolCallChunkView::Init { id, index, name, arguments, kind } => {
                lemma_upsert_ordered(entries, opened(id, index, name, arguments, kind));
            },
            ToolCallChunkView::ArgsDelta { index, arguments } => {
                lemma_extend_ordered(entries, index, arguments);
            },
        }
        lemma_apply_chunks_ordered(apply_chunk(entries, chunks[0]), chunks.drop_first());
    }
}

/// Puts `entry` at its position among `entries`.
pub fn upsert_entry(entries: &mut Vec<ToolCallFinal>, entry: ToolCallFinal)
    ensures
        entries_of(final(entries)@) == upsert(entries_of(old(entries)@), entry@),
        ordered(entries_of(old(entries)@)) ==> ordered(entries_of(final(entries)@)),
{
    let ghost before = entries_of(entries@);
    let mut p: usize = 0;
    while p < entries.len() && entries[p].index < entry.index
        invariant
            p <= entries@.len(),
            before == entries_of(entries@),
            forall|k: int| 0 <= k < p ==> (#[trigger] before[k]).index < entry@.index,
        decreases entries@.len() - p,
    {
        p += 1;
    }
    proof {
        lemma_upsert_at(before, entry@, p as int);
        if ordered(before) {
            lemma_upsert_ordered(before, entry@);
        }
    }
    if p < entries.len() && entries[p].index == entry.index {
        entries.set(p, entry);
        assert(entries_of(entries@) =~= before.update(p as int, entry@));
    } else {
        entries.insert(p, entry);
        assert(entries_of(entries@) =~= before.insert(p as int, entry@));
    }
}

/// Adds `fragment` to the arguments of the entry for position `index`,
/// where there is one.
pub fn extend_entry(entries: &mut Vec<ToolCallFinal>, index: usize, fragment: &str)
    ensures
        entries_of(final(entries)@) == extend_arguments(
            entries_of(old(entries)@),
            index as int,
            fragment@,
        ),
        ordered(entries_of(old(entries)@)) ==> ordered(entries_of(final(entries)@)),
{
    let ghost before = entries_of(entries@);
    let mut p: usize = 0;
    while p < entries.len() && entries[p].index != index
        invariant
            p <= entries@.len(),
            before == entries_of(entries@),
            forall|k: int| 0 <= k < p ==> (#[trigger] before[k]).index != index,
        decreases entries@.len() - p,
    {
        p += 1;
    }
    proof {
        lemma_extend_at(before, index as int, fragment@, p as int);
        lemma_extend_ordered(before, index as int, fragment@);
    }
    if p < entries.len() {
        let found = entries.remove(p);
        let entry = ToolCallFinal {
            id: found.id,
            index: found.index,
            function: FunctionFinal {
                name: found.function.name,
                arguments: found.function.arguments.concat(fragment),
            },
            kind: found.kind,
        };
        entries.insert(p, entry);
        assert(entries_of(entries@) =~= before.update(
            p as int,
            before[p as int].extended(fragment@),
        ));
    }
}

/// Takes one piece of a tool call into `entries`.
pub fn apply_tool_call_chunk(entries: &mut Vec<ToolCallFinal>, chunk: &ToolCallChunk)
    ensures
        entries_of(final(entries)@) == apply_chunk(entries_of(old(entries)@), chunk@),
        ordered(entries_of(old(entries)@)) ==> ordered(entries_of(final(entries)@)),
{
    match chunk {
        ToolCallChunk::Init { id, index, name, arguments, kind } => {
            let entry = ToolCallFinal {
                id: id.clone(),
                index: *index,
                function: FunctionFinal { name: name.clone(), arguments: arguments.clone() },
                kind: kind.clone(),
            };
            upsert_entry(entries, entry);
        },
        ToolCallChunk::ArgsDelta { index, arguments } => {
            extend_entry(entries, *index, arguments.as_str());
        },
    }
}

/// Takes a sequence of pieces into `entries`, in their order.
pub fn apply_tool_call_chunks(entries: &mut Vec<ToolCallFinal>, chunks: &Vec<ToolCallChunk>)
    ensures
        entries_of(final(entries)@) == apply_chunks(
            entries_of(old(entries)@),
            chunks_of(chunks@),
        ),
        ordered(entries_of(old(entries)@)) ==> ordered(entries_of(final(entries)@)),
{
    let ghost all = chunks_of(chunks@);
    let ghost before = entries_of(entries@);
    let mut i: usize = 0;
    assert(all.skip(0) == all);
    while i < chunks.len()
        invariant
            i <= chunks@.len(),
            all == chunks_of(chunks@),
            apply_chunks(before, all) == apply_chunks(entries_of(entries@), all.skip(i as int)),
            ordered(before) ==> ordered(entries_of(entries@)),
        decreases chunks@.len() - i,
    {
        let ghost rest = all.skip(i as int);
        assert(rest[0] == chunks@[i as int]@);
        assert(rest.drop_first() == all.skip(i + 1));
        apply_tool_call_chunk(entries, &chunks[i]);
        i += 1;
    }
}

/// The value of a [`StreamAccumulator`].
pub struct AccumulatorView {
    pub content: Seq<char>,
    pub reasoning: Seq<char>,
    pub tool_calls: Seq<ToolCallFinalView>,
}

impl AccumulatorView {
    /// Nothing received yet.
    pub open spec fn empty() -> AccumulatorView {
        AccumulatorView {
            content: Seq::empty(),
            reasoning: Seq::empty(),
            tool_calls: Seq::empty(),
        }
    }

    /// The state after a delta was taken in.
    pub open spec fn absorb(self, delta: DeltaView) -> AccumulatorView {
        match delta {
            DeltaView::Content { content } => AccumulatorView {
                content: self.content + content,
                ..self
            },
            DeltaView::Reasoning { reasoning } => AccumulatorView {
                reasoning: self.reasoning + reasoning,
                ..self
            },
            DeltaView::ToolCall { tool_calls } => AccumulatorView {
                tool_calls: apply_chunks(self.tool_calls, tool_calls),
                ..self
            },
            DeltaView::Stop => self,
        }
    }

    /// The state after a choice: unchanged where the choice ends the
    /// stream, whose delta is then dropped.
    pub open spec fn step(self, choice: ChoiceView) -> AccumulatorView {
        if ends_stream(choice) {
            self
        } else {
            self.absorb(choice.delta)
        }
    }

    /// The state after a sequence of choices, of which the first that ends
    /// the stream and all behind it are not taken in.
    pub open spec fn run(self, choices: Seq<ChoiceView>) -> AccumulatorView
        decreases choices.len(),
    {
        if choices.len() == 0 || ends_stream(choices[0]) {
            self
        } else {
            self.absorb(choices[0].delta).run(choices.drop_first())
        }
    }
}

/// A choice ends the stream where its delta is a stop or where it bears a
/// finish reason that is not empty. A finish reason that is missing, that
/// is `null` or that is the empty text ends nothing.
pub open spec fn ends_stream(choice: ChoiceView) -> bool {
    choice.delta is Stop || match choice.finish_reason {
        Some(reason) => reason.len() > 0,
        None => false,
    }
}

/// The state of one streamed exchange.
#[derive(Debug)]
pub struct StreamAccumulator {
    content: String,
    reasoning: String,
    tool_calls: Vec<ToolCallFinal>,
}

impl View for StreamAccumulator {
    type V = AccumulatorView;

    closed spec fn view(&self) -> AccumulatorView {
        AccumulatorView {
            content: self.content@,
            reasoning: self.reasoning@,
            tool_calls: entries_of(self.tool_calls@),
        }
    }
}

impl StreamAccumulator {
    /// The rebuilt tool calls stand in the order of their positions, each
    /// position once.
    pub open spec fn wf(&self) -> bool {
        ordered(self@.tool_calls)
    }

    /// The state before anything was received.
    pub fn new() -> (r: Self)
        ensures
            r@ == AccumulatorView::empty(),
            r.wf(),
    {
        let r = StreamAccumulator {
            content: String::new(),
            reasoning: String::new(),
            tool_calls: Vec::new(),
        };
        assert(entries_of(r.tool_calls@) =~= Seq::empty());
        r
    }

    /// Takes a delta in.
    pub fn absorb(&mut self, delta: &Delta)
        ensures
            final(self)@ == old(self)@.absorb(delta@),
            old(self).wf() ==> final(self).wf(),
    {
        match delta {
            Delta::Content { content } => {
                self.content.append(content.as_str());
            },
            Delta::Reasoning { reasoning } => {
                self.reasoning.append(reasoning.as_str());
            },
            Delta::ToolCall { tool_calls } => {
                apply_tool_call_chunks(&mut self.tool_calls, tool_calls);
            },
            Delta::Stop => {},
        }
    }

    /// Takes a choice in, and tells whether it ends the stream. The delta
    /// of a choice that ends the stream is dropped.
    pub fn step(&mut self, choice: &CompletionChunkChoice) -> (ended: bool)
        ensures
            ended == ends_stream(choice@),
            final(self)@ == old(self)@.step(choice@),
            old(self).wf() ==> final(self).wf(),
    {
        let stop = match choice.delta {
            Delta::Stop => true,
            _ => false,
        };
        let finished = match &choice.finish_reason {
            Some(reason) => {
                proof {
                    reveal_strlit("");
                    assert(""@.len() == 0);
                    if reason@.len() == 0 {
                        assert(reason@ =~= ""@);
                    }
                    assert(choice@.finish_reason == Some(reason@));
                }
                !str_eq(reason.as_str(), "")
            },
            None => false,
        };
        if stop || finished {
            true
        } else {
            self.absorb(&choice.delta);
            false
        }
    }

    /// The content received so far.
    pub fn content(&self) -> (r: &String)
        ensures
            r@ == self@.content,
    {
        &self.content
    }

    /// The reasoning received so far, which is kept apart from the result.
    pub fn reasoning(&self) -> (r: &String)
        ensures
            r@ == self@.reasoning,
    {
        &self.reasoning
    }

    /// The tool calls rebuilt so far, in the order of their positions.
    pub fn tool_calls(&self) -> (r: &Vec<ToolCallFinal>)
        ensures
            entries_of(r@) == self@.tool_calls,
    {
        &self.tool_calls
    }
}

/// The JSON form of a rebuilt tool call.
pub open spec fn tool_call_final_json(entry: ToolCallFinalView) -> JsonValue {
    JsonValue::Object(
        Seq::empty().push(Field { name: "id"@, value: JsonValue::String(entry.id) }).push(
            Field { name: "index"@, value: JsonValue::UInt(entry.index) },
        ).push(
            Field {
                name: "function"@,
                value: JsonValue::Object(
                    Seq::empty().push(
                        Field { name: "name"@, value: JsonValue::String(entry.name) },
                    ).push(
                        Field { name: "arguments"@, value: JsonValue::String(entry.arguments) },
                    ),
                ),
            },
        ).push(Field { name: "type"@, value: JsonValue::String(entry.kind) }),
    )
}

/// The JSON forms of a sequence of rebuilt tool calls.
pub open spec fn tool_calls_final_json(entries: Seq<ToolCallFinalView>) -> Seq<JsonValue> {
    Seq::new(entries.len(), |i: int| tool_call_final_json(entries[i]))
}

/// A response whose first choice has the given message.
pub open spec fn response_with(message: JsonValue) -> JsonValue {
    JsonValue::Object(
        Seq::empty().push(
            Field {
                name: "choices"@,
                value: JsonValue::Array(
                    Seq::empty().push(
                        JsonValue::Object(
                            Seq::empty().push(Field { name: "message"@, value: message }),
                        ),
                    ),
                ),
            },
        ),
    )
}

/// The one result of a streamed exchange, in the shape of a buffered
/// response: the rebuilt tool calls in the order of their positions where
/// there are any, and the content otherwise.
pub open spec fn assembled(acc: AccumulatorView) -> JsonValue {
    if acc.tool_calls.len() > 0 {
        response_with(
            JsonValue::Object(
                Seq::empty().push(
                    Field {
                        name: "tool_calls"@,
                        value: JsonValue::Array(tool_calls_final_json(acc.tool_calls)),
                    },
                ),
            ),
        )
    } else {
        response_with(
            JsonValue::Object(
                Seq::empty().push(
                    Field { name: "content"@, value: JsonValue::String(acc.content) },
                ),
            ),
        )
    }
}

/// The content of the choices that are kept: those that do not end the
/// stream, each with the text of its content delta.
pub open spec fn kept_content(choices: Seq<ChoiceView>) -> Seq<char>
    decreases choices.len(),
{
    if choices.len() == 0 {
        Seq::empty()
    } else {
        let head = if ends_stream(choices[0]) {
            Seq::empty()
        } else {
            match choices[0].delta {
                DeltaView::Content { content } => content,
                _ => Seq::empty(),
            }
        };
        head + kept_content(choices.drop_first())
    }
}

impl ToolCallFinal {
    /// The JSON form of the rebuilt call.
    pub fn to_json(&self) -> (r: Json)
        ensures
            r@ == tool_call_final_json(self@),
    {
        let mut function: Vec<Member> = Vec::new();
        assert(members_of(function@) =~= Seq::empty());
        push_member(&mut function, "name", Json::string(self.function.name.as_str()));
        push_member(&mut function, "arguments", Json::string(self.function.arguments.as_str()));
        let mut fields: Vec<Member> = Vec::new();
        assert(members_of(fields@) =~= Seq::empty());
        push_member(&mut fields, "id", Json::string(self.id.as_str()));
        push_member(&mut fields, "index", Json::UInt(self.index as u64));
        push_member(&mut fields, "function", Json::object(function));
        push_member(&mut fields, "type", Json::string(self.kind.as_str()));
        Json::object(fields)
    }
}

/// A response whose first choice has the given message.
pub fn make_response(message: Json) -> (r: Json)
    ensures
        r@ == response_with(message@),
{
    let mut choice: Vec<Member> = Vec::new();
    assert(members_of(choice@) =~= Seq::empty());
    push_member(&mut choice, "message", message);
    let mut choices: Vec<Json> = Vec::new();
    assert(values_of(choices@) =~= Seq::empty());
    push_value(&mut choices, Json::object(choice));
    let mut fields: Vec<Member> = Vec::new();
    assert(members_of(fields@) =~= Seq::empty());
    push_member(&mut fields, "choices", Json::array(choices));
    Json::object(fields)
}

impl StreamAccumulator {
    /// The one result of the exchange, in the shape of a buffered response.
    pub fn assemble(&self) -> (r: Json)
        ensures
            r@ == assembled(self@),
    {
        let mut message: Vec<Member> = Vec::new();
        assert(members_of(message@) =~= Seq::empty());
        if self.tool_calls.len() > 0 {
            let ghost all = tool_calls_final_json(entries_of(self.tool_calls@));
            let mut items: Vec<Json> = Vec::new();
            let mut i: usize = 0;
            assert(values_of(items@) =~= all.take(0));
            while i < self.tool_calls.len()
                invariant
                    i <= self.tool_calls@.len(),
                    all == tool_calls_final_json(entries_of(self.tool_calls@)),
                    values_of(items@) == all.take(i as int),
                decreases self.tool_calls@.len() - i,
            {
                let item = self.tool_calls[i].to_json();
                push_value(&mut items, item);
                assert(all.take(i + 1) =~= all.take(i as int).push(
                    tool_call_final_json(self.tool_calls@[i as int]@),
                ));
                i += 1;
            }
            assert(all.take(self.tool_calls@.len() as int) =~= all);
            push_member(&mut message, "tool_calls", Json::array(items));
        } else {
            push_member(&mut message, "content", Json::string(self.content.as_str()));
        }
        make_response(Json::object(message))
    }
}

/// The message of a response built around a message is that message.
pub proof fn lemma_message_of_response(message: JsonValue)
    ensures
        message_of(response_with(message)) == message,
{
    let inner = Seq::<Field>::empty().push(Field { name: "message"@, value: message });
    let choice = JsonValue::Object(inner);
    let list = JsonValue::Array(Seq::empty().push(choice));
    lemma_lookup_push(Seq::empty(), "choices"@, list, "choices"@);
    lemma_lookup_push(Seq::empty(), "message"@, message, "message"@);
    assert(response_with(message).at("choices"@) == list);
    assert(list.nth(0) == choice);
}

/// Reading the result of a streamed exchange gives back what was added
/// up: the rebuilt tool calls where there are any, and the content
/// otherwise, also where the content is empty.
pub proof fn lemma_completion_of_assembled(acc: AccumulatorView)
    ensures
        completion_of(assembled(acc)) == if acc.tool_calls.len() > 0 {
            CompletionView::ToolCalls(tool_calls_final_json(acc.tool_calls))
        } else {
            CompletionView::Content(acc.content)
        },
{
    reveal_strlit("content");
    reveal_strlit("tool_calls");
    assert("content"@.len() == 7 && "tool_calls"@.len() == 10);
    if acc.tool_calls.len() > 0 {
        let calls = JsonValue::Array(tool_calls_final_json(acc.tool_calls));
        let message = JsonValue::Object(
            Seq::empty().push(Field { name: "tool_calls"@, value: calls }),
        );
        lemma_message_of_response(message);
        lemma_lookup_push(Seq::empty(), "tool_calls"@, calls, "tool_calls"@);
    } else {
        let text = JsonValue::String(acc.content);
        let message = JsonValue::Object(
            Seq::empty().push(Field { name: "content"@, value: text }),
        );
        lemma_message_of_response(message);
        lemma_lookup_push(Seq::empty(), "content"@, text, "tool_calls"@);
        lemma_lookup_push(Seq::empty(), "content"@, text, "content"@);
    }
}

/// Content deltas add up in their order until the stream ends: after a
/// sequence of content and stop choices the content is what it was,
/// followed by the text of every choice before the first one that ends the
/// stream, and no tool call was added.
pub proof fn lemma_run_content(acc: AccumulatorView, choices: Seq<ChoiceView>)
    requires
        forall|k: int|
            0 <= k < choices.len() ==> (#[trigger] choices[k]).delta is Content
                || choices[k].delta is Stop,
        forall|i: int, j: int|
            0 <= i < j < choices.len() && ends_stream(choices[i]) ==> ends_stream(choices[j]),
    ensures
        acc.run(choices).content == acc.content + kept_content(choices),
        acc.run(choices).tool_calls == acc.tool_calls,
    decreases choices.len(),
{
    if choices.len() == 0 {
        assert(acc.content + Seq::<char>::empty() =~= acc.content);
    } else {
        let rest = choices.drop_first();
        assert forall|k: int| 0 <= k < rest.len() implies (#[trigger] rest[k]).delta is Content
            || rest[k].delta is Stop by {
            assert(rest[k] == choices[k + 1]);
        }
        assert forall|i: int, j: int|
            0 <= i < j < rest.len() && ends_stream(rest[i]) implies ends_stream(rest[j]) by {
            assert(rest[i] == choices[i + 1] && rest[j] == choices[j + 1]);
        }
        if ends_stream(choices[0]) {
            lemma_kept_content_after_end(rest);
            assert forall|k: int| 0 <= k < rest.len() implies ends_stream(#[trigger] rest[k]) by {
                assert(rest[k] == choices[k + 1]);
            }
            assert(acc.content + (Seq::<char>::empty() + Seq::<char>::empty()) =~= acc.content);
        } else {
            assert(choices[0].delta is Content);
            let next = acc.absorb(choices[0].delta);
            lemma_run_content(next, rest);
            let text = choices[0].delta->Content_content;
            assert(acc.content + text + kept_content(rest) =~= acc.content + (text + kept_content(
                rest,
            )));
        }
    }
}

/// Choices that all end the stream keep no content.
pub proof fn lemma_kept_content_after_end(choices: Seq<ChoiceView>)
    requires
        forall|k: int| 0 <= k < choices.len() ==> ends_stream(#[trigger] choices[k]),
    ensures
        kept_content(choices) == Seq::<char>::empty(),
    decreases choices.len(),
{
    if choices.len() > 0 {
        let rest = choices.drop_first();
        assert forall|k: int| 0 <= k < rest.len() implies ends_stream(#[trigger] rest[k]) by {
            assert(rest[k] == choices[k + 1]);
        }
        lemma_kept_content_after_end(rest);
        assert(Seq::<char>::empty() + Seq::<char>::empty() =~= Seq::<char>::empty());
    }
}

/// The content that a stream of content frames adds up to is the texts of
/// its frames joined in their order, without the frames that are a stop
/// or bear a finish reason that is not empty. This holds of streams in
/// which no content frame that goes on follows a frame that ends the
/// stream: the first frame that ends the stream also ends the reading.
pub proof fn lemma_streamed_content(choices: Seq<ChoiceView>)
    requires
        forall|k: int|
            0 <= k < choices.len() ==> (#[trigger] choices[k]).delta is Content
                || choices[k].delta is Stop,
        forall|i: int, j: int|
            0 <= i < j < choices.len() && ends_stream(choices[i]) ==> ends_stream(choices[j]),
    ensures
        completion_of(assembled(AccumulatorView::empty().run(choices))) == CompletionView::Content(
            kept_content(choices),
        ),
{
    let end = AccumulatorView::empty().run(choices);
    lemma_run_content(AccumulatorView::empty(), choices);
    lemma_completion_of_assembled(end);
    assert(Seq::<char>::empty() + kept_content(choices) =~= kept_content(choices));
}

} // verus!
