//! The search index as the synchroniser sees it: what a cursor query's
//! answer means, and what a write does to the documents.
//!
//! The engine itself is remote. Its documents are described here as a map
//! from a comic's number to the comic, which is all that a run relies on.

use vstd::prelude::*;
use crate::comic::Comic;

verus! {

/// The name of the index that holds the comics.
pub const INDEX_NAME: &'static str = "comics";

/// The first number of the feed: where a run starts on an empty index.
pub const FIRST_COMIC: usize = 1;

/// The cursor that the answer to the cursor query gives: the number of the
/// first hit, or the first number of the feed where there is no hit.
pub open spec fn cursor_of_hits(hits: Seq<usize>) -> usize {
    if hits.len() == 0 {
        FIRST_COMIC
    } else {
        hits[0]
    }
}

/// Derives the cursor from the numbers of the hits of the cursor query
/// (newest first, at most one asked for).
pub fn resolve_cursor(hits: &Vec<usize>) -> (cursor: usize)
    ensures
        cursor == cursor_of_hits(hits@),
{
    if hits.len() == 0 {
        FIRST_COMIC
    } else {
        hits[0]
    }
}

/// Whether every document is filed under its own number.
pub open spec fn keyed_by_num(documents: Map<usize, Comic>) -> bool {
    forall|num: usize| #[trigger] documents.contains_key(num) ==> documents[num].num == num
}

/// The documents after `comic` was written: filed under its number, in place
/// of whatever was there.
pub open spec fn upsert(documents: Map<usize, Comic>, comic: Comic) -> Map<usize, Comic> {
    documents.insert(comic.num, comic)
}

/// The documents after `batch` was written, item by item.
pub open spec fn write_batch(documents: Map<usize, Comic>, batch: Seq<Comic>) -> Map<usize, Comic>
    decreases batch.len(),
{
    if batch.len() == 0 {
        documents
    } else {
        upsert(write_batch(documents, batch.drop_last()), batch.last())
    }
}

/// Whether `hits` is the engine's answer to the cursor query on
/// `documents`: no hit for an empty index, else the one document with the
/// greatest number.
pub open spec fn is_newest_answer(documents: Map<usize, Comic>, hits: Seq<usize>) -> bool {
    if documents.dom() =~= Set::<usize>::empty() {
        hits.len() == 0
    } else {
        &&& hits.len() == 1
        &&& documents.contains_key(hits[0])
        &&& forall|num: usize| #[trigger] documents.contains_key(num) ==> num <= hits[0]
    }
}

/// The cursor is the greatest number in the index, or the first number of
/// the feed for an empty index.
pub proof fn lemma_cursor_is_greatest_number(documents: Map<usize, Comic>, hits: Seq<usize>)
    requires
        is_newest_answer(documents, hits),
    ensures
        documents.dom() =~= Set::<usize>::empty() ==> cursor_of_hits(hits) == FIRST_COMIC,
        !(documents.dom() =~= Set::<usize>::empty()) ==> documents.contains_key(
            cursor_of_hits(hits),
        ),
        forall|num: usize| #[trigger]
            documents.contains_key(num) ==> num <= cursor_of_hits(hits),
{
    if documents.dom() =~= Set::<usize>::empty() {
        assert forall|num: usize| #[trigger] documents.contains_key(num) implies num
            <= cursor_of_hits(hits) by {
            assert(documents.dom().contains(num));
        }
    }
}

/// A write keeps every document filed under its own number.
pub proof fn lemma_write_keeps_keys(documents: Map<usize, Comic>, batch: Seq<Comic>)
    requires
        keyed_by_num(documents),
    ensures
        keyed_by_num(write_batch(documents, batch)),
    decreases batch.len(),
{
    if batch.len() > 0 {
        lemma_write_keeps_keys(documents, batch.drop_last());
    }
}

/// After a write, the index holds under a number what was there before, if
/// the batch has no item of that number.
pub proof fn lemma_write_keeps_others(documents: Map<usize, Comic>, batch: Seq<Comic>, num: usize)
    requires
        forall|i: int| 0 <= i < batch.len() ==> (#[trigger] batch[i]).num != num,
    ensures
        write_batch(documents, batch).contains_key(num) == documents.contains_key(num),
        write_batch(documents, batch).contains_key(num) ==> write_batch(documents, batch)[num]
            == documents[num],
    decreases batch.len(),
{
    if batch.len() > 0 {
        assert(batch.last() == batch[batch.len() - 1]);
        assert forall|i: int| 0 <= i < batch.drop_last().len() implies (
        #[trigger] batch.drop_last()[i]).num != num by {
            assert(batch.drop_last()[i] == batch[i]);
        }
        lemma_write_keeps_others(documents, batch.drop_last(), num);
    }
}

/// After a write, the index holds under each number of the batch the last
/// item of the batch that has this number.
pub proof fn lemma_write_stores_last(documents: Map<usize, Comic>, batch: Seq<Comic>, i: int)
    requires
        0 <= i < batch.len(),
        forall|j: int| i < j < batch.len() ==> (#[trigger] batch[j]).num != batch[i].num,
    ensures
        write_batch(documents, batch).contains_key(batch[i].num),
        write_batch(documents, batch)[batch[i].num] == batch[i],
    decreases batch.len(),
{
    if i == batch.len() - 1 {
        assert(batch.last() == batch[i]);
    } else {
        assert(batch.last() == batch[batch.len() - 1]);
        assert(batch.drop_last()[i] == batch[i]);
        assert forall|j: int| i < j < batch.drop_last().len() implies (
        #[trigger] batch.drop_last()[j]).num != batch.drop_last()[i].num by {
            assert(batch.drop_last()[j] == batch[j]);
        }
        lemma_write_stores_last(documents, batch.drop_last(), i);
    }
}

/// After a write, the index holds under a number of the batch the same
/// document, whatever it held before.
pub proof fn lemma_write_overrides(
    documents: Map<usize, Comic>,
    others: Map<usize, Comic>,
    batch: Seq<Comic>,
    i: int,
)
    requires
        0 <= i < batch.len(),
    ensures
        write_batch(documents, batch).contains_key(batch[i].num),
        write_batch(others, batch).contains_key(batch[i].num),
        write_batch(documents, batch)[batch[i].num] == write_batch(others, batch)[batch[i].num],
    decreases batch.len(),
{
    assert(batch.last() == batch[batch.len() - 1]);
    if batch.last().num != batch[i].num {
        assert(batch.drop_last()[i] == batch[i]);
        lemma_write_overrides(documents, others, batch.drop_last(), i);
    }
}

/// A number that the index holds after a write was there before, or is the
/// number of an item of the batch.
pub proof fn lemma_written_numbers(documents: Map<usize, Comic>, batch: Seq<Comic>, num: usize)
    requires
        write_batch(documents, batch).contains_key(num),
    ensures
        documents.contains_key(num) || exists|i: int|
            0 <= i < batch.len() && (#[trigger] batch[i]).num == num,
    decreases batch.len(),
{
    if batch.len() > 0 {
        assert(batch.last() == batch[batch.len() - 1]);
        if batch.last().num != num {
            lemma_written_numbers(documents, batch.drop_last(), num);
            if !documents.contains_key(num) {
                let i = choose|i: int|
                    0 <= i < batch.drop_last().len() && (#[trigger] batch.drop_last()[i]).num
                        == num;
                assert(batch[i] == batch.drop_last()[i]);
            }
        }
    }
}

/// Writing a batch again changes nothing: a run that is repeated over the
/// same comics leaves the index as the first left it.
pub proof fn lemma_write_is_idempotent(documents: Map<usize, Comic>, batch: Seq<Comic>)
    ensures
        write_batch(write_batch(documents, batch), batch) == write_batch(documents, batch),
{
    let once = write_batch(documents, batch);
    let twice = write_batch(once, batch);
    assert forall|num: usize| #[trigger]
        twice.dom().contains(num) == once.dom().contains(num) && (once.dom().contains(num)
            ==> twice[num] == once[num]) by {
        if exists|i: int| 0 <= i < batch.len() && (#[trigger] batch[i]).num == num {
            let i = choose|i: int| 0 <= i < batch.len() && (#[trigger] batch[i]).num == num;
            lemma_write_overrides(once, documents, batch, i);
        } else {
            lemma_write_keeps_others(once, batch, num);
        }
    }
    assert(twice =~= once);
}

/// Writing a number twice overwrites: the index holds the later content
/// under that number, once, and is otherwise as if only the later write had
/// been made.
pub proof fn lemma_later_write_wins(documents: Map<usize, Comic>, first: Comic, second: Comic)
    requires
        first.num == second.num,
    ensures
        write_batch(write_batch(documents, seq![first]), seq![second])[second.num] == second,
        write_batch(write_batch(documents, seq![first]), seq![second]) == write_batch(
            documents,
            seq![second],
        ),
        write_batch(write_batch(documents, seq![first]), seq![second]).dom()
            == documents.dom().insert(second.num),
{
    assert(seq![first].drop_last() =~= Seq::<Comic>::empty());
    assert(seq![second].drop_last() =~= Seq::<Comic>::empty());
    assert(seq![first].last() == first);
    assert(seq![second].last() == second);
    let once = write_batch(documents, seq![first]);
    assert(once == upsert(documents, first)) by {
        reveal_with_fuel(write_batch, 2);
    }
    assert(write_batch(once, seq![second]) == upsert(once, second)) by {
        reveal_with_fuel(write_batch, 2);
    }
    assert(write_batch(documents, seq![second]) == upsert(documents, second)) by {
        reveal_with_fuel(write_batch, 2);
    }
    assert(upsert(once, second) =~= upsert(documents, second));
    assert(upsert(once, second).dom() =~= documents.dom().insert(second.num));
}

} // verus!
