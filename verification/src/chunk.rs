//! Dealing an ordered list out to a number of endpoints.
//!
//! The list is cut into contiguous chunks, one for each endpoint and in the
//! order of the endpoints. The chunks are as even as the length allows: where
//! the length is no multiple of the number of chunks, the first chunks hold
//! one item more than the last ones.

use vstd::prelude::*;

verus! {

/// The position in a list of `len` items at which chunk `i` of `num_chunks`
/// begins. Chunk `num_chunks`, which does not exist, begins at the end.
pub open spec fn chunk_start(len: int, num_chunks: int, i: int) -> int {
    if num_chunks <= 0 {
        0
    } else if i <= len % num_chunks {
        i * (len / num_chunks) + i
    } else {
        i * (len / num_chunks) + len % num_chunks
    }
}

/// The number of items in chunk `i` of `num_chunks` of a list of `len` items.
pub open spec fn chunk_len(len: int, num_chunks: int, i: int) -> int {
    if num_chunks <= 0 {
        0
    } else if i < len % num_chunks {
        len / num_chunks + 1
    } else {
        len / num_chunks
    }
}

/// Chunk `i` of `num_chunks` of the list `items`.
pub open spec fn chunk<T>(items: Seq<T>, num_chunks: int, i: int) -> Seq<T> {
    items.subrange(
        chunk_start(items.len() as int, num_chunks, i),
        chunk_start(items.len() as int, num_chunks, i + 1),
    )
}

/// The list `items` cut into `num_chunks` chunks.
pub open spec fn chunks<T>(items: Seq<T>, num_chunks: int) -> Seq<Seq<T>> {
    Seq::new(num_chunks as nat, |i: int| chunk(items, num_chunks, i))
}

/// The lengths of all `parts` together.
pub open spec fn total_len<T>(parts: Seq<Seq<T>>) -> nat
    decreases parts.len(),
{
    if parts.len() == 0 {
        0
    } else {
        total_len(parts.drop_last()) + parts.last().len()
    }
}

/// What the lists in `parts` hold, list by list.
pub open spec fn contents<T>(parts: Seq<Vec<T>>) -> Seq<Seq<T>> {
    Seq::new(parts.len(), |i: int| parts[i]@)
}

/// Cuts `workload` into `num_chunks` contiguous chunks whose lengths differ by
/// at most one, the longer ones first. With no chunk to fill, the items are
/// dropped.
pub fn split_workload<T>(workload: Vec<T>, num_chunks: usize) -> (split: Vec<Vec<T>>)
    ensures
        split@.len() == num_chunks,
        contents(split@) == chunks(workload@, num_chunks as int),
        forall|i: int|
            0 <= i < num_chunks ==> (#[trigger] split@[i])@ == chunk(
                workload@,
                num_chunks as int,
                i,
            ),
{
    let ghost items = workload@;
    let ghost n = num_chunks as int;
    let mut split: Vec<Vec<T>> = Vec::new();
    let mut filled: usize = 0;
    while filled < num_chunks
        invariant
            filled <= num_chunks,
            split@.len() == filled,
            forall|k: int| 0 <= k < filled ==> (#[trigger] split@[k])@.len() == 0,
        decreases num_chunks - filled,
    {
        split.push(Vec::new());
        filled = filled + 1;
    }
    if num_chunks == 0 {
        assert(contents(split@) =~= chunks(items, n));
        return split;
    }
    let mut rest: Vec<T> = workload;
    let len: usize = rest.len();
    let base: usize = len / num_chunks;
    let extra: usize = len % num_chunks;
    let mut i: usize = num_chunks;
    proof {
        lemma_chunk_bounds(len as int, n, n);
        assert(rest@ =~= items.subrange(0, chunk_start(len as int, n, n)));
    }
    while i > 0
        invariant
            0 < n == num_chunks,
            len == items.len(),
            base == len / num_chunks,
            extra == len % num_chunks,
            i <= num_chunks,
            split@.len() == num_chunks,
            rest@ == items.subrange(0, chunk_start(len as int, n, i as int)),
            forall|k: int| i <= k < n ==> (#[trigger] split@[k])@ == chunk(items, n, k),
        decreases i,
    {
        proof {
            lemma_chunk_bounds(len as int, n, i as int);
        }
        i = i - 1;
        proof {
            lemma_chunk_bounds(len as int, n, i as int);
            assert(i * base <= chunk_start(len as int, n, i as int)) by (nonlinear_arith)
                requires
                    chunk_start(len as int, n, i as int) >= i * (len as int / n),
                    base == len as int / n,
            ;
        }
        let start: usize = if i <= extra {
            i * base + i
        } else {
            i * base + extra
        };
        assert(start == chunk_start(len as int, n, i as int));
        let tail: Vec<T> = rest.split_off(start);
        assert(tail@ =~= chunk(items, n, i as int));
        assert(rest@ =~= items.subrange(0, start as int));
        split.set(i, tail);
    }
    assert(contents(split@) =~= chunks(items, n));
    split
}

/// The chunks of a list lie one behind the other and cover it: the first
/// begins at the front, each next one where the one before ends, and the last
/// ends at the back.
pub proof fn lemma_chunk_bounds(len: int, num_chunks: int, i: int)
    requires
        0 <= len,
        0 < num_chunks,
        0 <= i <= num_chunks,
    ensures
        chunk_start(len, num_chunks, 0) == 0,
        chunk_start(len, num_chunks, num_chunks) == len,
        0 <= chunk_start(len, num_chunks, i) <= len,
        chunk_start(len, num_chunks, i) >= i * (len / num_chunks),
        i < num_chunks ==> chunk_start(len, num_chunks, i + 1) == chunk_start(len, num_chunks, i)
            + chunk_len(len, num_chunks, i),
        i < num_chunks ==> chunk_len(len, num_chunks, i) >= 0,
{
    let base = len / num_chunks;
    let extra = len % num_chunks;
    vstd::arithmetic::div_mod::lemma_fundamental_div_mod(len, num_chunks);
    vstd::arithmetic::div_mod::lemma_mod_pos_bound(len, num_chunks);
    vstd::arithmetic::div_mod::lemma_div_pos_is_pos(len, num_chunks);
    assert(0 * base == 0) by (nonlinear_arith);
    assert(num_chunks * base == len - extra);
    assert((i + 1) * base == i * base + base) by (nonlinear_arith);
    assert(0 <= i * base <= num_chunks * base) by (nonlinear_arith)
        requires
            0 <= i <= num_chunks,
            0 <= base,
    ;
}

/// No chunk is more than one item longer than another.
pub proof fn lemma_chunks_balanced<T>(items: Seq<T>, num_chunks: int, i: int, j: int)
    requires
        0 <= i < num_chunks,
        0 <= j < num_chunks,
    ensures
        chunks(items, num_chunks)[i].len() <= chunks(items, num_chunks)[j].len() + 1,
{
    lemma_chunk_bounds(items.len() as int, num_chunks, i);
    lemma_chunk_bounds(items.len() as int, num_chunks, j);
    lemma_chunk_bounds(items.len() as int, num_chunks, i + 1);
    lemma_chunk_bounds(items.len() as int, num_chunks, j + 1);
}

/// Chunk `i` holds as many items as `chunk_len` says, and they are the items
/// of the list from where the chunk begins, in the order of the list.
pub proof fn lemma_chunk_items<T>(items: Seq<T>, num_chunks: int, i: int)
    requires
        0 <= i < num_chunks,
    ensures
        chunks(items, num_chunks)[i].len() == chunk_len(items.len() as int, num_chunks, i),
        forall|k: int|
            0 <= k < chunk_len(items.len() as int, num_chunks, i) ==> #[trigger] chunks(
                items,
                num_chunks,
            )[i][k] == items[chunk_start(items.len() as int, num_chunks, i) + k],
{
    lemma_chunk_bounds(items.len() as int, num_chunks, i);
    lemma_chunk_bounds(items.len() as int, num_chunks, i + 1);
}

/// The first `count` chunks, one behind the other, are the list up to where
/// chunk `count` begins.
proof fn lemma_leading_chunks_concat<T>(items: Seq<T>, num_chunks: int, count: int)
    requires
        0 <= count <= num_chunks,
        0 < num_chunks,
    ensures
        chunks(items, num_chunks).take(count).flatten() == items.subrange(
            0,
            chunk_start(items.len() as int, num_chunks, count),
        ),
        total_len(chunks(items, num_chunks).take(count)) == chunk_start(
            items.len() as int,
            num_chunks,
            count,
        ),
    decreases count,
{
    let all = chunks(items, num_chunks);
    let len = items.len() as int;
    lemma_chunk_bounds(len, num_chunks, count);
    if count == 0 {
        assert(all.take(0).flatten() =~= items.subrange(0, 0));
    } else {
        lemma_leading_chunks_concat(items, num_chunks, count - 1);
        lemma_chunk_bounds(len, num_chunks, count - 1);
        let before = all.take(count - 1);
        assert(all.take(count) =~= before.push(all[count - 1]));
        assert(all.take(count).drop_last() =~= before);
        before.lemma_flatten_push(all[count - 1]);
        assert(before.flatten() + all[count - 1] =~= items.subrange(
            0,
            chunk_start(len, num_chunks, count),
        ));
    }
}

/// The chunks of a list, one behind the other, are the list again, and their
/// lengths add up to its length.
pub proof fn lemma_chunks_concat<T>(items: Seq<T>, num_chunks: int)
    requires
        0 < num_chunks,
    ensures
        chunks(items, num_chunks).flatten() == items,
        total_len(chunks(items, num_chunks)) == items.len(),
{
    let all = chunks(items, num_chunks);
    lemma_leading_chunks_concat(items, num_chunks, num_chunks);
    lemma_chunk_bounds(items.len() as int, num_chunks, num_chunks);
    assert(all.take(num_chunks) =~= all);
    assert(items.subrange(0, items.len() as int) =~= items);
}

/// Of an empty list every chunk is empty.
pub proof fn lemma_chunks_of_empty<T>(num_chunks: int, i: int)
    requires
        0 <= i < num_chunks,
    ensures
        chunks(Seq::<T>::empty(), num_chunks)[i] == Seq::<T>::empty(),
{
    lemma_chunk_bounds(0, num_chunks, i);
    lemma_chunk_bounds(0, num_chunks, i + 1);
    assert(chunks(Seq::<T>::empty(), num_chunks)[i] =~= Seq::<T>::empty());
}

} // verus!
