//! Bounding fan-out and persistence: chunking a parent set before fetches
//! and splitting a result set into insert batches.

use vstd::prelude::*;

use vstd::arithmetic::div_mod::lemma_basic_div;
use vstd::arithmetic::div_mod::lemma_div_plus_one;

use crate::model::VoteResult;

verus! {

broadcast use vstd::prelude::Seq::group_seq_flatten;

/// `m / c` rounded up.
pub open spec fn spec_ceil_div(m: int, c: int) -> int {
    (m + c - 1) / c
}

/// The concatenation, in order, of a sequence of groups of records.
pub open spec fn spec_concat(groups: Seq<Vec<VoteResult>>) -> Seq<VoteResult> {
    groups.map_values(|g: Vec<VoteResult>| g@).flatten()
}

/// Partitions a parent set into chunks of at most `chunk_size` records, in
/// order: every chunk but the last holds exactly `chunk_size` records, the
/// last holds the nonempty remainder, and the concatenation of the chunks
/// reconstructs the input. A set of `m` parents yields `ceil(m / chunk_size)`
/// chunks. The chunk bound caps how many fetches are in flight at once.
pub fn plan_chunks(parents: Vec<VoteResult>, chunk_size: usize) -> (r: Vec<Vec<VoteResult>>)
    requires
        chunk_size >= 1,
    ensures
        r@.len() == spec_ceil_div(parents@.len() as int, chunk_size as int),
        spec_concat(r@) == parents@,
        forall|i: int| 0 <= i < r@.len() ==> 1 <= (#[trigger] r@[i])@.len() <= chunk_size,
        forall|i: int| 0 <= i < r@.len() - 1 ==> (#[trigger] r@[i])@.len() == chunk_size,
{
    let ghost orig = parents@;
    let mut rest = parents;
    let mut chunks: Vec<Vec<VoteResult>> = Vec::new();
    proof {
        assert(spec_concat(chunks@) + rest@ =~= orig);
    }
    while rest.len() > chunk_size
        invariant
            chunk_size >= 1,
            spec_concat(chunks@) + rest@ == orig,
            spec_ceil_div(orig.len() as int, chunk_size as int) == chunks@.len() + spec_ceil_div(
                rest@.len() as int,
                chunk_size as int,
            ),
            forall|i: int|
                0 <= i < chunks@.len() ==> (#[trigger] chunks@[i])@.len() == chunk_size,
        decreases rest@.len(),
    {
        let ghost pre_chunks = chunks@;
        let ghost pre_rest = rest@;
        let mut head = rest;
        rest = head.split_off(chunk_size);
        chunks.push(head);
        proof {
            assert(chunks@.map_values(|g: Vec<VoteResult>| g@) =~= pre_chunks.map_values(
                |g: Vec<VoteResult>| g@,
            ).push(pre_rest.take(chunk_size as int)));
            assert(spec_concat(chunks@) + rest@ =~= spec_concat(pre_chunks) + pre_rest);
            lemma_div_plus_one(pre_rest.len() - 1, chunk_size as int);
        }
    }
    if rest.len() > 0 {
        let ghost pre_chunks = chunks@;
        let ghost pre_rest = rest@;
        chunks.push(rest);
        proof {
            assert(chunks@.map_values(|g: Vec<VoteResult>| g@) =~= pre_chunks.map_values(
                |g: Vec<VoteResult>| g@,
            ).push(pre_rest));
            assert(spec_concat(chunks@) =~= spec_concat(pre_chunks) + pre_rest);
            lemma_div_plus_one(pre_rest.len() - 1, chunk_size as int);
            lemma_basic_div(pre_rest.len() - 1, chunk_size as int);
        }
    } else {
        proof {
            lemma_basic_div(chunk_size as int - 1, chunk_size as int);
            assert(spec_concat(chunks@) =~= spec_concat(chunks@) + rest@);
        }
    }
    chunks
}

/// Splits a result set into insert batches of exactly `batch_size` records
/// followed by one final, possibly short (or empty), remainder batch, in
/// order: a set of `n` records yields `n / batch_size + 1` batches whose
/// concatenation reconstructs the input. Each batch becomes one independent
/// insert operation.
pub fn split_batches(records: Vec<VoteResult>, batch_size: usize) -> (r: Vec<Vec<VoteResult>>)
    requires
        batch_size >= 1,
    ensures
        r@.len() == records@.len() as int / batch_size as int + 1,
        spec_concat(r@) == records@,
        forall|i: int| 0 <= i < r@.len() - 1 ==> (#[trigger] r@[i])@.len() == batch_size,
        r@[r@.len() - 1]@.len() < batch_size,
{
    let ghost orig = records@;
    let mut rest = records;
    let mut batches: Vec<Vec<VoteResult>> = Vec::new();
    proof {
        assert(spec_concat(batches@) + rest@ =~= orig);
    }
    while rest.len() >= batch_size
        invariant
            batch_size >= 1,
            spec_concat(batches@) + rest@ == orig,
            orig.len() as int / batch_size as int == batches@.len() + rest@.len() as int
                / batch_size as int,
            forall|i: int|
                0 <= i < batches@.len() ==> (#[trigger] batches@[i])@.len() == batch_size,
        decreases rest@.len(),
    {
        let ghost pre_batches = batches@;
        let ghost pre_rest = rest@;
        let mut head = rest;
        rest = head.split_off(batch_size);
        batches.push(head);
        proof {
            assert(batches@.map_values(|g: Vec<VoteResult>| g@) =~= pre_batches.map_values(
                |g: Vec<VoteResult>| g@,
            ).push(pre_rest.take(batch_size as int)));
            assert(spec_concat(batches@) + rest@ =~= spec_concat(pre_batches) + pre_rest);
            lemma_div_plus_one(pre_rest.len() - batch_size, batch_size as int);
        }
    }
    let ghost pre_batches = batches@;
    let ghost pre_rest = rest@;
    batches.push(rest);
    proof {
        assert(batches@.map_values(|g: Vec<VoteResult>| g@) =~= pre_batches.map_values(
            |g: Vec<VoteResult>| g@,
        ).push(pre_rest));
        assert(spec_concat(batches@) =~= spec_concat(pre_batches) + pre_rest);
        lemma_basic_div(pre_rest.len() as int, batch_size as int);
    }
    batches
}

} // verus!
