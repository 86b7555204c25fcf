//! The joiner: the pure merge of a region list and a tally table into
//! leveled result records.

use vstd::prelude::*;

use crate::model::opt_string_view;
use crate::model::region_views;
use crate::model::record_views;
use crate::model::CountV;
use crate::model::Region;
use crate::model::RegionV;
use crate::model::Vote;
use crate::model::VoteResult;
use crate::model::VoteResultV;

verus! {

/// An optional count with an unset value read as zero.
pub open spec fn spec_count_or_zero(c: Option<int>) -> int {
    match c {
        Some(v) => v,
        None => 0,
    }
}

/// The tally entry for `kode`: the first entry of the table that carries the
/// code, if any.
pub open spec fn spec_lookup(table: Seq<(Seq<char>, CountV)>, kode: Seq<char>) -> Option<CountV>
    decreases table.len(),
{
    if table.len() == 0 {
        None
    } else if table[0].0 == kode {
        Some(table[0].1)
    } else {
        spec_lookup(table.drop_first(), kode)
    }
}

/// The three candidate totals `kode` receives from `table`: the entry's
/// counts with unset counts as zero, or all zero when the table has no
/// entry for the code.
pub open spec fn spec_counts(table: Seq<(Seq<char>, CountV)>, kode: Seq<char>) -> (int, int, int) {
    match spec_lookup(table, kode) {
        Some(c) => (
            spec_count_or_zero(c.i01),
            spec_count_or_zero(c.i02),
            spec_count_or_zero(c.i03),
        ),
        None => (0, 0, 0),
    }
}

/// The view of an optional parent record.
pub open spec fn spec_parent_view(p: Option<&VoteResult>) -> Option<VoteResultV> {
    match p {
        Some(r) => Some(r@),
        None => None,
    }
}

/// The parent's name slots, or five unset slots when there is no parent.
pub open spec fn spec_parent_names(parent: Option<VoteResultV>) -> Seq<Option<Seq<char>>> {
    match parent {
        Some(p) => p.names,
        None => seq![
            None, None, None, None, None,
        ],
    }
}

/// The name slots of a joined record: the slot of level `tingkat` holds the
/// region's own name; every other slot is copied from the parent, and is
/// unset when there is no parent.
pub open spec fn spec_join_names(
    nama: Seq<char>,
    parent: Option<VoteResultV>,
    tingkat: int,
) -> Seq<Option<Seq<char>>> {
    Seq::new(
        5,
        |k: int|
            if k == tingkat - 1 {
                Some(nama)
            } else {
                spec_parent_names(parent)[k]
            },
    )
}

/// The record the joiner produces for one region.
pub open spec fn spec_join_one(
    r: RegionV,
    table: Seq<(Seq<char>, CountV)>,
    parent: Option<VoteResultV>,
    tingkat: int,
) -> VoteResultV {
    VoteResultV {
        kode: r.kode,
        tingkat: r.tingkat,
        names: spec_join_names(r.nama, parent, tingkat),
        i01: spec_counts(table, r.kode).0,
        i02: spec_counts(table, r.kode).1,
        i03: spec_counts(table, r.kode).2,
    }
}

/// The records the joiner produces for a region list, in input order.
pub open spec fn spec_join(
    regions: Seq<RegionV>,
    table: Seq<(Seq<char>, CountV)>,
    parent: Option<VoteResultV>,
    tingkat: int,
) -> Seq<VoteResultV> {
    Seq::new(regions.len(), |i: int| spec_join_one(regions[i], table, parent, tingkat))
}

/// In a well-formed tally table — each code listed at most once, as
/// [`Vote::wf`] asks — the entry the lookup finds for a code is the table's
/// entry at whichever position the code stands: the table behaves as a
/// mapping and the scan order cannot matter.
pub proof fn lemma_lookup_unique(table: Seq<(Seq<char>, CountV)>, i: int)
    requires
        forall|a: int, b: int| 0 <= a < b < table.len() ==> table[a].0 != table[b].0,
        0 <= i < table.len(),
    ensures
        spec_lookup(table, table[i].0) == Some(table[i].1),
    decreases i,
{
    if i > 0 {
        assert(table[0].0 != table[i].0);
        lemma_lookup_unique(table.drop_first(), i - 1);
    }
}

/// A code no entry of the table carries is looked up as absent.
pub proof fn lemma_lookup_absent(table: Seq<(Seq<char>, CountV)>, kode: Seq<char>)
    requires
        forall|i: int| 0 <= i < table.len() ==> (#[trigger] table[i]).0 != kode,
    ensures
        spec_lookup(table, kode) is None,
    decreases table.len(),
{
    if table.len() > 0 {
        lemma_lookup_absent(table.drop_first(), kode);
    }
}

/// Clones an optional name.
fn clone_opt_string(o: &Option<String>) -> (r: Option<String>)
    ensures
        r == *o,
{
    match o {
        Some(s) => Some(s.clone()),
        None => None,
    }
}

/// The name slot `slot` of the record joined at level `tingkat` from a
/// region named `nama` under `parent`.
fn pick_name(slot: i8, tingkat: i8, nama: &String, parent: Option<&VoteResult>) -> (r: Option<
    String,
>)
    requires
        1 <= slot <= 5,
    ensures
        opt_string_view(r) == spec_join_names(nama@, spec_parent_view(parent), tingkat as int)[slot
            - 1],
{
    if slot == tingkat {
        Some(nama.clone())
    } else {
        match parent {
            Some(p) => {
                if slot == 1 {
                    clone_opt_string(&p.name_tingkat_1)
                } else if slot == 2 {
                    clone_opt_string(&p.name_tingkat_2)
                } else if slot == 3 {
                    clone_opt_string(&p.name_tingkat_3)
                } else if slot == 4 {
                    clone_opt_string(&p.name_tingkat_4)
                } else {
                    clone_opt_string(&p.name_tingkat_5)
                }
            },
            None => None,
        }
    }
}

/// The three candidate totals for `kode` in `vote`'s table, found by
/// scanning the table in order for the first entry with that code: its
/// counts with unset counts as zero, or all zero when no entry matches.
pub fn counts_for(vote: &Vote, kode: &String) -> (r: (i32, i32, i32))
    ensures
        (r.0 as int, r.1 as int, r.2 as int) == spec_counts(vote@, kode@),
{
    let n = vote.table.len();
    let mut i: usize = 0;
    proof {
        assert(vote@.skip(0) =~= vote@);
    }
    while i < n
        invariant
            0 <= i <= n,
            n == vote.table@.len(),
            spec_lookup(vote@, kode@) == spec_lookup(vote@.skip(i as int), kode@),
        decreases n - i,
    {
        let e = &vote.table[i];
        if e.0 == *kode {
            proof {
                assert(vote@.skip(i as int)[0] == vote@[i as int]);
                assert(spec_lookup(vote@.skip(i as int), kode@) == Some(vote@[i as int].1));
            }
            let c1 = match e.1.i01 {
                Some(v) => v,
                None => 0,
            };
            let c2 = match e.1.i02 {
                Some(v) => v,
                None => 0,
            };
            let c3 = match e.1.i03 {
                Some(v) => v,
                None => 0,
            };
            return (c1, c2, c3);
        }
        proof {
            assert(vote@.skip(i as int)[0] == vote@[i as int]);
            assert(vote@.skip(i as int).drop_first() =~= vote@.skip(i as int + 1));
        }
        i += 1;
    }
    proof {
        assert(vote@.skip(n as int) =~= Seq::<(Seq<char>, CountV)>::empty());
    }
    (0, 0, 0)
}

/// Merges a region list and a tally table into result records: one record
/// per region, in input order. Each record carries the region's code and
/// level, its totals from the table with missing data as zero, its own name
/// in the slot of level `tingkat`, and the parent's name slots elsewhere.
/// The function is pure: the output is a function of the inputs alone.
pub fn join_vote(
    region: &Vec<Region>,
    vote: &Vote,
    vote_result: Option<&VoteResult>,
    tingkat: i8,
) -> (r: Vec<VoteResult>)
    ensures
        r@.len() == region@.len(),
        forall|i: int|
            0 <= i < region@.len() ==> r@[i]@ == spec_join_one(
                region@[i]@,
                vote@,
                spec_parent_view(vote_result),
                tingkat as int,
            ),
        record_views(r@) == spec_join(
            region_views(region@),
            vote@,
            spec_parent_view(vote_result),
            tingkat as int,
        ),
{
    let n = region.len();
    let mut out: Vec<VoteResult> = Vec::new();
    let mut i: usize = 0;
    while i < n
        invariant
            0 <= i <= n,
            n == region@.len(),
            out@.len() == i,
            forall|j: int|
                0 <= j < i ==> out@[j]@ == spec_join_one(
                    region@[j]@,
                    vote@,
                    spec_parent_view(vote_result),
                    tingkat as int,
                ),
        decreases n - i,
    {
        let rg = &region[i];
        let counts = counts_for(vote, &rg.kode);
        let rec = VoteResult {
            kode: rg.kode.clone(),
            tingkat: rg.tingkat,
            name_tingkat_1: pick_name(1, tingkat, &rg.nama, vote_result),
            name_tingkat_2: pick_name(2, tingkat, &rg.nama, vote_result),
            name_tingkat_3: pick_name(3, tingkat, &rg.nama, vote_result),
            name_tingkat_4: pick_name(4, tingkat, &rg.nama, vote_result),
            name_tingkat_5: pick_name(5, tingkat, &rg.nama, vote_result),
            i01: counts.0,
            i02: counts.1,
            i03: counts.2,
        };
        proof {
            assert(rec@.names =~= spec_join_names(
                rg.nama@,
                spec_parent_view(vote_result),
                tingkat as int,
            ));
        }
        out.push(rec);
        i += 1;
    }
    proof {
        assert(record_views(out@) =~= spec_join(
            region_views(region@),
            vote@,
            spec_parent_view(vote_result),
            tingkat as int,
        ));
    }
    out
}

/// Joining a single region against any tally table yields exactly one
/// record, keyed by the region's code; its three totals are the table's
/// entry for that code with unset counts as zero, or all zero when the
/// table has no entry for it.
pub proof fn lemma_join_single_region(
    r: RegionV,
    table: Seq<(Seq<char>, CountV)>,
    parent: Option<VoteResultV>,
    tingkat: int,
)
    ensures
        spec_join(seq![r], table, parent, tingkat).len() == 1,
        spec_join(seq![r], table, parent, tingkat)[0].kode == r.kode,
        match spec_lookup(table, r.kode) {
            Some(c) => {
                &&& spec_join(seq![r], table, parent, tingkat)[0].i01 == spec_count_or_zero(c.i01)
                &&& spec_join(seq![r], table, parent, tingkat)[0].i02 == spec_count_or_zero(c.i02)
                &&& spec_join(seq![r], table, parent, tingkat)[0].i03 == spec_count_or_zero(c.i03)
            },
            None => {
                &&& spec_join(seq![r], table, parent, tingkat)[0].i01 == 0
                &&& spec_join(seq![r], table, parent, tingkat)[0].i02 == 0
                &&& spec_join(seq![r], table, parent, tingkat)[0].i03 == 0
            },
        },
{
}

/// In a joined record the slot of the level being joined holds the source
/// region's name; every other slot holds the parent's value at that slot,
/// and is unset when there is no parent.
pub proof fn lemma_join_ancestor_names(
    r: RegionV,
    table: Seq<(Seq<char>, CountV)>,
    parent: Option<VoteResultV>,
    tingkat: int,
)
    requires
        1 <= tingkat <= 5,
    ensures
        spec_join_one(r, table, parent, tingkat).names.len() == 5,
        spec_join_one(r, table, parent, tingkat).names[tingkat - 1] == Some(r.nama),
        forall|k: int|
            0 <= k < 5 && k != tingkat - 1 ==> spec_join_one(r, table, parent, tingkat).names[k]
                == spec_parent_names(parent)[k],
{
}

/// A joined record is well-formed when the region carries the level being
/// joined and the parent, if there is one, is a well-formed record of the
/// level above.
pub proof fn lemma_join_well_formed(
    r: RegionV,
    table: Seq<(Seq<char>, CountV)>,
    parent: Option<VoteResultV>,
    tingkat: int,
)
    requires
        1 <= tingkat <= 5,
        r.tingkat == tingkat,
        (parent matches Some(p) ==> p.wf() && p.tingkat == tingkat - 1),
    ensures
        spec_join_one(r, table, parent, tingkat).wf(),
{
}

} // verus!
