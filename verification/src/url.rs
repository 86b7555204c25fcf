//! Endpoint addresses: the per-level paths under which a node's region
//! listing and tally table are fetched.

use vstd::prelude::*;

use vstd::string::StrSliceExecFns;
use vstd::string::StringExecFns;
use vstd::string::StringExecFnsIsAscii;
use vstd::utf8::is_ascii_chars;

use crate::model::Level;
use crate::model::VoteResult;

verus! {

/// What a fetch is aimed at: the root of the hierarchy (level 1, no
/// parent), or the children of one parent record (levels 2 through 5).
#[derive(Clone, Copy)]
pub enum FetchTarget<'a> {
    RootLevel,
    ChildLevel(&'a VoteResult),
}

/// The lengths of the parent-code prefixes that stand as path segments
/// before the parent code itself when fetching `level`.
pub open spec fn spec_prefix_lengths(level: Level) -> Seq<int> {
    match level {
        Level::L1 => seq![],
        Level::L2 => seq![],
        Level::L3 => seq![2],
        Level::L4 => seq![2, 4],
        Level::L5 => seq![2, 4, 6],
    }
}

/// The least parent-code length the path for `level` reads.
pub open spec fn spec_code_len_needed(level: Level) -> int {
    match level {
        Level::L1 => 0,
        Level::L2 => 0,
        Level::L3 => 2,
        Level::L4 => 4,
        Level::L5 => 6,
    }
}

/// The prefix-length table as executable data.
pub fn prefix_lengths(level: Level) -> (r: Vec<usize>)
    ensures
        r@.map_values(|x: usize| x as int) == spec_prefix_lengths(level),
{
    let mut v: Vec<usize> = Vec::new();
    match level {
        Level::L1 => {},
        Level::L2 => {},
        Level::L3 => {
            v.push(2);
        },
        Level::L4 => {
            v.push(2);
            v.push(4);
        },
        Level::L5 => {
            v.push(2);
            v.push(4);
            v.push(6);
        },
    }
    proof {
        assert(v@.map_values(|x: usize| x as int) =~= spec_prefix_lengths(level));
    }
    v
}

/// The path segments `/p`, one per prefix length in `lens`, where `p` is
/// the prefix of `kode` of that length, concatenated in order.
pub open spec fn spec_segments(kode: Seq<char>, lens: Seq<int>) -> Seq<char>
    decreases lens.len(),
{
    if lens.len() == 0 {
        Seq::empty()
    } else {
        spec_segments(kode, lens.drop_last()) + "/"@ + kode.take(lens.last())
    }
}

/// The path, relative to a base, that addresses `kode`'s children at
/// `level`: one segment per table prefix, then the full code, then the
/// extension.
pub open spec fn spec_child_path(kode: Seq<char>, level: Level) -> Seq<char> {
    spec_segments(kode, spec_prefix_lengths(level)) + "/"@ + kode + ".json"@
}

/// The root address of the region-listing endpoint tree.
pub open spec fn spec_region_base() -> Seq<char> {
    "https://sirekap-obj-data.kpu.go.id/wilayah/pemilu/ppwp"@
}

/// The root address of the tally-table endpoint tree.
pub open spec fn spec_tally_base() -> Seq<char> {
    "https://sirekap-obj-data.kpu.go.id/pemilu/hhcw/ppwp"@
}

/// The region-listing address for a fetch: the fixed root listing for
/// level 1, or the child path under the parent's code.
pub open spec fn spec_region_url(kode: Option<Seq<char>>, level: Level) -> Seq<char> {
    match kode {
        None => spec_region_base() + "/0.json"@,
        Some(k) => spec_region_base() + spec_child_path(k, level),
    }
}

/// The tally-table address for a fetch: the fixed root table for level 1,
/// or the child path under the parent's code.
pub open spec fn spec_tally_url(kode: Option<Seq<char>>, level: Level) -> Seq<char> {
    match kode {
        None => spec_tally_base() + ".json"@,
        Some(k) => spec_tally_base() + spec_child_path(k, level),
    }
}

impl<'a> FetchTarget<'a> {
    /// The parent code the fetch is addressed under, if any.
    pub open spec fn spec_kode(self) -> Option<Seq<char>> {
        match self {
            FetchTarget::RootLevel => None,
            FetchTarget::ChildLevel(p) => Some(p.kode@),
        }
    }

    /// A target fits `level` when the root target is used exactly for level
    /// 1, and a child target's parent code is ASCII and long enough for the
    /// level's path prefixes.
    pub open spec fn fits(self, level: Level) -> bool {
        match self {
            FetchTarget::RootLevel => level == Level::L1,
            FetchTarget::ChildLevel(p) => {
                &&& level != Level::L1
                &&& is_ascii_chars(p.kode@)
                &&& p.kode@.len() >= spec_code_len_needed(level)
            },
        }
    }
}

/// Builds the relative path for fetching `level` under the parent code
/// `kode`: the table-driven prefix segments, the full code, the extension.
fn child_path(kode: &String, level: Level) -> (r: String)
    requires
        is_ascii_chars(kode@),
        kode@.len() >= spec_code_len_needed(level),
    ensures
        r@ == spec_child_path(kode@, level),
{
    let lens = prefix_lengths(level);
    let mut s = String::new();
    proof {
        assert(forall|j: int|
            0 <= j < spec_prefix_lengths(level).len() ==> spec_prefix_lengths(level)[j]
                <= spec_code_len_needed(level));
        assert(s@ =~= spec_segments(kode@, spec_prefix_lengths(level).take(0)));
    }
    let n = lens.len();
    let mut i: usize = 0;
    while i < n
        invariant
            0 <= i <= n,
            n == lens@.len(),
            lens@.map_values(|x: usize| x as int) == spec_prefix_lengths(level),
            is_ascii_chars(kode@),
            kode@.len() >= spec_code_len_needed(level),
            forall|j: int|
                0 <= j < spec_prefix_lengths(level).len() ==> spec_prefix_lengths(level)[j]
                    <= spec_code_len_needed(level),
            s@ == spec_segments(kode@, spec_prefix_lengths(level).take(i as int)),
        decreases n - i,
    {
        let l = lens[i];
        proof {
            assert(lens@.map_values(|x: usize| x as int)[i as int] == l as int);
            assert(spec_prefix_lengths(level)[i as int] <= spec_code_len_needed(level));
            assert(l <= kode@.len());
        }
        s.append("/");
        let ks = kode.as_str();
        proof {
            assert(is_ascii_chars(ks@));
        }
        s.append(ks.substring_ascii(0, l));
        proof {
            assert(spec_prefix_lengths(level).take(i as int + 1).drop_last()
                =~= spec_prefix_lengths(level).take(i as int));
            assert(spec_prefix_lengths(level).take(i as int + 1).last() == l as int);
            assert(s@ =~= spec_segments(kode@, spec_prefix_lengths(level).take(i as int + 1)));
        }
        i += 1;
    }
    proof {
        assert(spec_prefix_lengths(level).take(n as int) =~= spec_prefix_lengths(level));
    }
    s.append("/");
    s.append(kode.as_str());
    s.append(".json");
    proof {
        assert(s@ =~= spec_child_path(kode@, level));
    }
    s
}

/// The region-listing address for a fetch at `level`.
pub fn region_url(level: Level, target: FetchTarget) -> (u: String)
    requires
        target.fits(level),
    ensures
        u@ == spec_region_url(target.spec_kode(), level),
{
    let mut s = String::from_str("https://sirekap-obj-data.kpu.go.id/wilayah/pemilu/ppwp");
    match target {
        FetchTarget::RootLevel => {
            s.append("/0.json");
        },
        FetchTarget::ChildLevel(p) => {
            let path = child_path(&p.kode, level);
            s.append(path.as_str());
        },
    }
    s
}

/// The tally-table address for a fetch at `level`.
pub fn tally_url(level: Level, target: FetchTarget) -> (u: String)
    requires
        target.fits(level),
    ensures
        u@ == spec_tally_url(target.spec_kode(), level),
{
    let mut s = String::from_str("https://sirekap-obj-data.kpu.go.id/pemilu/hhcw/ppwp");
    match target {
        FetchTarget::RootLevel => {
            s.append(".json");
        },
        FetchTarget::ChildLevel(p) => {
            let path = child_path(&p.kode, level);
            s.append(path.as_str());
        },
    }
    s
}

} // verus!
