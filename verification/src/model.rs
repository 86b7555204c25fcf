//! The data model: hierarchy levels, regions, tally tables and result records.

use vstd::prelude::*;

verus! {

/// Depth in the five-tier administrative hierarchy: level 1 is the root
/// (country), level 5 the finest granularity (polling station).
#[derive(Clone, Copy, Debug, PartialEq, Eq, Structural)]
pub enum Level {
    L1,
    L2,
    L3,
    L4,
    L5,
}

impl Level {
    /// The numeric depth of this level, 1 through 5.
    pub open spec fn spec_depth(self) -> int {
        match self {
            Level::L1 => 1,
            Level::L2 => 2,
            Level::L3 => 3,
            Level::L4 => 4,
            Level::L5 => 5,
        }
    }

    /// The numeric depth of this level, 1 through 5.
    pub fn depth(self) -> (d: i8)
        ensures
            d == self.spec_depth(),
            1 <= d <= 5,
    {
        match self {
            Level::L1 => 1,
            Level::L2 => 2,
            Level::L3 => 3,
            Level::L4 => 4,
            Level::L5 => 5,
        }
    }

    /// A short printable name for the level.
    pub fn label(self) -> (r: &'static str)
        ensures
            r@ == spec_level_label(self),
    {
        match self {
            Level::L1 => "L1",
            Level::L2 => "L2",
            Level::L3 => "L3",
            Level::L4 => "L4",
            Level::L5 => "L5",
        }
    }
}

/// The printable name of a level.
pub open spec fn spec_level_label(level: Level) -> Seq<char> {
    match level {
        Level::L1 => "L1"@,
        Level::L2 => "L2"@,
        Level::L3 => "L3"@,
        Level::L4 => "L4"@,
        Level::L5 => "L5"@,
    }
}

/// The view of an optional owned string: the character sequence it holds,
/// if any.
pub open spec fn opt_string_view(o: Option<String>) -> Option<Seq<char>> {
    match o {
        Some(s) => Some(s@),
        None => None,
    }
}

/// The view of an optional machine integer.
pub open spec fn opt_int_view(o: Option<i32>) -> Option<int> {
    match o {
        Some(v) => Some(v as int),
        None => None,
    }
}

/// One region as the remote source lists it: a name, a numeric identifier,
/// a hierarchical code and the level it sits at.
///
/// The code is the only parent/child linkage: a child's code begins with
/// fixed-length slices of its ancestors' codes.
#[derive(Clone, Debug, PartialEq, Eq)]
pub struct Region {
    pub nama: String,
    pub id: i32,
    pub kode: String,
    pub tingkat: i8,
}

/// The mathematical view of a [`Region`].
pub struct RegionV {
    pub nama: Seq<char>,
    pub id: int,
    pub kode: Seq<char>,
    pub tingkat: int,
}

impl View for Region {
    type V = RegionV;

    open spec fn view(&self) -> RegionV {
        RegionV {
            nama: self.nama@,
            id: self.id as int,
            kode: self.kode@,
            tingkat: self.tingkat as int,
        }
    }
}

/// One tally entry: three optional candidate counts plus reporting metadata.
/// An absent count means "not yet reported", not zero.
#[derive(Clone, Debug, PartialEq, Eq)]
pub struct Count {
    pub i01: Option<i32>,
    pub i02: Option<i32>,
    pub i03: Option<i32>,
    pub psu: String,
    pub status_progress: Option<bool>,
}

/// The mathematical view of a [`Count`].
pub struct CountV {
    pub i01: Option<int>,
    pub i02: Option<int>,
    pub i03: Option<int>,
    pub psu: Seq<char>,
    pub status_progress: Option<bool>,
}

impl View for Count {
    type V = CountV;

    open spec fn view(&self) -> CountV {
        CountV {
            i01: opt_int_view(self.i01),
            i02: opt_int_view(self.i02),
            i03: opt_int_view(self.i03),
            psu: self.psu@,
            status_progress: self.status_progress,
        }
    }
}

/// A tally table: vote counts keyed by region code.
///
/// The table is a mapping; well-formed tables list each code once
/// (see [`Vote::wf`]).
#[derive(Clone, Debug, PartialEq, Eq)]
pub struct Vote {
    pub table: Vec<(String, Count)>,
}

impl View for Vote {
    type V = Seq<(Seq<char>, CountV)>;

    open spec fn view(&self) -> Seq<(Seq<char>, CountV)> {
        self.table@.map_values(|e: (String, Count)| (e.0@, e.1@))
    }
}

impl Vote {
    /// A well-formed tally table lists each region code at most once.
    pub open spec fn wf(self) -> bool {
        forall|i: int, j: int|
            0 <= i < j < self@.len() ==> self@[i].0 != self@[j].0
    }
}

/// A merged result record: a region's identity, the names of its ancestor
/// chain, and its three candidate totals. This is the unit the pipeline
/// persists, and the parent input that seeds the next level's fetches.
#[derive(Clone, Debug, PartialEq, Eq)]
pub struct VoteResult {
    pub kode: String,
    pub tingkat: i8,
    pub name_tingkat_1: Option<String>,
    pub name_tingkat_2: Option<String>,
    pub name_tingkat_3: Option<String>,
    pub name_tingkat_4: Option<String>,
    pub name_tingkat_5: Option<String>,
    pub i01: i32,
    pub i02: i32,
    pub i03: i32,
}

/// The mathematical view of a [`VoteResult`]. `names[k]` is the name slot
/// for level `k + 1`; the sequence always has five slots.
pub struct VoteResultV {
    pub kode: Seq<char>,
    pub tingkat: int,
    pub names: Seq<Option<Seq<char>>>,
    pub i01: int,
    pub i02: int,
    pub i03: int,
}

impl View for VoteResult {
    type V = VoteResultV;

    open spec fn view(&self) -> VoteResultV {
        VoteResultV {
            kode: self.kode@,
            tingkat: self.tingkat as int,
            names: seq![
                opt_string_view(self.name_tingkat_1),
                opt_string_view(self.name_tingkat_2),
                opt_string_view(self.name_tingkat_3),
                opt_string_view(self.name_tingkat_4),
                opt_string_view(self.name_tingkat_5),
            ],
            i01: self.i01 as int,
            i02: self.i02 as int,
            i03: self.i03 as int,
        }
    }
}

impl VoteResultV {
    /// A well-formed record sits at a level between 1 and 5, carries its own
    /// name in the slot of its level, and leaves the slots of deeper levels
    /// unset.
    pub open spec fn wf(self) -> bool {
        &&& 1 <= self.tingkat <= 5
        &&& self.names.len() == 5
        &&& self.names[self.tingkat - 1] is Some
        &&& forall|k: int| self.tingkat <= k < 5 ==> self.names[k] is None
    }
}

/// The views of a sequence of regions.
pub open spec fn region_views(s: Seq<Region>) -> Seq<RegionV> {
    s.map_values(|r: Region| r@)
}

/// The views of a sequence of result records.
pub open spec fn record_views(s: Seq<VoteResult>) -> Seq<VoteResultV> {
    s.map_values(|r: VoteResult| r@)
}

} // verus!
