//! The level orchestrator: per-node fetch outcomes, the barrier that joins
//! one chunk's outcomes, the state machine that accumulates one level's
//! output, and the stage-to-stage progression of the whole pipeline.

use vstd::prelude::*;

use crate::join::join_vote;
use crate::join::lemma_join_well_formed;
use crate::join::spec_join;
use crate::model::record_views;
use crate::model::region_views;
use crate::model::CountV;
use crate::model::Level;
use crate::model::Region;
use crate::model::RegionV;
use crate::model::Vote;
use crate::model::VoteResult;
use crate::model::VoteResultV;

verus! {

/// Why a node's fetch produced no data: the transport gave up after its
/// bounded retries, or the response did not decode into the expected shape.
#[derive(Clone, Copy, Debug, PartialEq, Eq, Structural)]
pub enum FetchErrorKind {
    Transport,
    Decode,
}

/// The outcome of fetching one node's paired datasets: the region list and
/// the tally table, or the error, scoped to this node alone.
#[derive(Debug)]
pub enum NodeFetch {
    Fetched(Vec<Region>, Vote),
    Failed(FetchErrorKind),
}

/// The view of a [`NodeFetch`].
pub enum NodeFetchV {
    FetchedV(Seq<RegionV>, Seq<(Seq<char>, CountV)>),
    FailedV(FetchErrorKind),
}

impl View for NodeFetch {
    type V = NodeFetchV;

    open spec fn view(&self) -> NodeFetchV {
        match self {
            NodeFetch::Fetched(regions, vote) => NodeFetchV::FetchedV(
                region_views(regions@),
                vote@,
            ),
            NodeFetch::Failed(kind) => NodeFetchV::FailedV(*kind),
        }
    }
}

/// One node that contributed no children: the parent's code and the kind
/// of failure, reported at the chunk barrier.
#[derive(Clone, Debug, PartialEq, Eq)]
pub struct NodeFailure {
    pub kode: String,
    pub kind: FetchErrorKind,
}

/// The view of a [`NodeFailure`].
pub struct NodeFailureV {
    pub kode: Seq<char>,
    pub kind: FetchErrorKind,
}

impl View for NodeFailure {
    type V = NodeFailureV;

    open spec fn view(&self) -> NodeFailureV {
        NodeFailureV { kode: self.kode@, kind: self.kind }
    }
}

/// One persistence batch that failed: the label the level was persisted
/// under and the batch's index among the level's batches.
#[derive(Clone, Debug, PartialEq, Eq)]
pub struct BatchFailure {
    pub label: String,
    pub index: usize,
}

/// The views of a sequence of failure reports.
pub open spec fn failure_views(s: Seq<NodeFailure>) -> Seq<NodeFailureV> {
    s.map_values(|f: NodeFailure| f@)
}

/// Parents paired with their fetch outcomes, in order.
pub open spec fn spec_pairs(parents: Seq<VoteResult>, outcomes: Seq<NodeFetch>) -> Seq<
    (VoteResultV, NodeFetchV),
> {
    Seq::new(parents.len(), |i: int| (parents[i]@, outcomes[i]@))
}

/// The records one node contributes to its level: the join of its fetched
/// datasets under the node as parent, or nothing when its fetch failed.
pub open spec fn spec_node_records(
    parent: VoteResultV,
    outcome: NodeFetchV,
    tingkat: int,
) -> Seq<VoteResultV> {
    match outcome {
        NodeFetchV::FetchedV(regions, table) => spec_join(regions, table, Some(parent), tingkat),
        NodeFetchV::FailedV(_) => Seq::empty(),
    }
}

/// The records a level produces for `nodes`: each node's contribution, in
/// node order.
pub open spec fn spec_level_records(
    nodes: Seq<(VoteResultV, NodeFetchV)>,
    tingkat: int,
) -> Seq<VoteResultV>
    decreases nodes.len(),
{
    if nodes.len() == 0 {
        Seq::empty()
    } else {
        spec_level_records(nodes.drop_last(), tingkat) + spec_node_records(
            nodes.last().0,
            nodes.last().1,
            tingkat,
        )
    }
}

/// The failures a level reports for `nodes`, in node order.
pub open spec fn spec_level_failures(nodes: Seq<(VoteResultV, NodeFetchV)>) -> Seq<NodeFailureV>
    decreases nodes.len(),
{
    if nodes.len() == 0 {
        Seq::empty()
    } else {
        let rest = spec_level_failures(nodes.drop_last());
        match nodes.last().1 {
            NodeFetchV::FailedV(kind) => rest.push(
                NodeFailureV { kode: nodes.last().0.kode, kind },
            ),
            NodeFetchV::FetchedV(_, _) => rest,
        }
    }
}

/// A level's records distribute over concatenation of its node sequence.
pub proof fn lemma_level_records_concat(
    a: Seq<(VoteResultV, NodeFetchV)>,
    b: Seq<(VoteResultV, NodeFetchV)>,
    tingkat: int,
)
    ensures
        spec_level_records(a + b, tingkat) == spec_level_records(a, tingkat)
            + spec_level_records(b, tingkat),
    decreases b.len(),
{
    if b.len() == 0 {
        assert(a + b =~= a);
        assert(spec_level_records(a, tingkat) + spec_level_records(b, tingkat)
            =~= spec_level_records(a, tingkat));
    } else {
        lemma_level_records_concat(a, b.drop_last(), tingkat);
        assert((a + b).drop_last() =~= a + b.drop_last());
        assert(spec_level_records(a + b, tingkat) =~= spec_level_records(a, tingkat)
            + spec_level_records(b, tingkat));
    }
}

/// A level's failure reports distribute over concatenation of its node
/// sequence.
pub proof fn lemma_level_failures_concat(
    a: Seq<(VoteResultV, NodeFetchV)>,
    b: Seq<(VoteResultV, NodeFetchV)>,
)
    ensures
        spec_level_failures(a + b) == spec_level_failures(a) + spec_level_failures(b),
    decreases b.len(),
{
    if b.len() == 0 {
        assert(a + b =~= a);
        assert(spec_level_failures(a) + spec_level_failures(b) =~= spec_level_failures(a));
    } else {
        lemma_level_failures_concat(a, b.drop_last());
        assert((a + b).drop_last() =~= a + b.drop_last());
        assert(spec_level_failures(a + b) =~= spec_level_failures(a) + spec_level_failures(b));
    }
}

/// The record sequences of a level's chunks, concatenated in chunk order.
pub open spec fn spec_chunked_records(
    chunks: Seq<Seq<(VoteResultV, NodeFetchV)>>,
    tingkat: int,
) -> Seq<VoteResultV>
    decreases chunks.len(),
{
    if chunks.len() == 0 {
        Seq::empty()
    } else {
        spec_level_records(chunks.first(), tingkat) + spec_chunked_records(
            chunks.drop_first(),
            tingkat,
        )
    }
}

/// A level's records are a function of its fetched data alone: processing
/// the nodes chunk by chunk and concatenating each chunk's records yields
/// exactly the records of processing all nodes in one pass, whatever the
/// chunk bounds were. Re-running a level against unchanged fetched data
/// therefore reproduces the same record sequence.
pub proof fn lemma_chunking_preserves_records(
    chunks: Seq<Seq<(VoteResultV, NodeFetchV)>>,
    tingkat: int,
)
    ensures
        spec_chunked_records(chunks, tingkat) == spec_level_records(chunks.flatten(), tingkat),
    decreases chunks.len(),
{
    if chunks.len() == 0 {
        assert(chunks.flatten() =~= Seq::<(VoteResultV, NodeFetchV)>::empty());
    } else {
        lemma_chunking_preserves_records(chunks.drop_first(), tingkat);
        lemma_level_records_concat(chunks.first(), chunks.drop_first().flatten(), tingkat);
    }
}

/// Every region this outcome fetched carries level `tingkat`.
pub open spec fn spec_outcome_at_level(outcome: NodeFetchV, tingkat: int) -> bool {
    match outcome {
        NodeFetchV::FetchedV(regions, _) => forall|j: int|
            0 <= j < regions.len() ==> (#[trigger] regions[j]).tingkat == tingkat,
        NodeFetchV::FailedV(_) => true,
    }
}

/// Every record a level produces is well-formed when its parents are
/// well-formed records of the level above and the fetched regions carry
/// the level being joined: each record sits at its level, holds its own
/// name in the slot of that level, and leaves deeper slots unset.
pub proof fn lemma_level_records_well_formed(
    nodes: Seq<(VoteResultV, NodeFetchV)>,
    tingkat: int,
)
    requires
        1 <= tingkat <= 5,
        forall|i: int|
            0 <= i < nodes.len() ==> (#[trigger] nodes[i]).0.wf() && nodes[i].0.tingkat == tingkat
                - 1,
        forall|i: int|
            0 <= i < nodes.len() ==> spec_outcome_at_level((#[trigger] nodes[i]).1, tingkat),
    ensures
        forall|k: int|
            0 <= k < spec_level_records(nodes, tingkat).len() ==> (#[trigger] spec_level_records(
                nodes,
                tingkat,
            )[k]).wf(),
    decreases nodes.len(),
{
    if nodes.len() > 0 {
        lemma_level_records_well_formed(nodes.drop_last(), tingkat);
        let prefix = spec_level_records(nodes.drop_last(), tingkat);
        let last = nodes.last();
        let added = spec_node_records(last.0, last.1, tingkat);
        assert forall|k: int| 0 <= k < added.len() implies (#[trigger] added[k]).wf() by {
            match last.1 {
                NodeFetchV::FetchedV(regions, table) => {
                    assert(regions[k].tingkat == tingkat);
                    lemma_join_well_formed(regions[k], table, Some(last.0), tingkat);
                },
                NodeFetchV::FailedV(_) => {},
            }
        }
        assert forall|k: int|
            0 <= k < spec_level_records(nodes, tingkat).len() implies (
        #[trigger] spec_level_records(nodes, tingkat)[k]).wf() by {
            if k < prefix.len() {
                assert(spec_level_records(nodes, tingkat)[k] == prefix[k]);
            } else {
                assert(spec_level_records(nodes, tingkat)[k] == added[k - prefix.len()]);
            }
        }
    }
}

/// Joins one chunk's fetch outcomes at the barrier: for each parent, in
/// order, the join of its fetched datasets, a failed node contributing no
/// records and one failure report instead. A node's failure is isolated:
/// what the other nodes contribute does not depend on it.
pub fn join_outcomes(parents: &Vec<VoteResult>, outcomes: Vec<NodeFetch>, level: Level) -> (r: (
    Vec<VoteResult>,
    Vec<NodeFailure>,
))
    requires
        outcomes@.len() == parents@.len(),
    ensures
        record_views(r.0@) == spec_level_records(
            spec_pairs(parents@, outcomes@),
            level.spec_depth(),
        ),
        failure_views(r.1@) == spec_level_failures(spec_pairs(parents@, outcomes@)),
{
    let ghost all = spec_pairs(parents@, outcomes@);
    let mut outs = outcomes;
    let mut recs: Vec<VoteResult> = Vec::new();
    let mut fails: Vec<NodeFailure> = Vec::new();
    let n = parents.len();
    let mut i: usize = 0;
    proof {
        assert(all.take(0) =~= Seq::<(VoteResultV, NodeFetchV)>::empty());
        assert(record_views(recs@) =~= spec_level_records(all.take(0), level.spec_depth()));
        assert(failure_views(fails@) =~= spec_level_failures(all.take(0)));
    }
    while i < n
        invariant
            0 <= i <= n,
            n == parents@.len(),
            all.len() == n,
            i + outs@.len() == n,
            forall|k: int| 0 <= k < n ==> (#[trigger] all[k]).0 == parents@[k]@,
            forall|k: int| 0 <= k < outs@.len() ==> (#[trigger] outs@[k])@ == all[i + k].1,
            record_views(recs@) == spec_level_records(all.take(i as int), level.spec_depth()),
            failure_views(fails@) == spec_level_failures(all.take(i as int)),
        decreases n - i,
    {
        let o = outs.remove(0);
        proof {
            assert(o@ == all[i as int].1);
            assert(all.take(i as int + 1).drop_last() =~= all.take(i as int));
        }
        match o {
            NodeFetch::Fetched(regions, vote) => {
                let mut add = join_vote(&regions, &vote, Some(&parents[i]), level.depth());
                proof {
                    assert(record_views(add@) =~= spec_node_records(
                        all[i as int].0,
                        all[i as int].1,
                        level.spec_depth(),
                    ));
                    assert(record_views(recs@ + add@) =~= record_views(recs@) + record_views(
                        add@,
                    ));
                    assert(failure_views(fails@) =~= spec_level_failures(all.take(i as int + 1)));
                }
                recs.append(&mut add);
            },
            NodeFetch::Failed(kind) => {
                let report = NodeFailure { kode: parents[i].kode.clone(), kind };
                proof {
                    assert(failure_views(fails@.push(report)) =~= failure_views(fails@).push(
                        report@,
                    ));
                    assert(record_views(recs@) + spec_node_records(
                        all[i as int].0,
                        all[i as int].1,
                        level.spec_depth(),
                    ) =~= record_views(recs@));
                }
                fails.push(report);
            },
        }
        i += 1;
    }
    proof {
        assert(all.take(n as int) =~= all);
    }
    (recs, fails)
}

/// Runs one level of the pipeline as a state machine: the caller supplies
/// the level's parent chunks one after another, each with the fetch outcome
/// of every parent in the chunk; the run joins each chunk at its barrier
/// and accumulates the level's records and failure reports in order.
/// `history` is the ghost sequence of all nodes supplied so far.
pub struct LevelRun {
    pub level: Level,
    pub records: Vec<VoteResult>,
    pub failures: Vec<NodeFailure>,
    pub history: Ghost<Seq<(VoteResultV, NodeFetchV)>>,
}

impl LevelRun {
    /// The accumulated output is exactly what the supplied nodes determine.
    pub open spec fn wf(self) -> bool {
        &&& record_views(self.records@) == spec_level_records(
            self.history@,
            self.level.spec_depth(),
        )
        &&& failure_views(self.failures@) == spec_level_failures(self.history@)
    }

    /// Starts a level with no chunks supplied yet.
    pub fn new(level: Level) -> (r: LevelRun)
        ensures
            r.wf(),
            r.level == level,
            r.history@ == Seq::<(VoteResultV, NodeFetchV)>::empty(),
            r.records@.len() == 0,
            r.failures@.len() == 0,
    {
        let r = LevelRun {
            level,
            records: Vec::new(),
            failures: Vec::new(),
            history: Ghost(Seq::empty()),
        };
        proof {
            assert(record_views(r.records@) =~= spec_level_records(
                r.history@,
                level.spec_depth(),
            ));
            assert(failure_views(r.failures@) =~= spec_level_failures(r.history@));
        }
        r
    }

    /// Supplies one chunk of parents with their fetch outcomes: the chunk
    /// is joined at its barrier and its records and failure reports are
    /// appended to the level's accumulated output.
    pub fn supply_chunk(&mut self, parents: &Vec<VoteResult>, outcomes: Vec<NodeFetch>)
        requires
            old(self).wf(),
            outcomes@.len() == parents@.len(),
        ensures
            final(self).wf(),
            final(self).level == old(self).level,
            final(self).history@ == old(self).history@ + spec_pairs(parents@, outcomes@),
            record_views(final(self).records@) == record_views(old(self).records@)
                + spec_level_records(
                spec_pairs(parents@, outcomes@),
                old(self).level.spec_depth(),
            ),
            failure_views(final(self).failures@) == failure_views(old(self).failures@)
                + spec_level_failures(spec_pairs(parents@, outcomes@)),
    {
        let ghost chunk_nodes = spec_pairs(parents@, outcomes@);
        let (mut recs, mut fails) = join_outcomes(parents, outcomes, self.level);
        proof {
            lemma_level_records_concat(self.history@, chunk_nodes, self.level.spec_depth());
            lemma_level_failures_concat(self.history@, chunk_nodes);
            assert(record_views(self.records@ + recs@) =~= record_views(self.records@)
                + record_views(recs@));
            assert(failure_views(self.failures@ + fails@) =~= failure_views(self.failures@)
                + failure_views(fails@));
        }
        self.records.append(&mut recs);
        self.failures.append(&mut fails);
        self.history = Ghost(self.history@ + chunk_nodes);
    }
}

/// The stage the pipeline is at: the level being processed, or done.
#[derive(Clone, Copy, Debug, PartialEq, Eq, Structural)]
pub enum Stage {
    Level1,
    Level2,
    Level3,
    Level4,
    Level5,
    Done,
}

impl Stage {
    /// The stage after this one: each level advances to the level below
    /// once its output is persisted; after level 5 the pipeline is done,
    /// and done is final.
    pub open spec fn spec_advance(self) -> Stage {
        match self {
            Stage::Level1 => Stage::Level2,
            Stage::Level2 => Stage::Level3,
            Stage::Level3 => Stage::Level4,
            Stage::Level4 => Stage::Level5,
            Stage::Level5 => Stage::Done,
            Stage::Done => Stage::Done,
        }
    }

    /// The stage after this one.
    pub fn advance(self) -> (n: Stage)
        ensures
            n == self.spec_advance(),
    {
        match self {
            Stage::Level1 => Stage::Level2,
            Stage::Level2 => Stage::Level3,
            Stage::Level3 => Stage::Level4,
            Stage::Level4 => Stage::Level5,
            Stage::Level5 => Stage::Done,
            Stage::Done => Stage::Done,
        }
    }

    /// The level this stage fetches and joins, if it is not done.
    pub open spec fn spec_level(self) -> Option<Level> {
        match self {
            Stage::Level1 => Some(Level::L1),
            Stage::Level2 => Some(Level::L2),
            Stage::Level3 => Some(Level::L3),
            Stage::Level4 => Some(Level::L4),
            Stage::Level5 => Some(Level::L5),
            Stage::Done => None,
        }
    }

    /// The level this stage fetches and joins, if it is not done.
    pub fn level(self) -> (l: Option<Level>)
        ensures
            l == self.spec_level(),
    {
        match self {
            Stage::Level1 => Some(Level::L1),
            Stage::Level2 => Some(Level::L2),
            Stage::Level3 => Some(Level::L3),
            Stage::Level4 => Some(Level::L4),
            Stage::Level5 => Some(Level::L5),
            Stage::Done => None,
        }
    }
}

/// Five advances from the first stage reach the final one: the walk is
/// bounded by the five levels of the hierarchy and fetches no sixth.
pub proof fn lemma_pipeline_terminates()
    ensures
        Stage::Level1.spec_advance().spec_advance().spec_advance().spec_advance().spec_advance()
            == Stage::Done,
{
}

/// The default bound on concurrent fetches within one chunk.
pub const FETCH_CHUNK_SIZE: usize = 100;

/// The default bound on records per insert batch.
pub const INSERT_BATCH_SIZE: usize = 1000;

/// The pipeline's tunables: the fetch-concurrency chunk bound and the
/// persistence batch bound. The two are independent.
#[derive(Clone, Copy, Debug, PartialEq, Eq, Structural)]
pub struct Config {
    pub chunk_size: usize,
    pub batch_size: usize,
}

impl Config {
    /// Both bounds are positive.
    pub open spec fn wf(self) -> bool {
        self.chunk_size >= 1 && self.batch_size >= 1
    }

    /// Accepts the tunables exactly when both bounds are positive.
    pub fn new(chunk_size: usize, batch_size: usize) -> (r: Option<Config>)
        ensures
            (r is Some) <==> (chunk_size >= 1 && batch_size >= 1),
            (r matches Some(c) ==> c.chunk_size == chunk_size && c.batch_size == batch_size
                && c.wf()),
    {
        if chunk_size >= 1 && batch_size >= 1 {
            Some(Config { chunk_size, batch_size })
        } else {
            None
        }
    }
}

impl Default for Config {
    /// The bounds the pipeline ships with.
    fn default() -> (c: Config)
        ensures
            c.chunk_size == FETCH_CHUNK_SIZE,
            c.batch_size == INSERT_BATCH_SIZE,
            c.wf(),
    {
        Config { chunk_size: FETCH_CHUNK_SIZE, batch_size: INSERT_BATCH_SIZE }
    }
}

/// The exit code a finished run reports: zero exactly when every node
/// fetch and every insert batch succeeded, one otherwise.
pub fn run_exit_code(node_failures: &Vec<NodeFailure>, batch_failures: &Vec<BatchFailure>) -> (c:
    i32)
    ensures
        (c == 0) <==> (node_failures@.len() == 0 && batch_failures@.len() == 0),
        c == 0 || c == 1,
{
    if node_failures.len() == 0 && batch_failures.len() == 0 {
        0
    } else {
        1
    }
}

} // verus!
