use tally_pipeline::chunk::plan_chunks;
use tally_pipeline::model::{Count, Level, Region, Vote, VoteResult};
use tally_pipeline::pipeline::{
    join_outcomes, run_exit_code, BatchFailure, Config, FetchErrorKind, LevelRun, NodeFetch,
    Stage, FETCH_CHUNK_SIZE, INSERT_BATCH_SIZE,
};

fn region(nama: &str, kode: &str, tingkat: i8) -> Region {
    Region {
        nama: nama.to_string(),
        id: 0,
        kode: kode.to_string(),
        tingkat,
    }
}

fn parent(kode: &str, tingkat: i8, name1: &str) -> VoteResult {
    VoteResult {
        kode: kode.to_string(),
        tingkat,
        name_tingkat_1: Some(name1.to_string()),
        name_tingkat_2: None,
        name_tingkat_3: None,
        name_tingkat_4: None,
        name_tingkat_5: None,
        i01: 0,
        i02: 0,
        i03: 0,
    }
}

fn fetched(regions: Vec<Region>) -> NodeFetch {
    NodeFetch::Fetched(regions, Vote { table: vec![] })
}

#[test]
fn failed_node_is_isolated_from_siblings() {
    // One node of three exhausts its retries: it contributes zero records
    // and one failure report; both siblings' children still come through.
    let parents = vec![parent("3101", 2, "A"), parent("3102", 2, "B"), parent("3103", 2, "C")];
    let outcomes = vec![
        fetched(vec![region("K1", "310101", 3)]),
        NodeFetch::Failed(FetchErrorKind::Transport),
        fetched(vec![region("K3", "310301", 3), region("K4", "310302", 3)]),
    ];
    let (records, failures) = join_outcomes(&parents, outcomes, Level::L3);
    let codes: Vec<&str> = records.iter().map(|r| r.kode.as_str()).collect();
    assert_eq!(codes, vec!["310101", "310301", "310302"]);
    assert_eq!(failures.len(), 1);
    assert_eq!(failures[0].kode, "3102");
    assert_eq!(failures[0].kind, FetchErrorKind::Transport);
}

#[test]
fn empty_region_list_for_a_branch_is_no_error() {
    // A branch whose fetch returns an empty region list contributes an
    // empty record set and no failure.
    let parents = vec![parent("3100", 1, "A")];
    let outcomes = vec![fetched(vec![])];
    let (records, failures) = join_outcomes(&parents, outcomes, Level::L2);
    assert!(records.is_empty());
    assert!(failures.is_empty());
}

#[test]
fn join_outcomes_carries_tallies_and_parent_names() {
    let parents = vec![parent("31", 1, "ROOT")];
    let outcomes = vec![NodeFetch::Fetched(
        vec![region("CITY", "3171", 2)],
        Vote {
            table: vec![(
                "3171".to_string(),
                Count {
                    i01: Some(12),
                    i02: None,
                    i03: Some(3),
                    psu: String::new(),
                    status_progress: None,
                },
            )],
        },
    )];
    let (records, failures) = join_outcomes(&parents, outcomes, Level::L2);
    assert!(failures.is_empty());
    assert_eq!(records.len(), 1);
    assert_eq!(records[0].kode, "3171");
    assert_eq!(records[0].name_tingkat_1, Some("ROOT".to_string()));
    assert_eq!(records[0].name_tingkat_2, Some("CITY".to_string()));
    assert_eq!(records[0].i01, 12);
    assert_eq!(records[0].i02, 0);
    assert_eq!(records[0].i03, 3);
}

#[test]
fn level_run_accumulates_chunks_in_order() {
    let mut run = LevelRun::new(Level::L2);
    let chunk1 = vec![parent("31", 1, "A")];
    let chunk2 = vec![parent("32", 1, "B")];
    run.supply_chunk(&chunk1, vec![fetched(vec![region("X", "3101", 2)])]);
    run.supply_chunk(
        &chunk2,
        vec![fetched(vec![region("Y", "3201", 2), region("Z", "3202", 2)])],
    );
    let codes: Vec<&str> = run.records.iter().map(|r| r.kode.as_str()).collect();
    assert_eq!(codes, vec!["3101", "3201", "3202"]);
    assert!(run.failures.is_empty());
}

#[test]
fn level_run_records_failures_per_node() {
    let mut run = LevelRun::new(Level::L3);
    let chunk = vec![parent("3101", 2, "A"), parent("3102", 2, "A")];
    run.supply_chunk(
        &chunk,
        vec![
            NodeFetch::Failed(FetchErrorKind::Decode),
            fetched(vec![region("K", "310201", 3)]),
        ],
    );
    assert_eq!(run.records.len(), 1);
    assert_eq!(run.failures.len(), 1);
    assert_eq!(run.failures[0].kode, "3101");
    assert_eq!(run.failures[0].kind, FetchErrorKind::Decode);
}

#[test]
fn rerun_on_unchanged_data_reproduces_records() {
    // With the fetched data fixed, running a level twice, even with
    // different chunk bounds, yields identical record sequences.
    let parents: Vec<VoteResult> =
        (0..5).map(|i| parent(&format!("31{:02}", i), 1, "R")).collect();
    let outcome_for = |p: &VoteResult| {
        fetched(vec![region("N", &format!("{}01", p.kode), 2)])
    };

    let run_with_chunk_size = |size: usize| -> Vec<VoteResult> {
        let mut run = LevelRun::new(Level::L2);
        for chunk in plan_chunks(parents.clone(), size) {
            let outcomes: Vec<NodeFetch> = chunk.iter().map(&outcome_for).collect();
            run.supply_chunk(&chunk, outcomes);
        }
        run.records
    };

    let first = run_with_chunk_size(2);
    let second = run_with_chunk_size(2);
    let other_bound = run_with_chunk_size(3);
    assert_eq!(first, second);
    assert_eq!(first, other_bound);
}

#[test]
fn stages_advance_through_five_levels_to_done() {
    let mut stage = Stage::Level1;
    let mut seen = Vec::new();
    while let Some(level) = stage.level() {
        seen.push(level);
        stage = stage.advance();
    }
    assert_eq!(
        seen,
        vec![Level::L1, Level::L2, Level::L3, Level::L4, Level::L5]
    );
    assert_eq!(stage, Stage::Done);
    assert_eq!(stage.advance(), Stage::Done);
    assert_eq!(stage.level(), None);
}

#[test]
fn config_accepts_only_positive_bounds() {
    assert_eq!(Config::new(0, 10), None);
    assert_eq!(Config::new(10, 0), None);
    let c = Config::new(4, 9).unwrap();
    assert_eq!(c.chunk_size, 4);
    assert_eq!(c.batch_size, 9);
    let d = Config::default();
    assert_eq!(d.chunk_size, FETCH_CHUNK_SIZE);
    assert_eq!(d.batch_size, INSERT_BATCH_SIZE);
    assert_eq!(d.chunk_size, 100);
    assert_eq!(d.batch_size, 1000);
}

#[test]
fn exit_code_reflects_failures() {
    let no_nodes: Vec<tally_pipeline::pipeline::NodeFailure> = vec![];
    let no_batches: Vec<BatchFailure> = vec![];
    assert_eq!(run_exit_code(&no_nodes, &no_batches), 0);

    let mut run = LevelRun::new(Level::L2);
    run.supply_chunk(
        &vec![parent("31", 1, "A")],
        vec![NodeFetch::Failed(FetchErrorKind::Transport)],
    );
    assert_eq!(run_exit_code(&run.failures, &no_batches), 1);

    let batch_fail = vec![BatchFailure {
        label: "Level L2".to_string(),
        index: 0,
    }];
    assert_eq!(run_exit_code(&no_nodes, &batch_fail), 1);
}
