use tally_pipeline::join::{counts_for, join_vote};
use tally_pipeline::model::{Count, Region, Vote, VoteResult};

fn count(i01: Option<i32>, i02: Option<i32>, i03: Option<i32>) -> Count {
    Count {
        i01,
        i02,
        i03,
        psu: String::new(),
        status_progress: None,
    }
}

fn region(nama: &str, id: i32, kode: &str, tingkat: i8) -> Region {
    Region {
        nama: nama.to_string(),
        id,
        kode: kode.to_string(),
        tingkat,
    }
}

#[test]
fn root_scenario_one_region_with_partial_tally() {
    // Root fetch returns one level-1 region; its tally reports two of the
    // three candidates. The joined record zero-fills the third.
    let regions = vec![region("A", 1, "00", 1)];
    let vote = Vote {
        table: vec![("00".to_string(), count(Some(10), Some(5), None))],
    };
    let out = join_vote(&regions, &vote, None, 1);
    assert_eq!(out.len(), 1);
    let rec = &out[0];
    assert_eq!(rec.kode, "00");
    assert_eq!(rec.tingkat, 1);
    assert_eq!(rec.name_tingkat_1, Some("A".to_string()));
    assert_eq!(rec.name_tingkat_2, None);
    assert_eq!(rec.name_tingkat_3, None);
    assert_eq!(rec.name_tingkat_4, None);
    assert_eq!(rec.name_tingkat_5, None);
    assert_eq!(rec.i01, 10);
    assert_eq!(rec.i02, 5);
    assert_eq!(rec.i03, 0);
}

#[test]
fn single_region_present_in_table() {
    let regions = vec![region("X", 7, "1234", 2)];
    let vote = Vote {
        table: vec![
            ("9999".to_string(), count(Some(1), Some(2), Some(3))),
            ("1234".to_string(), count(Some(40), None, Some(60))),
        ],
    };
    let out = join_vote(&regions, &vote, None, 2);
    assert_eq!(out.len(), 1);
    assert_eq!(out[0].kode, "1234");
    assert_eq!(out[0].i01, 40);
    assert_eq!(out[0].i02, 0);
    assert_eq!(out[0].i03, 60);
}

#[test]
fn single_region_absent_from_table_gets_zero_counts() {
    // A region with no tally entry is not an error: all three counts are 0.
    let regions = vec![region("X", 7, "1234", 2)];
    let vote = Vote {
        table: vec![("9999".to_string(), count(Some(1), Some(2), Some(3)))],
    };
    let out = join_vote(&regions, &vote, None, 2);
    assert_eq!(out.len(), 1);
    assert_eq!(out[0].i01, 0);
    assert_eq!(out[0].i02, 0);
    assert_eq!(out[0].i03, 0);
}

#[test]
fn ancestor_names_carried_forward_from_parent() {
    // A level-2 join sets slot 2 to the region's own name and copies slot 1
    // from the parent record that seeded the fetch.
    let parent = VoteResult {
        kode: "31".to_string(),
        tingkat: 1,
        name_tingkat_1: Some("ROOT".to_string()),
        name_tingkat_2: None,
        name_tingkat_3: None,
        name_tingkat_4: None,
        name_tingkat_5: None,
        i01: 0,
        i02: 0,
        i03: 0,
    };
    let regions = vec![region("CHILD", 2, "3101", 2)];
    let vote = Vote { table: vec![] };
    let out = join_vote(&regions, &vote, Some(&parent), 2);
    assert_eq!(out.len(), 1);
    assert_eq!(out[0].name_tingkat_1, Some("ROOT".to_string()));
    assert_eq!(out[0].name_tingkat_2, Some("CHILD".to_string()));
    assert_eq!(out[0].name_tingkat_3, None);
    assert_eq!(out[0].name_tingkat_4, None);
    assert_eq!(out[0].name_tingkat_5, None);
}

#[test]
fn deep_join_keeps_all_ancestor_names() {
    let parent = VoteResult {
        kode: "317101".to_string(),
        tingkat: 3,
        name_tingkat_1: Some("PROV".to_string()),
        name_tingkat_2: Some("CITY".to_string()),
        name_tingkat_3: Some("DIST".to_string()),
        name_tingkat_4: None,
        name_tingkat_5: None,
        i01: 0,
        i02: 0,
        i03: 0,
    };
    let regions = vec![region("WARD", 9, "3171011001", 4)];
    let vote = Vote { table: vec![] };
    let out = join_vote(&regions, &vote, Some(&parent), 4);
    assert_eq!(out[0].name_tingkat_1, Some("PROV".to_string()));
    assert_eq!(out[0].name_tingkat_2, Some("CITY".to_string()));
    assert_eq!(out[0].name_tingkat_3, Some("DIST".to_string()));
    assert_eq!(out[0].name_tingkat_4, Some("WARD".to_string()));
    assert_eq!(out[0].name_tingkat_5, None);
}

#[test]
fn join_preserves_region_order() {
    let regions = vec![
        region("B", 2, "02", 1),
        region("A", 1, "01", 1),
        region("C", 3, "03", 1),
    ];
    let vote = Vote { table: vec![] };
    let out = join_vote(&regions, &vote, None, 1);
    let codes: Vec<&str> = out.iter().map(|r| r.kode.as_str()).collect();
    assert_eq!(codes, vec!["02", "01", "03"]);
}

#[test]
fn empty_region_list_joins_to_empty_output() {
    // An empty region list for a branch is an empty record set, no error.
    let regions: Vec<Region> = vec![];
    let vote = Vote {
        table: vec![("3100".to_string(), count(Some(4), Some(4), Some(4)))],
    };
    let out = join_vote(&regions, &vote, None, 2);
    assert!(out.is_empty());
}

#[test]
fn counts_for_finds_entry_and_zero_fills() {
    let vote = Vote {
        table: vec![
            ("01".to_string(), count(None, Some(2), None)),
            ("02".to_string(), count(Some(7), Some(8), Some(9))),
        ],
    };
    assert_eq!(counts_for(&vote, &"01".to_string()), (0, 2, 0));
    assert_eq!(counts_for(&vote, &"02".to_string()), (7, 8, 9));
    assert_eq!(counts_for(&vote, &"03".to_string()), (0, 0, 0));
}

#[test]
fn join_is_deterministic_on_equal_inputs() {
    // The same region list and tally table always join to the same records.
    let regions = vec![region("A", 1, "11", 2), region("B", 2, "12", 2)];
    let vote = Vote {
        table: vec![("12".to_string(), count(Some(3), None, Some(1)))],
    };
    let first = join_vote(&regions, &vote, None, 2);
    let second = join_vote(&regions, &vote, None, 2);
    assert_eq!(first, second);
}
