use vcfbub::classify::{classify, Classification, Verdict};
use vcfbub::popped::PoppedSet;
use vcfbub::record::Record;
use vcfbub::thresholds::Thresholds;

fn site(id: &str, parent: &str, level: i32, ref_length: usize, max_allele_length: usize) -> Record {
    Record {
        id: String::from(id),
        parent_id: String::from(parent),
        level,
        ref_length,
        max_allele_length,
    }
}

fn bounds(max_level: Option<i32>, max_ref_length: Option<usize>) -> Thresholds {
    Thresholds { max_level, max_ref_length, ..Thresholds::unbounded() }
}

#[test]
fn new_popped_set_is_empty() {
    let popped = PoppedSet::new();
    assert!(popped.is_empty());
    assert_eq!(popped.len(), 0);
    assert!(!popped.contains("s1"));
    assert!(!popped.contains(""));
}

#[test]
fn popped_set_remembers_what_was_inserted() {
    let mut popped = PoppedSet::new();
    assert!(popped.insert(String::from("s1")));
    assert!(popped.contains("s1"));
    assert!(!popped.contains("s2"));
    assert!(!popped.is_empty());
    assert_eq!(popped.len(), 1);
}

#[test]
fn popped_set_holds_an_id_once() {
    let mut popped = PoppedSet::new();
    assert!(popped.insert(String::from("s1")));
    assert!(!popped.insert(String::from("s1")));
    assert!(popped.insert(String::from("s2")));
    assert_eq!(popped.len(), 2);
}

#[test]
fn new_classification_is_empty() {
    let c = Classification::new();
    assert!(c.keep.is_empty());
    assert!(c.popped.is_empty());
}

#[test]
fn record_within_all_bounds_is_kept() {
    let mut c = Classification::new();
    let t = bounds(Some(1), Some(40));
    assert_eq!(c.observe(&site("s1", "", 1, 40, 60), &t), Verdict::Kept);
    assert_eq!(c.keep, vec![true]);
    assert!(c.popped.is_empty());
}

#[test]
fn record_too_deep_is_dropped_but_not_popped() {
    let mut c = Classification::new();
    let t = bounds(Some(0), Some(40));
    assert_eq!(c.observe(&site("s2", "s1", 1, 5, 5), &t), Verdict::TooDeep);
    assert_eq!(c.keep, vec![false]);
    assert!(!c.popped.contains("s2"));
    assert!(c.popped.is_empty());
}

#[test]
fn record_too_long_is_popped() {
    let mut c = Classification::new();
    let t = bounds(None, Some(40));
    assert_eq!(c.observe(&site("s1", "", 0, 50, 60), &t), Verdict::Popped);
    assert_eq!(c.keep, vec![false]);
    assert!(c.popped.contains("s1"));
    assert_eq!(c.popped.len(), 1);
}

#[test]
fn record_too_deep_and_too_long_is_popped() {
    let mut c = Classification::new();
    let t = bounds(Some(0), Some(40));
    assert_eq!(c.observe(&site("s3", "s1", 1, 45, 45), &t), Verdict::Popped);
    assert_eq!(c.keep, vec![false]);
    assert!(c.popped.contains("s3"));
}

#[test]
fn each_size_bound_pops() {
    let r = site("s", "", 0, 10, 20);
    let too_long = Thresholds { max_allele_length: Some(19), ..Thresholds::unbounded() };
    let too_short = Thresholds { min_allele_length: Some(21), ..Thresholds::unbounded() };
    let ref_too_long = Thresholds { max_ref_length: Some(9), ..Thresholds::unbounded() };
    let ref_too_short = Thresholds { min_ref_length: Some(11), ..Thresholds::unbounded() };
    for t in [too_long, too_short, ref_too_long, ref_too_short] {
        let mut c = Classification::new();
        assert_eq!(c.observe(&r, &t), Verdict::Popped);
        assert!(c.popped.contains("s"));
    }
}

#[test]
fn size_bounds_are_inclusive_when_classifying() {
    let r = site("s", "", 0, 10, 20);
    let exact = Thresholds {
        max_level: Some(0),
        max_allele_length: Some(20),
        min_allele_length: Some(20),
        max_ref_length: Some(10),
        min_ref_length: Some(10),
    };
    let mut c = Classification::new();
    assert_eq!(c.observe(&r, &exact), Verdict::Kept);
    assert!(c.popped.is_empty());
}

#[test]
fn flags_follow_the_order_of_the_stream() {
    let t = bounds(Some(0), Some(40));
    let mut c = Classification::new();
    c.observe(&site("a", "", 0, 1, 1), &t);
    c.observe(&site("b", "a", 1, 1, 1), &t);
    c.observe(&site("c", "", 0, 41, 41), &t);
    c.observe(&site("d", "", 0, 40, 40), &t);
    assert_eq!(c.keep, vec![true, false, false, true]);
    assert_eq!(c.popped.len(), 1);
    assert!(c.popped.contains("c"));
}

#[test]
fn classify_of_the_empty_stream() {
    let c = classify(&Vec::new(), &bounds(Some(0), Some(1)));
    assert!(c.keep.is_empty());
    assert!(c.popped.is_empty());
}

#[test]
fn classify_gives_one_flag_per_record() {
    let records = vec![
        site("a", "", 0, 1, 1),
        site("b", "a", 1, 1, 1),
        site("c", "", 0, 41, 41),
        site("d", "c", 1, 40, 40),
        site("e", "c", 2, 50, 50),
    ];
    let c = classify(&records, &bounds(Some(0), Some(40)));
    assert_eq!(c.keep, vec![true, false, false, false, false]);
    assert_eq!(c.popped.len(), 2);
    assert!(c.popped.contains("c"));
    assert!(c.popped.contains("e"));
    assert!(!c.popped.contains("b"));
    assert!(!c.popped.contains("d"));
}

#[test]
fn classify_agrees_with_observing_one_by_one() {
    let records = vec![
        site("a", "", 0, 10, 12),
        site("b", "a", 1, 3, 3),
        site("c", "a", 1, 30, 30),
        site("d", "c", 2, 2, 25),
    ];
    let t = Thresholds {
        max_level: Some(1),
        max_allele_length: Some(24),
        min_allele_length: None,
        max_ref_length: None,
        min_ref_length: Some(3),
    };
    let whole = classify(&records, &t);
    let mut stepwise = Classification::new();
    for r in &records {
        stepwise.observe(r, &t);
    }
    assert_eq!(whole.keep, stepwise.keep);
    assert_eq!(whole.keep, vec![true, true, false, false]);
    for r in &records {
        assert_eq!(whole.popped.contains(&r.id), stepwise.popped.contains(&r.id));
    }
    assert_eq!(whole.popped.len(), 2);
}

#[test]
fn depth_alone_never_pops() {
    let records = vec![
        site("a", "", 0, 1, 1),
        site("b", "a", 5, 1, 1),
        site("c", "b", 9, 1, 1),
    ];
    let c = classify(&records, &bounds(Some(0), Some(1)));
    assert_eq!(c.keep, vec![true, false, false]);
    assert!(c.popped.is_empty());
}

#[test]
fn records_sharing_an_id_are_popped_together() {
    let records = vec![site(".", "", 0, 1, 1), site(".", "", 0, 9, 9)];
    let c = classify(&records, &bounds(None, Some(5)));
    assert_eq!(c.keep, vec![true, false]);
    assert!(c.popped.contains("."));
    assert_eq!(c.popped.len(), 1);
}

#[test]
fn unbounded_thresholds_keep_every_record() {
    let records = vec![
        site("a", "", 0, 1, 1),
        site("b", "a", 40, 1_000_000, 2_000_000),
        site("c", "b", i32::MAX, usize::MAX, usize::MAX),
    ];
    let c = classify(&records, &Thresholds::unbounded());
    assert_eq!(c.keep, vec![true, true, true]);
    assert!(c.popped.is_empty());
}
