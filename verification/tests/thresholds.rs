use vcfbub::thresholds::Thresholds;

fn only_max_level(max: i32) -> Thresholds {
    Thresholds { max_level: Some(max), ..Thresholds::unbounded() }
}

#[test]
fn unbounded_thresholds_set_no_bound() {
    let t = Thresholds::unbounded();
    assert_eq!(t.max_level, None);
    assert_eq!(t.max_allele_length, None);
    assert_eq!(t.min_allele_length, None);
    assert_eq!(t.max_ref_length, None);
    assert_eq!(t.min_ref_length, None);
}

#[test]
fn default_thresholds_are_unbounded() {
    assert_eq!(Thresholds::default(), Thresholds::unbounded());
}

#[test]
fn unbounded_thresholds_admit_every_level() {
    let t = Thresholds::unbounded();
    assert!(t.level_ok(0));
    assert!(t.level_ok(7));
    assert!(t.level_ok(i32::MAX));
}

#[test]
fn unbounded_thresholds_admit_every_size() {
    let t = Thresholds::unbounded();
    assert!(t.size_ok(1, 1));
    assert!(t.size_ok(usize::MAX, 1));
    assert!(t.size_ok(usize::MAX, usize::MAX));
}

#[test]
fn level_bound_is_inclusive() {
    let t = only_max_level(2);
    assert!(t.level_ok(0));
    assert!(t.level_ok(2));
    assert!(!t.level_ok(3));
}

#[test]
fn level_bound_of_zero_keeps_only_the_root_level() {
    let t = only_max_level(0);
    assert!(t.level_ok(0));
    assert!(!t.level_ok(1));
}

#[test]
fn level_bound_does_not_touch_sizes() {
    let t = only_max_level(0);
    assert!(t.size_ok(1_000_000, 1_000_000));
}

#[test]
fn max_allele_length_is_inclusive() {
    let t = Thresholds { max_allele_length: Some(10), ..Thresholds::unbounded() };
    assert!(t.size_ok(10, 1));
    assert!(!t.size_ok(11, 1));
}

#[test]
fn min_allele_length_is_inclusive() {
    let t = Thresholds { min_allele_length: Some(10), ..Thresholds::unbounded() };
    assert!(t.size_ok(10, 1));
    assert!(!t.size_ok(9, 1));
}

#[test]
fn max_ref_length_is_inclusive() {
    let t = Thresholds { max_ref_length: Some(40), ..Thresholds::unbounded() };
    assert!(t.size_ok(60, 40));
    assert!(!t.size_ok(60, 41));
}

#[test]
fn min_ref_length_is_inclusive() {
    let t = Thresholds { min_ref_length: Some(3), ..Thresholds::unbounded() };
    assert!(t.size_ok(60, 3));
    assert!(!t.size_ok(60, 2));
}

#[test]
fn all_size_bounds_must_hold_together() {
    let t = Thresholds {
        max_level: None,
        max_allele_length: Some(100),
        min_allele_length: Some(10),
        max_ref_length: Some(50),
        min_ref_length: Some(5),
    };
    assert!(t.size_ok(10, 5));
    assert!(t.size_ok(100, 50));
    assert!(!t.size_ok(101, 50));
    assert!(!t.size_ok(9, 5));
    assert!(!t.size_ok(100, 51));
    assert!(!t.size_ok(10, 4));
}

#[test]
fn size_bounds_do_not_touch_levels() {
    let t = Thresholds { max_ref_length: Some(1), ..Thresholds::unbounded() };
    assert!(t.level_ok(1000));
}
