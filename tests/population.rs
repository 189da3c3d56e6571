use double_pendulum::population::{step_member, tick};

#[test]
fn stepping_one_member_leaves_the_others() {
    let mut members: Vec<(f64, f64)> = vec![(1.0, 2.0), (3.0, 4.0), (5.0, 6.0)];
    step_member(&mut members, 1, &|m: &(f64, f64)| (m.0 + 0.5, m.1 * 2.0));
    assert_eq!(members, vec![(1.0, 2.0), (3.5, 8.0), (5.0, 6.0)]);
}

#[test]
fn stepping_last_member() {
    let mut members: Vec<u64> = vec![10, 20];
    step_member(&mut members, 1, &|m: &u64| m + 1);
    assert_eq!(members, vec![10, 21]);
}

#[test]
fn tick_steps_every_member_and_reads_positions() {
    let mut members: Vec<u64> = vec![1, 2, 3];
    let positions = tick(&mut members, &|m: &u64| m * 10, &|m: &u64| (*m, m + 1));
    assert_eq!(members, vec![10, 20, 30]);
    assert_eq!(positions, vec![(10, 11), (20, 21), (30, 31)]);
}

#[test]
fn tick_on_empty_population() {
    let mut members: Vec<u64> = Vec::new();
    let positions = tick(&mut members, &|m: &u64| m + 1, &|m: &u64| *m);
    assert!(members.is_empty());
    assert!(positions.is_empty());
}

#[test]
fn repeated_ticks_from_equal_populations_agree() {
    let step = |m: &(f64, f64)| (m.0 + 0.01 * m.1, m.1 - 0.01 * 9.81 * m.0.sin());
    let mut a: Vec<(f64, f64)> = vec![(1.5, 0.0), (0.0, 0.0), (-0.3, 2.0)];
    let mut b = a.clone();
    for _ in 0..100 {
        tick(&mut a, &step, &|m: &(f64, f64)| m.0);
        tick(&mut b, &step, &|m: &(f64, f64)| m.0);
    }
    assert_eq!(a, b);
    assert_eq!(a[1], (0.0, 0.0));
}
