use vesting::calculator::total_vested;
use vesting::schedule::VestingSchedule;

// Window = 10 seconds.
// Period count = 2.
// =>
// Every 5 seconds 2.5 is vested.
#[test]
fn vesting_window_evenly_divisible_by_period_count() {
    let v = create_vesting(5, 10, 20, 2);
    let cases = vec![
        [0, 0], // Before vesting begins.
        [9, 0],
        [10, 0], // Vesting begins.
        [11, 0],
        [12, 0],
        [13, 0],
        [14, 0],
        [15, 2], // 2.5 is vested (floor).
        [16, 2],
        [17, 2],
        [18, 2],
        [19, 2],
        [20, 5], // All vested.
        [21, 5],
    ];
    run_test(v, cases);
}

// Window = 11 seconds.
// Period count = 2.
// =>
// Every 5.5 seconds 2.5 is vested.
#[test]
fn vesting_window_not_evenly_divisble_by_period_count() {
    let v = create_vesting(5, 10, 21, 2);
    let cases = vec![
        [10, 0], // Vesting begins.
        [11, 0],
        [12, 0],
        [13, 0],
        [14, 0],
        [15, 0],
        [16, 2], // 2.5 vested.
        [17, 2],
        [18, 2],
        [19, 2],
        [20, 2],
        [21, 5], // All vested.
        [22, 5],
    ];
    run_test(v, cases);
}

// Winow = 11 seconds.
// Period_count = 6.
// =>
// Every 1.83 seconds about 16.67 is vested.
#[test]
fn cumulative_remainder() {
    let v = create_vesting(100, 30, 41, 6);
    let cases = vec![
        [30, 0], // Vesting begins.
        [31, 0],
        [32, 16], // 16.67 @ 1.83 seconds.
        [33, 16],
        [34, 33], // 33.34 @ 3.66 seconds.
        [35, 33],
        [36, 50], // 50.01 @ 5.49 seconds.
        [37, 50],
        [38, 66], // 66.68 @ 7.32 seconds.
        [39, 66],
        [40, 83],  // 83.35 @ 9.15 seconds.
        [41, 100], // 100 @ 11 seconds.
    ];
    run_test(v, cases);
}

// A window of zero length is fully vested the moment it starts.
#[test]
fn degenerate_window_fully_vests_at_start() {
    let v = create_vesting(7, 5, 5, 1);
    assert_eq!(total_vested(&v, 4), 0);
    assert_eq!(total_vested(&v, 5), 7);
    assert_eq!(total_vested(&v, 6), 7);
}

// A single period releases everything at once, at the end of the window.
#[test]
fn single_period_vests_all_at_end() {
    let v = create_vesting(9, 0, 10, 1);
    let mut t: i64 = -3;
    while t < 10 {
        assert_eq!(total_vested(&v, t), 0);
        t += 1;
    }
    assert_eq!(total_vested(&v, 10), 9);
}

// Sweeping a whole window: the vested amount never decreases and never
// exceeds the original grant.
#[test]
fn vested_is_monotone_and_bounded() {
    let v = create_vesting(100, 30, 41, 6);
    let mut previous: u64 = 0;
    let mut t: i64 = 20;
    while t <= 50 {
        let r: u64 = total_vested(&v, t);
        assert!(r >= previous);
        assert!(r <= 100);
        previous = r;
        t += 1;
    }
    assert_eq!(previous, 100);
}

// Between two period boundaries the vested amount is constant: vesting
// releases only at boundaries, with no continuous accrual in between.
#[test]
fn vested_is_constant_between_boundaries() {
    let v = create_vesting(5, 10, 20, 2);
    let mut t: i64 = 15;
    while t <= 19 {
        assert_eq!(total_vested(&v, t), 2);
        t += 1;
    }
}

// Each case is an array consisting of [current_ts, expected_total_vested].
fn run_test(v: VestingSchedule, cases: Vec<[u64; 2]>) {
    for c in cases.iter() {
        println!("Case: {:?}", c);
        let r: u64 = total_vested(&v, c[0] as i64);
        assert_eq!(r, c[1])
    }
}

fn create_vesting(start_balance: u64, start_ts: i64, end_ts: i64, period_count: u64) -> VestingSchedule {
    VestingSchedule {
        start_balance,
        outstanding: 0,
        whitelist_owned: 0,
        start_ts,
        end_ts,
        period_count,
    }
}
