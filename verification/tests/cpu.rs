use fastfetch::cpu::{FileTimes, FILETIME};

fn time(high: u32, low: u32) -> FILETIME {
    FILETIME { dwLowDateTime: low, dwHighDateTime: high }
}

fn reading(idle: FILETIME, kernel: FILETIME, user: FILETIME) -> FileTimes {
    FileTimes { idle_time: idle, kernel_time: kernel, user_time: user }
}

#[test]
fn ticks_joins_the_two_words() {
    assert_eq!(time(0, 0).ticks(), 0);
    assert_eq!(time(0, 7).ticks(), 7);
    assert_eq!(time(1, 0).ticks(), 4294967296);
    assert_eq!(time(2, 5).ticks(), 8589934597);
    assert_eq!(time(u32::MAX, u32::MAX).ticks(), u64::MAX);
}

#[test]
fn busy_and_total_against_a_zero_baseline() {
    let zero = reading(time(0, 0), time(0, 0), time(0, 0));
    let now = reading(time(0, 300), time(0, 600), time(0, 400));
    assert_eq!(now.busy_and_total(&zero), Some((700, 1000)));
}

#[test]
fn busy_and_total_takes_the_baseline_word_by_word() {
    let baseline = reading(time(1, 20), time(2, 30), time(3, 40));
    let now = reading(time(0, 500), time(0, 1000), time(0, 2000));
    // total: 1000 + 2000 - 2 - 30 + 3 + 40; idle: 500 - 1 - 20
    assert_eq!(now.busy_and_total(&baseline), Some((3011 - 479, 3011)));
}

#[test]
fn busy_and_total_is_none_where_a_step_leaves_the_range() {
    let zero = reading(time(0, 0), time(0, 0), time(0, 0));
    // kernel and user time together exceed 64 bits
    let huge = reading(time(0, 0), time(u32::MAX, u32::MAX), time(0, 1));
    assert_eq!(huge.busy_and_total(&zero), None);
    // the baseline's kernel words exceed the total
    let small = reading(time(0, 0), time(0, 5), time(0, 0));
    let kernel_high = reading(time(0, 0), time(6, 0), time(0, 100));
    assert_eq!(small.busy_and_total(&kernel_high), None);
    let kernel_low = reading(time(0, 0), time(2, 4), time(0, 100));
    assert_eq!(small.busy_and_total(&kernel_low), None);
    // adding the baseline's user words exceeds 64 bits
    let full = reading(time(0, 0), time(u32::MAX, u32::MAX), time(0, 0));
    let user_high = reading(time(0, 0), time(0, 0), time(1, 0));
    assert_eq!(full.busy_and_total(&user_high), None);
    let user_low = reading(time(0, 0), time(0, 0), time(0, 1));
    assert_eq!(full.busy_and_total(&user_low), None);
    // the baseline's idle words exceed the idle time
    let idle = reading(time(0, 3), time(0, 50), time(0, 50));
    let idle_high = reading(time(4, 0), time(0, 0), time(0, 0));
    assert_eq!(idle.busy_and_total(&idle_high), None);
    let idle_low = reading(time(1, 3), time(0, 0), time(0, 0));
    assert_eq!(idle.busy_and_total(&idle_low), None);
    // more idle time than time in all
    let lazy = reading(time(0, 101), time(0, 50), time(0, 50));
    assert_eq!(lazy.busy_and_total(&zero), None);
    let even = reading(time(0, 100), time(0, 50), time(0, 50));
    assert_eq!(even.busy_and_total(&zero), Some((0, 100)));
}
