use registration_relay::backoff::{BackoffPolicy, Episode, NANOS_PER_SEC};
use registration_relay::relay::RelayResource;

fn delays_in_secs(max_delay_secs: u64, max_times: usize, count: usize) -> Vec<Option<u128>> {
    let mut episode = Episode::begin(BackoffPolicy { max_delay_secs, max_times });
    (0..count).map(|_| episode.next_delay().map(|nanos| nanos / NANOS_PER_SEC)).collect()
}

#[test]
fn the_relay_policy_doubles_to_thirty_seconds() {
    let policy = RelayResource::backoff();
    assert_eq!(policy, BackoffPolicy { max_delay_secs: 30, max_times: usize::MAX });
    let mut episode = Episode::begin(policy);
    let mut seen = Vec::new();
    for _ in 0..10 {
        seen.push(episode.next_delay().unwrap());
    }
    let expected: Vec<u128> =
        [1u128, 2, 4, 8, 16, 30, 30, 30, 30, 30].iter().map(|s| s * NANOS_PER_SEC).collect();
    assert_eq!(seen, expected);
    assert_eq!(episode.delays_taken(), 10);
    assert_eq!(episode.backoff_policy(), policy);
}

#[test]
fn delays_are_strictly_increasing_below_the_cap() {
    let delays = delays_in_secs(1_000, 20, 20);
    for pair in delays.windows(2) {
        let (earlier, later) = (pair[0].unwrap(), pair[1].unwrap());
        assert!(later <= 1_000);
        if earlier < 1_000 {
            assert!(earlier < later);
        } else {
            assert_eq!(later, 1_000);
        }
    }
    assert_eq!(delays[9], Some(512));
    assert_eq!(delays[10], Some(1_000));
}

#[test]
fn an_episode_ends_when_the_policy_says_so() {
    assert_eq!(delays_in_secs(60, 3, 5), vec![Some(1), Some(2), Some(4), None, None]);
    assert_eq!(delays_in_secs(60, 0, 2), vec![None, None]);
    let mut episode = Episode::begin(BackoffPolicy { max_delay_secs: 60, max_times: 1 });
    assert_eq!(episode.next_delay(), Some(NANOS_PER_SEC));
    assert_eq!(episode.delays_taken(), 1);
    assert_eq!(episode.next_delay(), None);
    assert_eq!(episode.delays_taken(), 1);
}

#[test]
fn a_cap_that_is_a_power_of_two_is_reached_and_kept() {
    assert_eq!(delays_in_secs(4, 6, 6), vec![Some(1), Some(2), Some(4), Some(4), Some(4), Some(4)]);
    assert_eq!(delays_in_secs(2, 4, 4), vec![Some(1), Some(2), Some(2), Some(2)]);
}

#[test]
fn a_cap_of_one_second_keeps_every_delay_at_one() {
    assert_eq!(delays_in_secs(1, 4, 4), vec![Some(1), Some(1), Some(1), Some(1)]);
}

#[test]
fn the_first_delay_is_one_second_even_under_a_cap_of_zero() {
    assert_eq!(delays_in_secs(0, 4, 4), vec![Some(1), Some(0), Some(0), Some(0)]);
}

#[test]
fn a_huge_cap_is_reached_without_overflow() {
    let delays = delays_in_secs(u64::MAX, 70, 70);
    for (index, delay) in delays.iter().enumerate() {
        let expected = if index < 64 { 1u128 << index } else { u64::MAX as u128 };
        assert_eq!(*delay, Some(expected), "delay {index}");
    }
}

#[test]
fn a_cap_just_above_a_large_power_of_two_is_exact() {
    let cap = (1u64 << 40) + 12_345;
    let delays = delays_in_secs(cap, 45, 45);
    assert_eq!(delays[40], Some(1u128 << 40));
    assert_eq!(delays[41], Some(cap as u128));
    assert_eq!(delays[44], Some(cap as u128));
}

#[test]
fn every_schedule_is_one_second_then_doubling_under_its_cap() {
    let caps = [
        1u64, 2, 3, 5, 7, 29, 30, 31, 32, 33, 59, 60, 100, 127, 128, 129, 1_000, 65_535, 65_536,
        86_400, 4_294_967_295, 4_294_967_296, 4_294_967_297, 1 << 62, (1 << 62) + 1, (1 << 63) - 1,
        1 << 63, (1 << 63) + 1, u64::MAX - 1, u64::MAX,
    ];
    for cap in caps {
        let delays = delays_in_secs(cap, 70, 70);
        for (index, delay) in delays.iter().enumerate() {
            let doubled = if index < 64 { 1u128 << index } else { u128::MAX };
            let expected = if index == 0 { 1 } else { doubled.min(cap as u128) };
            assert_eq!(*delay, Some(expected), "cap {cap}, delay {index}");
        }
    }
}

#[test]
fn delays_come_in_whole_seconds() {
    let mut episode = Episode::begin(BackoffPolicy { max_delay_secs: 1_000_000, max_times: 30 });
    while let Some(nanos) = episode.next_delay() {
        assert_eq!(nanos % NANOS_PER_SEC, 0);
    }
    assert_eq!(episode.delays_taken(), 30);
}
