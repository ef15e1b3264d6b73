use ac_scheduler::clock::{current_date_ymd, current_local_time, local_date_of_secs, local_time_of_secs};

#[test]
fn epoch_seconds_read_as_singapore_date() {
    // 1970-01-01 00:00 UTC is 08:00 local on the same day.
    assert_eq!(local_date_of_secs(0), 19700101);
    // 16:00 UTC is local midnight of the next day.
    assert_eq!(local_date_of_secs(57599), 19700101);
    assert_eq!(local_date_of_secs(57600), 19700102);
    // 2023-11-14 22:13:20 UTC is 2023-11-15 06:13:20 local.
    assert_eq!(local_date_of_secs(1_700_000_000), 20231115);
    // Beyond the calendar's range.
    assert_eq!(local_date_of_secs(u64::MAX), 0);
}

#[test]
fn epoch_seconds_read_as_singapore_time() {
    assert_eq!(local_time_of_secs(0), (8, 0));
    assert_eq!(local_time_of_secs(57599), (23, 59));
    assert_eq!(local_time_of_secs(57600), (0, 0));
    assert_eq!(local_time_of_secs(1_700_000_000), (6, 13));
    assert_eq!(local_time_of_secs(u64::MAX), (((u64::MAX as u128 + 28800) % 86400 / 3600) as u32, ((u64::MAX as u128 + 28800) % 3600 / 60) as u32));
}

#[test]
fn the_clock_reads_a_plausible_local_date_and_time() {
    let d = current_date_ymd();
    assert!(d > 20200101);
    let (h, m) = current_local_time().expect("the clock reads after 1970");
    assert!(h < 24 && m < 60);
}
