use kornetti::scheduler::cron::CronTime;
use kornetti::scheduler::jobs::scheduled_task::ScheduledTaskManager;

fn at(minute: u32, hour: u32, day: u32, month: u32, weekday: u32) -> CronTime {
    CronTime { minute, hour, day, month, weekday }
}

#[test]
fn unparsable_expressions_never_run() {
    assert!(!ScheduledTaskManager::should_run_now("not a cron", "UTC"));
    assert!(!ScheduledTaskManager::should_run_now("* * * *", "UTC"));
    assert!(!ScheduledTaskManager::should_run_now("60 * * * *", "UTC"));
    assert!(!ScheduledTaskManager::matches_time("5-1 * * * *", &at(3, 0, 1, 1, 0)));
}

#[test]
fn every_minute_runs_now_in_known_zones() {
    assert!(ScheduledTaskManager::should_run_now("* * * * *", "UTC"));
    assert!(ScheduledTaskManager::should_run_now("* * * * *", "+02:00"));
    assert!(ScheduledTaskManager::should_run_now("* * * * *", "Europe/Berlin"));
    assert!(!ScheduledTaskManager::should_run_now("* * * * *", "Mars/Olympus"));
}

#[test]
fn fields_lists_ranges_and_steps_match() {
    let e = "30 2 * * 1";
    assert!(ScheduledTaskManager::matches_time(e, &at(30, 2, 15, 6, 1)));
    assert!(!ScheduledTaskManager::matches_time(e, &at(31, 2, 15, 6, 1)));
    assert!(!ScheduledTaskManager::matches_time(e, &at(30, 2, 15, 6, 2)));
    let s = "*/15 9-17 1,15 * *";
    assert!(ScheduledTaskManager::matches_time(s, &at(45, 17, 15, 3, 4)));
    assert!(!ScheduledTaskManager::matches_time(s, &at(50, 17, 15, 3, 4)));
    assert!(!ScheduledTaskManager::matches_time(s, &at(0, 18, 1, 3, 4)));
    assert!(!ScheduledTaskManager::matches_time(s, &at(0, 9, 2, 3, 4)));
    assert!(ScheduledTaskManager::matches_time("0 0 * * 7", &at(0, 0, 5, 1, 0)));
    assert!(ScheduledTaskManager::matches_time("10/20 * * * *", &at(50, 0, 5, 1, 0)));
    assert!(!ScheduledTaskManager::matches_time("10/20 * * * *", &at(0, 0, 5, 1, 0)));
}

#[test]
fn due_time_reads_the_zone_offset() {
    // 2024-01-01T00:00:00Z is a Monday.
    let midnight_utc: i64 = 1_704_067_200_000;
    assert!(ScheduledTaskManager::should_run_at("0 0 1 1 1", "UTC", midnight_utc));
    assert!(ScheduledTaskManager::should_run_at("0 2 1 1 1", "+02:00", midnight_utc));
    assert!(ScheduledTaskManager::should_run_at("30 18 31 12 0", "-05:30", midnight_utc));
    assert!(!ScheduledTaskManager::should_run_at("0 0 1 1 1", "+01:00", midnight_utc));
    // Berlin is an hour ahead in winter and two in summer.
    assert!(ScheduledTaskManager::should_run_at("0 1 1 1 1", "Europe/Berlin", midnight_utc));
    let july_first_noon_utc: i64 = 1_719_835_200_000;
    assert!(ScheduledTaskManager::should_run_at("0 14 1 7 *", "Europe/Berlin", july_first_noon_utc));
    assert!(ScheduledTaskManager::should_run_at("0 8 1 7 *", "America/New_York", july_first_noon_utc));
    assert!(!ScheduledTaskManager::should_run_at("* * * * *", "Mars/Olympus", midnight_utc));
}

#[test]
fn chrono_range_is_the_stated_one() {
    assert_eq!(chrono::DateTime::<chrono::Utc>::MAX_UTC.timestamp_millis(), kornetti::ids::MAX_UTC_MS);
    assert_eq!(chrono::DateTime::<chrono::Utc>::MIN_UTC.timestamp_millis(), kornetti::ids::MIN_UTC_MS);
    assert!(chrono::DateTime::from_timestamp_millis(kornetti::ids::MAX_UTC_MS + 1).is_none());
    assert!(chrono::DateTime::from_timestamp_millis(kornetti::ids::MIN_UTC_MS - 1).is_none());
}
