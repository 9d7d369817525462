use calendarbot::cache_paths::app_cache_root;
use calendarbot::cache_paths::dataset_dir;
use calendarbot::cache_paths::event_partition_path;
use calendarbot::cache_paths::marker_path;
use calendarbot::cache_paths::menu_partition_path;
use calendarbot::cache_paths::staleness_now;
use calendarbot::cache_paths::two_digits;
use calendarbot::cache_paths::year4;
use calendarbot::cache_paths::DatasetKind;
use calendarbot::date::days_in_month;
use calendarbot::date::is_leap_year;
use calendarbot::date::Date;

#[test]
fn dates_accept_exactly_the_calendar() {
    assert!(Date::new(2025, 6, 1).is_some());
    assert!(Date::new(2025, 2, 29).is_none());
    assert!(Date::new(2024, 2, 29).is_some());
    assert!(Date::new(1900, 2, 29).is_none());
    assert!(Date::new(2000, 2, 29).is_some());
    assert!(Date::new(2025, 4, 31).is_none());
    assert!(Date::new(2025, 0, 1).is_none());
    assert!(Date::new(2025, 13, 1).is_none());
    assert!(Date::new(2025, 1, 0).is_none());
    assert!(Date::new(0, 1, 1).is_none());
}

#[test]
fn leap_years_follow_the_gregorian_rule() {
    assert!(is_leap_year(2024));
    assert!(!is_leap_year(2025));
    assert!(!is_leap_year(1900));
    assert!(is_leap_year(2000));
    assert_eq!(days_in_month(2024, 2), 29);
    assert_eq!(days_in_month(2025, 2), 28);
    assert_eq!(days_in_month(2025, 4), 30);
    assert_eq!(days_in_month(2025, 12), 31);
}

#[test]
fn successor_rolls_over_months_and_years() {
    let d = Date::new(2025, 6, 1).unwrap();
    assert_eq!(d.succ(), Date::new(2025, 6, 2));

    let month_end = Date::new(2025, 6, 30).unwrap();
    assert_eq!(month_end.succ(), Date::new(2025, 7, 1));

    let year_end = Date::new(2025, 12, 31).unwrap();
    assert_eq!(year_end.succ(), Date::new(2026, 1, 1));

    let leap_day_eve = Date::new(2024, 2, 28).unwrap();
    assert_eq!(leap_day_eve.succ(), Date::new(2024, 2, 29));

    let last = Date::new(9999, 12, 31).unwrap();
    assert_eq!(last.succ(), None);
}

#[test]
fn menu_partition_paths_are_zero_padded() {
    let d = Date::new(2022, 2, 2).unwrap();
    assert_eq!(
        menu_partition_path("Cafe Mittelweg", &d),
        "Cafe Mittelweg/2022/02/02.json"
    );
    let d2 = Date::new(2025, 12, 31).unwrap();
    assert_eq!(menu_partition_path("Mensa", &d2), "Mensa/2025/12/31.json");
}

#[test]
fn event_partition_paths_join_department_and_module() {
    assert_eq!(
        event_partition_path("mechatronik", "analysis-1"),
        "mechatronik/analysis-1.json"
    );
}

#[test]
fn digit_rendering_pads_to_width() {
    assert_eq!(two_digits(2), "02");
    assert_eq!(two_digits(31), "31");
    assert_eq!(year4(33), "0033");
    assert_eq!(year4(2025), "2025");
}

#[test]
fn dataset_directories_and_markers_sit_under_the_cache_root() {
    let menu = dataset_dir("/home/u/.cache/calendarbot", DatasetKind::MenuData);
    assert_eq!(menu, "/home/u/.cache/calendarbot/mensadata");
    let events = dataset_dir("/home/u/.cache/calendarbot", DatasetKind::EventData);
    assert_eq!(events, "/home/u/.cache/calendarbot/eventdata");
    assert_eq!(
        marker_path(&menu),
        "/home/u/.cache/calendarbot/mensadata/timestamp"
    );
}

#[test]
fn the_cache_root_carries_the_application_directory() {
    if let Some(root) = app_cache_root() {
        assert!(root.ends_with("/calendarbot"));
        assert!(root.len() > "/calendarbot".len());
    }
}

#[test]
fn clock_readings_agree_with_the_policy() {
    let (_, absent) = staleness_now(None);
    assert!(absent);
    let (now, judged) = staleness_now(Some(0));
    assert_eq!(judged, (now as i128) - 0 > 86400);
    let (now2, fresh) = staleness_now(Some(now));
    assert_eq!(fresh, (now2 as i128) - (now as i128) > 86400);
}
