use calendarbot::date::Date;
use calendarbot::events::department_names;
use calendarbot::events::module_names;
use calendarbot::events::parse_descriptor;
use calendarbot::events::select_events_on_date;
use calendarbot::events::validate_module_request;
use calendarbot::events::EventMeta;
use calendarbot::events::EventRecord;
use calendarbot::events::EventTime;
use calendarbot::strutil::contains_str;
use calendarbot::strutil::ends_with_str;
use calendarbot::strutil::find_char;
use calendarbot::strutil::str_eq;
use calendarbot::strutil::to_ascii_lowercase;

fn event_on(name: &str, year: u16, month: u8, day: u8) -> EventRecord {
    let date = Date::new(year, month, day).unwrap();
    EventRecord {
        name: name.to_string(),
        location: "BT101".to_string(),
        description: "Test description for event".to_string(),
        start: EventTime::new(date, 8, 15, 0).unwrap(),
        end: EventTime::new(date, 9, 45, 0).unwrap(),
    }
}

#[test]
fn events_are_selected_by_their_start_date() {
    let batch = vec![
        event_on("a", 2025, 6, 1),
        event_on("b", 2025, 6, 2),
        event_on("c", 2025, 6, 1),
        event_on("d", 2025, 7, 1),
    ];
    let out = select_events_on_date(batch, Date::new(2025, 6, 1).unwrap());
    let names: Vec<&str> = out.iter().map(|e| e.name.as_str()).collect();
    assert_eq!(names, vec!["a", "c"]);
}

#[test]
fn per_module_selection_matches_the_full_date() {
    let batch = vec![
        event_on("a", 2025, 6, 1),
        event_on("b", 2025, 7, 1),
        event_on("c", 2025, 6, 2),
    ];
    let out = select_events_on_date(batch, Date::new(2025, 6, 1).unwrap());
    let names: Vec<&str> = out.iter().map(|e| e.name.as_str()).collect();
    assert_eq!(names, vec!["a"]);
}

#[test]
fn descriptors_split_at_the_first_colon() {
    let meta = parse_descriptor("dept-x:module-a").unwrap();
    assert_eq!(
        meta,
        EventMeta {
            department: "dept-x".to_string(),
            module: "module-a".to_string(),
        }
    );

    let twisted = parse_descriptor("a:b:c").unwrap();
    assert_eq!(twisted.department, "a");
    assert_eq!(twisted.module, "b:c");

    assert!(parse_descriptor("no-colon").is_none());
}

#[test]
fn module_requests_demand_names_and_a_known_module() {
    let valid = vec!["analysis-1".to_string(), "physik".to_string()];

    let good = EventMeta {
        department: "mechatronik".to_string(),
        module: "physik".to_string(),
    };
    assert!(validate_module_request(&good, &valid).is_ok());

    let unknown = EventMeta {
        department: "mechatronik".to_string(),
        module: "chemie".to_string(),
    };
    assert_eq!(
        validate_module_request(&unknown, &valid).unwrap_err(),
        "Invalid module 'chemie' for department 'mechatronik'"
    );

    let empty = EventMeta {
        department: "".to_string(),
        module: "physik".to_string(),
    };
    assert_eq!(
        validate_module_request(&empty, &valid).unwrap_err(),
        "Department and module must be specified. Got: department='', module='physik'"
    );
}

#[test]
fn module_listings_keep_visible_json_stems() {
    let files = vec![
        "analysis-1.json".to_string(),
        ".hidden.json".to_string(),
        "README.md".to_string(),
        "physik.json".to_string(),
        "notes".to_string(),
    ];
    let all = module_names(&files, None);
    assert_eq!(all, vec!["analysis-1".to_string(), "physik".to_string()]);

    let filtered = module_names(&files, Some("phys"));
    assert_eq!(filtered, vec!["physik".to_string()]);

    let nothing = module_names(&files, Some("zzz"));
    assert!(nothing.is_empty());
}

#[test]
fn department_listings_drop_hidden_entries() {
    let entries = vec![
        "mechatronik".to_string(),
        ".git".to_string(),
        "informatik".to_string(),
    ];
    assert_eq!(
        department_names(&entries),
        vec!["mechatronik".to_string(), "informatik".to_string()]
    );
}

#[test]
fn string_helpers_behave_on_their_edges() {
    assert!(ends_with_str("module.json", ".json"));
    assert!(!ends_with_str("module.jsonx", ".json"));
    assert!(!ends_with_str("son", ".json"));
    assert!(contains_str("analysis", "aly"));
    assert!(contains_str("analysis", ""));
    assert!(!contains_str("analysis", "lyz"));
    assert_eq!(find_char("a:b:c", ':'), Some(1));
    assert_eq!(find_char("abc", ':'), None);
    assert!(str_eq("gleich", "gleich"));
    assert!(!str_eq("gleich", "ungleich"));
    assert_eq!(to_ascii_lowercase("MeNsA-7"), "mensa-7");
}
