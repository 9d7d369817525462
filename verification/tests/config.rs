use calendarbot::config::json_file_from_struct;
use calendarbot::config::pick_mensa_name;
use calendarbot::config::strip_leading_null;
use calendarbot::config::Config;
use calendarbot::config::ConfigName;
use calendarbot::extras::Extras;
use calendarbot::extras::Occupations;

#[test]
fn new_configuration_starts_empty() {
    let c = Config::new();
    assert_eq!(c.primary_mensa.as_deref(), Some(""));
    assert_eq!(c.mensa_list, Some(Vec::new()));
    assert!(c.occupation.is_none());
    assert_eq!(c.extras, Some(Vec::new()));
    assert_eq!(c.events, Some(Vec::new()));
    assert_eq!(c.vusername.as_deref(), Some(""));
    assert_eq!(c.vpassword.as_deref(), Some(""));
}

#[test]
fn primary_mensa_updates_and_reads_back() {
    let mut c = Config::new();
    c.update_primary_mensa("Berliner Tor".to_string());
    assert_eq!(c.get_primary_mensa().as_deref(), Some("Berliner Tor"));
}

#[test]
fn mensa_list_grows_and_shrinks_by_name() {
    let mut c = Config::new();
    c.update_mensa_list("A".to_string());
    c.update_mensa_list("B".to_string());
    c.update_mensa_list("A".to_string());
    assert_eq!(
        c.get_mensa_list(),
        Some(&vec!["A".to_string(), "B".to_string(), "A".to_string()])
    );
    c.remove_mensa("A".to_string());
    assert_eq!(c.get_mensa_list(), Some(&vec!["B".to_string()]));
}

#[test]
fn occupation_updates_and_reads_back() {
    let mut c = Config::new();
    assert!(c.get_occupation().is_none());
    c.update_occupation(Occupations::Employee);
    assert_eq!(c.get_occupation(), Some(&Occupations::Employee));
}

#[test]
fn extras_grow_and_shrink_by_predicate() {
    let mut c = Config::new();
    c.add_extra(Extras::Vegan);
    c.add_extra(Extras::Fish);
    c.add_extra(Extras::Vegan);
    assert_eq!(
        c.get_extras(),
        Some(&vec![Extras::Vegan, Extras::Fish, Extras::Vegan])
    );
    c.remove_extra(Extras::Vegan);
    assert_eq!(c.get_extras(), Some(&vec![Extras::Fish]));
}

#[test]
fn credentials_update_and_read_back() {
    let mut c = Config::new();
    c.update_username("vabc123".to_string());
    c.update_password("secret".to_string());
    assert_eq!(c.get_username().as_deref(), Some("vabc123"));
    assert_eq!(c.get_password().as_deref(), Some("secret"));
}

#[test]
fn add_module_stores_the_descriptor_once() {
    let mut c = Config::new();
    assert!(c.add_module("module-a", "dept-x").is_ok());
    assert_eq!(c.get_events(), Some(&vec!["dept-x:module-a".to_string()]));

    let again = c.add_module("module-a", "dept-x");
    assert_eq!(
        again.unwrap_err(),
        "Module 'module-a' in department 'dept-x' already exists."
    );
    assert_eq!(c.get_events(), Some(&vec!["dept-x:module-a".to_string()]));
}

#[test]
fn remove_module_requires_the_descriptor_to_exist() {
    let mut c = Config::new();
    let missing = c.remove_module("module-a", "dept-x");
    assert_eq!(
        missing.unwrap_err(),
        "Module 'module-a' in department 'dept-x' does not exist."
    );

    assert!(c.add_module("module-a", "dept-x").is_ok());
    assert!(c.add_module("module-b", "dept-x").is_ok());
    assert!(c.remove_module("module-a", "dept-x").is_ok());
    assert_eq!(c.get_events(), Some(&vec!["dept-x:module-b".to_string()]));
}

#[test]
fn uninitialised_event_list_rejects_module_changes() {
    let mut c = Config {
        primary_mensa: None,
        mensa_list: None,
        occupation: None,
        extras: None,
        events: None,
        vusername: None,
        vpassword: None,
    };
    assert_eq!(
        c.add_module("m", "d").unwrap_err(),
        "Events list is not initialized."
    );
    assert_eq!(
        c.remove_module("m", "d").unwrap_err(),
        "Events list is not initialized."
    );
}

#[test]
fn picking_without_number_uses_the_primary_mensa() {
    let mut c = Config::new();
    c.update_primary_mensa("Berliner Tor".to_string());
    assert_eq!(pick_mensa_name(&c, None).unwrap(), "Berliner Tor");

    let unset = Config {
        primary_mensa: None,
        ..Config::new()
    };
    assert_eq!(
        pick_mensa_name(&unset, None).unwrap_err(),
        "Primary Mensa is not set - please set it in the config"
    );
}

#[test]
fn picking_by_number_indexes_the_list_one_based() {
    let mut c = Config::new();
    c.update_mensa_list("First".to_string());
    c.update_mensa_list("Second".to_string());
    assert_eq!(pick_mensa_name(&c, Some(1)).unwrap(), "First");
    assert_eq!(pick_mensa_name(&c, Some(2)).unwrap(), "Second");
    assert_eq!(
        pick_mensa_name(&c, Some(0)).unwrap_err(),
        "Invalid mensa number specified."
    );
    assert_eq!(
        pick_mensa_name(&c, Some(3)).unwrap_err(),
        "Invalid mensa number specified."
    );

    let none = Config {
        mensa_list: None,
        ..Config::new()
    };
    assert_eq!(
        pick_mensa_name(&none, Some(1)).unwrap_err(),
        "No additional mensas configured."
    );
}

#[test]
fn strip_leading_null_removes_exactly_one_leading_nul() {
    assert_eq!(strip_leading_null("\0abc"), "abc");
    assert_eq!(strip_leading_null("abc"), "abc");
    assert_eq!(strip_leading_null(""), "");
    assert_eq!(strip_leading_null("\0\0a"), "\0a");
    assert_eq!(strip_leading_null("a\0b"), "a\0b");
}

#[test]
fn config_field_names_spell_their_file_keys() {
    assert_eq!(ConfigName::primary_mensa.as_str(), "primary_mensa");
    assert_eq!(ConfigName::mensa_list.as_str(), "mensa_list");
    assert_eq!(ConfigName::occupation.as_str(), "occupation");
    assert_eq!(ConfigName::extras.as_str(), "extras");
    assert_eq!(ConfigName::events.as_str(), "events");
    assert_eq!(ConfigName::vusername.as_str(), "vusername");
    assert_eq!(ConfigName::vpassword.as_str(), "vpassword");
}

#[test]
fn extra_names_round_trip_when_their_spelling_matches() {
    assert_eq!(Extras::from_str("vegan"), Extras::Vegan);
    assert_eq!(Extras::from_str("Vegan"), Extras::Vegan);
    assert_eq!(Extras::from_str("vegetarian"), Extras::Vegetarian);
    assert_eq!(Extras::from_str("lactosefree"), Extras::LactoseFree);
    assert_eq!(Extras::from_str("beeffree"), Extras::BeefFree);
    assert_eq!(Extras::from_str("fish"), Extras::Fish);
    assert_eq!(Extras::from_str("gelatinefree"), Extras::GelatineFree);
    assert_eq!(Extras::from_str("lambfree"), Extras::LambFree);
    assert_eq!(Extras::from_str("pigfree"), Extras::PigFree);
    assert_eq!(Extras::from_str("poultryfree"), Extras::PoultryFree);
    assert_eq!(Extras::from_str("somethingelse"), Extras::Unknown);
    assert_eq!(Extras::from_str("LactoseFree"), Extras::LactoseFree);
    assert_eq!(Extras::Vegan.as_str(), "Vegan");
    assert_eq!(Extras::BeefFree.as_str(), "Beeffree");
    assert_eq!(Extras::LactoseFree.as_str(), "LactoseFree");
}

#[test]
fn every_stored_predicate_spelling_reads_back_as_itself() {
    let all = [
        Extras::Vegan,
        Extras::Vegetarian,
        Extras::LactoseFree,
        Extras::Alcohol,
        Extras::BeefFree,
        Extras::Fish,
        Extras::GelatineFree,
        Extras::LambFree,
        Extras::PigFree,
        Extras::PoultryFree,
        Extras::Unknown,
    ];
    for e in all {
        assert_eq!(Extras::from_str(e.as_str()), e);
    }
}

#[test]
fn capitalize_first_upper_cases_only_the_first_ascii_letter() {
    assert_eq!(Extras::capitalize_first("vegan"), "Vegan");
    assert_eq!(Extras::capitalize_first("Vegan"), "Vegan");
    assert_eq!(Extras::capitalize_first(""), "");
    assert_eq!(Extras::capitalize_first("1abc"), "1abc");
}

#[test]
fn occupation_names_round_trip_ignoring_case() {
    assert_eq!(Occupations::from_str("student"), Some(Occupations::Student));
    assert_eq!(Occupations::from_str("STUDENT"), Some(Occupations::Student));
    assert_eq!(Occupations::from_str("Employee"), Some(Occupations::Employee));
    assert_eq!(Occupations::from_str("guest"), Some(Occupations::Guest));
    assert_eq!(Occupations::from_str("pupil"), None);
    assert_eq!(Occupations::Student.as_str(), "student");
    assert_eq!(Occupations::Employee.as_str(), "employee");
    assert_eq!(Occupations::Guest.as_str(), "guest");
}

#[test]
fn rendered_configuration_has_the_documented_layout() {
    let mut c = Config::new();
    c.update_primary_mensa("Berliner Tor".to_string());
    c.update_mensa_list("A".to_string());
    c.update_mensa_list("B".to_string());
    c.update_occupation(Occupations::Student);
    c.add_extra(Extras::Vegan);
    c.add_extra(Extras::BeefFree);
    c.add_module("module-a", "dept-x").unwrap();
    c.update_username("user".to_string());
    c.update_password("pw".to_string());

    let text = json_file_from_struct(&c);
    assert_eq!(
        text,
        "{ \n   \"primary_mensa\": \"Berliner Tor\",\n   \"mensa_list\": [\"A\", \"B\"],\n   \"occupation\": \"Student\",\n   \"extras\": [\"Vegan\", \"Beeffree\"],\n   \"events\": [\"dept-x:module-a\"],\n   \"vusername\": \"user\",\n   \"vpassword\": \"pw\"\n}"
    );
}

#[test]
fn rendered_configuration_parses_back_as_json() {
    let mut c = Config::new();
    c.update_primary_mensa("Berliner Tor".to_string());
    c.update_occupation(Occupations::Guest);
    c.add_extra(Extras::LactoseFree);

    let text = json_file_from_struct(&c);
    let value: serde_json::Value = serde_json::from_str(&text).unwrap();
    assert_eq!(value["primary_mensa"], "Berliner Tor");
    assert_eq!(value["occupation"], "Guest");
    assert_eq!(value["extras"][0], "LactoseFree");
    assert_eq!(value["mensa_list"].as_array().unwrap().len(), 0);
    assert_eq!(value["vusername"], "");
}

#[test]
fn rendered_configuration_writes_null_for_absent_fields() {
    let c = Config {
        primary_mensa: None,
        mensa_list: None,
        occupation: None,
        extras: None,
        events: None,
        vusername: None,
        vpassword: None,
    };
    let text = json_file_from_struct(&c);
    assert!(text.contains("\"primary_mensa\": null"));
    assert!(text.contains("\"mensa_list\": null"));
    assert!(text.contains("\"occupation\": null"));
    assert!(text.contains("\"extras\": null"));
    assert!(text.contains("\"events\": null"));
    assert!(text.contains("\"vpassword\": null"));

    // even a configuration with every field absent stays valid JSON,
    // so reading it back cannot silently discard the file
    let value: serde_json::Value = serde_json::from_str(&text).unwrap();
    assert!(value["mensa_list"].is_null());
}
