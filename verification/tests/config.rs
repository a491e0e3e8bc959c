use robots_consumer::config::{Configuration, DelaySetting, DEFAULT_DELAY, DELAY_KEY, TARGETS_KEY};
use robots_consumer::error::StartupError;

fn texts(values: &[&str]) -> Vec<String> {
    values.iter().map(|value| String::from(*value)).collect()
}

fn load(content: &str) -> Result<Configuration, StartupError> {
    Configuration::load(Some(String::from(content)))
}

fn loaded(content: &str) -> Configuration {
    match load(content) {
        Ok(config) => config,
        Err(error) => panic!("the configuration did not load: {:?}", error),
    }
}

fn refused(content: &str) -> StartupError {
    match load(content) {
        Ok(_) => panic!("the configuration loaded"),
        Err(error) => error,
    }
}

#[test]
fn the_keys_are_those_of_the_file_format() {
    assert_eq!(DELAY_KEY, "delay");
    assert_eq!(TARGETS_KEY, "robotsUrls");
    assert_eq!(DEFAULT_DELAY, 1);
}

#[test]
fn a_new_configuration_has_no_key() {
    let config = Configuration::new();
    assert_eq!(config.get("delay"), None);
    assert_eq!(config.get("robotsUrls"), None);
    assert_eq!(config.delay(), DelaySetting::Absent);
    assert_eq!(config.targets(), None);
}

#[test]
fn insert_sets_and_replaces() {
    let mut config = Configuration::new();
    config.insert(String::from("delay"), texts(&["3"]));
    assert_eq!(config.get("delay"), Some(&texts(&["3"])));
    config.insert(String::from("delay"), texts(&["4", "5"]));
    assert_eq!(config.get("delay"), Some(&texts(&["4", "5"])));
    assert_eq!(config.get("Delay"), None);
}

#[test]
fn of_two_entries_with_one_key_the_later_stays() {
    let config = Configuration::from_entries(vec![
        (String::from("a"), texts(&["1"])),
        (String::from("b"), texts(&["2"])),
        (String::from("a"), texts(&["3"])),
    ]);
    assert_eq!(config.get("a"), Some(&texts(&["3"])));
    assert_eq!(config.get("b"), Some(&texts(&["2"])));
    assert_eq!(config.get("c"), None);
}

#[test]
fn loads_the_two_keys() {
    let config = loaded(r#"{"delay": ["2"], "robotsUrls": ["http://ok.test", "http://fail.test"]}"#);
    assert_eq!(config.get("delay"), Some(&texts(&["2"])));
    assert_eq!(config.targets(), Some(&texts(&["http://ok.test", "http://fail.test"])));
    assert_eq!(config.delay(), DelaySetting::Seconds { value: 2 });
    assert_eq!(config.delay().seconds(), Some(2));
}

#[test]
fn loads_other_keys_too() {
    let config = loaded(r#"{"other": [], "delay": ["10", "20"], "names": ["a", "b", "c"]}"#);
    assert_eq!(config.get("other"), Some(&texts(&[])));
    assert_eq!(config.get("names"), Some(&texts(&["a", "b", "c"])));
    assert_eq!(config.delay(), DelaySetting::Seconds { value: 10 });
    assert_eq!(config.targets(), None);
}

#[test]
fn a_key_that_is_written_twice_has_its_last_values() {
    let config = loaded(r#"{"delay": ["1"], "delay": ["9"]}"#);
    assert_eq!(config.get("delay"), Some(&texts(&["9"])));
}

#[test]
fn an_empty_object_is_a_configuration_without_keys() {
    let config = loaded("{}");
    assert_eq!(config.delay(), DelaySetting::Absent);
    assert_eq!(config.delay().seconds(), None);
    assert_eq!(config.targets(), None);
}

#[test]
fn a_file_that_cannot_be_read_is_unreadable() {
    match Configuration::load(None) {
        Err(error) => assert_eq!(error, StartupError::Unreadable),
        Ok(_) => panic!("loaded without content"),
    }
}

#[test]
fn text_that_is_no_json_is_malformed() {
    assert_eq!(
        refused("?"),
        StartupError::Malformed { message: String::from("expected value at line 1 column 1") }
    );
    assert_eq!(
        refused("not json"),
        StartupError::Malformed { message: String::from("expected ident at line 1 column 2") }
    );
    assert_eq!(
        refused(""),
        StartupError::Malformed {
            message: String::from("EOF while parsing a value at line 1 column 0")
        }
    );
    assert!(matches!(refused(r#"{"delay": ["2"]"#), StartupError::Malformed { .. }));
    assert!(matches!(refused(r#"{"delay": ["2"]} x"#), StartupError::Malformed { .. }));
}

#[test]
fn a_value_that_is_no_list_of_strings_is_malformed() {
    assert!(matches!(refused(r#"{"delay": "2"}"#), StartupError::Malformed { .. }));
    assert!(matches!(refused(r#"{"delay": 2}"#), StartupError::Malformed { .. }));
    assert!(matches!(refused(r#"{"delay": [2]}"#), StartupError::Malformed { .. }));
    assert!(matches!(refused(r#"{"delay": [["2"]]}"#), StartupError::Malformed { .. }));
    assert!(matches!(refused(r#"{"delay": {"seconds": ["2"]}}"#), StartupError::Malformed { .. }));
    assert!(matches!(refused(r#"{"delay": null}"#), StartupError::Malformed { .. }));
    assert!(matches!(refused(r#"["delay"]"#), StartupError::Malformed { .. }));
    assert!(matches!(refused(r#""delay""#), StartupError::Malformed { .. }));
}

#[test]
fn the_message_of_a_malformed_file_is_the_parsers() {
    let expected = match serde_json::from_str::<std::collections::HashMap<String, Vec<String>>>(
        r#"{"delay": 2}"#,
    ) {
        Ok(_) => panic!("the parser took a number for a list"),
        Err(error) => error.to_string(),
    };
    assert_eq!(refused(r#"{"delay": 2}"#), StartupError::Malformed { message: expected });
}

#[test]
fn a_delay_that_is_no_number_is_kept_as_text_and_gives_the_default() {
    let config = loaded(r#"{"delay": ["soon"]}"#);
    assert_eq!(config.delay(), DelaySetting::Unreadable { text: String::from("soon") });
    assert_eq!(config.delay().seconds(), Some(1));
    let negative = loaded(r#"{"delay": ["-3"]}"#);
    assert_eq!(negative.delay(), DelaySetting::Unreadable { text: String::from("-3") });
    assert_eq!(negative.delay().seconds(), Some(1));
}

#[test]
fn a_delay_without_values_gives_the_default() {
    let config = loaded(r#"{"delay": []}"#);
    assert_eq!(config.delay(), DelaySetting::Empty);
    assert_eq!(config.delay().seconds(), Some(1));
}

#[test]
fn only_the_first_value_of_the_delay_counts() {
    let config = loaded(r#"{"delay": ["7", "x"]}"#);
    assert_eq!(config.delay(), DelaySetting::Seconds { value: 7 });
    let other = loaded(r#"{"delay": ["x", "7"]}"#);
    assert_eq!(other.delay(), DelaySetting::Unreadable { text: String::from("x") });
}

#[test]
fn the_seconds_of_each_setting() {
    assert_eq!(DelaySetting::Absent.seconds(), None);
    assert_eq!(DelaySetting::Empty.seconds(), Some(1));
    assert_eq!(DelaySetting::Unreadable { text: String::from("?") }.seconds(), Some(1));
    assert_eq!(DelaySetting::Seconds { value: 0 }.seconds(), Some(0));
    assert_eq!(DelaySetting::Seconds { value: 90 }.seconds(), Some(90));
}

#[test]
fn strings_keep_their_escapes_and_their_order() {
    let config = loaded(r#"{"robotsUrls": ["http://b.test/é", "http://a.test/\"q\"", "http://b.test/é"]}"#);
    assert_eq!(
        config.targets(),
        Some(&texts(&["http://b.test/é", "http://a.test/\"q\"", "http://b.test/é"]))
    );
}
