use robots_consumer::config::DelaySetting;
use robots_consumer::consumer::{Action, Event, Phase, UnexpectedEvent};
use robots_consumer::error::StartupError;
use robots_consumer::listing::DirectoryEntry;
use robots_consumer::outcome::{OutcomeKind, PollOutcome};
use robots_consumer::RobotConsumer;

const DIRECTORY: &str = "robots_dirname";
const FILE: &str = "robots_file.json";
const PATH: &str = "/home/user/Documents/robots_dirname";

fn consumer() -> RobotConsumer {
    RobotConsumer::new(String::from(DIRECTORY), String::from(FILE))
}

fn entry(name: &str, is_dir: bool) -> DirectoryEntry {
    DirectoryEntry {
        name: String::from(name),
        path: format!("/home/user/Documents/{}", name),
        is_dir,
    }
}

fn documents() -> Event {
    Event::Listed { entries: Some(vec![entry("other", true), entry(DIRECTORY, true)]) }
}

fn directory() -> Event {
    Event::Listed { entries: Some(vec![entry("readme", false), entry(FILE, false)]) }
}

fn file(content: &str) -> Event {
    Event::FileRead { content: Some(String::from(content)) }
}

fn take(consumer: &mut RobotConsumer, event: Event) -> Action {
    match consumer.step(event) {
        Ok(action) => action,
        Err(UnexpectedEvent) => panic!("the poller refused the event"),
    }
}

/// Runs startup up to the reading of the file, and gives what the poller
/// answers to the file's content.
fn start_with(consumer: &mut RobotConsumer, content: &str) -> Action {
    assert_eq!(consumer.start(), Action::ListDocuments { dirname: String::from(DIRECTORY) });
    assert_eq!(take(consumer, documents()), Action::ListDirectory { path: String::from(PATH) });
    assert_eq!(
        take(consumer, directory()),
        Action::ReadFile { directory: String::from(PATH), file_name: String::from(FILE) }
    );
    take(consumer, file(content))
}

/// Runs startup and the announcement, and gives the first request.
fn begin_polling(consumer: &mut RobotConsumer, content: &str) -> Action {
    let announced = start_with(consumer, content);
    assert!(matches!(announced, Action::Announce { .. }));
    take(consumer, Event::Done)
}

fn url_of(action: &Action) -> String {
    match action {
        Action::Request { url } => url.clone(),
        other => panic!("no request: {:?}", other),
    }
}

#[test]
fn a_new_poller_keeps_its_names_and_waits_to_be_started() {
    let consumer = consumer();
    assert_eq!(consumer.dirname, DIRECTORY);
    assert_eq!(consumer.filename, FILE);
    assert_eq!(consumer.phase(), Phase::Created);
}

#[test]
fn a_poller_that_was_not_started_refuses_every_event() {
    let mut consumer = consumer();
    assert_eq!(consumer.step(Event::Done), Err(UnexpectedEvent));
    assert_eq!(consumer.step(documents()), Err(UnexpectedEvent));
    assert_eq!(consumer.step(file("{}")), Err(UnexpectedEvent));
    assert_eq!(consumer.step(Event::Responded { status: 200 }), Err(UnexpectedEvent));
    assert_eq!(consumer.phase(), Phase::Created);
}

#[test]
fn the_poller_shows_what_startup_has_found() {
    let mut consumer = consumer();
    assert_eq!(consumer.directory(), None);
    assert_eq!(consumer.delay(), 1);
    assert_eq!(consumer.configuration().get("delay"), None);
    consumer.start();
    take(&mut consumer, documents());
    assert_eq!(consumer.directory(), Some(String::from(PATH)));
    take(&mut consumer, directory());
    take(&mut consumer, file(r#"{"delay": ["30"], "robotsUrls": ["http://a.test"]}"#));
    assert_eq!(consumer.delay(), 30);
    assert_eq!(consumer.configuration().get("delay"), Some(&vec![String::from("30")]));
    assert_eq!(consumer.configuration().targets(), Some(&vec![String::from("http://a.test")]));
}

#[test]
fn start_asks_for_the_documents_directory() {
    let mut consumer = consumer();
    assert_eq!(consumer.start(), Action::ListDocuments { dirname: String::from(DIRECTORY) });
    assert_eq!(consumer.phase(), Phase::Locating);
}

#[test]
fn startup_goes_from_the_directory_to_the_file_to_the_announcement() {
    let mut consumer = consumer();
    let announced = start_with(&mut consumer, r#"{"delay": ["2"], "robotsUrls": ["http://a.test"]}"#);
    assert_eq!(announced, Action::Announce { delay: DelaySetting::Seconds { value: 2 } });
    assert_eq!(consumer.phase(), Phase::Announcing);
    assert_eq!(take(&mut consumer, Event::Done), Action::Request { url: String::from("http://a.test") });
    assert_eq!(consumer.phase(), Phase::Requesting);
}

#[test]
fn the_path_of_the_directory_is_the_one_that_the_listing_gives() {
    let mut consumer = consumer();
    consumer.start();
    let listing = Event::Listed {
        entries: Some(vec![DirectoryEntry {
            name: String::from(DIRECTORY),
            path: String::from("D:\\Docs\\robots_dirname"),
            is_dir: true,
        }]),
    };
    assert_eq!(
        take(&mut consumer, listing),
        Action::ListDirectory { path: String::from("D:\\Docs\\robots_dirname") }
    );
    assert_eq!(
        take(&mut consumer, directory()),
        Action::ReadFile {
            directory: String::from("D:\\Docs\\robots_dirname"),
            file_name: String::from(FILE)
        }
    );
}

#[test]
fn startup_fails_where_the_documents_directory_cannot_be_listed() {
    let mut consumer = consumer();
    consumer.start();
    assert_eq!(
        take(&mut consumer, Event::Listed { entries: None }),
        Action::Stop { error: StartupError::DirectoryNotFound }
    );
    assert_eq!(consumer.phase(), Phase::Failed);
}

#[test]
fn startup_fails_where_the_directory_is_missing() {
    let mut consumer = consumer();
    consumer.start();
    let listing = Event::Listed { entries: Some(vec![entry("other", true), entry(DIRECTORY, false)]) };
    assert_eq!(take(&mut consumer, listing), Action::Stop { error: StartupError::DirectoryNotFound });
    assert_eq!(consumer.phase(), Phase::Failed);
}

#[test]
fn startup_fails_where_the_file_is_missing() {
    let mut consumer = consumer();
    consumer.start();
    take(&mut consumer, documents());
    let listing = Event::Listed { entries: Some(vec![entry("readme", false)]) };
    assert_eq!(
        take(&mut consumer, listing),
        Action::Stop { error: StartupError::FileNotFound { file_name: String::from(FILE) } }
    );
    assert_eq!(consumer.phase(), Phase::Failed);
}

#[test]
fn startup_fails_where_the_directory_cannot_be_listed() {
    let mut consumer = consumer();
    consumer.start();
    take(&mut consumer, documents());
    assert_eq!(
        take(&mut consumer, Event::Listed { entries: None }),
        Action::Stop { error: StartupError::FileNotFound { file_name: String::from(FILE) } }
    );
}

#[test]
fn startup_fails_where_the_file_cannot_be_read() {
    let mut consumer = consumer();
    consumer.start();
    take(&mut consumer, documents());
    take(&mut consumer, directory());
    assert_eq!(
        take(&mut consumer, Event::FileRead { content: None }),
        Action::Stop { error: StartupError::Unreadable }
    );
    assert_eq!(consumer.phase(), Phase::Failed);
}

#[test]
fn startup_fails_where_the_file_is_malformed() {
    let mut consumer = consumer();
    let answer = start_with(&mut consumer, r#"{"delay": 2}"#);
    assert!(matches!(answer, Action::Stop { error: StartupError::Malformed { .. } }));
    assert_eq!(consumer.phase(), Phase::Failed);
}

#[test]
fn without_a_delay_startup_fails_and_no_request_is_made() {
    let mut consumer = consumer();
    let answer = start_with(&mut consumer, r#"{"robotsUrls": ["http://ok.test"]}"#);
    assert_eq!(answer, Action::Stop { error: StartupError::MissingDelay });
    assert_eq!(consumer.phase(), Phase::Failed);
    assert_eq!(consumer.step(Event::Done), Err(UnexpectedEvent));
    assert_eq!(consumer.step(Event::Responded { status: 200 }), Err(UnexpectedEvent));
    assert_eq!(
        consumer.step(Event::TransportFailed { detail: String::from("refused") }),
        Err(UnexpectedEvent)
    );
    assert_eq!(consumer.step(documents()), Err(UnexpectedEvent));
    assert_eq!(consumer.step(file(r#"{"delay": ["1"]}"#)), Err(UnexpectedEvent));
    assert_eq!(consumer.phase(), Phase::Failed);
}

#[test]
fn a_delay_that_is_no_number_gives_a_pause_of_one_second() {
    let mut consumer = consumer();
    let announced =
        start_with(&mut consumer, r#"{"delay": ["fast"], "robotsUrls": ["http://ok.test"]}"#);
    assert_eq!(
        announced,
        Action::Announce { delay: DelaySetting::Unreadable { text: String::from("fast") } }
    );
    assert_eq!(take(&mut consumer, Event::Done), Action::Request { url: String::from("http://ok.test") });
    for _ in 0..3 {
        assert_eq!(
            take(&mut consumer, Event::Responded { status: 200 }),
            Action::Report {
                url: String::from("http://ok.test"),
                outcome: PollOutcome::Success { status: 200 },
                pause: 1
            }
        );
        assert_eq!(
            take(&mut consumer, Event::Done),
            Action::Request { url: String::from("http://ok.test") }
        );
    }
}

#[test]
fn a_delay_without_values_gives_a_pause_of_one_second() {
    let mut consumer = consumer();
    let announced = start_with(&mut consumer, r#"{"delay": [], "robotsUrls": ["http://ok.test"]}"#);
    assert_eq!(announced, Action::Announce { delay: DelaySetting::Empty });
    take(&mut consumer, Event::Done);
    match take(&mut consumer, Event::Responded { status: 204 }) {
        Action::Report { pause, .. } => assert_eq!(pause, 1),
        other => panic!("no report: {:?}", other),
    }
}

#[test]
fn without_addresses_the_run_ends_at_their_first_use() {
    let mut consumer = consumer();
    let announced = start_with(&mut consumer, r#"{"delay": ["2"]}"#);
    assert_eq!(announced, Action::Announce { delay: DelaySetting::Seconds { value: 2 } });
    assert_eq!(take(&mut consumer, Event::Done), Action::Stop { error: StartupError::MissingTargets });
    assert_eq!(consumer.phase(), Phase::Failed);
    assert_eq!(consumer.step(Event::Done), Err(UnexpectedEvent));
}

#[test]
fn with_an_empty_list_of_addresses_the_poller_idles() {
    let mut consumer = consumer();
    start_with(&mut consumer, r#"{"delay": ["2"], "robotsUrls": []}"#);
    assert_eq!(take(&mut consumer, Event::Done), Action::Idle);
    assert_eq!(consumer.phase(), Phase::Idle);
    assert_eq!(take(&mut consumer, Event::Done), Action::Idle);
    assert_eq!(consumer.step(Event::Responded { status: 200 }), Err(UnexpectedEvent));
    assert_eq!(consumer.phase(), Phase::Idle);
}

#[test]
fn every_round_visits_the_addresses_in_their_order() {
    let urls = ["http://one.test", "http://two.test", "http://three.test"];
    let mut consumer = consumer();
    let mut action = begin_polling(
        &mut consumer,
        r#"{"delay": ["5"], "robotsUrls": ["http://one.test", "http://two.test", "http://three.test"]}"#,
    );
    let statuses = [200u16, 404, 500, 301, 200, 503, 200, 200, 200, 418, 200, 200];
    for (count, status) in statuses.iter().enumerate() {
        let expected = urls[count % urls.len()];
        assert_eq!(url_of(&action), expected);
        match take(&mut consumer, Event::Responded { status: *status }) {
            Action::Report { url, outcome, pause } => {
                assert_eq!(url, expected);
                assert_eq!(outcome, PollOutcome::from_status(*status));
                assert_eq!(pause, 5);
            },
            other => panic!("no report: {:?}", other),
        }
        assert_eq!(consumer.phase(), Phase::Reporting);
        action = take(&mut consumer, Event::Done);
        assert_eq!(consumer.phase(), Phase::Requesting);
    }
    assert_eq!(url_of(&action), urls[0]);
}

#[test]
fn a_single_address_is_polled_again_and_again() {
    let mut consumer = consumer();
    let mut action =
        begin_polling(&mut consumer, r#"{"delay": ["0"], "robotsUrls": ["http://only.test"]}"#);
    for _ in 0..10 {
        assert_eq!(url_of(&action), "http://only.test");
        take(&mut consumer, Event::Responded { status: 200 });
        action = take(&mut consumer, Event::Done);
    }
}

#[test]
fn an_address_that_is_listed_twice_is_polled_twice_in_a_round() {
    let mut consumer = consumer();
    let mut action = begin_polling(
        &mut consumer,
        r#"{"delay": ["1"], "robotsUrls": ["http://a.test", "http://b.test", "http://a.test"]}"#,
    );
    let mut visited = Vec::new();
    for _ in 0..6 {
        visited.push(url_of(&action));
        take(&mut consumer, Event::Responded { status: 200 });
        action = take(&mut consumer, Event::Done);
    }
    assert_eq!(
        visited,
        vec![
            "http://a.test", "http://b.test", "http://a.test", "http://a.test", "http://b.test",
            "http://a.test"
        ]
    );
}

#[test]
fn a_refused_connection_is_reported_and_polling_goes_on() {
    let mut consumer = consumer();
    let action = begin_polling(
        &mut consumer,
        r#"{"delay": ["3"], "robotsUrls": ["http://down.test", "http://up.test"]}"#,
    );
    assert_eq!(url_of(&action), "http://down.test");
    let report = take(
        &mut consumer,
        Event::TransportFailed { detail: String::from("tcp connect error: Connection refused") },
    );
    assert_eq!(
        report,
        Action::Report {
            url: String::from("http://down.test"),
            outcome: PollOutcome::NetworkFailure {
                detail: String::from("tcp connect error: Connection refused")
            },
            pause: 3
        }
    );
    assert_eq!(consumer.phase(), Phase::Reporting);
    assert_eq!(take(&mut consumer, Event::Done), Action::Request { url: String::from("http://up.test") });
    assert_eq!(
        take(&mut consumer, Event::Responded { status: 200 }),
        Action::Report {
            url: String::from("http://up.test"),
            outcome: PollOutcome::Success { status: 200 },
            pause: 3
        }
    );
    assert_eq!(take(&mut consumer, Event::Done), Action::Request { url: String::from("http://down.test") });
}

#[test]
fn three_cycles_over_a_good_and_a_failing_endpoint() {
    let mut consumer = consumer();
    let mut action = begin_polling(
        &mut consumer,
        r#"{"delay": ["2"], "robotsUrls": ["http://ok.test", "http://fail.test"]}"#,
    );
    let mut successes = 0;
    let mut server_errors = 0;
    let mut others = 0;
    let mut slept = Vec::new();
    let mut requested = Vec::new();
    for _cycle in 0..3 {
        for _ in 0..2 {
            let url = url_of(&action);
            let status = if url == "http://ok.test" { 200 } else { 503 };
            requested.push(url.clone());
            match take(&mut consumer, Event::Responded { status }) {
                Action::Report { url: reported, outcome, pause } => {
                    assert_eq!(reported, url);
                    assert_eq!(outcome.status(), Some(status));
                    match outcome.kind() {
                        OutcomeKind::Success => successes += 1,
                        OutcomeKind::ServerError => {
                            assert_eq!(outcome.detail(), "Service Unavailable");
                            server_errors += 1;
                        },
                        _ => others += 1,
                    }
                    slept.push(pause);
                },
                other => panic!("no report: {:?}", other),
            }
            action = take(&mut consumer, Event::Done);
        }
    }
    assert_eq!(successes, 3);
    assert_eq!(server_errors, 3);
    assert_eq!(others, 0);
    assert_eq!(slept, vec![2, 2, 2, 2, 2, 2]);
    assert_eq!(
        requested,
        vec![
            "http://ok.test", "http://fail.test", "http://ok.test", "http://fail.test",
            "http://ok.test", "http://fail.test"
        ]
    );
    assert_eq!(consumer.phase(), Phase::Requesting);
    assert_eq!(url_of(&action), "http://ok.test");
}

#[test]
fn an_unchanging_endpoint_is_classified_alike_every_time() {
    let mut consumer = consumer();
    begin_polling(&mut consumer, r#"{"delay": ["1"], "robotsUrls": ["http://same.test"]}"#);
    let first = take(&mut consumer, Event::Responded { status: 404 });
    take(&mut consumer, Event::Done);
    for _ in 0..5 {
        assert_eq!(take(&mut consumer, Event::Responded { status: 404 }), first);
        take(&mut consumer, Event::Done);
    }
    assert_eq!(
        first,
        Action::Report {
            url: String::from("http://same.test"),
            outcome: PollOutcome::ClientError { status: 404, detail: String::from("Not Found") },
            pause: 1
        }
    );
}

#[test]
fn an_outcome_does_not_colour_the_next() {
    let mut consumer = consumer();
    begin_polling(&mut consumer, r#"{"delay": ["1"], "robotsUrls": ["http://flaky.test"]}"#);
    take(&mut consumer, Event::Responded { status: 500 });
    take(&mut consumer, Event::Done);
    take(&mut consumer, Event::TransportFailed { detail: String::from("timed out") });
    take(&mut consumer, Event::Done);
    assert_eq!(
        take(&mut consumer, Event::Responded { status: 200 }),
        Action::Report {
            url: String::from("http://flaky.test"),
            outcome: PollOutcome::Success { status: 200 },
            pause: 1
        }
    );
}

#[test]
fn an_event_out_of_turn_is_refused_and_changes_nothing() {
    let mut consumer = consumer();
    let action =
        begin_polling(&mut consumer, r#"{"delay": ["1"], "robotsUrls": ["http://a.test", "http://b.test"]}"#);
    assert_eq!(url_of(&action), "http://a.test");
    assert_eq!(consumer.step(Event::Done), Err(UnexpectedEvent));
    assert_eq!(consumer.step(documents()), Err(UnexpectedEvent));
    assert_eq!(consumer.step(file("{}")), Err(UnexpectedEvent));
    assert_eq!(consumer.phase(), Phase::Requesting);
    take(&mut consumer, Event::Responded { status: 200 });
    assert_eq!(consumer.step(Event::Responded { status: 200 }), Err(UnexpectedEvent));
    assert_eq!(
        consumer.step(Event::TransportFailed { detail: String::from("late") }),
        Err(UnexpectedEvent)
    );
    assert_eq!(consumer.phase(), Phase::Reporting);
    assert_eq!(take(&mut consumer, Event::Done), Action::Request { url: String::from("http://b.test") });
}

#[test]
fn start_begins_anew_after_a_failure() {
    let mut consumer = consumer();
    consumer.start();
    take(&mut consumer, Event::Listed { entries: None });
    assert_eq!(consumer.phase(), Phase::Failed);
    assert_eq!(consumer.start(), Action::ListDocuments { dirname: String::from(DIRECTORY) });
    assert_eq!(take(&mut consumer, documents()), Action::ListDirectory { path: String::from(PATH) });
}
