use sanntid::model::{DestinationDisplay, EstimatedCall, JourneyPattern, Line, Mode, Quay, ServiceJourney};
use sanntid::flow::{Failure, Side};
use sanntid::render::{departures, failure_message, prompt, prompt_again, Breakdown, Departure};
use sanntid::text::{decimal, parse_integer, parse_numeral, str_eq};
use sanntid::time::{Clock, Instant, Timestamp};

fn stamp(text: &str) -> Timestamp {
    Timestamp::read(text).unwrap()
}

fn call(expected: &str, journey: Option<ServiceJourney>) -> EstimatedCall {
    EstimatedCall {
        realtime: true,
        aimed_departure_time: stamp(expected),
        expected_departure_time: stamp(expected),
        date: "2024-05-17".to_string(),
        for_boarding: true,
        destination_display: DestinationDisplay { front_text: "Majorstuen".to_string() },
        quay: Quay {
            id: "NSR:Quay:1".to_string(),
            name: "Jernbanetorget".to_string(),
            public_code: Some("2".to_string()),
            description: None,
        },
        service_journey: journey,
    }
}

fn journey(code: &str) -> ServiceJourney {
    ServiceJourney {
        id: "RUT:ServiceJourney:1".to_string(),
        journey_pattern: JourneyPattern {
            line: Line {
                id: "RUT:Line:5".to_string(),
                public_code: code.to_string(),
                name: "Vestli - Ringen".to_string(),
                transport_mode: Mode::Metro,
            },
        },
    }
}

#[test]
fn timestamp_is_read_with_chrono() {
    let t = stamp("2024-05-17T10:11:00+02:00");
    assert_eq!(t.text, "2024-05-17T10:11:00+02:00");
    assert_eq!(t.instant, Instant { seconds: 1715933460, nanos: 0 });
    assert_eq!(t.offset, 7200);
    let z = stamp("1970-01-01T00:00:01.5Z");
    assert_eq!(z.instant, Instant { seconds: 1, nanos: 500_000_000 });
    assert_eq!(z.offset, 0);
    assert_eq!(Timestamp::read("yesterday"), None);
    assert_eq!(Timestamp::read(""), None);
    assert_eq!(Timestamp::read("2024-05-17"), None);
    assert_eq!(Timestamp::from_string("2024-13-17T10:11:00Z".to_string()), None);
}

#[test]
fn later_than_ten_minutes_shows_the_clock_only() {
    let now = stamp("2024-05-17T10:00:00+02:00").instant;
    let shown = Departure::of(&call("2024-05-17T10:11:00+02:00", None), &now);
    assert_eq!(shown.minutes, None);
    assert_eq!(shown.clock, Clock { hour: 10, minute: 11 });
    assert_eq!(shown.time(), "10:11");
}

#[test]
fn within_ten_minutes_shows_minutes_and_clock() {
    let now = stamp("2024-05-17T10:00:00+02:00").instant;
    let shown = Departure::of(&call("2024-05-17T10:05:00+02:00", None), &now);
    assert_eq!(shown.minutes, Some(5));
    assert_eq!(shown.time(), "5 min (10:05)");
    let edge = Departure::of(&call("2024-05-17T10:10:59+02:00", None), &now);
    assert_eq!(edge.minutes, Some(10));
    assert_eq!(edge.time(), "10 min (10:10)");
    let over = Departure::of(&call("2024-05-17T10:11:00+02:00", None), &now);
    assert_eq!(over.minutes, None);
}

#[test]
fn overdue_shows_negative_minutes() {
    let now = stamp("2024-05-17T10:00:00+02:00").instant;
    let shown = Departure::of(&call("2024-05-17T09:58:00+02:00", None), &now);
    assert_eq!(shown.minutes, Some(-2));
    assert_eq!(shown.time(), "-2 min (09:58)");
    let partly = Departure::of(&call("2024-05-17T09:58:30+02:00", None), &now);
    assert_eq!(partly.minutes, Some(-2));
    let barely = Departure::of(&call("2024-05-17T09:59:59+02:00", None), &now);
    assert_eq!(barely.minutes, Some(-1));
    let same = Departure::of(&call("2024-05-17T10:00:00+02:00", None), &now);
    assert_eq!(same.minutes, Some(0));
}

#[test]
fn minutes_until_rounds_down() {
    let now = Instant { seconds: 100, nanos: 500_000_000 };
    assert_eq!(now.minutes_until(&Instant { seconds: 160, nanos: 499_999_999 }), 0);
    assert_eq!(now.minutes_until(&Instant { seconds: 160, nanos: 500_000_000 }), 1);
    assert_eq!(now.minutes_until(&Instant { seconds: 100, nanos: 499_999_999 }), -1);
    assert_eq!(now.minutes_until(&Instant { seconds: 40, nanos: 500_000_000 }), -1);
    assert_eq!(now.minutes_until(&Instant { seconds: 40, nanos: 499_999_999 }), -2);
    let first = Instant { seconds: i64::MIN, nanos: 0 };
    let last = Instant { seconds: i64::MAX, nanos: 999_999_999 };
    assert_eq!(first.minutes_until(&last), 307445734561825860);
    assert_eq!(last.minutes_until(&first), -307445734561825861);
}

#[test]
fn zones_differ_but_instants_compare() {
    let now = stamp("2024-05-17T08:00:00Z").instant;
    let shown = Departure::of(&call("2024-05-17T10:05:00+02:00", None), &now);
    assert_eq!(shown.minutes, Some(5));
    assert_eq!(shown.clock, Clock { hour: 10, minute: 5 });
}

#[test]
fn clock_agrees_with_chrono() {
    for text in [
        "2024-05-17T10:11:00+02:00",
        "2024-05-17T23:59:59-11:30",
        "2024-05-17T00:00:00+14:00",
        "1969-12-31T23:59:59Z",
        "1965-03-02T04:05:06-03:00",
        "1900-01-01T00:30:00+01:00",
        "2038-01-19T03:14:08Z",
        "2024-02-29T12:34:56.789+05:45",
    ] {
        let ours = stamp(text).clock().to_text();
        let theirs = chrono::DateTime::parse_from_rfc3339(text).unwrap().format("%H:%M").to_string();
        assert_eq!(ours, theirs, "{}", text);
    }
}

#[test]
fn clock_text_has_two_digits_each() {
    assert_eq!(Clock { hour: 0, minute: 0 }.to_text(), "00:00");
    assert_eq!(Clock { hour: 9, minute: 5 }.to_text(), "09:05");
    assert_eq!(Clock { hour: 23, minute: 59 }.to_text(), "23:59");
}

#[test]
fn utc_text_is_written_with_chrono() {
    assert_eq!(Instant { seconds: 0, nanos: 0 }.utc_text(), Some("1970-01-01T00:00:00Z".to_string()));
    assert_eq!(
        Instant { seconds: 1715933460, nanos: 999 }.utc_text(),
        Some("2024-05-17T08:11:00Z".to_string())
    );
    assert_eq!(Instant { seconds: i64::MAX, nanos: 0 }.utc_text(), None);
}

#[test]
fn utc_text_reads_back() {
    let now = Instant { seconds: 1715933460, nanos: 0 };
    let text = now.utc_text().unwrap();
    assert_eq!(stamp(&text).instant, now);
}

#[test]
fn call_without_journey_shows_destination_only() {
    let now = stamp("2024-05-17T10:00:00+02:00").instant;
    let shown = Departure::of(&call("2024-05-17T10:05:00+02:00", None), &now);
    assert_eq!(shown.line, None);
    assert_eq!(shown.destination, "Majorstuen");
    assert_eq!(shown.heading(), "Majorstuen");
}

#[test]
fn call_with_journey_shows_line_code() {
    let now = stamp("2024-05-17T10:00:00+02:00").instant;
    let shown = Departure::of(&call("2024-05-17T10:05:00+02:00", Some(journey("5"))), &now);
    assert_eq!(shown.line, Some("5".to_string()));
    assert_eq!(shown.heading(), "5 Majorstuen");
}

#[test]
fn departures_keep_the_order_of_the_calls() {
    let now = stamp("2024-05-17T10:00:00+02:00").instant;
    let calls = vec![
        call("2024-05-17T10:30:00+02:00", Some(journey("3"))),
        call("2024-05-17T10:01:00+02:00", None),
        call("2024-05-17T10:20:00+02:00", Some(journey("1"))),
    ];
    let shown = departures(&calls, &now);
    assert_eq!(shown.len(), 3);
    assert_eq!(shown[0].line, Some("3".to_string()));
    assert_eq!(shown[1].line, None);
    assert_eq!(shown[1].minutes, Some(1));
    assert_eq!(shown[2].line, Some("1".to_string()));
    assert_eq!(departures(&Vec::new(), &now), Vec::new());
}

#[test]
fn duration_breakdown() {
    assert_eq!(Breakdown::of(5400), Breakdown { hours: 1, minutes: 30 });
    assert_eq!(Breakdown::of(5400).to_text(), "1 h 30 min");
    assert_eq!(Breakdown::of(300), Breakdown { hours: 0, minutes: 5 });
    assert_eq!(Breakdown::of(300).to_text(), "5 min");
    assert_eq!(Breakdown::of(0).to_text(), "0 min");
    assert_eq!(Breakdown::of(59).to_text(), "0 min");
    assert_eq!(Breakdown::of(3599).to_text(), "59 min");
    assert_eq!(Breakdown::of(3600).to_text(), "1 h 0 min");
    assert_eq!(Breakdown::of(90061).to_text(), "25 h 1 min");
    assert_eq!(Breakdown::of(-5400), Breakdown { hours: -1, minutes: -30 });
    assert_eq!(Breakdown::of(-300).to_text(), "-5 min");
    assert_eq!(Breakdown::of(i64::MAX), Breakdown { hours: 2562047788015215, minutes: 30 });
    assert_eq!(Breakdown::of(i64::MIN), Breakdown { hours: -2562047788015215, minutes: -30 });
}

#[test]
fn decimal_numerals() {
    assert_eq!(decimal(0), "0");
    assert_eq!(decimal(7), "7");
    assert_eq!(decimal(10), "10");
    assert_eq!(decimal(72100), "72100");
    assert_eq!(decimal(-1), "-1");
    assert_eq!(decimal(i64::MAX), "9223372036854775807");
    assert_eq!(decimal(i64::MIN), "-9223372036854775808");
}

#[test]
fn numerals_are_read() {
    assert_eq!(parse_numeral("0", 10), Some(0));
    assert_eq!(parse_numeral("10", 10), Some(10));
    assert_eq!(parse_numeral("11", 10), None);
    assert_eq!(parse_numeral("+7", 10), Some(7));
    assert_eq!(parse_numeral("-7", 10), None);
    assert_eq!(parse_numeral("", 10), None);
    assert_eq!(parse_numeral("+", 10), None);
    assert_eq!(parse_numeral("18446744073709551615", u64::MAX), Some(u64::MAX));
    assert_eq!(parse_numeral("18446744073709551616", u64::MAX), None);
    assert_eq!(parse_integer("5400"), Some(5400));
    assert_eq!(parse_integer("-5400"), Some(-5400));
    assert_eq!(parse_integer("-0"), Some(0));
    assert_eq!(parse_integer("+5"), None);
    assert_eq!(parse_integer("5.0"), None);
    assert_eq!(parse_integer("9223372036854775807"), Some(i64::MAX));
    assert_eq!(parse_integer("9223372036854775808"), None);
    assert_eq!(parse_integer("-9223372036854775808"), Some(i64::MIN));
    assert_eq!(parse_integer("-9223372036854775809"), None);
    assert_eq!(parse_integer(""), None);
    assert_eq!(parse_integer("-"), None);
}

#[test]
fn numerals_read_back() {
    for n in [0i64, 1, 9, 10, 99, 100, 12345, -1, -10, -72100, i64::MAX, i64::MIN] {
        assert_eq!(parse_integer(&decimal(n)), Some(n));
    }
}

#[test]
fn strings_compare_by_content() {
    assert!(str_eq("", ""));
    assert!(str_eq("foot", "foot"));
    assert!(!str_eq("foot", "food"));
    assert!(!str_eq("foot", "foo"));
    assert!(str_eq("Bodø", "Bodø"));
    assert!(!str_eq("Bodø", "Bodo"));
}

#[test]
fn prompts_state_the_valid_range() {
    assert_eq!(prompt(4), "Which stop (1 - 4): ");
    assert_eq!(prompt_again(4), "Invalid stop - pick another one (1 - 4): ");
    assert_eq!(prompt_again(12), "Invalid stop - pick another one (1 - 12): ");
}

#[test]
fn failures_have_messages() {
    assert_eq!(
        failure_message(&Failure::NoMatch(Side::From), "Atlantis"),
        "Could not find any stops using query: Atlantis"
    );
    assert_eq!(
        failure_message(&Failure::Transport, "x"),
        "Could not reach the service. Please try again later."
    );
    assert_eq!(failure_message(&Failure::Parse, "x"), "Could not read the answer of the service.");
    assert_eq!(failure_message(&Failure::InputClosed, "x"), "No stop was chosen.");
}
