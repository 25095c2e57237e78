use sanntid::decode::{
    decode_departures, decode_geocode, decode_trip, read_integer, read_mode, DecodeError,
};
use sanntid::json::{Json, Member};
use sanntid::model::{EstimatedCall, Geocode, Leg, Line, Mode, Quay};
use sanntid::render::{choices, itineraries, Departure, Travel};
use sanntid::time::{Clock, Timestamp};

fn text(s: &str) -> Json {
    Json::Text(s.to_string())
}

fn object(members: Vec<(&str, Json)>) -> Json {
    Json::Object(members.into_iter().map(|(k, v)| Member { key: k.to_string(), value: v }).collect())
}

fn quay_json() -> Json {
    object(vec![("id", text("NSR:Quay:7")), ("name", text("Nationaltheatret"))])
}

fn call_json(destination: &str, expected: &str) -> Json {
    object(vec![
        ("realtime", Json::Bool(true)),
        ("aimedDepartureTime", text("2024-05-17T10:00:00+02:00")),
        ("expectedDepartureTime", text(expected)),
        ("date", text("2024-05-17")),
        ("forBoarding", Json::Bool(true)),
        ("destinationDisplay", object(vec![("frontText", text(destination))])),
        ("quay", quay_json()),
    ])
}

const DEPARTURES: &str = r#"{
  "data": {
    "stopPlace": {
      "id": "NSR:StopPlace:58366",
      "name": "Jernbanetorget",
      "estimatedCalls": [
        {
          "realtime": true,
          "aimedDepartureTime": "2024-05-17T10:04:00+02:00",
          "expectedDepartureTime": "2024-05-17T10:05:30+02:00",
          "date": "2024-05-17",
          "forBoarding": true,
          "destinationDisplay": { "frontText": "Vestli" },
          "quay": { "id": "NSR:Quay:1", "name": "Jernbanetorget", "publicCode": "2", "description": "mot vest" },
          "serviceJourney": {
            "id": "RUT:ServiceJourney:5-1",
            "journeyPattern": { "line": { "id": "RUT:Line:5", "publicCode": "5", "name": "Vestli - Ringen", "transportMode": "metro" } }
          }
        },
        {
          "realtime": false,
          "aimedDepartureTime": "2024-05-17T10:02:00+02:00",
          "expectedDepartureTime": "2024-05-17T10:02:00+02:00",
          "date": "2024-05-17",
          "forBoarding": false,
          "destinationDisplay": { "frontText": "Ekstraavgang" },
          "quay": { "id": "NSR:Quay:2", "name": "Jernbanetorget", "publicCode": null },
          "serviceJourney": null
        },
        {
          "realtime": true,
          "aimedDepartureTime": "2024-05-17T10:20:00+02:00",
          "expectedDepartureTime": "2024-05-17T10:20:00+02:00",
          "date": "2024-05-17",
          "forBoarding": true,
          "destinationDisplay": { "frontText": "Ljabru" },
          "quay": { "id": "NSR:Quay:3", "name": "Jernbanetorget" },
          "serviceJourney": {
            "id": "RUT:ServiceJourney:13-9",
            "journeyPattern": { "line": { "id": "RUT:Line:13", "publicCode": "13", "name": "Ljabru - Bekkestua", "transportMode": "tram" } }
          },
          "somethingNew": [1, 2, 3]
        }
      ]
    }
  }
}"#;

#[test]
fn departures_answer_is_decoded_in_order() {
    let answer = decode_departures(DEPARTURES).unwrap();
    let place = answer.data.stop_place;
    assert_eq!(place.id, "NSR:StopPlace:58366");
    assert_eq!(place.name, "Jernbanetorget");
    let shown: Vec<&str> = place.estimated_calls.iter().map(|c| c.destination_display.front_text.as_str()).collect();
    assert_eq!(shown, vec!["Vestli", "Ekstraavgang", "Ljabru"]);
    let first = &place.estimated_calls[0];
    assert!(first.realtime);
    assert!(first.for_boarding);
    assert_eq!(first.date, "2024-05-17");
    assert_eq!(first.aimed_departure_time, Timestamp::read("2024-05-17T10:04:00+02:00").unwrap());
    assert_eq!(first.expected_departure_time.instant.seconds, 1715933130);
    assert_eq!(first.quay.public_code, Some("2".to_string()));
    assert_eq!(first.quay.description, Some("mot vest".to_string()));
    let line = &first.service_journey.as_ref().unwrap().journey_pattern.line;
    assert_eq!(line.public_code, "5");
    assert_eq!(line.transport_mode, Mode::Metro);
    assert_eq!(place.estimated_calls[2].service_journey.as_ref().unwrap().journey_pattern.line.transport_mode, Mode::Tram);
}

#[test]
fn decoded_calls_encode_in_the_same_order() {
    let place = decode_departures(DEPARTURES).unwrap().data.stop_place;
    let encoded = sanntid::encode::calls_to_json(&place.estimated_calls);
    let items = match &encoded {
        Json::Array(items) => items,
        _ => panic!("no array"),
    };
    assert_eq!(items.len(), 3);
    for (item, call) in items.iter().zip(place.estimated_calls.iter()) {
        assert_eq!(EstimatedCall::from_json(item).as_ref(), Ok(call));
    }
    assert_eq!(sanntid::decode::read_calls(items), Ok(place.estimated_calls));
}

#[test]
fn call_without_journey_is_decoded_and_shown() {
    let place = decode_departures(DEPARTURES).unwrap().data.stop_place;
    let call = &place.estimated_calls[1];
    assert_eq!(call.service_journey, None);
    assert_eq!(call.quay.public_code, None);
    assert_eq!(call.quay.description, None);
    let now = Timestamp::read("2024-05-17T10:00:00+02:00").unwrap().instant;
    let shown = Departure::of(call, &now);
    assert_eq!(shown.line, None);
    assert_eq!(shown.destination, "Ekstraavgang");
    assert_eq!(shown.heading(), "Ekstraavgang");
    assert_eq!(shown.time(), "2 min (10:02)");
}

#[test]
fn call_without_journey_member_is_decoded() {
    let call = EstimatedCall::from_json(&call_json("Skøyen", "2024-05-17T10:05:00+02:00")).unwrap();
    assert_eq!(call.service_journey, None);
    assert_eq!(call.destination_display.front_text, "Skøyen");
}

#[test]
fn unknown_transport_mode_fails() {
    let answer = DEPARTURES.replace("\"tram\"", "\"hovercraft\"");
    assert_eq!(decode_departures(&answer), Err(DecodeError::UnknownMode));
    let upper = DEPARTURES.replace("\"tram\"", "\"Tram\"");
    assert_eq!(decode_departures(&upper), Err(DecodeError::UnknownMode));
    let line = object(vec![
        ("id", text("L")),
        ("publicCode", text("1")),
        ("name", text("N")),
        ("transportMode", text("teleport")),
    ]);
    assert_eq!(Line::from_json(&line), Err(DecodeError::UnknownMode));
}

#[test]
fn unknown_leg_mode_fails() {
    let answer = TRIP.replace("\"foot\"", "\"hoverboard\"");
    assert_eq!(decode_trip(&answer), Err(DecodeError::UnknownMode));
    assert_eq!(read_mode(&text("")), Err(DecodeError::UnknownMode));
    assert_eq!(read_mode(&Json::Null), Err(DecodeError::Mismatch));
}

#[test]
fn every_mode_is_read_from_its_name() {
    let all = [
        (Mode::Air, "air", "Air"),
        (Mode::Bicycle, "bicycle", "Bicycle"),
        (Mode::Bus, "bus", "Bus"),
        (Mode::Cableway, "cableway", "Cableway"),
        (Mode::Water, "water", "Water"),
        (Mode::Funicular, "funicular", "Funicular"),
        (Mode::Lift, "lift", "Lift"),
        (Mode::Rail, "rail", "Rail"),
        (Mode::Metro, "metro", "Metro"),
        (Mode::Tram, "tram", "Tram"),
        (Mode::Trolleybus, "trolleybus", "Trolleybus"),
        (Mode::Monorail, "monorail", "Monorail"),
        (Mode::Coach, "coach", "Coach"),
        (Mode::Foot, "foot", "Foot"),
        (Mode::Car, "car", "Car"),
        (Mode::Scooter, "scooter", "Scooter"),
    ];
    for (mode, name, label) in all {
        assert_eq!(Mode::from_name(name), Some(mode));
        assert_eq!(mode.name(), name);
        assert_eq!(mode.to_text(), label);
        assert_eq!(Mode::from_name(label), None);
        assert_eq!(mode.is_foot(), name == "foot");
    }
    assert_eq!(Mode::from_name("train"), None);
}

#[test]
fn missing_required_member_fails() {
    let without_name = DEPARTURES.replace("\"name\": \"Jernbanetorget\",\n      \"estimatedCalls\"", "\"estimatedCalls\"");
    assert_ne!(without_name, DEPARTURES);
    assert_eq!(decode_departures(&without_name), Err(DecodeError::Missing));
    assert_eq!(decode_departures("{}"), Err(DecodeError::Missing));
    assert_eq!(decode_departures(r#"{"data":{}}"#), Err(DecodeError::Missing));
    assert_eq!(Quay::from_json(&object(vec![("id", text("q"))])), Err(DecodeError::Missing));
}

#[test]
fn wrong_kind_fails() {
    assert_eq!(decode_departures("[]"), Err(DecodeError::Mismatch));
    assert_eq!(decode_departures(r#"{"data":null}"#), Err(DecodeError::Mismatch));
    assert_eq!(decode_departures(r#"{"data":{"stopPlace":{"id":1,"name":"x","estimatedCalls":[]}}}"#), Err(DecodeError::Mismatch));
    assert_eq!(decode_departures(r#"{"data":{"stopPlace":{"id":"1","name":"x","estimatedCalls":{}}}}"#), Err(DecodeError::Mismatch));
    let realtime_as_text = DEPARTURES.replace("\"realtime\": false", "\"realtime\": \"no\"");
    assert_eq!(decode_departures(&realtime_as_text), Err(DecodeError::Mismatch));
    assert_eq!(Quay::from_json(&object(vec![("id", text("q")), ("name", Json::Null)])), Err(DecodeError::Mismatch));
}

#[test]
fn first_fault_in_model_order_is_reported() {
    let quay = object(vec![("name", Json::Bool(true))]);
    assert_eq!(Quay::from_json(&quay), Err(DecodeError::Missing));
    let quay = object(vec![("id", Json::Bool(true))]);
    assert_eq!(Quay::from_json(&quay), Err(DecodeError::Mismatch));
}

#[test]
fn text_that_is_no_json_is_malformed() {
    assert_eq!(decode_departures(""), Err(DecodeError::Malformed));
    assert_eq!(decode_departures("{"), Err(DecodeError::Malformed));
    assert_eq!(decode_departures("<html>"), Err(DecodeError::Malformed));
    assert_eq!(decode_trip("{\"data\":"), Err(DecodeError::Malformed));
    assert_eq!(decode_geocode("nope"), Err(DecodeError::Malformed));
    assert_eq!(Json::parse("{} {}"), None);
}

#[test]
fn bad_time_stamp_fails() {
    let answer = DEPARTURES.replace("2024-05-17T10:05:30+02:00", "10:05");
    assert_eq!(decode_departures(&answer), Err(DecodeError::BadTime));
    let call = call_json("X", "soon");
    assert_eq!(EstimatedCall::from_json(&call), Err(DecodeError::BadTime));
}

#[test]
fn empty_stop_place_is_a_result() {
    let answer = r#"{"data":{"stopPlace":{"id":"NSR:StopPlace:1","name":"Ingensteds","estimatedCalls":[]}}}"#;
    let place = decode_departures(answer).unwrap().data.stop_place;
    assert!(place.estimated_calls.is_empty());
}

#[test]
fn json_is_parsed_with_serde_json() {
    let json = Json::parse(r#"{"b":[1,-2,3.5,1e3,true,null,"x\ny"],"a":{"k":"v"}}"#).unwrap();
    let expected = object(vec![
        ("a", object(vec![("k", text("v"))])),
        (
            "b",
            Json::Array(vec![
                Json::Number("1".to_string()),
                Json::Number("-2".to_string()),
                Json::Number("3.5".to_string()),
                Json::Number("1000.0".to_string()),
                Json::Bool(true),
                Json::Null,
                text("x\ny"),
            ]),
        ),
    ]);
    assert_eq!(json, expected);
    assert_eq!(json.get("a").unwrap().get("k"), Some(&text("v")));
    assert_eq!(json.get("c"), None);
    assert_eq!(json.get("b").unwrap().get("a"), None);
    assert_eq!(Json::parse("\"\\u00e5\""), Some(text("å")));
}

#[test]
fn first_member_of_a_name_is_found() {
    let json = object(vec![("k", text("first")), ("k", text("second"))]);
    assert_eq!(json.get("k"), Some(&text("first")));
}

#[test]
fn integers_are_read_from_numbers() {
    assert_eq!(read_integer(&Json::parse("5400").unwrap()), Ok(5400));
    assert_eq!(read_integer(&Json::parse("-12").unwrap()), Ok(-12));
    assert_eq!(read_integer(&Json::parse("12.0").unwrap()), Err(DecodeError::Mismatch));
    assert_eq!(read_integer(&Json::parse("9223372036854775808").unwrap()), Err(DecodeError::Mismatch));
    assert_eq!(read_integer(&Json::parse("\"12\"").unwrap()), Err(DecodeError::Mismatch));
}

const GEOCODE: &str = r#"{
  "geocoding": { "version": "0.2" },
  "type": "FeatureCollection",
  "features": [
    { "type": "Feature",
      "geometry": { "type": "Point", "coordinates": [10.716152, 59.932624] },
      "properties": { "id": "NSR:StopPlace:58381", "name": "Majorstuen", "locality": "Oslo", "county": "Oslo", "label": "Majorstuen, Oslo" } },
    { "type": "Feature",
      "geometry": { "type": "Point", "coordinates": [10.5, 59] },
      "properties": { "id": "NSR:StopPlace:6505", "name": "Majorstua", "locality": "Nes", "county": "Akershus" } }
  ]
}"#;

#[test]
fn geocode_answer_is_decoded_in_order() {
    let geocode = decode_geocode(GEOCODE).unwrap();
    assert_eq!(geocode.features.len(), 2);
    assert_eq!(geocode.features[0].properties.id, "NSR:StopPlace:58381");
    assert_eq!(geocode.features[0].properties.name, "Majorstuen");
    assert_eq!(geocode.features[0].geometry.longitude, "10.716152");
    assert_eq!(geocode.features[0].geometry.latitude, "59.932624");
    assert_eq!(geocode.features[1].properties.county, "Akershus");
    assert_eq!(geocode.features[1].geometry.latitude, "59");
    let offered = choices(&geocode.features);
    assert_eq!(offered.len(), 2);
    assert_eq!(offered[0].ordinal, 1);
    assert_eq!(offered[0].to_text(), "1 - Majorstuen (Oslo - Oslo)");
    assert_eq!(offered[1].to_text(), "2 - Majorstua (Nes - Akershus)");
}

#[test]
fn geocode_without_candidates_is_a_result() {
    assert_eq!(decode_geocode(r#"{"features":[]}"#), Ok(Geocode { features: Vec::new() }));
    assert_eq!(decode_geocode(r#"{}"#), Err(DecodeError::Missing));
    assert_eq!(decode_geocode(r#"{"features":[{"geometry":{"coordinates":[1]},"properties":{}}]}"#), Err(DecodeError::Mismatch));
    assert_eq!(decode_geocode(r#"{"features":[{"geometry":{"coordinates":[1,2,3]},"properties":{}}]}"#), Err(DecodeError::Mismatch));
    assert_eq!(decode_geocode(r#"{"features":[{"geometry":{"coordinates":["1",2]},"properties":{}}]}"#), Err(DecodeError::Mismatch));
}

const TRIP: &str = r#"{"data":{"trip":{"tripPatterns":[
  { "duration": 5400, "walkDistance": 412.5,
    "legs": [
      { "expectedStartTime": "2024-05-17T10:00:00+02:00", "expectedEndTime": "2024-05-17T10:04:10+02:00",
        "duration": 250, "mode": "foot", "distance": 312.5, "line": null,
        "fromEstimatedCall": null,
        "toEstimatedCall": null },
      { "expectedStartTime": "2024-05-17T10:05:00+02:00", "expectedEndTime": "2024-05-17T11:30:00+02:00",
        "duration": 5100, "mode": "rail", "distance": 81234.0,
        "line": { "id": "VYG:Line:R10", "publicCode": "R10", "name": "Drammen - Lillehammer", "transportMode": "rail" },
        "fromEstimatedCall": {
          "quay": { "id": "NSR:Quay:571", "name": "Oslo S", "publicCode": "9" },
          "date": "2024-05-17", "forBoarding": true, "realtime": true,
          "aimedDepartureTime": "2024-05-17T10:05:00+02:00", "expectedDepartureTime": "2024-05-17T10:05:00+02:00",
          "actualDepartureTime": null,
          "destinationDisplay": { "frontText": "Lillehammer" } },
        "toEstimatedCall": {
          "quay": { "id": "NSR:Quay:999", "name": "Hamar", "publicCode": null },
          "date": "2024-05-17", "forBoarding": false, "realtime": true,
          "aimedDepartureTime": "2024-05-17T11:30:00+02:00", "expectedDepartureTime": "2024-05-17T11:31:00+02:00",
          "actualDepartureTime": null,
          "destinationDisplay": { "frontText": "Lillehammer" } } }
    ] },
  { "duration": 300, "walkDistance": 0, "legs": [] }
]}}}"#;

#[test]
fn trip_answer_is_decoded_and_shown() {
    let trip = decode_trip(TRIP).unwrap().data.trip;
    assert_eq!(trip.trip_patterns.len(), 2);
    let first = &trip.trip_patterns[0];
    assert_eq!(first.duration, 5400);
    assert_eq!(first.walk_distance, "412.5");
    assert_eq!(first.legs.len(), 2);
    assert_eq!(first.legs[0].mode, Mode::Foot);
    assert_eq!(first.legs[0].distance, "312.5");
    assert_eq!(first.legs[0].line, None);
    assert_eq!(first.legs[1].mode, Mode::Rail);
    assert_eq!(first.legs[1].distance, "81234.0");
    assert_eq!(trip.trip_patterns[1].walk_distance, "0");

    let shown = itineraries(&trip);
    assert_eq!(shown.len(), 2);
    assert_eq!(shown[0].duration.to_text(), "1 h 30 min");
    assert_eq!(shown[1].duration.to_text(), "5 min");
    assert!(shown[1].legs.is_empty());
    let walk = &shown[0].legs[0];
    assert_eq!(walk.from, None);
    assert_eq!(walk.to, None);
    assert_eq!(walk.travel, Travel::Walk { minutes: 4 });
    assert_eq!(walk.travel.to_text(), "Walk 4 minutes");
    let ride = &shown[0].legs[1];
    assert_eq!(
        ride.travel,
        Travel::Ride { line: Some("R10".to_string()), destination: Some("Lillehammer".to_string()), minutes: 85 }
    );
    assert_eq!(ride.travel.to_text(), "85 min");
    let from = ride.from.as_ref().unwrap();
    assert_eq!(from.clock, Clock { hour: 10, minute: 5 });
    assert_eq!(from.to_text(), "10:05 Oslo S Spor 9");
    let to = ride.to.as_ref().unwrap();
    assert_eq!(to.platform, None);
    assert_eq!(to.to_text(), "11:30 Hamar");
}

#[test]
fn ride_without_line_or_stops_is_shown() {
    let leg = Leg {
        expected_start_time: Timestamp::read("2024-05-17T10:00:00Z").unwrap(),
        expected_end_time: Timestamp::read("2024-05-17T10:10:00Z").unwrap(),
        duration: 600,
        mode: Mode::Bus,
        distance: "1200".to_string(),
        line: None,
        from_estimated_call: None,
        to_estimated_call: None,
    };
    let shown = sanntid::render::LegRecord::of(&leg);
    assert_eq!(shown.from, None);
    assert_eq!(shown.to, None);
    assert_eq!(shown.travel, Travel::Ride { line: None, destination: None, minutes: 10 });
}

#[test]
fn json_text_reads_back() {
    for source in [
        "null",
        "true",
        "false",
        "0",
        "-12.5",
        "\"\"",
        "\"a\\\"b\\\\c\\nd\\u0001\"",
        "[]",
        "{}",
        "[1,[2,[3,[]]],{\"a\":[]}]",
        "{\"a\":{\"b\":{\"c\":null}},\"d\":\"e\"}",
        DEPARTURES,
        GEOCODE,
        TRIP,
    ] {
        let json = Json::parse(source).unwrap();
        let written = json.to_text();
        assert_eq!(Json::parse(&written), Some(json), "{}", written);
    }
}

#[test]
fn json_text_is_compact() {
    let json = object(vec![
        ("n", Json::Null),
        ("b", Json::Array(vec![Json::Bool(true), Json::Bool(false)])),
        ("t", text("x\"y")),
        ("k\n", Json::Number("1.5".to_string())),
        ("o", object(vec![])),
        ("a", Json::Array(vec![])),
    ]);
    assert_eq!(json.to_text(), "{\"n\":null,\"b\":[true,false],\"t\":\"x\\\"y\",\"k\\n\":1.5,\"o\":{},\"a\":[]}");
    let mut out = String::from("x=");
    Json::Array(vec![text("a")]).push_to(&mut out);
    assert_eq!(out, "x=[\"a\"]");
}

#[test]
fn calls_keep_their_order_through_text() {
    let place = decode_departures(DEPARTURES).unwrap().data.stop_place;
    let written = sanntid::encode::calls_to_json(&place.estimated_calls).to_text();
    let read = match Json::parse(&written) {
        Some(Json::Array(items)) => sanntid::decode::read_calls(&items),
        _ => panic!("no array"),
    };
    assert_eq!(read, Ok(place.estimated_calls));
    let order: Vec<usize> = ["Vestli", "Ekstraavgang", "Ljabru"].iter().map(|d| written.find(d).unwrap()).collect();
    assert!(order[0] < order[1] && order[1] < order[2]);
}
