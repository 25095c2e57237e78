//! Decoding of the service's JSON answers into the typed model.
//!
//! A required member that is absent, a member of the wrong kind, a time
//! stamp that is none and a transport mode that the model does not know each
//! fail the decoding with an error of their own. Members that the model does
//! not name are passed over. Where several members are at fault, the error
//! is that of the first one in the order in which the model lists them.
use vstd::prelude::*;
use crate::json::{json_of_text, Json};
use crate::model::{
    DestinationDisplay, EstimatedCall, Feature, Geocode, GeocodeResponse, Geometry, JourneyPattern,
    Leg, Line, Mode, Quay, ServiceJourney, Stop, StopPlace, StopPlaceResponse, Trip, TripPattern,
    TripResponse, Wrapper,
};
use crate::model::{
    GeocodeResponseView, GeocodeView, StopPlaceResponseView, StopPlaceView, TripPatternView,
    TripResponseView, TripView,
};
use crate::text::{integer_value, parse_integer};
use crate::time::{timestamp_of, Timestamp};

verus! {

/// Why an answer could not be decoded.
#[derive(Clone, Copy, Debug, PartialEq, Eq, Structural)]
pub enum DecodeError {
    /// The text is not JSON.
    Malformed,
    /// A required member is absent.
    Missing,
    /// A value is of another kind than the model asks for.
    Mismatch,
    /// A text that should be a time stamp is none.
    BadTime,
    /// A transport mode that the model does not know.
    UnknownMode,
}

/// The member `key` that an object must have.
pub open spec fn required(json: Json, key: Seq<char>) -> Result<Json, DecodeError> {
    match json {
        Json::Object(_) => match json.member(key) {
            Some(value) => Ok(value),
            None => Err(DecodeError::Missing),
        },
        _ => Err(DecodeError::Mismatch),
    }
}

/// The member `key` that an object may have: absent and `null` both count
/// as not there.
pub open spec fn optional(json: Json, key: Seq<char>) -> Result<Option<Json>, DecodeError> {
    match json {
        Json::Object(_) => match json.member(key) {
            Some(Json::Null) => Ok(None),
            Some(value) => Ok(Some(value)),
            None => Ok(None),
        },
        _ => Err(DecodeError::Mismatch),
    }
}

/// The string that a value must be.
pub open spec fn text_of(json: Json) -> Result<String, DecodeError> {
    match json {
        Json::Text(text) => Ok(text),
        _ => Err(DecodeError::Mismatch),
    }
}

/// The truth value that a value must be.
pub open spec fn bool_of(json: Json) -> Result<bool, DecodeError> {
    match json {
        Json::Bool(b) => Ok(b),
        _ => Err(DecodeError::Mismatch),
    }
}

/// The numeral of the number that a value must be.
pub open spec fn numeral_of(json: Json) -> Result<String, DecodeError> {
    match json {
        Json::Number(numeral) => Ok(numeral),
        _ => Err(DecodeError::Mismatch),
    }
}

/// The integer that a value must be: a number without fraction or exponent
/// that fits in 64 bits.
pub open spec fn integer_of(json: Json) -> Result<i64, DecodeError> {
    match json {
        Json::Number(numeral) => match integer_value(numeral@) {
            Some(v) => if i64::MIN <= v <= i64::MAX {
                Ok(v as i64)
            } else {
                Err(DecodeError::Mismatch)
            },
            None => Err(DecodeError::Mismatch),
        },
        _ => Err(DecodeError::Mismatch),
    }
}

/// The time stamp that a value must be.
pub open spec fn time_of(json: Json) -> Result<Timestamp, DecodeError> {
    match json {
        Json::Text(text) => match timestamp_of(text) {
            Some(t) => Ok(t),
            None => Err(DecodeError::BadTime),
        },
        _ => Err(DecodeError::Mismatch),
    }
}

/// The transport mode that a value must be.
pub open spec fn mode_of(json: Json) -> Result<Mode, DecodeError> {
    match json {
        Json::Text(text) => match Mode::named(text@) {
            Some(mode) => Ok(mode),
            None => Err(DecodeError::UnknownMode),
        },
        _ => Err(DecodeError::Mismatch),
    }
}

/// The items of the array that a value must be.
pub open spec fn items_of(json: Json) -> Result<Seq<Json>, DecodeError> {
    match json {
        Json::Array(items) => Ok(items@),
        _ => Err(DecodeError::Mismatch),
    }
}

/// The required member `key`, read by `read`.
pub open spec fn member_as<T>(
    json: Json,
    key: Seq<char>,
    read: spec_fn(Json) -> Result<T, DecodeError>,
) -> Result<T, DecodeError> {
    match required(json, key) {
        Ok(value) => read(value),
        Err(e) => Err(e),
    }
}

/// The optional member `key`, read by `read` where it is there.
pub open spec fn member_if<T>(
    json: Json,
    key: Seq<char>,
    read: spec_fn(Json) -> Result<T, DecodeError>,
) -> Result<Option<T>, DecodeError> {
    match optional(json, key) {
        Ok(Some(value)) => match read(value) {
            Ok(t) => Ok(Some(t)),
            Err(e) => Err(e),
        },
        Ok(None) => Ok(None),
        Err(e) => Err(e),
    }
}

/// All of `results` in their order where none is an error; else the first
/// error among them.
pub open spec fn all_of<T>(results: Seq<Result<T, DecodeError>>) -> Result<Seq<T>, DecodeError>
    decreases results.len(),
{
    if results.len() == 0 {
        Ok(Seq::empty())
    } else {
        match all_of(results.drop_last()) {
            Ok(items) => match results.last() {
                Ok(item) => Ok(items.push(item)),
                Err(e) => Err(e),
            },
            Err(e) => Err(e),
        }
    }
}

/// A result with what it holds taken by its view.
pub open spec fn viewed<T: View>(result: Result<T, DecodeError>) -> Result<T::V, DecodeError> {
    match result {
        Ok(t) => Ok(t@),
        Err(e) => Err(e),
    }
}

/// Once a prefix of `results` holds an error, that error is the outcome of
/// the whole sequence.
pub proof fn lemma_all_of_error_stays<T>(results: Seq<Result<T, DecodeError>>, k: int)
    requires
        0 <= k <= results.len(),
        all_of(results.take(k)) is Err,
    ensures
        all_of(results) == all_of(results.take(k)),
    decreases results.len() - k,
{
    if k < results.len() {
        assert(results.take(k + 1).drop_last() =~= results.take(k));
        lemma_all_of_error_stays(results, k + 1);
    } else {
        assert(results.take(k) =~= results);
    }
}

/// Where all of a sequence of results are taken, they come out one for one
/// and in their order.
pub proof fn law_all_of_keeps_order<T>(results: Seq<Result<T, DecodeError>>, items: Seq<T>)
    requires
        all_of(results) == Ok::<Seq<T>, DecodeError>(items),
    ensures
        items.len() == results.len(),
        forall|i: int| 0 <= i < results.len() ==> (#[trigger] results[i]) == Ok::<T, DecodeError>(items[i]),
    decreases results.len(),
{
    if results.len() > 0 {
        let head = all_of(results.drop_last())->Ok_0;
        law_all_of_keeps_order(results.drop_last(), head);
        assert forall|i: int| 0 <= i < results.len() implies (#[trigger] results[i]) == Ok::<T, DecodeError>(items[i]) by {
            if i < results.len() - 1 {
                assert(results[i] == results.drop_last()[i]);
            }
        }
    }
}

/// Looks up a member that must be there.
pub fn get_required<'a>(json: &'a Json, key: &str) -> (r: Result<&'a Json, DecodeError>)
    ensures
        r == match required(*json, key@) {
            Ok(value) => Ok::<&Json, DecodeError>(&value),
            Err(e) => Err(e),
        },
{
    match json {
        Json::Object(_) => match json.get(key) {
            Some(value) => Ok(value),
            None => Err(DecodeError::Missing),
        },
        _ => Err(DecodeError::Mismatch),
    }
}

/// Looks up a member that may be absent or `null`.
pub fn get_optional<'a>(json: &'a Json, key: &str) -> (r: Result<Option<&'a Json>, DecodeError>)
    ensures
        r == match optional(*json, key@) {
            Ok(Some(value)) => Ok::<Option<&Json>, DecodeError>(Some(&value)),
            Ok(None) => Ok(None),
            Err(e) => Err(e),
        },
{
    match json {
        Json::Object(_) => match json.get(key) {
            Some(Json::Null) => Ok(None),
            Some(value) => Ok(Some(value)),
            None => Ok(None),
        },
        _ => Err(DecodeError::Mismatch),
    }
}

/// Reads a string.
pub fn read_text(json: &Json) -> (r: Result<String, DecodeError>)
    ensures
        r == text_of(*json),
{
    match json {
        Json::Text(text) => Ok(text.clone()),
        _ => Err(DecodeError::Mismatch),
    }
}

/// Reads a truth value.
pub fn read_bool(json: &Json) -> (r: Result<bool, DecodeError>)
    ensures
        r == bool_of(*json),
{
    match json {
        Json::Bool(b) => Ok(*b),
        _ => Err(DecodeError::Mismatch),
    }
}

/// Reads a number and keeps its numeral.
pub fn read_numeral(json: &Json) -> (r: Result<String, DecodeError>)
    ensures
        r == numeral_of(*json),
{
    match json {
        Json::Number(numeral) => Ok(numeral.clone()),
        _ => Err(DecodeError::Mismatch),
    }
}

/// Reads a whole number of at most 64 bits.
pub fn read_integer(json: &Json) -> (r: Result<i64, DecodeError>)
    ensures
        r == integer_of(*json),
{
    match json {
        Json::Number(numeral) => match parse_integer(numeral.as_str()) {
            Some(v) => Ok(v),
            None => Err(DecodeError::Mismatch),
        },
        _ => Err(DecodeError::Mismatch),
    }
}

/// Reads an RFC 3339 time stamp.
pub fn read_time(json: &Json) -> (r: Result<Timestamp, DecodeError>)
    ensures
        r == time_of(*json),
{
    match json {
        Json::Text(text) => match Timestamp::from_string(text.clone()) {
            Some(t) => Ok(t),
            None => Err(DecodeError::BadTime),
        },
        _ => Err(DecodeError::Mismatch),
    }
}

/// Reads a transport mode. A name that the model does not know is an error
/// of its own kind and never some other mode.
pub fn read_mode(json: &Json) -> (r: Result<Mode, DecodeError>)
    ensures
        r == mode_of(*json),
{
    match json {
        Json::Text(text) => match Mode::from_name(text.as_str()) {
            Some(mode) => Ok(mode),
            None => Err(DecodeError::UnknownMode),
        },
        _ => Err(DecodeError::Mismatch),
    }
}

fn text_member(json: &Json, key: &str) -> (r: Result<String, DecodeError>)
    ensures
        r == member_as(*json, key@, |v: Json| text_of(v)),
{
    read_text(get_required(json, key)?)
}

fn optional_text_member(json: &Json, key: &str) -> (r: Result<Option<String>, DecodeError>)
    ensures
        r == member_if(*json, key@, |v: Json| text_of(v)),
{
    match get_optional(json, key)? {
        Some(value) => Ok(Some(read_text(value)?)),
        None => Ok(None),
    }
}

impl DestinationDisplay {
    /// The destination display that a JSON value stands for.
    pub open spec fn decoded(json: Json) -> Result<DestinationDisplay, DecodeError> {
        match member_as(json, "frontText"@, |v: Json| text_of(v)) {
            Ok(front_text) => Ok(DestinationDisplay { front_text }),
            Err(e) => Err(e),
        }
    }

    /// Decodes a destination display.
    pub fn from_json(json: &Json) -> (r: Result<DestinationDisplay, DecodeError>)
        ensures
            r == DestinationDisplay::decoded(*json),
    {
        let front_text = text_member(json, "frontText")?;
        Ok(DestinationDisplay { front_text })
    }
}

impl Quay {
    /// The quay that a JSON value stands for.
    pub open spec fn decoded(json: Json) -> Result<Quay, DecodeError> {
        match (
            member_as(json, "id"@, |v: Json| text_of(v)),
            member_as(json, "name"@, |v: Json| text_of(v)),
            member_if(json, "publicCode"@, |v: Json| text_of(v)),
            member_if(json, "description"@, |v: Json| text_of(v)),
        ) {
            (Ok(id), Ok(name), Ok(public_code), Ok(description)) => Ok(
                Quay { id, name, public_code, description },
            ),
            (Err(e), _, _, _) => Err(e),
            (_, Err(e), _, _) => Err(e),
            (_, _, Err(e), _) => Err(e),
            (_, _, _, Err(e)) => Err(e),
        }
    }

    /// Decodes a quay. Platform code and description may be absent.
    pub fn from_json(json: &Json) -> (r: Result<Quay, DecodeError>)
        ensures
            r == Quay::decoded(*json),
    {
        let id = text_member(json, "id")?;
        let name = text_member(json, "name")?;
        let public_code = optional_text_member(json, "publicCode")?;
        let description = optional_text_member(json, "description")?;
        Ok(Quay { id, name, public_code, description })
    }
}

impl Line {
    /// The line that a JSON value stands for.
    pub open spec fn decoded(json: Json) -> Result<Line, DecodeError> {
        match (
            member_as(json, "id"@, |v: Json| text_of(v)),
            member_as(json, "publicCode"@, |v: Json| text_of(v)),
            member_as(json, "name"@, |v: Json| text_of(v)),
            member_as(json, "transportMode"@, |v: Json| mode_of(v)),
        ) {
            (Ok(id), Ok(public_code), Ok(name), Ok(transport_mode)) => Ok(
                Line { id, public_code, name, transport_mode },
            ),
            (Err(e), _, _, _) => Err(e),
            (_, Err(e), _, _) => Err(e),
            (_, _, Err(e), _) => Err(e),
            (_, _, _, Err(e)) => Err(e),
        }
    }

    /// Decodes a line. Its transport mode must be one that the model knows.
    pub fn from_json(json: &Json) -> (r: Result<Line, DecodeError>)
        ensures
            r == Line::decoded(*json),
    {
        let id = text_member(json, "id")?;
        let public_code = text_member(json, "publicCode")?;
        let name = text_member(json, "name")?;
        let transport_mode = read_mode(get_required(json, "transportMode")?)?;
        Ok(Line { id, public_code, name, transport_mode })
    }
}

impl JourneyPattern {
    /// The journey pattern that a JSON value stands for.
    pub open spec fn decoded(json: Json) -> Result<JourneyPattern, DecodeError> {
        match member_as(json, "line"@, |v: Json| Line::decoded(v)) {
            Ok(line) => Ok(JourneyPattern { line }),
            Err(e) => Err(e),
        }
    }

    /// Decodes a journey pattern.
    pub fn from_json(json: &Json) -> (r: Result<JourneyPattern, DecodeError>)
        ensures
            r == JourneyPattern::decoded(*json),
    {
        let line = Line::from_json(get_required(json, "line")?)?;
        Ok(JourneyPattern { line })
    }
}

impl ServiceJourney {
    /// The service journey that a JSON value stands for.
    pub open spec fn decoded(json: Json) -> Result<ServiceJourney, DecodeError> {
        match (
            member_as(json, "id"@, |v: Json| text_of(v)),
            member_as(json, "journeyPattern"@, |v: Json| JourneyPattern::decoded(v)),
        ) {
            (Ok(id), Ok(journey_pattern)) => Ok(ServiceJourney { id, journey_pattern }),
            (Err(e), _) => Err(e),
            (_, Err(e)) => Err(e),
        }
    }

    /// Decodes a service journey.
    pub fn from_json(json: &Json) -> (r: Result<ServiceJourney, DecodeError>)
        ensures
            r == ServiceJourney::decoded(*json),
    {
        let id = text_member(json, "id")?;
        let journey_pattern = JourneyPattern::from_json(get_required(json, "journeyPattern")?)?;
        Ok(ServiceJourney { id, journey_pattern })
    }
}

impl EstimatedCall {
    /// The call that a JSON value stands for.
    pub open spec fn decoded(json: Json) -> Result<EstimatedCall, DecodeError> {
        match (
            member_as(json, "realtime"@, |v: Json| bool_of(v)),
            member_as(json, "aimedDepartureTime"@, |v: Json| time_of(v)),
            member_as(json, "expectedDepartureTime"@, |v: Json| time_of(v)),
            member_as(json, "date"@, |v: Json| text_of(v)),
            member_as(json, "forBoarding"@, |v: Json| bool_of(v)),
            member_as(json, "destinationDisplay"@, |v: Json| DestinationDisplay::decoded(v)),
            member_as(json, "quay"@, |v: Json| Quay::decoded(v)),
            member_if(json, "serviceJourney"@, |v: Json| ServiceJourney::decoded(v)),
        ) {
            (
                Ok(realtime),
                Ok(aimed_departure_time),
                Ok(expected_departure_time),
                Ok(date),
                Ok(for_boarding),
                Ok(destination_display),
                Ok(quay),
                Ok(service_journey),
            ) => Ok(
                EstimatedCall {
                    realtime,
                    aimed_departure_time,
                    expected_departure_time,
                    date,
                    for_boarding,
                    destination_display,
                    quay,
                    service_journey,
                },
            ),
            (Err(e), _, _, _, _, _, _, _) => Err(e),
            (_, Err(e), _, _, _, _, _, _) => Err(e),
            (_, _, Err(e), _, _, _, _, _) => Err(e),
            (_, _, _, Err(e), _, _, _, _) => Err(e),
            (_, _, _, _, Err(e), _, _, _) => Err(e),
            (_, _, _, _, _, Err(e), _, _) => Err(e),
            (_, _, _, _, _, _, Err(e), _) => Err(e),
            (_, _, _, _, _, _, _, Err(e)) => Err(e),
        }
    }

    /// Decodes a call. A call without a service journey is a call like any
    /// other: the member may be absent or `null`.
    pub fn from_json(json: &Json) -> (r: Result<EstimatedCall, DecodeError>)
        ensures
            r == EstimatedCall::decoded(*json),
    {
        let realtime = read_bool(get_required(json, "realtime")?)?;
        let aimed_departure_time = read_time(get_required(json, "aimedDepartureTime")?)?;
        let expected_departure_time = read_time(get_required(json, "expectedDepartureTime")?)?;
        let date = text_member(json, "date")?;
        let for_boarding = read_bool(get_required(json, "forBoarding")?)?;
        let destination_display = DestinationDisplay::from_json(
            get_required(json, "destinationDisplay")?,
        )?;
        let quay = Quay::from_json(get_required(json, "quay")?)?;
        let service_journey = match get_optional(json, "serviceJourney")? {
            Some(value) => Some(ServiceJourney::from_json(value)?),
            None => None,
        };
        Ok(
            EstimatedCall {
                realtime,
                aimed_departure_time,
                expected_departure_time,
                date,
                for_boarding,
                destination_display,
                quay,
                service_journey,
            },
        )
    }
}

/// A transport mode under a name that the model does not know fails the
/// decoding with the error for unknown modes: a value is decoded to a mode
/// only where it is the name of that very mode.
pub proof fn law_unknown_mode_fails(name: String)
    ensures
        Mode::named(name@) is None ==> mode_of(Json::Text(name)) == Err::<Mode, DecodeError>(
            DecodeError::UnknownMode,
        ),
        forall|mode: Mode|
            mode_of(Json::Text(name)) == Ok::<Mode, DecodeError>(mode) ==> name@
                == mode.wire_name(),
{
}

/// A line whose transport mode the model does not know is not decoded:
/// where its other members are in order, the error is that for unknown
/// modes.
pub proof fn law_line_with_unknown_mode_fails(json: Json, name: String)
    requires
        member_as(json, "id"@, |v: Json| text_of(v)) is Ok,
        member_as(json, "publicCode"@, |v: Json| text_of(v)) is Ok,
        member_as(json, "name"@, |v: Json| text_of(v)) is Ok,
        json.member("transportMode"@) == Some(Json::Text(name)),
        Mode::named(name@) is None,
    ensures
        Line::decoded(json) == Err::<Line, DecodeError>(DecodeError::UnknownMode),
{
}

/// A leg whose mode the model does not know is not decoded: where the
/// members before it are in order, the error is that for unknown modes.
pub proof fn law_leg_with_unknown_mode_fails(json: Json, name: String)
    requires
        member_as(json, "expectedStartTime"@, |v: Json| time_of(v)) is Ok,
        member_as(json, "expectedEndTime"@, |v: Json| time_of(v)) is Ok,
        member_as(json, "duration"@, |v: Json| integer_of(v)) is Ok,
        json.member("mode"@) == Some(Json::Text(name)),
        Mode::named(name@) is None,
    ensures
        Leg::decoded(json) == Err::<Leg, DecodeError>(DecodeError::UnknownMode),
{
}

/// The service journey of a call may be absent or `null`: the call is
/// decoded as it would be with a service journey, only without one.
pub proof fn law_call_without_journey_decodes(json: Json)
    requires
        json is Object,
        json.member("serviceJourney"@) is None || json.member("serviceJourney"@) == Some(
            Json::Null,
        ),
        member_as(json, "realtime"@, |v: Json| bool_of(v)) is Ok,
        member_as(json, "aimedDepartureTime"@, |v: Json| time_of(v)) is Ok,
        member_as(json, "expectedDepartureTime"@, |v: Json| time_of(v)) is Ok,
        member_as(json, "date"@, |v: Json| text_of(v)) is Ok,
        member_as(json, "forBoarding"@, |v: Json| bool_of(v)) is Ok,
        member_as(json, "destinationDisplay"@, |v: Json| DestinationDisplay::decoded(v)) is Ok,
        member_as(json, "quay"@, |v: Json| Quay::decoded(v)) is Ok,
    ensures
        EstimatedCall::decoded(json) is Ok,
        EstimatedCall::decoded(json)->Ok_0.service_journey is None,
        Ok::<DestinationDisplay, DecodeError>(
            EstimatedCall::decoded(json)->Ok_0.destination_display,
        ) == member_as(json, "destinationDisplay"@, |v: Json| DestinationDisplay::decoded(v)),
{
}

/// The calls that the items of an array stand for.
pub open spec fn decoded_calls(items: Seq<Json>) -> Result<Seq<EstimatedCall>, DecodeError> {
    all_of(items.map_values(|v: Json| EstimatedCall::decoded(v)))
}

/// Decodes the calls of an array, in the order of the array.
pub fn read_calls(items: &Vec<Json>) -> (r: Result<Vec<EstimatedCall>, DecodeError>)
    ensures
        viewed(r) == decoded_calls(items@),
{
    let ghost results = items@.map_values(|v: Json| EstimatedCall::decoded(v));
    let mut out: Vec<EstimatedCall> = Vec::new();
    let mut i: usize = 0;
    assert(results.take(0) =~= Seq::empty());
    while i < items.len()
        invariant
            i <= items.len(),
            results == items@.map_values(|v: Json| EstimatedCall::decoded(v)),
            all_of(results.take(i as int)) == Ok::<Seq<EstimatedCall>, DecodeError>(out@),
        decreases items.len() - i,
    {
        assert(results.take(i + 1).drop_last() =~= results.take(i as int));
        assert(results.take(i + 1).last() == EstimatedCall::decoded(items@[i as int]));
        match EstimatedCall::from_json(&items[i]) {
            Ok(call) => {
                out.push(call);
            },
            Err(e) => {
                proof {
                    lemma_all_of_error_stays(results, i + 1);
                }
                return Err(e);
            },
        }
        i += 1;
    }
    assert(results.take(i as int) =~= results);
    Ok(out)
}

impl StopPlace {
    /// The stop place that a JSON value stands for.
    pub open spec fn decoded(json: Json) -> Result<StopPlaceView, DecodeError> {
        match (
            member_as(json, "id"@, |v: Json| text_of(v)),
            member_as(json, "name"@, |v: Json| text_of(v)),
            member_as(
                json,
                "estimatedCalls"@,
                |v: Json|
                    match items_of(v) {
                        Ok(items) => decoded_calls(items),
                        Err(e) => Err(e),
                    },
            ),
        ) {
            (Ok(id), Ok(name), Ok(estimated_calls)) => Ok(
                StopPlaceView { id, name, estimated_calls },
            ),
            (Err(e), _, _) => Err(e),
            (_, Err(e), _) => Err(e),
            (_, _, Err(e)) => Err(e),
        }
    }

    /// Decodes a stop place. Its calls keep the order of the answer.
    pub fn from_json(json: &Json) -> (r: Result<StopPlace, DecodeError>)
        ensures
            viewed(r) == StopPlace::decoded(*json),
    {
        let id = text_member(json, "id")?;
        let name = text_member(json, "name")?;
        let estimated_calls = match get_required(json, "estimatedCalls")? {
            Json::Array(items) => read_calls(items)?,
            _ => {
                return Err(DecodeError::Mismatch);
            },
        };
        Ok(StopPlace { id, name, estimated_calls })
    }
}

impl StopPlaceResponse {
    /// The departures payload that a JSON value stands for.
    pub open spec fn decoded(json: Json) -> Result<StopPlaceResponseView, DecodeError> {
        match member_as(json, "stopPlace"@, |v: Json| StopPlace::decoded(v)) {
            Ok(stop_place) => Ok(StopPlaceResponseView { stop_place }),
            Err(e) => Err(e),
        }
    }

    /// Decodes the payload of a departures answer.
    pub fn from_json(json: &Json) -> (r: Result<StopPlaceResponse, DecodeError>)
        ensures
            viewed(r) == StopPlaceResponse::decoded(*json),
    {
        let stop_place = StopPlace::from_json(get_required(json, "stopPlace")?)?;
        Ok(StopPlaceResponse { stop_place })
    }
}

impl Geometry {
    /// The position that a JSON value stands for: an object whose member
    /// `coordinates` is an array of two numbers, longitude first.
    pub open spec fn decoded(json: Json) -> Result<Geometry, DecodeError> {
        match member_as(json, "coordinates"@, |v: Json| items_of(v)) {
            Ok(items) => if items.len() == 2 {
                match (numeral_of(items[0]), numeral_of(items[1])) {
                    (Ok(longitude), Ok(latitude)) => Ok(Geometry { longitude, latitude }),
                    (Err(e), _) => Err(e),
                    (_, Err(e)) => Err(e),
                }
            } else {
                Err(DecodeError::Mismatch)
            },
            Err(e) => Err(e),
        }
    }

    /// Decodes a position.
    pub fn from_json(json: &Json) -> (r: Result<Geometry, DecodeError>)
        ensures
            r == Geometry::decoded(*json),
    {
        match get_required(json, "coordinates")? {
            Json::Array(items) => {
                if items.len() != 2 {
                    return Err(DecodeError::Mismatch);
                }
                let longitude = read_numeral(&items[0])?;
                let latitude = read_numeral(&items[1])?;
                Ok(Geometry { longitude, latitude })
            },
            _ => Err(DecodeError::Mismatch),
        }
    }
}

impl Stop {
    /// The stop that a JSON value stands for.
    pub open spec fn decoded(json: Json) -> Result<Stop, DecodeError> {
        match (
            member_as(json, "id"@, |v: Json| text_of(v)),
            member_as(json, "name"@, |v: Json| text_of(v)),
            member_as(json, "locality"@, |v: Json| text_of(v)),
            member_as(json, "county"@, |v: Json| text_of(v)),
        ) {
            (Ok(id), Ok(name), Ok(locality), Ok(county)) => Ok(Stop { id, name, locality, county }),
            (Err(e), _, _, _) => Err(e),
            (_, Err(e), _, _) => Err(e),
            (_, _, Err(e), _) => Err(e),
            (_, _, _, Err(e)) => Err(e),
        }
    }

    /// Decodes a stop.
    pub fn from_json(json: &Json) -> (r: Result<Stop, DecodeError>)
        ensures
            r == Stop::decoded(*json),
    {
        let id = text_member(json, "id")?;
        let name = text_member(json, "name")?;
        let locality = text_member(json, "locality")?;
        let county = text_member(json, "county")?;
        Ok(Stop { id, name, locality, county })
    }
}

impl Feature {
    /// The candidate that a JSON value stands for.
    pub open spec fn decoded(json: Json) -> Result<Feature, DecodeError> {
        match (
            member_as(json, "geometry"@, |v: Json| Geometry::decoded(v)),
            member_as(json, "properties"@, |v: Json| Stop::decoded(v)),
        ) {
            (Ok(geometry), Ok(properties)) => Ok(Feature { geometry, properties }),
            (Err(e), _) => Err(e),
            (_, Err(e)) => Err(e),
        }
    }

    /// Decodes a candidate of a stop search.
    pub fn from_json(json: &Json) -> (r: Result<Feature, DecodeError>)
        ensures
            r == Feature::decoded(*json),
    {
        let geometry = Geometry::from_json(get_required(json, "geometry")?)?;
        let properties = Stop::from_json(get_required(json, "properties")?)?;
        Ok(Feature { geometry, properties })
    }
}

/// The candidates that the items of an array stand for.
pub open spec fn decoded_features(items: Seq<Json>) -> Result<Seq<Feature>, DecodeError> {
    all_of(items.map_values(|v: Json| Feature::decoded(v)))
}

/// Decodes the candidates of an array, in the order of the array.
pub fn read_features(items: &Vec<Json>) -> (r: Result<Vec<Feature>, DecodeError>)
    ensures
        viewed(r) == decoded_features(items@),
{
    let ghost results = items@.map_values(|v: Json| Feature::decoded(v));
    let mut out: Vec<Feature> = Vec::new();
    let mut i: usize = 0;
    assert(results.take(0) =~= Seq::empty());
    while i < items.len()
        invariant
            i <= items.len(),
            results == items@.map_values(|v: Json| Feature::decoded(v)),
            all_of(results.take(i as int)) == Ok::<Seq<Feature>, DecodeError>(out@),
        decreases items.len() - i,
    {
        assert(results.take(i + 1).drop_last() =~= results.take(i as int));
        assert(results.take(i + 1).last() == Feature::decoded(items@[i as int]));
        match Feature::from_json(&items[i]) {
            Ok(feature) => {
                out.push(feature);
            },
            Err(e) => {
                proof {
                    lemma_all_of_error_stays(results, i + 1);
                }
                return Err(e);
            },
        }
        i += 1;
    }
    assert(results.take(i as int) =~= results);
    Ok(out)
}

impl Geocode {
    /// The search result that a JSON value stands for. An empty array of
    /// candidates is a result like any other.
    pub open spec fn decoded(json: Json) -> Result<GeocodeView, DecodeError> {
        match member_as(
            json,
            "features"@,
            |v: Json|
                match items_of(v) {
                    Ok(items) => decoded_features(items),
                    Err(e) => Err(e),
                },
        ) {
            Ok(features) => Ok(GeocodeView { features }),
            Err(e) => Err(e),
        }
    }

    /// Decodes the result of a stop search. Its candidates keep the order
    /// of the answer.
    pub fn from_json(json: &Json) -> (r: Result<Geocode, DecodeError>)
        ensures
            viewed(r) == Geocode::decoded(*json),
    {
        let features = match get_required(json, "features")? {
            Json::Array(items) => read_features(items)?,
            _ => {
                return Err(DecodeError::Mismatch);
            },
        };
        Ok(Geocode { features })
    }
}

impl GeocodeResponse {
    /// The stop search answer that a JSON value stands for.
    pub open spec fn decoded(json: Json) -> Result<GeocodeResponseView, DecodeError> {
        match member_as(json, "geocoding"@, |v: Json| Geocode::decoded(v)) {
            Ok(geocoding) => Ok(GeocodeResponseView { geocoding }),
            Err(e) => Err(e),
        }
    }

    /// Decodes a stop search answer that lies under `geocoding`.
    pub fn from_json(json: &Json) -> (r: Result<GeocodeResponse, DecodeError>)
        ensures
            viewed(r) == GeocodeResponse::decoded(*json),
    {
        let geocoding = Geocode::from_json(get_required(json, "geocoding")?)?;
        Ok(GeocodeResponse { geocoding })
    }
}

impl Leg {
    /// The leg that a JSON value stands for.
    pub open spec fn decoded(json: Json) -> Result<Leg, DecodeError> {
        match (
            member_as(json, "expectedStartTime"@, |v: Json| time_of(v)),
            member_as(json, "expectedEndTime"@, |v: Json| time_of(v)),
            member_as(json, "duration"@, |v: Json| integer_of(v)),
            member_as(json, "mode"@, |v: Json| mode_of(v)),
            member_as(json, "distance"@, |v: Json| numeral_of(v)),
            member_if(json, "line"@, |v: Json| Line::decoded(v)),
            member_if(json, "fromEstimatedCall"@, |v: Json| EstimatedCall::decoded(v)),
            member_if(json, "toEstimatedCall"@, |v: Json| EstimatedCall::decoded(v)),
        ) {
            (
                Ok(expected_start_time),
                Ok(expected_end_time),
                Ok(duration),
                Ok(mode),
                Ok(distance),
                Ok(line),
                Ok(from_estimated_call),
                Ok(to_estimated_call),
            ) => Ok(
                Leg {
                    expected_start_time,
                    expected_end_time,
                    duration,
                    mode,
                    distance,
                    line,
                    from_estimated_call,
                    to_estimated_call,
                },
            ),
            (Err(e), _, _, _, _, _, _, _) => Err(e),
            (_, Err(e), _, _, _, _, _, _) => Err(e),
            (_, _, Err(e), _, _, _, _, _) => Err(e),
            (_, _, _, Err(e), _, _, _, _) => Err(e),
            (_, _, _, _, Err(e), _, _, _) => Err(e),
            (_, _, _, _, _, Err(e), _, _) => Err(e),
            (_, _, _, _, _, _, Err(e), _) => Err(e),
            (_, _, _, _, _, _, _, Err(e)) => Err(e),
        }
    }

    /// Decodes a leg. Line and calls may be absent; the mode must be one
    /// that the model knows.
    pub fn from_json(json: &Json) -> (r: Result<Leg, DecodeError>)
        ensures
            r == Leg::decoded(*json),
    {
        let expected_start_time = read_time(get_required(json, "expectedStartTime")?)?;
        let expected_end_time = read_time(get_required(json, "expectedEndTime")?)?;
        let duration = read_integer(get_required(json, "duration")?)?;
        let mode = read_mode(get_required(json, "mode")?)?;
        let distance = read_numeral(get_required(json, "distance")?)?;
        let line = match get_optional(json, "line")? {
            Some(value) => Some(Line::from_json(value)?),
            None => None,
        };
        let from_estimated_call = match get_optional(json, "fromEstimatedCall")? {
            Some(value) => Some(EstimatedCall::from_json(value)?),
            None => None,
        };
        let to_estimated_call = match get_optional(json, "toEstimatedCall")? {
            Some(value) => Some(EstimatedCall::from_json(value)?),
            None => None,
        };
        Ok(
            Leg {
                expected_start_time,
                expected_end_time,
                duration,
                mode,
                distance,
                line,
                from_estimated_call,
                to_estimated_call,
            },
        )
    }
}

/// The legs that the items of an array stand for.
pub open spec fn decoded_legs(items: Seq<Json>) -> Result<Seq<Leg>, DecodeError> {
    all_of(items.map_values(|v: Json| Leg::decoded(v)))
}

/// Decodes the legs of an array, in the order of the array.
pub fn read_legs(items: &Vec<Json>) -> (r: Result<Vec<Leg>, DecodeError>)
    ensures
        viewed(r) == decoded_legs(items@),
{
    let ghost results = items@.map_values(|v: Json| Leg::decoded(v));
    let mut out: Vec<Leg> = Vec::new();
    let mut i: usize = 0;
    assert(results.take(0) =~= Seq::empty());
    while i < items.len()
        invariant
            i <= items.len(),
            results == items@.map_values(|v: Json| Leg::decoded(v)),
            all_of(results.take(i as int)) == Ok::<Seq<Leg>, DecodeError>(out@),
        decreases items.len() - i,
    {
        assert(results.take(i + 1).drop_last() =~= results.take(i as int));
        assert(results.take(i + 1).last() == Leg::decoded(items@[i as int]));
        match Leg::from_json(&items[i]) {
            Ok(leg) => {
                out.push(leg);
            },
            Err(e) => {
                proof {
                    lemma_all_of_error_stays(results, i + 1);
                }
                return Err(e);
            },
        }
        i += 1;
    }
    assert(results.take(i as int) =~= results);
    Ok(out)
}

impl TripPattern {
    /// The trip pattern that a JSON value stands for.
    pub open spec fn decoded(json: Json) -> Result<TripPatternView, DecodeError> {
        match (
            member_as(json, "duration"@, |v: Json| integer_of(v)),
            member_as(json, "walkDistance"@, |v: Json| numeral_of(v)),
            member_as(
                json,
                "legs"@,
                |v: Json|
                    match items_of(v) {
                        Ok(items) => decoded_legs(items),
                        Err(e) => Err(e),
                    },
            ),
        ) {
            (Ok(duration), Ok(walk_distance), Ok(legs)) => Ok(
                TripPatternView { duration, walk_distance, legs },
            ),
            (Err(e), _, _) => Err(e),
            (_, Err(e), _) => Err(e),
            (_, _, Err(e)) => Err(e),
        }
    }

    /// Decodes a trip pattern. Its legs keep the order of the answer.
    pub fn from_json(json: &Json) -> (r: Result<TripPattern, DecodeError>)
        ensures
            viewed(r) == TripPattern::decoded(*json),
    {
        let duration = read_integer(get_required(json, "duration")?)?;
        let walk_distance = read_numeral(get_required(json, "walkDistance")?)?;
        let legs = match get_required(json, "legs")? {
            Json::Array(items) => read_legs(items)?,
            _ => {
                return Err(DecodeError::Mismatch);
            },
        };
        Ok(TripPattern { duration, walk_distance, legs })
    }
}

/// The trip patterns that the items of an array stand for.
pub open spec fn decoded_patterns(items: Seq<Json>) -> Result<Seq<TripPatternView>, DecodeError> {
    all_of(items.map_values(|v: Json| TripPattern::decoded(v)))
}

/// Decodes the trip patterns of an array, in the order of the array.
pub fn read_patterns(items: &Vec<Json>) -> (r: Result<Vec<TripPattern>, DecodeError>)
    ensures
        match r {
            Ok(patterns) => decoded_patterns(items@) == Ok::<Seq<TripPatternView>, DecodeError>(
                patterns@.map_values(|p: TripPattern| p@),
            ),
            Err(e) => decoded_patterns(items@) == Err::<Seq<TripPatternView>, DecodeError>(e),
        },
{
    let ghost results = items@.map_values(|v: Json| TripPattern::decoded(v));
    let mut out: Vec<TripPattern> = Vec::new();
    let mut i: usize = 0;
    assert(results.take(0) =~= Seq::empty());
    assert(out@.map_values(|p: TripPattern| p@) =~= Seq::empty());
    while i < items.len()
        invariant
            i <= items.len(),
            results == items@.map_values(|v: Json| TripPattern::decoded(v)),
            all_of(results.take(i as int)) == Ok::<Seq<TripPatternView>, DecodeError>(
                out@.map_values(|p: TripPattern| p@),
            ),
        decreases items.len() - i,
    {
        assert(results.take(i + 1).drop_last() =~= results.take(i as int));
        assert(results.take(i + 1).last() == TripPattern::decoded(items@[i as int]));
        match TripPattern::from_json(&items[i]) {
            Ok(pattern) => {
                let ghost before = out@;
                out.push(pattern);
                assert(out@.map_values(|p: TripPattern| p@) =~= before.map_values(
                    |p: TripPattern| p@,
                ).push(pattern@));
            },
            Err(e) => {
                proof {
                    lemma_all_of_error_stays(results, i + 1);
                }
                return Err(e);
            },
        }
        i += 1;
    }
    assert(results.take(i as int) =~= results);
    Ok(out)
}

impl Trip {
    /// The proposals for a trip that a JSON value stands for.
    pub open spec fn decoded(json: Json) -> Result<TripView, DecodeError> {
        match member_as(
            json,
            "tripPatterns"@,
            |v: Json|
                match items_of(v) {
                    Ok(items) => decoded_patterns(items),
                    Err(e) => Err(e),
                },
        ) {
            Ok(trip_patterns) => Ok(TripView { trip_patterns }),
            Err(e) => Err(e),
        }
    }

    /// Decodes the proposals for a trip, in the order of the answer.
    pub fn from_json(json: &Json) -> (r: Result<Trip, DecodeError>)
        ensures
            viewed(r) == Trip::decoded(*json),
    {
        let trip_patterns = match get_required(json, "tripPatterns")? {
            Json::Array(items) => read_patterns(items)?,
            _ => {
                return Err(DecodeError::Mismatch);
            },
        };
        Ok(Trip { trip_patterns })
    }
}

impl TripResponse {
    /// The trip payload that a JSON value stands for.
    pub open spec fn decoded(json: Json) -> Result<TripResponseView, DecodeError> {
        match member_as(json, "trip"@, |v: Json| Trip::decoded(v)) {
            Ok(trip) => Ok(TripResponseView { trip }),
            Err(e) => Err(e),
        }
    }

    /// Decodes the payload of a trip answer.
    pub fn from_json(json: &Json) -> (r: Result<TripResponse, DecodeError>)
        ensures
            viewed(r) == TripResponse::decoded(*json),
    {
        let trip = Trip::from_json(get_required(json, "trip")?)?;
        Ok(TripResponse { trip })
    }
}

/// What an answer text stands for: the text read as JSON, then decoded by
/// `read`. A text that is not JSON is malformed.
pub open spec fn decoded_text<T>(
    text: Seq<char>,
    read: spec_fn(Json) -> Result<T, DecodeError>,
) -> Result<T, DecodeError> {
    match json_of_text(text) {
        Some(json) => read(json),
        None => Err(DecodeError::Malformed),
    }
}

/// The departures answer that a JSON value stands for: the payload under
/// the member `data` of the envelope.
pub open spec fn decoded_departures(json: Json) -> Result<
    Wrapper<StopPlaceResponseView>,
    DecodeError,
> {
    match member_as(json, "data"@, |v: Json| StopPlaceResponse::decoded(v)) {
        Ok(data) => Ok(Wrapper { data }),
        Err(e) => Err(e),
    }
}

/// The trip answer that a JSON value stands for: the payload under the
/// member `data` of the envelope.
pub open spec fn decoded_trip(json: Json) -> Result<Wrapper<TripResponseView>, DecodeError> {
    match member_as(json, "data"@, |v: Json| TripResponse::decoded(v)) {
        Ok(data) => Ok(Wrapper { data }),
        Err(e) => Err(e),
    }
}

/// Decodes a departures answer from its JSON value.
pub fn departures_from_json(json: &Json) -> (r: Result<Wrapper<StopPlaceResponse>, DecodeError>)
    ensures
        viewed(r) == decoded_departures(*json),
{
    let data = StopPlaceResponse::from_json(get_required(json, "data")?)?;
    Ok(Wrapper { data })
}

/// Decodes a trip answer from its JSON value.
pub fn trip_from_json(json: &Json) -> (r: Result<Wrapper<TripResponse>, DecodeError>)
    ensures
        viewed(r) == decoded_trip(*json),
{
    let data = TripResponse::from_json(get_required(json, "data")?)?;
    Ok(Wrapper { data })
}

/// Decodes the text of a departures answer.
pub fn decode_departures(text: &str) -> (r: Result<Wrapper<StopPlaceResponse>, DecodeError>)
    ensures
        viewed(r) == decoded_text(text@, |json: Json| decoded_departures(json)),
{
    match Json::parse(text) {
        Some(json) => departures_from_json(&json),
        None => Err(DecodeError::Malformed),
    }
}

/// Decodes the text of a trip answer.
pub fn decode_trip(text: &str) -> (r: Result<Wrapper<TripResponse>, DecodeError>)
    ensures
        viewed(r) == decoded_text(text@, |json: Json| decoded_trip(json)),
{
    match Json::parse(text) {
        Some(json) => trip_from_json(&json),
        None => Err(DecodeError::Malformed),
    }
}

/// Decodes the text of a stop search answer.
pub fn decode_geocode(text: &str) -> (r: Result<Geocode, DecodeError>)
    ensures
        viewed(r) == decoded_text(text@, |json: Json| Geocode::decoded(json)),
{
    match Json::parse(text) {
        Some(json) => Geocode::from_json(&json),
        None => Err(DecodeError::Malformed),
    }
}

} // verus!
