//! From decoded answers to display records.
//!
//! Nothing here reads a clock or writes to a terminal: the current instant
//! is an argument, and the outcome is a sequence of records whose texts the
//! caller may print as they are or decorate.
use vstd::prelude::*;
use vstd::string::*;
use crate::flow::Failure;
use crate::model::{EstimatedCall, Feature, Leg, Mode, Trip, TripPattern, TripPatternView};
use crate::text::{int_digits, nat_digits, push_int, push_nat};
use crate::time::{clock_of, minutes_until, Clock, Instant};

verus! {

/// A departure is shown with the minutes left until it when these are no
/// more than this many.
pub const SOON: i64 = 10;

/// One departure as it is shown.
#[derive(Clone, Debug, PartialEq, Eq)]
pub struct Departure {
    /// The public code of the line, where the call names its run.
    pub line: Option<String>,
    /// Where the vehicle is bound.
    pub destination: String,
    /// The expected time of departure, in the zone of the time stamp.
    pub clock: Clock,
    /// The whole minutes left until then, where these are no more than
    /// [`SOON`]; negative once the time is past.
    pub minutes: Option<i64>,
}

/// The public code of the line of a call, where the call names its run.
pub open spec fn line_code_of(call: EstimatedCall) -> Option<String> {
    match call.service_journey {
        Some(journey) => Some(journey.journey_pattern.line.public_code),
        None => None,
    }
}

/// How the call is shown at the instant `now`.
pub open spec fn departure_of(call: EstimatedCall, now: Instant) -> Departure {
    let left = minutes_until(now, call.expected_departure_time.instant);
    Departure {
        line: line_code_of(call),
        destination: call.destination_display.front_text,
        clock: clock_of(
            call.expected_departure_time.instant,
            call.expected_departure_time.offset,
        ),
        minutes: if left > SOON {
            None
        } else {
            Some(left as i64)
        },
    }
}

impl Departure {
    /// The time of the departure as text: the clock time alone, or the
    /// minutes left and the clock time in brackets.
    pub open spec fn time_text(self) -> Seq<char> {
        match self.minutes {
            Some(left) => int_digits(left as int) + " min ("@ + self.clock.text() + ")"@,
            None => self.clock.text(),
        }
    }

    /// The line and the destination as text; the destination alone where
    /// the line is not known.
    pub open spec fn heading_text(self) -> Seq<char> {
        match self.line {
            Some(code) => code@ + " "@ + self.destination@,
            None => self.destination@,
        }
    }

    /// The record for a call at the instant `now`.
    pub fn of(call: &EstimatedCall, now: &Instant) -> (r: Departure)
        ensures
            r == departure_of(*call, *now),
    {
        let left = now.minutes_until(&call.expected_departure_time.instant);
        let line = match &call.service_journey {
            Some(journey) => Some(journey.journey_pattern.line.public_code.clone()),
            None => None,
        };
        Departure {
            line,
            destination: call.destination_display.front_text.clone(),
            clock: call.expected_departure_time.clock(),
            minutes: if left > SOON {
                None
            } else {
                Some(left)
            },
        }
    }

    /// The time of the departure as text, `10:11` or `5 min (10:05)`.
    pub fn time(&self) -> (r: String)
        ensures
            r@ == self.time_text(),
    {
        let mut out = String::new();
        match self.minutes {
            Some(left) => {
                push_int(&mut out, left);
                out.append(" min (");
                self.clock.push_to(&mut out);
                out.append(")");
            },
            None => {
                self.clock.push_to(&mut out);
            },
        }
        out
    }

    /// The line and the destination as text.
    pub fn heading(&self) -> (r: String)
        ensures
            r@ == self.heading_text(),
    {
        let mut out = String::new();
        match &self.line {
            Some(code) => {
                out.append(code.as_str());
                out.append(" ");
                out.append(self.destination.as_str());
            },
            None => {
                out.append(self.destination.as_str());
            },
        }
        out
    }
}

/// The records for the calls of a stop place at the instant `now`: one for
/// each call, in the order of the calls.
pub fn departures(calls: &Vec<EstimatedCall>, now: &Instant) -> (r: Vec<Departure>)
    ensures
        r@ == calls@.map_values(|call: EstimatedCall| departure_of(call, *now)),
{
    let mut out: Vec<Departure> = Vec::new();
    let mut i: usize = 0;
    while i < calls.len()
        invariant
            i <= calls.len(),
            out@ == calls@.take(i as int).map_values(|call: EstimatedCall| departure_of(call, *now)),
        decreases calls.len() - i,
    {
        out.push(Departure::of(&calls[i], now));
        assert(calls@.take(i + 1) =~= calls@.take(i as int).push(calls@[i as int]));
        i += 1;
    }
    assert(calls@.take(i as int) =~= calls@);
    out
}

/// The minutes left are shown exactly when they are no more than ten, and
/// then as they are: a departure that is two minutes past shows minus two.
pub proof fn law_minutes_shown_when_soon(call: EstimatedCall, now: Instant)
    ensures
        ({
            let left = minutes_until(now, call.expected_departure_time.instant);
            let shown = departure_of(call, now);
            &&& left > 10 ==> shown.minutes is None && shown.time_text() == shown.clock.text()
            &&& left <= 10 ==> shown.minutes == Some(left as i64) && shown.minutes->0 == left
        }),
{
    let left = minutes_until(now, call.expected_departure_time.instant);
    assert(-0x8000_0000_0000_0000 <= left <= 0x7fff_ffff_ffff_ffff) by {
        let then = call.expected_departure_time.instant;
        assert(-0x1_0000_0000_0000_0000 < then.seconds - now.seconds < 0x1_0000_0000_0000_0000);
    }
}

/// A call without a service journey is shown with its destination and
/// without a line; one with a service journey shows the public code of its
/// line beside the same destination.
pub proof fn law_destination_shown_without_line(call: EstimatedCall, now: Instant)
    ensures
        departure_of(call, now).destination == call.destination_display.front_text,
        call.service_journey is None ==> departure_of(call, now).line is None && departure_of(
            call,
            now,
        ).heading_text() == call.destination_display.front_text@,
        call.service_journey matches Some(journey) ==> departure_of(call, now).line == Some(
            journey.journey_pattern.line.public_code,
        ),
{
}

/// The quotient of `a` by a positive `b`, rounded towards zero.
pub open spec fn quotient(a: int, b: int) -> int {
    if a >= 0 {
        a / b
    } else {
        -((-a) / b)
    }
}

/// A length of time in hours and minutes.
#[derive(Clone, Copy, Debug, PartialEq, Eq, Structural)]
pub struct Breakdown {
    pub hours: i64,
    pub minutes: i64,
}

/// The hours in a number of seconds and the minutes beyond them.
pub open spec fn breakdown_of(seconds: i64) -> Breakdown {
    let hours = quotient(seconds as int, 3600);
    Breakdown { hours: hours as i64, minutes: (quotient(seconds as int, 60) - hours * 60) as i64 }
}

impl Breakdown {
    /// The length of time as text: the hours only where there are any.
    pub open spec fn text(self) -> Seq<char> {
        if self.hours != 0 {
            int_digits(self.hours as int) + " h "@ + int_digits(self.minutes as int) + " min"@
        } else {
            int_digits(self.minutes as int) + " min"@
        }
    }

    /// Breaks a number of seconds down into hours and minutes.
    pub fn of(seconds: i64) -> (r: Breakdown)
        ensures
            r == breakdown_of(seconds),
    {
        let hours: i64 = seconds / 3600;
        let minutes: i64 = seconds / 60 - hours * 60;
        Breakdown { hours, minutes }
    }

    /// The length of time as text, `1 h 30 min` or `5 min`.
    pub fn to_text(&self) -> (r: String)
        ensures
            r@ == self.text(),
    {
        let mut out = String::new();
        if self.hours != 0 {
            push_int(&mut out, self.hours);
            out.append(" h ");
        }
        push_int(&mut out, self.minutes);
        out.append(" min");
        out
    }
}

/// For a length of time that is not negative, the minutes of its breakdown
/// are fewer than sixty, and hours and minutes together make up its whole
/// minutes.
pub proof fn law_breakdown_adds_up(seconds: i64)
    requires
        seconds >= 0,
    ensures
        0 <= breakdown_of(seconds).minutes < 60,
        breakdown_of(seconds).hours * 60 + breakdown_of(seconds).minutes == seconds as int / 60,
{
}

/// One end of a leg as it is shown.
#[derive(Clone, Debug, PartialEq, Eq)]
pub struct Endpoint {
    /// The planned time of departure there.
    pub clock: Clock,
    /// The name of the quay.
    pub quay: String,
    /// The platform code of the quay, where it has one.
    pub platform: Option<String>,
}

/// How a leg is travelled, as it is shown.
#[derive(Clone, Debug, PartialEq, Eq)]
pub enum Travel {
    /// On foot, for so many whole minutes.
    Walk { minutes: i64 },
    /// On a vehicle, for so many whole minutes: the public code of the line
    /// where the leg has one, and the destination shown at the stop where
    /// the leg is left, where there is one.
    Ride { line: Option<String>, destination: Option<String>, minutes: i64 },
}

/// One leg as it is shown: where it begins, how it is travelled, where it
/// ends. An end that is no stop is left out.
#[derive(Clone, Debug, PartialEq, Eq)]
pub struct LegRecord {
    pub from: Option<Endpoint>,
    pub travel: Travel,
    pub to: Option<Endpoint>,
}

/// One proposal for a trip as it is shown.
#[derive(Clone, Debug, PartialEq, Eq)]
pub struct Itinerary {
    pub duration: Breakdown,
    pub legs: Vec<LegRecord>,
}

/// An itinerary as a mathematical value: its legs as a sequence.
pub struct ItineraryView {
    pub duration: Breakdown,
    pub legs: Seq<LegRecord>,
}

impl View for Itinerary {
    type V = ItineraryView;

    open spec fn view(&self) -> ItineraryView {
        ItineraryView { duration: self.duration, legs: self.legs@ }
    }
}

/// How the stop of a call is shown as one end of a leg.
pub open spec fn endpoint_of(call: EstimatedCall) -> Endpoint {
    Endpoint {
        clock: clock_of(call.aimed_departure_time.instant, call.aimed_departure_time.offset),
        quay: call.quay.name,
        platform: call.quay.public_code,
    }
}

/// How an end of a leg is shown, where it is a stop.
pub open spec fn end_of(call: Option<EstimatedCall>) -> Option<Endpoint> {
    match call {
        Some(call) => Some(endpoint_of(call)),
        None => None,
    }
}

/// How the way along a leg is shown.
pub open spec fn travel_of(leg: Leg) -> Travel {
    if leg.mode == Mode::Foot {
        Travel::Walk { minutes: quotient(leg.duration as int, 60) as i64 }
    } else {
        Travel::Ride {
            line: match leg.line {
                Some(line) => Some(line.public_code),
                None => None,
            },
            destination: match leg.to_estimated_call {
                Some(call) => Some(call.destination_display.front_text),
                None => None,
            },
            minutes: quotient(leg.duration as int, 60) as i64,
        }
    }
}

/// How a leg is shown.
pub open spec fn leg_record_of(leg: Leg) -> LegRecord {
    LegRecord {
        from: end_of(leg.from_estimated_call),
        travel: travel_of(leg),
        to: end_of(leg.to_estimated_call),
    }
}

/// How a trip pattern is shown.
pub open spec fn itinerary_of(pattern: TripPatternView) -> ItineraryView {
    ItineraryView {
        duration: breakdown_of(pattern.duration),
        legs: pattern.legs.map_values(|leg: Leg| leg_record_of(leg)),
    }
}

impl Endpoint {
    /// The end of a leg as text: clock time, quay and, where the quay has
    /// one, its platform.
    pub open spec fn text(self) -> Seq<char> {
        let place = self.clock.text() + " "@ + self.quay@;
        match self.platform {
            Some(code) => place + " Spor "@ + code@,
            None => place,
        }
    }

    /// The record for the stop of a call.
    pub fn of(call: &EstimatedCall) -> (r: Endpoint)
        ensures
            r == endpoint_of(*call),
    {
        Endpoint {
            clock: call.aimed_departure_time.clock(),
            quay: call.quay.name.clone(),
            platform: match &call.quay.public_code {
                Some(code) => Some(code.clone()),
                None => None,
            },
        }
    }

    /// The end of a leg as text, `08:15 Jernbanetorget Spor 2`.
    pub fn to_text(&self) -> (r: String)
        ensures
            r@ == self.text(),
    {
        let mut out = String::new();
        self.clock.push_to(&mut out);
        out.append(" ");
        out.append(self.quay.as_str());
        match &self.platform {
            Some(code) => {
                out.append(" Spor ");
                out.append(code.as_str());
            },
            None => {},
        }
        out
    }
}

impl Travel {
    /// The time that the leg takes as text: a walk says that it is one.
    pub open spec fn text(self) -> Seq<char> {
        match self {
            Travel::Walk { minutes } => "Walk "@ + int_digits(minutes as int) + " minutes"@,
            Travel::Ride { minutes, .. } => int_digits(minutes as int) + " min"@,
        }
    }

    /// The record for the way along a leg.
    pub fn of(leg: &Leg) -> (r: Travel)
        ensures
            r == travel_of(*leg),
    {
        let minutes: i64 = leg.duration / 60;
        if leg.mode.is_foot() {
            Travel::Walk { minutes }
        } else {
            Travel::Ride {
                line: match &leg.line {
                    Some(line) => Some(line.public_code.clone()),
                    None => None,
                },
                destination: match &leg.to_estimated_call {
                    Some(call) => Some(call.destination_display.front_text.clone()),
                    None => None,
                },
                minutes,
            }
        }
    }

    /// The time that the leg takes as text, `Walk 4 minutes` or `12 min`.
    pub fn to_text(&self) -> (r: String)
        ensures
            r@ == self.text(),
    {
        let mut out = String::new();
        match self {
            Travel::Walk { minutes } => {
                out.append("Walk ");
                push_int(&mut out, *minutes);
                out.append(" minutes");
            },
            Travel::Ride { minutes, .. } => {
                push_int(&mut out, *minutes);
                out.append(" min");
            },
        }
        out
    }
}

impl LegRecord {
    /// The record for a leg.
    pub fn of(leg: &Leg) -> (r: LegRecord)
        ensures
            r == leg_record_of(*leg),
    {
        LegRecord {
            from: match &leg.from_estimated_call {
                Some(call) => Some(Endpoint::of(call)),
                None => None,
            },
            travel: Travel::of(leg),
            to: match &leg.to_estimated_call {
                Some(call) => Some(Endpoint::of(call)),
                None => None,
            },
        }
    }
}

impl Itinerary {
    /// The record for a trip pattern: its duration broken down, and one
    /// record for each leg, in the order of the legs.
    pub fn of(pattern: &TripPattern) -> (r: Itinerary)
        ensures
            r@ == itinerary_of(pattern@),
    {
        let mut legs: Vec<LegRecord> = Vec::new();
        let mut i: usize = 0;
        while i < pattern.legs.len()
            invariant
                i <= pattern.legs.len(),
                legs@ == pattern.legs@.take(i as int).map_values(|leg: Leg| leg_record_of(leg)),
            decreases pattern.legs.len() - i,
        {
            legs.push(LegRecord::of(&pattern.legs[i]));
            assert(pattern.legs@.take(i + 1) =~= pattern.legs@.take(i as int).push(
                pattern.legs@[i as int],
            ));
            i += 1;
        }
        assert(pattern.legs@.take(i as int) =~= pattern.legs@);
        Itinerary { duration: Breakdown::of(pattern.duration), legs }
    }
}

/// The records for the proposals of a trip: one for each trip pattern, in
/// the order of the answer.
pub fn itineraries(trip: &Trip) -> (r: Vec<Itinerary>)
    ensures
        r@.map_values(|it: Itinerary| it@) == trip@.trip_patterns.map_values(
            |pattern: TripPatternView| itinerary_of(pattern),
        ),
{
    let mut out: Vec<Itinerary> = Vec::new();
    let mut i: usize = 0;
    while i < trip.trip_patterns.len()
        invariant
            i <= trip.trip_patterns.len(),
            out@.len() == i,
            forall|k: int| 0 <= k < i ==> (#[trigger] out@[k])@ == itinerary_of(trip.trip_patterns@[k]@),
        decreases trip.trip_patterns.len() - i,
    {
        out.push(Itinerary::of(&trip.trip_patterns[i]));
        i += 1;
    }
    assert(out@.map_values(|it: Itinerary| it@) =~= trip@.trip_patterns.map_values(
        |pattern: TripPatternView| itinerary_of(pattern),
    ));
    out
}

/// One candidate of a stop search as it is offered for choice.
#[derive(Clone, Debug, PartialEq, Eq)]
pub struct Choice {
    /// The number to enter for this candidate: its place in the sequence of
    /// candidates, counted from 1.
    pub ordinal: usize,
    pub name: String,
    pub locality: String,
    pub county: String,
}

/// How the candidate at `index` is offered for choice.
pub open spec fn choice_of(index: int, feature: Feature) -> Choice {
    Choice {
        ordinal: (index + 1) as usize,
        name: feature.properties.name,
        locality: feature.properties.locality,
        county: feature.properties.county,
    }
}

impl Choice {
    /// The candidate as text: its number, its name, and where it lies.
    pub open spec fn text(self) -> Seq<char> {
        nat_digits(self.ordinal as nat) + " - "@ + self.name@ + " ("@ + self.locality@ + " - "@
            + self.county@ + ")"@
    }

    /// The candidate as text, `2 - Majorstuen (Oslo - Oslo)`.
    pub fn to_text(&self) -> (r: String)
        ensures
            r@ == self.text(),
    {
        let mut out = String::new();
        push_nat(&mut out, self.ordinal as u64);
        out.append(" - ");
        out.append(self.name.as_str());
        out.append(" (");
        out.append(self.locality.as_str());
        out.append(" - ");
        out.append(self.county.as_str());
        out.append(")");
        out
    }
}

/// The candidates of a stop search as they are offered for choice: one
/// record for each, in their order, numbered from 1.
pub fn choices(features: &Vec<Feature>) -> (r: Vec<Choice>)
    ensures
        r@.len() == features@.len(),
        forall|i: int| 0 <= i < features@.len() ==> (#[trigger] r@[i]) == choice_of(i, features@[i]),
{
    let mut out: Vec<Choice> = Vec::new();
    let mut i: usize = 0;
    while i < features.len()
        invariant
            i <= features.len(),
            out@.len() == i,
            forall|k: int| 0 <= k < i ==> (#[trigger] out@[k]) == choice_of(k, features@[k]),
        decreases features.len() - i,
    {
        let stop = &features[i].properties;
        out.push(
            Choice {
                ordinal: i + 1,
                name: stop.name.clone(),
                locality: stop.locality.clone(),
                county: stop.county.clone(),
            },
        );
        i += 1;
    }
    out
}

/// The range of valid choices among `count` candidates as text.
pub open spec fn range_text(count: usize) -> Seq<char> {
    "(1 - "@ + nat_digits(count as nat) + ")"@
}

/// The question put to the user who is to choose among `count` candidates.
pub open spec fn prompt_text(count: usize) -> Seq<char> {
    "Which stop "@ + range_text(count) + ": "@
}

/// What the user is told after a choice that is none: that it was not
/// valid, and the range in which a valid one lies.
pub open spec fn prompt_again_text(count: usize) -> Seq<char> {
    "Invalid stop - pick another one "@ + range_text(count) + ": "@
}

/// What the user is told when a command ends without a result; `query` is
/// the text that was searched for.
pub open spec fn failure_text(failure: Failure, query: Seq<char>) -> Seq<char> {
    match failure {
        Failure::NoMatch(_) => "Could not find any stops using query: "@ + query,
        Failure::Transport => "Could not reach the service. Please try again later."@,
        Failure::Parse => "Could not read the answer of the service."@,
        Failure::InputClosed => "No stop was chosen."@,
    }
}

fn push_range(out: &mut String, count: usize)
    ensures
        final(out)@ == old(out)@ + range_text(count),
{
    out.append("(1 - ");
    push_nat(out, count as u64);
    out.append(")");
    assert(final(out)@ =~= old(out)@ + range_text(count));
}

/// The question put to the user, `Which stop (1 - 4): `.
pub fn prompt(count: usize) -> (r: String)
    ensures
        r@ == prompt_text(count),
{
    let mut out = String::from_str("Which stop ");
    push_range(&mut out, count);
    out.append(": ");
    out
}

/// The answer to a choice that is none, with the valid range,
/// `Invalid stop - pick another one (1 - 4): `.
pub fn prompt_again(count: usize) -> (r: String)
    ensures
        r@ == prompt_again_text(count),
{
    let mut out = String::from_str("Invalid stop - pick another one ");
    push_range(&mut out, count);
    out.append(": ");
    out
}

/// The message for a command that ends without a result.
pub fn failure_message(failure: &Failure, query: &str) -> (r: String)
    ensures
        r@ == failure_text(*failure, query@),
{
    match failure {
        Failure::NoMatch(_) => {
            let mut out = String::from_str("Could not find any stops using query: ");
            out.append(query);
            out
        },
        Failure::Transport => String::from_str(
            "Could not reach the service. Please try again later.",
        ),
        Failure::Parse => String::from_str("Could not read the answer of the service."),
        Failure::InputClosed => String::from_str("No stop was chosen."),
    }
}

} // verus!
