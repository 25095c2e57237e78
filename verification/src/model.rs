//! The answers of the service as typed values.
//!
//! Sequences keep the order in which the service sent them. A member that
//! the service may leave out is an `Option`; every other member is required.
use vstd::prelude::*;
use vstd::string::*;
use crate::text::str_eq;
use crate::time::Timestamp;

verus! {

/// A means of transport. The set is closed: the service names no other.
#[derive(Clone, Copy, Debug, PartialEq, Eq, Structural)]
pub enum Mode {
    Air,
    Bicycle,
    Bus,
    Cableway,
    Water,
    Funicular,
    Lift,
    Rail,
    Metro,
    Tram,
    Trolleybus,
    Monorail,
    Coach,
    Foot,
    Car,
    Scooter,
}

/// What a vehicle shows as its destination.
#[derive(Clone, Debug, PartialEq, Eq)]
pub struct DestinationDisplay {
    pub front_text: String,
}

/// A platform or bay of a stop place.
#[derive(Clone, Debug, PartialEq, Eq)]
pub struct Quay {
    pub id: String,
    pub name: String,
    /// The platform code, where the quay has one.
    pub public_code: Option<String>,
    pub description: Option<String>,
}

/// A line of the network.
#[derive(Clone, Debug, PartialEq, Eq)]
pub struct Line {
    pub id: String,
    /// The code under which passengers know the line.
    pub public_code: String,
    pub name: String,
    pub transport_mode: Mode,
}

/// The pattern that a service journey follows.
#[derive(Clone, Debug, PartialEq, Eq)]
pub struct JourneyPattern {
    pub line: Line,
}

/// One run of a vehicle.
#[derive(Clone, Debug, PartialEq, Eq)]
pub struct ServiceJourney {
    pub id: String,
    pub journey_pattern: JourneyPattern,
}

/// One visit of a vehicle to a quay, as planned and as expected.
#[derive(Clone, Debug, PartialEq, Eq)]
pub struct EstimatedCall {
    pub realtime: bool,
    pub aimed_departure_time: Timestamp,
    pub expected_departure_time: Timestamp,
    /// The day of operation, as the service writes it.
    pub date: String,
    pub for_boarding: bool,
    pub destination_display: DestinationDisplay,
    pub quay: Quay,
    /// The run that makes the call; absent where the service knows none.
    pub service_journey: Option<ServiceJourney>,
}

/// A stop place with its coming calls, in the order of the service.
#[derive(Clone, Debug, PartialEq, Eq)]
pub struct StopPlace {
    pub id: String,
    pub name: String,
    pub estimated_calls: Vec<EstimatedCall>,
}

/// The payload of an answer to a departures request.
#[derive(Clone, Debug, PartialEq, Eq)]
pub struct StopPlaceResponse {
    pub stop_place: StopPlace,
}

/// The envelope in which the service wraps a payload.
#[derive(Clone, Debug, PartialEq, Eq)]
pub struct Wrapper<T> {
    pub data: T,
}

/// A position: longitude and latitude in degrees, each as the numeral that
/// the service sent. The library carries them and does not compute on them.
#[derive(Clone, Debug, PartialEq, Eq)]
pub struct Geometry {
    pub longitude: String,
    pub latitude: String,
}

/// A stop as the search describes it.
#[derive(Clone, Debug, PartialEq, Eq)]
pub struct Stop {
    pub id: String,
    pub name: String,
    pub locality: String,
    pub county: String,
}

/// One candidate of a stop search.
#[derive(Clone, Debug, PartialEq, Eq)]
pub struct Feature {
    pub geometry: Geometry,
    pub properties: Stop,
}

/// The candidates of a stop search, best match first.
#[derive(Clone, Debug, PartialEq, Eq)]
pub struct Geocode {
    pub features: Vec<Feature>,
}

/// A stop search answer under its `geocoding` member.
#[derive(Clone, Debug, PartialEq, Eq)]
pub struct GeocodeResponse {
    pub geocoding: Geocode,
}

/// One part of a trip: a ride on a line, or a walk.
#[derive(Clone, Debug, PartialEq, Eq)]
pub struct Leg {
    pub expected_start_time: Timestamp,
    pub expected_end_time: Timestamp,
    /// In seconds.
    pub duration: i64,
    pub mode: Mode,
    /// In metres, as the numeral that the service sent.
    pub distance: String,
    /// Absent on a walk.
    pub line: Option<Line>,
    /// Absent where the leg begins at a place that is no stop.
    pub from_estimated_call: Option<EstimatedCall>,
    /// Absent where the leg ends at a place that is no stop.
    pub to_estimated_call: Option<EstimatedCall>,
}

/// One way to make a trip, as a sequence of legs.
#[derive(Clone, Debug, PartialEq, Eq)]
pub struct TripPattern {
    /// In seconds.
    pub duration: i64,
    /// In metres, as the numeral that the service sent.
    pub walk_distance: String,
    pub legs: Vec<Leg>,
}

/// The ways to make a trip that the service proposes.
#[derive(Clone, Debug, PartialEq, Eq)]
pub struct Trip {
    pub trip_patterns: Vec<TripPattern>,
}

/// The payload of an answer to a trip request.
#[derive(Clone, Debug, PartialEq, Eq)]
pub struct TripResponse {
    pub trip: Trip,
}

/// A stop place as a mathematical value: its calls as a sequence.
pub struct StopPlaceView {
    pub id: String,
    pub name: String,
    pub estimated_calls: Seq<EstimatedCall>,
}

/// The payload of a departures answer as a mathematical value.
pub struct StopPlaceResponseView {
    pub stop_place: StopPlaceView,
}

/// The candidates of a stop search as a mathematical value.
pub struct GeocodeView {
    pub features: Seq<Feature>,
}

/// A stop search answer as a mathematical value.
pub struct GeocodeResponseView {
    pub geocoding: GeocodeView,
}

/// A trip pattern as a mathematical value: its legs as a sequence.
pub struct TripPatternView {
    pub duration: i64,
    pub walk_distance: String,
    pub legs: Seq<Leg>,
}

/// The proposals for a trip as a mathematical value.
pub struct TripView {
    pub trip_patterns: Seq<TripPatternView>,
}

/// The payload of a trip answer as a mathematical value.
pub struct TripResponseView {
    pub trip: TripView,
}

impl View for StopPlace {
    type V = StopPlaceView;

    open spec fn view(&self) -> StopPlaceView {
        StopPlaceView { id: self.id, name: self.name, estimated_calls: self.estimated_calls@ }
    }
}

impl View for StopPlaceResponse {
    type V = StopPlaceResponseView;

    open spec fn view(&self) -> StopPlaceResponseView {
        StopPlaceResponseView { stop_place: self.stop_place@ }
    }
}

impl View for Geocode {
    type V = GeocodeView;

    open spec fn view(&self) -> GeocodeView {
        GeocodeView { features: self.features@ }
    }
}

impl View for GeocodeResponse {
    type V = GeocodeResponseView;

    open spec fn view(&self) -> GeocodeResponseView {
        GeocodeResponseView { geocoding: self.geocoding@ }
    }
}

impl View for TripPattern {
    type V = TripPatternView;

    open spec fn view(&self) -> TripPatternView {
        TripPatternView {
            duration: self.duration,
            walk_distance: self.walk_distance,
            legs: self.legs@,
        }
    }
}

impl View for Trip {
    type V = TripView;

    open spec fn view(&self) -> TripView {
        TripView { trip_patterns: self.trip_patterns@.map_values(|p: TripPattern| p@) }
    }
}

impl View for TripResponse {
    type V = TripResponseView;

    open spec fn view(&self) -> TripResponseView {
        TripResponseView { trip: self.trip@ }
    }
}

impl<T: View> View for Wrapper<T> {
    type V = Wrapper<T::V>;

    open spec fn view(&self) -> Wrapper<T::V> {
        Wrapper { data: self.data@ }
    }
}

impl Mode {
    /// The name of the mode in the answers of the service.
    pub open spec fn wire_name(self) -> Seq<char> {
        match self {
            Mode::Air => "air"@,
            Mode::Bicycle => "bicycle"@,
            Mode::Bus => "bus"@,
            Mode::Cableway => "cableway"@,
            Mode::Water => "water"@,
            Mode::Funicular => "funicular"@,
            Mode::Lift => "lift"@,
            Mode::Rail => "rail"@,
            Mode::Metro => "metro"@,
            Mode::Tram => "tram"@,
            Mode::Trolleybus => "trolleybus"@,
            Mode::Monorail => "monorail"@,
            Mode::Coach => "coach"@,
            Mode::Foot => "foot"@,
            Mode::Car => "car"@,
            Mode::Scooter => "scooter"@,
        }
    }

    /// The name of the mode for display.
    pub open spec fn label(self) -> Seq<char> {
        match self {
            Mode::Air => "Air"@,
            Mode::Bicycle => "Bicycle"@,
            Mode::Bus => "Bus"@,
            Mode::Cableway => "Cableway"@,
            Mode::Water => "Water"@,
            Mode::Funicular => "Funicular"@,
            Mode::Lift => "Lift"@,
            Mode::Rail => "Rail"@,
            Mode::Metro => "Metro"@,
            Mode::Tram => "Tram"@,
            Mode::Trolleybus => "Trolleybus"@,
            Mode::Monorail => "Monorail"@,
            Mode::Coach => "Coach"@,
            Mode::Foot => "Foot"@,
            Mode::Car => "Car"@,
            Mode::Scooter => "Scooter"@,
        }
    }

    /// The mode that the service calls `name`; `None` for every text that
    /// is not the name of a mode.
    pub open spec fn named(name: Seq<char>) -> Option<Mode> {
        if name == "air"@ {
            Some(Mode::Air)
        } else if name == "bicycle"@ {
            Some(Mode::Bicycle)
        } else if name == "bus"@ {
            Some(Mode::Bus)
        } else if name == "cableway"@ {
            Some(Mode::Cableway)
        } else if name == "water"@ {
            Some(Mode::Water)
        } else if name == "funicular"@ {
            Some(Mode::Funicular)
        } else if name == "lift"@ {
            Some(Mode::Lift)
        } else if name == "rail"@ {
            Some(Mode::Rail)
        } else if name == "metro"@ {
            Some(Mode::Metro)
        } else if name == "tram"@ {
            Some(Mode::Tram)
        } else if name == "trolleybus"@ {
            Some(Mode::Trolleybus)
        } else if name == "monorail"@ {
            Some(Mode::Monorail)
        } else if name == "coach"@ {
            Some(Mode::Coach)
        } else if name == "foot"@ {
            Some(Mode::Foot)
        } else if name == "car"@ {
            Some(Mode::Car)
        } else if name == "scooter"@ {
            Some(Mode::Scooter)
        } else {
            None
        }
    }

    /// Reads the name of a mode as the service writes it. A text that names
    /// no mode gives `None`, never some mode in its place.
    pub fn from_name(name: &str) -> (r: Option<Mode>)
        ensures
            r == Mode::named(name@),
    {
        if str_eq(name, "air") {
            Some(Mode::Air)
        } else if str_eq(name, "bicycle") {
            Some(Mode::Bicycle)
        } else if str_eq(name, "bus") {
            Some(Mode::Bus)
        } else if str_eq(name, "cableway") {
            Some(Mode::Cableway)
        } else if str_eq(name, "water") {
            Some(Mode::Water)
        } else if str_eq(name, "funicular") {
            Some(Mode::Funicular)
        } else if str_eq(name, "lift") {
            Some(Mode::Lift)
        } else if str_eq(name, "rail") {
            Some(Mode::Rail)
        } else if str_eq(name, "metro") {
            Some(Mode::Metro)
        } else if str_eq(name, "tram") {
            Some(Mode::Tram)
        } else if str_eq(name, "trolleybus") {
            Some(Mode::Trolleybus)
        } else if str_eq(name, "monorail") {
            Some(Mode::Monorail)
        } else if str_eq(name, "coach") {
            Some(Mode::Coach)
        } else if str_eq(name, "foot") {
            Some(Mode::Foot)
        } else if str_eq(name, "car") {
            Some(Mode::Car)
        } else if str_eq(name, "scooter") {
            Some(Mode::Scooter)
        } else {
            None
        }
    }

    /// The name of the mode as the service writes it.
    pub fn name(&self) -> (r: &'static str)
        ensures
            r@ == self.wire_name(),
    {
        match self {
            Mode::Air => "air",
            Mode::Bicycle => "bicycle",
            Mode::Bus => "bus",
            Mode::Cableway => "cableway",
            Mode::Water => "water",
            Mode::Funicular => "funicular",
            Mode::Lift => "lift",
            Mode::Rail => "rail",
            Mode::Metro => "metro",
            Mode::Tram => "tram",
            Mode::Trolleybus => "trolleybus",
            Mode::Monorail => "monorail",
            Mode::Coach => "coach",
            Mode::Foot => "foot",
            Mode::Car => "car",
            Mode::Scooter => "scooter",
        }
    }

    /// The name of the mode for display, with a capital letter.
    pub fn to_text(&self) -> (r: String)
        ensures
            r@ == self.label(),
    {
        let label = match self {
            Mode::Air => "Air",
            Mode::Bicycle => "Bicycle",
            Mode::Bus => "Bus",
            Mode::Cableway => "Cableway",
            Mode::Water => "Water",
            Mode::Funicular => "Funicular",
            Mode::Lift => "Lift",
            Mode::Rail => "Rail",
            Mode::Metro => "Metro",
            Mode::Tram => "Tram",
            Mode::Trolleybus => "Trolleybus",
            Mode::Monorail => "Monorail",
            Mode::Coach => "Coach",
            Mode::Foot => "Foot",
            Mode::Car => "Car",
            Mode::Scooter => "Scooter",
        };
        String::from_str(label)
    }

    /// Whether the mode is walking.
    pub fn is_foot(&self) -> (b: bool)
        ensures
            b == (*self == Mode::Foot),
    {
        match self {
            Mode::Foot => true,
            _ => false,
        }
    }
}

/// Every mode is read back from its own name: no two modes share a name.
pub proof fn law_mode_names_are_distinct(mode: Mode)
    ensures
        Mode::named(mode.wire_name()) == Some(mode),
{
    reveal_strlit("air");
    reveal_strlit("bicycle");
    reveal_strlit("bus");
    reveal_strlit("cableway");
    reveal_strlit("water");
    reveal_strlit("funicular");
    reveal_strlit("lift");
    reveal_strlit("rail");
    reveal_strlit("metro");
    reveal_strlit("tram");
    reveal_strlit("trolleybus");
    reveal_strlit("monorail");
    reveal_strlit("coach");
    reveal_strlit("foot");
    reveal_strlit("car");
    reveal_strlit("scooter");
    assert("air"@.len() == 3 && "air"@[0] == 'a');
    assert("bicycle"@.len() == 7 && "bicycle"@[0] == 'b');
    assert("bus"@.len() == 3 && "bus"@[0] == 'b');
    assert("cableway"@.len() == 8 && "cableway"@[0] == 'c');
    assert("water"@.len() == 5 && "water"@[0] == 'w');
    assert("funicular"@.len() == 9 && "funicular"@[0] == 'f');
    assert("lift"@.len() == 4 && "lift"@[0] == 'l');
    assert("rail"@.len() == 4 && "rail"@[0] == 'r');
    assert("metro"@.len() == 5 && "metro"@[0] == 'm');
    assert("tram"@.len() == 4 && "tram"@[0] == 't');
    assert("trolleybus"@.len() == 10 && "trolleybus"@[0] == 't');
    assert("monorail"@.len() == 8 && "monorail"@[0] == 'm');
    assert("coach"@.len() == 5 && "coach"@[0] == 'c');
    assert("foot"@.len() == 4 && "foot"@[0] == 'f');
    assert("car"@.len() == 3 && "car"@[0] == 'c');
    assert("scooter"@.len() == 7 && "scooter"@[0] == 's');
}

} // verus!
