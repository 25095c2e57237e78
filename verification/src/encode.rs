//! Encoding of calls back into JSON values, and the proof that decoding
//! reads back what encoding wrote, call for call and in the same order.
use vstd::prelude::*;
use vstd::string::*;
use crate::decode::{all_of, decoded_calls, law_all_of_keeps_order, required, DecodeError};
use crate::json::{find_member, Json, Member};
use crate::model::{
    law_mode_names_are_distinct, DestinationDisplay, EstimatedCall, JourneyPattern, Line, Quay,
    ServiceJourney, StopPlace, StopPlaceView,
};

verus! {

/// Whether `member` has the key `key` and the value `value`.
pub open spec fn holds(member: Member, key: Seq<char>, value: Json) -> bool {
    member.key@ == key && member.value == value
}

/// The JSON value of a string that may be absent: `null` where it is.
pub open spec fn text_or_null(text: Option<String>) -> Json {
    match text {
        Some(text) => Json::Text(text),
        None => Json::Null,
    }
}

/// Whether `json` is the encoding of `display`.
pub open spec fn encodes_display(json: Json, display: DestinationDisplay) -> bool {
    &&& json matches Json::Object(members)
    &&& members@.len() == 1
    &&& holds(members@[0], "frontText"@, Json::Text(display.front_text))
}

/// Whether `json` is the encoding of `quay`.
pub open spec fn encodes_quay(json: Json, quay: Quay) -> bool {
    &&& json matches Json::Object(members)
    &&& members@.len() == 4
    &&& holds(members@[0], "id"@, Json::Text(quay.id))
    &&& holds(members@[1], "name"@, Json::Text(quay.name))
    &&& holds(members@[2], "publicCode"@, text_or_null(quay.public_code))
    &&& holds(members@[3], "description"@, text_or_null(quay.description))
}

/// Whether `json` is the encoding of `line`.
pub open spec fn encodes_line(json: Json, line: Line) -> bool {
    &&& json matches Json::Object(members)
    &&& members@.len() == 4
    &&& holds(members@[0], "id"@, Json::Text(line.id))
    &&& holds(members@[1], "publicCode"@, Json::Text(line.public_code))
    &&& holds(members@[2], "name"@, Json::Text(line.name))
    &&& members@[3].key@ == "transportMode"@
    &&& members@[3].value matches Json::Text(name)
    &&& name@ == line.transport_mode.wire_name()
}

/// Whether `json` is the encoding of `pattern`.
pub open spec fn encodes_pattern(json: Json, pattern: JourneyPattern) -> bool {
    &&& json matches Json::Object(members)
    &&& members@.len() == 1
    &&& members@[0].key@ == "line"@
    &&& encodes_line(members@[0].value, pattern.line)
}

/// Whether `json` is the encoding of `journey`.
pub open spec fn encodes_journey(json: Json, journey: ServiceJourney) -> bool {
    &&& json matches Json::Object(members)
    &&& members@.len() == 2
    &&& holds(members@[0], "id"@, Json::Text(journey.id))
    &&& members@[1].key@ == "journeyPattern"@
    &&& encodes_pattern(members@[1].value, journey.journey_pattern)
}

/// Whether `json` is the encoding of `call`: an object with the members of
/// a call in the order of the model, time stamps as the texts they were
/// read from, and `null` where there is no service journey.
pub open spec fn encodes_call(json: Json, call: EstimatedCall) -> bool {
    &&& json matches Json::Object(members)
    &&& members@.len() == 8
    &&& holds(members@[0], "realtime"@, Json::Bool(call.realtime))
    &&& holds(members@[1], "aimedDepartureTime"@, Json::Text(call.aimed_departure_time.text))
    &&& holds(members@[2], "expectedDepartureTime"@, Json::Text(call.expected_departure_time.text))
    &&& holds(members@[3], "date"@, Json::Text(call.date))
    &&& holds(members@[4], "forBoarding"@, Json::Bool(call.for_boarding))
    &&& members@[5].key@ == "destinationDisplay"@
    &&& encodes_display(members@[5].value, call.destination_display)
    &&& members@[6].key@ == "quay"@
    &&& encodes_quay(members@[6].value, call.quay)
    &&& members@[7].key@ == "serviceJourney"@
    &&& match call.service_journey {
        Some(journey) => encodes_journey(members@[7].value, journey),
        None => members@[7].value == Json::Null,
    }
}

/// Whether `json` is the encoding of `calls`: an array with one item for
/// each call, in the order of the calls.
pub open spec fn encodes_calls(json: Json, calls: Seq<EstimatedCall>) -> bool {
    &&& json matches Json::Array(items)
    &&& items@.len() == calls.len()
    &&& forall|i: int| 0 <= i < calls.len() ==> encodes_call(#[trigger] items@[i], calls[i])
}

/// Whether the time stamps of a call name the instants that their texts
/// stand for, as those of every decoded call do.
pub open spec fn call_wf(call: EstimatedCall) -> bool {
    call.aimed_departure_time.wf() && call.expected_departure_time.wf()
}

fn member(key: &str, value: Json) -> (m: Member)
    ensures
        holds(m, key@, value),
{
    Member { key: String::from_str(key), value }
}

fn text_json(text: &String) -> (json: Json)
    ensures
        json == Json::Text(*text),
{
    Json::Text(text.clone())
}

fn optional_text_json(text: &Option<String>) -> (json: Json)
    ensures
        json == text_or_null(*text),
{
    match text {
        Some(text) => Json::Text(text.clone()),
        None => Json::Null,
    }
}

impl DestinationDisplay {
    /// Encodes the destination display.
    pub fn to_json(&self) -> (json: Json)
        ensures
            encodes_display(json, *self),
    {
        let mut members: Vec<Member> = Vec::new();
        members.push(member("frontText", text_json(&self.front_text)));
        Json::Object(members)
    }
}

impl Quay {
    /// Encodes the quay; what it lacks becomes `null`.
    pub fn to_json(&self) -> (json: Json)
        ensures
            encodes_quay(json, *self),
    {
        let mut members: Vec<Member> = Vec::new();
        members.push(member("id", text_json(&self.id)));
        members.push(member("name", text_json(&self.name)));
        members.push(member("publicCode", optional_text_json(&self.public_code)));
        members.push(member("description", optional_text_json(&self.description)));
        Json::Object(members)
    }
}

impl Line {
    /// Encodes the line, its transport mode by the name of the service.
    pub fn to_json(&self) -> (json: Json)
        ensures
            encodes_line(json, *self),
    {
        let mut members: Vec<Member> = Vec::new();
        members.push(member("id", text_json(&self.id)));
        members.push(member("publicCode", text_json(&self.public_code)));
        members.push(member("name", text_json(&self.name)));
        members.push(
            member("transportMode", Json::Text(String::from_str(self.transport_mode.name()))),
        );
        Json::Object(members)
    }
}

impl JourneyPattern {
    /// Encodes the journey pattern.
    pub fn to_json(&self) -> (json: Json)
        ensures
            encodes_pattern(json, *self),
    {
        let mut members: Vec<Member> = Vec::new();
        members.push(member("line", self.line.to_json()));
        Json::Object(members)
    }
}

impl ServiceJourney {
    /// Encodes the service journey.
    pub fn to_json(&self) -> (json: Json)
        ensures
            encodes_journey(json, *self),
    {
        let mut members: Vec<Member> = Vec::new();
        members.push(member("id", text_json(&self.id)));
        members.push(member("journeyPattern", self.journey_pattern.to_json()));
        Json::Object(members)
    }
}

impl EstimatedCall {
    /// Encodes the call.
    pub fn to_json(&self) -> (json: Json)
        ensures
            encodes_call(json, *self),
    {
        let mut members: Vec<Member> = Vec::new();
        members.push(member("realtime", Json::Bool(self.realtime)));
        members.push(member("aimedDepartureTime", text_json(&self.aimed_departure_time.text)));
        members.push(
            member("expectedDepartureTime", text_json(&self.expected_departure_time.text)),
        );
        members.push(member("date", text_json(&self.date)));
        members.push(member("forBoarding", Json::Bool(self.for_boarding)));
        members.push(member("destinationDisplay", self.destination_display.to_json()));
        members.push(member("quay", self.quay.to_json()));
        let journey = match &self.service_journey {
            Some(journey) => journey.to_json(),
            None => Json::Null,
        };
        members.push(member("serviceJourney", journey));
        Json::Object(members)
    }
}

/// Encodes calls as an array, one item for each call and in their order.
pub fn calls_to_json(calls: &Vec<EstimatedCall>) -> (json: Json)
    ensures
        encodes_calls(json, calls@),
{
    let mut items: Vec<Json> = Vec::new();
    let mut i: usize = 0;
    while i < calls.len()
        invariant
            i <= calls.len(),
            items@.len() == i,
            forall|k: int| 0 <= k < i ==> encodes_call(#[trigger] items@[k], calls@[k]),
        decreases calls.len() - i,
    {
        items.push(calls[i].to_json());
        i += 1;
    }
    Json::Array(items)
}

/// The member at place `i` is the one that a lookup of its key finds, when
/// no member before it has the same key.
pub proof fn lemma_find_member_at(members: Seq<Member>, key: Seq<char>, i: int)
    requires
        0 <= i < members.len(),
        members[i].key@ == key,
        forall|j: int| 0 <= j < i ==> (#[trigger] members[j]).key@ != key,
    ensures
        find_member(members, key) == Some(members[i].value),
    decreases i,
{
    if i > 0 {
        let rest = members.drop_first();
        assert(rest[i - 1] == members[i]);
        assert forall|j: int| 0 <= j < i - 1 implies (#[trigger] rest[j]).key@ != key by {
            assert(rest[j] == members[j + 1]);
        }
        lemma_find_member_at(rest, key, i - 1);
    }
}

/// Decoding reads back an encoded destination display.
pub proof fn lemma_display_round_trip(json: Json, display: DestinationDisplay)
    requires
        encodes_display(json, display),
    ensures
        DestinationDisplay::decoded(json) == Ok::<DestinationDisplay, DecodeError>(display),
{
    lemma_find_member_at(json->Object_0@, "frontText"@, 0);
}

/// Decoding reads back an encoded quay.
pub proof fn lemma_quay_round_trip(json: Json, quay: Quay)
    requires
        encodes_quay(json, quay),
    ensures
        Quay::decoded(json) == Ok::<Quay, DecodeError>(quay),
{
    reveal_strlit("id");
    reveal_strlit("name");
    reveal_strlit("publicCode");
    reveal_strlit("description");
    assert("id"@.len() == 2 && "name"@.len() == 4 && "publicCode"@.len() == 10 && "description"@.len()
        == 11);
    let members = json->Object_0@;
    lemma_find_member_at(members, "id"@, 0);
    lemma_find_member_at(members, "name"@, 1);
    lemma_find_member_at(members, "publicCode"@, 2);
    lemma_find_member_at(members, "description"@, 3);
}

/// Decoding reads back an encoded line.
pub proof fn lemma_line_round_trip(json: Json, line: Line)
    requires
        encodes_line(json, line),
    ensures
        Line::decoded(json) == Ok::<Line, DecodeError>(line),
{
    reveal_strlit("id");
    reveal_strlit("publicCode");
    reveal_strlit("name");
    reveal_strlit("transportMode");
    assert("id"@.len() == 2 && "name"@.len() == 4 && "publicCode"@.len() == 10 && "transportMode"@.len()
        == 13);
    let members = json->Object_0@;
    lemma_find_member_at(members, "id"@, 0);
    lemma_find_member_at(members, "publicCode"@, 1);
    lemma_find_member_at(members, "name"@, 2);
    lemma_find_member_at(members, "transportMode"@, 3);
    law_mode_names_are_distinct(line.transport_mode);
}

/// Decoding reads back an encoded journey pattern.
pub proof fn lemma_pattern_round_trip(json: Json, pattern: JourneyPattern)
    requires
        encodes_pattern(json, pattern),
    ensures
        JourneyPattern::decoded(json) == Ok::<JourneyPattern, DecodeError>(pattern),
{
    let members = json->Object_0@;
    lemma_find_member_at(members, "line"@, 0);
    lemma_line_round_trip(members[0].value, pattern.line);
}

/// Decoding reads back an encoded service journey.
pub proof fn lemma_journey_round_trip(json: Json, journey: ServiceJourney)
    requires
        encodes_journey(json, journey),
    ensures
        ServiceJourney::decoded(json) == Ok::<ServiceJourney, DecodeError>(journey),
{
    reveal_strlit("id");
    reveal_strlit("journeyPattern");
    assert("id"@.len() == 2 && "journeyPattern"@.len() == 14);
    let members = json->Object_0@;
    lemma_find_member_at(members, "id"@, 0);
    lemma_find_member_at(members, "journeyPattern"@, 1);
    lemma_pattern_round_trip(members[1].value, journey.journey_pattern);
}

/// Decoding reads back an encoded call whose time stamps are well-formed.
pub proof fn law_call_round_trip(json: Json, call: EstimatedCall)
    requires
        encodes_call(json, call),
        call_wf(call),
    ensures
        EstimatedCall::decoded(json) == Ok::<EstimatedCall, DecodeError>(call),
{
    reveal_strlit("realtime");
    reveal_strlit("aimedDepartureTime");
    reveal_strlit("expectedDepartureTime");
    reveal_strlit("date");
    reveal_strlit("forBoarding");
    reveal_strlit("destinationDisplay");
    reveal_strlit("quay");
    reveal_strlit("serviceJourney");
    assert("realtime"@.len() == 8);
    assert("aimedDepartureTime"@.len() == 18 && "aimedDepartureTime"@[0] == 'a');
    assert("expectedDepartureTime"@.len() == 21);
    assert("date"@.len() == 4 && "date"@[0] == 'd');
    assert("forBoarding"@.len() == 11);
    assert("destinationDisplay"@.len() == 18 && "destinationDisplay"@[0] == 'd');
    assert("quay"@.len() == 4 && "quay"@[0] == 'q');
    assert("serviceJourney"@.len() == 14);
    let members = json->Object_0@;
    lemma_find_member_at(members, "realtime"@, 0);
    lemma_find_member_at(members, "aimedDepartureTime"@, 1);
    lemma_find_member_at(members, "expectedDepartureTime"@, 2);
    lemma_find_member_at(members, "date"@, 3);
    lemma_find_member_at(members, "forBoarding"@, 4);
    lemma_find_member_at(members, "destinationDisplay"@, 5);
    lemma_find_member_at(members, "quay"@, 6);
    lemma_find_member_at(members, "serviceJourney"@, 7);
    lemma_display_round_trip(members[5].value, call.destination_display);
    lemma_quay_round_trip(members[6].value, call.quay);
    match call.service_journey {
        Some(journey) => {
            lemma_journey_round_trip(members[7].value, journey);
        },
        None => {},
    }
}

/// Results that are all good are all taken, in their order.
pub proof fn lemma_all_of_good<T>(results: Seq<Result<T, DecodeError>>, items: Seq<T>)
    requires
        results.len() == items.len(),
        forall|i: int| 0 <= i < items.len() ==> (#[trigger] results[i]) == Ok::<T, DecodeError>(items[i]),
    ensures
        all_of(results) == Ok::<Seq<T>, DecodeError>(items),
    decreases results.len(),
{
    if results.len() == 0 {
        assert(items =~= Seq::<T>::empty());
    } else {
        assert forall|i: int| 0 <= i < items.drop_last().len() implies (#[trigger] results.drop_last()[i])
            == Ok::<T, DecodeError>(items.drop_last()[i]) by {
            assert(results.drop_last()[i] == results[i]);
        }
        lemma_all_of_good(results.drop_last(), items.drop_last());
        assert(results.last() == results[results.len() - 1]);
        assert(items.drop_last().push(items.last()) =~= items);
    }
}

/// Decoding reads back a sequence of encoded calls: as many calls as were
/// encoded, each the call that was encoded at its place. Calls that were
/// decoded, encoded and decoded again therefore come out in the order in
/// which the service sent them.
pub proof fn law_calls_round_trip(json: Json, calls: Seq<EstimatedCall>)
    requires
        encodes_calls(json, calls),
        forall|i: int| 0 <= i < calls.len() ==> call_wf(#[trigger] calls[i]),
    ensures
        json is Array,
        decoded_calls(json->Array_0@) == Ok::<Seq<EstimatedCall>, DecodeError>(calls),
{
    let items = json->Array_0@;
    let results = items.map_values(|v: Json| EstimatedCall::decoded(v));
    assert forall|i: int| 0 <= i < calls.len() implies (#[trigger] results[i]) == Ok::<
        EstimatedCall,
        DecodeError,
    >(calls[i]) by {
        assert(encodes_call(items[i], calls[i]));
        assert(call_wf(calls[i]));
        law_call_round_trip(items[i], calls[i]);
    }
    lemma_all_of_good(results, calls);
}

/// The time stamps of a decoded call are well-formed.
pub proof fn law_decoded_call_is_wf(json: Json, call: EstimatedCall)
    requires
        EstimatedCall::decoded(json) == Ok::<EstimatedCall, DecodeError>(call),
    ensures
        call_wf(call),
{
}

/// The calls of an answer keep their order through decoding, encoding and
/// decoding again: the calls decoded from the items that the service sent
/// stand one for one at the places of those items, and what is decoded
/// from their encoding is the same sequence of calls.
pub proof fn law_decoded_calls_keep_their_order(
    received: Seq<Json>,
    calls: Seq<EstimatedCall>,
    encoded: Json,
)
    requires
        decoded_calls(received) == Ok::<Seq<EstimatedCall>, DecodeError>(calls),
        encodes_calls(encoded, calls),
    ensures
        calls.len() == received.len(),
        forall|i: int|
            0 <= i < received.len() ==> EstimatedCall::decoded(#[trigger] received[i]) == Ok::<
                EstimatedCall,
                DecodeError,
            >(calls[i]),
        encoded is Array,
        decoded_calls(encoded->Array_0@) == Ok::<Seq<EstimatedCall>, DecodeError>(calls),
{
    let results = received.map_values(|v: Json| EstimatedCall::decoded(v));
    law_all_of_keeps_order(results, calls);
    assert forall|i: int| 0 <= i < received.len() implies EstimatedCall::decoded(
        #[trigger] received[i],
    ) == Ok::<EstimatedCall, DecodeError>(calls[i]) by {
        assert(results[i] == EstimatedCall::decoded(received[i]));
    }
    assert forall|i: int| 0 <= i < calls.len() implies call_wf(#[trigger] calls[i]) by {
        law_decoded_call_is_wf(received[i], calls[i]);
    }
    law_calls_round_trip(encoded, calls);
}

/// The calls of a decoded stop place stand in the order of the array
/// `estimatedCalls` of the answer, one call for each item, and they come
/// out in that same order when they are encoded and decoded again.
pub proof fn law_stop_place_keeps_the_order_of_its_calls(
    answer: Json,
    place: StopPlaceView,
    encoded: Json,
)
    requires
        StopPlace::decoded(answer) == Ok::<StopPlaceView, DecodeError>(place),
        encodes_calls(encoded, place.estimated_calls),
    ensures
        required(answer, "estimatedCalls"@) matches Ok(Json::Array(items)) && items@.len()
            == place.estimated_calls.len() && forall|i: int|
            0 <= i < items@.len() ==> EstimatedCall::decoded(#[trigger] items@[i]) == Ok::<
                EstimatedCall,
                DecodeError,
            >(place.estimated_calls[i]),
        encoded is Array,
        decoded_calls(encoded->Array_0@) == Ok::<Seq<EstimatedCall>, DecodeError>(
            place.estimated_calls,
        ),
{
    let items = required(answer, "estimatedCalls"@)->Ok_0->Array_0@;
    law_decoded_calls_keep_their_order(items, place.estimated_calls, encoded);
}

} // verus!
