//! The requests that the client sends to the service.
//!
//! A request is built as a plain value: method, address, headers and body.
//! Whoever holds the connection sends it. Every text that comes from outside
//! is escaped before it enters a query or an address, so that no identifier,
//! whatever it holds, can end a string early or add a parameter.
use vstd::prelude::*;
use vstd::string::*;
use crate::text::{digit_char, nat_digits, push_nat};
use crate::time::{utc_text_of, Instant};

verus! {

/// The length in seconds of the window in which departures are asked for.
pub const TIME_RANGE: u64 = 72100;

/// The largest number of departures asked for.
pub const NUMBER_OF_DEPARTURES: u64 = 50;

/// The method of a request.
#[derive(Clone, Copy, Debug, PartialEq, Eq, Structural)]
pub enum Method {
    Get,
    Post,
}

/// One header of a request.
#[derive(Clone, Debug, PartialEq, Eq)]
pub struct Header {
    pub name: String,
    pub value: String,
}

/// A request to the service.
#[derive(Clone, Debug, PartialEq, Eq)]
pub struct Request {
    pub method: Method,
    pub url: String,
    pub headers: Vec<Header>,
    /// The body; a request by `Get` has none.
    pub body: Option<String>,
}

/// A request as a mathematical value.
pub struct RequestView {
    pub method: Method,
    pub url: Seq<char>,
    pub headers: Seq<(Seq<char>, Seq<char>)>,
    pub body: Option<Seq<char>>,
}

impl View for Request {
    type V = RequestView;

    open spec fn view(&self) -> RequestView {
        RequestView {
            method: self.method,
            url: self.url@,
            headers: self.headers@.map_values(|h: Header| (h.name@, h.value@)),
            body: match self.body {
                Some(body) => Some(body@),
                None => None,
            },
        }
    }
}

/// The client of the service: it knows where the service lives.
#[derive(Clone, Debug, PartialEq, Eq)]
pub struct EnTurClient {
    pub base_url: String,
}

/// The digit that stands for `d` in base sixteen, for `d` below sixteen.
pub open spec fn hex_char(d: int) -> char {
    if d < 10 {
        digit_char(d)
    } else if d == 10 {
        'A'
    } else if d == 11 {
        'B'
    } else if d == 12 {
        'C'
    } else if d == 13 {
        'D'
    } else if d == 14 {
        'E'
    } else {
        'F'
    }
}

/// What stands for one character inside a string of JSON or of GraphQL:
/// quote and backslash behind a backslash, a control character as its
/// escape, any other character itself.
pub open spec fn escaped_char(c: char) -> Seq<char> {
    if c == '"' {
        seq!['\\', '"']
    } else if c == '\\' {
        seq!['\\', '\\']
    } else if c == '\n' {
        seq!['\\', 'n']
    } else if c == '\r' {
        seq!['\\', 'r']
    } else if c == '\t' {
        seq!['\\', 't']
    } else if (c as u32) < 0x20 {
        seq!['\\', 'u', '0', '0', hex_char(c as u32 as int / 16), hex_char(c as u32 as int % 16)]
    } else {
        seq![c]
    }
}

/// A text with each of its characters escaped.
pub open spec fn escaped(s: Seq<char>) -> Seq<char>
    decreases s.len(),
{
    if s.len() == 0 {
        Seq::empty()
    } else {
        escaped(s.drop_last()) + escaped_char(s.last())
    }
}

/// A text as a string of JSON or of GraphQL: escaped, between quotes.
pub open spec fn quoted(s: Seq<char>) -> Seq<char> {
    seq!['"'] + escaped(s) + seq!['"']
}

/// Whether a byte stands for itself in the query part of an address:
/// letters, digits, hyphen, underscore, full stop and tilde do.
pub open spec fn is_unreserved(b: u8) -> bool {
    (0x41 <= b <= 0x5a) || (0x61 <= b <= 0x7a) || (0x30 <= b <= 0x39) || b == 0x2d || b == 0x5f
        || b == 0x2e || b == 0x7e
}

/// What stands for one byte in the query part of an address: the byte as a
/// character where it is unreserved, else a percent sign and its two
/// hexadecimal digits.
pub open spec fn percent_byte(b: u8) -> Seq<char> {
    if is_unreserved(b) {
        seq![b as char]
    } else {
        seq!['%', hex_char(b as int / 16), hex_char(b as int % 16)]
    }
}

/// A sequence of bytes, percent-encoded byte by byte.
pub open spec fn percent_encoded(bytes: Seq<u8>) -> Seq<char>
    decreases bytes.len(),
{
    if bytes.len() == 0 {
        Seq::empty()
    } else {
        percent_encoded(bytes.drop_last()) + percent_byte(bytes.last())
    }
}

fn hex_of(d: u8) -> (c: char)
    requires
        d < 16,
    ensures
        c == hex_char(d as int),
{
    if d == 0 {
        '0'
    } else if d == 1 {
        '1'
    } else if d == 2 {
        '2'
    } else if d == 3 {
        '3'
    } else if d == 4 {
        '4'
    } else if d == 5 {
        '5'
    } else if d == 6 {
        '6'
    } else if d == 7 {
        '7'
    } else if d == 8 {
        '8'
    } else if d == 9 {
        '9'
    } else if d == 10 {
        'A'
    } else if d == 11 {
        'B'
    } else if d == 12 {
        'C'
    } else if d == 13 {
        'D'
    } else if d == 14 {
        'E'
    } else {
        'F'
    }
}

/// Appends `s` escaped for a string of JSON or of GraphQL.
pub fn push_escaped(out: &mut String, s: &str)
    ensures
        final(out)@ == old(out)@ + escaped(s@),
{
    broadcast use group_string_axioms;

    assert(s@.take(0) =~= Seq::<char>::empty());
    assert(old(out)@ + escaped(s@.take(0)) =~= old(out)@);
    for c in it: s.chars()
        invariant
            it.seq() == s@,
            out@ == old(out)@ + escaped(s@.take(it.index() as int)),
    {
        let ghost before = out@;
        let ghost k = it.index() as int;
        assert(s@.take(k + 1).drop_last() =~= s@.take(k));
        assert(s@.take(k + 1).last() == c);
        if c == '"' {
            out.push('\\');
            out.push('"');
        } else if c == '\\' {
            out.push('\\');
            out.push('\\');
        } else if c == '\n' {
            out.push('\\');
            out.push('n');
        } else if c == '\r' {
            out.push('\\');
            out.push('r');
        } else if c == '\t' {
            out.push('\\');
            out.push('t');
        } else if (c as u32) < 0x20 {
            let code: u8 = c as u32 as u8;
            out.push('\\');
            out.push('u');
            out.push('0');
            out.push('0');
            out.push(hex_of(code / 16));
            out.push(hex_of(code % 16));
        } else {
            out.push(c);
        }
        assert(out@ =~= before + escaped_char(c));
        assert(out@ =~= old(out)@ + escaped(s@.take(k + 1)));
    }
    assert(s@.take(s@.len() as int) =~= s@);
}

/// Appends `s` as a string of JSON or of GraphQL: escaped, between quotes.
pub fn push_quoted(out: &mut String, s: &str)
    ensures
        final(out)@ == old(out)@ + quoted(s@),
{
    out.push('"');
    push_escaped(out, s);
    out.push('"');
    assert(final(out)@ =~= old(out)@ + quoted(s@));
}

/// Appends `s` percent-encoded, for the query part of an address.
pub fn push_percent_encoded(out: &mut String, s: &str)
    ensures
        final(out)@ == old(out)@ + percent_encoded(s.spec_bytes()),
{
    let bytes = s.as_bytes();
    let mut i: usize = 0;
    assert(bytes@.take(0) =~= Seq::<u8>::empty());
    assert(old(out)@ + percent_encoded(bytes@.take(0)) =~= old(out)@);
    while i < bytes.len()
        invariant
            i <= bytes.len(),
            bytes@ == s.spec_bytes(),
            out@ == old(out)@ + percent_encoded(bytes@.take(i as int)),
        decreases bytes.len() - i,
    {
        let ghost before = out@;
        let b: u8 = bytes[i];
        assert(bytes@.take(i + 1).drop_last() =~= bytes@.take(i as int));
        assert(bytes@.take(i + 1).last() == b);
        if (0x41 <= b && b <= 0x5a) || (0x61 <= b && b <= 0x7a) || (0x30 <= b && b <= 0x39) || b
            == 0x2d || b == 0x5f || b == 0x2e || b == 0x7e {
            out.push(b as char);
        } else {
            out.push('%');
            out.push(hex_of(b / 16));
            out.push(hex_of(b % 16));
        }
        assert(out@ =~= before + percent_byte(b));
        assert(out@ =~= old(out)@ + percent_encoded(bytes@.take(i + 1)));
        i += 1;
    }
    assert(bytes@.take(i as int) =~= bytes@);
}

/// Where a string ends whose content begins at place `from` of `t`: the
/// place of the first quote from there on that is not escaped, a backslash
/// taking the character behind it along. The length of `t` where there is
/// no such quote.
pub open spec fn string_end(t: Seq<char>, from: int) -> int
    decreases t.len() - from,
{
    if from < 0 || from >= t.len() {
        t.len() as int
    } else if t[from] == '"' {
        from
    } else if t[from] == '\\' {
        if from + 1 < t.len() {
            string_end(t, from + 2)
        } else {
            t.len() as int
        }
    } else {
        string_end(t, from + 1)
    }
}

/// An escaped text begins with what stands for its first character.
proof fn lemma_escaped_front(s: Seq<char>)
    requires
        s.len() > 0,
    ensures
        escaped(s) == escaped_char(s[0]) + escaped(s.drop_first()),
    decreases s.len(),
{
    if s.len() == 1 {
        assert(s.drop_last() =~= Seq::<char>::empty());
        assert(s.drop_first() =~= Seq::<char>::empty());
        assert(escaped(s) =~= escaped_char(s[0]) + escaped(s.drop_first()));
    } else {
        lemma_escaped_front(s.drop_last());
        assert(s.drop_last().drop_first() =~= s.drop_first().drop_last());
        assert(s.drop_first().last() == s.last());
        assert(s.drop_last()[0] == s[0]);
        assert(escaped(s) =~= escaped_char(s[0]) + escaped(s.drop_first()));
    }
}

/// Whoever looks for the end of a string passes over an escaped text: no
/// quote in it ends the string.
proof fn lemma_scan_passes_escaped(t: Seq<char>, from: int, s: Seq<char>)
    requires
        0 <= from,
        from + escaped(s).len() <= t.len(),
        t.subrange(from, from + escaped(s).len()) == escaped(s),
    ensures
        string_end(t, from) == string_end(t, from + escaped(s).len()),
    decreases s.len(),
{
    if s.len() > 0 {
        lemma_escaped_front(s);
        let c = s[0];
        let e = escaped_char(c);
        let rest = escaped(s.drop_first());
        let whole = escaped(s);
        assert(whole.len() == e.len() + rest.len());
        assert forall|k: int| 0 <= k < e.len() implies t[from + k] == e[k] by {
            assert(t.subrange(from, from + whole.len())[k] == whole[k]);
        }
        assert(t.subrange(from + e.len(), from + e.len() + rest.len()) =~= rest) by {
            assert forall|k: int| 0 <= k < rest.len() implies t[from + e.len() + k] == rest[k] by {
                assert(t.subrange(from, from + whole.len())[e.len() + k] == whole[e.len() + k]);
            }
        }
        lemma_scan_passes_escaped(t, from + e.len(), s.drop_first());
        if c == '"' || c == '\\' || c == '\n' || c == '\r' || c == '\t' {
            assert(t[from] == e[0]);
        } else if (c as u32) < 0x20 {
            assert(t[from] == e[0]);
            assert(t[from + 2] == e[2]);
            assert(t[from + 3] == e[3]);
            assert(t[from + 4] == e[4]);
            assert(t[from + 5] == e[5]);
            assert(string_end(t, from) == string_end(t, from + 2));
            assert(string_end(t, from + 2) == string_end(t, from + 3));
            assert(string_end(t, from + 3) == string_end(t, from + 4));
            assert(string_end(t, from + 4) == string_end(t, from + 5));
            assert(string_end(t, from + 5) == string_end(t, from + 6));
        } else {
            assert(t[from] == e[0]);
        }
    }
}

/// A quoted text is one string wherever it stands: whatever the text
/// holds, and whatever comes before and after, the string that opens with
/// its first quote ends at its last one.
pub proof fn law_quoted_is_one_string(before: Seq<char>, s: Seq<char>, after: Seq<char>)
    ensures
        string_end(before + quoted(s) + after, before.len() as int + 1) == before.len() + quoted(
            s,
        ).len() - 1,
{
    let t = before + quoted(s) + after;
    let from: int = before.len() as int + 1;
    assert(t.subrange(from, from + escaped(s).len()) =~= escaped(s));
    lemma_scan_passes_escaped(t, from, s);
    assert(t[from + escaped(s).len()] == '"');
}

/// Whether a character is one that percent-encoding writes: a letter, a
/// digit, or one of `-`, `_`, `.`, `~` and `%`.
pub open spec fn is_plain(c: char) -> bool {
    let n = c as u32;
    (0x41 <= n <= 0x5a) || (0x61 <= n <= 0x7a) || (0x30 <= n <= 0x39) || n == 0x2d || n == 0x5f
        || n == 0x2e || n == 0x7e || n == 0x25
}

/// A percent-encoded text holds plain characters only: no `&`, `=`, `#`,
/// `?` or space, so that it adds no parameter to an address and ends none.
pub proof fn law_percent_encoded_is_plain(bytes: Seq<u8>)
    ensures
        forall|i: int|
            0 <= i < percent_encoded(bytes).len() ==> is_plain(#[trigger] percent_encoded(bytes)[i]),
    decreases bytes.len(),
{
    if bytes.len() > 0 {
        law_percent_encoded_is_plain(bytes.drop_last());
        let head = percent_encoded(bytes.drop_last());
        let tail = percent_byte(bytes.last());
        assert forall|k: int| 0 <= k < tail.len() implies is_plain(#[trigger] tail[k]) by {
            let b = bytes.last();
            if is_unreserved(b) {
                assert((b as char) as u32 == b as u32);
            }
        }
        assert forall|i: int| 0 <= i < percent_encoded(bytes).len() implies is_plain(
            #[trigger] percent_encoded(bytes)[i],
        ) by {
            if i < head.len() {
                assert(percent_encoded(bytes)[i] == head[i]);
            } else {
                assert(percent_encoded(bytes)[i] == tail[i - head.len()]);
            }
        }
    }
}

/// The headers that every request carries: the kind of its body, and the
/// name by which the client makes itself known to the service.
pub open spec fn standard_headers() -> Seq<(Seq<char>, Seq<char>)> {
    seq![
        ("Content-Type"@, "application/json"@),
        ("ET-Client-Name"@, "tmnio-sanntidsappen-dev"@),
    ]
}

/// The body of a request by `Post`: a JSON object whose member `query` is
/// the query as a string.
pub open spec fn envelope(query: Seq<char>) -> Seq<char> {
    "{\"query\":"@ + quoted(query) + "}"@
}

/// The query for the departures of a stop place from a start time on.
pub open spec fn stop_place_query(stop_id: Seq<char>, start_time: Seq<char>) -> Seq<char> {
    "{ stopPlace(id: "@ + quoted(stop_id) + ") { id name estimatedCalls(startTime: "@ + quoted(
        start_time,
    ) + ", timeRange: "@ + nat_digits(TIME_RANGE as nat) + ", numberOfDepartures: "@ + nat_digits(
        NUMBER_OF_DEPARTURES as nat,
    )
        + ") { realtime aimedDepartureTime expectedDepartureTime date forBoarding destinationDisplay { frontText } quay { id name publicCode description } serviceJourney { id journeyPattern { line { id publicCode name transportMode } } } } } }"@
}

/// The query for the calls of a service journey on a day.
pub open spec fn journey_query(journey_id: Seq<char>, date: Seq<char>) -> Seq<char> {
    "{ serviceJourney(id: "@ + quoted(journey_id) + ") { estimatedCalls(date: "@ + quoted(date)
        + ") { aimedDepartureTime expectedDepartureTime quay { id name } } } }"@
}

/// The query for the quays of a stop place.
pub open spec fn stop_info_query(stop_id: Seq<char>) -> Seq<char> {
    "{ stopPlace(id: "@ + quoted(stop_id)
        + ", stopPlaceType: onstreetBus) { id name { value } ... on StopPlace { quays { id compassBearing geometry { type coordinates } } } } }"@
}

/// The query for the trips from one place to another.
pub open spec fn trip_query(from: Seq<char>, to: Seq<char>) -> Seq<char> {
    "{ trip(from: { place: "@ + quoted(from) + " }, to: { place: "@ + quoted(to)
        + " }) { tripPatterns { duration walkDistance legs { expectedStartTime expectedEndTime duration mode distance line { id publicCode name transportMode } fromEstimatedCall { quay { id name publicCode } date forBoarding realtime aimedDepartureTime expectedDepartureTime actualDepartureTime destinationDisplay { frontText } } toEstimatedCall { quay { id name publicCode } date forBoarding realtime aimedDepartureTime expectedDepartureTime actualDepartureTime destinationDisplay { frontText } } } } } }"@
}

/// The path and query of a stop search for a free text.
pub open spec fn autocomplete_path(text: Seq<u8>) -> Seq<char> {
    "/geocoder/v1/autocomplete?text="@ + percent_encoded(text) + "&layers=venue"@
}

/// The request that posts `query` to the address `url`.
pub open spec fn post_of(url: Seq<char>, query: Seq<char>) -> RequestView {
    RequestView {
        method: Method::Post,
        url,
        headers: standard_headers(),
        body: Some(envelope(query)),
    }
}

fn headers() -> (r: Vec<Header>)
    ensures
        r@.map_values(|h: Header| (h.name@, h.value@)) == standard_headers(),
{
    let mut out: Vec<Header> = Vec::new();
    out.push(
        Header {
            name: String::from_str("Content-Type"),
            value: String::from_str("application/json"),
        },
    );
    out.push(
        Header {
            name: String::from_str("ET-Client-Name"),
            value: String::from_str("tmnio-sanntidsappen-dev"),
        },
    );
    assert(out@.map_values(|h: Header| (h.name@, h.value@)) =~= standard_headers());
    out
}

fn post(url: String, query: &str) -> (r: Request)
    ensures
        r@ == post_of(url@, query@),
{
    let mut body = String::from_str("{\"query\":");
    push_quoted(&mut body, query);
    body.append("}");
    Request { method: Method::Post, url, headers: headers(), body: Some(body) }
}

impl EnTurClient {
    /// The address of the service.
    pub open spec fn base(self) -> Seq<char> {
        self.base_url@
    }

    /// The client of the public service.
    pub fn new() -> (r: EnTurClient)
        ensures
            r.base() == "https://api.entur.io"@,
    {
        EnTurClient { base_url: String::from_str("https://api.entur.io") }
    }

    fn address(&self, path: &str) -> (r: String)
        ensures
            r@ == self.base() + path@,
    {
        let mut url = self.base_url.clone();
        url.append(path);
        url
    }

    /// The request for the departures of the stop place `stop_id` from
    /// `start_time` on, an RFC 3339 time. Window and number of departures
    /// are fixed.
    pub fn get_stop_place(&self, stop_id: &str, start_time: &str) -> (r: Request)
        ensures
            r@ == post_of(
                self.base() + "/journey-planner/v3/graphql"@,
                stop_place_query(stop_id@, start_time@),
            ),
    {
        let mut query = String::from_str("{ stopPlace(id: ");
        push_quoted(&mut query, stop_id);
        query.append(") { id name estimatedCalls(startTime: ");
        push_quoted(&mut query, start_time);
        query.append(", timeRange: ");
        push_nat(&mut query, TIME_RANGE);
        query.append(", numberOfDepartures: ");
        push_nat(&mut query, NUMBER_OF_DEPARTURES);
        query.append(
            ") { realtime aimedDepartureTime expectedDepartureTime date forBoarding destinationDisplay { frontText } quay { id name publicCode description } serviceJourney { id journeyPattern { line { id publicCode name transportMode } } } } } }",
        );
        post(self.address("/journey-planner/v3/graphql"), query.as_str())
    }

    /// The request for the departures of the stop place `stop_id` from the
    /// instant `start` on, written as UTC time in RFC 3339 with full
    /// seconds. `None` where the instant lies outside the dates that can
    /// be written.
    pub fn get_stop_place_from(&self, stop_id: &str, start: &Instant) -> (r: Option<Request>)
        ensures
            match utc_text_of(start.seconds) {
                Some(start_time) => r matches Some(request) && request@ == post_of(
                    self.base() + "/journey-planner/v3/graphql"@,
                    stop_place_query(stop_id@, start_time),
                ),
                None => r is None,
            },
    {
        match start.utc_text() {
            Some(start_time) => Some(self.get_stop_place(stop_id, start_time.as_str())),
            None => None,
        }
    }

    /// The request for the calls of the service journey `journey_id` on the
    /// day `date_time`.
    pub fn journey(&self, journey_id: &str, date_time: &str) -> (r: Request)
        ensures
            r@ == post_of(
                self.base() + "/journey-planner/v3/graphql"@,
                journey_query(journey_id@, date_time@),
            ),
    {
        let mut query = String::from_str("{ serviceJourney(id: ");
        push_quoted(&mut query, journey_id);
        query.append(") { estimatedCalls(date: ");
        push_quoted(&mut query, date_time);
        query.append(") { aimedDepartureTime expectedDepartureTime quay { id name } } } }");
        post(self.address("/journey-planner/v3/graphql"), query.as_str())
    }

    /// The request for the quays of the stop place `stop_id`.
    pub fn get_stop_info(&self, stop_id: &str) -> (r: Request)
        ensures
            r@ == post_of(self.base() + "/stop-places/v1/graphql"@, stop_info_query(stop_id@)),
    {
        let mut query = String::from_str("{ stopPlace(id: ");
        push_quoted(&mut query, stop_id);
        query.append(
            ", stopPlaceType: onstreetBus) { id name { value } ... on StopPlace { quays { id compassBearing geometry { type coordinates } } } } }",
        );
        post(self.address("/stop-places/v1/graphql"), query.as_str())
    }

    /// The request that searches stops by a free text. The text goes into
    /// the address as it is, percent-encoded; an empty text is a text like
    /// any other.
    pub fn get_autocomplete_stop_name(&self, query: &str) -> (r: Request)
        ensures
            r@ == (RequestView {
                method: Method::Get,
                url: self.base() + autocomplete_path(query.spec_bytes()),
                headers: standard_headers(),
                body: None,
            }),
    {
        let mut url = self.base_url.clone();
        url.append("/geocoder/v1/autocomplete?text=");
        push_percent_encoded(&mut url, query);
        url.append("&layers=venue");
        assert(url@ =~= self.base() + autocomplete_path(query.spec_bytes()));
        Request { method: Method::Get, url, headers: headers(), body: None }
    }

    /// The request for the trips from the place `from` to the place `to`,
    /// with the legs of each trip in full.
    pub fn plan_trip(&self, from: &str, to: &str) -> (r: Request)
        ensures
            r@ == post_of(self.base() + "/journey-planner/v3/graphql"@, trip_query(from@, to@)),
    {
        let mut query = String::from_str("{ trip(from: { place: ");
        push_quoted(&mut query, from);
        query.append(" }, to: { place: ");
        push_quoted(&mut query, to);
        query.append(
            " }) { tripPatterns { duration walkDistance legs { expectedStartTime expectedEndTime duration mode distance line { id publicCode name transportMode } fromEstimatedCall { quay { id name publicCode } date forBoarding realtime aimedDepartureTime expectedDepartureTime actualDepartureTime destinationDisplay { frontText } } toEstimatedCall { quay { id name publicCode } date forBoarding realtime aimedDepartureTime expectedDepartureTime actualDepartureTime destinationDisplay { frontText } } } } } }",
        );
        post(self.address("/journey-planner/v3/graphql"), query.as_str())
    }
}

/// The body of a request by `Post` is an object with one member whose
/// value is one string: whatever the query holds, the string that opens
/// behind `"query":` ends at the last quote of the body, right before the
/// brace that closes the object.
pub proof fn law_envelope_holds_one_string(query: Seq<char>)
    ensures
        string_end(envelope(query), "{\"query\":"@.len() as int + 1) == envelope(query).len() - 2,
        envelope(query).last() == '}',
{
    reveal_strlit("}");
    law_quoted_is_one_string("{\"query\":"@, query, "}"@);
    assert(envelope(query) =~= "{\"query\":"@ + quoted(query) + "}"@);
}

/// In the query for departures, the identifier of the stop place stays
/// inside its string: whatever the identifier holds, the string that opens
/// behind `stopPlace(id: ` ends at the quote that the query sets behind
/// the identifier.
pub proof fn law_stop_id_stays_in_its_string(stop_id: Seq<char>, start_time: Seq<char>)
    ensures
        string_end(
            stop_place_query(stop_id, start_time),
            "{ stopPlace(id: "@.len() as int + 1,
        ) == "{ stopPlace(id: "@.len() + quoted(stop_id).len() - 1,
{
    let head = "{ stopPlace(id: "@;
    let whole = stop_place_query(stop_id, start_time);
    let after = whole.subrange((head.len() + quoted(stop_id).len()) as int, whole.len() as int);
    assert(whole =~= head + quoted(stop_id) + after);
    law_quoted_is_one_string(head, stop_id, after);
}

/// In the query for a trip, the two places stay inside their strings,
/// whatever they hold.
pub proof fn law_places_stay_in_their_strings(from: Seq<char>, to: Seq<char>)
    ensures
        ({
            let head = "{ trip(from: { place: "@;
            let middle = " }, to: { place: "@;
            let query = trip_query(from, to);
            let second: int = (head.len() + quoted(from).len() + middle.len()) as int;
            &&& string_end(query, head.len() as int + 1) == head.len() + quoted(from).len() - 1
            &&& string_end(query, second + 1) == second + quoted(to).len() - 1
        }),
{
    let head = "{ trip(from: { place: "@;
    let middle = " }, to: { place: "@;
    let query = trip_query(from, to);
    let first_end: int = (head.len() + quoted(from).len()) as int;
    let second: int = first_end + middle.len();
    let after_first = query.subrange(first_end, query.len() as int);
    assert(query =~= head + quoted(from) + after_first);
    law_quoted_is_one_string(head, from, after_first);
    let before_second = query.subrange(0, second);
    let after_second = query.subrange(second + quoted(to).len(), query.len() as int);
    assert(before_second =~= head + quoted(from) + middle);
    assert(query =~= before_second + quoted(to) + after_second);
    law_quoted_is_one_string(before_second, to, after_second);
}

} // verus!
