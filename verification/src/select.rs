//! Disambiguation of a stop search: from the candidates a search returned to
//! one chosen candidate.
//!
//! The engine is a state machine. Its caller performs what the machine asks
//! for (showing the candidates, reading a line) and hands back what happened;
//! the machine never reads or prints anything itself, so it can be driven by
//! a console as well as by a list of prepared lines.
use vstd::prelude::*;
use crate::text::{int_digits, lemma_int_digits_value, numeral_value, parse_numeral};

verus! {

/// What a search found, by the number of its candidates.
#[derive(Clone, Copy, Debug, PartialEq, Eq, Structural)]
pub enum Matches {
    /// No candidate at all.
    NoMatch,
    /// Exactly one candidate.
    SingleMatch,
    /// Two candidates or more.
    MultipleMatch,
}

/// The state of one disambiguation.
#[derive(Clone, Copy, Debug, PartialEq, Eq, Structural)]
pub enum Selection {
    /// The search has been issued and its candidates are awaited.
    Searching,
    /// The search found nothing. Final.
    NoMatch,
    /// The user is asked to pick one of `count` candidates, `count >= 2`.
    Selecting { count: usize },
    /// The candidate at `index` of the candidate sequence is chosen. Final.
    Resolved { index: usize },
    /// The input ended before a valid choice was made. Final.
    Closed,
}

/// What the caller reports to the machine.
#[derive(Clone, Debug, PartialEq, Eq)]
pub enum Event {
    /// The search returned this many candidates.
    Candidates(usize),
    /// The user entered this line, line ending removed.
    Line(String),
    /// The input stream is closed.
    EndOfInput,
}

/// What the machine asks the caller to do next.
#[derive(Clone, Copy, Debug, PartialEq, Eq, Structural)]
pub enum Action {
    /// Tell the user that the search found no stop.
    ReportNoMatch,
    /// Show the candidates, numbered from 1 to `count`, and read a line.
    Choose { count: usize },
    /// Tell the user that the choice must lie between 1 and `count`, and
    /// read another line.
    ChooseAgain { count: usize },
    /// Go on with the candidate at `index`.
    Proceed { index: usize },
    /// Give up: there is no more input.
    Stop,
    /// Nothing to do: the event does not concern the machine in this state.
    Nothing,
}

/// The class of a search result with `count` candidates.
pub open spec fn matches_of(count: nat) -> Matches {
    if count == 0 {
        Matches::NoMatch
    } else if count == 1 {
        Matches::SingleMatch
    } else {
        Matches::MultipleMatch
    }
}

/// Classifies a search result by the number of its candidates.
pub fn classify(count: usize) -> (m: Matches)
    ensures
        m == matches_of(count as nat),
{
    if count == 0 {
        Matches::NoMatch
    } else if count == 1 {
        Matches::SingleMatch
    } else {
        Matches::MultipleMatch
    }
}

/// The index that `line` chooses among `count` candidates: `line` must be the
/// numeral of an integer between 1 and `count`, and the index is one less.
pub open spec fn chosen_index(line: Seq<char>, count: nat) -> Option<nat> {
    match numeral_value(line) {
        Some(v) => if 1 <= v <= count {
            Some((v - 1) as nat)
        } else {
            None
        },
        None => None,
    }
}

/// Reads a choice among `count` candidates from a line of input.
pub fn read_choice(line: &str, count: usize) -> (r: Option<usize>)
    ensures
        r == match chosen_index(line@, count as nat) {
            Some(i) => Some(i as usize),
            None => None,
        },
        r matches Some(i) ==> i < count,
{
    match parse_numeral(line, count as u64) {
        Some(v) => if v >= 1 {
            Some((v - 1) as usize)
        } else {
            None
        },
        None => None,
    }
}

impl Selection {
    /// Whether the machine has come to an end in this state.
    pub open spec fn is_final(self) -> bool {
        self is NoMatch || self is Resolved || self is Closed
    }

    /// Whether the state is one that the machine can be in after a search
    /// has returned `count` candidates.
    pub open spec fn within(self, count: nat) -> bool {
        match self {
            Selection::Searching => false,
            Selection::NoMatch => count == 0,
            Selection::Selecting { count: asked } => asked == count && count >= 2,
            Selection::Resolved { index } => index < count,
            Selection::Closed => count >= 2,
        }
    }

    /// The state and the action that follow from `self` on `event`.
    pub open spec fn next(self, event: Event) -> (Selection, Action) {
        match (self, event) {
            (Selection::Searching, Event::Candidates(count)) => match matches_of(count as nat) {
                Matches::NoMatch => (Selection::NoMatch, Action::ReportNoMatch),
                Matches::SingleMatch => (
                    Selection::Resolved { index: 0 },
                    Action::Proceed { index: 0 },
                ),
                Matches::MultipleMatch => (Selection::Selecting { count }, Action::Choose { count }),
            },
            (Selection::Selecting { count }, Event::Line(line)) => match chosen_index(
                line@,
                count as nat,
            ) {
                Some(i) => (
                    Selection::Resolved { index: i as usize },
                    Action::Proceed { index: i as usize },
                ),
                None => (self, Action::ChooseAgain { count }),
            },
            (Selection::Selecting { .. }, Event::EndOfInput) => (Selection::Closed, Action::Stop),
            _ => (self, Action::Nothing),
        }
    }

    /// The state in which the machine is after `events`, taken in turn.
    pub open spec fn after(self, events: Seq<Event>) -> Selection
        decreases events.len(),
    {
        if events.len() == 0 {
            self
        } else {
            self.next(events[0]).0.after(events.drop_first())
        }
    }

    /// A fresh machine, for a search that has just been issued.
    pub fn new() -> (s: Selection)
        ensures
            s == Selection::Searching,
    {
        Selection::Searching
    }

    /// Whether the machine has come to an end.
    pub fn finished(&self) -> (b: bool)
        ensures
            b == self.is_final(),
    {
        match self {
            Selection::NoMatch => true,
            Selection::Resolved { .. } => true,
            Selection::Closed => true,
            _ => false,
        }
    }

    /// Takes one step: the state that follows on `event`, and what the caller
    /// is to do next.
    pub fn step(self, event: &Event) -> (r: (Selection, Action))
        ensures
            r == self.next(*event),
    {
        match self {
            Selection::Searching => match event {
                Event::Candidates(count) => match classify(*count) {
                    Matches::NoMatch => (Selection::NoMatch, Action::ReportNoMatch),
                    Matches::SingleMatch => (
                        Selection::Resolved { index: 0 },
                        Action::Proceed { index: 0 },
                    ),
                    Matches::MultipleMatch => (
                        Selection::Selecting { count: *count },
                        Action::Choose { count: *count },
                    ),
                },
                _ => (self, Action::Nothing),
            },
            Selection::Selecting { count } => match event {
                Event::Line(line) => match read_choice(line.as_str(), count) {
                    Some(index) => (Selection::Resolved { index }, Action::Proceed { index }),
                    None => (self, Action::ChooseAgain { count }),
                },
                Event::EndOfInput => (Selection::Closed, Action::Stop),
                _ => (self, Action::Nothing),
            },
            _ => (self, Action::Nothing),
        }
    }
}

/// A line chooses a candidate exactly when it is the numeral of an integer
/// between 1 and the number of candidates; the chosen index is then one less
/// than that integer, and so lies within the candidate sequence.
pub proof fn law_choice_accepts_exactly_the_range(line: Seq<char>, count: nat)
    ensures
        chosen_index(line, count) is Some <==> exists|k: nat|
            1 <= k <= count && numeral_value(line) == Some(k),
        chosen_index(line, count) matches Some(i) ==> i < count && numeral_value(line) == Some(
            i + 1,
        ),
{
    if chosen_index(line, count) is Some {
        let k = numeral_value(line)->0;
        assert(1 <= k <= count && numeral_value(line) == Some(k));
    }
}

/// The numeral of an integer chooses a candidate exactly when the integer
/// lies between 1 and the number of candidates: zero, the number after the
/// last candidate and every negative number are refused.
pub proof fn law_choice_of_an_integer(n: int, count: nat)
    ensures
        chosen_index(int_digits(n), count) == if 1 <= n <= count {
            Some((n - 1) as nat)
        } else {
            None
        },
{
    lemma_int_digits_value(n);
}

/// While the user is asked to choose among `count` candidates, a line that
/// chooses one of them resolves the selection to that candidate, and any
/// other line leaves the state as it is and asks again.
pub proof fn law_selecting_accepts_or_stays(count: usize, line: String)
    ensures
        ({
            let (state, action) = (Selection::Selecting { count }).next(Event::Line(line));
            match chosen_index(line@, count as nat) {
                Some(i) => i < count && state == (Selection::Resolved { index: i as usize })
                    && action == (Action::Proceed { index: i as usize }),
                None => state == (Selection::Selecting { count }) && action == (
                Action::ChooseAgain { count }),
            }
        }),
{
}

/// A machine that has come to an end stays where it is and asks for nothing,
/// whatever is reported to it.
pub proof fn law_final_states_are_final(state: Selection, event: Event)
    requires
        state.is_final(),
    ensures
        state.next(event) == (state, Action::Nothing),
{
}

/// Every state that the machine reaches from its beginning is within the
/// number of candidates that the search returned, and stays so: the user
/// is asked only where there are two candidates or more, and a resolved
/// selection points at one of the candidates.
pub proof fn law_states_stay_within_the_candidates(state: Selection, count: nat, event: Event)
    ensures
        Selection::Searching.next(Event::Candidates(count as usize)).0.within(count as usize as nat),
        state.within(count) ==> state.next(event).0.within(count),
{
}

/// The lines of input as events.
pub open spec fn lines_entered(lines: Seq<String>) -> Seq<Event> {
    lines.map_values(|line: String| Event::Line(line))
}

/// A machine that has come to an end stays in its state through any
/// sequence of events.
pub proof fn lemma_final_state_stays(state: Selection, events: Seq<Event>)
    requires
        state.is_final(),
    ensures
        state.after(events) == state,
    decreases events.len(),
{
    if events.len() > 0 {
        lemma_final_state_stays(state, events.drop_first());
    }
}

/// A search without candidates ends the machine at once, with the word
/// that nothing was found, and it stays at that end whatever is reported
/// to it later: no choice is ever asked for.
pub proof fn law_no_candidates_end_the_selection(later: Seq<Event>)
    ensures
        Selection::Searching.next(Event::Candidates(0)) == (
            Selection::NoMatch,
            Action::ReportNoMatch,
        ),
        Selection::Searching.after(seq![Event::Candidates(0)] + later) == Selection::NoMatch,
{
    let events = seq![Event::Candidates(0)] + later;
    assert(events[0] == Event::Candidates(0));
    assert(events.drop_first() =~= later);
    lemma_final_state_stays(Selection::NoMatch, later);
}

/// However many lines are entered that choose no candidate, the machine
/// goes on asking: there is no limit to the number of attempts.
pub proof fn law_invalid_lines_never_advance(count: usize, lines: Seq<String>)
    requires
        forall|i: int| 0 <= i < lines.len() ==> chosen_index((#[trigger] lines[i])@, count as nat) is None,
    ensures
        (Selection::Selecting { count }).after(lines_entered(lines)) == (Selection::Selecting {
            count,
        }),
    decreases lines.len(),
{
    if lines.len() > 0 {
        let events = lines_entered(lines);
        assert(events[0] == Event::Line(lines[0]));
        assert(events.drop_first() =~= lines_entered(lines.drop_first()));
        assert forall|i: int| 0 <= i < lines.drop_first().len() implies chosen_index(
            (#[trigger] lines.drop_first()[i])@,
            count as nat,
        ) is None by {
            assert(lines.drop_first()[i] == lines[i + 1]);
        }
        law_invalid_lines_never_advance(count, lines.drop_first());
    }
}

/// The first line that chooses a candidate settles the selection on that
/// candidate, whatever was entered before it and whatever follows.
pub proof fn law_first_valid_line_resolves(count: usize, lines: Seq<String>, first: int)
    requires
        0 <= first < lines.len(),
        forall|i: int| 0 <= i < first ==> chosen_index((#[trigger] lines[i])@, count as nat) is None,
        chosen_index(lines[first]@, count as nat) is Some,
    ensures
        (Selection::Selecting { count }).after(lines_entered(lines)) == (Selection::Resolved {
            index: chosen_index(lines[first]@, count as nat)->0 as usize,
        }),
    decreases lines.len(),
{
    let events = lines_entered(lines);
    assert(events[0] == Event::Line(lines[0]));
    assert(events.drop_first() =~= lines_entered(lines.drop_first()));
    if first == 0 {
        let resolved = (Selection::Selecting { count }).next(events[0]).0;
        lemma_final_state_stays(resolved, events.drop_first());
    } else {
        assert forall|i: int| 0 <= i < first - 1 implies chosen_index(
            (#[trigger] lines.drop_first()[i])@,
            count as nat,
        ) is None by {
            assert(lines.drop_first()[i] == lines[i + 1]);
        }
        assert(lines.drop_first()[first - 1] == lines[first]);
        law_first_valid_line_resolves(count, lines.drop_first(), first - 1);
    }
}

} // verus!
