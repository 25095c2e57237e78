//! The course of the two commands, departures for one stop and a trip between
//! two stops, as state machines over the disambiguation engine.
//!
//! A flow tells its caller which request to send or what to show, and the
//! caller reports what came of it. At most one request is pending at any
//! time, and a flow that has failed asks for nothing more.
use vstd::prelude::*;
use crate::select::{Action, Event, Selection};

verus! {

/// The stop query that a step is about.
#[derive(Clone, Copy, Debug, PartialEq, Eq, Structural)]
pub enum Side {
    /// The one stop of a departures command.
    Stop,
    /// The origin of a trip.
    From,
    /// The destination of a trip.
    To,
}

/// Why a command ended without a result.
#[derive(Clone, Copy, Debug, PartialEq, Eq, Structural)]
pub enum Failure {
    /// A request could not be carried out.
    Transport,
    /// An answer could not be decoded.
    Parse,
    /// The search for this side found no stop.
    NoMatch(Side),
    /// The input ended while a choice was awaited.
    InputClosed,
}

/// What the caller reports to a flow.
#[derive(Clone, Debug, PartialEq, Eq)]
pub enum Report {
    /// Something that concerns the selection in progress.
    Selection(Event),
    /// The pending request was answered and the answer was decoded.
    Answer,
    /// The pending request failed in transport.
    TransportFailed,
    /// The answer to the pending request could not be decoded.
    Unreadable,
}

/// What a flow asks its caller to do next.
#[derive(Clone, Copy, Debug, PartialEq, Eq, Structural)]
pub enum Command {
    /// Send the stop search for this side.
    Search(Side),
    /// Show the candidates of this side, numbered from 1, and read a line.
    Choose { side: Side, count: usize },
    /// Say that the choice must lie between 1 and `count`; read a line again.
    ChooseAgain { side: Side, count: usize },
    /// Request the departures of the candidate at `index`.
    FetchDepartures { index: usize },
    /// Request the trip from candidate `from` of the origin search to
    /// candidate `to` of the destination search.
    PlanTrip { from: usize, to: usize },
    /// Show the decoded answer.
    Render,
    /// Tell the user why the command ends here.
    Fail(Failure),
    /// Nothing to do.
    Nothing,
}

/// The state of a command.
#[derive(Clone, Copy, Debug, PartialEq, Eq, Structural)]
pub enum Flow {
    /// Departures: the stop is being resolved.
    Stop(Selection),
    /// Trip: the origin is being resolved.
    From(Selection),
    /// Trip: the origin is candidate `from`; the destination is being resolved.
    To { from: usize, selection: Selection },
    /// Departures were requested for the candidate at `index`.
    Departures { index: usize },
    /// A trip was requested between the two candidates.
    Trip { from: usize, to: usize },
    /// The answer was shown. Final.
    Finished,
    /// The command ended without a result. Final.
    Failed(Failure),
}

impl Command {
    /// Whether carrying out the command sends a request to the service.
    pub open spec fn is_request(self) -> bool {
        self is Search || self is FetchDepartures || self is PlanTrip
    }

    /// Whether carrying out the command sends a request to the service.
    pub fn sends_request(&self) -> (b: bool)
        ensures
            b == self.is_request(),
    {
        match self {
            Command::Search(_) => true,
            Command::FetchDepartures { .. } => true,
            Command::PlanTrip { .. } => true,
            _ => false,
        }
    }
}

impl Flow {
    /// Whether the flow has come to an end.
    pub open spec fn is_final(self) -> bool {
        self is Finished || self is Failed
    }

    /// The side whose stop is being resolved, if any is.
    pub open spec fn resolving(self) -> Option<(Side, Selection)> {
        match self {
            Flow::Stop(selection) => Some((Side::Stop, selection)),
            Flow::From(selection) => Some((Side::From, selection)),
            Flow::To { selection, .. } => Some((Side::To, selection)),
            _ => None,
        }
    }

    /// The flow in which the selection in progress has moved to `selection`.
    pub open spec fn with_selection(self, selection: Selection) -> Flow {
        match self {
            Flow::Stop(_) => Flow::Stop(selection),
            Flow::From(_) => Flow::From(selection),
            Flow::To { from, .. } => Flow::To { from, selection },
            _ => self,
        }
    }

    /// What follows once the side being resolved has settled on `index`.
    pub open spec fn resolved(self, index: usize) -> (Flow, Command) {
        match self {
            Flow::Stop(_) => (Flow::Departures { index }, Command::FetchDepartures { index }),
            Flow::From(_) => (
                Flow::To { from: index, selection: Selection::Searching },
                Command::Search(Side::To),
            ),
            Flow::To { from, .. } => (
                Flow::Trip { from, to: index },
                Command::PlanTrip { from, to: index },
            ),
            _ => (self, Command::Nothing),
        }
    }

    /// The state and the command that follow while a stop is being resolved.
    pub open spec fn next_resolving(self, side: Side, selection: Selection, report: Report) -> (
        Flow,
        Command,
    ) {
        match report {
            Report::Selection(event) => {
                let (moved, action) = selection.next(event);
                match action {
                    Action::ReportNoMatch => (
                        Flow::Failed(Failure::NoMatch(side)),
                        Command::Fail(Failure::NoMatch(side)),
                    ),
                    Action::Choose { count } => (
                        self.with_selection(moved),
                        Command::Choose { side, count },
                    ),
                    Action::ChooseAgain { count } => (
                        self.with_selection(moved),
                        Command::ChooseAgain { side, count },
                    ),
                    Action::Proceed { index } => self.resolved(index),
                    Action::Stop => (
                        Flow::Failed(Failure::InputClosed),
                        Command::Fail(Failure::InputClosed),
                    ),
                    Action::Nothing => (self, Command::Nothing),
                }
            },
            Report::TransportFailed => if selection is Searching {
                (Flow::Failed(Failure::Transport), Command::Fail(Failure::Transport))
            } else {
                (self, Command::Nothing)
            },
            Report::Unreadable => if selection is Searching {
                (Flow::Failed(Failure::Parse), Command::Fail(Failure::Parse))
            } else {
                (self, Command::Nothing)
            },
            Report::Answer => (self, Command::Nothing),
        }
    }

    /// The state and the command that follow while a request for departures
    /// or for a trip is pending.
    pub open spec fn next_pending(self, report: Report) -> (Flow, Command) {
        match report {
            Report::Answer => (Flow::Finished, Command::Render),
            Report::TransportFailed => (
                Flow::Failed(Failure::Transport),
                Command::Fail(Failure::Transport),
            ),
            Report::Unreadable => (Flow::Failed(Failure::Parse), Command::Fail(Failure::Parse)),
            Report::Selection(_) => (self, Command::Nothing),
        }
    }

    /// The state and the command that follow from `self` on `report`.
    pub open spec fn next(self, report: Report) -> (Flow, Command) {
        match self {
            Flow::Stop(selection) => self.next_resolving(Side::Stop, selection, report),
            Flow::From(selection) => self.next_resolving(Side::From, selection, report),
            Flow::To { selection, .. } => self.next_resolving(Side::To, selection, report),
            Flow::Departures { .. } => self.next_pending(report),
            Flow::Trip { .. } => self.next_pending(report),
            Flow::Finished => (self, Command::Nothing),
            Flow::Failed(_) => (self, Command::Nothing),
        }
    }

    /// Whether the selection of one side is in order with the number of
    /// candidates found for that side.
    pub open spec fn side_fits(selection: Selection, found: nat) -> bool {
        selection is Searching || selection.within(found)
    }

    /// Whether the flow is in order with the numbers of candidates that the
    /// searches for the stop, the origin and the destination have returned:
    /// every index that the flow holds points at a candidate of its side.
    pub open spec fn fits(self, stop: nat, from: nat, to: nat) -> bool {
        match self {
            Flow::Stop(selection) => Flow::side_fits(selection, stop),
            Flow::From(selection) => Flow::side_fits(selection, from),
            Flow::To { from: origin, selection } => origin < from && Flow::side_fits(
                selection,
                to,
            ),
            Flow::Departures { index } => index < stop,
            Flow::Trip { from: origin, to: destination } => origin < from && destination < to,
            Flow::Finished => true,
            Flow::Failed(_) => true,
        }
    }

    /// Whether `report` brings the number of candidates found for the side
    /// that the flow is searching, where it brings a number of candidates
    /// to a flow that awaits one.
    pub open spec fn agrees(self, report: Report, stop: nat, from: nat, to: nat) -> bool {
        match (self.resolving(), report) {
            (
                Some((side, Selection::Searching)),
                Report::Selection(Event::Candidates(count)),
            ) => count == match side {
                Side::Stop => stop,
                Side::From => from,
                Side::To => to,
            },
            _ => true,
        }
    }

    /// The commands that a flow gives, one for each of `reports` in turn.
    pub open spec fn commands(self, reports: Seq<Report>) -> Seq<Command>
        decreases reports.len(),
    {
        if reports.len() == 0 {
            Seq::empty()
        } else {
            let (moved, command) = self.next(reports[0]);
            seq![command] + moved.commands(reports.drop_first())
        }
    }

    /// Begins a departures command: the stop search is to be sent.
    pub fn departures() -> (r: (Flow, Command))
        ensures
            r == (Flow::Stop(Selection::Searching), Command::Search(Side::Stop)),
    {
        (Flow::Stop(Selection::Searching), Command::Search(Side::Stop))
    }

    /// Begins a trip command: the search for the origin is to be sent. The
    /// search for the destination follows once the origin is resolved.
    pub fn trip() -> (r: (Flow, Command))
        ensures
            r == (Flow::From(Selection::Searching), Command::Search(Side::From)),
    {
        (Flow::From(Selection::Searching), Command::Search(Side::From))
    }

    /// Whether the flow has come to an end.
    pub fn finished(&self) -> (b: bool)
        ensures
            b == self.is_final(),
    {
        match self {
            Flow::Finished => true,
            Flow::Failed(_) => true,
            _ => false,
        }
    }

    fn settle(self, index: usize) -> (r: (Flow, Command))
        ensures
            r == self.resolved(index),
    {
        match self {
            Flow::Stop(_) => (Flow::Departures { index }, Command::FetchDepartures { index }),
            Flow::From(_) => (
                Flow::To { from: index, selection: Selection::Searching },
                Command::Search(Side::To),
            ),
            Flow::To { from, .. } => (
                Flow::Trip { from, to: index },
                Command::PlanTrip { from, to: index },
            ),
            _ => (self, Command::Nothing),
        }
    }

    fn moved_to(self, selection: Selection) -> (r: Flow)
        ensures
            r == self.with_selection(selection),
    {
        match self {
            Flow::Stop(_) => Flow::Stop(selection),
            Flow::From(_) => Flow::From(selection),
            Flow::To { from, .. } => Flow::To { from, selection },
            _ => self,
        }
    }

    fn step_resolving(self, side: Side, selection: Selection, report: &Report) -> (r: (
        Flow,
        Command,
    ))
        ensures
            r == self.next_resolving(side, selection, *report),
    {
        match report {
            Report::Selection(event) => {
                let (moved, action) = selection.step(event);
                match action {
                    Action::ReportNoMatch => (
                        Flow::Failed(Failure::NoMatch(side)),
                        Command::Fail(Failure::NoMatch(side)),
                    ),
                    Action::Choose { count } => (
                        self.moved_to(moved),
                        Command::Choose { side, count },
                    ),
                    Action::ChooseAgain { count } => (
                        self.moved_to(moved),
                        Command::ChooseAgain { side, count },
                    ),
                    Action::Proceed { index } => self.settle(index),
                    Action::Stop => (
                        Flow::Failed(Failure::InputClosed),
                        Command::Fail(Failure::InputClosed),
                    ),
                    Action::Nothing => (self, Command::Nothing),
                }
            },
            Report::TransportFailed => match selection {
                Selection::Searching => (
                    Flow::Failed(Failure::Transport),
                    Command::Fail(Failure::Transport),
                ),
                _ => (self, Command::Nothing),
            },
            Report::Unreadable => match selection {
                Selection::Searching => (
                    Flow::Failed(Failure::Parse),
                    Command::Fail(Failure::Parse),
                ),
                _ => (self, Command::Nothing),
            },
            Report::Answer => (self, Command::Nothing),
        }
    }

    fn step_pending(self, report: &Report) -> (r: (Flow, Command))
        ensures
            r == self.next_pending(*report),
    {
        match report {
            Report::Answer => (Flow::Finished, Command::Render),
            Report::TransportFailed => (
                Flow::Failed(Failure::Transport),
                Command::Fail(Failure::Transport),
            ),
            Report::Unreadable => (Flow::Failed(Failure::Parse), Command::Fail(Failure::Parse)),
            Report::Selection(_) => (self, Command::Nothing),
        }
    }

    /// Takes one step: the state that follows on `report`, and what the
    /// caller is to do next.
    pub fn step(self, report: &Report) -> (r: (Flow, Command))
        ensures
            r == self.next(*report),
    {
        match self {
            Flow::Stop(selection) => self.step_resolving(Side::Stop, selection, report),
            Flow::From(selection) => self.step_resolving(Side::From, selection, report),
            Flow::To { selection, .. } => self.step_resolving(Side::To, selection, report),
            Flow::Departures { .. } => self.step_pending(report),
            Flow::Trip { .. } => self.step_pending(report),
            Flow::Finished => (self, Command::Nothing),
            Flow::Failed(_) => (self, Command::Nothing),
        }
    }
}

/// A flow that has come to an end gives no command but `Nothing`, whatever
/// is reported to it and however often: in particular it sends no request.
pub proof fn law_final_flow_is_silent(flow: Flow, reports: Seq<Report>)
    requires
        flow.is_final(),
    ensures
        flow.commands(reports).len() == reports.len(),
        forall|i: int|
            0 <= i < reports.len() ==> (#[trigger] flow.commands(reports)[i]) == Command::Nothing,
    decreases reports.len(),
{
    if reports.len() > 0 {
        law_final_flow_is_silent(flow, reports.drop_first());
    }
}

/// A search that finds no candidate ends the command in failure for want of
/// a match, and no request is sent after it, whatever is reported later. In
/// a trip this holds of either side: when the origin is not found, the
/// destination is never searched for.
pub proof fn law_no_match_sends_no_request(flow: Flow, later: Seq<Report>)
    requires
        flow.resolving() matches Some((_, selection)) && selection is Searching,
    ensures
        ({
            let (side, _) = flow.resolving()->0;
            let (failed, command) = flow.next(Report::Selection(Event::Candidates(0)));
            &&& failed == Flow::Failed(Failure::NoMatch(side))
            &&& command == Command::Fail(Failure::NoMatch(side))
            &&& forall|i: int|
                0 <= i < later.len() ==> !(#[trigger] failed.commands(later)[i]).is_request()
        }),
{
    let (failed, command) = flow.next(Report::Selection(Event::Candidates(0)));
    law_final_flow_is_silent(failed, later);
}

/// The search for the destination of a trip is asked for by one step only:
/// the one in which the origin is resolved.
pub proof fn law_destination_search_follows_origin(flow: Flow, report: Report)
    requires
        flow.next(report).1 == Command::Search(Side::To),
    ensures
        flow is From,
        flow.next(report).0 is To,
        flow.next(report).0->To_selection is Searching,
{
}

/// A flow that is in order with the candidates found stays so with every
/// step, and every request that it asks for names candidates that exist:
/// the index of the stop whose departures are fetched, and the indices of
/// origin and destination of the trip that is planned, lie within the
/// candidates of their sides.
pub proof fn law_indices_point_at_candidates(
    flow: Flow,
    report: Report,
    stop: nat,
    from: nat,
    to: nat,
)
    requires
        flow.fits(stop, from, to),
        flow.agrees(report, stop, from, to),
    ensures
        flow.next(report).0.fits(stop, from, to),
        flow.next(report).1 matches Command::FetchDepartures { index } ==> index < stop,
        flow.next(report).1 matches Command::PlanTrip { from: origin, to: destination }
            ==> origin < from && destination < to,
        flow.next(report).1 matches Command::Choose { side, count } ==> count == match side {
            Side::Stop => stop,
            Side::From => from,
            Side::To => to,
        },
{
}

/// Both flows begin in order with whatever the searches will find.
pub proof fn law_flows_begin_in_order(stop: nat, from: nat, to: nat)
    ensures
        Flow::Stop(Selection::Searching).fits(stop, from, to),
        Flow::From(Selection::Searching).fits(stop, from, to),
{
}

} // verus!
