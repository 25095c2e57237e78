use sanntid::flow::{Command, Failure, Flow, Report, Side};
use sanntid::select::{classify, read_choice, Action, Event, Matches, Selection};
use sanntid::text::strip_line_end;

fn line(text: &str) -> Event {
    Event::Line(text.to_string())
}

#[test]
fn classify_by_count() {
    assert_eq!(classify(0), Matches::NoMatch);
    assert_eq!(classify(1), Matches::SingleMatch);
    assert_eq!(classify(2), Matches::MultipleMatch);
    assert_eq!(classify(usize::MAX), Matches::MultipleMatch);
}

#[test]
fn choice_accepts_exactly_one_to_count() {
    for count in 1..6usize {
        for k in 0..10usize {
            let got = read_choice(&format!("{}", k), count);
            if 1 <= k && k <= count {
                assert_eq!(got, Some(k - 1));
            } else {
                assert_eq!(got, None);
            }
        }
    }
}

#[test]
fn choice_refuses_what_is_no_numeral_in_range() {
    for text in ["", " ", "abc", "-1", "-0", "0", "4", "2.0", "2 ", " 2", "1e0", "0x2", "+", "-", "٣", "2\n"] {
        assert_eq!(read_choice(text, 3), None, "{:?}", text);
    }
    assert_eq!(read_choice("99999999999999999999999999", 3), None);
    assert_eq!(read_choice("18446744073709551616", usize::MAX), None);
}

#[test]
fn choice_takes_sign_and_leading_zeros() {
    assert_eq!(read_choice("+2", 3), Some(1));
    assert_eq!(read_choice("002", 3), Some(1));
    assert_eq!(read_choice("3", 3), Some(2));
}

#[test]
fn no_candidates_end_in_no_match() {
    let (state, action) = Selection::new().step(&Event::Candidates(0));
    assert_eq!(state, Selection::NoMatch);
    assert_eq!(action, Action::ReportNoMatch);
    assert!(state.finished());
    assert_eq!(state.step(&line("1")), (Selection::NoMatch, Action::Nothing));
    assert_eq!(state.step(&Event::Candidates(3)), (Selection::NoMatch, Action::Nothing));
}

#[test]
fn single_candidate_is_taken_without_asking() {
    let (state, action) = Selection::new().step(&Event::Candidates(1));
    assert_eq!(state, Selection::Resolved { index: 0 });
    assert_eq!(action, Action::Proceed { index: 0 });
}

#[test]
fn several_candidates_ask_until_a_valid_choice() {
    let (mut state, action) = Selection::new().step(&Event::Candidates(4));
    assert_eq!(state, Selection::Selecting { count: 4 });
    assert_eq!(action, Action::Choose { count: 4 });
    for bad in ["x", "0", "5", "-3", ""] {
        let (next, action) = state.step(&line(bad));
        assert_eq!(next, Selection::Selecting { count: 4 });
        assert_eq!(action, Action::ChooseAgain { count: 4 });
        state = next;
    }
    let (state, action) = state.step(&line("4"));
    assert_eq!(state, Selection::Resolved { index: 3 });
    assert_eq!(action, Action::Proceed { index: 3 });
    assert!(state.finished());
}

#[test]
fn closed_input_ends_the_selection() {
    let (state, _) = Selection::new().step(&Event::Candidates(2));
    let (state, action) = state.step(&Event::EndOfInput);
    assert_eq!(state, Selection::Closed);
    assert_eq!(action, Action::Stop);
    assert_eq!(state.step(&line("1")), (Selection::Closed, Action::Nothing));
}

#[test]
fn events_out_of_place_change_nothing() {
    assert_eq!(Selection::Searching.step(&line("1")), (Selection::Searching, Action::Nothing));
    assert_eq!(Selection::Searching.step(&Event::EndOfInput), (Selection::Searching, Action::Nothing));
    let selecting = Selection::Selecting { count: 2 };
    assert_eq!(selecting.step(&Event::Candidates(5)), (selecting, Action::Nothing));
}

#[test]
fn line_end_is_stripped() {
    assert_eq!(strip_line_end("3\n"), "3");
    assert_eq!(strip_line_end("3\r\n"), "3");
    assert_eq!(strip_line_end("3\r"), "3");
    assert_eq!(strip_line_end("3"), "3");
    assert_eq!(strip_line_end(""), "");
    assert_eq!(strip_line_end("\n"), "");
    assert_eq!(strip_line_end("3\n\n"), "3\n");
    assert_eq!(strip_line_end("3\n\r"), "3\n");
    assert_eq!(strip_line_end("blå\r\n"), "blå");
}

fn select(event: Event) -> Report {
    Report::Selection(event)
}

#[test]
fn departures_flow_with_one_candidate() {
    let (flow, command) = Flow::departures();
    assert_eq!(command, Command::Search(Side::Stop));
    assert!(command.sends_request());
    let (flow, command) = flow.step(&select(Event::Candidates(1)));
    assert_eq!(flow, Flow::Departures { index: 0 });
    assert_eq!(command, Command::FetchDepartures { index: 0 });
    let (flow, command) = flow.step(&Report::Answer);
    assert_eq!(flow, Flow::Finished);
    assert_eq!(command, Command::Render);
    assert!(flow.finished());
    assert_eq!(flow.step(&Report::Answer), (Flow::Finished, Command::Nothing));
}

#[test]
fn departures_flow_asks_and_asks_again() {
    let (flow, _) = Flow::departures();
    let (flow, command) = flow.step(&select(Event::Candidates(3)));
    assert_eq!(command, Command::Choose { side: Side::Stop, count: 3 });
    let (flow, command) = flow.step(&select(line("7")));
    assert_eq!(flow, Flow::Stop(Selection::Selecting { count: 3 }));
    assert_eq!(command, Command::ChooseAgain { side: Side::Stop, count: 3 });
    let (flow, command) = flow.step(&select(line("2")));
    assert_eq!(flow, Flow::Departures { index: 1 });
    assert_eq!(command, Command::FetchDepartures { index: 1 });
    let (flow, command) = flow.step(&Report::Unreadable);
    assert_eq!(flow, Flow::Failed(Failure::Parse));
    assert_eq!(command, Command::Fail(Failure::Parse));
}

#[test]
fn no_match_sends_no_further_request() {
    let (flow, _) = Flow::departures();
    let (mut flow, command) = flow.step(&select(Event::Candidates(0)));
    assert_eq!(flow, Flow::Failed(Failure::NoMatch(Side::Stop)));
    assert_eq!(command, Command::Fail(Failure::NoMatch(Side::Stop)));
    assert!(!command.sends_request());
    let later = [
        select(Event::Candidates(2)),
        select(line("1")),
        Report::Answer,
        Report::TransportFailed,
        Report::Unreadable,
        select(Event::EndOfInput),
    ];
    for report in later.iter() {
        let (next, command) = flow.step(report);
        assert_eq!(command, Command::Nothing);
        assert!(!command.sends_request());
        assert_eq!(next, Flow::Failed(Failure::NoMatch(Side::Stop)));
        flow = next;
    }
}

#[test]
fn trip_flow_resolves_origin_then_destination() {
    let (flow, command) = Flow::trip();
    assert_eq!(command, Command::Search(Side::From));
    let (flow, command) = flow.step(&select(Event::Candidates(2)));
    assert_eq!(command, Command::Choose { side: Side::From, count: 2 });
    let (flow, command) = flow.step(&select(line("2")));
    assert_eq!(flow, Flow::To { from: 1, selection: Selection::Searching });
    assert_eq!(command, Command::Search(Side::To));
    let (flow, command) = flow.step(&select(Event::Candidates(1)));
    assert_eq!(flow, Flow::Trip { from: 1, to: 0 });
    assert_eq!(command, Command::PlanTrip { from: 1, to: 0 });
    let (flow, command) = flow.step(&Report::Answer);
    assert_eq!((flow, command), (Flow::Finished, Command::Render));
}

#[test]
fn trip_flow_fails_fast_without_origin() {
    let (flow, _) = Flow::trip();
    let (flow, command) = flow.step(&select(Event::Candidates(0)));
    assert_eq!(flow, Flow::Failed(Failure::NoMatch(Side::From)));
    assert_eq!(command, Command::Fail(Failure::NoMatch(Side::From)));
    let (flow, command) = flow.step(&select(Event::Candidates(3)));
    assert_eq!(flow, Flow::Failed(Failure::NoMatch(Side::From)));
    assert_eq!(command, Command::Nothing);
}

#[test]
fn trip_flow_fails_without_destination() {
    let (flow, _) = Flow::trip();
    let (flow, _) = flow.step(&select(Event::Candidates(1)));
    let (flow, command) = flow.step(&select(Event::Candidates(0)));
    assert_eq!(flow, Flow::Failed(Failure::NoMatch(Side::To)));
    assert_eq!(command, Command::Fail(Failure::NoMatch(Side::To)));
}

#[test]
fn transport_failure_ends_the_flow() {
    let (flow, _) = Flow::trip();
    let (flow, command) = flow.step(&Report::TransportFailed);
    assert_eq!(flow, Flow::Failed(Failure::Transport));
    assert_eq!(command, Command::Fail(Failure::Transport));
    let (flow, _) = Flow::departures();
    let (flow, _) = flow.step(&select(Event::Candidates(1)));
    let (flow, command) = flow.step(&Report::TransportFailed);
    assert_eq!(flow, Flow::Failed(Failure::Transport));
    assert_eq!(command, Command::Fail(Failure::Transport));
}

#[test]
fn closed_input_ends_the_flow() {
    let (flow, _) = Flow::departures();
    let (flow, _) = flow.step(&select(Event::Candidates(2)));
    let (flow, command) = flow.step(&select(Event::EndOfInput));
    assert_eq!(flow, Flow::Failed(Failure::InputClosed));
    assert_eq!(command, Command::Fail(Failure::InputClosed));
}
