//! The interactive session: which prompt follows which answer.
//!
//! The session is a state machine. The caller hands it what happened (a
//! line was read, the fetch ended) and carries out what it answers with
//! (print a prompt, fetch the weather, show the result).

use vstd::prelude::*;
use crate::client::{
    error_line_of,
    outcome_view,
    FetchError,
    FetchErrorView,
    WeatherQuery,
    WeatherQueryView,
};
use crate::presenter::{presentation_of, render, Presentation, PresentationView};
use crate::record::{WeatherRecord, WeatherRecordView};
use crate::text::{lowercased, same_text, trimmed};

verus! {

/// Where the session stands.
#[derive(Clone, Copy, Debug, PartialEq, Eq, Structural)]
pub enum Phase {
    /// A round is about to begin.
    Start,
    /// The city was asked for.
    AwaitCity,
    /// The country code was asked for.
    AwaitCountry,
    /// The weather is being fetched.
    Displaying,
    /// The user was asked whether to go on.
    AwaitContinue,
    /// The session is over.
    Terminal,
}

/// What happened outside the session.
#[derive(Debug, PartialEq, Eq)]
pub enum Event {
    /// The caller is ready for a round.
    Begin,
    /// A line was read from the input, given as it was read.
    Line(String),
    /// No line could be read from the input.
    InputClosed,
    /// The fetch ended.
    Fetched(Result<WeatherRecord, FetchError>),
}

/// An event as a mathematical value.
pub enum EventView {
    Begin,
    Line(Seq<char>),
    InputClosed,
    Fetched(Result<WeatherRecordView, FetchErrorView>),
}

impl View for Event {
    type V = EventView;

    open spec fn view(&self) -> EventView {
        match self {
            Event::Begin => EventView::Begin,
            Event::Line(line) => EventView::Line(line@),
            Event::InputClosed => EventView::InputClosed,
            Event::Fetched(outcome) => EventView::Fetched(outcome_view(*outcome)),
        }
    }
}

/// What the caller is to do, one action after the other.
#[derive(Clone, Debug, PartialEq, Eq)]
pub enum Action {
    /// Ask for the city and read a line.
    PromptCity,
    /// Ask for the country code and read a line.
    PromptCountry,
    /// Fetch the weather at the place of the query.
    Fetch(WeatherQuery),
    /// Print the presentation to the output.
    Present(Presentation),
    /// Print the line to the error stream.
    Report(String),
    /// Ask whether to go on and read a line.
    PromptContinue,
    /// Say goodbye and end normally.
    Farewell,
    /// Stop with a diagnostic: no more input can be had.
    Abort,
}

/// An action as a mathematical value.
pub enum ActionView {
    PromptCity,
    PromptCountry,
    Fetch(WeatherQueryView),
    Present(PresentationView),
    Report(Seq<char>),
    PromptContinue,
    Farewell,
    Abort,
}

impl View for Action {
    type V = ActionView;

    open spec fn view(&self) -> ActionView {
        match self {
            Action::PromptCity => ActionView::PromptCity,
            Action::PromptCountry => ActionView::PromptCountry,
            Action::Fetch(query) => ActionView::Fetch(query@),
            Action::Present(presentation) => ActionView::Present(presentation@),
            Action::Report(line) => ActionView::Report(line@),
            Action::PromptContinue => ActionView::PromptContinue,
            Action::Farewell => ActionView::Farewell,
            Action::Abort => ActionView::Abort,
        }
    }
}

/// A list of actions as a mathematical value.
pub open spec fn actions_view(actions: Seq<Action>) -> Seq<ActionView> {
    Seq::new(actions.len(), |i: int| actions[i]@)
}

/// The session.
#[derive(Clone, Debug, PartialEq, Eq)]
pub struct Session {
    phase: Phase,
    city: String,
}

/// A session as a mathematical value.
pub struct SessionView {
    /// Where the session stands.
    pub phase: Phase,
    /// The city that was entered in this round, while the country code is
    /// awaited; empty otherwise.
    pub city: Seq<char>,
}

impl View for Session {
    type V = SessionView;

    closed spec fn view(&self) -> SessionView {
        SessionView { phase: self.phase, city: self.city@ }
    }
}

/// The answer that asks for another round.
pub open spec fn yes_token() -> Seq<char> {
    "yes"@
}

/// Whether a line, as it was read, asks for another round: without the
/// white space at its ends and in lower case it is the word `yes`.
pub open spec fn affirms(line: Seq<char>) -> bool {
    lowercased(trimmed(line)) == yes_token()
}

/// The session at the beginning of a round.
pub open spec fn at(phase: Phase) -> SessionView {
    SessionView { phase, city: Seq::empty() }
}

/// What the session does when `event` happens in `state`: the state it
/// moves to, and the actions it asks for. An event that the phase does
/// not wait for changes nothing and asks for nothing.
pub open spec fn transition(state: SessionView, event: EventView) -> (
    SessionView,
    Seq<ActionView>,
) {
    match (state.phase, event) {
        (Phase::Start, EventView::Begin) => (at(Phase::AwaitCity), seq![ActionView::PromptCity]),
        (Phase::AwaitCity, EventView::Line(line)) => (
            SessionView { phase: Phase::AwaitCountry, city: trimmed(line) },
            seq![ActionView::PromptCountry],
        ),
        (Phase::AwaitCountry, EventView::Line(line)) => (
            at(Phase::Displaying),
            seq![
                ActionView::Fetch(
                    WeatherQueryView { city: state.city, country_code: trimmed(line) },
                ),
            ],
        ),
        (Phase::Displaying, EventView::Fetched(Ok(record))) => (
            at(Phase::AwaitContinue),
            seq![ActionView::Present(presentation_of(record)), ActionView::PromptContinue],
        ),
        (Phase::Displaying, EventView::Fetched(Err(error))) => (
            at(Phase::AwaitContinue),
            seq![ActionView::Report(error_line_of(error)), ActionView::PromptContinue],
        ),
        (Phase::AwaitContinue, EventView::Line(line)) => if affirms(line) {
            (at(Phase::Start), Seq::empty())
        } else {
            (at(Phase::Terminal), seq![ActionView::Farewell])
        },
        (Phase::AwaitCity, EventView::InputClosed) => (
            at(Phase::Terminal),
            seq![ActionView::Abort],
        ),
        (Phase::AwaitCountry, EventView::InputClosed) => (
            at(Phase::Terminal),
            seq![ActionView::Abort],
        ),
        (Phase::AwaitContinue, EventView::InputClosed) => (
            at(Phase::Terminal),
            seq![ActionView::Abort],
        ),
        _ => (state, Seq::empty()),
    }
}

/// However the fetch ends, the session goes on to ask whether to continue:
/// it shows the weather or reports the error, then puts the question and
/// waits for the answer.
pub proof fn lemma_fetch_leads_to_the_question(
    state: SessionView,
    outcome: Result<WeatherRecordView, FetchErrorView>,
)
    requires
        state.phase == Phase::Displaying,
    ensures
        transition(state, EventView::Fetched(outcome)).0 == at(Phase::AwaitContinue),
        transition(state, EventView::Fetched(outcome)).1.len() == 2,
        transition(state, EventView::Fetched(outcome)).1[1] == ActionView::PromptContinue,
        outcome matches Ok(record) ==> transition(state, EventView::Fetched(outcome)).1[0]
            == ActionView::Present(presentation_of(record)),
        outcome matches Err(error) ==> transition(state, EventView::Fetched(outcome)).1[0]
            == ActionView::Report(error_line_of(error)),
{
}

/// Only the answer `yes` leads to another round, which begins with the
/// question for the city. Every other answer ends the session with the
/// farewell.
pub proof fn lemma_only_yes_goes_on(state: SessionView, line: Seq<char>)
    requires
        state.phase == Phase::AwaitContinue,
    ensures
        affirms(line) ==> transition(state, EventView::Line(line)) == (
            at(Phase::Start),
            Seq::<ActionView>::empty(),
        ),
        !affirms(line) ==> transition(state, EventView::Line(line)) == (
            at(Phase::Terminal),
            seq![ActionView::Farewell],
        ),
        transition(at(Phase::Start), EventView::Begin) == (
            at(Phase::AwaitCity),
            seq![ActionView::PromptCity],
        ),
{
}

/// A session that is over stays over and asks for nothing.
pub proof fn lemma_terminal_is_final(state: SessionView, event: EventView)
    requires
        state.phase == Phase::Terminal,
    ensures
        transition(state, event) == (state, Seq::<ActionView>::empty()),
{
}

/// Whether a token is the word `yes`, letter for letter.
pub fn is_yes(token: &str) -> (yes: bool)
    ensures
        yes == (token@ == yes_token()),
{
    same_text(token, "yes")
}

/// Whether a line, as it was read, asks for another round.
pub fn asks_for_more(line: &str) -> (more: bool)
    ensures
        more == affirms(line@),
{
    let token = line.trim().to_lowercase();
    is_yes(token.as_str())
}

impl Session {
    /// A session before its first round.
    pub fn new() -> (session: Session)
        ensures
            session@ == at(Phase::Start),
    {
        Session { phase: Phase::Start, city: String::new() }
    }

    /// Where the session stands.
    pub fn phase(&self) -> (phase: Phase)
        ensures
            phase == self@.phase,
    {
        self.phase
    }

    /// Takes in what happened and says what to do next.
    pub fn step(&mut self, event: Event) -> (actions: Vec<Action>)
        ensures
            (final(self)@, actions_view(actions@)) == transition(old(self)@, event@),
    {
        let mut actions: Vec<Action> = Vec::new();
        match (self.phase, event) {
            (Phase::Start, Event::Begin) => {
                self.phase = Phase::AwaitCity;
                self.city = String::new();
                actions.push(Action::PromptCity);
                assert(actions_view(actions@) =~= seq![ActionView::PromptCity]);
            },
            (Phase::AwaitCity, Event::Line(line)) => {
                self.phase = Phase::AwaitCountry;
                self.city = String::from_str(line.as_str().trim());
                actions.push(Action::PromptCountry);
                assert(actions_view(actions@) =~= seq![ActionView::PromptCountry]);
            },
            (Phase::AwaitCountry, Event::Line(line)) => {
                let query = WeatherQuery {
                    city: self.city.clone(),
                    country_code: String::from_str(line.as_str().trim()),
                };
                self.phase = Phase::Displaying;
                self.city = String::new();
                actions.push(Action::Fetch(query));
                assert(actions_view(actions@) =~= seq![ActionView::Fetch(query@)]);
            },
            (Phase::Displaying, Event::Fetched(Ok(record))) => {
                let presentation = render(&record);
                self.phase = Phase::AwaitContinue;
                self.city = String::new();
                actions.push(Action::Present(presentation));
                actions.push(Action::PromptContinue);
                assert(actions_view(actions@) =~= seq![
                    ActionView::Present(presentation@),
                    ActionView::PromptContinue,
                ]);
            },
            (Phase::Displaying, Event::Fetched(Err(error))) => {
                let line = error.error_line();
                self.phase = Phase::AwaitContinue;
                self.city = String::new();
                actions.push(Action::Report(line));
                actions.push(Action::PromptContinue);
                assert(actions_view(actions@) =~= seq![
                    ActionView::Report(line@),
                    ActionView::PromptContinue,
                ]);
            },
            (Phase::AwaitContinue, Event::Line(line)) => {
                self.city = String::new();
                if asks_for_more(line.as_str()) {
                    self.phase = Phase::Start;
                    assert(actions_view(actions@) =~= Seq::<ActionView>::empty());
                } else {
                    self.phase = Phase::Terminal;
                    actions.push(Action::Farewell);
                    assert(actions_view(actions@) =~= seq![ActionView::Farewell]);
                }
            },
            (Phase::AwaitCity, Event::InputClosed) => {
                self.close(&mut actions);
            },
            (Phase::AwaitCountry, Event::InputClosed) => {
                self.close(&mut actions);
            },
            (Phase::AwaitContinue, Event::InputClosed) => {
                self.close(&mut actions);
            },
            _ => {
                assert(actions_view(actions@) =~= Seq::<ActionView>::empty());
            },
        }
        actions
    }

    /// Ends the session because no more input can be had.
    fn close(&mut self, actions: &mut Vec<Action>)
        requires
            old(actions)@.len() == 0,
        ensures
            final(self)@ == at(Phase::Terminal),
            actions_view(final(actions)@) == seq![ActionView::Abort],
    {
        self.phase = Phase::Terminal;
        self.city = String::new();
        actions.push(Action::Abort);
        assert(actions_view(actions@) =~= seq![ActionView::Abort]);
    }
}

} // verus!
