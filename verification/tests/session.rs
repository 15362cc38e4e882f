use weather_station::client::{FetchError, WeatherQuery};
use weather_station::measure::Measurement;
use weather_station::presenter::render;
use weather_station::record::WeatherRecord;
use weather_station::session::{asks_for_more, is_yes, Action, Event, Phase, Session};

fn line(text: &str) -> Event {
    Event::Line(text.to_string())
}

fn pune() -> WeatherRecord {
    WeatherRecord {
        description: "clear sky".to_string(),
        temperature: Measurement::from_bits(25.0f64.to_bits()),
        humidity: Measurement::from_bits(40.0f64.to_bits()),
        pressure: Measurement::from_bits(1012.3f64.to_bits()),
        wind_speed: Measurement::from_bits(3.2f64.to_bits()),
        location: "Pune".to_string(),
    }
}

fn session_at_displaying() -> Session {
    let mut session = Session::new();
    session.step(Event::Begin);
    session.step(line("Pune\n"));
    session.step(line("IN\n"));
    assert_eq!(session.phase(), Phase::Displaying);
    session
}

fn session_at_continue() -> Session {
    let mut session = session_at_displaying();
    session.step(Event::Fetched(Ok(pune())));
    assert_eq!(session.phase(), Phase::AwaitContinue);
    session
}

#[test]
fn session_begins_at_start() {
    assert_eq!(Session::new().phase(), Phase::Start);
}

#[test]
fn session_walks_through_a_round() {
    let mut session = Session::new();
    assert_eq!(session.step(Event::Begin), vec![Action::PromptCity]);
    assert_eq!(session.phase(), Phase::AwaitCity);
    assert_eq!(session.step(line("  Pune \n")), vec![Action::PromptCountry]);
    assert_eq!(session.phase(), Phase::AwaitCountry);
    assert_eq!(
        session.step(line("IN\r\n")),
        vec![Action::Fetch(WeatherQuery {
            city: "Pune".to_string(),
            country_code: "IN".to_string()
        })]
    );
    assert_eq!(session.phase(), Phase::Displaying);
    assert_eq!(
        session.step(Event::Fetched(Ok(pune()))),
        vec![Action::Present(render(&pune())), Action::PromptContinue]
    );
    assert_eq!(session.phase(), Phase::AwaitContinue);
    assert_eq!(session.step(line("no\n")), vec![Action::Farewell]);
    assert_eq!(session.phase(), Phase::Terminal);
}

#[test]
fn session_keeps_inner_spaces_of_a_city() {
    let mut session = Session::new();
    session.step(Event::Begin);
    session.step(line("\t New  York \n"));
    assert_eq!(
        session.step(line("")),
        vec![Action::Fetch(WeatherQuery {
            city: "New  York".to_string(),
            country_code: "".to_string()
        })]
    );
}

#[test]
fn session_asks_to_continue_after_a_failed_fetch() {
    for error in [
        FetchError::NoDescription,
        FetchError::Status { code: 404 },
        FetchError::Transport { cause: "connection refused".to_string() },
        FetchError::Malformed { cause: "missing field `main`".to_string() },
    ] {
        let mut session = session_at_displaying();
        let expected = error.error_line();
        assert_eq!(
            session.step(Event::Fetched(Err(error))),
            vec![Action::Report(expected), Action::PromptContinue]
        );
        assert_eq!(session.phase(), Phase::AwaitContinue);
    }
}

#[test]
fn session_reports_an_empty_list_and_goes_on() {
    let mut session = session_at_displaying();
    assert_eq!(
        session.step(Event::Fetched(Err(FetchError::NoDescription))),
        vec![
            Action::Report("Error: the answer holds no weather description".to_string()),
            Action::PromptContinue
        ]
    );
    assert_eq!(session.step(line("yes")), vec![]);
    assert_eq!(session.phase(), Phase::Start);
}

#[test]
fn session_restarts_on_yes_in_any_case() {
    for answer in ["yes", "YES", "Yes", "yEs", "yes\n", "  yes  ", "\tYES\r\n"] {
        let mut session = session_at_continue();
        assert_eq!(session.step(line(answer)), vec![], "{:?}", answer);
        assert_eq!(session.phase(), Phase::Start, "{:?}", answer);
        assert_eq!(session.step(Event::Begin), vec![Action::PromptCity]);
        assert_eq!(session.phase(), Phase::AwaitCity);
    }
}

#[test]
fn session_ends_on_anything_but_yes() {
    for answer in ["no", "NO", "n", "y", "", "\n", "yes please", "yess", "y es", "oui", "ｙｅｓ"] {
        let mut session = session_at_continue();
        assert_eq!(session.step(line(answer)), vec![Action::Farewell], "{:?}", answer);
        assert_eq!(session.phase(), Phase::Terminal, "{:?}", answer);
    }
}

#[test]
fn session_aborts_when_input_closes() {
    let mut at_city = Session::new();
    at_city.step(Event::Begin);
    assert_eq!(at_city.step(Event::InputClosed), vec![Action::Abort]);
    assert_eq!(at_city.phase(), Phase::Terminal);

    let mut at_country = Session::new();
    at_country.step(Event::Begin);
    at_country.step(line("Pune"));
    assert_eq!(at_country.step(Event::InputClosed), vec![Action::Abort]);
    assert_eq!(at_country.phase(), Phase::Terminal);

    let mut at_continue = session_at_continue();
    assert_eq!(at_continue.step(Event::InputClosed), vec![Action::Abort]);
    assert_eq!(at_continue.phase(), Phase::Terminal);
}

#[test]
fn session_ignores_what_it_does_not_wait_for() {
    let mut session = Session::new();
    assert_eq!(session.step(line("Pune")), vec![]);
    assert_eq!(session.step(Event::InputClosed), vec![]);
    assert_eq!(session.step(Event::Fetched(Ok(pune()))), vec![]);
    assert_eq!(session.phase(), Phase::Start);

    let mut waiting = session_at_displaying();
    assert_eq!(waiting.step(line("yes")), vec![]);
    assert_eq!(waiting.step(Event::Begin), vec![]);
    assert_eq!(waiting.step(Event::InputClosed), vec![]);
    assert_eq!(waiting.phase(), Phase::Displaying);

    let mut asked = Session::new();
    asked.step(Event::Begin);
    assert_eq!(asked.step(Event::Begin), vec![]);
    assert_eq!(asked.step(Event::Fetched(Err(FetchError::NoDescription))), vec![]);
    assert_eq!(asked.phase(), Phase::AwaitCity);
}

#[test]
fn session_stays_over_once_it_is_over() {
    let mut session = session_at_continue();
    session.step(line("no"));
    assert_eq!(session.step(Event::Begin), vec![]);
    assert_eq!(session.step(line("yes")), vec![]);
    assert_eq!(session.step(Event::InputClosed), vec![]);
    assert_eq!(session.step(Event::Fetched(Ok(pune()))), vec![]);
    assert_eq!(session.phase(), Phase::Terminal);
}

#[test]
fn session_forgets_the_city_of_the_round_before() {
    let mut session = session_at_continue();
    session.step(line("yes"));
    session.step(Event::Begin);
    session.step(line("Oslo"));
    assert_eq!(
        session.step(line("NO")),
        vec![Action::Fetch(WeatherQuery {
            city: "Oslo".to_string(),
            country_code: "NO".to_string()
        })]
    );
}

#[test]
fn is_yes_takes_the_word_letter_for_letter() {
    assert!(is_yes("yes"));
    assert!(!is_yes("Yes"));
    assert!(!is_yes("YES"));
    assert!(!is_yes("yes "));
    assert!(!is_yes(""));
    assert!(!is_yes("ye"));
    assert!(!is_yes("no"));
}

#[test]
fn asks_for_more_trims_and_lowers() {
    assert!(asks_for_more("yes"));
    assert!(asks_for_more(" YES\n"));
    assert!(asks_for_more("\u{a0}Yes\u{2003}"));
    assert!(!asks_for_more("no"));
    assert!(!asks_for_more("NO"));
    assert!(!asks_for_more("y e s"));
    assert!(!asks_for_more(""));
}
