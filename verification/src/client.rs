//! The weather client: which request is sent, and what an answer means.
//!
//! The request itself is carried out by the caller, who hands back what
//! came of it as an [`Exchange`].

use vstd::prelude::*;
use crate::decimal::{append_decimal, decimal_text};
use crate::measure::Measurement;
use crate::record::{WeatherRecord, WeatherRecordView};

verus! {

/// The place that the user asks about.
#[derive(Clone, Debug, PartialEq, Eq)]
pub struct WeatherQuery {
    /// The name of the city.
    pub city: String,
    /// The code of the country, such as `IN`.
    pub country_code: String,
}

/// A query as a mathematical value.
pub struct WeatherQueryView {
    pub city: Seq<char>,
    pub country_code: Seq<char>,
}

impl View for WeatherQuery {
    type V = WeatherQueryView;

    open spec fn view(&self) -> WeatherQueryView {
        WeatherQueryView { city: self.city@, country_code: self.country_code@ }
    }
}

/// The address that is asked for the weather at a place: the current
/// weather, in metric units, on behalf of the holder of `api_key`. City,
/// country code and key stand in it as they are given.
pub open spec fn url_of(query: WeatherQueryView, api_key: Seq<char>) -> Seq<char> {
    "https://api.openweathermap.org/data/2.5/weather?q="@ + query.city + ","@ + query.country_code
        + "&units=metric&appid="@ + api_key
}

/// The client of the weather service, with the key it was set up with.
#[derive(Clone, Debug, PartialEq, Eq)]
pub struct WeatherClient {
    api_key: String,
}

impl WeatherClient {
    /// The key that the client presents to the service.
    pub closed spec fn api_key(&self) -> Seq<char> {
        self.api_key@
    }

    /// A client that presents `api_key` to the service.
    pub fn new(api_key: String) -> (client: WeatherClient)
        ensures
            client.api_key() == api_key@,
    {
        WeatherClient { api_key }
    }

    /// The address to send a `GET` request to for the weather at the place
    /// of `query`.
    pub fn request_url(&self, query: &WeatherQuery) -> (url: String)
        ensures
            url@ == url_of(query@, self.api_key()),
    {
        let mut url = String::new();
        url.append("https://api.openweathermap.org/data/2.5/weather?q=");
        url.append(query.city.as_str());
        url.append(",");
        url.append(query.country_code.as_str());
        url.append("&units=metric&appid=");
        url.append(self.api_key.as_str());
        assert(url@ =~= url_of(query@, self.api_key()));
        url
    }
}

/// The fields that are read from the body of an answer.
#[derive(Clone, Debug, PartialEq, Eq)]
pub struct WeatherReport {
    /// The descriptions in the list `weather`, in their order.
    pub descriptions: Vec<String>,
    /// `main.temp`.
    pub temperature: Measurement,
    /// `main.humidity`.
    pub humidity: Measurement,
    /// `main.pressure`.
    pub pressure: Measurement,
    /// `wind.speed`.
    pub wind_speed: Measurement,
    /// `name`.
    pub name: String,
}

/// A report as a mathematical value.
pub struct WeatherReportView {
    pub descriptions: Seq<Seq<char>>,
    pub temperature: Measurement,
    pub humidity: Measurement,
    pub pressure: Measurement,
    pub wind_speed: Measurement,
    pub name: Seq<char>,
}

impl View for WeatherReport {
    type V = WeatherReportView;

    open spec fn view(&self) -> WeatherReportView {
        WeatherReportView {
            descriptions: Seq::new(self.descriptions@.len(), |i: int| self.descriptions@[i]@),
            temperature: self.temperature,
            humidity: self.humidity,
            pressure: self.pressure,
            wind_speed: self.wind_speed,
            name: self.name@,
        }
    }
}

/// What was read of the body of an answer.
#[derive(Clone, Debug, PartialEq, Eq)]
pub enum Body {
    /// The body is not of the expected shape; `cause` says why, in words.
    Unreadable { cause: String },
    /// The body has the expected shape and holds these fields.
    Weather(WeatherReport),
}

/// A body as a mathematical value.
pub enum BodyView {
    Unreadable { cause: Seq<char> },
    Weather(WeatherReportView),
}

impl View for Body {
    type V = BodyView;

    open spec fn view(&self) -> BodyView {
        match self {
            Body::Unreadable { cause } => BodyView::Unreadable { cause: cause@ },
            Body::Weather(report) => BodyView::Weather(report@),
        }
    }
}

/// What came of one request.
#[derive(Clone, Debug, PartialEq, Eq)]
pub enum Exchange {
    /// No answer arrived; `cause` says why, in words.
    Unanswered { cause: String },
    /// An answer arrived with the HTTP status `status`.
    Answered { status: u16, body: Body },
}

/// An exchange as a mathematical value.
pub enum ExchangeView {
    Unanswered { cause: Seq<char> },
    Answered { status: u16, body: BodyView },
}

impl View for Exchange {
    type V = ExchangeView;

    open spec fn view(&self) -> ExchangeView {
        match self {
            Exchange::Unanswered { cause } => ExchangeView::Unanswered { cause: cause@ },
            Exchange::Answered { status, body } => ExchangeView::Answered {
                status: *status,
                body: body@,
            },
        }
    }
}

/// Why no weather record came of a request.
#[derive(Clone, Debug, PartialEq, Eq)]
pub enum FetchError {
    /// No answer arrived.
    Transport { cause: String },
    /// The answer has a status that does not report success.
    Status { code: u16 },
    /// The body of the answer is not of the expected shape.
    Malformed { cause: String },
    /// The list of descriptions in the answer is empty.
    NoDescription,
}

/// A fetch error as a mathematical value.
pub enum FetchErrorView {
    Transport { cause: Seq<char> },
    Status { code: u16 },
    Malformed { cause: Seq<char> },
    NoDescription,
}

impl View for FetchError {
    type V = FetchErrorView;

    open spec fn view(&self) -> FetchErrorView {
        match self {
            FetchError::Transport { cause } => FetchErrorView::Transport { cause: cause@ },
            FetchError::Status { code } => FetchErrorView::Status { code: *code },
            FetchError::Malformed { cause } => FetchErrorView::Malformed { cause: cause@ },
            FetchError::NoDescription => FetchErrorView::NoDescription,
        }
    }
}

/// The outcome of a fetch as a mathematical value.
pub open spec fn outcome_view(outcome: Result<WeatherRecord, FetchError>) -> Result<
    WeatherRecordView,
    FetchErrorView,
> {
    match outcome {
        Ok(record) => Ok(record@),
        Err(error) => Err(error@),
    }
}

/// Whether an HTTP status reports success.
pub open spec fn reports_success(status: u16) -> bool {
    200 <= status <= 299
}

/// The record that a report with at least one description amounts to: its
/// first description, its four measurements and its name.
pub open spec fn record_of(report: WeatherReportView) -> WeatherRecordView {
    WeatherRecordView {
        description: report.descriptions[0],
        temperature: report.temperature,
        humidity: report.humidity,
        pressure: report.pressure,
        wind_speed: report.wind_speed,
        location: report.name,
    }
}

/// What an exchange amounts to. A record comes of it only if an answer
/// arrived, its status reports success, its body has the expected shape
/// and the list of descriptions is not empty. Otherwise the first of these
/// that fails names the error.
pub open spec fn outcome_of(exchange: ExchangeView) -> Result<WeatherRecordView, FetchErrorView> {
    match exchange {
        ExchangeView::Unanswered { cause } => Err(FetchErrorView::Transport { cause }),
        ExchangeView::Answered { status, body } => if !reports_success(status) {
            Err(FetchErrorView::Status { code: status })
        } else {
            match body {
                BodyView::Unreadable { cause } => Err(FetchErrorView::Malformed { cause }),
                BodyView::Weather(report) => if report.descriptions.len() == 0 {
                    Err(FetchErrorView::NoDescription)
                } else {
                    Ok(record_of(report))
                },
            }
        },
    }
}

/// A record comes only of an answer whose status reports success and
/// whose body holds at least one description, and it carries the first one.
pub proof fn lemma_record_needs_a_description(exchange: ExchangeView)
    ensures
        outcome_of(exchange) is Ok <==> (exchange matches ExchangeView::Answered {
            status,
            body: BodyView::Weather(report),
        } && reports_success(status) && report.descriptions.len() > 0),
        outcome_of(exchange) matches Ok(record) ==> (exchange matches ExchangeView::Answered {
            body: BodyView::Weather(report),
            ..
        } && record.description == report.descriptions[0]),
{
}

/// An answer whose list of descriptions is empty yields an error, whatever
/// else it holds.
pub proof fn lemma_empty_list_fails(status: u16, report: WeatherReportView)
    requires
        report.descriptions.len() == 0,
    ensures
        outcome_of(ExchangeView::Answered { status, body: BodyView::Weather(report) }) is Err,
        reports_success(status) ==> outcome_of(
            ExchangeView::Answered { status, body: BodyView::Weather(report) },
        ) == Err::<WeatherRecordView, FetchErrorView>(FetchErrorView::NoDescription),
{
}

/// Decides what an exchange amounts to.
pub fn conclude(exchange: Exchange) -> (outcome: Result<WeatherRecord, FetchError>)
    ensures
        outcome_view(outcome) == outcome_of(exchange@),
{
    match exchange {
        Exchange::Unanswered { cause } => Err(FetchError::Transport { cause }),
        Exchange::Answered { status, body } => {
            if status < 200 || status > 299 {
                return Err(FetchError::Status { code: status });
            }
            match body {
                Body::Unreadable { cause } => Err(FetchError::Malformed { cause }),
                Body::Weather(report) => {
                    if report.descriptions.len() == 0 {
                        return Err(FetchError::NoDescription);
                    }
                    let description = report.descriptions[0].clone();
                    let record = WeatherRecord {
                        description,
                        temperature: report.temperature,
                        humidity: report.humidity,
                        pressure: report.pressure,
                        wind_speed: report.wind_speed,
                        location: report.name,
                    };
                    assert(record@ == record_of(report@));
                    Ok(record)
                },
            }
        },
    }
}

/// The cause of a fetch error, in words.
pub open spec fn cause_of(error: FetchErrorView) -> Seq<char> {
    match error {
        FetchErrorView::Transport { cause } => cause,
        FetchErrorView::Status { code } => "the server answered with status "@ + decimal_text(
            code as nat,
        ),
        FetchErrorView::Malformed { cause } => cause,
        FetchErrorView::NoDescription => "the answer holds no weather description"@,
    }
}

/// The line that reports a fetch error.
pub open spec fn error_line_of(error: FetchErrorView) -> Seq<char> {
    "Error: "@ + cause_of(error)
}

impl FetchError {
    /// The cause of the error, in words.
    pub fn cause(&self) -> (text: String)
        ensures
            text@ == cause_of(self@),
    {
        match self {
            FetchError::Transport { cause } => cause.clone(),
            FetchError::Status { code } => {
                let mut text = String::new();
                text.append("the server answered with status ");
                append_decimal(&mut text, *code as u64);
                assert(text@ =~= cause_of(self@));
                text
            },
            FetchError::Malformed { cause } => cause.clone(),
            FetchError::NoDescription => {
                let mut text = String::new();
                text.append("the answer holds no weather description");
                assert(text@ =~= cause_of(self@));
                text
            },
        }
    }

    /// The line that reports the error.
    pub fn error_line(&self) -> (line: String)
        ensures
            line@ == error_line_of(self@),
    {
        let mut line = String::new();
        line.append("Error: ");
        let cause = self.cause();
        line.append(cause.as_str());
        assert(line@ =~= error_line_of(self@));
        line
    }
}

} // verus!
