//! The course of one request from a host: the place is looked up, then the
//! weather at it, and whatever happens the host gets an answer of one shape.
//! What is decided stands here; sending, decoding and encoding are the
//! caller's, who does what each step asks for and reports what came of it.

use crate::exchange::{settled, Exchange, Request, ResolveError};
use crate::location::{Location, LocationClient};
use crate::weather::{WeatherClient, WeatherRequestWasm, WeatherResponse, WeatherResponseWasm};
use vstd::prelude::*;
use vstd::string::*;

verus! {

/// How far a request has come.
#[derive(Debug)]
pub enum BridgeState {
    /// Nothing was done yet: the request is to be parsed.
    AwaitingRequest,
    /// The place is being looked up.
    AwaitingLocation { request: WeatherRequestWasm, client: LocationClient },
    /// The place was found, and the weather at it is being looked up.
    AwaitingWeather { location: Location, weather: WeatherClient },
    /// The weather was found and is being written as JSON text.
    AwaitingEncoding { location: Location },
    /// The host was answered.
    Finished,
}

/// What the caller reports.
#[derive(Debug)]
pub enum BridgeEvent {
    /// The request was parsed, or could not be, with the details.
    RequestParsed(Result<WeatherRequestWasm, String>),
    /// What came of the request for the place.
    LocationAnswered(Exchange<Location>),
    /// What came of the request for the weather.
    WeatherAnswered(Exchange<WeatherResponse>),
    /// The report as JSON text, or the details of why it could not be
    /// written.
    WeatherEncoded(Result<String, String>),
}

/// What the caller is to do next.
#[derive(Debug)]
pub enum BridgeAction {
    /// Send this request for the place, and report what came of it.
    FetchLocation(Request),
    /// Send this request for the weather, and report what came of it.
    FetchWeather(Request),
    /// Write this report as JSON text, and report the text.
    Encode(WeatherResponse),
    /// Hand this answer to the host. Nothing follows.
    Respond(WeatherResponseWasm),
}

/// The error of an answer to a request that could not be parsed begins with
/// these words.
pub open spec fn invalid_request_words() -> Seq<char> {
    "Invalid request: "@
}

/// The error of an answer begins with these words where the place was not
/// found.
pub open spec fn location_error_words() -> Seq<char> {
    "Location error: "@
}

/// The error of an answer begins with these words where the weather was not
/// found.
pub open spec fn weather_error_words() -> Seq<char> {
    "Weather error: "@
}

/// The error of an answer begins with these words where the report could not
/// be written as JSON text.
pub open spec fn encoding_error_words() -> Seq<char> {
    "Weather serialization error: "@
}

/// The error of an answer to a report that does not fit the state.
pub open spec fn out_of_turn_words() -> Seq<char> {
    "Internal error: event out of turn"@
}

/// Whether `action` answers the host with a failure: the place is `location`
/// where one is given and the placeholder where none is, there is no report,
/// and the error is `message`.
pub open spec fn responds_failure(
    action: BridgeAction,
    location: Option<Location>,
    message: Seq<char>,
) -> bool {
    &&& action matches BridgeAction::Respond(answer)
    &&& answer.reports(message)
    &&& match location {
        Some(place) => answer.location == place,
        None => answer.location.is_placeholder(),
    }
}

/// Whether a step from `state` on `event` may end in `next` with `action`.
/// It says of every state and every event which state follows and what is to
/// be done.
pub open spec fn steps(
    state: BridgeState,
    event: BridgeEvent,
    next: BridgeState,
    action: BridgeAction,
) -> bool {
    match (state, event) {
        (BridgeState::AwaitingRequest, BridgeEvent::RequestParsed(Err(details))) => {
            &&& next == BridgeState::Finished
            &&& responds_failure(action, None, invalid_request_words() + details@)
        },
        (BridgeState::AwaitingRequest, BridgeEvent::RequestParsed(Ok(request))) => {
            &&& next matches BridgeState::AwaitingLocation { request: kept, client }
            &&& kept == request
            &&& client.get_zip() == request.zip
            &&& client.get_country() == request.country
            &&& client.api_key() == request.api_key
            &&& action matches BridgeAction::FetchLocation(sent)
            &&& client.sends(sent)
        },
        (
            BridgeState::AwaitingLocation { request, client },
            BridgeEvent::LocationAnswered(exchange),
        ) => match settled(exchange) {
            Err(error) => {
                &&& next == BridgeState::Finished
                &&& responds_failure(action, None, location_error_words() + error.message_text())
            },
            Ok(location) => {
                &&& next matches BridgeState::AwaitingWeather { location: kept, weather }
                &&& kept == location
                &&& weather.location() == location
                &&& weather.units() == request.units
                &&& weather.api_key() == request.api_key
                &&& action matches BridgeAction::FetchWeather(sent)
                &&& weather.sends(sent)
            },
        },
        (
            BridgeState::AwaitingWeather { location, weather },
            BridgeEvent::WeatherAnswered(exchange),
        ) => match settled(exchange) {
            Err(error) => {
                &&& next == BridgeState::Finished
                &&& responds_failure(
                    action,
                    Some(location),
                    weather_error_words() + error.message_text(),
                )
            },
            Ok(report) => {
                &&& next == (BridgeState::AwaitingEncoding { location })
                &&& action == BridgeAction::Encode(report)
            },
        },
        (BridgeState::AwaitingEncoding { location }, BridgeEvent::WeatherEncoded(Ok(weather))) => {
            &&& next == BridgeState::Finished
            &&& action == BridgeAction::Respond(
                WeatherResponseWasm { location, weather, error: None },
            )
        },
        (BridgeState::AwaitingEncoding { location }, BridgeEvent::WeatherEncoded(Err(details))) => {
            &&& next == BridgeState::Finished
            &&& responds_failure(action, Some(location), encoding_error_words() + details@)
        },
        _ => {
            &&& next == BridgeState::Finished
            &&& responds_failure(action, None, out_of_turn_words())
        },
    }
}

/// The state in which every request begins.
pub fn begin() -> (state: BridgeState)
    ensures
        state == BridgeState::AwaitingRequest,
{
    BridgeState::AwaitingRequest
}

/// The step that ends a request with a failure.
fn fail(location: Location, stage: &str, details: &str) -> (step: (BridgeState, BridgeAction))
    ensures
        step.0 == BridgeState::Finished,
        responds_failure(step.1, Some(location), stage@ + details@),
{
    (BridgeState::Finished, BridgeAction::Respond(WeatherResponseWasm::failure(location, stage, details)))
}

/// The step that ends a request with a failure before a place was found.
fn fail_without_place(stage: &str, details: &str) -> (step: (BridgeState, BridgeAction))
    ensures
        step.0 == BridgeState::Finished,
        responds_failure(step.1, None, stage@ + details@),
{
    (
        BridgeState::Finished,
        BridgeAction::Respond(WeatherResponseWasm::failure(Location::placeholder(), stage, details)),
    )
}

/// One step of a request: from the state it is in and what the caller
/// reports, the state that follows and what the caller is to do. Every
/// failure ends the request with an answer that tells of it; none is passed
/// on in another shape.
pub fn advance(state: BridgeState, event: BridgeEvent) -> (step: (BridgeState, BridgeAction))
    ensures
        steps(state, event, step.0, step.1),
{
    match (state, event) {
        (BridgeState::AwaitingRequest, BridgeEvent::RequestParsed(Err(details))) => {
            fail_without_place("Invalid request: ", details.as_str())
        },
        (BridgeState::AwaitingRequest, BridgeEvent::RequestParsed(Ok(request))) => {
            let client = LocationClient::new(
                request.zip.clone(),
                request.country.clone(),
                request.api_key.clone(),
            );
            let sent = client.request();
            (BridgeState::AwaitingLocation { request, client }, BridgeAction::FetchLocation(sent))
        },
        (
            BridgeState::AwaitingLocation { request, client },
            BridgeEvent::LocationAnswered(exchange),
        ) => {
            match client.get_location(exchange) {
                Err(error) => {
                    let details = error.message();
                    fail_without_place("Location error: ", details.as_str())
                },
                Ok(location) => {
                    let weather = WeatherClient::new(
                        location.clone(),
                        request.units,
                        request.api_key,
                    );
                    let sent = weather.request();
                    (
                        BridgeState::AwaitingWeather { location, weather },
                        BridgeAction::FetchWeather(sent),
                    )
                },
            }
        },
        (
            BridgeState::AwaitingWeather { location, weather },
            BridgeEvent::WeatherAnswered(exchange),
        ) => {
            match weather.get_current_weather(exchange) {
                Err(error) => {
                    let details = error.message();
                    fail(location, "Weather error: ", details.as_str())
                },
                Ok(report) => (
                    BridgeState::AwaitingEncoding { location },
                    BridgeAction::Encode(report),
                ),
            }
        },
        (BridgeState::AwaitingEncoding { location }, BridgeEvent::WeatherEncoded(Ok(weather))) => {
            (
                BridgeState::Finished,
                BridgeAction::Respond(WeatherResponseWasm::success(location, weather)),
            )
        },
        (BridgeState::AwaitingEncoding { location }, BridgeEvent::WeatherEncoded(Err(details))) => {
            fail(location, "Weather serialization error: ", details.as_str())
        },
        _ => {
            proof {
                reveal_strlit("");
                assert("Internal error: event out of turn"@ + ""@ =~= out_of_turn_words());
            }
            fail_without_place("Internal error: event out of turn", "")
        },
    }
}

/// A request that cannot be parsed is answered at once: the step ends the
/// request, asks for no lookup, and hands the host a failure with the
/// placeholder for a place, no report, and an error.
pub proof fn lemma_malformed_request_is_answered_without_lookup(
    details: String,
    next: BridgeState,
    action: BridgeAction,
)
    requires
        steps(BridgeState::AwaitingRequest, BridgeEvent::RequestParsed(Err(details)), next, action),
    ensures
        next == BridgeState::Finished,
        !(action is FetchLocation),
        !(action is FetchWeather),
        !(action is Encode),
        action matches BridgeAction::Respond(answer) && answer.location.is_placeholder()
            && answer.weather@ == Seq::<char>::empty() && answer.error is Some,
{
}

/// A request ends exactly when the host is answered: every step either asks
/// the caller for more and goes on, or answers the host and is the last.
pub proof fn lemma_finished_exactly_when_answered(
    state: BridgeState,
    event: BridgeEvent,
    next: BridgeState,
    action: BridgeAction,
)
    requires
        steps(state, event, next, action),
    ensures
        next is Finished <==> action is Respond,
{
}

/// Every answer has one of two shapes. Where a step answers with an error,
/// the report is empty. Where it answers without one, the weather had just
/// been written: the report is the JSON text that the caller handed in, and
/// the place is the one that was found.
pub proof fn lemma_answer_is_well_formed(
    state: BridgeState,
    event: BridgeEvent,
    next: BridgeState,
    action: BridgeAction,
)
    requires
        steps(state, event, next, action),
    ensures
        action matches BridgeAction::Respond(answer) ==> {
            &&& answer.error is Some ==> answer.weather@ == Seq::<char>::empty()
            &&& answer.error is None ==> {
                &&& state matches BridgeState::AwaitingEncoding { location }
                &&& event matches BridgeEvent::WeatherEncoded(Ok(weather))
                &&& answer.location == location
                &&& answer.weather == weather
            }
        },
{
}

/// A place that was found is never lost: where the weather cannot be had,
/// the answer still holds that place and not the placeholder.
pub proof fn lemma_failure_after_lookup_keeps_place(
    location: Location,
    weather: WeatherClient,
    exchange: Exchange<WeatherResponse>,
    next: BridgeState,
    action: BridgeAction,
)
    requires
        settled(exchange) is Err,
        steps(
            BridgeState::AwaitingWeather { location, weather },
            BridgeEvent::WeatherAnswered(exchange),
            next,
            action,
        ),
    ensures
        responds_failure(
            action,
            Some(location),
            weather_error_words() + settled(exchange)->Err_0.message_text(),
        ),
{
}

} // verus!
