use openweathermap_lib::bridge::{advance, begin, BridgeAction, BridgeEvent, BridgeState};
use openweathermap_lib::decimal::Decimal;
use openweathermap_lib::exchange::{is_success, settle, Exchange, Request, ResolveError};
use openweathermap_lib::location::{Location, LocationClient};
use openweathermap_lib::weather::{
    Clouds, Coord, Main, Sys, WeatherClient, WeatherRequestWasm, WeatherResponse,
    WeatherResponseWasm, Wind,
};

fn num(text: &str) -> Decimal {
    Decimal::parse(text).expect("a decimal number")
}

fn chatham() -> Location {
    Location::new("N7L".to_string(), "Chatham".to_string(), num("43.6532"), num("-79.3832"), "CA".to_string()).unwrap()
}

fn ask() -> WeatherRequestWasm {
    WeatherRequestWasm { zip: "N7L".to_string(), country: "CA".to_string(), units: "metric".to_string(), api_key: "K".to_string() }
}

fn report(temp: &str) -> WeatherResponse {
    WeatherResponse::new(
        Coord::new(num("-79.3832"), num("43.6532")).unwrap(),
        vec![],
        "stations".to_string(),
        Main::new(Some(num(temp)), None, None, None, None, None, None, None).unwrap(),
        10000,
        Wind::new(num("3.6"), 220, None).unwrap(),
        Clouds::new(20).unwrap(),
        1752449935,
        Sys::new(None, None, "CA".to_string(), 1752401008, 1752455116).unwrap(),
        -14400,
        5920450,
        "Chatham".to_string(),
        200,
    )
    .unwrap()
}

fn pairs(request: &Request) -> Vec<(String, String)> {
    request.query.iter().map(|p| (p.name.clone(), p.value.clone())).collect()
}

fn ok<T>(body: T) -> Exchange<T> {
    Exchange::Response { status: 200, reason: "OK".to_string(), body: Ok(body) }
}

fn respond(action: BridgeAction) -> WeatherResponseWasm {
    match action {
        BridgeAction::Respond(answer) => answer,
        other => panic!("expected an answer, got {:?}", other),
    }
}

fn fetch_location(action: BridgeAction) -> Request {
    match action {
        BridgeAction::FetchLocation(request) => request,
        other => panic!("expected a request for the place, got {:?}", other),
    }
}

fn fetch_weather(action: BridgeAction) -> Request {
    match action {
        BridgeAction::FetchWeather(request) => request,
        other => panic!("expected a request for the weather, got {:?}", other),
    }
}

fn assert_placeholder(location: &Location) {
    assert_eq!(location.zip, "");
    assert_eq!(location.name, "");
    assert_eq!(location.country, "");
    assert_eq!(location.lat, Decimal::zero());
    assert_eq!(location.lon, Decimal::zero());
}

#[test]
fn location_client_asks_for_zip_and_country() {
    let client = LocationClient::new("N7L".to_string(), "CA".to_string(), "K".to_string());
    let request = client.request();
    assert_eq!(request.url, "https://api.openweathermap.org/geo/1.0/zip");
    assert_eq!(pairs(&request), vec![("zip".to_string(), "N7L,CA".to_string()), ("appid".to_string(), "K".to_string())]);
}

#[test]
fn location_client_setters_change_the_next_request() {
    let mut client = LocationClient::new("N7L".to_string(), "CA".to_string(), "K".to_string());
    assert_eq!(client.get_zip(), "N7L");
    assert_eq!(client.get_country(), "CA");
    assert_eq!(client.detailed_display(), "country: [CA] - zip: [N7L]");
    client.set_zip("90210".to_string());
    client.set_country("US".to_string());
    client.set_api_key("SECRET".to_string());
    assert_eq!(client.get_zip(), "90210");
    assert_eq!(client.get_country(), "US");
    assert_eq!(client.detailed_display(), "country: [US] - zip: [90210]");
    assert_eq!(pairs(&client.request()), vec![("zip".to_string(), "90210,US".to_string()), ("appid".to_string(), "SECRET".to_string())]);
}

#[test]
fn weather_client_asks_with_coordinates_written_in_full() {
    let client = WeatherClient::new(chatham(), "imperial".to_string(), "K".to_string());
    let request = client.request();
    assert_eq!(request.url, "https://api.openweathermap.org/data/2.5/weather");
    assert_eq!(
        pairs(&request),
        vec![
            ("lat".to_string(), "43.6532".to_string()),
            ("lon".to_string(), "-79.3832".to_string()),
            ("units".to_string(), "imperial".to_string()),
            ("appid".to_string(), "K".to_string()),
        ]
    );
}

#[test]
fn status_of_success_is_two_hundred_to_two_ninety_nine() {
    for status in [0u16, 100, 199, 300, 301, 404, 500, 599, u16::MAX] {
        assert!(!is_success(status), "{}", status);
    }
    for status in [200u16, 201, 204, 250, 299] {
        assert!(is_success(status), "{}", status);
    }
}

#[test]
fn settle_sorts_failures_by_kind() {
    match settle::<u8>(Exchange::Transport { details: "connection reset".to_string() }) {
        Err(ResolveError::TransportFailed { details }) => assert_eq!(details, "connection reset"),
        other => panic!("{:?}", other),
    }
    match settle::<u8>(Exchange::Response { status: 404, reason: "Not Found".to_string(), body: Ok(7) }) {
        Err(ResolveError::RequestFailed { status, reason }) => {
            assert_eq!(status, 404);
            assert_eq!(reason, "Not Found");
        }
        other => panic!("{:?}", other),
    }
    match settle::<u8>(Exchange::Response { status: 200, reason: "OK".to_string(), body: Err("missing field `lat`".to_string()) }) {
        Err(ResolveError::DecodeFailed { details }) => assert_eq!(details, "missing field `lat`"),
        other => panic!("{:?}", other),
    }
    match settle::<u8>(Exchange::Response { status: 299, reason: String::new(), body: Ok(7) }) {
        Ok(7) => {}
        other => panic!("{:?}", other),
    }
}

#[test]
fn resolve_error_messages() {
    assert_eq!(ResolveError::RequestFailed { status: 401, reason: "Unauthorized".to_string() }.message(), "API request failed with status: 401 Unauthorized");
    assert_eq!(ResolveError::RequestFailed { status: 0, reason: String::new() }.message(), "API request failed with status: 0 ");
    assert_eq!(ResolveError::DecodeFailed { details: "expected value".to_string() }.message(), "expected value");
    assert_eq!(ResolveError::TransportFailed { details: "timeout".to_string() }.message(), "timeout");
}

#[test]
fn clients_settle_what_came_of_their_request() {
    let places = LocationClient::new("N7L".to_string(), "CA".to_string(), "K".to_string());
    assert_eq!(places.get_location(ok(chatham())).unwrap().name, "Chatham");
    assert!(matches!(
        places.get_location(Exchange::Response { status: 500, reason: "Internal Server Error".to_string(), body: Ok(chatham()) }),
        Err(ResolveError::RequestFailed { status: 500, .. })
    ));
    let weather = WeatherClient::new(chatham(), "metric".to_string(), "K".to_string());
    assert_eq!(weather.get_current_weather(ok(report("20.0"))).unwrap().main.temp, Some(num("20.0")));
    assert!(matches!(
        weather.get_current_weather(Exchange::Transport { details: "dns".to_string() }),
        Err(ResolveError::TransportFailed { .. })
    ));
}

#[test]
fn malformed_request_is_answered_without_any_lookup() {
    let mut fetches = 0;
    let (state, action) = advance(begin(), BridgeEvent::RequestParsed(Err("expected value at line 1 column 1".to_string())));
    if let BridgeAction::FetchLocation(_) | BridgeAction::FetchWeather(_) = action {
        fetches += 1;
    }
    assert_eq!(fetches, 0);
    assert!(matches!(state, BridgeState::Finished));
    let answer = respond(action);
    assert_placeholder(&answer.location);
    assert_eq!(answer.weather, "");
    assert_eq!(answer.error.as_deref(), Some("Invalid request: expected value at line 1 column 1"));
}

#[test]
fn end_to_end_success() {
    let (state, action) = advance(begin(), BridgeEvent::RequestParsed(Ok(ask())));
    assert!(matches!(state, BridgeState::AwaitingLocation { .. }));
    let first = fetch_location(action);
    assert_eq!(first.url, "https://api.openweathermap.org/geo/1.0/zip");
    assert_eq!(pairs(&first), vec![("zip".to_string(), "N7L,CA".to_string()), ("appid".to_string(), "K".to_string())]);

    let (state, action) = advance(state, BridgeEvent::LocationAnswered(ok(chatham())));
    assert!(matches!(state, BridgeState::AwaitingWeather { .. }));
    let second = fetch_weather(action);
    assert_eq!(second.url, "https://api.openweathermap.org/data/2.5/weather");
    assert_eq!(
        pairs(&second),
        vec![
            ("lat".to_string(), "43.6532".to_string()),
            ("lon".to_string(), "-79.3832".to_string()),
            ("units".to_string(), "metric".to_string()),
            ("appid".to_string(), "K".to_string()),
        ]
    );

    let (state, action) = advance(state, BridgeEvent::WeatherAnswered(ok(report("20.0"))));
    assert!(matches!(state, BridgeState::AwaitingEncoding { .. }));
    let found = match action {
        BridgeAction::Encode(found) => found,
        other => panic!("expected a report to encode, got {:?}", other),
    };
    assert_eq!(found.main.temp, Some(num("20.0")));

    let mut main = serde_json::Map::new();
    let temp: f64 = found.main.temp.unwrap().to_text().parse().unwrap();
    main.insert("temp".to_string(), serde_json::Value::from(temp));
    let mut body = serde_json::Map::new();
    body.insert("main".to_string(), serde_json::Value::Object(main));
    body.insert("name".to_string(), serde_json::Value::from(found.name.clone()));
    let json = serde_json::to_string(&serde_json::Value::Object(body)).unwrap();

    let (state, action) = advance(state, BridgeEvent::WeatherEncoded(Ok(json)));
    assert!(matches!(state, BridgeState::Finished));
    let answer = respond(action);
    assert_eq!(answer.error, None);
    assert_eq!(answer.location.zip, "N7L");
    assert_eq!(answer.location.name, "Chatham");
    assert_eq!(answer.location.lat, num("43.6532"));
    assert_eq!(answer.location.lon, num("-79.3832"));
    assert_eq!(answer.location.country, "CA");
    let parsed: serde_json::Value = serde_json::from_str(&answer.weather).unwrap();
    assert_eq!(parsed["main"]["temp"].as_f64(), Some(20.0));
}

#[test]
fn end_to_end_location_failure() {
    let (state, _) = advance(begin(), BridgeEvent::RequestParsed(Ok(ask())));
    let (state, action) = advance(state, BridgeEvent::LocationAnswered(Exchange::Transport { details: "timeout".to_string() }));
    assert!(matches!(state, BridgeState::Finished));
    let answer = respond(action);
    assert_placeholder(&answer.location);
    assert_eq!(answer.weather, "");
    assert_eq!(answer.error.as_deref(), Some("Location error: timeout"));
}

#[test]
fn location_refusal_names_the_status() {
    let (state, _) = advance(begin(), BridgeEvent::RequestParsed(Ok(ask())));
    let refusal = Exchange::Response { status: 404, reason: "Not Found".to_string(), body: Err(String::new()) };
    let (_, action) = advance(state, BridgeEvent::LocationAnswered(refusal));
    let answer = respond(action);
    assert_placeholder(&answer.location);
    assert_eq!(answer.error.as_deref(), Some("Location error: API request failed with status: 404 Not Found"));
}

#[test]
fn weather_failure_keeps_the_place_that_was_found() {
    let (state, _) = advance(begin(), BridgeEvent::RequestParsed(Ok(ask())));
    let (state, _) = advance(state, BridgeEvent::LocationAnswered(ok(chatham())));
    let broken = Exchange::Response { status: 200, reason: "OK".to_string(), body: Err("missing field `coord`".to_string()) };
    let (state, action) = advance(state, BridgeEvent::WeatherAnswered(broken));
    assert!(matches!(state, BridgeState::Finished));
    let answer = respond(action);
    assert_eq!(answer.location.zip, "N7L");
    assert_eq!(answer.location.name, "Chatham");
    assert_eq!(answer.location.lat, num("43.6532"));
    assert_eq!(answer.location.lon, num("-79.3832"));
    assert_eq!(answer.location.country, "CA");
    assert_eq!(answer.weather, "");
    assert_eq!(answer.error.as_deref(), Some("Weather error: missing field `coord`"));
}

#[test]
fn encoding_failure_keeps_the_place_that_was_found() {
    let (state, _) = advance(begin(), BridgeEvent::RequestParsed(Ok(ask())));
    let (state, _) = advance(state, BridgeEvent::LocationAnswered(ok(chatham())));
    let (state, _) = advance(state, BridgeEvent::WeatherAnswered(ok(report("20.0"))));
    let (state, action) = advance(state, BridgeEvent::WeatherEncoded(Err("key must be a string".to_string())));
    assert!(matches!(state, BridgeState::Finished));
    let answer = respond(action);
    assert_eq!(answer.location.name, "Chatham");
    assert_eq!(answer.weather, "");
    assert_eq!(answer.error.as_deref(), Some("Weather serialization error: key must be a string"));
}

#[test]
fn events_out_of_turn_end_the_request_with_an_error() {
    let (state, action) = advance(begin(), BridgeEvent::WeatherEncoded(Ok("{}".to_string())));
    assert!(matches!(state, BridgeState::Finished));
    let answer = respond(action);
    assert_placeholder(&answer.location);
    assert_eq!(answer.weather, "");
    assert_eq!(answer.error.as_deref(), Some("Internal error: event out of turn"));

    let (state, action) = advance(BridgeState::Finished, BridgeEvent::RequestParsed(Ok(ask())));
    assert!(matches!(state, BridgeState::Finished));
    assert_eq!(respond(action).error.as_deref(), Some("Internal error: event out of turn"));

    let (state, _) = advance(begin(), BridgeEvent::RequestParsed(Ok(ask())));
    let (state, action) = advance(state, BridgeEvent::WeatherAnswered(ok(report("1"))));
    assert!(matches!(state, BridgeState::Finished));
    assert_eq!(respond(action).error.as_deref(), Some("Internal error: event out of turn"));
}

#[test]
fn envelope_builders() {
    let good = WeatherResponseWasm::success(chatham(), "{\"cod\":200}".to_string());
    assert_eq!(good.weather, "{\"cod\":200}");
    assert_eq!(good.error, None);
    assert_eq!(good.location.name, "Chatham");
    let bad = WeatherResponseWasm::failure(chatham(), "Weather error: ", "timeout");
    assert_eq!(bad.weather, "");
    assert_eq!(bad.error.as_deref(), Some("Weather error: timeout"));
    assert_eq!(bad.location.name, "Chatham");
}
