use weather::{
    decode_conditions, decode_place, retrieve, Exchange, JsonLeaf, Provider,
    ProviderCreationError, ProviderUsingError, Reply, Retrieval, Step, WeatherData,
};

fn received(status: u16, body: &str) -> Reply {
    Reply::Received { status, body: body.to_string() }
}

fn finished(step: Step) -> Result<WeatherData, ProviderUsingError> {
    match step {
        Step::Finished(r) => r,
        Step::Send(x) => panic!("unexpected request to {}", x.url),
    }
}

fn number(text: &str, unsigned: Option<u64>) -> Option<JsonLeaf> {
    Some(JsonLeaf::Number { unsigned, text: text.to_string() })
}

#[test]
fn factory_recognizes_identifiers_in_any_case() {
    for name in ["openweather", "OpenWeather", "OPENWEATHER", "oPeNwEaThEr"] {
        let p = Provider::try_from((name.to_string(), "key".to_string()));
        assert!(matches!(p, Ok(Provider::OpenWeather { ref api_key }) if api_key == "key"));
    }
    for name in ["weatherapi", "WeatherApi", "WEATHERAPI"] {
        let p = Provider::try_from((name.to_string(), "key".to_string()));
        assert!(matches!(p, Ok(Provider::WeatherApi { ref api_key }) if api_key == "key"));
    }
}

#[test]
fn factory_rejects_unknown_identifiers() {
    for name in ["bogus", "", "open weather", "weatherapi2", "openweathermap"] {
        let p = Provider::try_from((name.to_string(), "key".to_string()));
        assert!(matches!(p, Err(ProviderCreationError::NotImplemented)));
    }
}

#[test]
fn from_lowered_matches_exact_names_only() {
    assert!(matches!(
        Provider::from_lowered("weatherapi", "k".to_string()),
        Ok(Provider::WeatherApi { .. })
    ));
    assert!(matches!(
        Provider::from_lowered("WeatherApi", "k".to_string()),
        Err(ProviderCreationError::NotImplemented)
    ));
}

#[test]
fn bogus_provider_sends_nothing() {
    let r = retrieve("bogus".to_string(), "key".to_string(), "London");
    assert!(matches!(r, Err(ProviderCreationError::NotImplemented)));
}

#[test]
fn record_renders_four_lines() {
    let d = WeatherData::new(21.5f64.to_string(), 10.0f64.to_string(), 60, 20).unwrap();
    assert_eq!(
        d.to_string(),
        "temperature: 21.5\nwind in kph: 10\nhumidity: 60%\ncloud cover: 20%\n"
    );
}

#[test]
fn record_renders_edge_percentages() {
    let d = WeatherData::new("-3".to_string(), "0".to_string(), 100, 0).unwrap();
    assert_eq!(
        d.to_string(),
        "temperature: -3\nwind in kph: 0\nhumidity: 100%\ncloud cover: 0%\n"
    );
    assert_eq!(d.temp_c(), "-3");
    assert_eq!(d.wind_kph(), "0");
    assert_eq!(d.humidity_percent(), 100);
    assert_eq!(d.clouds_percent(), 0);
}

#[test]
fn record_rejects_percentages_over_hundred() {
    assert!(WeatherData::new("1".to_string(), "2".to_string(), 101, 0).is_none());
    assert!(WeatherData::new("1".to_string(), "2".to_string(), 0, 255).is_none());
}

#[test]
fn weatherapi_london_scenario() {
    let p = Provider::try_from(("WeatherApi".to_string(), "KEY".to_string())).unwrap();
    let x = p.get("London");
    assert_eq!(x.url, "http://api.weatherapi.com/v1/current.json?key=KEY&q=London&aqi=no");
    assert!(matches!(x.next, Retrieval::WeatherApiConditions));
    let body = r#"{"current":{"temp_c":15.0,"wind_kph":12.0,"humidity":80,"cloud":90}}"#;
    let d = finished(x.next.receive(received(200, body))).unwrap();
    assert_eq!(d.temp_c().parse::<f64>().unwrap(), 15.0);
    assert_eq!(d.wind_kph().parse::<f64>().unwrap(), 12.0);
    assert_eq!(d.humidity_percent(), 80);
    assert_eq!(d.clouds_percent(), 90);
    assert_eq!(d.temp_c(), "15.0");
}

#[test]
fn integer_readings_are_accepted() {
    let body = r#"{"current":{"temp_c":-4,"wind_kph":0,"humidity":0,"cloud":100}}"#;
    let d = finished(Retrieval::WeatherApiConditions.receive(received(200, body))).unwrap();
    assert_eq!(d.temp_c(), "-4");
    assert_eq!(d.wind_kph(), "0");
    assert_eq!(d.humidity_percent(), 0);
    assert_eq!(d.clouds_percent(), 100);
}

#[test]
fn failure_status_carries_message() {
    let body = r#"{"message":"Invalid API key","current":{"temp_c":1.0,"wind_kph":2.0,"humidity":3,"cloud":4}}"#;
    for w in [Retrieval::WeatherApiConditions, Retrieval::OpenWeatherConditions] {
        match finished(w.receive(received(401, body))) {
            Err(ProviderUsingError::BadResponse(m)) => assert_eq!(m, "Invalid API key"),
            _ => panic!("expected BadResponse"),
        }
    }
    let g = Retrieval::OpenWeatherGeocode { api_key: "k".to_string() };
    match finished(g.receive(received(500, r#"{"message":"down"}"#))) {
        Err(ProviderUsingError::BadResponse(m)) => assert_eq!(m, "down"),
        _ => panic!("expected BadResponse"),
    }
}

#[test]
fn failure_status_without_string_message() {
    for body in ["not json", r#"{"message":42}"#, r#"{"error":{"message":"x"}}"#] {
        match finished(Retrieval::WeatherApiConditions.receive(received(404, body))) {
            Err(ProviderUsingError::BadResponse(m)) => assert_eq!(m, ""),
            _ => panic!("expected BadResponse"),
        }
    }
}

#[test]
fn status_bounds_of_success() {
    let body = r#"{"current":{"temp_c":1.5,"wind_kph":2.5,"humidity":3,"cloud":4}}"#;
    assert!(finished(Retrieval::WeatherApiConditions.receive(received(299, body))).is_ok());
    assert!(matches!(
        finished(Retrieval::WeatherApiConditions.receive(received(199, body))),
        Err(ProviderUsingError::BadResponse(_))
    ));
    assert!(matches!(
        finished(Retrieval::WeatherApiConditions.receive(received(300, body))),
        Err(ProviderUsingError::BadResponse(_))
    ));
}

#[test]
fn missing_field_is_malformed() {
    let bodies = [
        r#"{"current":{"wind_kph":2.0,"humidity":3,"cloud":4}}"#,
        r#"{"current":{"temp_c":1.0,"humidity":3,"cloud":4}}"#,
        r#"{"current":{"temp_c":1.0,"wind_kph":2.0,"cloud":4}}"#,
        r#"{"current":{"temp_c":1.0,"wind_kph":2.0,"humidity":3}}"#,
        r#"{}"#,
        "not json",
    ];
    for body in bodies {
        assert!(matches!(
            finished(Retrieval::WeatherApiConditions.receive(received(200, body))),
            Err(ProviderUsingError::MalformedData(_))
        ));
    }
}

#[test]
fn wrongly_typed_field_is_malformed() {
    let bodies = [
        r#"{"current":{"temp_c":"hot","wind_kph":2.0,"humidity":3,"cloud":4}}"#,
        r#"{"current":{"temp_c":1.0,"wind_kph":2.0,"humidity":3.5,"cloud":4}}"#,
        r#"{"current":{"temp_c":1.0,"wind_kph":2.0,"humidity":-3,"cloud":4}}"#,
        r#"{"current":{"temp_c":1.0,"wind_kph":2.0,"humidity":3,"cloud":101}}"#,
    ];
    for body in bodies {
        assert!(matches!(
            finished(Retrieval::WeatherApiConditions.receive(received(200, body))),
            Err(ProviderUsingError::MalformedData(_))
        ));
    }
}

#[test]
fn transport_failure_is_passed_on() {
    match finished(Retrieval::OpenWeatherConditions.receive(Reply::Failed("dns".to_string()))) {
        Err(ProviderUsingError::Get(e)) => assert_eq!(e, "dns"),
        _ => panic!("expected Get"),
    }
}

#[test]
fn openweather_two_calls() {
    let p = Provider::try_from(("openweather".to_string(), "KEY".to_string())).unwrap();
    let x = p.get("London");
    assert_eq!(x.url, "http://api.openweathermap.org/geo/1.0/direct?q=London&limit=1&appid=KEY");
    let geo = r#"[{"name":"London","lat":51.5073219,"lon":-0.1276474,"country":"GB"}]"#;
    let second: Exchange = match x.next.receive(received(200, geo)) {
        Step::Send(e) => e,
        Step::Finished(_) => panic!("expected a second request"),
    };
    assert_eq!(
        second.url,
        "https://api.openweathermap.org/data/2.5/onecall?lat=51.5073219&lon=-0.1276474&units=metric&exclude=hourly,daily&appid=KEY"
    );
    let body = r#"{"current":{"temp":7.25,"wind_speed":3.6,"humidity":71,"clouds":40}}"#;
    let d = finished(second.next.receive(received(200, body))).unwrap();
    assert_eq!(d.temp_c(), "7.25");
    assert_eq!(d.wind_kph(), "3.6");
    assert_eq!(d.humidity_percent(), 71);
    assert_eq!(d.clouds_percent(), 40);
}

#[test]
fn empty_geocode_result_stops() {
    let g = Retrieval::OpenWeatherGeocode { api_key: "k".to_string() };
    assert!(matches!(
        finished(g.receive(received(200, "[]"))),
        Err(ProviderUsingError::MalformedData(_))
    ));
}

#[test]
fn geocode_without_coordinates_stops() {
    let g = Retrieval::OpenWeatherGeocode { api_key: "k".to_string() };
    assert!(matches!(
        finished(g.receive(received(200, r#"[{"lat":"north","lon":1}]"#))),
        Err(ProviderUsingError::MalformedData(_))
    ));
}

#[test]
fn decode_conditions_from_leaves() {
    let d = decode_conditions(
        number("15.0", None),
        number("12", Some(12)),
        number("80", Some(80)),
        number("90", Some(90)),
    )
    .unwrap();
    assert_eq!(d.temp_c(), "15.0");
    assert_eq!(d.wind_kph(), "12");
    assert_eq!(d.humidity_percent(), 80);
    assert_eq!(d.clouds_percent(), 90);
    let bad = decode_conditions(
        Some(JsonLeaf::Text("15".to_string())),
        number("12", Some(12)),
        number("80", Some(80)),
        number("90", Some(90)),
    );
    assert!(matches!(bad, Err(ProviderUsingError::MalformedData(_))));
    let none = decode_conditions(number("1", Some(1)), None, number("80", Some(80)), Some(JsonLeaf::Other));
    assert!(matches!(none, Err(ProviderUsingError::MalformedData(_))));
}

#[test]
fn decode_place_from_leaves() {
    let (a, b) = decode_place(number("51.5", None), number("-0.12", None)).unwrap();
    assert_eq!(a, "51.5");
    assert_eq!(b, "-0.12");
    assert!(matches!(
        decode_place(None, number("1", Some(1))),
        Err(ProviderUsingError::MalformedData(_))
    ));
}
