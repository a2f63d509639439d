use openweathermap::{forecast, Volume, Weather};

#[test]
fn weather_holds_its_fields() {
    let weather = Weather {
        id: 800,
        main: "Clear".to_string(),
        description: "clear sky".to_string(),
        icon: "01d".to_string(),
    };
    assert_eq!(weather.id, 800);
    assert_eq!(weather.main, "Clear");
    assert_eq!(weather.description, "clear sky");
    assert_eq!(weather.icon, "01d");
    assert_eq!(weather.clone(), weather);
}

#[test]
fn volume_holds_both_spans() {
    let volume = Volume { h1: 3, h3: 7 };
    assert_eq!(volume.h1, 3);
    assert_eq!(volume.h3, 7);
    assert_eq!(volume, Volume { h1: 3, h3: 7 });
    assert_ne!(volume, Volume { h1: 7, h3: 3 });
}

#[test]
fn forecast_weather_defaults_to_empty() {
    let weather = forecast::Weather::default();
    assert_eq!(weather.id, 0);
    assert_eq!(weather.main, "");
    assert_eq!(weather.description, "");
    assert_eq!(weather.icon, "");
}

#[test]
fn forecast_weather_holds_its_fields() {
    let weather = forecast::Weather {
        id: -1,
        main: "Rain".to_string(),
        description: "light rain".to_string(),
        icon: "10n".to_string(),
    };
    assert_eq!(weather.id, -1);
    assert_eq!(weather.clone(), weather);
    assert_ne!(weather, forecast::Weather::default());
}
