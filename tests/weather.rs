use ffxivfishing::eorzea_time::EorzeaTime;
use ffxivfishing::weather::{
    eorzea_weather_score, unix_weather_score, Weather, WeatherForecast,
};

fn clouds_then_sun() -> WeatherForecast {
    WeatherForecast::new(
        "".to_string(),
        vec![(50, Weather::Clouds), (100, Weather::Sunny)],
    )
}

#[test]
fn weather_eorzea_time_conversion() {
    let result = eorzea_weather_score(EorzeaTime::new(1, 1, 1, 0, 0, 0).unwrap(), 100);
    assert_eq!(result, 56);
    let result2 = eorzea_weather_score(EorzeaTime::new(1, 1, 24, 19, 25, 43).unwrap(), 100);
    assert_eq!(result2, 76);

    let result3 = eorzea_weather_score(EorzeaTime::new(2, 1, 1, 0, 0, 0).unwrap(), 100);
    assert_eq!(result3, 78);
}

#[test]
fn lib_eorzea_time_conversion() {
    assert_eq!(unix_weather_score(0, 100), 56);
    assert_eq!(unix_weather_score(100_000, 100), 76);
    assert_eq!(unix_weather_score(1_741_463_853, 100), 94);
}

#[test]
fn weather_pattern_search() {
    let forecast = clouds_then_sun();
    let weather_vec = vec![Weather::Sunny];
    let result = forecast.find_pattern(
        EorzeaTime::new(1, 1, 1, 0, 0, 0).unwrap(),
        &weather_vec,
        &weather_vec,
        1000,
    );
    assert_eq!(result, Some(EorzeaTime::new(1, 1, 4, 0, 0, 0).unwrap()));

    let weather_vec2 = vec![Weather::Clouds];
    let result2 = forecast.find_pattern(
        EorzeaTime::new(1, 1, 1, 1, 1, 1).unwrap(),
        &weather_vec2,
        &weather_vec2,
        1000,
    );
    assert_eq!(result2, Some(EorzeaTime::new(1, 1, 1, 16, 0, 0).unwrap()));
}

#[test]
fn weather_at_real() {
    let forecast = WeatherForecast::new(
        "".to_string(),
        vec![
            (20, Weather::Clouds),
            (50, Weather::ClearSkies),
            (80, Weather::FairSkies),
            (90, Weather::Fog),
            (100, Weather::Wind),
        ],
    );
    assert_eq!(
        forecast.weather_at(EorzeaTime::from_esecs(100_000)),
        Weather::FairSkies
    );
    assert_eq!(
        forecast.weather_at(EorzeaTime::from_esecs(110_000)),
        Weather::FairSkies
    );
    assert_eq!(
        forecast.weather_at(EorzeaTime::from_esecs(120_000)),
        Weather::ClearSkies
    );
}

#[test]
fn weather_at_empyrium() {
    let forecast = WeatherForecast::new(
        "".to_string(),
        vec![
            (5, Weather::Clouds), // Weathers not acurate, only scores are relevant
            (25, Weather::ClearSkies),
            (65, Weather::FairSkies),
            (80, Weather::Fog),
            (90, Weather::Wind),
        ],
    );
    assert_eq!(
        forecast.weather_at(EorzeaTime::from_esecs(100_000)),
        Weather::ClearSkies
    );
    assert_eq!(
        forecast.weather_at(EorzeaTime::from_esecs(110_000)),
        Weather::ClearSkies
    );
    assert_eq!(
        forecast.weather_at(EorzeaTime::from_esecs(120_000)),
        Weather::FairSkies
    );
}

#[test]
fn weather_pattern_search_not_found() {
    let forecast = clouds_then_sun();
    let weather_vec = vec![Weather::Unknown];

    let result = forecast.find_pattern(
        EorzeaTime::from_esecs(10_000),
        &weather_vec,
        &weather_vec,
        1000,
    );
    assert_eq!(result, None);
}

#[test]
fn weather_pattern_search_n() {
    let forecast = clouds_then_sun();
    let weather_vec = vec![Weather::Sunny];
    let result = forecast.find_next_n_patterns(
        3,
        EorzeaTime::from_esecs(10_000),
        &weather_vec,
        &weather_vec,
        1000,
    );
    assert_eq!(result.len(), 3);
    assert_eq!(
        result,
        [259_200, 576_000, 662_400]
            .iter()
            .map(|sec| EorzeaTime::from_esecs(*sec))
            .collect::<Vec<EorzeaTime>>()
    );
}

#[test]
fn pattern_search_from_ten_thousand() {
    let forecast = clouds_then_sun();
    let sunny = vec![Weather::Sunny];
    let result = forecast.find_pattern(EorzeaTime::from_esecs(10_000), &sunny, &sunny, 1_000_000);
    assert_eq!(result, Some(EorzeaTime::from_esecs(259_200)));
}

#[test]
fn score_boundaries_of_two_rates() {
    let forecast = clouds_then_sun();
    assert_eq!(forecast.weather_for_score(0), Weather::Clouds);
    assert_eq!(forecast.weather_for_score(49), Weather::Clouds);
    assert_eq!(forecast.weather_for_score(50), Weather::Sunny);
    assert_eq!(forecast.weather_for_score(99), Weather::Sunny);
    assert_eq!(forecast.weather_for_score(100), Weather::Unknown);
    assert_eq!(forecast.weather_for_score(101), Weather::Unknown);
}

#[test]
fn rates_are_sorted_stably() {
    let forecast = WeatherForecast::new(
        "".to_string(),
        vec![(100, Weather::Sunny), (50, Weather::Clouds), (50, Weather::Fog)],
    );
    assert_eq!(forecast.weather_for_score(10), Weather::Clouds);
    assert_eq!(forecast.weather_for_score(60), Weather::Sunny);
}

#[test]
fn empty_and_zero_tables_give_unknown() {
    let empty = WeatherForecast::new("".to_string(), vec![]);
    assert_eq!(empty.weather_at(EorzeaTime::from_esecs(0)), Weather::Unknown);
    let zero = WeatherForecast::new("".to_string(), vec![(0, Weather::Id(3))]);
    assert_eq!(zero.weather_at(EorzeaTime::from_esecs(0)), Weather::Unknown);
}

#[test]
fn pattern_search_budget_exhausted() {
    let forecast = clouds_then_sun();
    let sunny = vec![Weather::Sunny];
    assert_eq!(
        forecast.find_pattern(EorzeaTime::from_esecs(10_000), &sunny, &sunny, 8),
        None
    );
    assert_eq!(
        forecast.find_pattern(EorzeaTime::from_esecs(10_000), &sunny, &sunny, 9),
        Some(EorzeaTime::from_esecs(259_200))
    );
    assert_eq!(
        forecast.find_next_n_patterns(0, EorzeaTime::from_esecs(10_000), &sunny, &sunny, 1000),
        vec![]
    );
}

#[test]
fn lib_pattern_search_not_found() {
    let forecast = WeatherForecast::new(
        "".to_string(),
        vec![(50, Weather::Clouds), (100, Weather::Sunny)],
    );
    let weather_vec = vec![Weather::Unknown];

    let result = forecast.find_pattern(
        EorzeaTime::from_time(10_000).unwrap(),
        &weather_vec,
        &weather_vec,
        1000,
    );
    assert_eq!(result, None);
}
