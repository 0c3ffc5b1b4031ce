use ffxivfishing::carbuncle::{
    CarbuncleData, CarbuncleFish, CarbuncleFishingSpot, CarbuncleItem, CarbuncleWeatherRates,
    CatchStep,
};
use ffxivfishing::eorzea_time::{EorzeaDuration, EorzeaTime};
use ffxivfishing::fish::{Bait, FishingItem, Hookset, Tug};
use ffxivfishing::weather::Weather;

fn record(id: u32, location: Option<u32>) -> CarbuncleFish {
    CarbuncleFish {
        id,
        previous_weather_set: vec![2],
        weather_set: vec![2, 3],
        best_catch_path: vec![CatchStep::One(29716), CatchStep::Many(vec![11, 12])],
        start_esecs: 3600,
        end_esecs: 86400 + 7200,
        location,
        intuition_length: Some(300),
        predators: vec![(77, 3)],
        tug: Some("Heavy".to_string()),
        hookset: Some("POWERFUL".to_string()),
        lure: None,
        fish_eyes: true,
        snagging: None,
        patch: (6, 0),
    }
}

fn table() -> CarbuncleData {
    CarbuncleData {
        fishes: vec![record(100, Some(10)), record(101, Some(99)), record(102, Some(10)), record(103, None)],
        weather_rates: vec![(
            "134".to_string(),
            CarbuncleWeatherRates {
                map_id: 15,
                weather_rates: vec![(3, 100), (2, 40)],
            },
        )],
        fishing_spots: vec![
            CarbuncleFishingSpot { id: 10, name: "Lake".to_string(), territory_id: 134 },
            CarbuncleFishingSpot { id: 11, name: "Nowhere".to_string(), territory_id: 999 },
        ],
        items: vec![
            CarbuncleItem { id: 100, name: "Carp".to_string() },
            CarbuncleItem { id: 101, name: "Lost".to_string() },
            CarbuncleItem { id: 29716, name: "Worm".to_string() },
        ],
    }
}

#[test]
fn unresolved_records_are_dropped() {
    let data = table().convert_to_fishdata();
    // Fish 101 has no fishing hole, fish 102 has no item, 103 names spot 0.
    assert_eq!(data.fishes().len(), 1);
    let fish = data.fish_by_id(100).unwrap();
    assert_eq!(fish.name(), "Carp");
    assert_eq!(fish.location.name(), "10");
    assert!(data.fish_by_id(101).is_none());
}

#[test]
fn fish_fields_are_converted() {
    let data = table().convert_to_fishdata();
    let fish = data.fish_by_id(100).unwrap();
    assert_eq!(fish.bait, Bait::Bait(12));
    assert_eq!(fish.previous_weather_set, vec![Weather::Id(2)]);
    assert_eq!(fish.weather_set, vec![Weather::Id(2), Weather::Id(3)]);
    assert_eq!(fish.tug, Tug::Heavy);
    assert_eq!(fish.hookset, Hookset::Powerful);
    assert_eq!(*fish.start(), EorzeaDuration::from_esecs(3600));
    assert_eq!(fish.window_end, EorzeaDuration::from_esecs(7200));
    assert!(fish.intuition.is_some());
    assert!(!fish.lure_proc);
    assert!(fish.fish_eyes);
    assert_eq!(fish.patch, (6, 0));
}

#[test]
fn items_become_fish_or_bait() {
    let data = table().convert_to_fishdata();
    assert!(matches!(data.item_by_id(100), Some(FishingItem::Fish(_, 100))));
    assert!(matches!(data.item_by_id(101), Some(FishingItem::Bait(_, 101))));
    assert_eq!(data.item_by_id(29716).unwrap().name(), "Worm");
}

#[test]
fn converted_region_weather_is_sorted() {
    let data = table().convert_to_fishdata();
    let fish = data.fish_by_id(100).unwrap();
    // Rates (2, 40) then (3, 100): a score below 40 gives weather 2.
    let mut seen = vec![];
    for k in 0..20u64 {
        seen.push(fish.weather_now(EorzeaTime::from_esecs(k * 28_800)));
    }
    assert!(seen.iter().all(|w| *w == Weather::Id(2) || *w == Weather::Id(3)));
    assert!(seen.contains(&Weather::Id(2)));
    assert!(seen.contains(&Weather::Id(3)));
}

#[test]
fn spot_without_region_has_no_hole() {
    let data = table().convert_to_fishdata();
    let holes: Vec<_> = data.fishes().iter().map(|f| f.location.name().to_string()).collect();
    assert_eq!(holes, vec!["10".to_string()]);
    let spot = CarbuncleFishingSpot { id: 11, name: "Nowhere".to_string(), territory_id: 999 };
    assert!(spot.to_fishinghole(&[]).is_none());
}

#[test]
fn single_and_empty_catch_steps() {
    let mut r = record(100, Some(10));
    r.best_catch_path = vec![CatchStep::Many(vec![])];
    r.tug = None;
    r.intuition_length = None;
    let data = CarbuncleData {
        fishes: vec![r],
        ..table()
    }
    .convert_to_fishdata();
    let fish = data.fish_by_id(100).unwrap();
    assert_eq!(fish.bait, Bait::Unknown);
    assert_eq!(fish.tug, Tug::Unknown);
    assert!(fish.intuition.is_none());
}
