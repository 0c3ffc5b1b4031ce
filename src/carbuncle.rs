//! Building the catalog from the records of the static data table.
//!
//! Each record refers to others by id: a fishing spot names the territory
//! whose weather it has, a fish names its fishing spot and its item. A record
//! whose reference cannot be resolved is left out of the catalog.

use crate::eorzea_time::EorzeaDuration;
use crate::fish::{
    Bait, Fish, FishData, FishingHole, FishingItem, Hookset, Intuition, Lure, Region, Tug,
    hookset_named, lower_of, tug_named,
};
use crate::text::{decimal, decimal_string};
use crate::weather::{Weather, WeatherForecast, sorted_rates};
use std::rc::Rc;
use vstd::prelude::*;

verus! {

/// One step of a recorded catch path: one item, or a choice among items.
pub enum CatchStep {
    One(u32),
    Many(Vec<u32>),
}

/// A fish as the data table records it.
pub struct CarbuncleFish {
    pub id: u32,
    pub previous_weather_set: Vec<u32>,
    pub weather_set: Vec<u32>,
    pub best_catch_path: Vec<CatchStep>,
    /// Start of the daily window, in game seconds after midnight.
    pub start_esecs: u64,
    /// End of the daily window, in game seconds after midnight.
    pub end_esecs: u64,
    pub location: Option<u32>,
    pub intuition_length: Option<u32>,
    /// (fish id, count) pairs.
    pub predators: Vec<(u32, u32)>,
    pub tug: Option<String>,
    pub hookset: Option<String>,
    pub lure: Option<String>,
    pub fish_eyes: bool,
    pub snagging: Option<bool>,
    pub patch: (u8, u8),
}

/// A fishing spot as the data table records it.
pub struct CarbuncleFishingSpot {
    pub id: u32,
    pub name: String,
    pub territory_id: u32,
}

/// An item as the data table records it.
pub struct CarbuncleItem {
    pub id: u32,
    pub name: String,
}

/// The weather rates of a territory: (weather id, cumulative rate) pairs.
pub struct CarbuncleWeatherRates {
    pub map_id: u32,
    pub weather_rates: Vec<(u32, u8)>,
}

/// The whole table; weather rates are keyed by territory id.
pub struct CarbuncleData {
    pub fishes: Vec<CarbuncleFish>,
    pub weather_rates: Vec<(String, CarbuncleWeatherRates)>,
    pub fishing_spots: Vec<CarbuncleFishingSpot>,
    pub items: Vec<CarbuncleItem>,
}

/// The bait of a catch path: its last step, or the last choice of it.
pub open spec fn bait_of(path: Seq<CatchStep>) -> Bait {
    if path.len() == 0 {
        Bait::Unknown
    } else {
        match path.last() {
            CatchStep::One(o) => Bait::Bait(o),
            CatchStep::Many(v) => if v@.len() == 0 {
                Bait::Unknown
            } else {
                Bait::Bait(v@.last())
            },
        }
    }
}

pub open spec fn weathers_of(ids: Seq<u32>) -> Seq<Weather> {
    ids.map_values(|id: u32| Weather::Id(id))
}

/// The rates of a record as (threshold, weather) pairs.
pub open spec fn rates_of(rates: Seq<(u32, u8)>) -> Seq<(u8, Weather)> {
    rates.map_values(|p: (u32, u8)| (p.1, Weather::Id(p.0)))
}

/// The requirements of an intuition: (count, fish id) pairs, the count cut
/// to eight bits.
pub open spec fn requirements_of(predators: Seq<(u32, u32)>) -> Seq<(u8, u32)> {
    predators.map_values(|p: (u32, u32)| (p.1 as u8, p.0))
}

pub open spec fn name_or_empty(s: Option<String>) -> Seq<char> {
    match s {
        Some(s) => s@,
        None => Seq::empty(),
    }
}

/// Whether `i` is the first index of a fishing hole named `name`.
pub open spec fn first_hole(holes: Seq<Rc<FishingHole>>, name: Seq<char>, i: int) -> bool {
    &&& 0 <= i < holes.len()
    &&& holes[i].name_view() == name
    &&& forall|j: int| 0 <= j < i ==> holes[j].name_view() != name
}

/// Whether `i` is the first index of a region named `name`.
pub open spec fn first_region(regions: Seq<Rc<Region>>, name: Seq<char>, i: int) -> bool {
    &&& 0 <= i < regions.len()
    &&& regions[i].name_view() == name
    &&& forall|j: int| 0 <= j < i ==> regions[j].name_view() != name
}

/// Whether `i` is the first index of an item with id `id`.
pub open spec fn first_item(items: Seq<CarbuncleItem>, id: u32, i: int) -> bool {
    &&& 0 <= i < items.len()
    &&& items[i].id == id
    &&& forall|j: int| 0 <= j < i ==> items[j].id != id
}

/// Whether `f` is the fish built from record `c`, in `hole`, named `name`.
pub open spec fn fish_from_record(f: Fish, c: CarbuncleFish, hole: Rc<FishingHole>, name: Seq<char>) -> bool {
    &&& f.wf()
    &&& f.id == c.id
    &&& f.name@ == name
    &&& f.location == hole
    &&& f.window_start@ == c.start_esecs % 86400
    &&& f.window_end@ == c.end_esecs % 86400
    &&& f.bait == bait_of(c.best_catch_path@)
    &&& f.previous_weather_set@ == weathers_of(c.previous_weather_set@)
    &&& f.weather_set@ == weathers_of(c.weather_set@)
    &&& f.tug == tug_named(lower_of(name_or_empty(c.tug)))
    &&& f.hookset == hookset_named(lower_of(name_or_empty(c.hookset)))
    &&& (f.intuition is Some <==> c.intuition_length is Some)
    &&& (f.intuition matches Some(i) ==> i.length_secs() == c.intuition_length->0 && i.needs()
        == requirements_of(c.predators@))
    &&& f.lure == Lure::Moderate
    &&& f.lure_proc == c.lure is Some
    &&& f.snagging == (c.snagging == Some(true))
    &&& !f.gig
    &&& !f.folklore
    &&& f.fish_eyes == c.fish_eyes
    &&& f.patch == c.patch
}

/// Whether some region is named after the spot's territory.
pub open spec fn spot_resolves(s: CarbuncleFishingSpot, regions: Seq<Rc<Region>>) -> bool {
    exists|i: int| 0 <= i < regions.len() && regions[i].name_view() == decimal(s.territory_id as nat)
}

/// Whether `h` is the hole built from spot `s`: named after the spot's id, in
/// the first region named after its territory.
pub open spec fn hole_from_spot(h: FishingHole, s: CarbuncleFishingSpot, regions: Seq<Rc<Region>>) -> bool {
    &&& h.name_view() == decimal(s.id as nat)
    &&& exists|i: int|
        first_region(regions, decimal(s.territory_id as nat), i) && h.region() == regions[i]
}

/// The name of the fishing hole that a fish record refers to (spot 0 where
/// it names none).
pub open spec fn location_name(c: CarbuncleFish) -> Seq<char> {
    decimal(
        match c.location {
            Some(l) => l,
            None => 0,
        } as nat,
    )
}

/// Whether the fish record's fishing hole and item both exist.
pub open spec fn fish_resolves(
    c: CarbuncleFish,
    holes: Seq<Rc<FishingHole>>,
    items: Seq<CarbuncleItem>,
) -> bool {
    &&& exists|i: int| 0 <= i < holes.len() && holes[i].name_view() == location_name(c)
    &&& exists|j: int| 0 <= j < items.len() && items[j].id == c.id
}

/// Whether `f` is the fish built from record `c`: in the first hole named
/// after its location, with the name of the first item of its id.
pub open spec fn fish_from(
    f: Fish,
    c: CarbuncleFish,
    holes: Seq<Rc<FishingHole>>,
    items: Seq<CarbuncleItem>,
) -> bool {
    exists|i: int, j: int|
        first_hole(holes, location_name(c), i) && first_item(items, c.id, j) && fish_from_record(
            f,
            c,
            holes[i],
            items[j].name@,
        )
}

/// Whether `it` is the catalog item of record `c`: a fish where some fish
/// has its id, else a bait.
pub open spec fn item_from(it: FishingItem, c: CarbuncleItem, fishes: Seq<Fish>) -> bool {
    if exists|i: int| 0 <= i < fishes.len() && fishes[i].id == c.id {
        it == FishingItem::Fish(c.name, c.id)
    } else {
        it == FishingItem::Bait(c.name, c.id)
    }
}

fn weathers(ids: &Vec<u32>) -> (r: Vec<Weather>)
    ensures
        r@ == weathers_of(ids@),
{
    let mut r: Vec<Weather> = Vec::new();
    let mut i: usize = 0;
    while i < ids.len()
        invariant
            i <= ids@.len(),
            r@ == weathers_of(ids@.take(i as int)),
        decreases ids@.len() - i,
    {
        r.push(Weather::Id(ids[i]));
        i += 1;
        assert(weathers_of(ids@.take(i as int)) =~= weathers_of(ids@.take(i - 1)).push(
            Weather::Id(ids@[i - 1]),
        ));
    }
    assert(ids@.take(i as int) =~= ids@);
    r
}

fn text_or_empty(s: &Option<String>) -> (r: String)
    ensures
        r@ == name_or_empty(*s),
{
    match s {
        Some(s) => s.clone(),
        None => String::new(),
    }
}

/// The forecast of a territory, named after its map id.
pub fn forecast_of(cwr: &CarbuncleWeatherRates) -> (r: WeatherForecast)
    ensures
        r.rates() == sorted_rates(rates_of(cwr.weather_rates@)),
        r.region_name() == decimal(cwr.map_id as nat),
{
    let mut rates: Vec<(u8, Weather)> = Vec::new();
    let mut i: usize = 0;
    while i < cwr.weather_rates.len()
        invariant
            i <= cwr.weather_rates@.len(),
            rates@ == rates_of(cwr.weather_rates@.take(i as int)),
        decreases cwr.weather_rates@.len() - i,
    {
        let (weather_id, rate) = cwr.weather_rates[i];
        rates.push((rate, Weather::Id(weather_id)));
        i += 1;
        assert(rates_of(cwr.weather_rates@.take(i as int)) =~= rates_of(
            cwr.weather_rates@.take(i - 1),
        ).push((rate, Weather::Id(weather_id))));
    }
    assert(cwr.weather_rates@.take(i as int) =~= cwr.weather_rates@);
    WeatherForecast::new(decimal_string(cwr.map_id as u64), rates)
}

impl CarbuncleItem {
    /// The item as a fish where some fish has its id, else as a bait.
    pub fn to_fishing_item(&self, fishes: &[Fish]) -> (r: FishingItem)
        ensures
            (exists|i: int| 0 <= i < fishes@.len() && fishes@[i].id == self.id) ==> r
                == FishingItem::Fish(self.name, self.id),
            (forall|i: int| 0 <= i < fishes@.len() ==> fishes@[i].id != self.id) ==> r
                == FishingItem::Bait(self.name, self.id),
    {
        let mut i: usize = 0;
        while i < fishes.len()
            invariant
                i <= fishes@.len(),
                forall|j: int| 0 <= j < i ==> fishes@[j].id != self.id,
            decreases fishes@.len() - i,
        {
            if fishes[i].id == self.id {
                return FishingItem::Fish(self.name.clone(), fishes[i].id);
            }
            i += 1;
        }
        FishingItem::Bait(self.name.clone(), self.id)
    }
}

impl CarbuncleFishingSpot {
    /// The fishing hole of this spot, named after its id, in the first
    /// region named after its territory; `None` where there is none.
    pub fn to_fishinghole(&self, regions: &[Rc<Region>]) -> (r: Option<FishingHole>)
        ensures
            r is None <==> !spot_resolves(*self, regions@),
            r matches Some(h) ==> hole_from_spot(h, *self, regions@),
    {
        let wanted = decimal_string(self.territory_id as u64);
        let mut i: usize = 0;
        while i < regions.len()
            invariant
                i <= regions@.len(),
                wanted@ == decimal(self.territory_id as nat),
                forall|j: int| 0 <= j < i ==> regions@[j].name_view() != wanted@,
            decreases regions@.len() - i,
        {
            if regions[i].name().to_owned() == wanted {
                return Some(FishingHole::new(decimal_string(self.id as u64), regions[i].clone()));
            }
            i += 1;
        }
        None
    }
}

/// The index of the first hole named `name`.
fn find_hole(holes: &[Rc<FishingHole>], name: &String) -> (r: Option<usize>)
    ensures
        r is None <==> forall|i: int| 0 <= i < holes@.len() ==> holes@[i].name_view() != name@,
        r matches Some(i) ==> first_hole(holes@, name@, i as int),
{
    let mut i: usize = 0;
    while i < holes.len()
        invariant
            i <= holes@.len(),
            forall|j: int| 0 <= j < i ==> holes@[j].name_view() != name@,
        decreases holes@.len() - i,
    {
        if holes[i].name().to_owned() == *name {
            return Some(i);
        }
        i += 1;
    }
    None
}

/// The index of the first item with id `id`.
fn find_item(items: &[CarbuncleItem], id: u32) -> (r: Option<usize>)
    ensures
        r is None <==> forall|i: int| 0 <= i < items@.len() ==> items@[i].id != id,
        r matches Some(i) ==> first_item(items@, id, i as int),
{
    let mut i: usize = 0;
    while i < items.len()
        invariant
            i <= items@.len(),
            forall|j: int| 0 <= j < i ==> items@[j].id != id,
        decreases items@.len() - i,
    {
        if items[i].id == id {
            return Some(i);
        }
        i += 1;
    }
    None
}

impl CarbuncleFish {
    /// The intuition of the record, where it has a length.
    pub fn try_get_intuition(&self) -> (r: Option<Intuition>)
        ensures
            r is Some <==> self.intuition_length is Some,
            r matches Some(i) ==> i.length_secs() == self.intuition_length->0 && i.needs()
                == requirements_of(self.predators@),
    {
        match self.intuition_length {
            Some(length) => {
                let mut requirements: Vec<(u8, u32)> = Vec::new();
                let mut i: usize = 0;
                while i < self.predators.len()
                    invariant
                        i <= self.predators@.len(),
                        requirements@ == requirements_of(self.predators@.take(i as int)),
                    decreases self.predators@.len() - i,
                {
                    let (id, count) = self.predators[i];
                    requirements.push((count as u8, id));
                    i += 1;
                    assert(requirements_of(self.predators@.take(i as int)) =~= requirements_of(
                        self.predators@.take(i - 1),
                    ).push((count as u8, id)));
                }
                assert(self.predators@.take(i as int) =~= self.predators@);
                Some(Intuition::new(length as u64, requirements))
            },
            None => None,
        }
    }

    fn bait(&self) -> (r: Bait)
        ensures
            r == bait_of(self.best_catch_path@),
    {
        let n = self.best_catch_path.len();
        if n == 0 {
            return Bait::Unknown;
        }
        match &self.best_catch_path[n - 1] {
            CatchStep::One(o) => Bait::Bait(*o),
            CatchStep::Many(v) => if v.len() == 0 {
                Bait::Unknown
            } else {
                Bait::Bait(v[v.len() - 1])
            },
        }
    }

    /// The fish of this record, in the first hole named after its location
    /// and named after the first item of its id; `None` where either is
    /// missing.
    pub fn to_fish(&self, fishing_holes: &[Rc<FishingHole>], items: &[CarbuncleItem]) -> (r: Option<Fish>)
        ensures
            r is Some <==> fish_resolves(*self, fishing_holes@, items@),
            r matches Some(f) ==> fish_from(f, *self, fishing_holes@, items@),
    {
        let location = match self.location {
            Some(l) => l,
            None => 0,
        };
        let wanted = decimal_string(location as u64);
        let hole = match find_hole(fishing_holes, &wanted) {
            Some(i) => i,
            None => {
                return None;
            },
        };
        let item = match find_item(items, self.id) {
            Some(j) => j,
            None => {
                return None;
            },
        };
        let tug_name = text_or_empty(&self.tug);
        let hookset_name = text_or_empty(&self.hookset);
        let fish = Fish::new(
            self.id,
            items[item].name.clone(),
            fishing_holes[hole].clone(),
            EorzeaDuration::from_esecs(self.start_esecs),
            EorzeaDuration::from_esecs(self.end_esecs),
            self.bait(),
            weathers(&self.previous_weather_set),
            weathers(&self.weather_set),
            Tug::from_name(tug_name.as_str()),
            Hookset::from_name(hookset_name.as_str()),
            self.try_get_intuition(),
            Lure::Moderate,
            self.lure.is_some(),
            match self.snagging {
                Some(b) => b,
                None => false,
            },
            false,
            false,
            self.fish_eyes,
            self.patch,
        );
        assert(fish_from_record(fish, *self, fishing_holes@[hole as int], items@[item as int].name@));
        Some(fish)
    }
}

impl CarbuncleData {
    /// The catalog of the table: a region for each territory with weather
    /// rates, a fishing hole for each spot whose territory has a region, a
    /// fish for each record whose hole and item exist, and every item.
    pub fn convert_to_fishdata(&self) -> (r: FishData)
        ensures
            r.region_list().len() == self.weather_rates@.len(),
            forall|k: int|
                0 <= k < self.weather_rates@.len() ==> r.region_list()[k].name_view()
                    == self.weather_rates@[k].0@ && r.region_list()[k].rates() == sorted_rates(
                    rates_of(self.weather_rates@[k].1.weather_rates@),
                ),
            ({
                let spots = self.fishing_spots@.filter(
                    |s: CarbuncleFishingSpot| spot_resolves(s, r.region_list()),
                );
                &&& r.hole_list().len() == spots.len()
                &&& forall|k: int|
                    0 <= k < spots.len() ==> hole_from_spot(
                        *r.hole_list()[k],
                        spots[k],
                        r.region_list(),
                    )
            }),
            ({
                let records = self.fishes@.filter(
                    |c: CarbuncleFish| fish_resolves(c, r.hole_list(), self.items@),
                );
                &&& r.fish_list().len() == records.len()
                &&& forall|k: int|
                    0 <= k < records.len() ==> fish_from(
                        r.fish_list()[k],
                        records[k],
                        r.hole_list(),
                        self.items@,
                    )
            }),
            r.item_list().len() == self.items@.len(),
            forall|k: int|
                0 <= k < self.items@.len() ==> item_from(
                    r.item_list()[k],
                    self.items@[k],
                    r.fish_list(),
                ),
    {
        let mut regions: Vec<Rc<Region>> = Vec::new();
        let mut i: usize = 0;
        while i < self.weather_rates.len()
            invariant
                i <= self.weather_rates@.len(),
                regions@.len() == i,
                forall|k: int|
                    0 <= k < i ==> regions@[k].name_view() == self.weather_rates@[k].0@
                        && regions@[k].rates() == sorted_rates(
                        rates_of(self.weather_rates@[k].1.weather_rates@),
                    ),
            decreases self.weather_rates@.len() - i,
        {
            let forecast = forecast_of(&self.weather_rates[i].1);
            regions.push(Rc::new(Region::new(self.weather_rates[i].0.clone(), forecast)));
            i += 1;
        }
        let ghost region_seq = regions@;
        let ghost spot_ok = |s: CarbuncleFishingSpot| spot_resolves(s, region_seq);
        let mut holes: Vec<Rc<FishingHole>> = Vec::new();
        let mut i: usize = 0;
        while i < self.fishing_spots.len()
            invariant
                i <= self.fishing_spots@.len(),
                region_seq == regions@,
                spot_ok == (|s: CarbuncleFishingSpot| spot_resolves(s, region_seq)),
                holes@.len() == self.fishing_spots@.take(i as int).filter(spot_ok).len(),
                forall|k: int|
                    0 <= k < holes@.len() ==> hole_from_spot(
                        *holes@[k],
                        self.fishing_spots@.take(i as int).filter(spot_ok)[k],
                        region_seq,
                    ),
            decreases self.fishing_spots@.len() - i,
        {
            let found = self.fishing_spots[i].to_fishinghole(regions.as_slice());
            proof {
                assert(self.fishing_spots@.take(i + 1).drop_last() =~= self.fishing_spots@.take(
                    i as int,
                ));
                reveal(Seq::filter);
            }
            if let Some(hole) = found {
                holes.push(Rc::new(hole));
            }
            i += 1;
        }
        assert(self.fishing_spots@.take(i as int) =~= self.fishing_spots@);
        let ghost hole_seq = holes@;
        let ghost fish_ok = |c: CarbuncleFish| fish_resolves(c, hole_seq, self.items@);
        let mut fishes: Vec<Fish> = Vec::new();
        let mut i: usize = 0;
        while i < self.fishes.len()
            invariant
                i <= self.fishes@.len(),
                hole_seq == holes@,
                fish_ok == (|c: CarbuncleFish| fish_resolves(c, hole_seq, self.items@)),
                fishes@.len() == self.fishes@.take(i as int).filter(fish_ok).len(),
                forall|k: int|
                    0 <= k < fishes@.len() ==> fish_from(
                        fishes@[k],
                        self.fishes@.take(i as int).filter(fish_ok)[k],
                        hole_seq,
                        self.items@,
                    ),
            decreases self.fishes@.len() - i,
        {
            let found = self.fishes[i].to_fish(holes.as_slice(), self.items.as_slice());
            proof {
                assert(self.fishes@.take(i + 1).drop_last() =~= self.fishes@.take(i as int));
                reveal(Seq::filter);
            }
            if let Some(fish) = found {
                fishes.push(fish);
            }
            i += 1;
        }
        assert(self.fishes@.take(i as int) =~= self.fishes@);
        let mut fishing_items: Vec<FishingItem> = Vec::new();
        let mut i: usize = 0;
        while i < self.items.len()
            invariant
                i <= self.items@.len(),
                fishing_items@.len() == i,
                forall|k: int|
                    0 <= k < i ==> item_from(fishing_items@[k], self.items@[k], fishes@),
            decreases self.items@.len() - i,
        {
            let item = self.items[i].to_fishing_item(fishes.as_slice());
            fishing_items.push(item);
            i += 1;
        }
        FishData::new(fishes, holes, regions, fishing_items)
    }
}

} // verus!
