//! Fish, the fishing holes and regions they live in, and the search for a
//! fish's next catch window.

use crate::eorzea_time::{
    EorzeaDuration, EorzeaTime, EorzeaTimeSpan, SUN_IN_ESEC, WEATHER_PERIOD_IN_ESEC, overlap_of,
};
use crate::weather::{Weather, WeatherForecast, find_pattern_from, weather_of};
use std::rc::Rc;
use vstd::prelude::*;

verus! {

/// The daily window `(start, duration)` of a fish on the day of the game
/// instant `t`: from `ws` after the day's start to `we` after it, ending on
/// the next day where `we` is not after `ws`.
pub open spec fn day_window(ws: int, we: int, t: int) -> (int, int) {
    let day = t - t % (SUN_IN_ESEC as int);
    let start = day + ws;
    let end = if day + we <= start {
        day + we + SUN_IN_ESEC
    } else {
        day + we
    };
    (start, end - start)
}

/// Whether a window found by a search from `start` is reported: it lasts,
/// and it begins (or, for ongoing windows, ends) no earlier than `start`.
pub open spec fn window_accepted(w: (int, int), start: int, include_ongoing: bool) -> bool {
    &&& w.1 > 0
    &&& if include_ongoing {
        w.0 + w.1 >= start
    } else {
        w.0 >= start
    }
}

/// The window that a search from `start` reports, having reached the game
/// instant `t` with `limit` steps left: each step looks for the next weather
/// pattern from `t`, intersects its period with the daily window of the day
/// of `t`, and moves one weather period on where that is not reported.
pub open spec fn window_search(
    rates: Seq<(u8, Weather)>,
    ws: int,
    we: int,
    prev: Seq<Weather>,
    cur: Seq<Weather>,
    start: int,
    include_ongoing: bool,
    t: int,
    limit: int,
) -> Option<(int, int)>
    decreases limit,
{
    if limit <= 0 {
        None
    } else {
        match find_pattern_from(rates, t, prev, cur, limit) {
            None => None,
            Some(m) => {
                let o = overlap_of(day_window(ws, we, t), (m, 28800));
                if o is Some && window_accepted(o->0, start, include_ongoing) {
                    o
                } else {
                    window_search(
                        rates,
                        ws,
                        we,
                        prev,
                        cur,
                        start,
                        include_ongoing,
                        t + 28800,
                        limit - 1,
                    )
                }
            },
        }
    }
}

/// Every window that the search reports is accepted.
pub proof fn lemma_window_search_accepted(
    rates: Seq<(u8, Weather)>,
    ws: int,
    we: int,
    prev: Seq<Weather>,
    cur: Seq<Weather>,
    start: int,
    include_ongoing: bool,
    t: int,
    limit: int,
)
    ensures
        window_search(rates, ws, we, prev, cur, start, include_ongoing, t, limit) matches Some(w)
            ==> window_accepted(w, start, include_ongoing),
    decreases limit,
{
    if limit > 0 {
        lemma_window_search_accepted(
            rates,
            ws,
            we,
            prev,
            cur,
            start,
            include_ongoing,
            t + 28800,
            limit - 1,
        );
    }
}

/// A window that ends no later than it starts within the day runs past
/// midnight: it ends one full day after the end that ignores the wrap.
pub proof fn window_wraps_midnight(ws: int, we: int, t: int)
    requires
        0 <= we <= ws,
    ensures
        ({
            let day = t - t % (SUN_IN_ESEC as int);
            day_window(ws, we, t).0 + day_window(ws, we, t).1 == (day + we) + SUN_IN_ESEC
        }),
{
}

/// What `str::to_lowercase` makes of a text.
pub uninterp spec fn lower_of(s: Seq<char>) -> Seq<char>;

/// Relies on `str::to_lowercase`: the result depends on the characters alone.
#[verifier::external_body]
fn lowercase(s: &str) -> (r: String)
    ensures
        r@ == lower_of(s@),
{
    s.to_lowercase()
}

/// The tug named by a lowercase name.
pub open spec fn tug_named(name: Seq<char>) -> Tug {
    if name == "light"@ {
        Tug::Light
    } else if name == "medium"@ {
        Tug::Medium
    } else if name == "heavy"@ {
        Tug::Heavy
    } else {
        Tug::Unknown
    }
}

/// The hookset named by a lowercase name.
pub open spec fn hookset_named(name: Seq<char>) -> Hookset {
    if name == "precision"@ {
        Hookset::Precision
    } else if name == "powerful"@ {
        Hookset::Powerful
    } else {
        Hookset::Unknown
    }
}

/// A region and its weather.
#[derive(Debug)]
pub struct Region {
    name: String,
    weather: WeatherForecast,
}

/// A fishing hole, within a region.
#[derive(Debug)]
pub struct FishingHole {
    name: String,
    region: Rc<Region>,
}

/// The strength of the bite.
#[derive(Debug, Clone, Copy, PartialEq, Eq, Structural)]
pub enum Tug {
    Light,
    Medium,
    Heavy,
    Unknown,
}

impl Tug {
    /// The tug of a lowercase name: "light", "medium" or "heavy"; any other
    /// gives `Unknown`.
    pub fn from_lowercase(name: &str) -> (r: Tug)
        ensures
            r == tug_named(name@),
    {
        let name = name.to_owned();
        if name == "light".to_owned() {
            Tug::Light
        } else if name == "medium".to_owned() {
            Tug::Medium
        } else if name == "heavy".to_owned() {
            Tug::Heavy
        } else {
            Tug::Unknown
        }
    }

    /// The tug of a name in any case.
    pub fn from_name(value: &str) -> (r: Tug)
        ensures
            r == tug_named(lower_of(value@)),
    {
        let lower = lowercase(value);
        Tug::from_lowercase(lower.as_str())
    }

    /// The tug as shown: one to three exclamation marks, or a question mark.
    pub fn to_string(&self) -> (r: String)
        ensures
            r@ == match self {
                Tug::Light => "!"@,
                Tug::Medium => "!!"@,
                Tug::Heavy => "!!!"@,
                Tug::Unknown => "?"@,
            },
    {
        match self {
            Tug::Light => "!".to_owned(),
            Tug::Medium => "!!".to_owned(),
            Tug::Heavy => "!!!".to_owned(),
            Tug::Unknown => "?".to_owned(),
        }
    }
}

#[derive(Debug, Clone, Copy, PartialEq, Eq, Structural)]
pub enum Hookset {
    Precision,
    Powerful,
    Unknown,
}

impl Hookset {
    /// The hookset of a lowercase name: "precision" or "powerful"; any other
    /// gives `Unknown`.
    pub fn from_lowercase(name: &str) -> (r: Hookset)
        ensures
            r == hookset_named(name@),
    {
        let name = name.to_owned();
        if name == "precision".to_owned() {
            Hookset::Precision
        } else if name == "powerful".to_owned() {
            Hookset::Powerful
        } else {
            Hookset::Unknown
        }
    }

    /// The hookset of a name in any case.
    pub fn from_name(value: &str) -> (r: Hookset)
        ensures
            r == hookset_named(lower_of(value@)),
    {
        let lower = lowercase(value);
        Hookset::from_lowercase(lower.as_str())
    }

    pub fn to_string(&self) -> (r: String)
        ensures
            r@ == match self {
                Hookset::Precision => "Precision"@,
                Hookset::Powerful => "Powerful"@,
                Hookset::Unknown => "Unknown"@,
            },
    {
        match self {
            Hookset::Precision => "Precision".to_owned(),
            Hookset::Powerful => "Powerful".to_owned(),
            Hookset::Unknown => "Unknown".to_owned(),
        }
    }
}

/// What a fish is caught with: a bait item, another fish, or unknown.
#[derive(Debug, Clone, Copy, PartialEq, Eq, Structural)]
pub enum Bait {
    Mooch(u32),
    Bait(u32),
    Unknown,
}

/// A side condition: for `length` seconds after the listed fish (count, id)
/// have been caught.
#[derive(Debug)]
pub struct Intuition {
    length: u64,
    requirements: Vec<(u8, u32)>,
}

impl Intuition {
    /// How long the condition lasts, in seconds.
    pub closed spec fn length_secs(&self) -> u64 {
        self.length
    }

    /// The (count, fish id) pairs to be caught first.
    pub closed spec fn needs(&self) -> Seq<(u8, u32)> {
        self.requirements@
    }

    pub fn new(length: u64, requirements: Vec<(u8, u32)>) -> (r: Self)
        ensures
            r.length_secs() == length,
            r.needs() == requirements@,
    {
        Self { length, requirements }
    }
}

#[derive(Debug, Clone, Copy, PartialEq, Eq, Structural)]
pub enum Lure {
    Moderate,
    Ambitious,
}

#[derive(Debug)]
pub struct Fish {
    pub id: u32,
    pub name: String,
    pub location: Rc<FishingHole>,
    pub window_start: EorzeaDuration,
    pub window_end: EorzeaDuration,
    pub bait: Bait,
    pub previous_weather_set: Vec<Weather>,
    pub weather_set: Vec<Weather>,
    pub tug: Tug,
    pub hookset: Hookset,
    pub intuition: Option<Intuition>,
    pub lure: Lure,
    pub lure_proc: bool,
    pub snagging: bool,
    pub gig: bool,
    pub folklore: bool,
    pub fish_eyes: bool,
    pub patch: (u8, u8),
}

impl Fish {
    /// The rates of the weather of the fish's region.
    pub closed spec fn rates(&self) -> Seq<(u8, Weather)> {
        self.location.region.weather.rates()
    }

    /// Both ends of the daily window lie within one day.
    pub open spec fn wf(&self) -> bool {
        &&& self.window_start@ < SUN_IN_ESEC
        &&& self.window_end@ < SUN_IN_ESEC
    }

    /// A fish; both ends of its daily window are taken modulo one day.
    #[allow(clippy::too_many_arguments)]
    pub fn new(
        id: u32,
        name: String,
        location: Rc<FishingHole>,
        window_start: EorzeaDuration,
        window_end: EorzeaDuration,
        bait: Bait,
        previous_weather_set: Vec<Weather>,
        weather_set: Vec<Weather>,
        tug: Tug,
        hookset: Hookset,
        intuition: Option<Intuition>,
        lure: Lure,
        lure_proc: bool,
        snagging: bool,
        gig: bool,
        folklore: bool,
        fish_eyes: bool,
        patch: (u8, u8),
    ) -> (r: Fish)
        ensures
            r.wf(),
            r.id == id,
            r.name@ == name@,
            r.location == location,
            r.window_start@ == window_start@ % SUN_IN_ESEC as int,
            r.window_end@ == window_end@ % SUN_IN_ESEC as int,
            r.bait == bait,
            r.previous_weather_set@ == previous_weather_set@,
            r.weather_set@ == weather_set@,
            r.tug == tug,
            r.hookset == hookset,
            r.intuition == intuition,
            r.lure == lure,
            r.lure_proc == lure_proc,
            r.snagging == snagging,
            r.gig == gig,
            r.folklore == folklore,
            r.fish_eyes == fish_eyes,
            r.patch == patch,
    {
        let sun = EorzeaDuration::from_esecs(SUN_IN_ESEC);
        Self {
            id,
            name,
            location,
            window_start: window_start.modulo(sun),
            window_end: window_end.modulo(sun),
            bait,
            previous_weather_set,
            weather_set,
            tug,
            hookset,
            intuition,
            lure,
            lure_proc,
            snagging,
            gig,
            folklore,
            fish_eyes,
            patch,
        }
    }

    /// The fish's window on the day of `etime`.
    pub fn window_on_day(&self, etime: EorzeaTime) -> (r: EorzeaTimeSpan)
        requires
            self.wf(),
            etime@ + 2 * SUN_IN_ESEC <= u64::MAX,
        ensures
            r@ == day_window(self.window_start@, self.window_end@, etime@),
    {
        let sun = EorzeaDuration::from_esecs(SUN_IN_ESEC);
        let mut day = etime;
        day.round(sun);
        proof {
            vstd::arithmetic::div_mod::lemma_mod_decreases(etime@ as nat, SUN_IN_ESEC as nat);
            self.window_start.view_bounds();
            self.window_end.view_bounds();
        }
        let start = day.plus(self.window_start);
        let mut end = day.plus(self.window_end);
        if end.timestamp() <= start.timestamp() {
            end = end.plus(sun);
        }
        match EorzeaTimeSpan::new_start_end(start, end) {
            Ok(span) => span,
            Err(_) => {
                assert(false);
                EorzeaTimeSpan::new(start, EorzeaDuration::from_esecs(0))
            },
        }
    }

    /// The fish's next catch window from `start`: the first intersection of
    /// its daily window with a period of its weather pattern that lasts and
    /// that begins no earlier than `start` (or, with `include_ongoing`, ends
    /// no earlier), within `limit` weather periods.
    pub fn next_window(&self, start: EorzeaTime, include_ongoing: bool, limit: u32) -> (r: Option<
        EorzeaTimeSpan,
    >)
        requires
            self.wf(),
            start@ + limit * 28800 + 2 * SUN_IN_ESEC <= u64::MAX,
        ensures
            r matches Some(w) ==> window_search(
                self.rates(),
                self.window_start@,
                self.window_end@,
                self.previous_weather_set@,
                self.weather_set@,
                start@,
                include_ongoing,
                start@,
                limit as int,
            ) == Some(w@),
            r is None ==> window_search(
                self.rates(),
                self.window_start@,
                self.window_end@,
                self.previous_weather_set@,
                self.weather_set@,
                start@,
                include_ongoing,
                start@,
                limit as int,
            ) is None,
            r matches Some(w) ==> w@.1 > 0,
            r matches Some(w) ==> !include_ongoing ==> w@.0 >= start@,
            r matches Some(w) ==> include_ongoing ==> w@.0 + w@.1 >= start@,
    {
        let ghost rates = self.rates();
        let ghost ws = self.window_start@;
        let ghost we = self.window_end@;
        let ghost prev = self.previous_weather_set@;
        let ghost cur = self.weather_set@;
        let ghost search = window_search(
            rates,
            ws,
            we,
            prev,
            cur,
            start@,
            include_ongoing,
            start@,
            limit as int,
        );
        proof {
            lemma_window_search_accepted(
                rates,
                ws,
                we,
                prev,
                cur,
                start@,
                include_ongoing,
                start@,
                limit as int,
            );
        }
        let period = EorzeaDuration::from_esecs(WEATHER_PERIOD_IN_ESEC);
        assert(period@ == 28800);
        let mut time = start;
        let mut left = limit;
        while left > 0
            invariant
                left <= limit,
                period@ == 28800,
                self.wf(),
                rates == self.rates(),
                ws == self.window_start@,
                we == self.window_end@,
                prev == self.previous_weather_set@,
                cur == self.weather_set@,
                time@ == start@ + (limit - left) * 28800,
                start@ + limit * 28800 + 2 * SUN_IN_ESEC <= u64::MAX,
                search == window_search(
                    rates,
                    ws,
                    we,
                    prev,
                    cur,
                    start@,
                    include_ongoing,
                    start@,
                    limit as int,
                ),
                search == window_search(
                    rates,
                    ws,
                    we,
                    prev,
                    cur,
                    start@,
                    include_ongoing,
                    time@,
                    left as int,
                ),
            decreases left,
        {
            let next_weather = match self.location.region.weather.find_pattern(
                time,
                self.previous_weather_set.as_slice(),
                self.weather_set.as_slice(),
                left,
            ) {
                Some(t) => t,
                None => {
                    return None;
                },
            };
            proof {
                crate::weather::lemma_first_pattern_bounds(
                    rates,
                    crate::weather::pattern_base(time@),
                    prev,
                    cur,
                    1,
                    left as int,
                );
                time.view_bounds();
            }
            let weather_span = EorzeaTimeSpan::new(next_weather, period);
            if let Ok(window) = self.window_on_day(time).overlap(&weather_span) {
                let min_window = if include_ongoing {
                    window.end()
                } else {
                    window.start()
                };
                if start.timestamp() <= min_window.timestamp() && window.duration().total_seconds()
                    > 0 {
                    return Some(window);
                }
            }
            time = time.plus(period);
            left -= 1;
        }
        None
    }

    pub fn name(&self) -> (r: &str)
        ensures
            r@ == self.name@,
    {
        self.name.as_str()
    }

    /// The start of the daily window.
    pub fn start(&self) -> (r: &EorzeaDuration)
        ensures
            *r == self.window_start,
    {
        &self.window_start
    }

    /// The start and end of the daily window.
    pub fn time_restriction(&self) -> (r: (&EorzeaDuration, &EorzeaDuration))
        ensures
            *r.0 == self.window_start,
            *r.1 == self.window_end,
    {
        (&self.window_start, &self.window_end)
    }

    /// The weather of the fish's region at the game instant `now`.
    pub fn weather_now(&self, now: EorzeaTime) -> (r: Weather)
        ensures
            r == weather_of(self.rates(), now@),
    {
        self.location.region.weather.weather_at(now)
    }

    /// The item id of the bait, where it is known.
    pub fn bait_id(&self) -> (r: Option<u32>)
        ensures
            r == match self.bait {
                Bait::Mooch(id) => Some(id),
                Bait::Bait(id) => Some(id),
                Bait::Unknown => None,
            },
    {
        match self.bait {
            Bait::Mooch(id) => Some(id),
            Bait::Bait(id) => Some(id),
            Bait::Unknown => None,
        }
    }
}

impl FishingHole {
    pub closed spec fn name_view(&self) -> Seq<char> {
        self.name@
    }

    pub closed spec fn region(&self) -> Rc<Region> {
        self.region
    }

    pub fn new(name: String, region: Rc<Region>) -> (r: FishingHole)
        ensures
            r.name_view() == name@,
            r.region() == region,
    {
        FishingHole { name, region }
    }

    pub fn name(&self) -> (r: &str)
        ensures
            r@ == self.name_view(),
    {
        self.name.as_str()
    }
}

impl Region {
    pub closed spec fn name_view(&self) -> Seq<char> {
        self.name@
    }

    /// The rates of the region's weather.
    pub closed spec fn rates(&self) -> Seq<(u8, Weather)> {
        self.weather.rates()
    }

    pub fn new(name: String, weather: WeatherForecast) -> (r: Region)
        ensures
            r.name_view() == name@,
            r.rates() == weather.rates(),
    {
        Region { name, weather }
    }

    pub fn name(&self) -> (r: &str)
        ensures
            r@ == self.name_view(),
    {
        self.name.as_str()
    }
}

/// An item of the catalog: a fish, or a bait, with its name and id.
#[derive(Debug, Clone)]
pub enum FishingItem {
    Fish(String, u32),
    Bait(String, u32),
}

impl FishingItem {
    pub open spec fn id_of(&self) -> u32 {
        match self {
            FishingItem::Fish(_, id) => *id,
            FishingItem::Bait(_, id) => *id,
        }
    }

    pub open spec fn name_of(&self) -> Seq<char> {
        match self {
            FishingItem::Fish(name, _) => name@,
            FishingItem::Bait(name, _) => name@,
        }
    }

    pub fn name(&self) -> (r: &str)
        ensures
            r@ == self.name_of(),
    {
        match self {
            FishingItem::Fish(name, _) => name.as_str(),
            FishingItem::Bait(name, _) => name.as_str(),
        }
    }

    pub fn id(&self) -> (r: u32)
        ensures
            r == self.id_of(),
    {
        match self {
            FishingItem::Fish(_, id) => *id,
            FishingItem::Bait(_, id) => *id,
        }
    }
}

/// The catalog: fish, fishing holes, regions and items.
pub struct FishData {
    fishes: Vec<Fish>,
    fishing_holes: Vec<Rc<FishingHole>>,
    regions: Vec<Rc<Region>>,
    items: Vec<FishingItem>,
}

impl FishData {
    pub closed spec fn fish_list(&self) -> Seq<Fish> {
        self.fishes@
    }

    pub closed spec fn hole_list(&self) -> Seq<Rc<FishingHole>> {
        self.fishing_holes@
    }

    pub closed spec fn region_list(&self) -> Seq<Rc<Region>> {
        self.regions@
    }

    pub closed spec fn item_list(&self) -> Seq<FishingItem> {
        self.items@
    }

    pub fn new(
        fishes: Vec<Fish>,
        fishing_holes: Vec<Rc<FishingHole>>,
        regions: Vec<Rc<Region>>,
        items: Vec<FishingItem>,
    ) -> (r: FishData)
        ensures
            r.fish_list() == fishes@,
            r.hole_list() == fishing_holes@,
            r.region_list() == regions@,
            r.item_list() == items@,
    {
        FishData { fishes, fishing_holes, regions, items }
    }

    /// The first item with this id.
    pub fn item_by_id(&self, id: u32) -> (r: Option<&FishingItem>)
        ensures
            r matches Some(x) ==> exists|i: int|
                0 <= i < self.item_list().len() && self.item_list()[i] == *x && x.id_of() == id
                    && forall|j: int| 0 <= j < i ==> self.item_list()[j].id_of() != id,
            r is None ==> forall|i: int|
                0 <= i < self.item_list().len() ==> self.item_list()[i].id_of() != id,
    {
        let mut i: usize = 0;
        while i < self.items.len()
            invariant
                i <= self.item_list().len(),
                forall|j: int| 0 <= j < i ==> self.item_list()[j].id_of() != id,
            decreases self.item_list().len() - i,
        {
            if self.items[i].id() == id {
                return Some(&self.items[i]);
            }
            i += 1;
        }
        None
    }

    /// The first fish with this id.
    pub fn fish_by_id(&self, id: u32) -> (r: Option<&Fish>)
        ensures
            r matches Some(x) ==> exists|i: int|
                0 <= i < self.fish_list().len() && self.fish_list()[i] == *x && x.id == id
                    && forall|j: int| 0 <= j < i ==> self.fish_list()[j].id != id,
            r is None ==> forall|i: int|
                0 <= i < self.fish_list().len() ==> self.fish_list()[i].id != id,
    {
        let mut i: usize = 0;
        while i < self.fishes.len()
            invariant
                i <= self.fish_list().len(),
                forall|j: int| 0 <= j < i ==> self.fish_list()[j].id != id,
            decreases self.fish_list().len() - i,
        {
            if self.fishes[i].id == id {
                return Some(&self.fishes[i]);
            }
            i += 1;
        }
        None
    }

    pub fn fishes(&self) -> (r: &Vec<Fish>)
        ensures
            r@ == self.fish_list(),
    {
        &self.fishes
    }
}

} // verus!
