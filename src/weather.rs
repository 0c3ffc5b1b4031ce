//! The regional weather model: a score computed from real time, a table of
//! cumulative rates that turns a score into a weather, and the search for
//! a transition between two sets of weathers.

use crate::eorzea_time::{
    EorzeaDuration, EorzeaTime, WEATHER_PERIOD_IN_ESEC, real_of_esecs,
};
use vstd::prelude::*;

verus! {

#[derive(Debug, Clone, Copy, PartialEq, Eq, Structural)]
pub enum Weather {
    /// No rate of the table matches the score.
    Unknown,
    Sunny,
    Clouds,
    ClearSkies,
    FairSkies,
    Fog,
    Wind,
    /// A weather known by its numeric id.
    Id(u32),
}

/// The 32-bit seed of the weather at `unix_secs` real seconds: the day
/// number times 100 plus the start bell of the current eight-bell period.
pub open spec fn weather_seed(unix_secs: int) -> int {
    let bell = unix_secs / 175;
    let inc = (bell + 8 - bell % 8) % 24;
    let days = unix_secs / 4200;
    (days * 100 + inc) % 0x1_0000_0000
}

/// The two shift-and-xor rounds applied to the seed.
pub open spec fn weather_mix(seed: u32) -> u32 {
    let step_1 = ((seed << 11u32) ^ seed) as u32;
    ((step_1 >> 8u32) ^ step_1) as u32
}

/// The weather score at `unix_secs` real seconds, for the modulus `max_score`.
pub open spec fn unix_score(unix_secs: int, max_score: int) -> int {
    weather_mix(weather_seed(unix_secs) as u32) as int % max_score
}

/// The weather of the first rate, from index `i` on, whose threshold lies
/// strictly above `score`; `Unknown` where none does.
pub open spec fn weather_from(rates: Seq<(u8, Weather)>, score: int, i: int) -> Weather
    decreases rates.len() - i,
{
    if i < 0 || i >= rates.len() {
        Weather::Unknown
    } else if rates[i].0 > score {
        rates[i].1
    } else {
        weather_from(rates, score, i + 1)
    }
}

/// The weather that a table of rates gives to a score.
pub open spec fn weather_for(rates: Seq<(u8, Weather)>, score: int) -> Weather {
    weather_from(rates, score, 0)
}

/// The largest threshold of the table, 0 where it is empty.
pub open spec fn max_rate(rates: Seq<(u8, Weather)>) -> int
    decreases rates.len(),
{
    if rates.len() == 0 {
        0
    } else {
        let rest = max_rate(rates.drop_last());
        if rates.last().0 > rest {
            rates.last().0 as int
        } else {
            rest
        }
    }
}

/// The weather of a region with this table of rates at the game instant
/// `esecs`: the score at the matching real time, taken modulo the largest
/// threshold, looked up in the table.
#[verifier::opaque]
pub open spec fn weather_of(rates: Seq<(u8, Weather)>, esecs: int) -> Weather {
    if max_rate(rates) == 0 {
        Weather::Unknown
    } else {
        weather_for(rates, unix_score(real_of_esecs(esecs), max_rate(rates)))
    }
}

/// The index at which a rate with threshold `key` goes into a sorted table,
/// after every rate whose threshold is not greater.
pub open spec fn insert_index(rates: Seq<(u8, Weather)>, key: u8, i: int) -> int
    decreases rates.len() - i,
{
    if i < 0 || i >= rates.len() {
        rates.len() as int
    } else if rates[i].0 > key {
        i
    } else {
        insert_index(rates, key, i + 1)
    }
}

/// The table sorted by threshold, equal thresholds kept in their order.
pub open spec fn sorted_rates(rates: Seq<(u8, Weather)>) -> Seq<(u8, Weather)>
    decreases rates.len(),
{
    if rates.len() == 0 {
        rates
    } else {
        let rest = sorted_rates(rates.drop_last());
        rest.insert(insert_index(rest, rates.last().0, 0), rates.last())
    }
}

pub open spec fn rates_sorted(rates: Seq<(u8, Weather)>) -> bool {
    forall|i: int, j: int| 0 <= i < j < rates.len() ==> rates[i].0 <= rates[j].0
}

/// Where `key` goes into a sorted table: every threshold before the index is
/// at most `key`, every one from it on is above.
pub proof fn lemma_insert_index(rates: Seq<(u8, Weather)>, key: u8, i: int)
    requires
        rates_sorted(rates),
        0 <= i <= rates.len(),
        forall|j: int| 0 <= j < i ==> rates[j].0 <= key,
    ensures
        i <= insert_index(rates, key, i) <= rates.len(),
        forall|j: int| 0 <= j < insert_index(rates, key, i) ==> rates[j].0 <= key,
        forall|j: int| insert_index(rates, key, i) <= j < rates.len() ==> rates[j].0 > key,
    decreases rates.len() - i,
{
    if i < rates.len() && rates[i].0 <= key {
        lemma_insert_index(rates, key, i + 1);
    }
}

/// Sorting yields a sorted table with the same rates.
pub proof fn lemma_sorted_rates(rates: Seq<(u8, Weather)>)
    ensures
        rates_sorted(sorted_rates(rates)),
        sorted_rates(rates).to_multiset() == rates.to_multiset(),
    decreases rates.len(),
{
    if rates.len() > 0 {
        let rest = sorted_rates(rates.drop_last());
        let e = rates.last();
        lemma_sorted_rates(rates.drop_last());
        lemma_insert_index(rest, e.0, 0);
        let idx = insert_index(rest, e.0, 0);
        rest.insert_ensures(idx, e);
        let r = rest.insert(idx, e);
        assert forall|i: int, j: int| 0 <= i < j < r.len() implies r[i].0 <= r[j].0 by {
            if j < idx {
            } else if j == idx {
            } else if i < idx {
                assert(r[j] == rest[j - 1]);
            } else if i == idx {
                assert(r[j] == rest[j - 1]);
            } else {
                assert(r[i] == rest[i - 1]);
                assert(r[j] == rest[j - 1]);
            }
        }
        vstd::seq_lib::to_multiset_insert(rest, idx, e);
        assert(rates =~= rates.drop_last().push(e));
        vstd::seq_lib::to_multiset_build(rates.drop_last(), e);
    }
}

/// Where a pattern search from `start` begins: the start of the weather
/// period (28800 game seconds, eight bells) before the one that contains
/// `start`, or the epoch where there is none.
pub open spec fn pattern_base(start: int) -> int {
    let period_start = start - start % 28800;
    if period_start < 28800 {
        0
    } else {
        period_start - 28800
    }
}

/// Whether the period `k` periods after `base` has a weather of `cur` and
/// the period before it a weather of `prev`.
pub open spec fn pattern_at(
    rates: Seq<(u8, Weather)>,
    base: int,
    prev: Seq<Weather>,
    cur: Seq<Weather>,
    k: int,
) -> bool {
    &&& prev.contains(weather_of(rates, base + (k - 1) * 28800))
    &&& cur.contains(weather_of(rates, base + k * 28800))
}

/// The start of the first period `k..=limit` periods after `base` that
/// follows the pattern, if any.
pub open spec fn first_pattern(
    rates: Seq<(u8, Weather)>,
    base: int,
    prev: Seq<Weather>,
    cur: Seq<Weather>,
    k: int,
    limit: int,
) -> Option<int>
    decreases limit + 1 - k,
{
    if k > limit {
        None
    } else if pattern_at(rates, base, prev, cur, k) {
        Some(base + k * 28800)
    } else {
        first_pattern(rates, base, prev, cur, k + 1, limit)
    }
}

/// What a pattern search from `start` with `limit` steps finds.
pub open spec fn find_pattern_from(
    rates: Seq<(u8, Weather)>,
    start: int,
    prev: Seq<Weather>,
    cur: Seq<Weather>,
    limit: int,
) -> Option<int> {
    first_pattern(rates, pattern_base(start), prev, cur, 1, limit)
}

/// Up to `n` successive matches of the pattern, each search starting one
/// period after the previous match, stopping at the first search that fails.
pub open spec fn next_patterns(
    rates: Seq<(u8, Weather)>,
    n: int,
    start: int,
    prev: Seq<Weather>,
    cur: Seq<Weather>,
    limit: int,
) -> Seq<int>
    decreases n,
{
    if n <= 0 {
        Seq::empty()
    } else {
        match find_pattern_from(rates, start, prev, cur, limit) {
            None => Seq::empty(),
            Some(t) => seq![t] + next_patterns(
                rates,
                n - 1,
                t + 28800,
                prev,
                cur,
                limit,
            ),
        }
    }
}

/// A match found from step `k` lies between steps `k` and `limit`.
pub proof fn lemma_first_pattern_bounds(
    rates: Seq<(u8, Weather)>,
    base: int,
    prev: Seq<Weather>,
    cur: Seq<Weather>,
    k: int,
    limit: int,
)
    ensures
        first_pattern(rates, base, prev, cur, k, limit) matches Some(t) ==> base + k
            * 28800 <= t <= base + limit * 28800,
    decreases limit + 1 - k,
{
    if k <= limit && !pattern_at(rates, base, prev, cur, k) {
        lemma_first_pattern_bounds(rates, base, prev, cur, k + 1, limit);
    }
}

/// With the rates `[(50, Clouds), (100, Sunny)]`, a score below 50 gives
/// clouds, one between 50 and 100 gives sun, one above 100 gives no known
/// weather. (A score of exactly 50 gives sun and one of exactly 100 gives no
/// known weather, since a rate matches only scores strictly below it.)
pub proof fn clouds_then_sun(score: int)
    requires
        score >= 0,
        score != 50,
        score != 100,
    ensures
        weather_for(seq![(50u8, Weather::Clouds), (100u8, Weather::Sunny)], score) == if score
            < 50 {
            Weather::Clouds
        } else if score < 100 {
            Weather::Sunny
        } else {
            Weather::Unknown
        },
{
    let rates = seq![(50u8, Weather::Clouds), (100u8, Weather::Sunny)];
    assert(rates[0] == (50u8, Weather::Clouds));
    assert(rates[1] == (100u8, Weather::Sunny));
    assert(weather_from(rates, score, 2) == Weather::Unknown);
    assert(weather_from(rates, score, 1) == if score < 100 {
        Weather::Sunny
    } else {
        Weather::Unknown
    });
    assert(weather_from(rates, score, 0) == if score < 50 {
        Weather::Clouds
    } else {
        weather_from(rates, score, 1)
    });
}

/// Some rate holds the largest threshold of a non-empty table.
proof fn lemma_max_rate_attained(rates: Seq<(u8, Weather)>)
    requires
        rates.len() > 0,
    ensures
        exists|i: int| 0 <= i < rates.len() && rates[i].0 == max_rate(rates),
    decreases rates.len(),
{
    let n = rates.len() - 1;
    if n > 0 && max_rate(rates) != rates[n].0 {
        lemma_max_rate_attained(rates.drop_last());
        let i = choose|i: int| 0 <= i < rates.drop_last().len() && rates.drop_last()[i].0 == max_rate(
            rates.drop_last(),
        );
        assert(rates[i] == rates.drop_last()[i]);
    } else if n == 0 {
        assert(rates.drop_last().len() == 0);
        assert(max_rate(rates.drop_last()) == 0);
        assert(rates[n].0 == max_rate(rates));
    }
}

/// Before a rate above the score, the lookup lands on some rate of the table.
proof fn lemma_weather_from_found(rates: Seq<(u8, Weather)>, score: int, k: int, i: int)
    requires
        0 <= k <= i < rates.len(),
        rates[i].0 > score,
    ensures
        exists|j: int| k <= j <= i && weather_from(rates, score, k) == rates[j].1,
    decreases i - k,
{
    if rates[k].0 > score {
        assert(weather_from(rates, score, k) == rates[k].1);
    } else {
        lemma_weather_from_found(rates, score, k + 1, i);
        let j = choose|j: int| k + 1 <= j <= i && weather_from(rates, score, k + 1) == rates[j].1;
        assert(weather_from(rates, score, k) == rates[j].1);
    }
}

/// A table with a positive threshold and no `Unknown` rate never yields
/// `Unknown`: the largest threshold always lies above the score.
pub proof fn lemma_weather_known(rates: Seq<(u8, Weather)>, esecs: int)
    requires
        max_rate(rates) > 0,
        forall|i: int| 0 <= i < rates.len() ==> rates[i].1 != Weather::Unknown,
    ensures
        weather_of(rates, esecs) != Weather::Unknown,
{
    reveal(weather_of);
    let m = max_rate(rates);
    let score = unix_score(real_of_esecs(esecs), m);
    assert(0 <= score < m);
    assert(rates.len() > 0);
    lemma_max_rate_attained(rates);
    let i = choose|i: int| 0 <= i < rates.len() && rates[i].0 == max_rate(rates);
    lemma_weather_from_found(rates, score, 0, i);
}

proof fn lemma_first_pattern_unknown(
    rates: Seq<(u8, Weather)>,
    base: int,
    prev: Seq<Weather>,
    k: int,
    limit: int,
)
    requires
        max_rate(rates) > 0,
        forall|i: int| 0 <= i < rates.len() ==> rates[i].1 != Weather::Unknown,
    ensures
        first_pattern(rates, base, prev, seq![Weather::Unknown], k, limit) is None,
    decreases limit + 1 - k,
{
    if k <= limit {
        lemma_weather_known(rates, base + k * 28800);
        assert(!seq![Weather::Unknown].contains(weather_of(rates, base + k * 28800))) by {
            if seq![Weather::Unknown].contains(weather_of(rates, base + k * 28800)) {
                let x = choose|x: int|
                    0 <= x < 1 && seq![Weather::Unknown][x] == weather_of(rates, base + k * 28800);
                assert(seq![Weather::Unknown][x] == Weather::Unknown);
            }
        }
        lemma_first_pattern_unknown(rates, base, prev, k + 1, limit);
    }
}

/// A search for the `Unknown` weather in a table that has a positive
/// threshold and no `Unknown` rate finds nothing, whatever its budget.
pub proof fn unknown_pattern_not_found(
    rates: Seq<(u8, Weather)>,
    start: int,
    prev: Seq<Weather>,
    limit: int,
)
    requires
        max_rate(rates) > 0,
        forall|i: int| 0 <= i < rates.len() ==> rates[i].1 != Weather::Unknown,
    ensures
        find_pattern_from(rates, start, prev, seq![Weather::Unknown], limit) is None,
{
    lemma_first_pattern_unknown(rates, pattern_base(start), prev, 1, limit);
}

/// The weather score at `unix_secs` real seconds after the Unix epoch, modulo
/// `max_score`.
pub fn unix_weather_score(unix_secs: u64, max_score: u8) -> (r: u8)
    requires
        max_score > 0,
    ensures
        r == unix_score(unix_secs as int, max_score as int),
{
    let bell = unix_secs / 175;
    let inc = (bell + 8 - bell % 8) % 24;
    let total_days = unix_secs / 4200;
    assert(total_days * 100 + inc <= u64::MAX) by (nonlinear_arith)
        requires
            total_days == unix_secs / 4200,
            inc < 24,
    ;
    let calc_base: u32 = ((total_days * 100 + inc) % 0x1_0000_0000) as u32;
    let step_1: u32 = (calc_base << 11u32) ^ calc_base;
    let step_2: u32 = (step_1 >> 8u32) ^ step_1;
    (step_2 % (max_score as u32)) as u8
}

/// The weather score at a game instant, modulo `max_score`.
pub fn eorzea_weather_score(time: EorzeaTime, max_score: u8) -> (r: u8)
    requires
        max_score > 0,
    ensures
        r == unix_score(real_of_esecs(time@), max_score as int),
{
    let unix_secs = time.to_system_time() as u64;
    unix_weather_score(unix_secs, max_score)
}

/// Whether `w` is one of `set`.
fn weather_in(set: &[Weather], w: Weather) -> (r: bool)
    ensures
        r == set@.contains(w),
{
    let mut i: usize = 0;
    while i < set.len()
        invariant
            i <= set@.len(),
            forall|j: int| 0 <= j < i ==> set@[j] != w,
        decreases set@.len() - i,
    {
        if set[i] == w {
            return true;
        }
        i += 1;
    }
    false
}

/// The weather of a region: its table of cumulative rates, sorted by
/// threshold; the largest threshold is the modulus of the score.
#[derive(Debug)]
pub struct WeatherForecast {
    region: String,
    weather_rates: Vec<(u8, Weather)>,
}

impl WeatherForecast {
    #[verifier::type_invariant]
    spec fn sorted(&self) -> bool {
        rates_sorted(self.weather_rates@)
    }

    /// The table of rates, sorted by threshold.
    pub closed spec fn rates(&self) -> Seq<(u8, Weather)> {
        self.weather_rates@
    }

    pub closed spec fn region_name(&self) -> Seq<char> {
        self.region@
    }

    /// A forecast for a region; the table is sorted by threshold, rates with
    /// equal thresholds keeping their order.
    pub fn new(region: String, weather_rates: Vec<(u8, Weather)>) -> (r: WeatherForecast)
        ensures
            r.rates() == sorted_rates(weather_rates@),
            rates_sorted(r.rates()),
            r.rates().to_multiset() == weather_rates@.to_multiset(),
            r.region_name() == region@,
    {
        let mut sorted: Vec<(u8, Weather)> = Vec::new();
        let mut i: usize = 0;
        while i < weather_rates.len()
            invariant
                i <= weather_rates@.len(),
                sorted@ == sorted_rates(weather_rates@.take(i as int)),
            decreases weather_rates@.len() - i,
        {
            let e = weather_rates[i];
            let mut j: usize = 0;
            while j < sorted.len() && sorted[j].0 <= e.0
                invariant
                    j <= sorted@.len(),
                    insert_index(sorted@, e.0, 0) == insert_index(sorted@, e.0, j as int),
                decreases sorted@.len() - j,
            {
                j += 1;
            }
            assert(weather_rates@.take(i + 1).drop_last() =~= weather_rates@.take(i as int));
            sorted.insert(j, e);
            i += 1;
        }
        assert(weather_rates@.take(i as int) =~= weather_rates@);
        proof {
            lemma_sorted_rates(weather_rates@);
        }
        WeatherForecast { region, weather_rates: sorted }
    }

    /// The weather of the first rate whose threshold lies strictly above
    /// `score`, or `Unknown`.
    pub fn weather_for_score(&self, score: u8) -> (r: Weather)
        ensures
            r == weather_for(self.rates(), score as int),
    {
        let mut i: usize = 0;
        while i < self.weather_rates.len()
            invariant
                i <= self.rates().len(),
                weather_for(self.rates(), score as int) == weather_from(
                    self.rates(),
                    score as int,
                    i as int,
                ),
            decreases self.rates().len() - i,
        {
            if self.weather_rates[i].0 > score {
                return self.weather_rates[i].1;
            }
            i += 1;
        }
        Weather::Unknown
    }

    /// The weather of the region at a game instant.
    pub fn weather_at(&self, time: EorzeaTime) -> (r: Weather)
        ensures
            r == weather_of(self.rates(), time@),
    {
        let mut max_score: u8 = 0;
        let mut i: usize = 0;
        while i < self.weather_rates.len()
            invariant
                i <= self.rates().len(),
                max_score == max_rate(self.rates().take(i as int)),
            decreases self.rates().len() - i,
        {
            assert(self.rates().take(i + 1).drop_last() =~= self.rates().take(i as int));
            if self.weather_rates[i].0 > max_score {
                max_score = self.weather_rates[i].0;
            }
            i += 1;
        }
        assert(self.rates().take(i as int) =~= self.rates());
        proof {
            reveal(weather_of);
        }
        if max_score == 0 {
            return Weather::Unknown;
        }
        let score = eorzea_weather_score(time, max_score);
        self.weather_for_score(score)
    }

    /// The start of the first weather period, from the one that contains
    /// `start` on and within `limit` periods, whose weather is one of
    /// `current_weather_set` while that of the period before is one of
    /// `previous_weather_set`.
    pub fn find_pattern(
        &self,
        start: EorzeaTime,
        previous_weather_set: &[Weather],
        current_weather_set: &[Weather],
        limit: u32,
    ) -> (r: Option<EorzeaTime>)
        requires
            start@ + limit * 28800 <= u64::MAX,
        ensures
            r matches Some(t) ==> find_pattern_from(
                self.rates(),
                start@,
                previous_weather_set@,
                current_weather_set@,
                limit as int,
            ) == Some(t@),
            r is None ==> find_pattern_from(
                self.rates(),
                start@,
                previous_weather_set@,
                current_weather_set@,
                limit as int,
            ) is None,
    {
        let ghost rates = self.rates();
        let ghost prev = previous_weather_set@;
        let ghost cur = current_weather_set@;
        let period = EorzeaDuration::from_esecs(WEATHER_PERIOD_IN_ESEC);
        assert(period@ == 28800);
        let mut time = start;
        time.round(period);
        let mut time = time.minus(period);
        let ghost base = time@;
        let mut prev_weather = self.weather_at(time);
        let mut i: u32 = 0;
        while i < limit
            invariant
                i <= limit,
                base == pattern_base(start@),
                time@ == base + i * 28800,
                period@ == 28800,
                prev_weather == weather_of(rates, time@),
                rates == self.rates(),
                prev == previous_weather_set@,
                cur == current_weather_set@,
                start@ + limit * 28800 <= u64::MAX,
                first_pattern(rates, base, prev, cur, 1, limit as int) == first_pattern(
                    rates,
                    base,
                    prev,
                    cur,
                    i + 1,
                    limit as int,
                ),
            decreases limit - i,
        {
            time = time.plus(period);
            let current_weather = self.weather_at(time);
            if weather_in(previous_weather_set, prev_weather) && weather_in(
                current_weather_set,
                current_weather,
            ) {
                return Some(time);
            }
            prev_weather = current_weather;
            i += 1;
        }
        None
    }

    /// Up to `n` successive starts of the pattern, each search beginning one
    /// period after the previous match and stopping at the first that fails.
    pub fn find_next_n_patterns(
        &self,
        n: u8,
        start: EorzeaTime,
        previous_weather_set: &[Weather],
        current_weather_set: &[Weather],
        limit: u32,
    ) -> (r: Vec<EorzeaTime>)
        requires
            start@ + (n + 1) * (limit + 1) * 28800 <= u64::MAX,
        ensures
            r@.map_values(|t: EorzeaTime| t@) == next_patterns(
                self.rates(),
                n as int,
                start@,
                previous_weather_set@,
                current_weather_set@,
                limit as int,
            ),
    {
        let ghost rates = self.rates();
        let ghost prev = previous_weather_set@;
        let ghost cur = current_weather_set@;
        let ghost step = (limit + 1) * 28800;
        let period = EorzeaDuration::from_esecs(WEATHER_PERIOD_IN_ESEC);
        assert(period@ == 28800);
        assert(start@ + (n + 1) * step <= u64::MAX) by (nonlinear_arith)
            requires
                step == (limit + 1) * 28800,
                start@ + (n + 1) * (limit + 1) * 28800 <= u64::MAX,
        ;
        let mut result: Vec<EorzeaTime> = Vec::new();
        let mut time = start;
        let mut c: u8 = 0;
        assert(time@ <= start@ + c * step) by (nonlinear_arith)
            requires
                time@ == start@,
                c == 0,
        ;
        while c < n
            invariant
                c <= n,
                rates == self.rates(),
                prev == previous_weather_set@,
                cur == current_weather_set@,
                step == (limit + 1) * 28800,
                time@ <= start@ + c * step,
                start@ + (n + 1) * step <= u64::MAX,
                period@ == 28800,
                result@.map_values(|t: EorzeaTime| t@) + next_patterns(
                    rates,
                    n - c,
                    time@,
                    prev,
                    cur,
                    limit as int,
                ) == next_patterns(rates, n as int, start@, prev, cur, limit as int),
            decreases n - c,
        {
            assert(start@ + c * step + limit * 28800 <= start@ + (n + 1) * step)
                by (nonlinear_arith)
                requires
                    c < n,
                    step == (limit + 1) * 28800,
            ;
            match self.find_pattern(time, previous_weather_set, current_weather_set, limit) {
                Some(t) => {
                    proof {
                        lemma_first_pattern_bounds(
                            rates,
                            pattern_base(time@),
                            prev,
                            cur,
                            1,
                            limit as int,
                        );
                        time.view_bounds();
                        assert(t@ + 28800 <= time@ + step) by (nonlinear_arith)
                            requires
                                t@ <= pattern_base(time@) + limit * 28800,
                                pattern_base(time@) <= time@,
                                step == (limit + 1) * 28800,
                        ;
                        assert(start@ + (c + 1) * step == start@ + c * step + step)
                            by (nonlinear_arith);
                        assert(result@.push(t).map_values(|t: EorzeaTime| t@) =~= result@.map_values(
                            |t: EorzeaTime| t@,
                        ).push(t@));
                        assert(seq![t@] + next_patterns(
                            rates,
                            n - c - 1,
                            t@ + 28800,
                            prev,
                            cur,
                            limit as int,
                        ) == next_patterns(rates, n - c, time@, prev, cur, limit as int));
                        assert(result@.map_values(|t: EorzeaTime| t@).push(t@) + next_patterns(
                            rates,
                            n - c - 1,
                            t@ + 28800,
                            prev,
                            cur,
                            limit as int,
                        ) =~= result@.map_values(|t: EorzeaTime| t@) + (seq![t@] + next_patterns(
                            rates,
                            n - c - 1,
                            t@ + 28800,
                            prev,
                            cur,
                            limit as int,
                        )));
                    }
                    result.push(t);
                    time = t.plus(period);
                },
                None => {
                    assert(next_patterns(rates, n - c, time@, prev, cur, limit as int) =~= Seq::<
                        int,
                    >::empty());
                    assert(result@.map_values(|t: EorzeaTime| t@) + Seq::<int>::empty()
                        =~= result@.map_values(|t: EorzeaTime| t@));
                    return result;
                },
            }
            c += 1;
        }
        assert(next_patterns(rates, 0, time@, prev, cur, limit as int) =~= Seq::<int>::empty());
        assert(result@.map_values(|t: EorzeaTime| t@) + Seq::<int>::empty() =~= result@.map_values(
            |t: EorzeaTime| t@,
        ));
        result
    }
}

} // verus!
