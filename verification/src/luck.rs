use vstd::prelude::*;
use vstd::string::StringExecFns;

use crate::astro::{compute_solar_terms, jd_micros_of_utc, terms_of_year_wf, LICHUN_IDX};
use crate::bazi::{
    is_month_boundary, month_branch_from_term_index, month_branch_of_term_at,
    month_stem_from_year, year_pillar, year_pillar_at,
};
use crate::types::{Direction, Gender, Pillar, SolarTerm};

verus! {

/// One decennial luck pillar with its onset in months.
#[derive(Clone, Copy, Debug, PartialEq, Eq, Structural)]
pub struct DaewonItem {
    pub start_months: i32,
    pub pillar: Pillar,
}

/// One annual luck interval: Lichun of the year to Lichun of the next.
#[derive(Clone, Copy, Debug, PartialEq, Eq, Structural)]
pub struct YearLuck {
    pub year: i32,
    pub start_jd_micros: i64,
    pub end_jd_micros: i64,
    pub pillar: Pillar,
}

/// One monthly luck interval between two month-defining terms.
#[derive(Clone, Copy, Debug, PartialEq, Eq, Structural)]
pub struct MonthLuck {
    pub start_jd_micros: i64,
    pub end_jd_micros: i64,
    pub pillar: Pillar,
    pub branch: usize,
}

/// The twelve monthly luck intervals of one year, with its year pillar.
#[derive(Clone, Debug)]
pub struct MonthlyLuck {
    pub year: i32,
    pub year_pillar: Pillar,
    pub months: Vec<MonthLuck>,
}

/// Decennial direction: forward for a yang year stem with a male chart or
/// a yin year stem with a female chart, backward otherwise.
pub open spec fn daewon_direction_at(gender: Gender, year_stem: int) -> Direction {
    let yang = year_stem % 2 == 0;
    match gender {
        Gender::Male => if yang {
            Direction::Forward
        } else {
            Direction::Backward
        },
        Gender::Female => if yang {
            Direction::Backward
        } else {
            Direction::Forward
        },
    }
}

/// Decennial direction of a chart.
pub fn daewon_direction(gender: Gender, year_stem: usize) -> (d: Direction)
    ensures
        d == daewon_direction_at(gender, year_stem as int),
{
    let yang: bool = year_stem % 2 == 0;
    match (gender, yang) {
        (Gender::Male, true) | (Gender::Female, false) => Direction::Forward,
        _ => Direction::Backward,
    }
}

/// Onset in months from a day distance in microseconds: three days stand
/// for one year, so the month count is the distance in days times four,
/// rounded half-up.
pub open spec fn daewon_months_of(delta_micros: int) -> int {
    (8 * delta_micros + 86_400_000_000) / 172_800_000_000
}

/// What the decennial onset says of a result over a combined term list:
/// `Some` exactly when a month-defining term lies strictly after the birth
/// (forward) or strictly before it (backward), and the month count then
/// comes from the nearest such term through `daewon_months_of`.
pub open spec fn daewon_onset_at(
    r: Option<i32>,
    birth_jd_micros: int,
    all: Seq<SolarTerm>,
    direction: Direction,
) -> bool {
    match direction {
        Direction::Forward => {
            &&& (r is Some <==> exists|i: int|
                0 <= i < all.len() && is_month_boundary(#[trigger] all[i]) && all[i].jd_micros
                    > birth_jd_micros)
            &&& (r is Some ==> exists|i: int|
                {
                    &&& 0 <= i < all.len()
                    &&& is_month_boundary(#[trigger] all[i])
                    &&& all[i].jd_micros > birth_jd_micros
                    &&& r->0 == daewon_months_of(all[i].jd_micros - birth_jd_micros)
                    &&& forall|j: int|
                        0 <= j < all.len() && is_month_boundary(#[trigger] all[j])
                            && all[j].jd_micros > birth_jd_micros ==> all[j].jd_micros
                            >= all[i].jd_micros
                })
        },
        Direction::Backward => {
            &&& (r is Some <==> exists|i: int|
                0 <= i < all.len() && is_month_boundary(#[trigger] all[i]) && all[i].jd_micros
                    < birth_jd_micros)
            &&& (r is Some ==> exists|i: int|
                {
                    &&& 0 <= i < all.len()
                    &&& is_month_boundary(#[trigger] all[i])
                    &&& all[i].jd_micros < birth_jd_micros
                    &&& r->0 == daewon_months_of(birth_jd_micros - all[i].jd_micros)
                    &&& forall|j: int|
                        0 <= j < all.len() && is_month_boundary(#[trigger] all[j])
                            && all[j].jd_micros < birth_jd_micros ==> all[j].jd_micros
                            <= all[i].jd_micros
                })
        },
    }
}

/// Onset of the decennial luck: the distance to the nearest month-defining
/// solar term strictly after the birth (forward) or strictly before it
/// (backward), over the given three years of terms, turned into months.
/// `None` when no month-defining term lies on the required side.
pub fn daewon_start_months(
    birth_jd_micros: i64,
    terms_prev: &Vec<SolarTerm>,
    terms_curr: &Vec<SolarTerm>,
    terms_next: &Vec<SolarTerm>,
    direction: Direction,
) -> (r: Option<i32>)
    requires
        -470_000_000_000_000_000 <= birth_jd_micros <= 470_000_000_000_000_000,
        forall|i: int|
            0 <= i < terms_prev@.len() ==> -470_000_000_000_000_000 <= (
            #[trigger] terms_prev@[i]).jd_micros <= 470_000_000_000_000_000,
        forall|i: int|
            0 <= i < terms_curr@.len() ==> -470_000_000_000_000_000 <= (
            #[trigger] terms_curr@[i]).jd_micros <= 470_000_000_000_000_000,
        forall|i: int|
            0 <= i < terms_next@.len() ==> -470_000_000_000_000_000 <= (
            #[trigger] terms_next@[i]).jd_micros <= 470_000_000_000_000_000,
    ensures
        r is Some ==> 0 <= r->0 <= 100_000_000,
        daewon_onset_at(
            r,
            birth_jd_micros as int,
            terms_prev@ + terms_curr@ + terms_next@,
            direction,
        ),
{
    let ghost all = terms_prev@ + terms_curr@ + terms_next@;
    let mut all_terms: Vec<SolarTerm> = Vec::new();
    let mut k: usize = 0;
    while k < terms_prev.len()
        invariant
            k <= terms_prev@.len(),
            all_terms@ =~= terms_prev@.subrange(0, k as int),
        decreases terms_prev@.len() - k,
    {
        all_terms.push(terms_prev[k]);
        k = k + 1;
    }
    let mut k2: usize = 0;
    while k2 < terms_curr.len()
        invariant
            k2 <= terms_curr@.len(),
            all_terms@ =~= terms_prev@ + terms_curr@.subrange(0, k2 as int),
        decreases terms_curr@.len() - k2,
    {
        all_terms.push(terms_curr[k2]);
        k2 = k2 + 1;
    }
    let mut k3: usize = 0;
    while k3 < terms_next.len()
        invariant
            k3 <= terms_next@.len(),
            all_terms@ =~= terms_prev@ + terms_curr@ + terms_next@.subrange(0, k3 as int),
        decreases terms_next@.len() - k3,
    {
        all_terms.push(terms_next[k3]);
        k3 = k3 + 1;
    }
    proof {
        assert(all_terms@ =~= all);
    }

    let forward: bool = match direction {
        Direction::Forward => true,
        Direction::Backward => false,
    };
    let mut target_jd: Option<i64> = None;
    let mut m: usize = 0;
    while m < all_terms.len()
        invariant
            m <= all_terms@.len(),
            all_terms@ =~= all,
            forall|i: int|
                0 <= i < all.len() ==> -470_000_000_000_000_000 <= (
                #[trigger] all[i]).jd_micros <= 470_000_000_000_000_000,
            forward == (direction == Direction::Forward),
            forward ==> {
                &&& (target_jd is Some <==> exists|i: int|
                    0 <= i < m && is_month_boundary(#[trigger] all[i]) && all[i].jd_micros
                        > birth_jd_micros)
                &&& (target_jd is Some ==> exists|i: int|
                    0 <= i < m && is_month_boundary(#[trigger] all[i]) && all[i].jd_micros
                        > birth_jd_micros && target_jd == Some(all[i].jd_micros) && forall|j: int|
                        0 <= j < m && is_month_boundary(#[trigger] all[j]) && all[j].jd_micros
                            > birth_jd_micros ==> all[j].jd_micros >= all[i].jd_micros)
            },
            !forward ==> {
                &&& (target_jd is Some <==> exists|i: int|
                    0 <= i < m && is_month_boundary(#[trigger] all[i]) && all[i].jd_micros
                        < birth_jd_micros)
                &&& (target_jd is Some ==> exists|i: int|
                    0 <= i < m && is_month_boundary(#[trigger] all[i]) && all[i].jd_micros
                        < birth_jd_micros && target_jd == Some(all[i].jd_micros) && forall|j: int|
                        0 <= j < m && is_month_boundary(#[trigger] all[j]) && all[j].jd_micros
                            < birth_jd_micros ==> all[j].jd_micros <= all[i].jd_micros)
            },
        decreases all_terms@.len() - m,
    {
        let t = all_terms[m];
        let defining: bool = month_branch_from_term_index(t.def_idx).is_some();
        if forward {
            if defining && t.jd_micros > birth_jd_micros {
                let replace: bool = match target_jd {
                    Option::None => true,
                    Option::Some(b) => t.jd_micros < b,
                };
                if replace {
                    target_jd = Some(t.jd_micros);
                }
            }
        } else {
            if defining && t.jd_micros < birth_jd_micros {
                let replace: bool = match target_jd {
                    Option::None => true,
                    Option::Some(b) => t.jd_micros > b,
                };
                if replace {
                    target_jd = Some(t.jd_micros);
                }
            }
        }
        m = m + 1;
    }

    match target_jd {
        Option::Some(jd) => {
            let diff: i64 = if jd >= birth_jd_micros {
                jd - birth_jd_micros
            } else {
                birth_jd_micros - jd
            };
            let months: i64 = (8 * diff + 86_400_000_000) / 172_800_000_000;
            Some(months as i32)
        },
        Option::None => None,
    }
}

/// One step of the decennial walk: stems and branches advance together,
/// forward or backward, with non-negative wrap.
pub open spec fn daewon_step(p: Pillar, direction: Direction) -> Pillar {
    match direction {
        Direction::Forward => Pillar {
            stem: ((p.stem + 1) % 10) as usize,
            branch: ((p.branch + 1) % 12) as usize,
        },
        Direction::Backward => Pillar {
            stem: ((p.stem + 9) % 10) as usize,
            branch: ((p.branch + 11) % 12) as usize,
        },
    }
}

/// The decennial pillars: starting from the month pillar, one step per
/// decade in the chart's direction.
pub fn build_daewon_pillars(month_pillar: Pillar, direction: Direction, count: usize) -> (r: Vec<
    Pillar,
>)
    requires
        month_pillar.wf(),
    ensures
        r@.len() == count,
        count > 0 ==> r@[0] == daewon_step(month_pillar, direction),
        forall|i: int| 0 < i < count ==> #[trigger] r@[i] == daewon_step(r@[i - 1], direction),
        forall|i: int| 0 <= i < count ==> (#[trigger] r@[i]).wf(),
{
    let mut pillars: Vec<Pillar> = Vec::new();
    let mut stem: usize = month_pillar.stem;
    let mut branch: usize = month_pillar.branch;
    let mut i: usize = 0;
    while i < count
        invariant
            i <= count,
            pillars@.len() == i,
            stem < 10,
            branch < 12,
            i == 0 ==> (Pillar { stem, branch }) == month_pillar,
            i > 0 ==> (Pillar { stem, branch }) == pillars@[i - 1],
            count > 0 && i > 0 ==> pillars@[0] == daewon_step(month_pillar, direction),
            forall|j: int| 0 < j < i ==> #[trigger] pillars@[j] == daewon_step(pillars@[j - 1], direction),
            forall|j: int| 0 <= j < i ==> (#[trigger] pillars@[j]).wf(),
        decreases count - i,
    {
        match direction {
            Direction::Forward => {
                stem = (stem + 1) % 10;
                branch = (branch + 1) % 12;
            },
            Direction::Backward => {
                stem = (stem + 9) % 10;
                branch = (branch + 11) % 12;
            },
        }
        pillars.push(Pillar { stem, branch });
        i = i + 1;
    }
    pillars
}

/// Attach onsets to the decennial pillars: item `i` starts at
/// `start_months + 120 * i`.
pub fn build_daewon_items(start_months: i32, pillars: &Vec<Pillar>) -> (r: Vec<DaewonItem>)
    requires
        -1_000_000_000 <= start_months <= 1_000_000_000,
        pillars@.len() <= 1_000_000,
    ensures
        r@.len() == pillars@.len(),
        forall|i: int|
            0 <= i < r@.len() ==> (#[trigger] r@[i]).start_months == start_months + 120 * i
                && r@[i].pillar == pillars@[i],
{
    let mut items: Vec<DaewonItem> = Vec::new();
    let mut i: usize = 0;
    while i < pillars.len()
        invariant
            i <= pillars@.len(),
            pillars@.len() <= 1_000_000,
            -1_000_000_000 <= start_months <= 1_000_000_000,
            items@.len() == i,
            forall|j: int|
                0 <= j < i ==> (#[trigger] items@[j]).start_months == start_months + 120 * j
                    && items@[j].pillar == pillars@[j],
        decreases pillars@.len() - i,
    {
        let sm: i64 = start_months as i64 + 120 * (i as i64);
        items.push(DaewonItem { start_months: sm as i32, pillar: pillars[i] });
        i = i + 1;
    }
    items
}

/// The instant of the first term with the given table position, if any.
pub(crate) fn find_term_jd(terms: &Vec<SolarTerm>, def_idx: usize) -> (r: Option<i64>)
    ensures
        (r is Some <==> exists|i: int|
            0 <= i < terms@.len() && (#[trigger] terms@[i]).def_idx == def_idx),
        r is Some ==> exists|i: int|
            {
                &&& 0 <= i < terms@.len()
                &&& (#[trigger] terms@[i]).def_idx == def_idx
                &&& r == Some(terms@[i].jd_micros)
                &&& forall|j: int| 0 <= j < i ==> (#[trigger] terms@[j]).def_idx != def_idx
            },
{
    let mut k: usize = 0;
    while k < terms.len()
        invariant
            k <= terms@.len(),
            forall|j: int| 0 <= j < k ==> (#[trigger] terms@[j]).def_idx != def_idx,
        decreases terms@.len() - k,
    {
        if terms[k].def_idx == def_idx {
            return Some(terms[k].jd_micros);
        }
        k = k + 1;
    }
    None
}

/// Annual luck pillars: for each year of the run, the Lichun-to-next-Lichun
/// interval and the year pillar of that year.  The engine's run invariant
/// places every Lichun inside its own year, so the run always succeeds:
/// each interval starts at the Lichun of its year, ends at the Lichun of
/// the next, and consecutive intervals chain.
pub fn yearly_luck(start_year: i32, count: usize) -> (r: Result<Vec<YearLuck>, String>)
    requires
        -4712 <= start_year,
        start_year + count <= 9997,
    ensures
        r is Ok,
        r->Ok_0@.len() == count,
        forall|i: int|
            0 <= i < count ==> {
                &&& (#[trigger] r->Ok_0@[i]).year == start_year + i
                &&& r->Ok_0@[i].pillar.stem == year_pillar_at(start_year + i).0
                &&& r->Ok_0@[i].pillar.branch == year_pillar_at(start_year + i).1
                &&& r->Ok_0@[i].pillar.wf()
                &&& jd_micros_of_utc(start_year + i, 1, 1, 0, 0, 0) <= r->Ok_0@[i].start_jd_micros
                    < jd_micros_of_utc(start_year + i + 1, 1, 1, 0, 0, 0)
                &&& r->Ok_0@[i].start_jd_micros < r->Ok_0@[i].end_jd_micros
            },
        forall|i: int|
            0 <= i < count - 1 ==> (#[trigger] r->Ok_0@[i]).end_jd_micros == r->Ok_0@[i
                + 1].start_jd_micros,
        count > 0 ==> exists|runs: Seq<Seq<SolarTerm>>|
            {
                &&& #[trigger] runs.len() == count + 1
                &&& forall|i: int|
                    0 <= i <= count ==> terms_of_year_wf(#[trigger] runs[i], start_year + i)
                &&& forall|i: int|
                    0 <= i < count ==> (#[trigger] r->Ok_0@[i]).start_jd_micros
                        == runs[i][2].jd_micros
                &&& forall|i: int|
                    0 <= i < count ==> (#[trigger] r->Ok_0@[i]).end_jd_micros == runs[i
                        + 1][2].jd_micros
            },
{
    let mut results: Vec<YearLuck> = Vec::new();
    if count == 0 {
        return Ok(results);
    }
    let first_terms = compute_solar_terms(start_year);
    let mut lichun_curr: i64 = first_terms[LICHUN_IDX].jd_micros;
    let ghost mut runs: Seq<Seq<SolarTerm>> = seq![first_terms@];
    let mut idx: usize = 0;
    while idx < count
        invariant
            idx <= count,
            1 <= count,
            -4712 <= start_year,
            start_year + count <= 9997,
            results@.len() == idx,
            jd_micros_of_utc(start_year + idx, 1, 1, 0, 0, 0) <= lichun_curr
                < jd_micros_of_utc(start_year + idx + 1, 1, 1, 0, 0, 0),
            idx > 0 ==> results@[idx - 1].end_jd_micros == lichun_curr,
            runs.len() == idx + 1,
            forall|i: int| 0 <= i <= idx ==> terms_of_year_wf(#[trigger] runs[i], start_year + i),
            lichun_curr == runs[idx as int][2].jd_micros,
            forall|i: int|
                0 <= i < idx ==> (#[trigger] results@[i]).start_jd_micros == runs[i][2].jd_micros,
            forall|i: int|
                0 <= i < idx ==> (#[trigger] results@[i]).end_jd_micros == runs[i
                    + 1][2].jd_micros,
            forall|i: int|
                0 <= i < idx ==> {
                    &&& (#[trigger] results@[i]).year == start_year + i
                    &&& results@[i].pillar.stem == year_pillar_at(start_year + i).0
                    &&& results@[i].pillar.branch == year_pillar_at(start_year + i).1
                    &&& results@[i].pillar.wf()
                    &&& jd_micros_of_utc(start_year + i, 1, 1, 0, 0, 0)
                        <= results@[i].start_jd_micros < jd_micros_of_utc(
                        start_year + i + 1,
                        1,
                        1,
                        0,
                        0,
                        0,
                    )
                    &&& results@[i].start_jd_micros < results@[i].end_jd_micros
                },
            forall|i: int|
                0 <= i < idx - 1 ==> (#[trigger] results@[i]).end_jd_micros == results@[i
                    + 1].start_jd_micros,
        decreases count - idx,
    {
        let year: i32 = start_year + idx as i32;
        let terms_next = compute_solar_terms(year + 1);
        let lichun_next: i64 = terms_next[LICHUN_IDX].jd_micros;
        let (year_stem, year_branch) = year_pillar(year);
        results.push(
            YearLuck {
                year,
                start_jd_micros: lichun_curr,
                end_jd_micros: lichun_next,
                pillar: Pillar { stem: year_stem, branch: year_branch },
            },
        );
        proof {
            runs = runs.push(terms_next@);
        }
        lichun_curr = lichun_next;
        idx = idx + 1;
    }
    proof {
        assert(runs.len() == count + 1);
    }
    Ok(results)
}

/// Monthly luck of a year, over well-formed term runs of that year and the
/// next: the thirteen month-defining terms from Lichun of the year through
/// Lichun of the next bound twelve chained intervals, whose branches step
/// from 2 (the Lichun month) around the cycle; each carries the pillar with
/// the month stem derived from the year stem.
pub fn monthly_luck_from_terms(
    year: i32,
    terms_curr: &Vec<SolarTerm>,
    terms_next: &Vec<SolarTerm>,
) -> (r: Result<MonthlyLuck, String>)
    requires
        -2_000_000 <= year <= 2_000_000,
        terms_of_year_wf(terms_curr@, year as int),
        terms_of_year_wf(terms_next@, year as int + 1),
    ensures
        r is Ok,
        ({
            let m = r->Ok_0;
            &&& m.year == year
            &&& m.year_pillar.stem == year_pillar_at(year as int).0
            &&& m.year_pillar.branch == year_pillar_at(year as int).1
            &&& m.year_pillar.wf()
            &&& m.months@.len() == 12
            &&& forall|i: int|
                0 <= i < 12 ==> {
                    &&& (#[trigger] m.months@[i]).branch == (2 + i) % 12
                    &&& m.months@[i].pillar.branch == m.months@[i].branch
                    &&& m.months@[i].pillar.stem == (year_pillar_at(year as int).0 * 2
                        + m.months@[i].branch) % 10
                    &&& m.months@[i].start_jd_micros < m.months@[i].end_jd_micros
                }
            &&& forall|i: int|
                0 <= i < 11 ==> (#[trigger] m.months@[i]).start_jd_micros == terms_curr@[2 + 2
                    * i].jd_micros
            &&& m.months@[11].start_jd_micros == terms_next@[0].jd_micros
            &&& m.months@[11].end_jd_micros == terms_next@[2].jd_micros
            &&& forall|i: int|
                0 <= i < 11 ==> (#[trigger] m.months@[i]).end_jd_micros == m.months@[i
                    + 1].start_jd_micros
        }),
{
    let lichun_curr: i64 = terms_curr[LICHUN_IDX].jd_micros;
    let lichun_next: i64 = terms_next[LICHUN_IDX].jd_micros;

    // Month-defining terms of the two years inside the Lichun-to-Lichun
    // window.  The run invariant makes these exactly the even table
    // positions from Lichun of `year` through Lichun of the next year,
    // already in instant order: thirteen boundaries.
    let mut boundaries: Vec<SolarTerm> = Vec::new();
    let mut k: usize = 0;
    while k < terms_curr.len()
        invariant
            terms_of_year_wf(terms_curr@, year as int),
            terms_of_year_wf(terms_next@, year as int + 1),
            lichun_curr == terms_curr@[2].jd_micros,
            lichun_next == terms_next@[2].jd_micros,
            k <= 24,
            boundaries@.len() == (if k <= 2 {
                0int
            } else {
                (k - 1) / 2
            }),
            forall|j: int|
                0 <= j < boundaries@.len() ==> #[trigger] boundaries@[j] == terms_curr@[2 + 2
                    * j],
        decreases terms_curr@.len() - k,
    {
        let t = terms_curr[k];
        if month_branch_from_term_index(t.def_idx).is_some() && t.jd_micros >= lichun_curr
            && t.jd_micros <= lichun_next {
            proof {
                assert(t.def_idx == k);
                assert(k % 2 == 0 && k >= 2);
                assert(2 + 2 * ((k - 1) / 2) == k) by {
                    assert(k % 2 == 0);
                    assert((k - 1) / 2 == (k - 2) / 2);
                };
            }
            boundaries.push(t);
        } else {
            proof {
                if k % 2 == 0 && 0 <= k < 24 {
                    assert(month_branch_of_term_at(k as int) is Some);
                    if k >= 2 {
                        assert(terms_curr@[k as int].jd_micros >= terms_curr@[2].jd_micros);
                        assert(terms_curr@[k as int].jd_micros < jd_micros_of_utc(
                            year as int + 1,
                            1,
                            1,
                            0,
                            0,
                            0,
                        ));
                        assert(terms_next@[2].jd_micros >= jd_micros_of_utc(
                            year as int + 1,
                            1,
                            1,
                            0,
                            0,
                            0,
                        ));
                        assert(false);
                    }
                }
            }
        }
        k = k + 1;
    }
    let mut k2: usize = 0;
    while k2 < terms_next.len()
        invariant
            terms_of_year_wf(terms_curr@, year as int),
            terms_of_year_wf(terms_next@, year as int + 1),
            lichun_curr == terms_curr@[2].jd_micros,
            lichun_next == terms_next@[2].jd_micros,
            k2 <= 24,
            boundaries@.len() == 11 + (if k2 == 0 {
                0int
            } else if k2 <= 2 {
                1int
            } else {
                2int
            }),
            forall|j: int| 0 <= j < 11 ==> #[trigger] boundaries@[j] == terms_curr@[2 + 2 * j],
            boundaries@.len() > 11 ==> boundaries@[11] == terms_next@[0],
            boundaries@.len() > 12 ==> boundaries@[12] == terms_next@[2],
        decreases terms_next@.len() - k2,
    {
        let t = terms_next[k2];
        if month_branch_from_term_index(t.def_idx).is_some() && t.jd_micros >= lichun_curr
            && t.jd_micros <= lichun_next {
            proof {
                assert(t.def_idx == k2);
                assert(k2 % 2 == 0 && k2 <= 2);
                assert(terms_curr@[2].jd_micros < jd_micros_of_utc(year as int + 1, 1, 1, 0, 0, 0));
            }
            boundaries.push(t);
        } else {
            proof {
                if k2 % 2 == 0 && k2 < 24 && k2 <= 2 {
                    assert(terms_next@[k2 as int].jd_micros >= jd_micros_of_utc(
                        year as int + 1,
                        1,
                        1,
                        0,
                        0,
                        0,
                    ));
                    assert(terms_curr@[2].jd_micros < jd_micros_of_utc(
                        year as int + 1,
                        1,
                        1,
                        0,
                        0,
                        0,
                    ));
                    if k2 == 0 {
                        assert(terms_next@[0].jd_micros < terms_next@[2].jd_micros);
                    }
                    assert(false);
                }
            }
        }
        k2 = k2 + 1;
    }

    let (year_stem, year_branch) = year_pillar(year);
    let mut months: Vec<MonthLuck> = Vec::new();
    let mut i: usize = 0;
    while i < 12
        invariant
            terms_of_year_wf(terms_curr@, year as int),
            terms_of_year_wf(terms_next@, year as int + 1),
            year_stem == year_pillar_at(year as int).0,
            year_branch == year_pillar_at(year as int).1,
            year_stem < 10 && year_branch < 12,
            boundaries@.len() == 13,
            forall|j: int| 0 <= j < 11 ==> #[trigger] boundaries@[j] == terms_curr@[2 + 2 * j],
            boundaries@[11] == terms_next@[0],
            boundaries@[12] == terms_next@[2],
            i <= 12,
            months@.len() == i,
            forall|j: int|
                0 <= j < i ==> {
                    &&& (#[trigger] months@[j]).branch == (2 + j) % 12
                    &&& months@[j].pillar.branch == months@[j].branch
                    &&& months@[j].pillar.stem == (year_pillar_at(year as int).0 * 2
                        + months@[j].branch) % 10
                    &&& months@[j].start_jd_micros == boundaries@[j].jd_micros
                    &&& months@[j].end_jd_micros == boundaries@[j + 1].jd_micros
                    &&& months@[j].start_jd_micros < months@[j].end_jd_micros
                },
        decreases 12 - i,
    {
        let start_t: SolarTerm = boundaries[i];
        let end_t: SolarTerm = boundaries[i + 1];
        proof {
            if i < 10 {
                assert(boundaries@[i as int] == terms_curr@[2 + 2 * i]);
                assert(boundaries@[i + 1] == terms_curr@[2 + 2 * (i + 1)]);
                assert(terms_curr@[2 + 2 * i].jd_micros < terms_curr@[2 + 2 * (i + 1)].jd_micros);
            } else if i == 10 {
                assert(terms_curr@[22].jd_micros < jd_micros_of_utc(year as int + 1, 1, 1, 0, 0, 0));
                assert(terms_next@[0].jd_micros >= jd_micros_of_utc(year as int + 1, 1, 1, 0, 0, 0));
            } else {
                assert(terms_next@[0].jd_micros < terms_next@[2].jd_micros);
            }
        }
        let branch: usize = match month_branch_from_term_index(start_t.def_idx) {
            Option::Some(b) => b,
            Option::None => {
                proof {
                    if i < 11 {
                        assert(start_t.def_idx == 2 + 2 * i);
                        assert((2 + 2 * i) % 2 == 0);
                    } else {
                        assert(start_t.def_idx == 0);
                    }
                }
                return Err(String::from_str("invalid month boundary for monthly luck"));
            },
        };
        proof {
            if i < 11 {
                assert(start_t.def_idx == 2 + 2 * i);
                assert((2 + 2 * i) / 2 == 1 + i);
                assert(branch == ((1 + i) + 1) % 12);
            } else {
                assert(start_t.def_idx == 0);
                assert(branch == 1);
                assert((2 + 11) % 12 == 1);
            }
        }
        let stem: usize = month_stem_from_year(year_stem, branch);
        months.push(
            MonthLuck {
                start_jd_micros: start_t.jd_micros,
                end_jd_micros: end_t.jd_micros,
                pillar: Pillar { stem, branch },
                branch,
            },
        );
        i = i + 1;
    }

    Ok(
        MonthlyLuck {
            year,
            year_pillar: Pillar { stem: year_stem, branch: year_branch },
            months,
        },
    )
}

/// Monthly luck of a year, from freshly computed solar terms: twelve
/// chained intervals whose branches step from 2 (the Lichun month) around
/// the cycle, the first starting at Lichun of the year, the last ending at
/// Lichun of the next; each pillar's stem follows the month-stem formula
/// for the year's stem.
pub fn monthly_luck(year: i32) -> (r: Result<MonthlyLuck, String>)
    requires
        -4712 <= year <= 9997,
    ensures
        r is Ok,
        ({
            let m = r->Ok_0;
            &&& m.year == year
            &&& m.year_pillar.stem == year_pillar_at(year as int).0
            &&& m.year_pillar.branch == year_pillar_at(year as int).1
            &&& m.year_pillar.wf()
            &&& m.months@.len() == 12
            &&& forall|i: int|
                0 <= i < 12 ==> {
                    &&& (#[trigger] m.months@[i]).branch == (2 + i) % 12
                    &&& m.months@[i].pillar.branch == m.months@[i].branch
                    &&& m.months@[i].pillar.stem == (year_pillar_at(year as int).0 * 2
                        + m.months@[i].branch) % 10
                    &&& m.months@[i].start_jd_micros < m.months@[i].end_jd_micros
                }
            &&& forall|i: int|
                0 <= i < 11 ==> (#[trigger] m.months@[i]).end_jd_micros == m.months@[i
                    + 1].start_jd_micros
            &&& jd_micros_of_utc(year as int, 1, 1, 0, 0, 0) <= m.months@[0].start_jd_micros
            &&& m.months@[11].end_jd_micros < jd_micros_of_utc(year as int + 2, 1, 1, 0, 0, 0)
            &&& exists|tc: Seq<SolarTerm>, tn: Seq<SolarTerm>|
                {
                    &&& #[trigger] terms_of_year_wf(tc, year as int)
                    &&& #[trigger] terms_of_year_wf(tn, year as int + 1)
                    &&& (forall|i: int|
                        0 <= i < 11 ==> (#[trigger] m.months@[i]).start_jd_micros == tc[2 + 2
                            * i].jd_micros)
                    &&& m.months@[11].start_jd_micros == tn[0].jd_micros
                    &&& m.months@[11].end_jd_micros == tn[2].jd_micros
                }
        }),
{
    let terms_curr = compute_solar_terms(year);
    let terms_next = compute_solar_terms(year + 1);
    let r = monthly_luck_from_terms(year, &terms_curr, &terms_next);
    proof {
        assert(terms_of_year_wf(terms_curr@, year as int));
        assert(terms_of_year_wf(terms_next@, year as int + 1));
    }
    r
}

} // verus!
