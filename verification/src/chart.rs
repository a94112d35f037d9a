use vstd::prelude::*;
use vstd::string::StringExecFns;

use crate::astro::{compute_solar_terms, jd_micros_of_utc, terms_of_year_wf, LICHUN_IDX};
use crate::bazi::{
    assess_strength, day_pillar_at, day_pillar_from_jdn, hour_branch_index, hour_stem_from_day,
    is_month_boundary, jdn_at, jdn_from_date, month_branch_for_birth, month_branch_of,
    month_stem_from_year, strength_result_at, year_pillar, year_pillar_at, StrengthResult,
};
use crate::luck::{
    build_daewon_items, build_daewon_pillars, daewon_direction, daewon_direction_at,
    daewon_onset_at, daewon_start_months, daewon_step, DaewonItem,
};
use crate::types::{CivilDateTime, Direction, Gender, Pillar, SolarTerm};

verus! {

/// The four pillars of a chart.
#[derive(Clone, Copy, Debug, PartialEq, Eq, Structural)]
pub struct FourPillars {
    pub year: Pillar,
    pub month: Pillar,
    pub day: Pillar,
    pub hour: Pillar,
}

impl FourPillars {
    pub open spec fn wf(self) -> bool {
        self.year.wf() && self.month.wf() && self.day.wf() && self.hour.wf()
    }
}

/// The Julian Day Number whose day pillar a local wall clock gets: the
/// calendar day itself, or the next one from 23:00 on.
pub open spec fn day_pillar_jdn_at(local: CivilDateTime) -> int {
    jdn_at(local.year as int, local.month as int, local.day as int) + (if local.hour >= 23 {
        1int
    } else {
        0int
    })
}

/// The hour branch of a local wall clock.
pub open spec fn hour_branch_at(local: CivilDateTime) -> int {
    ((local.hour * 60 + local.minute + 60) / 120) % 12
}

/// What assembling the four pillars from two years' term lists says of its
/// result: the year pillar belongs to the local year when the birth is at
/// or after the first Lichun of the current-year list, else to the year
/// before; the month branch comes from the last month-defining term of the
/// combined lists at or before the birth (on equal instants, the later
/// entry); the day pillar follows the 23:00-shifted Julian Day Number, and
/// the hour pillar the two-hour windows with the hour-stem formula.
pub open spec fn pillars_assembled(
    p: FourPillars,
    local: CivilDateTime,
    birth_jd_micros: int,
    tp: Seq<SolarTerm>,
    tc: Seq<SolarTerm>,
) -> bool {
    let all = tp + tc;
    &&& p.wf()
    &&& exists|i: int|
        {
            &&& 0 <= i < tc.len()
            &&& (#[trigger] tc[i]).def_idx == 2
            &&& forall|j: int| 0 <= j < i ==> (#[trigger] tc[j]).def_idx != 2
            &&& {
                let py = if birth_jd_micros >= tc[i].jd_micros {
                    local.year as int
                } else {
                    local.year - 1
                };
                p.year.stem == year_pillar_at(py).0 && p.year.branch == year_pillar_at(py).1
            }
        }
    &&& exists|i: int|
        {
            &&& 0 <= i < all.len()
            &&& is_month_boundary(#[trigger] all[i])
            &&& all[i].jd_micros <= birth_jd_micros
            &&& p.month.branch == month_branch_of(all[i])
            &&& forall|j: int|
                0 <= j < all.len() && is_month_boundary(#[trigger] all[j]) && all[j].jd_micros
                    <= birth_jd_micros ==> (all[j].jd_micros < all[i].jd_micros || (
                all[j].jd_micros == all[i].jd_micros && j <= i))
        }
    &&& p.month.stem == (p.year.stem * 2 + p.month.branch) % 10
    &&& p.day.stem == day_pillar_at(day_pillar_jdn_at(local)).0
    &&& p.day.branch == day_pillar_at(day_pillar_jdn_at(local)).1
    &&& p.hour.branch == hour_branch_at(local)
    &&& p.hour.stem == (p.day.stem * 2 + p.hour.branch) % 10
}

/// Assemble the four pillars of a birth.
///
/// `local` is the corrected local wall clock, `birth_jd_micros` the birth
/// instant on the Julian-Date axis; the term lists are those of the local
/// year and the year before.  The year pillar belongs to the local year
/// when the birth is at or after that year's Lichun, else to the year
/// before; the month branch comes from the last month-defining term at or
/// before the birth; the day changes calendars at 23:00; the hour branch
/// follows the two-hour windows.
pub fn assemble_pillars(
    local: CivilDateTime,
    birth_jd_micros: i64,
    terms_prev: &Vec<SolarTerm>,
    terms_curr: &Vec<SolarTerm>,
) -> (r: Result<FourPillars, String>)
    requires
        local.wf(),
        -4712 <= local.year,
    ensures
        ({
            let all = terms_prev@ + terms_curr@;
            let lichun_found = exists|i: int|
                0 <= i < terms_curr@.len() && (#[trigger] terms_curr@[i]).def_idx == 2;
            let month_found = exists|i: int|
                0 <= i < all.len() && is_month_boundary(#[trigger] all[i]) && all[i].jd_micros
                    <= birth_jd_micros;
            &&& (r is Ok <==> lichun_found && month_found)
            &&& (!lichun_found ==> r is Err && r->Err_0@ == "failed to find lichun term"@)
            &&& (lichun_found && !month_found ==> r is Err && r->Err_0@
                == "failed to determine month boundary"@)
            &&& (r is Ok ==> pillars_assembled(
                r->Ok_0,
                local,
                birth_jd_micros as int,
                terms_prev@,
                terms_curr@,
            ))
        }),
{
    let lichun_jd: i64 = match crate::luck::find_term_jd(terms_curr, LICHUN_IDX) {
        Option::Some(jd) => jd,
        Option::None => {
            return Err(String::from_str("failed to find lichun term"));
        },
    };
    let year_for_pillar: i32 = if birth_jd_micros >= lichun_jd {
        local.year
    } else {
        local.year - 1
    };
    let (year_stem, year_branch) = year_pillar(year_for_pillar);

    let month_branch: usize = match month_branch_for_birth(
        birth_jd_micros,
        terms_prev,
        terms_curr,
    ) {
        Result::Ok(b) => b,
        Result::Err(e) => {
            return Err(e);
        },
    };
    let month_stem: usize = month_stem_from_year(year_stem, month_branch);

    let day_shift: i64 = if local.hour >= 23 {
        1
    } else {
        0
    };
    let jdn: i64 = jdn_from_date(local.year, local.month as u32, local.day as u32) + day_shift;
    let (day_stem, day_branch) = day_pillar_from_jdn(jdn);

    let hour_branch: usize = hour_branch_index(local.hour as u32, local.minute as u32);
    let hour_stem: usize = hour_stem_from_day(day_stem, hour_branch);

    Ok(
        FourPillars {
            year: Pillar { stem: year_stem, branch: year_branch },
            month: Pillar { stem: month_stem, branch: month_branch },
            day: Pillar { stem: day_stem, branch: day_branch },
            hour: Pillar { stem: hour_stem, branch: hour_branch },
        },
    )
}

/// A computed chart: the four pillars, the day-master strength, and the
/// decennial luck.
#[derive(Clone, Debug)]
pub struct Chart {
    pub pillars: FourPillars,
    pub strength: StrengthResult,
    pub direction: Direction,
    pub start_months: i32,
    pub daewon: Vec<DaewonItem>,
}

/// Compute a full chart from a corrected local wall clock and its UTC
/// birth instant: solar terms of the surrounding years, the four pillars,
/// the day-master strength, and the decennial luck run.  A birth instant
/// inside the local calendar year always succeeds; the pillars then
/// satisfy the assembly rules against well-formed term runs of the local
/// year and the year before, and the strength is the assessment of those
/// four pillars.
pub fn compute_chart(
    local: CivilDateTime,
    birth_jd_micros: i64,
    gender: Gender,
    daewon_count: usize,
) -> (r: Result<Chart, String>)
    requires
        local.wf(),
        -4711 <= local.year <= 9997,
        -470_000_000_000_000_000 <= birth_jd_micros <= 470_000_000_000_000_000,
        daewon_count <= 1_000_000,
    ensures
        r is Err ==> (r->Err_0@ == "failed to find lichun term"@ || r->Err_0@
            == "failed to determine month boundary"@ || r->Err_0@
            == "failed to find solar term for daewon start"@),
        jd_micros_of_utc(local.year as int, 1, 1, 0, 0, 0) <= birth_jd_micros
            < jd_micros_of_utc(local.year as int + 1, 1, 1, 0, 0, 0) ==> r is Ok,
        r is Ok ==> {
            let c = r->Ok_0;
            &&& c.pillars.wf()
            &&& exists|tp: Seq<SolarTerm>, tc: Seq<SolarTerm>, tn: Seq<SolarTerm>|
                {
                    &&& #[trigger] terms_of_year_wf(tp, local.year - 1)
                    &&& #[trigger] terms_of_year_wf(tc, local.year as int)
                    &&& #[trigger] terms_of_year_wf(tn, local.year + 1)
                    &&& pillars_assembled(c.pillars, local, birth_jd_micros as int, tp, tc)
                    &&& daewon_onset_at(
                        Some(c.start_months),
                        birth_jd_micros as int,
                        tp + tc + tn,
                        c.direction,
                    )
                }
            &&& strength_result_at(
                c.pillars.day.stem as int,
                seq![c.pillars.year, c.pillars.month, c.pillars.day, c.pillars.hour],
                c.strength,
            )
            &&& c.pillars.day.stem == day_pillar_at(day_pillar_jdn_at(local)).0
            &&& c.pillars.day.branch == day_pillar_at(day_pillar_jdn_at(local)).1
            &&& c.pillars.hour.branch == hour_branch_at(local)
            &&& c.pillars.hour.stem == (c.pillars.day.stem * 2 + c.pillars.hour.branch) % 10
            &&& c.pillars.month.stem == (c.pillars.year.stem * 2 + c.pillars.month.branch) % 10
            &&& c.direction == daewon_direction_at(gender, c.pillars.year.stem as int)
            &&& c.daewon@.len() == daewon_count
            &&& (daewon_count > 0 ==> c.daewon@[0].pillar == daewon_step(
                c.pillars.month,
                c.direction,
            ))
            &&& forall|i: int|
                0 < i < daewon_count ==> (#[trigger] c.daewon@[i]).pillar == daewon_step(
                    c.daewon@[i - 1].pillar,
                    c.direction,
                )
            &&& forall|i: int|
                0 <= i < daewon_count ==> (#[trigger] c.daewon@[i]).start_months
                    == c.start_months + 120 * i
        },
{
    let ghost in_year = jd_micros_of_utc(local.year as int, 1, 1, 0, 0, 0) <= birth_jd_micros
        < jd_micros_of_utc(local.year as int + 1, 1, 1, 0, 0, 0);
    let terms_prev = compute_solar_terms(local.year - 1);
    let terms_curr = compute_solar_terms(local.year);
    let terms_next = compute_solar_terms(local.year + 1);
    proof {
        crate::astro::lemma_jdn_range(local.year - 1, 1, 1);
        crate::astro::lemma_jdn_range(local.year as int, 1, 1);
        crate::astro::lemma_jdn_range(local.year + 1, 1, 1);
        crate::astro::lemma_jdn_range(local.year + 2, 1, 1);
    }

    let pillars: FourPillars = match assemble_pillars(
        local,
        birth_jd_micros,
        &terms_prev,
        &terms_curr,
    ) {
        Result::Ok(p) => p,
        Result::Err(e) => {
            proof {
                if in_year {
                    let all = terms_prev@ + terms_curr@;
                    assert(terms_curr@[2].def_idx == 2);
                    assert(all[0] == terms_prev@[0]);
                    assert(terms_prev@[0].def_idx == 0);
                    assert(is_month_boundary(all[0]));
                    assert(terms_prev@[0].jd_micros < jd_micros_of_utc(
                        (local.year - 1) + 1,
                        1,
                        1,
                        0,
                        0,
                        0,
                    ));
                    assert(all[0].jd_micros <= birth_jd_micros);
                    assert(false);
                }
            }
            return Err(e);
        },
    };

    let direction = daewon_direction(gender, pillars.year.stem);
    let start_months: i32 = match daewon_start_months(
        birth_jd_micros,
        &terms_prev,
        &terms_curr,
        &terms_next,
        direction,
    ) {
        Option::Some(m) => m,
        Option::None => {
            proof {
                if in_year {
                    let all3 = terms_prev@ + terms_curr@ + terms_next@;
                    assert(all3[48] == terms_next@[0]);
                    assert(all3[0] == terms_prev@[0]);
                    assert(terms_next@[0].def_idx == 0);
                    assert(terms_prev@[0].def_idx == 0);
                    assert(is_month_boundary(all3[48]));
                    assert(is_month_boundary(all3[0]));
                    assert(terms_next@[0].jd_micros >= jd_micros_of_utc(
                        local.year as int + 1,
                        1,
                        1,
                        0,
                        0,
                        0,
                    ));
                    assert(terms_prev@[0].jd_micros < jd_micros_of_utc(
                        (local.year - 1) + 1,
                        1,
                        1,
                        0,
                        0,
                        0,
                    ));
                    assert(false);
                }
            }
            return Err(String::from_str("failed to find solar term for daewon start"));
        },
    };
    let daewon_pillars = build_daewon_pillars(pillars.month, direction, daewon_count);
    let daewon = build_daewon_items(start_months, &daewon_pillars);

    let four: [Pillar; 4] = [pillars.year, pillars.month, pillars.day, pillars.hour];
    let strength: StrengthResult = assess_strength(pillars.day.stem, four);
    proof {
        assert(four@ =~= seq![pillars.year, pillars.month, pillars.day, pillars.hour]);
        assert(terms_of_year_wf(terms_prev@, local.year - 1));
        assert(terms_of_year_wf(terms_curr@, local.year as int));
        assert(terms_of_year_wf(terms_next@, local.year + 1));
        assert(pillars_assembled(
            pillars,
            local,
            birth_jd_micros as int,
            terms_prev@,
            terms_curr@,
        ));
        assert(daewon_onset_at(
            Some(start_months),
            birth_jd_micros as int,
            terms_prev@ + terms_curr@ + terms_next@,
            direction,
        ));
    }

    Ok(Chart { pillars, strength, direction, start_months, daewon })
}

} // verus!
