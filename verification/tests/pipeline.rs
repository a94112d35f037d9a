use chrono::Timelike;
use saju::astro;
use saju::bazi;
use saju::chart;
use saju::luck;
use saju::tz::{localize, resolve_local_offset, LocalizedOffset, TzSpec};
use saju::{CivilDateTime, Direction, Gender, Pillar, StrengthVerdict};

fn seoul() -> TzSpec {
    TzSpec::Named(chrono_tz::Tz::Asia__Seoul)
}

fn civil(year: i32, month: u8, day: u8, hour: u8, minute: u8) -> CivilDateTime {
    CivilDateTime {
        year,
        month,
        day,
        hour,
        minute,
        second: 0,
    }
}

fn chart_for(local: CivilDateTime, gender: Gender) -> chart::Chart {
    let (_offset, unix) = localize(&seoul(), local).unwrap();
    let birth_jd = astro::jd_from_datetime(unix);
    chart::compute_chart(local, birth_jd, gender, 10).unwrap()
}

#[test]
fn seoul_is_plus_nine_in_1990() {
    let (offset, unix) = localize(&seoul(), civil(1990, 5, 15, 10, 30)).unwrap();
    assert_eq!(offset, 32400);
    // 10:30 KST is 01:30 UTC.
    let utc = chrono::DateTime::from_timestamp(unix / 1_000_000, 0).unwrap();
    assert_eq!((utc.hour(), utc.minute()), (1, 30));
}

#[test]
fn chart_of_spring_1990() {
    // 1990-05-15 10:30 Asia/Seoul, male.  Year Geng-Wu; month branch Si
    // with the stem the month-stem formula assigns; day from the JDN;
    // hour branch Si.
    let c = chart_for(civil(1990, 5, 15, 10, 30), Gender::Male);
    assert_eq!(c.pillars.year, Pillar { stem: 6, branch: 6 });
    assert_eq!(c.pillars.month, Pillar { stem: 7, branch: 5 });
    assert_eq!(c.pillars.day, Pillar { stem: 6, branch: 4 });
    assert_eq!(c.pillars.hour, Pillar { stem: 7, branch: 5 });
    // Day master Geng backed by four Metal stems and two rooted
    // branches: the simple score lands well above the strong threshold.
    assert!(matches!(c.strength.verdict, StrengthVerdict::Strong));
    assert_eq!(c.strength.support_stems, 4);
    assert_eq!(c.strength.root_count, 2);
    // Male with a yang year stem runs forward.
    assert!(matches!(c.direction, Direction::Forward));
    assert_eq!(c.daewon.len(), 10);
    // Forward from the month pillar: stems and branches advance together.
    assert_eq!(c.daewon[0].pillar, Pillar { stem: 8, branch: 6 });
    assert_eq!(c.daewon[1].pillar, Pillar { stem: 9, branch: 7 });
    for i in 0..10 {
        assert_eq!(
            c.daewon[i].start_months,
            c.start_months + 120 * i as i32
        );
    }
}

#[test]
fn lichun_day_boundary_after_eleven_pm() {
    // 2000-02-04 23:30: past Lichun 2000, so the year pillar is that of
    // 2000; past 23:00, so the day pillar belongs to the next calendar
    // day.
    let c = chart_for(civil(2000, 2, 4, 23, 30), Gender::Male);
    assert_eq!(c.pillars.year, Pillar { stem: 6, branch: 4 });
    let jdn_next = bazi::jdn_from_date(2000, 2, 5);
    let (ds, db) = bazi::day_pillar_from_jdn(jdn_next);
    assert_eq!(c.pillars.day, Pillar { stem: ds, branch: db });
    // 23:30 falls in the Rat window.
    assert_eq!(c.pillars.hour.branch, 0);
}

#[test]
fn just_before_lichun_keeps_previous_year() {
    // 2000-02-03 20:00 precedes Lichun 2000: the year pillar equals that
    // of 1999.
    let c = chart_for(civil(2000, 2, 3, 20, 0), Gender::Male);
    assert_eq!(c.pillars.year, Pillar { stem: 5, branch: 3 });
    let (ys, yb) = bazi::year_pillar(1999);
    assert_eq!(c.pillars.year, Pillar { stem: ys, branch: yb });
}

#[test]
fn local_mean_time_correction_for_seoul_longitude() {
    // Longitude 126.978 under the +09:00 offset: the standard meridian is
    // 135 degrees and the correction is about -32 minutes.
    let (std_meridian_micro, correction) = saju::location::lmt_correction(126_978_000, 32400);
    assert_eq!(std_meridian_micro, 135_000_000);
    assert_eq!(correction, -1925);
    // Applying it to 12:00:00 gives 11:27:55.
    let total = 12 * 3600 + correction;
    assert_eq!(
        (total / 3600, total % 3600 / 60, total % 60),
        (11, 27, 55)
    );
}

#[test]
fn daewon_direction_table() {
    // Forward iff (male and yang year stem) or (female and yin).
    assert!(matches!(
        luck::daewon_direction(Gender::Male, 6),
        Direction::Forward
    ));
    assert!(matches!(
        luck::daewon_direction(Gender::Male, 5),
        Direction::Backward
    ));
    assert!(matches!(
        luck::daewon_direction(Gender::Female, 6),
        Direction::Backward
    ));
    assert!(matches!(
        luck::daewon_direction(Gender::Female, 5),
        Direction::Forward
    ));
}

#[test]
fn daewon_pillars_walk_both_ways() {
    let month = Pillar { stem: 7, branch: 5 };
    let fwd = luck::build_daewon_pillars(month, Direction::Forward, 3);
    assert_eq!(fwd[0], Pillar { stem: 8, branch: 6 });
    assert_eq!(fwd[1], Pillar { stem: 9, branch: 7 });
    assert_eq!(fwd[2], Pillar { stem: 0, branch: 8 });
    let bwd = luck::build_daewon_pillars(month, Direction::Backward, 3);
    assert_eq!(bwd[0], Pillar { stem: 6, branch: 4 });
    assert_eq!(bwd[1], Pillar { stem: 5, branch: 3 });
    assert_eq!(bwd[2], Pillar { stem: 4, branch: 2 });
    // Wrap through zero.
    let wrap = luck::build_daewon_pillars(Pillar { stem: 0, branch: 0 }, Direction::Backward, 1);
    assert_eq!(wrap[0], Pillar { stem: 9, branch: 11 });
}

#[test]
fn daewon_items_step_by_decade() {
    let pillars = vec![
        Pillar { stem: 1, branch: 1 },
        Pillar { stem: 2, branch: 2 },
    ];
    let items = luck::build_daewon_items(7, &pillars);
    assert_eq!(items.len(), 2);
    assert_eq!(items[0].start_months, 7);
    assert_eq!(items[1].start_months, 127);
    assert_eq!(items[1].pillar, Pillar { stem: 2, branch: 2 });
}

#[test]
fn daewon_start_months_nearest_term() {
    let terms_prev = saju::astro::compute_solar_terms(1989);
    let terms_curr = saju::astro::compute_solar_terms(1990);
    let terms_next = saju::astro::compute_solar_terms(1991);
    // Birth just after a month-defining term: forward onset counts to the
    // next month-defining term, two table positions on.
    let birth = terms_curr[8].jd_micros + 1_000_000;
    let fwd = luck::daewon_start_months(
        birth,
        &terms_prev,
        &terms_curr,
        &terms_next,
        Direction::Forward,
    )
    .unwrap();
    let delta = terms_curr[10].jd_micros - birth;
    assert_eq!(fwd as i64, (8 * delta + 86_400_000_000) / 172_800_000_000);
    let bwd = luck::daewon_start_months(
        birth,
        &terms_prev,
        &terms_curr,
        &terms_next,
        Direction::Backward,
    )
    .unwrap();
    assert_eq!(bwd, 0); // one microsecond past the term rounds to zero
}

#[test]
fn daewon_start_skips_minor_terms() {
    // A birth just before a minor (odd-position) term counts its forward
    // onset to the next month-defining term, not to the minor term a
    // moment ahead; backward it reaches past the minor terms too.
    let terms_prev = saju::astro::compute_solar_terms(1989);
    let terms_curr = saju::astro::compute_solar_terms(1990);
    let terms_next = saju::astro::compute_solar_terms(1991);
    let birth = terms_curr[9].jd_micros - 1_000_000;
    let fwd = luck::daewon_start_months(
        birth,
        &terms_prev,
        &terms_curr,
        &terms_next,
        Direction::Forward,
    )
    .unwrap();
    let delta = terms_curr[10].jd_micros - birth;
    assert_eq!(fwd as i64, (8 * delta + 86_400_000_000) / 172_800_000_000);
    let bwd = luck::daewon_start_months(
        birth,
        &terms_prev,
        &terms_curr,
        &terms_next,
        Direction::Backward,
    )
    .unwrap();
    let delta_b = birth - terms_curr[8].jd_micros;
    assert_eq!(bwd as i64, (8 * delta_b + 86_400_000_000) / 172_800_000_000);
}

#[test]
fn yearly_luck_intervals() {
    let years = luck::yearly_luck(2020, 5).unwrap();
    assert_eq!(years.len(), 5);
    for (i, y) in years.iter().enumerate() {
        assert_eq!(y.year, 2020 + i as i32);
        let (ys, yb) = bazi::year_pillar(y.year);
        assert_eq!(y.pillar, Pillar { stem: ys, branch: yb });
        assert!(y.start_jd_micros < y.end_jd_micros);
        // Each interval is anchored at the engine's Lichun instants.
        let lichun = astro::compute_solar_terms(y.year)[2].jd_micros;
        let lichun_next = astro::compute_solar_terms(y.year + 1)[2].jd_micros;
        assert_eq!(y.start_jd_micros, lichun);
        assert_eq!(y.end_jd_micros, lichun_next);
    }
    // Consecutive years chain at Lichun.
    for i in 0..4 {
        assert_eq!(years[i].end_jd_micros, years[i + 1].start_jd_micros);
    }
}

#[test]
fn monthly_luck_of_2024() {
    // Twelve intervals; the boundaries are the 2024 instants of the
    // month-defining terms from Lichun 2024 through Xiaohan 2025; each
    // stem follows the month-stem formula for the 2024 year stem.
    let ml = luck::monthly_luck(2024).unwrap();
    assert_eq!(ml.year, 2024);
    let (ys, yb) = bazi::year_pillar(2024);
    assert_eq!(ml.year_pillar, Pillar { stem: ys, branch: yb });
    assert_eq!(ml.months.len(), 12);

    let t24 = astro::compute_solar_terms(2024);
    let t25 = astro::compute_solar_terms(2025);
    // The twelve starts: Lichun..Daxue of 2024, then Xiaohan 2025 closes
    // the last interval.
    let mut expected_starts: Vec<i64> = Vec::new();
    for t in t24.iter() {
        if t.def_idx >= 2 && t.def_idx % 2 == 0 {
            expected_starts.push(t.jd_micros);
        }
    }
    let xiaohan25 = t25.iter().find(|t| t.def_idx == 0).unwrap().jd_micros;
    let lichun25 = t25.iter().find(|t| t.def_idx == 2).unwrap().jd_micros;
    expected_starts.push(xiaohan25);
    expected_starts.push(lichun25);
    assert_eq!(expected_starts.len(), 13);

    assert_eq!(ml.months[0].branch, 2);
    for (i, m) in ml.months.iter().enumerate() {
        assert_eq!(m.start_jd_micros, expected_starts[i]);
        assert_eq!(m.end_jd_micros, expected_starts[i + 1]);
        assert_eq!(m.pillar.branch, m.branch);
        assert_eq!(m.pillar.stem, bazi::month_stem_from_year(ys, m.branch));
        assert_eq!(m.branch, (2 + i) % 12);
    }
}

#[test]
fn monthly_luck_boundaries_chain_every_year() {
    // The boundary set always cuts to thirteen instants: twelve chained
    // intervals starting at Lichun.
    for year in [1900, 1987, 2000, 2024, 2100] {
        let ml = luck::monthly_luck(year).unwrap();
        assert_eq!(ml.months.len(), 12);
        assert_eq!(ml.months[0].branch, 2);
        for i in 0..11 {
            assert_eq!(
                ml.months[i].end_jd_micros,
                ml.months[i + 1].start_jd_micros
            );
        }
    }
}

#[test]
fn month_boundary_selection() {
    let terms_prev = astro::compute_solar_terms(1989);
    let terms_curr = astro::compute_solar_terms(1990);
    // Mid-May 1990 sits in the Lixia month (branch 5).
    let birth = astro::jd_from_utc_date(1990, 5, 15, 1, 30, 0);
    let branch = bazi::month_branch_for_birth(birth, &terms_prev, &terms_curr).unwrap();
    assert_eq!(branch, 5);
    // An instant before every known term fails.
    let early = astro::jd_from_utc_date(1989, 1, 1, 0, 0, 0);
    assert!(bazi::month_branch_for_birth(early, &terms_prev, &terms_curr).is_err());
}

#[test]
fn fixed_offset_localization() {
    let spec = TzSpec::Fixed(9 * 3600);
    let (offset, unix) = localize(&spec, civil(1990, 5, 15, 10, 30)).unwrap();
    assert_eq!(offset, 32400);
    let (offset_utc, unix_utc) = localize(&TzSpec::Fixed(0), civil(1990, 5, 15, 1, 30)).unwrap();
    assert_eq!(offset_utc, 0);
    assert_eq!(unix, unix_utc);
}

#[test]
fn nonexistent_local_time_fails() {
    // 2015-03-08 02:30 does not exist in America/New_York.
    let spec = TzSpec::Named(chrono_tz::Tz::America__New_York);
    let res = localize(&spec, civil(2015, 3, 8, 2, 30));
    assert!(res.is_err());
}

#[test]
fn ambiguous_local_time_takes_earlier_offset() {
    // 2015-11-01 01:30 happens twice in America/New_York; the earlier
    // offset (EDT, -4 hours) is chosen.
    let spec = TzSpec::Named(chrono_tz::Tz::America__New_York);
    let (offset, _unix) = localize(&spec, civil(2015, 11, 1, 1, 30)).unwrap();
    assert_eq!(offset, -4 * 3600);
}

#[test]
fn resolve_local_offset_cases() {
    assert_eq!(resolve_local_offset(&LocalizedOffset::Single(3600)).unwrap(), 3600);
    // The first candidate of an ambiguous clock is the earlier timespan's
    // offset.
    assert_eq!(
        resolve_local_offset(&LocalizedOffset::Ambiguous(-14400, -18000)).unwrap(),
        -14400
    );
    assert!(resolve_local_offset(&LocalizedOffset::Nonexistent).is_err());
}

#[test]
fn assemble_pillars_without_terms_fails() {
    // No Lichun in the current year's list: the assembler reports it.
    let empty: Vec<saju::SolarTerm> = Vec::new();
    let r = chart::assemble_pillars(civil(1990, 5, 15, 10, 30), 0, &empty, &empty);
    assert_eq!(r.unwrap_err(), "failed to find lichun term");
    // Lichun present but no month boundary at or before the birth.
    let terms = astro::compute_solar_terms(1990);
    let early = astro::jd_from_utc_date(1989, 1, 1, 0, 0, 0);
    let r2 = chart::assemble_pillars(civil(1990, 5, 15, 10, 30), early, &empty, &terms);
    assert_eq!(r2.unwrap_err(), "failed to determine month boundary");
}

#[test]
fn daewon_start_without_terms_is_none() {
    let empty: Vec<saju::SolarTerm> = Vec::new();
    assert!(luck::daewon_start_months(0, &empty, &empty, &empty, Direction::Forward).is_none());
    assert!(luck::daewon_start_months(0, &empty, &empty, &empty, Direction::Backward).is_none());
}

#[test]
fn assemble_pillars_matches_chart() {
    let local = civil(1990, 5, 15, 10, 30);
    let (_o, unix) = localize(&seoul(), local).unwrap();
    let birth_jd = astro::jd_from_datetime(unix);
    let terms_prev = astro::compute_solar_terms(1989);
    let terms_curr = astro::compute_solar_terms(1990);
    let p = chart::assemble_pillars(local, birth_jd, &terms_prev, &terms_curr).unwrap();
    let c = chart_for(local, Gender::Male);
    assert_eq!(p, c.pillars);
}

#[test]
fn female_chart_runs_backward() {
    // Same birth as the 1990 chart, female: a yang year stem now walks
    // the decennial luck backward from the month pillar.
    let c = chart_for(civil(1990, 5, 15, 10, 30), Gender::Female);
    assert!(matches!(c.direction, Direction::Backward));
    assert_eq!(c.pillars.month, Pillar { stem: 7, branch: 5 });
    assert_eq!(c.daewon[0].pillar, Pillar { stem: 6, branch: 4 });
    assert_eq!(c.daewon[1].pillar, Pillar { stem: 5, branch: 3 });
}
