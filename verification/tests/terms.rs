use chrono::{Datelike, Timelike};
use saju::astro;

fn utc_of_jd_micros(jd_micros: i64) -> chrono::DateTime<chrono::Utc> {
    let unix = astro::datetime_from_jd(jd_micros);
    let secs = unix.div_euclid(1_000_000);
    let micros = unix.rem_euclid(1_000_000) as u32;
    chrono::DateTime::from_timestamp(secs, micros * 1000).unwrap()
}

#[test]
fn jd_round_trip_is_exact() {
    // Ten thousand years on either side of J2000, microsecond for
    // microsecond.
    let samples: [i64; 9] = [
        0,
        1,
        -1,
        946_684_800_000_000,            // 2000-01-01
        -315_000_000_000_000_000,       // about ten thousand years back
        315_000_000_000_000_000,        // about ten thousand years ahead
        123_456_789_123_456,
        -987_654_321_987_654,
        642_808_800_000_000,
    ];
    for &t in samples.iter() {
        assert_eq!(astro::datetime_from_jd(astro::jd_from_datetime(t)), t);
    }
    let mut t: i64 = -315_000_000_000_000_000;
    while t <= 315_000_000_000_000_000 {
        assert_eq!(astro::datetime_from_jd(astro::jd_from_datetime(t)), t);
        t += 7_000_000_000_123_457;
    }
}

#[test]
fn jd_axis_anchor() {
    // The Unix epoch sits at Julian Date 2440587.5.
    assert_eq!(astro::jd_from_datetime(0), 210_866_760_000_000_000);
    // 2000-01-01 00:00 UTC sits at Julian Date 2451544.5.
    let jd = astro::jd_from_utc_date(2000, 1, 1, 0, 0, 0);
    assert_eq!(jd, 2_451_544 * 86_400_000_000 + 43_200_000_000);
    let dt = utc_of_jd_micros(jd);
    assert_eq!((dt.year(), dt.month(), dt.day()), (2000, 1, 1));
}

#[test]
fn term_table_shape() {
    assert_eq!(astro::term_def(0).key, "xiaohan");
    assert_eq!(astro::term_def(0).angle_deg, 285);
    assert_eq!(astro::term_def(2).key, "lichun");
    assert_eq!(astro::term_def(2).angle_deg, 315);
    assert_eq!(astro::term_def(5).key, "chunfen");
    assert_eq!(astro::term_def(5).angle_deg, 0);
    assert_eq!(astro::term_def(11).key, "xiazhi");
    assert_eq!(astro::term_def(23).key, "dongzhi");
    assert_eq!(astro::term_def(23).angle_deg, 270);
    for i in 0..24 {
        assert_eq!(astro::term_def(i).angle_deg as usize, (285 + i * 15) % 360);
    }
}

#[test]
fn solar_terms_of_two_centuries() {
    // Every year from 1900 through 2100: exactly 24 terms, the expected
    // keys in calendar order, strictly increasing instants, Chunfen in
    // March 19-22 and Dongzhi in December 20-23 (UTC).
    for year in 1900..=2100 {
        let terms = astro::compute_solar_terms(year);
        assert_eq!(terms.len(), 24, "year {}", year);
        for (i, t) in terms.iter().enumerate() {
            assert_eq!(t.def_idx, i, "year {} term {}", year, i);
            if i > 0 {
                assert!(
                    terms[i - 1].jd_micros < t.jd_micros,
                    "year {} term {} not increasing",
                    year,
                    i
                );
            }
        }
        let chunfen = utc_of_jd_micros(terms[5].jd_micros);
        assert_eq!(chunfen.year(), year);
        assert_eq!(chunfen.month(), 3);
        assert!(
            (19..=22).contains(&chunfen.day()),
            "chunfen {} on day {}",
            year,
            chunfen.day()
        );
        let dongzhi = utc_of_jd_micros(terms[23].jd_micros);
        assert_eq!(dongzhi.year(), year);
        assert_eq!(dongzhi.month(), 12);
        assert!(
            (20..=23).contains(&dongzhi.day()),
            "dongzhi {} on day {}",
            year,
            dongzhi.day()
        );
    }
}

#[test]
fn lichun_of_2000_matches_reference() {
    // Lichun 2000 fell on February 4, around 12:37 UTC.
    let terms = astro::compute_solar_terms(2000);
    let lichun = terms.iter().find(|t| t.def_idx == 2).unwrap();
    let dt = utc_of_jd_micros(lichun.jd_micros);
    assert_eq!((dt.year(), dt.month(), dt.day()), (2000, 2, 4));
    assert_eq!(dt.hour(), 12);
    assert!((30..45).contains(&dt.minute()));
}

#[test]
fn term_longitudes_hit_their_angles() {
    // At each located instant the Sun's apparent longitude is the term's
    // angle, modulo a full turn, well within the bisection's slack.
    for year in [1900, 2024, 2100] {
        for t in astro::compute_solar_terms(year) {
            let lon = astro::sun_apparent_longitude_e9(t.jd_micros);
            let angle = (astro::term_def(t.def_idx).angle_deg as i64) * 1_000_000_000;
            let diff = (lon - angle).rem_euclid(360_000_000_000);
            let dist = diff.min(360_000_000_000 - diff);
            assert!(dist <= 1_000, "year {} term {} off by {}", year, t.def_idx, dist);
        }
    }
}

#[test]
fn terms_lie_within_their_year() {
    let year = 2024;
    let start = astro::jd_from_utc_date(year, 1, 1, 0, 0, 0);
    let end = astro::jd_from_utc_date(year + 1, 1, 1, 0, 0, 0);
    for t in astro::compute_solar_terms(year) {
        assert!(start <= t.jd_micros && t.jd_micros < end);
    }
}
