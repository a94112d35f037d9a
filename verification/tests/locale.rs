use saju::i18n::{I18n, Lang, PillarKind};
use saju::location;
use saju::strutil;
use saju::tz;
use saju::{Direction, Element, Gender, Pillar, StrengthVerdict, TenGod};

#[test]
fn labels_in_both_languages() {
    let ko = I18n::new(Lang::Ko);
    let en = I18n::new(Lang::En);
    assert_eq!(ko.input_label(), "입력");
    assert_eq!(en.input_label(), "Input");
    assert_eq!(ko.daewon_heading(), "대운");
    assert_eq!(en.daewon_heading(), "Decennial Luck");
    assert_eq!(ko.pillar_kind_label(PillarKind::Year), "연주");
    assert_eq!(en.pillar_kind_label(PillarKind::Hour), "Hour Pillar");
    assert_eq!(ko.direction_label(Direction::Forward), "순행");
    assert_eq!(en.direction_label(Direction::Backward), "Backward");
    assert_eq!(ko.gender_value(Gender::Male), "남");
    assert_eq!(en.gender_value(Gender::Female), "Female");
    assert_eq!(ko.polarity_label(true), "양");
    assert_eq!(en.polarity_label(false), "Yin");
    assert_eq!(ko.element_label(Element::Wood), "목(木)");
    assert_eq!(en.element_short_label(Element::Water), "Water");
    assert_eq!(ko.ten_god_label(TenGod::BiGyeon), "비견(比肩)");
    assert_eq!(en.ten_god_label(TenGod::JeongIn), "Direct Resource (正印)");
    assert_eq!(
        ko.strength_verdict_label(StrengthVerdict::Neutral),
        "중화"
    );
    assert_eq!(
        en.strength_verdict_label(StrengthVerdict::Neutral),
        "Balanced"
    );
    assert_eq!(ko.stage_label(0), "장생(長生)");
    assert_eq!(en.stage_label(11), "Yang (養)");
    assert_eq!(ko.shinsal_label(0), "지살(地殺)");
    assert_eq!(en.shinsal_label(4), "General Star (將星殺)");
}

#[test]
fn pillar_labels_with_hanja() {
    let ko = I18n::new(Lang::Ko);
    let en = I18n::new(Lang::En);
    assert_eq!(ko.stem_label(0), "갑(甲)");
    assert_eq!(en.stem_label(6), "Gyeong(庚)");
    assert_eq!(ko.branch_label(0), "자(子)");
    assert_eq!(
        ko.pillar_label(Pillar { stem: 6, branch: 6 }),
        "경오(庚午)"
    );
    assert_eq!(
        en.pillar_label(Pillar { stem: 0, branch: 0 }),
        "GapJa(甲子)"
    );
}

#[test]
fn term_name_rendering() {
    let ko = I18n::new(Lang::Ko);
    let en = I18n::new(Lang::En);
    let lichun = saju::astro::term_def(2);
    assert_eq!(ko.term_name(&lichun), "입춘(立春)");
    assert_eq!(en.term_name(&lichun), "Lichun (立春)");
}

#[test]
fn format_age_in_years_and_months() {
    let ko = I18n::new(Lang::Ko);
    let en = I18n::new(Lang::En);
    assert_eq!(ko.format_age(24, false), "2년");
    assert_eq!(ko.format_age(25, false), "2년 1개월");
    assert_eq!(en.format_age(25, false), "2y 1m");
    // Aligned pads one-digit year counts to width two.
    assert_eq!(ko.format_age(25, true), " 2년 1개월");
    assert_eq!(en.format_age(1445, true), "120y 5m");
}

#[test]
fn headings_with_numbers() {
    let ko = I18n::new(Lang::Ko);
    let en = I18n::new(Lang::En);
    assert_eq!(
        ko.monthly_luck_heading(2024),
        "월운 (2024년, 입춘~다음 입춘)"
    );
    assert_eq!(
        en.monthly_luck_heading(2024),
        "Monthly Luck (2024: Lichun to next Lichun)"
    );
    assert_eq!(ko.format_year_label(2024), "2024년");
    assert_eq!(en.format_year_label(-5), "-5");
    assert_eq!(ko.month_label(2), "인월");
    assert_eq!(en.month_label(2), "In Month");
    assert_eq!(ko.branches_hidden_label(PillarKind::Day), "일지(지장간)");
    assert_eq!(
        en.branches_hidden_label(PillarKind::Day),
        "Day branch (hidden)"
    );
    assert_eq!(ko.calendar_label(true, true), "음력(윤달)");
    assert_eq!(en.calendar_label(false, false), "Solar");
}

#[test]
fn resolve_location_by_key_alias_and_case() {
    let m = location::resolve_location("seoul").unwrap();
    assert_eq!(m.display, "Seoul/서울");
    assert_eq!(m.longitude_micro, 126_978_000);
    // ASCII case and separators are ignored.
    let m2 = location::resolve_location("  SEO-UL ").unwrap();
    assert_eq!(m2.longitude_micro, 126_978_000);
    // Korean alias.
    let m3 = location::resolve_location("서울").unwrap();
    assert_eq!(m3.longitude_micro, 126_978_000);
    let m4 = location::resolve_location("busan").unwrap();
    assert_eq!(m4.longitude_micro, 129_075_600);
    assert!(location::resolve_location("atlantis").is_none());
    // Unicode whitespace (a no-break space here) is dropped too.
    let m5 = location::resolve_location("Seoul\u{00A0}").unwrap();
    assert_eq!(m5.longitude_micro, 126_978_000);
}

#[test]
fn location_hint_lists_all_keys() {
    let hint = location::location_hint();
    assert!(hint.starts_with("seoul, busan"));
    assert!(hint.ends_with("pohang"));
    assert_eq!(hint.split(", ").count(), 15);
}

#[test]
fn lmt_correction_zero_on_the_meridian() {
    // On the standard meridian the correction vanishes.
    let (sm, corr) = location::lmt_correction(135_000_000, 9 * 3600);
    assert_eq!(sm, 135_000_000);
    assert_eq!(corr, 0);
    // One degree east of it adds 240 seconds.
    let (_, corr_east) = location::lmt_correction(136_000_000, 9 * 3600);
    assert_eq!(corr_east, 240);
    let (_, corr_west) = location::lmt_correction(134_000_000, 9 * 3600);
    assert_eq!(corr_west, -240);
}

#[test]
fn decimal_strings() {
    assert_eq!(strutil::decimal_string(0), "0");
    assert_eq!(strutil::decimal_string(7), "7");
    assert_eq!(strutil::decimal_string(2024), "2024");
    assert_eq!(strutil::decimal_string(-1925), "-1925");
    assert_eq!(
        strutil::decimal_string(i64::MIN),
        "-9223372036854775808"
    );
}

#[test]
fn normalize_and_compare() {
    let a = strutil::normalize_location("  Gang-Neung ");
    let b = strutil::normalize_location("gangneung");
    assert!(strutil::u32_seq_eq(&a, &b));
    assert!(strutil::str_eq("입춘", "입춘"));
    assert!(!strutil::str_eq("lichun", "lixia"));
}

#[test]
fn days_in_month_and_leap_years() {
    assert_eq!(tz::days_in_month(2024, 2), 29);
    assert_eq!(tz::days_in_month(2023, 2), 28);
    assert_eq!(tz::days_in_month(1900, 2), 28);
    assert_eq!(tz::days_in_month(2000, 2), 29);
    assert_eq!(tz::days_in_month(2024, 4), 30);
    assert_eq!(tz::days_in_month(2024, 12), 31);
}

#[test]
fn civil_shift_carries_across_boundaries() {
    let c = saju::CivilDateTime {
        year: 2000,
        month: 3,
        day: 1,
        hour: 0,
        minute: 10,
        second: 0,
    };
    // Ten minutes back crosses into February 29 of the leap year 2000.
    let back = tz::add_seconds_to_civil(c, -1200);
    assert_eq!((back.year, back.month, back.day), (2000, 2, 29));
    assert_eq!((back.hour, back.minute, back.second), (23, 50, 0));
    // Forward across New Year.
    let nye = saju::CivilDateTime {
        year: 1999,
        month: 12,
        day: 31,
        hour: 23,
        minute: 30,
        second: 5,
    };
    let fwd = tz::add_seconds_to_civil(nye, 3600);
    assert_eq!((fwd.year, fwd.month, fwd.day), (2000, 1, 1));
    assert_eq!((fwd.hour, fwd.minute, fwd.second), (0, 30, 5));
    // The local-mean-time shift of the summer-solstice run: about
    // thirty-two minutes back from noon.
    let noon = saju::CivilDateTime {
        year: 1995,
        month: 6,
        day: 21,
        hour: 12,
        minute: 0,
        second: 0,
    };
    let corrected = tz::add_seconds_to_civil(noon, -1925);
    assert_eq!(
        (corrected.hour, corrected.minute, corrected.second),
        (11, 27, 55)
    );
}

#[test]
fn leap_year_rule() {
    assert!(tz::is_leap_year(2000));
    assert!(!tz::is_leap_year(1900));
    assert!(tz::is_leap_year(2024));
    assert!(!tz::is_leap_year(2023));
    assert!(tz::is_leap_year(-4));
}
