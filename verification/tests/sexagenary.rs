use saju::bazi;
use saju::StrengthClass;
use saju::{Element, Pillar, Relation, StrengthVerdict, TenGod};

#[test]
fn year_pillar_known_years() {
    // 1984 opens a cycle: Gap-Ja.
    assert_eq!(bazi::year_pillar(1984), (0, 0));
    // 1990 is Geng-Wu.
    assert_eq!(bazi::year_pillar(1990), (6, 6));
    assert_eq!(bazi::year_pillar(1999), (5, 3));
    assert_eq!(bazi::year_pillar(2000), (6, 4));
    assert_eq!(bazi::year_pillar(2024), (0, 4));
    // Negative years use the non-negative modulus.
    assert_eq!(bazi::year_pillar(3), (9, 11));
    assert_eq!(bazi::year_pillar(-57), (9, 11));
}

#[test]
fn year_pillar_sixty_year_period() {
    for y in 1900..1960 {
        assert_eq!(bazi::year_pillar(y), bazi::year_pillar(y + 60));
    }
}

#[test]
fn jdn_anchor_and_day_pillar() {
    // 2000-01-01 is Julian Day Number 2451545 and a Mu-O day.
    assert_eq!(bazi::jdn_from_date(2000, 1, 1), 2451545);
    assert_eq!(bazi::day_pillar_from_jdn(2451545), (4, 6));
    // 1970-01-01 is JDN 2440588.
    assert_eq!(bazi::jdn_from_date(1970, 1, 1), 2440588);
}

#[test]
fn day_pillar_sixty_day_period() {
    // Sixty consecutive days exhaust the cycle exactly once.
    for jdn in 2451545..2451605 {
        assert_eq!(
            bazi::day_pillar_from_jdn(jdn),
            bazi::day_pillar_from_jdn(jdn + 60)
        );
    }
}

#[test]
fn hour_branch_windows() {
    // The Rat window covers 23:00-00:59.
    assert_eq!(bazi::hour_branch_index(23, 0), 0);
    assert_eq!(bazi::hour_branch_index(23, 59), 0);
    assert_eq!(bazi::hour_branch_index(0, 0), 0);
    assert_eq!(bazi::hour_branch_index(0, 59), 0);
    // Then two-hour windows centered on odd hours.
    assert_eq!(bazi::hour_branch_index(1, 0), 1);
    assert_eq!(bazi::hour_branch_index(2, 59), 1);
    assert_eq!(bazi::hour_branch_index(3, 0), 2);
    assert_eq!(bazi::hour_branch_index(10, 30), 5);
    assert_eq!(bazi::hour_branch_index(12, 0), 6);
    assert_eq!(bazi::hour_branch_index(22, 59), 11);
}

#[test]
fn hour_stem_formula() {
    for ds in 0..10 {
        for hb in 0..12 {
            assert_eq!(bazi::hour_stem_from_day(ds, hb), (ds * 2 + hb) % 10);
        }
    }
}

#[test]
fn month_stem_formula() {
    assert_eq!(bazi::month_stem_from_year(6, 5), 7);
    assert_eq!(bazi::month_stem_from_year(0, 2), 2);
    for ys in 0..10 {
        for mb in 0..12 {
            assert_eq!(bazi::month_stem_from_year(ys, mb), (ys * 2 + mb) % 10);
        }
    }
}

#[test]
fn stem_and_branch_elements() {
    assert_eq!(bazi::stem_element(0), Element::Wood);
    assert_eq!(bazi::stem_element(1), Element::Wood);
    assert_eq!(bazi::stem_element(2), Element::Fire);
    assert_eq!(bazi::stem_element(5), Element::Earth);
    assert_eq!(bazi::stem_element(7), Element::Metal);
    assert_eq!(bazi::stem_element(9), Element::Water);
    let expect = [
        Element::Water,
        Element::Earth,
        Element::Wood,
        Element::Wood,
        Element::Earth,
        Element::Fire,
        Element::Fire,
        Element::Earth,
        Element::Metal,
        Element::Metal,
        Element::Earth,
        Element::Water,
    ];
    for b in 0..12 {
        assert_eq!(bazi::branch_element(b), expect[b]);
    }
}

#[test]
fn generation_and_control_cycles() {
    assert_eq!(bazi::element_generates(Element::Wood), Element::Fire);
    assert_eq!(bazi::element_generates(Element::Fire), Element::Earth);
    assert_eq!(bazi::element_generates(Element::Earth), Element::Metal);
    assert_eq!(bazi::element_generates(Element::Metal), Element::Water);
    assert_eq!(bazi::element_generates(Element::Water), Element::Wood);
    assert_eq!(bazi::element_controls(Element::Wood), Element::Earth);
    assert_eq!(bazi::element_controls(Element::Earth), Element::Water);
    assert_eq!(bazi::element_controls(Element::Water), Element::Fire);
    assert_eq!(bazi::element_controls(Element::Fire), Element::Metal);
    assert_eq!(bazi::element_controls(Element::Metal), Element::Wood);
}

#[test]
fn relation_rules() {
    assert!(matches!(
        bazi::relation(Element::Wood, Element::Wood),
        Relation::Same
    ));
    assert!(matches!(
        bazi::relation(Element::Wood, Element::Fire),
        Relation::Output
    ));
    assert!(matches!(
        bazi::relation(Element::Wood, Element::Earth),
        Relation::Wealth
    ));
    assert!(matches!(
        bazi::relation(Element::Wood, Element::Metal),
        Relation::Officer
    ));
    assert!(matches!(
        bazi::relation(Element::Wood, Element::Water),
        Relation::Resource
    ));
}

#[test]
fn ten_god_examples() {
    // Same element, same polarity: companion.
    assert_eq!(bazi::ten_god(0, 0), TenGod::BiGyeon);
    assert_eq!(bazi::ten_god(0, 1), TenGod::GeopJae);
    // Wood day master, Fire target: output pair.
    assert_eq!(bazi::ten_god(0, 2), TenGod::SikShin);
    assert_eq!(bazi::ten_god(0, 3), TenGod::SangGwan);
    // Wood day master, Metal target: officer pair.
    assert_eq!(bazi::ten_god(0, 6), TenGod::ChilSal);
    assert_eq!(bazi::ten_god(0, 7), TenGod::JeongGwan);
}

#[test]
fn ten_god_of_main_hidden_stem_agrees_with_derivation() {
    // For every stem and branch, the Ten God of the branch's main hidden
    // stem equals the one derived from elements and polarity.
    for s in 0..10 {
        for b in 0..12 {
            let hidden = bazi::main_hidden_stem(b);
            let day_e = bazi::stem_element(s);
            let target_e = bazi::stem_element(hidden);
            let same_pol = bazi::stem_polarity(s) == bazi::stem_polarity(hidden);
            let expect = match bazi::relation(day_e, target_e) {
                Relation::Same => {
                    if same_pol {
                        TenGod::BiGyeon
                    } else {
                        TenGod::GeopJae
                    }
                }
                Relation::Output => {
                    if same_pol {
                        TenGod::SikShin
                    } else {
                        TenGod::SangGwan
                    }
                }
                Relation::Wealth => {
                    if same_pol {
                        TenGod::PyeonJae
                    } else {
                        TenGod::JeongJae
                    }
                }
                Relation::Officer => {
                    if same_pol {
                        TenGod::ChilSal
                    } else {
                        TenGod::JeongGwan
                    }
                }
                Relation::Resource => {
                    if same_pol {
                        TenGod::PyeonIn
                    } else {
                        TenGod::JeongIn
                    }
                }
            };
            assert_eq!(bazi::ten_god_branch(s, b), expect);
        }
    }
}

#[test]
fn hidden_stems_table() {
    assert_eq!(bazi::hidden_stems(0), vec![9]);
    assert_eq!(bazi::hidden_stems(1), vec![5, 9, 7]);
    assert_eq!(bazi::hidden_stems(2), vec![0, 2, 4]);
    assert_eq!(bazi::hidden_stems(6), vec![3, 5]);
    assert_eq!(bazi::hidden_stems(11), vec![8, 0]);
    for b in 0..12 {
        assert_eq!(bazi::main_hidden_stem(b), bazi::hidden_stems(b)[0]);
    }
}

#[test]
fn twelve_stage_starts_at_zero_for_every_stem() {
    // Yang stems walk forward, yin stems backward; either way the walk
    // starts at stage zero on the stem's own Changsheng branch.
    for s in 0..10 {
        let start = bazi::changsheng_start(s);
        assert_eq!(bazi::twelve_stage_index(s, start), 0);
    }
}

#[test]
fn twelve_stage_direction() {
    // Stem 0 is yang with start 11: the next branch is stage 1.
    assert_eq!(bazi::twelve_stage_index(0, 0), 1);
    // Stem 1 is yin with start 6: the previous branch is stage 1.
    assert_eq!(bazi::twelve_stage_index(1, 5), 1);
}

#[test]
fn stage_strength_classes() {
    for i in 0..5 {
        assert!(matches!(
            bazi::stage_strength_class(i),
            StrengthClass::Strong
        ));
    }
    for i in 5..10 {
        assert!(matches!(bazi::stage_strength_class(i), StrengthClass::Weak));
    }
    for i in 10..12 {
        assert!(matches!(
            bazi::stage_strength_class(i),
            StrengthClass::Neutral
        ));
    }
}

#[test]
fn shinsal_trine_groups() {
    assert_eq!(bazi::shinsal_start_branch(0), 2);
    assert_eq!(bazi::shinsal_start_branch(4), 2);
    assert_eq!(bazi::shinsal_start_branch(8), 2);
    assert_eq!(bazi::shinsal_start_branch(2), 8);
    assert_eq!(bazi::shinsal_start_branch(3), 5);
    assert_eq!(bazi::shinsal_start_branch(1), 11);
    assert_eq!(bazi::twelve_shinsal_index(0, 2), 0);
    assert_eq!(bazi::twelve_shinsal_index(0, 3), 1);
}

#[test]
fn elements_count_totals_eight() {
    let pillars = [
        Pillar { stem: 6, branch: 6 },
        Pillar { stem: 7, branch: 5 },
        Pillar { stem: 6, branch: 4 },
        Pillar { stem: 7, branch: 5 },
    ];
    let counts = bazi::elements_count(pillars);
    let total: u32 = counts.iter().map(|&c| c as u32).sum();
    assert_eq!(total, 8);
    // Stems: four Metal.  Branches: two Fire, one Fire... count directly.
    assert_eq!(counts[3], 4); // Metal from the four stems
}

#[test]
fn month_branch_from_term_key_table() {
    assert_eq!(bazi::month_branch_from_term_key("lichun"), Some(2));
    assert_eq!(bazi::month_branch_from_term_key("jingzhe"), Some(3));
    assert_eq!(bazi::month_branch_from_term_key("qingming"), Some(4));
    assert_eq!(bazi::month_branch_from_term_key("lixia"), Some(5));
    assert_eq!(bazi::month_branch_from_term_key("mangzhong"), Some(6));
    assert_eq!(bazi::month_branch_from_term_key("xiaoshu"), Some(7));
    assert_eq!(bazi::month_branch_from_term_key("liqiu"), Some(8));
    assert_eq!(bazi::month_branch_from_term_key("bailu"), Some(9));
    assert_eq!(bazi::month_branch_from_term_key("hanlu"), Some(10));
    assert_eq!(bazi::month_branch_from_term_key("lidong"), Some(11));
    assert_eq!(bazi::month_branch_from_term_key("daxue"), Some(0));
    assert_eq!(bazi::month_branch_from_term_key("xiaohan"), Some(1));
    assert_eq!(bazi::month_branch_from_term_key("chunfen"), None);
    assert_eq!(bazi::month_branch_from_term_key("dongzhi"), None);
    assert_eq!(bazi::month_branch_from_term_key(""), None);
}

#[test]
fn month_branch_index_matches_key_table() {
    // The index mapping and the key mapping agree over the whole table.
    for i in 0..24 {
        let def = saju::astro::term_def(i);
        assert_eq!(
            bazi::month_branch_from_term_index(i),
            bazi::month_branch_from_term_key(def.key)
        );
    }
}

#[test]
fn strength_verdict_thresholds() {
    // A chart made of a single repeated supportive pillar is strong.
    let strong = bazi::assess_strength(
        0,
        [
            Pillar { stem: 0, branch: 2 },
            Pillar { stem: 0, branch: 2 },
            Pillar { stem: 0, branch: 2 },
            Pillar { stem: 0, branch: 2 },
        ],
    );
    assert!(matches!(strong.verdict, StrengthVerdict::Strong));
    assert_eq!(
        strong.total,
        match strong.stage_class {
            saju::StrengthClass::Strong => 2,
            saju::StrengthClass::Weak => -2,
            saju::StrengthClass::Neutral => 0,
        } + strong.root_count as i32
            + 2 * strong.support_stems as i32
            + strong.support_hidden as i32
            - 2 * strong.drain_stems as i32
            - strong.drain_hidden as i32
    );
}
