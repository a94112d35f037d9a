use vstd::prelude::*;
use vstd::arithmetic::div_mod::{lemma_mod_division_less_than_divisor, lemma_mod_multiples_vanish};
use vstd::string::StringExecFns;

use crate::types::{Element, Pillar, Relation, SolarTerm, StrengthClass, StrengthVerdict, TenGod};

verus! {

/// A term defines a sexagenary month exactly when it sits at an even
/// position of the calendar-ordered table (Xiaohan, Lichun, Jingzhe, ...).
/// The branch is `idx / 2 + 1`, wrapped at twelve.
pub open spec fn month_branch_of_term_at(idx: int) -> Option<usize> {
    if 0 <= idx < 24 && idx % 2 == 0 {
        Some((((idx / 2) + 1) % 12) as usize)
    } else {
        None
    }
}

/// Month branch of a month-defining term, by table position.
pub fn month_branch_from_term_index(idx: usize) -> (r: Option<usize>)
    ensures
        r == month_branch_of_term_at(idx as int),
        r is Some ==> r->0 < 12,
{
    if idx < 24 && idx % 2 == 0 {
        proof {
            lemma_mod_division_less_than_divisor((idx / 2 + 1) as int, 12);
        }
        Some((idx / 2 + 1) % 12)
    } else {
        None
    }
}

/// Month branch of a month-defining term key, by name.
pub open spec fn month_branch_of_key_at(key: Seq<char>) -> Option<usize> {
    if key == "lichun"@ {
        Some(2usize)
    } else if key == "jingzhe"@ {
        Some(3usize)
    } else if key == "qingming"@ {
        Some(4usize)
    } else if key == "lixia"@ {
        Some(5usize)
    } else if key == "mangzhong"@ {
        Some(6usize)
    } else if key == "xiaoshu"@ {
        Some(7usize)
    } else if key == "liqiu"@ {
        Some(8usize)
    } else if key == "bailu"@ {
        Some(9usize)
    } else if key == "hanlu"@ {
        Some(10usize)
    } else if key == "lidong"@ {
        Some(11usize)
    } else if key == "daxue"@ {
        Some(0usize)
    } else if key == "xiaohan"@ {
        Some(1usize)
    } else {
        None
    }
}

/// Month branch of a month-defining term, by its key string.
pub fn month_branch_from_term_key(key: &str) -> (r: Option<usize>)
    ensures
        r == month_branch_of_key_at(key@),
        r is Some ==> r->0 < 12,
{
    if crate::strutil::str_eq(key, "lichun") {
        Some(2)
    } else if crate::strutil::str_eq(key, "jingzhe") {
        Some(3)
    } else if crate::strutil::str_eq(key, "qingming") {
        Some(4)
    } else if crate::strutil::str_eq(key, "lixia") {
        Some(5)
    } else if crate::strutil::str_eq(key, "mangzhong") {
        Some(6)
    } else if crate::strutil::str_eq(key, "xiaoshu") {
        Some(7)
    } else if crate::strutil::str_eq(key, "liqiu") {
        Some(8)
    } else if crate::strutil::str_eq(key, "bailu") {
        Some(9)
    } else if crate::strutil::str_eq(key, "hanlu") {
        Some(10)
    } else if crate::strutil::str_eq(key, "lidong") {
        Some(11)
    } else if crate::strutil::str_eq(key, "daxue") {
        Some(0)
    } else if crate::strutil::str_eq(key, "xiaohan") {
        Some(1)
    } else {
        None
    }
}

/// Whether a located term is one of the twelve month boundaries.
pub open spec fn is_month_boundary(t: SolarTerm) -> bool {
    month_branch_of_term_at(t.def_idx as int) is Some
}

/// The month branch that a month-defining term sets.
pub open spec fn month_branch_of(t: SolarTerm) -> usize {
    month_branch_of_term_at(t.def_idx as int)->0
}

/// Month branch of a birth instant: among all month-defining terms of the
/// previous and the current year, take the last one at or before the birth
/// (latest instant; on equal instants, the later entry of the combined
/// list).  Fails when no such term exists, which signals missing
/// prior-year terms.
pub fn month_branch_for_birth(
    birth_jd_micros: i64,
    terms_prev: &Vec<SolarTerm>,
    terms_curr: &Vec<SolarTerm>,
) -> (r: Result<usize, String>)
    ensures
        ({
            let all = terms_prev@ + terms_curr@;
            &&& (r is Ok <==> exists|i: int|
                0 <= i < all.len() && is_month_boundary(#[trigger] all[i]) && all[i].jd_micros
                    <= birth_jd_micros)
            &&& (r is Ok ==> exists|i: int|
                {
                    &&& 0 <= i < all.len()
                    &&& is_month_boundary(#[trigger] all[i])
                    &&& all[i].jd_micros <= birth_jd_micros
                    &&& r->Ok_0 == month_branch_of(all[i])
                    &&& forall|j: int|
                        0 <= j < all.len() && is_month_boundary(#[trigger] all[j])
                            && all[j].jd_micros <= birth_jd_micros ==> (all[j].jd_micros
                            < all[i].jd_micros || (all[j].jd_micros == all[i].jd_micros && j
                            <= i))
                })
            &&& (r is Ok ==> r->Ok_0 < 12)
            &&& (r is Err ==> r->Err_0@ == "failed to determine month boundary"@)
        }),
{
    let ghost all = terms_prev@ + terms_curr@;
    let mut best: Option<(i64, usize)> = None;
    let ghost mut best_i: int = 0;

    let mut k: usize = 0;
    while k < terms_prev.len()
        invariant
            k <= terms_prev@.len(),
            all == terms_prev@ + terms_curr@,
            best is None ==> forall|j: int|
                0 <= j < k ==> !(is_month_boundary(#[trigger] all[j]) && all[j].jd_micros
                    <= birth_jd_micros),
            best is Some ==> {
                &&& 0 <= best_i < k
                &&& is_month_boundary(all[best_i])
                &&& all[best_i].jd_micros <= birth_jd_micros
                &&& best == Some((all[best_i].jd_micros, month_branch_of(all[best_i])))
                &&& month_branch_of(all[best_i]) < 12
                &&& forall|j: int|
                    0 <= j < k && is_month_boundary(#[trigger] all[j]) && all[j].jd_micros
                        <= birth_jd_micros ==> (all[j].jd_micros < all[best_i].jd_micros || (
                    all[j].jd_micros == all[best_i].jd_micros && j <= best_i))
            },
        decreases terms_prev@.len() - k,
    {
        let t = terms_prev[k];
        proof {
            assert(all[k as int] == terms_prev@[k as int]);
        }
        if t.jd_micros <= birth_jd_micros {
            if let Some(branch) = month_branch_from_term_index(t.def_idx) {
                let take: bool = match best {
                    Option::None => true,
                    Option::Some(b) => t.jd_micros >= b.0,
                };
                if take {
                    best = Some((t.jd_micros, branch));
                    proof {
                        best_i = k as int;
                    }
                }
            }
        }
        k = k + 1;
    }

    let mut k2: usize = 0;
    while k2 < terms_curr.len()
        invariant
            k2 <= terms_curr@.len(),
            all == terms_prev@ + terms_curr@,
            best is None ==> forall|j: int|
                0 <= j < terms_prev@.len() + k2 ==> !(is_month_boundary(#[trigger] all[j])
                    && all[j].jd_micros <= birth_jd_micros),
            best is Some ==> {
                &&& 0 <= best_i < terms_prev@.len() + k2
                &&& is_month_boundary(all[best_i])
                &&& all[best_i].jd_micros <= birth_jd_micros
                &&& best == Some((all[best_i].jd_micros, month_branch_of(all[best_i])))
                &&& month_branch_of(all[best_i]) < 12
                &&& forall|j: int|
                    0 <= j < terms_prev@.len() + k2 && is_month_boundary(#[trigger] all[j])
                        && all[j].jd_micros <= birth_jd_micros ==> (all[j].jd_micros
                        < all[best_i].jd_micros || (all[j].jd_micros == all[best_i].jd_micros
                        && j <= best_i))
            },
        decreases terms_curr@.len() - k2,
    {
        let t = terms_curr[k2];
        proof {
            assert(all[terms_prev@.len() + k2 as int] == terms_curr@[k2 as int]);
        }
        if t.jd_micros <= birth_jd_micros {
            if let Some(branch) = month_branch_from_term_index(t.def_idx) {
                let take: bool = match best {
                    Option::None => true,
                    Option::Some(b) => t.jd_micros >= b.0,
                };
                if take {
                    best = Some((t.jd_micros, branch));
                    proof {
                        best_i = terms_prev@.len() + k2 as int;
                    }
                }
            }
        }
        k2 = k2 + 1;
    }

    match best {
        Option::Some(b) => Ok(b.1),
        Option::None => Err(String::from_str("failed to determine month boundary")),
    }
}

// ---------------------------------------------------------------------------
// Spec model of the sexagenary tables.
// ---------------------------------------------------------------------------

/// Element of a heavenly stem: stems 2k and 2k+1 share an element, in the
/// order Wood, Fire, Earth, Metal, Water.
pub open spec fn stem_element_at(s: int) -> Element {
    if s < 2 {
        Element::Wood
    } else if s < 4 {
        Element::Fire
    } else if s < 6 {
        Element::Earth
    } else if s < 8 {
        Element::Metal
    } else {
        Element::Water
    }
}

/// Element of an earthly branch, by the fixed table.
pub open spec fn branch_element_at(b: int) -> Element {
    if b == 0 {
        Element::Water
    } else if b == 1 {
        Element::Earth
    } else if b == 2 || b == 3 {
        Element::Wood
    } else if b == 4 {
        Element::Earth
    } else if b == 5 || b == 6 {
        Element::Fire
    } else if b == 7 {
        Element::Earth
    } else if b == 8 || b == 9 {
        Element::Metal
    } else if b == 10 {
        Element::Earth
    } else {
        Element::Water
    }
}

/// The generation cycle Wood -> Fire -> Earth -> Metal -> Water -> Wood.
pub open spec fn generates(e: Element) -> Element {
    match e {
        Element::Wood => Element::Fire,
        Element::Fire => Element::Earth,
        Element::Earth => Element::Metal,
        Element::Metal => Element::Water,
        Element::Water => Element::Wood,
    }
}

/// The control cycle Wood -> Earth -> Water -> Fire -> Metal -> Wood.
pub open spec fn controls(e: Element) -> Element {
    match e {
        Element::Wood => Element::Earth,
        Element::Earth => Element::Water,
        Element::Water => Element::Fire,
        Element::Fire => Element::Metal,
        Element::Metal => Element::Wood,
    }
}

/// Yang when the index is even.
pub open spec fn polarity_at(i: int) -> bool {
    i % 2 == 0
}

/// The day-master's relation to a target element: Same, or Output when the
/// day element generates the target, Wealth when it controls it, Resource
/// when the target generates the day element, and Officer otherwise.
pub open spec fn relation_of(day: Element, target: Element) -> Relation {
    if day == target {
        Relation::Same
    } else if generates(day) == target {
        Relation::Output
    } else if controls(day) == target {
        Relation::Wealth
    } else if generates(target) == day {
        Relation::Resource
    } else {
        Relation::Officer
    }
}

/// Refinement of a relation into a Ten God by polarity match: the first name
/// of each pair when the polarities agree, the second when they differ.
pub open spec fn ten_god_of(day_stem: int, target_stem: int) -> TenGod {
    let same_polarity = polarity_at(day_stem) == polarity_at(target_stem);
    match relation_of(stem_element_at(day_stem), stem_element_at(target_stem)) {
        Relation::Same => if same_polarity {
            TenGod::BiGyeon
        } else {
            TenGod::GeopJae
        },
        Relation::Output => if same_polarity {
            TenGod::SikShin
        } else {
            TenGod::SangGwan
        },
        Relation::Wealth => if same_polarity {
            TenGod::PyeonJae
        } else {
            TenGod::JeongJae
        },
        Relation::Officer => if same_polarity {
            TenGod::ChilSal
        } else {
            TenGod::JeongGwan
        },
        Relation::Resource => if same_polarity {
            TenGod::PyeonIn
        } else {
            TenGod::JeongIn
        },
    }
}

/// Hidden stems of each branch; the first entry is the main hidden stem.
pub open spec fn hidden_stems_at(b: int) -> Seq<usize> {
    if b == 0 {
        seq![9usize]
    } else if b == 1 {
        seq![5usize, 9usize, 7usize]
    } else if b == 2 {
        seq![0usize, 2usize, 4usize]
    } else if b == 3 {
        seq![1usize]
    } else if b == 4 {
        seq![4usize, 1usize, 9usize]
    } else if b == 5 {
        seq![2usize, 4usize, 6usize]
    } else if b == 6 {
        seq![3usize, 5usize]
    } else if b == 7 {
        seq![5usize, 3usize, 1usize]
    } else if b == 8 {
        seq![6usize, 8usize, 4usize]
    } else if b == 9 {
        seq![7usize]
    } else if b == 10 {
        seq![4usize, 7usize, 3usize]
    } else {
        seq![8usize, 0usize]
    }
}

/// Starting branch (Changsheng position) of each day stem.
pub open spec fn changsheng_start_at(s: int) -> int {
    if s == 0 {
        11
    } else if s == 1 {
        6
    } else if s == 2 {
        2
    } else if s == 3 {
        9
    } else if s == 4 {
        2
    } else if s == 5 {
        9
    } else if s == 6 {
        5
    } else if s == 7 {
        0
    } else if s == 8 {
        8
    } else {
        3
    }
}

/// Twelve-Stage index: forward from the start for yang day stems, backward
/// for yin day stems.
pub open spec fn twelve_stage_at(day_stem: int, branch: int) -> int {
    let start = changsheng_start_at(day_stem);
    if polarity_at(day_stem) {
        (branch + 12 - start) % 12
    } else {
        (start + 12 - branch) % 12
    }
}

/// Start branch of the Shinsal cycle, fixed by the trine group of the year
/// branch.
pub open spec fn shinsal_start_at(year_branch: int) -> int {
    if year_branch == 0 || year_branch == 4 || year_branch == 8 {
        2
    } else if year_branch == 2 || year_branch == 6 || year_branch == 10 {
        8
    } else if year_branch == 3 || year_branch == 7 || year_branch == 11 {
        5
    } else {
        11
    }
}

/// Year pillar indices of a Gregorian year: both cycles anchored at year 4.
pub open spec fn year_pillar_at(year: int) -> (int, int) {
    ((year - 4) % 10, (year - 4) % 12)
}

/// Day pillar indices of a Julian Day Number.
pub open spec fn day_pillar_at(jdn: int) -> (int, int) {
    ((jdn + 9) % 10, (jdn + 1) % 12)
}

// ---------------------------------------------------------------------------
// Executable sexagenary arithmetic.
// ---------------------------------------------------------------------------

/// Year pillar of a Gregorian year: stem `(Y - 4) mod 10`, branch
/// `(Y - 4) mod 12`, with non-negative modulus.
pub fn year_pillar(year: i32) -> (r: (usize, usize))
    ensures
        r.0 == year_pillar_at(year as int).0,
        r.1 == year_pillar_at(year as int).1,
        r.0 < 10 && r.1 < 12,
{
    let y: i64 = year as i64 - 4;
    proof {
        lemma_mod_division_less_than_divisor(y as int, 10);
        lemma_mod_division_less_than_divisor(y as int, 12);
    }
    let stem: i64 = y.checked_rem_euclid(10).unwrap();
    let branch: i64 = y.checked_rem_euclid(12).unwrap();
    (stem as usize, branch as usize)
}

/// Month stem from the year stem: `(year_stem * 2 + month_branch) mod 10`.
pub fn month_stem_from_year(year_stem: usize, month_branch: usize) -> (r: usize)
    requires
        year_stem < 10,
        month_branch < 12,
    ensures
        r == (year_stem * 2 + month_branch) % 10,
        r < 10,
{
    (year_stem * 2 + month_branch) % 10
}

/// Gregorian Julian Day Number of a calendar date (valid at noon UTC of that
/// date), by the standard integer formula.
pub open spec fn jdn_at(year: int, month: int, day: int) -> int {
    let a = (14 - month) / 12;
    let y = year + 4800 - a;
    let m = month + 12 * a - 3;
    day + (153 * m + 2) / 5 + 365 * y + y / 4 - y / 100 + y / 400 - 32045
}

/// Julian Day Number from a Gregorian date.
pub fn jdn_from_date(year: i32, month: u32, day: u32) -> (jdn: i64)
    requires
        -4712 <= year <= 9999,
        1 <= month <= 12,
        1 <= day <= 31,
    ensures
        jdn == jdn_at(year as int, month as int, day as int),
{
    let a: i64 = (14 - month as i64) / 12;
    let y: i64 = year as i64 + 4800 - a;
    let m: i64 = month as i64 + 12 * a - 3;
    let days_in_era: i64 = (153 * m + 2) / 5;
    let yq: i64 = y / 4;
    let yc: i64 = y / 100;
    let ye: i64 = y / 400;
    day as i64 + days_in_era + 365 * y + yq - yc + ye - 32045
}

/// Day pillar from a Julian Day Number: stem `(jdn + 9) mod 10`, branch
/// `(jdn + 1) mod 12`.
pub fn day_pillar_from_jdn(jdn: i64) -> (r: (usize, usize))
    requires
        -100_000_000 <= jdn <= 100_000_000,
    ensures
        r.0 == day_pillar_at(jdn as int).0,
        r.1 == day_pillar_at(jdn as int).1,
        r.0 < 10 && r.1 < 12,
{
    proof {
        lemma_mod_division_less_than_divisor(jdn + 9, 10);
        lemma_mod_division_less_than_divisor(jdn + 1, 12);
    }
    let stem: i64 = (jdn + 9).checked_rem_euclid(10).unwrap();
    let branch: i64 = (jdn + 1).checked_rem_euclid(12).unwrap();
    (stem as usize, branch as usize)
}

/// The day pillar repeats with period 60: sixty consecutive days exhaust the
/// sexagenary cycle exactly once.
pub proof fn lemma_day_pillar_sixty_day_cycle(jdn: int)
    ensures
        day_pillar_at(jdn + 60) == day_pillar_at(jdn),
{
    lemma_mod_multiples_vanish(6, jdn + 9, 10);
    lemma_mod_multiples_vanish(5, jdn + 1, 12);
}

/// The year pillar repeats with period 60.
pub proof fn lemma_year_pillar_sixty_year_cycle(year: int)
    ensures
        year_pillar_at(year + 60) == year_pillar_at(year),
{
    lemma_mod_multiples_vanish(6, year - 4, 10);
    lemma_mod_multiples_vanish(5, year - 4, 12);
}

/// Hour branch from the corrected wall clock: two-hour windows centered on
/// odd hours, the first covering 23:00-00:59.
pub fn hour_branch_index(hour: u32, minute: u32) -> (r: usize)
    requires
        hour < 24,
        minute < 60,
    ensures
        r == ((hour * 60 + minute + 60) / 120) % 12,
        r < 12,
{
    let total_minutes: u32 = hour * 60 + minute;
    (((total_minutes + 60) / 120 % 12) as usize)
}

/// The hour branch depends only on which two-hour window the wall clock
/// falls in, never on the minute: hour 23 and hour 0 share the Rat
/// window, and from 01:00 on the windows pair the hours two by two.
pub proof fn lemma_hour_branch_piecewise_constant(h: int, m: int)
    requires
        0 <= h < 24,
        0 <= m < 60,
    ensures
        ((h * 60 + m + 60) / 120) % 12 == (if h == 23 {
            0int
        } else {
            (h + 1) / 2
        }),
{
}

/// Hour stem from the day stem: `(day_stem * 2 + hour_branch) mod 10`.
pub fn hour_stem_from_day(day_stem: usize, hour_branch: usize) -> (r: usize)
    requires
        day_stem < 10,
        hour_branch < 12,
    ensures
        r == (day_stem * 2 + hour_branch) % 10,
        r < 10,
{
    (day_stem * 2 + hour_branch) % 10
}

/// Element of a heavenly stem.
pub fn stem_element(stem: usize) -> (e: Element)
    requires
        stem < 10,
    ensures
        e == stem_element_at(stem as int),
{
    match stem {
        0 | 1 => Element::Wood,
        2 | 3 => Element::Fire,
        4 | 5 => Element::Earth,
        6 | 7 => Element::Metal,
        _ => Element::Water,
    }
}

/// Element of an earthly branch.
pub fn branch_element(branch: usize) -> (e: Element)
    requires
        branch < 12,
    ensures
        e == branch_element_at(branch as int),
{
    match branch {
        0 => Element::Water,
        1 => Element::Earth,
        2 | 3 => Element::Wood,
        4 => Element::Earth,
        5 | 6 => Element::Fire,
        7 => Element::Earth,
        8 | 9 => Element::Metal,
        10 => Element::Earth,
        _ => Element::Water,
    }
}

/// The element that `element` generates.
pub fn element_generates(element: Element) -> (e: Element)
    ensures
        e == generates(element),
{
    match element {
        Element::Wood => Element::Fire,
        Element::Fire => Element::Earth,
        Element::Earth => Element::Metal,
        Element::Metal => Element::Water,
        Element::Water => Element::Wood,
    }
}

/// The element that `element` controls.
pub fn element_controls(element: Element) -> (e: Element)
    ensures
        e == controls(element),
{
    match element {
        Element::Wood => Element::Earth,
        Element::Earth => Element::Water,
        Element::Water => Element::Fire,
        Element::Fire => Element::Metal,
        Element::Metal => Element::Wood,
    }
}

/// Yang (true) for even stem indices, yin (false) for odd ones.
pub fn stem_polarity(stem: usize) -> (r: bool)
    ensures
        r == polarity_at(stem as int),
{
    stem % 2 == 0
}

/// Yang (true) for even branch indices, yin (false) for odd ones.
pub fn branch_polarity(branch: usize) -> (r: bool)
    ensures
        r == polarity_at(branch as int),
{
    branch % 2 == 0
}

/// Relation of the day element to a target element.
pub fn relation(day: Element, target: Element) -> (r: Relation)
    ensures
        r == relation_of(day, target),
{
    if day == target {
        Relation::Same
    } else if element_generates(day) == target {
        Relation::Output
    } else if element_controls(day) == target {
        Relation::Wealth
    } else if element_generates(target) == day {
        Relation::Resource
    } else {
        Relation::Officer
    }
}

/// Ten-God relation of a target stem to the day stem.
pub fn ten_god(day_stem: usize, target_stem: usize) -> (g: TenGod)
    requires
        day_stem < 10,
        target_stem < 10,
    ensures
        g == ten_god_of(day_stem as int, target_stem as int),
{
    let day_element = stem_element(day_stem);
    let target_element = stem_element(target_stem);
    let same_polarity: bool = stem_polarity(day_stem) == stem_polarity(target_stem);
    match relation(day_element, target_element) {
        Relation::Same => if same_polarity {
            TenGod::BiGyeon
        } else {
            TenGod::GeopJae
        },
        Relation::Output => if same_polarity {
            TenGod::SikShin
        } else {
            TenGod::SangGwan
        },
        Relation::Wealth => if same_polarity {
            TenGod::PyeonJae
        } else {
            TenGod::JeongJae
        },
        Relation::Officer => if same_polarity {
            TenGod::ChilSal
        } else {
            TenGod::JeongGwan
        },
        Relation::Resource => if same_polarity {
            TenGod::PyeonIn
        } else {
            TenGod::JeongIn
        },
    }
}

/// Hidden stems of a branch, main hidden stem first.
pub fn hidden_stems(branch: usize) -> (v: Vec<usize>)
    requires
        branch < 12,
    ensures
        v@ =~= hidden_stems_at(branch as int),
        v@.len() >= 1,
        forall|i: int| 0 <= i < v@.len() ==> v@[i] < 10,
{
    let mut v: Vec<usize> = Vec::new();
    match branch {
        0 => {
            v.push(9);
        },
        1 => {
            v.push(5);
            v.push(9);
            v.push(7);
        },
        2 => {
            v.push(0);
            v.push(2);
            v.push(4);
        },
        3 => {
            v.push(1);
        },
        4 => {
            v.push(4);
            v.push(1);
            v.push(9);
        },
        5 => {
            v.push(2);
            v.push(4);
            v.push(6);
        },
        6 => {
            v.push(3);
            v.push(5);
        },
        7 => {
            v.push(5);
            v.push(3);
            v.push(1);
        },
        8 => {
            v.push(6);
            v.push(8);
            v.push(4);
        },
        9 => {
            v.push(7);
        },
        10 => {
            v.push(4);
            v.push(7);
            v.push(3);
        },
        _ => {
            v.push(8);
            v.push(0);
        },
    }
    v
}

/// The main (first) hidden stem of a branch.
pub fn main_hidden_stem(branch: usize) -> (s: usize)
    requires
        branch < 12,
    ensures
        s == hidden_stems_at(branch as int)[0],
        s < 10,
{
    let v = hidden_stems(branch);
    v[0]
}

/// Ten-God relation of a branch's main hidden stem to the day stem.
pub fn ten_god_branch(day_stem: usize, branch: usize) -> (g: TenGod)
    requires
        day_stem < 10,
        branch < 12,
    ensures
        g == ten_god_of(day_stem as int, hidden_stems_at(branch as int)[0] as int),
{
    ten_god(day_stem, main_hidden_stem(branch))
}

/// For every stem and branch, the Ten God assigned to the branch's main
/// hidden stem is exactly the one derived from elements and polarity.
pub proof fn lemma_ten_god_branch_matches_derivation(day_stem: int, branch: int)
    requires
        0 <= day_stem < 10,
        0 <= branch < 12,
    ensures
        ({
            let hidden = hidden_stems_at(branch)[0] as int;
            let rel = relation_of(stem_element_at(day_stem), stem_element_at(hidden));
            let same_polarity = polarity_at(day_stem) == polarity_at(hidden);
            ten_god_of(day_stem, hidden) == match rel {
                Relation::Same => if same_polarity {
                    TenGod::BiGyeon
                } else {
                    TenGod::GeopJae
                },
                Relation::Output => if same_polarity {
                    TenGod::SikShin
                } else {
                    TenGod::SangGwan
                },
                Relation::Wealth => if same_polarity {
                    TenGod::PyeonJae
                } else {
                    TenGod::JeongJae
                },
                Relation::Officer => if same_polarity {
                    TenGod::ChilSal
                } else {
                    TenGod::JeongGwan
                },
                Relation::Resource => if same_polarity {
                    TenGod::PyeonIn
                } else {
                    TenGod::JeongIn
                },
            }
        }),
{
}

/// Changsheng starting branch of a day stem.
pub fn changsheng_start(day_stem: usize) -> (b: usize)
    requires
        day_stem < 10,
    ensures
        b == changsheng_start_at(day_stem as int),
        b < 12,
{
    match day_stem {
        0 => 11,
        1 => 6,
        2 => 2,
        3 => 9,
        4 => 2,
        5 => 9,
        6 => 5,
        7 => 0,
        8 => 8,
        _ => 3,
    }
}

/// Twelve-Stage index of a branch relative to the day stem: counted forward
/// from the Changsheng position for yang stems, backward for yin stems.
pub fn twelve_stage_index(day_stem: usize, branch: usize) -> (r: usize)
    requires
        day_stem < 10,
        branch < 12,
    ensures
        r == twelve_stage_at(day_stem as int, branch as int),
        r < 12,
{
    let start: usize = changsheng_start(day_stem);
    if stem_polarity(day_stem) {
        (branch + 12 - start) % 12
    } else {
        (start + 12 - branch) % 12
    }
}

/// At its own Changsheng starting branch, every day stem has stage index 0,
/// whether the cycle is walked forward (yang) or backward (yin).
pub proof fn lemma_twelve_stage_starts_at_zero(day_stem: int)
    requires
        0 <= day_stem < 10,
    ensures
        twelve_stage_at(day_stem, changsheng_start_at(day_stem)) == 0,
{
}

/// Strength class of a Twelve-Stage index: the first five stages are strong,
/// the next five weak, the last two neutral.
pub fn stage_strength_class(stage_index: usize) -> (c: StrengthClass)
    ensures
        c == stage_class_at(stage_index as int),
{
    if stage_index <= 4 {
        StrengthClass::Strong
    } else if stage_index <= 9 {
        StrengthClass::Weak
    } else {
        StrengthClass::Neutral
    }
}

/// Spec form of the stage strength class.
pub open spec fn stage_class_at(idx: int) -> StrengthClass {
    if 0 <= idx <= 4 {
        StrengthClass::Strong
    } else if 5 <= idx <= 9 {
        StrengthClass::Weak
    } else {
        StrengthClass::Neutral
    }
}

/// Shinsal starting branch of a year branch's trine group.
pub fn shinsal_start_branch(year_branch: usize) -> (b: usize)
    requires
        year_branch < 12,
    ensures
        b == shinsal_start_at(year_branch as int),
        b < 12,
{
    match year_branch {
        0 | 4 | 8 => 2,
        2 | 6 | 10 => 8,
        3 | 7 | 11 => 5,
        _ => 11,
    }
}

/// Twelve-Shinsal index of a branch relative to the year branch.
pub fn twelve_shinsal_index(year_branch: usize, branch: usize) -> (r: usize)
    requires
        year_branch < 12,
        branch < 12,
    ensures
        r == (branch + 12 - shinsal_start_at(year_branch as int)) % 12,
        r < 12,
{
    let start: usize = shinsal_start_branch(year_branch);
    (branch + 12 - start) % 12
}

/// Stable index of an element in the order Wood, Fire, Earth, Metal, Water.
pub fn element_index(element: Element) -> (i: usize)
    ensures
        i == element_index_at(element),
        i < 5,
{
    match element {
        Element::Wood => 0,
        Element::Fire => 1,
        Element::Earth => 2,
        Element::Metal => 3,
        Element::Water => 4,
    }
}

/// Spec form of the element index.
pub open spec fn element_index_at(element: Element) -> int {
    match element {
        Element::Wood => 0,
        Element::Fire => 1,
        Element::Earth => 2,
        Element::Metal => 3,
        Element::Water => 4,
    }
}

// ---------------------------------------------------------------------------
// Element distribution and day-master strength.
// ---------------------------------------------------------------------------

/// How often `e` occurs among the stems and branches of a pillar sequence
/// (each pillar contributes its stem's element and its branch's element).
pub open spec fn element_occurrences(ps: Seq<Pillar>, e: Element) -> int
    decreases ps.len(),
{
    if ps.len() == 0 {
        0
    } else {
        element_occurrences(ps.drop_last(), e) + (if stem_element_at(
            ps.last().stem as int,
        ) == e {
            1int
        } else {
            0int
        }) + (if branch_element_at(ps.last().branch as int) == e {
            1int
        } else {
            0int
        })
    }
}

/// Count of the four pillars' elements, stems and branches together, indexed
/// in the order Wood, Fire, Earth, Metal, Water.
pub fn elements_count(pillars: [Pillar; 4]) -> (counts: [u8; 5])
    requires
        forall|i: int| 0 <= i < 4 ==> #[trigger] pillars[i].wf(),
    ensures
        counts@[0] == element_occurrences(pillars@, Element::Wood),
        counts@[1] == element_occurrences(pillars@, Element::Fire),
        counts@[2] == element_occurrences(pillars@, Element::Earth),
        counts@[3] == element_occurrences(pillars@, Element::Metal),
        counts@[4] == element_occurrences(pillars@, Element::Water),
{
    let mut wood: u8 = 0;
    let mut fire: u8 = 0;
    let mut earth: u8 = 0;
    let mut metal: u8 = 0;
    let mut water: u8 = 0;
    for i in 0..4
        invariant
            forall|j: int| 0 <= j < 4 ==> #[trigger] pillars[j].wf(),
            wood == element_occurrences(pillars@.subrange(0, i as int), Element::Wood),
            fire == element_occurrences(pillars@.subrange(0, i as int), Element::Fire),
            earth == element_occurrences(pillars@.subrange(0, i as int), Element::Earth),
            metal == element_occurrences(pillars@.subrange(0, i as int), Element::Metal),
            water == element_occurrences(pillars@.subrange(0, i as int), Element::Water),
            wood + fire + earth + metal + water == 2 * i,
    {
        proof {
            assert(pillars[i as int].wf());
            assert(pillars@.subrange(0, i + 1).drop_last() =~= pillars@.subrange(0, i as int));
            assert(pillars@.subrange(0, i + 1).last() == pillars@[i as int]);
        }
        let stem_e = stem_element(pillars[i].stem);
        match stem_e {
            Element::Wood => { wood = wood + 1; },
            Element::Fire => { fire = fire + 1; },
            Element::Earth => { earth = earth + 1; },
            Element::Metal => { metal = metal + 1; },
            Element::Water => { water = water + 1; },
        }
        let branch_e = branch_element(pillars[i].branch);
        match branch_e {
            Element::Wood => { wood = wood + 1; },
            Element::Fire => { fire = fire + 1; },
            Element::Earth => { earth = earth + 1; },
            Element::Metal => { metal = metal + 1; },
            Element::Water => { water = water + 1; },
        }
    }
    proof {
        assert(pillars@.subrange(0, 4) =~= pillars@);
    }
    [wood, fire, earth, metal, water]
}

/// A relation counts as support when the target stands with the day master.
pub open spec fn is_support(rel: Relation) -> bool {
    rel == Relation::Same || rel == Relation::Resource
}

/// Number of pillar stems whose relation to the day element is supportive.
pub open spec fn support_stem_count(day_e: Element, ps: Seq<Pillar>) -> int
    decreases ps.len(),
{
    if ps.len() == 0 {
        0
    } else {
        support_stem_count(day_e, ps.drop_last()) + (if is_support(
            relation_of(day_e, stem_element_at(ps.last().stem as int)),
        ) {
            1int
        } else {
            0int
        })
    }
}

/// Number of supportive stems in one list of hidden stems.
pub open spec fn support_in_stems(day_e: Element, stems: Seq<usize>) -> int
    decreases stems.len(),
{
    if stems.len() == 0 {
        0
    } else {
        support_in_stems(day_e, stems.drop_last()) + (if is_support(
            relation_of(day_e, stem_element_at(stems.last() as int)),
        ) {
            1int
        } else {
            0int
        })
    }
}

/// Number of supportive hidden stems over all branches of a pillar sequence.
pub open spec fn support_hidden_count(day_e: Element, ps: Seq<Pillar>) -> int
    decreases ps.len(),
{
    if ps.len() == 0 {
        0
    } else {
        support_hidden_count(day_e, ps.drop_last()) + support_in_stems(
            day_e,
            hidden_stems_at(ps.last().branch as int),
        )
    }
}

/// Total number of hidden stems over all branches of a pillar sequence.
pub open spec fn hidden_total_count(ps: Seq<Pillar>) -> int
    decreases ps.len(),
{
    if ps.len() == 0 {
        0
    } else {
        hidden_total_count(ps.drop_last()) + hidden_stems_at(ps.last().branch as int).len()
    }
}

/// Whether a branch roots the day element: some hidden stem shares it.
pub open spec fn branch_has_root(day_e: Element, b: int) -> bool {
    exists|i: int|
        0 <= i < hidden_stems_at(b).len() && stem_element_at(
            #[trigger] hidden_stems_at(b)[i] as int,
        ) == day_e
}

/// Number of pillars whose branch roots the day element.
pub open spec fn root_count_of(day_e: Element, ps: Seq<Pillar>) -> int
    decreases ps.len(),
{
    if ps.len() == 0 {
        0
    } else {
        root_count_of(day_e, ps.drop_last()) + (if branch_has_root(
            day_e,
            ps.last().branch as int,
        ) {
            1int
        } else {
            0int
        })
    }
}

/// Stage bonus of a strength class: +2 Strong, -2 Weak, 0 Neutral.
pub open spec fn stage_bonus_of(class: StrengthClass) -> int {
    match class {
        StrengthClass::Strong => 2,
        StrengthClass::Weak => -2,
        StrengthClass::Neutral => 0,
    }
}

/// The numeric day-master strength assessment over the four pillars.
#[derive(Clone, Copy, Debug)]
pub struct StrengthResult {
    pub stage_index: usize,
    pub stage_class: StrengthClass,
    pub root_count: usize,
    pub support_stems: usize,
    pub support_hidden: usize,
    pub drain_stems: usize,
    pub drain_hidden: usize,
    pub total: i32,
    pub verdict: StrengthVerdict,
}

/// What the strength assessment of a day master over four pillars (year,
/// month, day, hour in that order) says: the month stage and its class,
/// the root and support/drain counts, the score built from them, and the
/// verdict thresholds.
pub open spec fn strength_result_at(day_stem: int, ps: Seq<Pillar>, r: StrengthResult) -> bool {
    let day_e = stem_element_at(day_stem);
    &&& r.stage_index == twelve_stage_at(day_stem, ps[1].branch as int)
    &&& r.stage_class == stage_class_at(r.stage_index as int)
    &&& r.root_count == root_count_of(day_e, ps)
    &&& r.support_stems == support_stem_count(day_e, ps)
    &&& r.support_hidden == support_hidden_count(day_e, ps)
    &&& r.drain_stems == 4 - support_stem_count(day_e, ps)
    &&& r.drain_hidden == hidden_total_count(ps) - support_hidden_count(day_e, ps)
    &&& r.total == stage_bonus_of(r.stage_class) + r.root_count + 2 * r.support_stems
        + r.support_hidden - 2 * r.drain_stems - r.drain_hidden
    &&& r.verdict == (if r.total >= 3 {
        StrengthVerdict::Strong
    } else if r.total <= -3 {
        StrengthVerdict::Weak
    } else {
        StrengthVerdict::Neutral
    })
}

/// Assess the day master's strength over the four pillars (year, month, day,
/// hour in that order; the month pillar's branch sets the stage bonus).
///
/// The score is
/// `stage_bonus + roots + 2*support_stems + support_hidden - 2*drain_stems - drain_hidden`,
/// and the verdict is Strong at `>= 3`, Weak at `<= -3`, Neutral between.
pub fn assess_strength(day_stem: usize, pillars: [Pillar; 4]) -> (r: StrengthResult)
    requires
        day_stem < 10,
        forall|i: int| 0 <= i < 4 ==> #[trigger] pillars[i].wf(),
    ensures
        strength_result_at(day_stem as int, pillars@, r),
{
    proof {
        assert(pillars[1int].wf());
    }
    let day_element = stem_element(day_stem);
    let stage_index = twelve_stage_index(day_stem, pillars[1].branch);
    let stage_class = stage_strength_class(stage_index);

    let mut root_count: usize = 0;
    let mut support_stems: usize = 0;
    let mut drain_stems: usize = 0;
    let mut support_hidden: usize = 0;
    let mut drain_hidden: usize = 0;

    for i in 0..4
        invariant
            day_stem < 10,
            day_element == stem_element_at(day_stem as int),
            forall|j: int| 0 <= j < 4 ==> #[trigger] pillars[j].wf(),
            root_count == root_count_of(day_element, pillars@.subrange(0, i as int)),
            support_stems == support_stem_count(day_element, pillars@.subrange(0, i as int)),
            drain_stems == i - support_stems,
            support_hidden == support_hidden_count(day_element, pillars@.subrange(0, i as int)),
            support_hidden + drain_hidden == hidden_total_count(pillars@.subrange(0, i as int)),
            root_count <= i && support_stems <= i,
            support_hidden + drain_hidden <= 3 * i,
    {
        proof {
            assert(pillars[i as int].wf());
            assert(pillars@.subrange(0, i + 1).drop_last() =~= pillars@.subrange(0, i as int));
            assert(pillars@.subrange(0, i + 1).last() == pillars@[i as int]);
        }
        let pillar = pillars[i];
        let stem_rel = relation(day_element, stem_element(pillar.stem));
        match stem_rel {
            Relation::Same | Relation::Resource => {
                support_stems = support_stems + 1;
            },
            Relation::Output | Relation::Wealth | Relation::Officer => {
                drain_stems = drain_stems + 1;
            },
        }

        let hidden = hidden_stems(pillar.branch);
        let ghost all_hidden = hidden_stems_at(pillar.branch as int);
        let mut has_root: bool = false;
        let mut k: usize = 0;
        while k < hidden.len()
            invariant
                i < 4,
                day_element == stem_element_at(day_stem as int),
                hidden@ =~= all_hidden,
                forall|h: int| 0 <= h < hidden@.len() ==> hidden@[h] < 10,
                k <= hidden@.len(),
                hidden@.len() <= 3,
                has_root <==> exists|h: int|
                    0 <= h < k && stem_element_at(#[trigger] all_hidden[h] as int) == day_element,
                support_hidden == support_hidden_count(
                    day_element,
                    pillars@.subrange(0, i as int),
                ) + support_in_stems(day_element, all_hidden.subrange(0, k as int)),
                support_hidden + drain_hidden == hidden_total_count(
                    pillars@.subrange(0, i as int),
                ) + k,
                support_hidden + drain_hidden <= 3 * i + k,
            decreases hidden@.len() - k,
        {
            proof {
                assert(all_hidden.subrange(0, k + 1).drop_last() =~= all_hidden.subrange(
                    0,
                    k as int,
                ));
                assert(all_hidden.subrange(0, k + 1).last() == all_hidden[k as int]);
            }
            let h_stem: usize = hidden[k];
            if stem_element(h_stem) == day_element {
                has_root = true;
            }
            let rel = relation(day_element, stem_element(h_stem));
            match rel {
                Relation::Same | Relation::Resource => {
                    support_hidden = support_hidden + 1;
                },
                Relation::Output | Relation::Wealth | Relation::Officer => {
                    drain_hidden = drain_hidden + 1;
                },
            }
            k = k + 1;
        }
        proof {
            assert(all_hidden.subrange(0, all_hidden.len() as int) =~= all_hidden);
        }
        if has_root {
            root_count = root_count + 1;
        }
    }
    proof {
        assert(pillars@.subrange(0, 4) =~= pillars@);
    }

    let stage_bonus: i32 = match stage_class {
        StrengthClass::Strong => 2,
        StrengthClass::Weak => -2,
        StrengthClass::Neutral => 0,
    };
    let support_total: i32 = (support_stems as i32) * 2 + support_hidden as i32;
    let drain_total: i32 = (drain_stems as i32) * 2 + drain_hidden as i32;
    let total: i32 = stage_bonus + root_count as i32 + support_total - drain_total;

    let verdict = if total >= 3 {
        StrengthVerdict::Strong
    } else if total <= -3 {
        StrengthVerdict::Weak
    } else {
        StrengthVerdict::Neutral
    };

    StrengthResult {
        stage_index,
        stage_class,
        root_count,
        support_stems,
        support_hidden,
        drain_stems,
        drain_hidden,
        total,
        verdict,
    }
}

} // verus!
