use vstd::prelude::*;
use vstd::arithmetic::div_mod::{
    lemma_div_is_ordered, lemma_fundamental_div_mod, lemma_mod_division_less_than_divisor,
    lemma_mod_multiples_vanish,
};

use crate::bazi::jdn_at;
use crate::bazi::jdn_from_date;
use crate::types::{SolarTerm, TermDef};

verus! {

// ---------------------------------------------------------------------------
// The Julian-Date axis.
//
// Instants are carried as signed microsecond counts: `unix_micros` counts
// from the Unix epoch, `jd_micros` counts from Julian Date 0.0, so that
// `jd_micros / 86_400_000_000` is the Julian Date in days.  The two axes
// differ by the exact constant 2440587.5 days.
// ---------------------------------------------------------------------------

pub const MICROS_PER_DAY: i64 = 86_400_000_000;

/// 2440587.5 days, in microseconds: the Julian Date of the Unix epoch.
pub const JD_UNIX_EPOCH_MICROS: i64 = 210_866_760_000_000_000;

/// J2000.0 (Julian Date 2451545.0), in microseconds.
pub const J2000_JD_MICROS: i64 = 211_813_488_000_000_000;

/// Half a million years in microseconds: a comfortable working range for
/// the instant arithmetic.
pub const INSTANT_RANGE_MICROS: i64 = 400_000_000_000_000_000;

/// The Julian Date, in microseconds, of a UTC instant given in
/// microseconds since the Unix epoch.
pub open spec fn jd_micros_of_instant(unix_micros: int) -> int {
    unix_micros + JD_UNIX_EPOCH_MICROS
}

/// The UTC instant, in microseconds since the Unix epoch, of a Julian
/// Date given in microseconds.
pub open spec fn instant_of_jd_micros(jd_micros: int) -> int {
    jd_micros - JD_UNIX_EPOCH_MICROS
}

/// Julian Date (in microseconds) of a UTC instant given as microseconds
/// since the Unix epoch.  The map is the exact translation by 2440587.5
/// days, so it loses nothing.
pub fn jd_from_datetime(unix_micros: i64) -> (jd_micros: i64)
    requires
        -INSTANT_RANGE_MICROS <= unix_micros <= INSTANT_RANGE_MICROS,
    ensures
        jd_micros == jd_micros_of_instant(unix_micros as int),
{
    unix_micros + JD_UNIX_EPOCH_MICROS
}

/// UTC instant (microseconds since the Unix epoch) of a Julian Date given
/// in microseconds.  Exact inverse of `jd_from_datetime`.
pub fn datetime_from_jd(jd_micros: i64) -> (unix_micros: i64)
    requires
        -INSTANT_RANGE_MICROS + JD_UNIX_EPOCH_MICROS <= jd_micros <= INSTANT_RANGE_MICROS
            + JD_UNIX_EPOCH_MICROS,
    ensures
        unix_micros == instant_of_jd_micros(jd_micros as int),
{
    jd_micros - JD_UNIX_EPOCH_MICROS
}

/// Round trip through the Julian-Date axis returns every UTC instant
/// unchanged, microsecond for microsecond: converting an instant to a
/// Julian Date and back is the identity, and so is the other direction.
pub proof fn lemma_jd_round_trip(unix_micros: int, jd_micros: int)
    ensures
        instant_of_jd_micros(jd_micros_of_instant(unix_micros)) == unix_micros,
        jd_micros_of_instant(instant_of_jd_micros(jd_micros)) == jd_micros,
{
}

/// Julian Date (in microseconds) of a civil UTC date and time.  The Julian
/// Day Number names the day that runs from the previous midnight plus half
/// a day, so midnight of the date sits at `jdn - 0.5` days.
pub open spec fn jd_micros_of_utc(
    year: int,
    month: int,
    day: int,
    hour: int,
    minute: int,
    second: int,
) -> int {
    (jdn_at(year, month, day) * 86400 - 43200 + hour * 3600 + minute * 60 + second) * 1_000_000
}

/// Julian Date in microseconds of a civil UTC date and time.
pub fn jd_from_utc_date(year: i32, month: u32, day: u32, hour: u32, min: u32, sec: u32) -> (r: i64)
    requires
        -4712 <= year <= 9999,
        1 <= month <= 12,
        1 <= day <= 31,
        hour < 24,
        min < 60,
        sec < 60,
    ensures
        r == jd_micros_of_utc(
            year as int,
            month as int,
            day as int,
            hour as int,
            min as int,
            sec as int,
        ),
{
    let jdn: i64 = jdn_from_date(year, month, day);
    proof {
        lemma_jdn_range(year as int, month as int, day as int);
    }
    let day_secs: i64 = hour as i64 * 3600 + min as i64 * 60 + sec as i64;
    (jdn * 86400 - 43200 + day_secs) * 1_000_000
}

/// The Julian Day Number of any date in the supported year span is small:
/// the formula is dominated by `365 * (year + 4800)`.
pub proof fn lemma_jdn_range(year: int, month: int, day: int)
    requires
        -4712 <= year <= 9999,
        1 <= month <= 12,
        1 <= day <= 31,
    ensures
        0 <= jdn_at(year, month, day) <= 5_400_000,
{
}

// ---------------------------------------------------------------------------
// Fixed-point scalar helpers.
//
// Angles are carried in nanodegrees (`_e9`), Julian centuries from J2000 in
// picocenturies (`_e12`).  Division is truncated (rounded toward zero), the
// one convention that splits into two non-negative divisions.
// ---------------------------------------------------------------------------

/// Truncated division: round toward zero, as the scalar engine uses it.
pub open spec fn div_tz(a: int, d: int) -> int {
    if a >= 0 {
        a / d
    } else {
        -((-a) / d)
    }
}

/// Both factors bounded gives a bounded product.
proof fn lemma_mul_bound(x: int, y: int, bx: int, by: int)
    requires
        -bx <= x <= bx,
        -by <= y <= by,
        0 <= bx,
        0 <= by,
    ensures
        -(bx * by) <= x * y <= bx * by,
{
    assert(-(bx * by) <= x * y <= bx * by) by (nonlinear_arith)
        requires
            -bx <= x <= bx,
            -by <= y <= by,
            0 <= bx,
            0 <= by,
    ;
}

/// Truncated division of an `i128` by a positive divisor.
fn div_ti(a: i128, d: i128) -> (r: i128)
    requires
        d > 0,
        -0x4000_0000_0000_0000_0000_0000_0000_0000 < a,
    ensures
        r == div_tz(a as int, d as int),
        a >= 0 ==> 0 <= r && d * r <= a < d * r + d,
        a <= 0 ==> r <= 0 && d * r >= a > d * r - d,
{
    if a >= 0 {
        let q: i128 = ((a as u128) / (d as u128)) as i128;
        proof {
            lemma_fundamental_div_mod(a as int, d as int);
            lemma_mod_division_less_than_divisor(a as int, d as int);
        }
        q
    } else {
        let m: i128 = -a;
        let q: i128 = ((m as u128) / (d as u128)) as i128;
        proof {
            lemma_fundamental_div_mod(m as int, d as int);
            lemma_mod_division_less_than_divisor(m as int, d as int);
            vstd::arithmetic::mul::lemma_mul_unary_negation(d as int, q as int);
        }
        -q
    }
}

/// Multiply two bounded factors and divide (truncated) by a positive
/// divisor, with the result bound computed from the factor bounds.
fn mul_div_ti(u: i128, v: i128, d: i128, bu: i128, bv: i128) -> (r: i128)
    requires
        d > 0,
        0 <= bu,
        0 <= bv,
        -bu <= u <= bu,
        -bv <= v <= bv,
        bu * bv < 0x4000_0000_0000_0000_0000_0000_0000_0000,
    ensures
        r == div_tz(u * v, d as int),
        -((bu * bv) / (d as int)) <= r <= (bu * bv) / (d as int),
{
    proof {
        lemma_mul_bound(u as int, v as int, bu as int, bv as int);
    }
    let p: i128 = u * v;
    let r: i128 = div_ti(p, d);
    proof {
        if p >= 0 {
            lemma_div_is_ordered(p as int, (bu * bv) as int, d as int);
        } else {
            lemma_div_is_ordered(-p as int, (bu * bv) as int, d as int);
        }
    }
    r
}

/// Euclidean remainder modulo a full circle in nanodegrees, for angles from
/// the scalar engine's working range.
fn norm_deg_e9(a: i128) -> (r: i128)
    requires
        -36_000_000_000_000_000 <= a <= 36_000_000_000_000_000,
    ensures
        r == a % 360_000_000_000,
        0 <= r < 360_000_000_000,
{
    let shifted: i128 = a + 360_000_000_000 * 1_000_000;
    proof {
        lemma_mod_multiples_vanish(1_000_000, a as int, 360_000_000_000);
        lemma_fundamental_div_mod(shifted as int, 360_000_000_000);
        lemma_mod_division_less_than_divisor(shifted as int, 360_000_000_000);
    }
    shifted % 360_000_000_000
}

// ---------------------------------------------------------------------------
// Sine in fixed point.
// ---------------------------------------------------------------------------

/// Sine on the first quadrant, nanodegree argument in `[0, 90e9]`, result
/// scaled by 1e9: the Taylor series through the eleventh power, evaluated
/// in the truncated fixed-point arithmetic above.
#[verifier::opaque]
pub open spec fn sin_quarter_e9_at(d_e9: int) -> int {
    let x = div_tz(d_e9 * 314_159_265_358_979, 18_000_000_000_000_000);
    let x2 = div_tz(x * x, 1_000_000_000);
    let x3 = div_tz(x2 * x, 1_000_000_000);
    let x5 = div_tz(x3 * x2, 1_000_000_000);
    let x7 = div_tz(x5 * x2, 1_000_000_000);
    let x9 = div_tz(x7 * x2, 1_000_000_000);
    let x11 = div_tz(x9 * x2, 1_000_000_000);
    x - div_tz(x3, 6) + div_tz(x5, 120) - div_tz(x7, 5040) + div_tz(x9, 362_880) - div_tz(
        x11,
        39_916_800,
    )
}

/// Sine of any angle in nanodegrees, by quadrant reduction to the first
/// quarter after a Euclidean reduction modulo 360 degrees.
#[verifier::opaque]
pub open spec fn sin_e9_at(a_e9: int) -> int {
    let nn = a_e9 % 360_000_000_000;
    if nn <= 90_000_000_000 {
        sin_quarter_e9_at(nn)
    } else if nn <= 180_000_000_000 {
        sin_quarter_e9_at(180_000_000_000 - nn)
    } else if nn <= 270_000_000_000 {
        -sin_quarter_e9_at(nn - 180_000_000_000)
    } else {
        -sin_quarter_e9_at(360_000_000_000 - nn)
    }
}

/// First-quadrant sine, executable form.
#[verifier::rlimit(80)]
fn sin_quarter_e9(d_e9: i128) -> (r: i128)
    requires
        0 <= d_e9 <= 90_000_000_000,
    ensures
        r == sin_quarter_e9_at(d_e9 as int),
        -2_600_000_000 <= r <= 2_600_000_000,
{
    proof {
        reveal(sin_quarter_e9_at);
    }
    let x: i128 = mul_div_ti(
        d_e9,
        314_159_265_358_979,
        18_000_000_000_000_000,
        90_000_000_000,
        314_159_265_358_979,
    );
    let x2: i128 = mul_div_ti(x, x, 1_000_000_000, 1_570_796_326, 1_570_796_326);
    let x3: i128 = mul_div_ti(x2, x, 1_000_000_000, 2_467_401_097, 1_570_796_326);
    let x5: i128 = mul_div_ti(x3, x2, 1_000_000_000, 3_875_784_577, 2_467_401_097);
    let x7: i128 = mul_div_ti(x5, x2, 1_000_000_000, 9_563_115_117, 2_467_401_097);
    let x9: i128 = mul_div_ti(x7, x2, 1_000_000_000, 23_596_040_730, 2_467_401_097);
    let x11: i128 = mul_div_ti(x9, x2, 1_000_000_000, 58_220_896_782, 2_467_401_097);
    let t3: i128 = div_ti(x3, 6);
    let t5: i128 = div_ti(x5, 120);
    let t7: i128 = div_ti(x7, 5040);
    let t9: i128 = div_ti(x9, 362_880);
    let t11: i128 = div_ti(x11, 39_916_800);
    x - t3 + t5 - t7 + t9 - t11
}

/// Sine of an angle in nanodegrees, executable form.
fn sin_e9(a_e9: i128) -> (r: i128)
    requires
        -36_000_000_000_000_000 <= a_e9 <= 36_000_000_000_000_000,
    ensures
        r == sin_e9_at(a_e9 as int),
        -2_600_000_000 <= r <= 2_600_000_000,
{
    proof {
        reveal(sin_e9_at);
    }
    let nn: i128 = norm_deg_e9(a_e9);
    if nn <= 90_000_000_000 {
        sin_quarter_e9(nn)
    } else if nn <= 180_000_000_000 {
        sin_quarter_e9(180_000_000_000 - nn)
    } else if nn <= 270_000_000_000 {
        let s = sin_quarter_e9(nn - 180_000_000_000);
        -s
    } else {
        let s = sin_quarter_e9(360_000_000_000 - nn);
        -s
    }
}

// ---------------------------------------------------------------------------
// The Sun's apparent ecliptic longitude.
// ---------------------------------------------------------------------------

/// Julian centuries from J2000.0, in picocenturies, of a Julian-Date
/// instant in microseconds.  One century is 36525 days.
pub open spec fn centuries_e12_at(jd_micros: int) -> int {
    div_tz((jd_micros - J2000_JD_MICROS) * 1_000_000, 3_155_760_000)
}

/// The Sun's apparent ecliptic longitude in nanodegrees, in `[0, 360e9)`:
/// the classical truncated series (mean longitude, equation of center from
/// the mean anomaly, nutation correction), evaluated in the truncated
/// fixed-point arithmetic of this module.
#[verifier::opaque]
pub open spec fn sun_longitude_e9_at(jd_micros: int) -> int {
    let t = centuries_e12_at(jd_micros);
    let t2 = div_tz(t * t, 1_000_000_000_000);
    let l0 = 280_466_460_000 + div_tz(36_000_769_830_000 * t, 1_000_000_000_000) + div_tz(
        303_200 * t2,
        1_000_000_000_000,
    );
    let m = 357_529_110_000 + div_tz(35_999_050_290_000 * t, 1_000_000_000_000) - div_tz(
        153_700 * t2,
        1_000_000_000_000,
    );
    let c1 = 1_914_602_000 - div_tz(4_817_000 * t, 1_000_000_000_000) - div_tz(
        14_000 * t2,
        1_000_000_000_000,
    );
    let c2 = 19_993_000 - div_tz(101_000 * t, 1_000_000_000_000);
    let c = div_tz(c1 * sin_e9_at(m), 1_000_000_000) + div_tz(
        c2 * sin_e9_at(2 * m),
        1_000_000_000,
    ) + div_tz(289_000 * sin_e9_at(3 * m), 1_000_000_000);
    let omega = 125_040_000_000 - div_tz(1_934_136_000_000 * t, 1_000_000_000_000);
    let lambda = l0 + c - 5_690_000 - div_tz(4_780_000 * sin_e9_at(omega), 1_000_000_000);
    lambda % 360_000_000_000
}

/// The Sun's apparent ecliptic longitude in nanodegrees.
#[verifier::rlimit(80)]
pub fn sun_apparent_longitude_e9(jd_micros: i64) -> (r: i64)
    requires
        -320_000_000_000_000_000 <= jd_micros - J2000_JD_MICROS <= 320_000_000_000_000_000,
    ensures
        r == sun_longitude_e9_at(jd_micros as int),
        0 <= r < 360_000_000_000,
{
    proof {
        reveal(sun_longitude_e9_at);
    }
    let dj: i128 = jd_micros as i128 - J2000_JD_MICROS as i128;
    let t: i128 = div_ti(dj * 1_000_000, 3_155_760_000);
    let t2: i128 = mul_div_ti(
        t,
        t,
        1_000_000_000_000,
        101_404_000_000_000,
        101_404_000_000_000,
    );
    let l0: i128 = 280_466_460_000 + div_ti(36_000_769_830_000 * t, 1_000_000_000_000) + div_ti(
        303_200 * t2,
        1_000_000_000_000,
    );
    let m: i128 = 357_529_110_000 + div_ti(35_999_050_290_000 * t, 1_000_000_000_000) - div_ti(
        153_700 * t2,
        1_000_000_000_000,
    );
    let sin_m: i128 = sin_e9(m);
    let sin_2m: i128 = sin_e9(2 * m);
    let sin_3m: i128 = sin_e9(3 * m);
    let c1: i128 = 1_914_602_000 - div_ti(4_817_000 * t, 1_000_000_000_000) - div_ti(
        14_000 * t2,
        1_000_000_000_000,
    );
    let c2: i128 = 19_993_000 - div_ti(101_000 * t, 1_000_000_000_000);
    let c: i128 = mul_div_ti(c1, sin_m, 1_000_000_000, 2_600_000_000, 2_600_000_000)
        + mul_div_ti(c2, sin_2m, 1_000_000_000, 31_000_000, 2_600_000_000) + div_ti(
        289_000 * sin_3m,
        1_000_000_000,
    );
    let omega: i128 = 125_040_000_000 - div_ti(1_934_136_000_000 * t, 1_000_000_000_000);
    let sin_omega: i128 = sin_e9(omega);
    let lambda: i128 = l0 + c - 5_690_000 - div_ti(4_780_000 * sin_omega, 1_000_000_000);
    let r: i128 = norm_deg_e9(lambda);
    r as i64
}

// ---------------------------------------------------------------------------
// The 24 solar-term definitions, in calendar order starting at Xiaohan.
// ---------------------------------------------------------------------------

/// Ecliptic longitude (whole degrees) of each term: 285 for Xiaohan, then
/// 15 degrees per step, wrapping past 360.
pub open spec fn term_angle_deg_at(idx: int) -> int {
    (285 + idx * 15) % 360
}

/// Sun longitude target of a term in nanodegrees.
pub fn term_angle_e9(idx: usize) -> (a: i64)
    requires
        idx < 24,
    ensures
        a == term_angle_deg_at(idx as int) * 1_000_000_000,
        0 <= a < 360_000_000_000,
{
    proof {
        lemma_mod_division_less_than_divisor(285 + idx * 15, 360);
    }
    let deg: usize = (285 + idx * 15) % 360;
    deg as i64 * 1_000_000_000
}

/// The position of Lichun in the calendar-ordered term table.
pub const LICHUN_IDX: usize = 2;

/// Definition record of the term at a table position.
pub open spec fn term_def_at(idx: int) -> TermDef {
    if idx == 0 {
        (TermDef { key: "xiaohan", name_ko: "소한", name_hanja: "小寒", name_en: "Xiaohan", angle_deg: 285 })
    } else if idx == 1 {
        (TermDef { key: "dahan", name_ko: "대한", name_hanja: "大寒", name_en: "Dahan", angle_deg: 300 })
    } else if idx == 2 {
        (TermDef { key: "lichun", name_ko: "입춘", name_hanja: "立春", name_en: "Lichun", angle_deg: 315 })
    } else if idx == 3 {
        (TermDef { key: "yushui", name_ko: "우수", name_hanja: "雨水", name_en: "Yushui", angle_deg: 330 })
    } else if idx == 4 {
        (TermDef { key: "jingzhe", name_ko: "경칩", name_hanja: "驚蟄", name_en: "Jingzhe", angle_deg: 345 })
    } else if idx == 5 {
        (TermDef { key: "chunfen", name_ko: "춘분", name_hanja: "春分", name_en: "Chunfen", angle_deg: 0 })
    } else if idx == 6 {
        (TermDef { key: "qingming", name_ko: "청명", name_hanja: "清明", name_en: "Qingming", angle_deg: 15 })
    } else if idx == 7 {
        (TermDef { key: "guyu", name_ko: "곡우", name_hanja: "谷雨", name_en: "Guyu", angle_deg: 30 })
    } else if idx == 8 {
        (TermDef { key: "lixia", name_ko: "입하", name_hanja: "立夏", name_en: "Lixia", angle_deg: 45 })
    } else if idx == 9 {
        (TermDef { key: "xiaoman", name_ko: "소만", name_hanja: "小滿", name_en: "Xiaoman", angle_deg: 60 })
    } else if idx == 10 {
        (TermDef { key: "mangzhong", name_ko: "망종", name_hanja: "芒種", name_en: "Mangzhong", angle_deg: 75 })
    } else if idx == 11 {
        (TermDef { key: "xiazhi", name_ko: "하지", name_hanja: "夏至", name_en: "Xiazhi", angle_deg: 90 })
    } else if idx == 12 {
        (TermDef { key: "xiaoshu", name_ko: "소서", name_hanja: "小暑", name_en: "Xiaoshu", angle_deg: 105 })
    } else if idx == 13 {
        (TermDef { key: "dashu", name_ko: "대서", name_hanja: "大暑", name_en: "Dashu", angle_deg: 120 })
    } else if idx == 14 {
        (TermDef { key: "liqiu", name_ko: "입추", name_hanja: "立秋", name_en: "Liqiu", angle_deg: 135 })
    } else if idx == 15 {
        (TermDef { key: "chushu", name_ko: "처서", name_hanja: "處暑", name_en: "Chushu", angle_deg: 150 })
    } else if idx == 16 {
        (TermDef { key: "bailu", name_ko: "백로", name_hanja: "白露", name_en: "Bailu", angle_deg: 165 })
    } else if idx == 17 {
        (TermDef { key: "qiufen", name_ko: "추분", name_hanja: "秋分", name_en: "Qiufen", angle_deg: 180 })
    } else if idx == 18 {
        (TermDef { key: "hanlu", name_ko: "한로", name_hanja: "寒露", name_en: "Hanlu", angle_deg: 195 })
    } else if idx == 19 {
        (TermDef { key: "shuangjiang", name_ko: "상강", name_hanja: "霜降", name_en: "Shuangjiang", angle_deg: 210 })
    } else if idx == 20 {
        (TermDef { key: "lidong", name_ko: "입동", name_hanja: "立冬", name_en: "Lidong", angle_deg: 225 })
    } else if idx == 21 {
        (TermDef { key: "xiaoxue", name_ko: "소설", name_hanja: "小雪", name_en: "Xiaoxue", angle_deg: 240 })
    } else if idx == 22 {
        (TermDef { key: "daxue", name_ko: "대설", name_hanja: "大雪", name_en: "Daxue", angle_deg: 255 })
    } else {
        (TermDef { key: "dongzhi", name_ko: "동지", name_hanja: "冬至", name_en: "Dongzhi", angle_deg: 270 })
    }
}

/// Definition record of the term at a table position.
pub fn term_def(idx: usize) -> (t: TermDef)
    requires
        idx < 24,
    ensures
        t == term_def_at(idx as int),
{
    if idx == 0 {
        TermDef { key: "xiaohan", name_ko: "소한", name_hanja: "小寒", name_en: "Xiaohan", angle_deg: 285 }
    } else if idx == 1 {
        TermDef { key: "dahan", name_ko: "대한", name_hanja: "大寒", name_en: "Dahan", angle_deg: 300 }
    } else if idx == 2 {
        TermDef { key: "lichun", name_ko: "입춘", name_hanja: "立春", name_en: "Lichun", angle_deg: 315 }
    } else if idx == 3 {
        TermDef { key: "yushui", name_ko: "우수", name_hanja: "雨水", name_en: "Yushui", angle_deg: 330 }
    } else if idx == 4 {
        TermDef { key: "jingzhe", name_ko: "경칩", name_hanja: "驚蟄", name_en: "Jingzhe", angle_deg: 345 }
    } else if idx == 5 {
        TermDef { key: "chunfen", name_ko: "춘분", name_hanja: "春分", name_en: "Chunfen", angle_deg: 0 }
    } else if idx == 6 {
        TermDef { key: "qingming", name_ko: "청명", name_hanja: "清明", name_en: "Qingming", angle_deg: 15 }
    } else if idx == 7 {
        TermDef { key: "guyu", name_ko: "곡우", name_hanja: "谷雨", name_en: "Guyu", angle_deg: 30 }
    } else if idx == 8 {
        TermDef { key: "lixia", name_ko: "입하", name_hanja: "立夏", name_en: "Lixia", angle_deg: 45 }
    } else if idx == 9 {
        TermDef { key: "xiaoman", name_ko: "소만", name_hanja: "小滿", name_en: "Xiaoman", angle_deg: 60 }
    } else if idx == 10 {
        TermDef { key: "mangzhong", name_ko: "망종", name_hanja: "芒種", name_en: "Mangzhong", angle_deg: 75 }
    } else if idx == 11 {
        TermDef { key: "xiazhi", name_ko: "하지", name_hanja: "夏至", name_en: "Xiazhi", angle_deg: 90 }
    } else if idx == 12 {
        TermDef { key: "xiaoshu", name_ko: "소서", name_hanja: "小暑", name_en: "Xiaoshu", angle_deg: 105 }
    } else if idx == 13 {
        TermDef { key: "dashu", name_ko: "대서", name_hanja: "大暑", name_en: "Dashu", angle_deg: 120 }
    } else if idx == 14 {
        TermDef { key: "liqiu", name_ko: "입추", name_hanja: "立秋", name_en: "Liqiu", angle_deg: 135 }
    } else if idx == 15 {
        TermDef { key: "chushu", name_ko: "처서", name_hanja: "處暑", name_en: "Chushu", angle_deg: 150 }
    } else if idx == 16 {
        TermDef { key: "bailu", name_ko: "백로", name_hanja: "白露", name_en: "Bailu", angle_deg: 165 }
    } else if idx == 17 {
        TermDef { key: "qiufen", name_ko: "추분", name_hanja: "秋分", name_en: "Qiufen", angle_deg: 180 }
    } else if idx == 18 {
        TermDef { key: "hanlu", name_ko: "한로", name_hanja: "寒露", name_en: "Hanlu", angle_deg: 195 }
    } else if idx == 19 {
        TermDef { key: "shuangjiang", name_ko: "상강", name_hanja: "霜降", name_en: "Shuangjiang", angle_deg: 210 }
    } else if idx == 20 {
        TermDef { key: "lidong", name_ko: "입동", name_hanja: "立冬", name_en: "Lidong", angle_deg: 225 }
    } else if idx == 21 {
        TermDef { key: "xiaoxue", name_ko: "소설", name_hanja: "小雪", name_en: "Xiaoxue", angle_deg: 240 }
    } else if idx == 22 {
        TermDef { key: "daxue", name_ko: "대설", name_hanja: "大雪", name_en: "Daxue", angle_deg: 255 }
    } else {
        TermDef { key: "dongzhi", name_ko: "동지", name_hanja: "冬至", name_en: "Dongzhi", angle_deg: 270 }
    }
}

// ---------------------------------------------------------------------------
// Locating the terms of a year.
// ---------------------------------------------------------------------------

/// Bisect the instant at which the unwrapped longitude first reaches the
/// target, inside one day's window.  Sixty halvings narrow a day to well
/// under a microsecond, as the day count is carried in microseconds.
fn refine_term(jd0: i64, jd1: i64, lon0: i64, target: i64) -> (r: i64)
    requires
        jd0 <= jd1,
        -320_000_000_000_000_000 <= jd0 - J2000_JD_MICROS,
        jd1 - J2000_JD_MICROS <= 320_000_000_000_000_000,
        -2_000_000_000_000 <= lon0 <= 2_000_000_000_000,
    ensures
        jd0 <= r <= jd1,
        jd0 < jd1 ==> r < jd1,
{
    let mut lo: i64 = jd0;
    let mut hi: i64 = jd1;
    let mut lo_lon: i64 = lon0;
    for _step in 0..60u32
        invariant
            jd0 <= lo <= hi <= jd1,
            jd0 < jd1 ==> lo < jd1,
            -320_000_000_000_000_000 <= jd0 - J2000_JD_MICROS,
            jd1 - J2000_JD_MICROS <= 320_000_000_000_000_000,
            -2_000_000_000_000 <= lo_lon <= 2_000_000_000_000,
    {
        let mid: i64 = lo + (hi - lo) / 2;
        let mut mid_lon: i64 = sun_apparent_longitude_e9(mid);
        if mid_lon < lo_lon {
            mid_lon = mid_lon + 360_000_000_000;
        }
        if mid_lon >= target {
            hi = mid;
        } else {
            lo = mid;
            lo_lon = mid_lon;
        }
    }
    lo + (hi - lo) / 2
}

/// A Gregorian year is never shorter than 300 or longer than 400 days by
/// the Julian-Day-Number formula.
proof fn lemma_year_span(year: int)
    requires
        -4712 <= year <= 9998,
    ensures
        300 <= jdn_at(year + 1, 1, 1) - jdn_at(year, 1, 1) <= 400,
{
}

/// An angle lifted by whole turns until it rises strictly above `last`:
/// the unwrapping discipline of the term sweep's target list.
pub open spec fn lift_above(a: int, last: int) -> int {
    if a > last {
        a
    } else {
        a + 360_000_000_000 * ((last - a) / 360_000_000_000 + 1)
    }
}

/// Lifting lands strictly above the floor.
proof fn lemma_lift_above_gt(a: int, last: int)
    requires
        0 <= a,
    ensures
        lift_above(a, last) > last,
{
    if a <= last {
        lemma_fundamental_div_mod(last - a, 360_000_000_000);
        lemma_mod_division_less_than_divisor(last - a, 360_000_000_000);
    }
}

/// One whole turn toward the floor does not change where the lift lands.
proof fn lemma_lift_above_step(a: int, last: int)
    requires
        0 <= a,
        a <= last,
    ensures
        lift_above(a + 360_000_000_000, last) == lift_above(a, last),
{
    if a + 360_000_000_000 <= last {
        vstd::arithmetic::div_mod::lemma_div_plus_one(last - a - 360_000_000_000, 360_000_000_000);
    } else {
        vstd::arithmetic::div_mod::lemma_basic_div(last - a, 360_000_000_000);
    }
}

/// The unwrapped target angle of the term at table position `idx`: its
/// angle, lifted by whole turns until it exceeds the previous target, so
/// that the target list rises monotonically through the year.
pub open spec fn sweep_target_at(idx: int) -> int
    decreases idx when idx >= 0
{
    if idx <= 0 {
        lift_above(term_angle_deg_at(0) * 1_000_000_000, -1_000_000_000)
    } else {
        lift_above(term_angle_deg_at(idx) * 1_000_000_000, sweep_target_at(idx - 1))
    }
}

/// The sweep's unwrapped longitude at `start` plus `d` whole days: the raw
/// longitude of that instant, lifted a full turn where it reads below the
/// previous day's unwrapped value.
pub open spec fn sweep_lon_at(start: int, d: int) -> int
    decreases d when d >= 0
{
    if d <= 0 {
        sun_longitude_e9_at(start)
    } else {
        let prev = sweep_lon_at(start, d - 1);
        let raw = sun_longitude_e9_at(start + d * 86_400_000_000);
        if raw < prev {
            raw + 360_000_000_000
        } else {
            raw
        }
    }
}

/// The number of whole days that the sweep of a year walks.
pub open spec fn year_sweep_days(year: int) -> int {
    (jd_micros_of_utc(year + 1, 1, 1, 0, 0, 0) - jd_micros_of_utc(year, 1, 1, 0, 0, 0))
        / 86_400_000_000
}

/// Where the sweep puts the term at table position `idx` of a year whose
/// window starts at `start` and runs `days` days: inside the day window in
/// which the unwrapped longitude crosses the term's unwrapped target, up
/// to the run normalization's microsecond slack — unless the target falls
/// below the year's opening unwrapped longitude, or the sweep's closing
/// longitude never reaches it.
pub open spec fn term_located_at(t: SolarTerm, start: int, days: int, idx: int) -> bool {
    ||| sweep_target_at(idx) < sweep_lon_at(start, 0)
    ||| sweep_target_at(idx) > sweep_lon_at(start, days)
    ||| exists|d: int|
        {
            &&& 1 <= d <= days
            &&& start + (d - 1) * 86_400_000_000 <= t.jd_micros <= start + d * 86_400_000_000
                + 24
            &&& sweep_lon_at(start, d - 1) <= sweep_target_at(idx) <= #[trigger] sweep_lon_at(
                start,
                d,
            )
        }
}

/// A well-formed term run of a Gregorian year: every one of the 24
/// definitions exactly once, in calendar order, at strictly increasing
/// instants, all inside the year.
pub open spec fn terms_of_year_wf(s: Seq<SolarTerm>, year: int) -> bool {
    &&& s.len() == 24
    &&& forall|i: int| 0 <= i < 24 ==> (#[trigger] s[i]).def_idx == i
    &&& forall|i: int, j: int| 0 <= i < j < 24 ==> s[i].jd_micros < s[j].jd_micros
    &&& forall|i: int|
        0 <= i < 24 ==> jd_micros_of_utc(year, 1, 1, 0, 0, 0) <= (#[trigger] s[i]).jd_micros
            < jd_micros_of_utc(year + 1, 1, 1, 0, 0, 0)
}

/// Locate the solar terms of a Gregorian year.
///
/// The sweep walks the year one day at a time, keeps the Sun's longitude
/// monotone by unwrapping full turns, and bisects the first day window in
/// which the outstanding target angle is reached, one target after the
/// other in calendar order.  The result is a well-formed run: all 24
/// definitions in calendar order, at strictly increasing instants inside
/// the year; and each instant sits in the day window where the sweep's
/// unwrapped longitude crosses the term's unwrapped target, as
/// `term_located_at` states it.
#[verifier::rlimit(100)]
#[verifier::spinoff_prover]
pub fn compute_solar_terms(year: i32) -> (r: Vec<SolarTerm>)
    requires
        -4712 <= year <= 9998,
    ensures
        terms_of_year_wf(r@, year as int),
        forall|i: int|
            0 <= i < 24 ==> term_located_at(
                #[trigger] r@[i],
                jd_micros_of_utc(year as int, 1, 1, 0, 0, 0),
                year_sweep_days(year as int),
                i,
            ),
{
    let start: i64 = jd_from_utc_date(year, 1, 1, 0, 0, 0);
    let end: i64 = jd_from_utc_date(year + 1, 1, 1, 0, 0, 0);
    proof {
        lemma_jdn_range(year as int, 1, 1);
        lemma_jdn_range(year as int + 1, 1, 1);
        lemma_year_span(year as int);
    }
    let days: i64 = (end - start) / MICROS_PER_DAY;

    let mut targets: Vec<i64> = Vec::new();
    let mut last: i64 = -1_000_000_000;
    for i in 0..24usize
        invariant
            targets@.len() == i,
            -1_000_000_000 <= last <= 345_000_000_000 + i as int * 360_000_000_000,
            forall|j: int| 0 <= j < i ==> #[trigger] targets@[j] == sweep_target_at(j),
            i == 0 ==> last == -1_000_000_000,
            i > 0 ==> last == sweep_target_at(i - 1),
    {
        let mut angle: i64 = term_angle_e9(i);
        while angle <= last
            invariant
                i < 24,
                -1_000_000_000 <= last <= 345_000_000_000 + i as int * 360_000_000_000,
                0 <= angle <= last + 360_000_000_000,
                lift_above(angle as int, last as int) == sweep_target_at(i as int),
            decreases last + 360_000_000_000 - angle,
        {
            proof {
                lemma_lift_above_step(angle as int, last as int);
            }
            angle = angle + 360_000_000_000;
        }
        targets.push(angle);
        last = angle;
    }
    proof {
        assert forall|j: int| 0 < j < 24 implies sweep_target_at(j - 1)
            < #[trigger] sweep_target_at(j) by {
            lemma_mod_division_less_than_divisor(285 + j * 15, 360);
            lemma_lift_above_gt(term_angle_deg_at(j) * 1_000_000_000, sweep_target_at(j - 1));
        };
    }

    let mut results: Vec<SolarTerm> = Vec::new();
    let mut last_jd: i64 = start - 1;
    let mut prev_jd: i64 = start;
    let mut prev_unwrapped: i64 = sun_apparent_longitude_e9(prev_jd);
    let mut day: i64 = 1;
    proof {
        assert(days == year_sweep_days(year as int));
        assert(prev_unwrapped == sweep_lon_at(start as int, 0));
    }

    let mut tidx: usize = 0;
    while tidx < 24
        invariant
            tidx <= 24,
            targets@.len() == 24,
            start == jd_micros_of_utc(year as int, 1, 1, 0, 0, 0),
            end == jd_micros_of_utc(year as int + 1, 1, 1, 0, 0, 0),
            end == start + days * (MICROS_PER_DAY as int),
            300 <= days <= 400,
            days == year_sweep_days(year as int),
            -43_200_000_000 <= start,
            -320_000_000_000_000_000 <= start - J2000_JD_MICROS,
            end - J2000_JD_MICROS <= 320_000_000_000_000_000,
            1 <= day <= days + 1,
            prev_jd == start + (day - 1) * (MICROS_PER_DAY as int),
            0 <= prev_unwrapped < 720_000_000_000,
            prev_unwrapped == sweep_lon_at(start as int, day - 1),
            forall|j: int| 0 <= j < 24 ==> #[trigger] targets@[j] == sweep_target_at(j),
            forall|j: int| 0 < j < 24 ==> sweep_target_at(j - 1) < #[trigger] sweep_target_at(
                j,
            ),
            tidx == 0 ==> day == 1,
            day > 1 ==> (1 <= tidx && prev_unwrapped <= sweep_target_at(tidx - 1)),
            results@.len() == tidx,
            start - 1 <= last_jd,
            last_jd + (24 - tidx) < end,
            last_jd <= prev_jd + 86_400_000_000 + tidx,
            tidx == 0 ==> last_jd == start - 1,
            tidx > 0 ==> last_jd == results@[tidx - 1].jd_micros,
            forall|i: int| 0 <= i < tidx ==> (#[trigger] results@[i]).def_idx == i,
            forall|i: int|
                0 <= i < tidx ==> start <= (#[trigger] results@[i]).jd_micros <= last_jd,
            forall|i: int, j: int|
                0 <= i < j < tidx ==> results@[i].jd_micros < results@[j].jd_micros,
            forall|i: int|
                0 <= i < tidx ==> term_located_at(
                    #[trigger] results@[i],
                    start as int,
                    days as int,
                    i,
                ),
        decreases 24 - tidx,
    {
        let target: i64 = targets[tidx];
        proof {
            assert(target == sweep_target_at(tidx as int));
        }
        let ghost mut fd: int = 0;
        let ghost mut exhausted: bool = false;
        let mut found: i64 = prev_jd;
        if target >= prev_unwrapped {
            // Advance the sweep until the unwrapped longitude reaches the
            // target, then bisect inside that day's window.  A target still
            // below the sweep's opening longitude (the other branch) keeps
            // the sweep's current position as its instant.
            let ghost day0: int = day as int;
            let ghost pw0: int = prev_unwrapped as int;
            let mut searching: bool = true;
            while day <= days && searching
                invariant
                    1 <= day <= days + 1,
                    prev_jd == start + (day - 1) * (MICROS_PER_DAY as int),
                    0 <= prev_unwrapped < 720_000_000_000,
                    300 <= days <= 400,
                    end == start + days * (MICROS_PER_DAY as int),
                    -43_200_000_000 <= start,
                    -320_000_000_000_000_000 <= start - J2000_JD_MICROS,
                    end - J2000_JD_MICROS <= 320_000_000_000_000_000,
                    start <= prev_jd,
                    last_jd <= prev_jd + 86_400_000_000 + tidx,
                    tidx < 24,
                    target == sweep_target_at(tidx as int),
                    prev_unwrapped == sweep_lon_at(start as int, day - 1),
                    day0 <= day,
                    searching ==> found == prev_jd,
                    prev_unwrapped <= target,
                    day > day0 ==> prev_unwrapped < target,
                    day == day0 ==> prev_unwrapped == pw0,
                    !searching ==> {
                        &&& 1 <= fd <= days
                        &&& prev_jd == start + (fd - 1) * (MICROS_PER_DAY as int)
                        &&& start + (fd - 1) * (MICROS_PER_DAY as int) <= found < start + fd
                            * (MICROS_PER_DAY as int)
                        &&& sweep_lon_at(start as int, fd - 1) <= target <= sweep_lon_at(
                            start as int,
                            fd,
                        )
                        &&& start <= found < end
                    },
                decreases (days + 1 - day) + (if searching {
                    1int
                } else {
                    0int
                }),
            {
                let jd: i64 = prev_jd + MICROS_PER_DAY;
                let mut lon: i64 = sun_apparent_longitude_e9(jd);
                if lon < prev_unwrapped {
                    lon = lon + 360_000_000_000;
                }
                proof {
                    assert(lon == sweep_lon_at(start as int, day as int));
                }
                if lon >= target {
                    found = refine_term(prev_jd, jd, prev_unwrapped, target);
                    proof {
                        fd = day as int;
                    }
                    searching = false;
                } else {
                    prev_jd = jd;
                    prev_unwrapped = lon;
                    day = day + 1;
                    found = prev_jd;
                }
            }
            proof {
                if searching {
                    // The year ran out before the unwrapped longitude
                    // reached the target.
                    exhausted = true;
                    assert(day == days + 1);
                    if day == day0 {
                        assert(prev_unwrapped <= sweep_target_at(tidx - 1));
                        assert(sweep_target_at(tidx - 1) < sweep_target_at(tidx as int));
                    }
                    assert(sweep_lon_at(start as int, days as int) < target);
                }
            }
        } else {
            // The target already fell below the sweep's opening longitude:
            // only possible on the year's first day, before any search has
            // moved the sweep.
            proof {
                if day > 1 {
                    assert(prev_unwrapped <= sweep_target_at(tidx - 1));
                    assert(sweep_target_at(tidx - 1) < sweep_target_at(tidx as int));
                    assert(false);
                }
                assert(target < sweep_lon_at(start as int, 0));
            }
        }
        // The astronomy puts consecutive targets about fifteen days apart,
        // well inside the year; this normalization enforces the run
        // invariant outright, so it holds on every admitted year.
        let mut term_jd: i64 = found;
        if term_jd <= last_jd {
            term_jd = last_jd + 1;
        }
        let cap: i64 = end - 24 + tidx as i64;
        if term_jd > cap {
            term_jd = cap;
        }
        proof {
            let t = (SolarTerm { def_idx: tidx, jd_micros: term_jd });
            if target < sweep_lon_at(start as int, 0) {
                assert(term_located_at(t, start as int, days as int, tidx as int));
            } else if exhausted {
                assert(sweep_target_at(tidx as int) > sweep_lon_at(start as int, days as int));
                assert(term_located_at(t, start as int, days as int, tidx as int));
            } else {
                // The bisected instant stays inside its crossing window
                // through the normalization: a backward bump lands at most
                // `tidx + 1` microseconds past the window, and the cap can
                // only cut into the last window of the year.
                let pre: int = if found <= last_jd {
                    last_jd + 1
                } else {
                    found as int
                };
                assert(start + (fd - 1) * (MICROS_PER_DAY as int) <= pre);
                assert(pre <= start + fd * (MICROS_PER_DAY as int) + tidx + 1);
                if pre > cap {
                    assert(term_jd == cap);
                    assert((days - fd) * (MICROS_PER_DAY as int) < 25);
                    assert(fd == days);
                } else {
                    assert(term_jd == pre);
                }
                assert(start + (fd - 1) * (MICROS_PER_DAY as int) <= term_jd <= start + fd
                    * (MICROS_PER_DAY as int) + 24);
                assert(1 <= fd <= days && sweep_lon_at(start as int, fd - 1) <= sweep_target_at(
                    tidx as int,
                ) <= sweep_lon_at(start as int, fd));
                assert(term_located_at(t, start as int, days as int, tidx as int));
            }
        }
        results.push(SolarTerm { def_idx: tidx, jd_micros: term_jd });
        last_jd = term_jd;
        tidx = tidx + 1;
    }

    results
}

} // verus!
