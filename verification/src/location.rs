use vstd::prelude::*;
use vstd::string::StringExecFns;

use crate::astro::div_tz;
use crate::strutil::{normalize_location, normalized_of, u32_seq_eq};

verus! {

/// A resolved location: its display label and its longitude in
/// microdegrees.
pub struct LocationMatch {
    pub display: &'static str,
    pub longitude_micro: i64,
}

/// Registry key of an entry.
pub open spec fn location_key_at(i: int) -> Seq<char> {
    if i == 0 {
        "seoul"@
    } else if i == 1 {
        "busan"@
    } else if i == 2 {
        "daegu"@
    } else if i == 3 {
        "incheon"@
    } else if i == 4 {
        "gwangju"@
    } else if i == 5 {
        "daejeon"@
    } else if i == 6 {
        "ulsan"@
    } else if i == 7 {
        "sejong"@
    } else if i == 8 {
        "suwon"@
    } else if i == 9 {
        "changwon"@
    } else if i == 10 {
        "cheongju"@
    } else if i == 11 {
        "jeonju"@
    } else if i == 12 {
        "jeju"@
    } else if i == 13 {
        "gangneung"@
    } else {
        "pohang"@
    }
}

/// Display label of an entry.
pub open spec fn location_display_at(i: int) -> Seq<char> {
    if i == 0 {
        "Seoul/서울"@
    } else if i == 1 {
        "Busan/부산"@
    } else if i == 2 {
        "Daegu/대구"@
    } else if i == 3 {
        "Incheon/인천"@
    } else if i == 4 {
        "Gwangju/광주"@
    } else if i == 5 {
        "Daejeon/대전"@
    } else if i == 6 {
        "Ulsan/울산"@
    } else if i == 7 {
        "Sejong/세종"@
    } else if i == 8 {
        "Suwon/수원"@
    } else if i == 9 {
        "Changwon/창원"@
    } else if i == 10 {
        "Cheongju/청주"@
    } else if i == 11 {
        "Jeonju/전주"@
    } else if i == 12 {
        "Jeju/제주"@
    } else if i == 13 {
        "Gangneung/강릉"@
    } else {
        "Pohang/포항"@
    }
}

/// Korean alias of an entry.
pub open spec fn location_korean_at(i: int) -> Seq<char> {
    if i == 0 {
        "서울"@
    } else if i == 1 {
        "부산"@
    } else if i == 2 {
        "대구"@
    } else if i == 3 {
        "인천"@
    } else if i == 4 {
        "광주"@
    } else if i == 5 {
        "대전"@
    } else if i == 6 {
        "울산"@
    } else if i == 7 {
        "세종"@
    } else if i == 8 {
        "수원"@
    } else if i == 9 {
        "창원"@
    } else if i == 10 {
        "청주"@
    } else if i == 11 {
        "전주"@
    } else if i == 12 {
        "제주"@
    } else if i == 13 {
        "강릉"@
    } else {
        "포항"@
    }
}

/// Longitude of an entry in microdegrees.
pub open spec fn location_longitude_at(i: int) -> int {
    if i == 0 {
        126_978_000
    } else if i == 1 {
        129_075_600
    } else if i == 2 {
        128_601_400
    } else if i == 3 {
        126_705_200
    } else if i == 4 {
        126_851_400
    } else if i == 5 {
        127_384_500
    } else if i == 6 {
        129_311_400
    } else if i == 7 {
        127_289_000
    } else if i == 8 {
        127_007_800
    } else if i == 9 {
        128_681_100
    } else if i == 10 {
        127_489_000
    } else if i == 11 {
        127_148_000
    } else if i == 12 {
        126_531_200
    } else if i == 13 {
        128_876_100
    } else {
        129_365_000
    }
}

/// One registry entry: key, display label, Korean alias, longitude.
fn location_def(i: usize) -> (t: (&'static str, &'static str, &'static str, i64))
    requires
        i < 15,
    ensures
        t.0@ == location_key_at(i as int),
        t.1@ == location_display_at(i as int),
        t.2@ == location_korean_at(i as int),
        t.3 == location_longitude_at(i as int),
{
    if i == 0 {
        ("seoul", "Seoul/서울", "서울", 126_978_000)
    } else if i == 1 {
        ("busan", "Busan/부산", "부산", 129_075_600)
    } else if i == 2 {
        ("daegu", "Daegu/대구", "대구", 128_601_400)
    } else if i == 3 {
        ("incheon", "Incheon/인천", "인천", 126_705_200)
    } else if i == 4 {
        ("gwangju", "Gwangju/광주", "광주", 126_851_400)
    } else if i == 5 {
        ("daejeon", "Daejeon/대전", "대전", 127_384_500)
    } else if i == 6 {
        ("ulsan", "Ulsan/울산", "울산", 129_311_400)
    } else if i == 7 {
        ("sejong", "Sejong/세종", "세종", 127_289_000)
    } else if i == 8 {
        ("suwon", "Suwon/수원", "수원", 127_007_800)
    } else if i == 9 {
        ("changwon", "Changwon/창원", "창원", 128_681_100)
    } else if i == 10 {
        ("cheongju", "Cheongju/청주", "청주", 127_489_000)
    } else if i == 11 {
        ("jeonju", "Jeonju/전주", "전주", 127_148_000)
    } else if i == 12 {
        ("jeju", "Jeju/제주", "제주", 126_531_200)
    } else if i == 13 {
        ("gangneung", "Gangneung/강릉", "강릉", 128_876_100)
    } else {
        ("pohang", "Pohang/포항", "포항", 129_365_000)
    }
}

/// Whether a normalized name matches an entry: its key, its display
/// label, or its Korean alias, each compared in normalized form.
pub open spec fn location_matches_at(i: int, n: Seq<u32>) -> bool {
    n == normalized_of(location_key_at(i)) || n == normalized_of(location_display_at(i)) || n
        == normalized_of(location_korean_at(i))
}

/// Resolve a location name against the registry: ASCII case and the usual
/// separators are ignored; the first matching entry wins.
pub fn resolve_location(input: &str) -> (r: Option<LocationMatch>)
    ensures
        (r is Some <==> exists|i: int|
            0 <= i < 15 && location_matches_at(i, normalized_of(input@))),
        r is Some ==> exists|i: int|
            {
                &&& 0 <= i < 15
                &&& location_matches_at(i, normalized_of(input@))
                &&& forall|j: int| 0 <= j < i ==> !location_matches_at(j, normalized_of(input@))
                &&& r->0.display@ == location_display_at(i)
                &&& r->0.longitude_micro == location_longitude_at(i)
            },
{
    let n = normalize_location(input);
    let mut i: usize = 0;
    while i < 15
        invariant
            i <= 15,
            n@ == normalized_of(input@),
            forall|j: int| 0 <= j < i ==> !location_matches_at(j, normalized_of(input@)),
        decreases 15 - i,
    {
        let (key, display, korean, longitude_micro) = location_def(i);
        let nk = normalize_location(key);
        let nd = normalize_location(display);
        let na = normalize_location(korean);
        if u32_seq_eq(&n, &nk) || u32_seq_eq(&n, &nd) || u32_seq_eq(&n, &na) {
            proof {
                assert(location_matches_at(i as int, normalized_of(input@)));
            }
            return Some(LocationMatch { display, longitude_micro });
        }
        i = i + 1;
    }
    None
}

/// The comma-separated list of registry keys, for diagnostics.
pub fn location_hint() -> (s: String)
    ensures
        s@
            == "seoul, busan, daegu, incheon, gwangju, daejeon, ulsan, sejong, suwon, changwon, cheongju, jeonju, jeju, gangneung, pohang"@,
{
    String::from_str(
        "seoul, busan, daegu, incheon, gwangju, daejeon, ulsan, sejong, suwon, changwon, cheongju, jeonju, jeju, gangneung, pohang",
    )
}

/// Round `n / d` to the nearest integer, halves away from zero, for a
/// positive divisor.
pub open spec fn round_div_half_away(n: int, d: int) -> int {
    if n >= 0 {
        (n + d / 2) / d
    } else {
        -(((-n) + d / 2) / d)
    }
}

/// Local-mean-time correction for a longitude under a zone offset.
///
/// The standard meridian is `offset / 3600 * 15` degrees; the correction
/// is 240 seconds per degree of distance from it, which reduces to
/// `round(longitude * 240) - offset` seconds.  Returns the meridian in
/// microdegrees and the correction in seconds.
pub fn lmt_correction(longitude_micro: i64, offset_seconds: i32) -> (r: (i64, i64))
    requires
        -180_000_000 <= longitude_micro <= 180_000_000,
        -86400 < offset_seconds < 86400,
    ensures
        r.0 == div_tz(offset_seconds * 25_000, 6),
        r.1 == round_div_half_away(longitude_micro * 240 - offset_seconds * 1_000_000, 1_000_000),
{
    let o: i64 = offset_seconds as i64;
    let std_meridian_micro: i64 = if o >= 0 {
        o * 25_000 / 6
    } else {
        -((-o) * 25_000 / 6)
    };
    let n: i64 = longitude_micro * 240 - o * 1_000_000;
    let correction_seconds: i64 = if n >= 0 {
        (n + 500_000) / 1_000_000
    } else {
        -(((-n) + 500_000) / 1_000_000)
    };
    (std_meridian_micro, correction_seconds)
}

} // verus!
