use vstd::prelude::*;

verus! {

/// A sexagenary pillar: a heavenly-stem index in [0, 10) paired with an
/// earthly-branch index in [0, 12).  Callers construct the pairs; the type
/// itself does not force a sexagenary pairing.
#[derive(Clone, Copy, Debug, PartialEq, Eq, Structural)]
pub struct Pillar {
    pub stem: usize,
    pub branch: usize,
}

impl Pillar {
    /// Both indices lie in their cycles.
    pub open spec fn wf(self) -> bool {
        self.stem < 10 && self.branch < 12
    }
}

#[derive(Clone, Copy, Debug, PartialEq, Eq, Structural)]
pub enum Gender {
    Male,
    Female,
}

#[derive(Clone, Copy, Debug, PartialEq, Eq, Structural)]
pub enum Direction {
    Forward,
    Backward,
}

#[derive(Clone, Copy, Debug, PartialEq, Eq, Structural)]
pub enum Element {
    Wood,
    Fire,
    Earth,
    Metal,
    Water,
}

#[derive(Clone, Copy, Debug, PartialEq, Eq, Structural)]
pub enum Relation {
    Same,
    Output,
    Wealth,
    Officer,
    Resource,
}

#[derive(Clone, Copy, Debug, PartialEq, Eq, Structural)]
pub enum TenGod {
    BiGyeon,
    GeopJae,
    SikShin,
    SangGwan,
    PyeonJae,
    JeongJae,
    ChilSal,
    JeongGwan,
    PyeonIn,
    JeongIn,
}

#[derive(Clone, Copy, Debug, PartialEq, Eq, Structural)]
pub enum StrengthClass {
    Strong,
    Weak,
    Neutral,
}

#[derive(Clone, Copy, Debug, PartialEq, Eq, Structural)]
pub enum StrengthVerdict {
    Strong,
    Weak,
    Neutral,
}

/// One of the 24 solar-term definitions.  The ecliptic longitude is a whole
/// multiple of 15 degrees, so it is carried as an integer degree count.
#[derive(Clone, Copy, Debug)]
pub struct TermDef {
    pub key: &'static str,
    pub name_ko: &'static str,
    pub name_hanja: &'static str,
    pub name_en: &'static str,
    pub angle_deg: u16,
}

/// A located solar term: an index into the 24 term definitions together with
/// the instant of the term as microseconds on the Julian-Date axis
/// (`jd_micros / 86_400_000_000` is the Julian Date in days).
#[derive(Clone, Copy, Debug, PartialEq, Eq, Structural)]
pub struct SolarTerm {
    pub def_idx: usize,
    pub jd_micros: i64,
}

impl SolarTerm {
    pub open spec fn wf(self) -> bool {
        self.def_idx < 24
    }
}

/// A lunisolar calendar date.
#[derive(Clone, Copy, Debug, PartialEq, Eq, Structural)]
pub struct LunarDate {
    pub year: i32,
    pub month: u32,
    pub day: u32,
    pub is_leap: bool,
}

/// A civil wall-clock date and time, with no zone attached.
#[derive(Clone, Copy, Debug, PartialEq, Eq, Structural)]
pub struct CivilDateTime {
    pub year: i32,
    pub month: u8,
    pub day: u8,
    pub hour: u8,
    pub minute: u8,
    pub second: u8,
}

impl CivilDateTime {
    /// The field ranges of a representable civil date-time.  Month lengths
    /// are not enforced here; the calendar functions state them.
    pub open spec fn wf(self) -> bool {
        &&& -9999 <= self.year <= 9999
        &&& 1 <= self.month <= 12
        &&& 1 <= self.day <= 31
        &&& self.hour < 24
        &&& self.minute < 60
        &&& self.second < 60
    }
}

/// The record of a local-mean-time correction.  Longitudes and meridians are
/// in microdegrees; the corrected local instant is carried as a civil
/// date-time beside the offset it was localized with.
#[derive(Clone, Debug)]
pub struct LmtInfo {
    pub longitude_micro: i64,
    pub std_meridian_micro: i64,
    pub correction_seconds: i64,
    pub corrected_local: CivilDateTime,
    pub location_label: Option<String>,
}

} // verus!
