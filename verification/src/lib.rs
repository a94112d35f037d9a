pub mod astro;
pub mod bazi;
pub mod chart;
pub mod i18n;
pub mod location;
pub mod luck;
pub mod strutil;
pub mod tz;
pub mod types;

pub use types::{
    CivilDateTime, Direction, Element, Gender, LmtInfo, LunarDate, Pillar, Relation, SolarTerm,
    StrengthClass, StrengthVerdict, TenGod, TermDef,
};
