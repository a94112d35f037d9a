use vstd::prelude::*;
use vstd::string::StringExecFns;

use crate::strutil::{decimal_digits_of, decimal_of, decimal_string};
use crate::types::{Direction, Element, Gender, Pillar, StrengthClass, StrengthVerdict, TenGod, TermDef};

verus! {

/// Output language of the presentation layer.
#[derive(Clone, Copy, Debug, PartialEq, Eq, Structural)]
pub enum Lang {
    Ko,
    En,
}

/// Which of the four pillars a label names.
#[derive(Clone, Copy, Debug, PartialEq, Eq, Structural)]
pub enum PillarKind {
    Year,
    Month,
    Day,
    Hour,
}

/// Table entry, by index.
pub open spec fn stem_name_ko_at(i: int) -> Seq<char> {
    if i == 0 {
        "갑"@
    } else if i == 1 {
        "을"@
    } else if i == 2 {
        "병"@
    } else if i == 3 {
        "정"@
    } else if i == 4 {
        "무"@
    } else if i == 5 {
        "기"@
    } else if i == 6 {
        "경"@
    } else if i == 7 {
        "신"@
    } else if i == 8 {
        "임"@
    } else {
        "계"@
    }
}

/// Table entry, by index.
pub open spec fn stem_name_en_at(i: int) -> Seq<char> {
    if i == 0 {
        "Gap"@
    } else if i == 1 {
        "Eul"@
    } else if i == 2 {
        "Byeong"@
    } else if i == 3 {
        "Jeong"@
    } else if i == 4 {
        "Mu"@
    } else if i == 5 {
        "Gi"@
    } else if i == 6 {
        "Gyeong"@
    } else if i == 7 {
        "Sin"@
    } else if i == 8 {
        "Im"@
    } else {
        "Gye"@
    }
}

/// Table entry, by index.
pub open spec fn stem_hanja_at(i: int) -> Seq<char> {
    if i == 0 {
        "甲"@
    } else if i == 1 {
        "乙"@
    } else if i == 2 {
        "丙"@
    } else if i == 3 {
        "丁"@
    } else if i == 4 {
        "戊"@
    } else if i == 5 {
        "己"@
    } else if i == 6 {
        "庚"@
    } else if i == 7 {
        "辛"@
    } else if i == 8 {
        "壬"@
    } else {
        "癸"@
    }
}

/// Table entry, by index.
pub open spec fn branch_name_ko_at(i: int) -> Seq<char> {
    if i == 0 {
        "자"@
    } else if i == 1 {
        "축"@
    } else if i == 2 {
        "인"@
    } else if i == 3 {
        "묘"@
    } else if i == 4 {
        "진"@
    } else if i == 5 {
        "사"@
    } else if i == 6 {
        "오"@
    } else if i == 7 {
        "미"@
    } else if i == 8 {
        "신"@
    } else if i == 9 {
        "유"@
    } else if i == 10 {
        "술"@
    } else {
        "해"@
    }
}

/// Table entry, by index.
pub open spec fn branch_name_en_at(i: int) -> Seq<char> {
    if i == 0 {
        "Ja"@
    } else if i == 1 {
        "Chuk"@
    } else if i == 2 {
        "In"@
    } else if i == 3 {
        "Myo"@
    } else if i == 4 {
        "Jin"@
    } else if i == 5 {
        "Sa"@
    } else if i == 6 {
        "O"@
    } else if i == 7 {
        "Mi"@
    } else if i == 8 {
        "Sin"@
    } else if i == 9 {
        "Yu"@
    } else if i == 10 {
        "Sul"@
    } else {
        "Hae"@
    }
}

/// Table entry, by index.
pub open spec fn branch_hanja_at(i: int) -> Seq<char> {
    if i == 0 {
        "子"@
    } else if i == 1 {
        "丑"@
    } else if i == 2 {
        "寅"@
    } else if i == 3 {
        "卯"@
    } else if i == 4 {
        "辰"@
    } else if i == 5 {
        "巳"@
    } else if i == 6 {
        "午"@
    } else if i == 7 {
        "未"@
    } else if i == 8 {
        "申"@
    } else if i == 9 {
        "酉"@
    } else if i == 10 {
        "戌"@
    } else {
        "亥"@
    }
}

/// Table entry, by index.
pub open spec fn stage_name_ko_at(i: int) -> Seq<char> {
    if i == 0 {
        "장생(長生)"@
    } else if i == 1 {
        "목욕(沐浴)"@
    } else if i == 2 {
        "관대(冠帶)"@
    } else if i == 3 {
        "건록(建祿)"@
    } else if i == 4 {
        "제왕(帝旺)"@
    } else if i == 5 {
        "쇠(衰)"@
    } else if i == 6 {
        "병(病)"@
    } else if i == 7 {
        "사(死)"@
    } else if i == 8 {
        "묘(墓)"@
    } else if i == 9 {
        "절(絶)"@
    } else if i == 10 {
        "태(胎)"@
    } else {
        "양(養)"@
    }
}

/// Table entry, by index.
pub open spec fn stage_name_en_at(i: int) -> Seq<char> {
    if i == 0 {
        "Changsheng (長生)"@
    } else if i == 1 {
        "Muyu (沐浴)"@
    } else if i == 2 {
        "Guandai (冠帶)"@
    } else if i == 3 {
        "Jianlu (建祿)"@
    } else if i == 4 {
        "Dewang (帝旺)"@
    } else if i == 5 {
        "Shuai (衰)"@
    } else if i == 6 {
        "Bing (病)"@
    } else if i == 7 {
        "Si (死)"@
    } else if i == 8 {
        "Mu (墓)"@
    } else if i == 9 {
        "Jue (絶)"@
    } else if i == 10 {
        "Tai (胎)"@
    } else {
        "Yang (養)"@
    }
}

/// Table entry, by index.
pub open spec fn shinsal_name_ko_at(i: int) -> Seq<char> {
    if i == 0 {
        "지살(地殺)"@
    } else if i == 1 {
        "년살(年殺)"@
    } else if i == 2 {
        "월살(月殺)"@
    } else if i == 3 {
        "망신살(亡身殺)"@
    } else if i == 4 {
        "장성살(將星殺)"@
    } else if i == 5 {
        "반안살(攀鞍殺)"@
    } else if i == 6 {
        "역마살(驛馬殺)"@
    } else if i == 7 {
        "육해살(六害殺)"@
    } else if i == 8 {
        "화개살(華蓋殺)"@
    } else if i == 9 {
        "겁살(劫殺)"@
    } else if i == 10 {
        "재살(災殺)"@
    } else {
        "천살(天殺)"@
    }
}

/// Table entry, by index.
pub open spec fn shinsal_name_en_at(i: int) -> Seq<char> {
    if i == 0 {
        "Earth Kill (地殺)"@
    } else if i == 1 {
        "Year Kill (年殺)"@
    } else if i == 2 {
        "Month Kill (月殺)"@
    } else if i == 3 {
        "Loss Star (亡身殺)"@
    } else if i == 4 {
        "General Star (將星殺)"@
    } else if i == 5 {
        "Mounting Saddle (攀鞍殺)"@
    } else if i == 6 {
        "Travel Horse (驛馬殺)"@
    } else if i == 7 {
        "Six Harm (六害殺)"@
    } else if i == 8 {
        "Canopy (華蓋殺)"@
    } else if i == 9 {
        "Robbery (劫殺)"@
    } else if i == 10 {
        "Disaster (災殺)"@
    } else {
        "Heaven Kill (天殺)"@
    }
}

/// The localization surface: every label the presentation needs, in the
/// chosen language.
pub struct I18n {
    pub lang: Lang,
}

impl I18n {
    /// A localizer for one output language.
    pub fn new(lang: Lang) -> (r: I18n)
        ensures
            r.lang == lang,
    {
        I18n { lang }
    }

    /// Fixed label, by language.
    pub fn title(&self) -> (r: &'static str)
        ensures
            r@ == match self.lang { Lang::Ko => "사주팔자 (입춘 기준)"@, Lang::En => "Saju Palja (Lichun 기준)"@ },
    {
        match self.lang {
            Lang::Ko => "사주팔자 (입춘 기준)",
            Lang::En => "Saju Palja (Lichun 기준)",
        }
    }

    /// Fixed label, by language.
    pub fn input_label(&self) -> (r: &'static str)
        ensures
            r@ == match self.lang { Lang::Ko => "입력"@, Lang::En => "Input"@ },
    {
        match self.lang {
            Lang::Ko => "입력",
            Lang::En => "Input",
        }
    }

    /// Fixed label, by language.
    pub fn converted_solar_label(&self) -> (r: &'static str)
        ensures
            r@ == match self.lang { Lang::Ko => "변환 양력"@, Lang::En => "Converted solar"@ },
    {
        match self.lang {
            Lang::Ko => "변환 양력",
            Lang::En => "Converted solar",
        }
    }

    /// Fixed label, by language.
    pub fn converted_lunar_label(&self) -> (r: &'static str)
        ensures
            r@ == match self.lang { Lang::Ko => "변환 음력"@, Lang::En => "Converted lunar"@ },
    {
        match self.lang {
            Lang::Ko => "변환 음력",
            Lang::En => "Converted lunar",
        }
    }

    /// Fixed label, by language.
    pub fn leap_suffix(&self) -> (r: &'static str)
        ensures
            r@ == match self.lang { Lang::Ko => " (윤달)"@, Lang::En => " (Leap)"@ },
    {
        match self.lang {
            Lang::Ko => " (윤달)",
            Lang::En => " (Leap)",
        }
    }

    /// Fixed label, by language.
    pub fn local_mean_time_label(&self) -> (r: &'static str)
        ensures
            r@ == match self.lang { Lang::Ko => "지역시 보정(평태양시)"@, Lang::En => "Local mean time correction"@ },
    {
        match self.lang {
            Lang::Ko => "지역시 보정(평태양시)",
            Lang::En => "Local mean time correction",
        }
    }

    /// Fixed label, by language.
    pub fn corrected_time_label(&self) -> (r: &'static str)
        ensures
            r@ == match self.lang { Lang::Ko => "보정 시각"@, Lang::En => "Corrected time"@ },
    {
        match self.lang {
            Lang::Ko => "보정 시각",
            Lang::En => "Corrected time",
        }
    }

    /// Fixed label, by language.
    pub fn gender_label(&self) -> (r: &'static str)
        ensures
            r@ == match self.lang { Lang::Ko => "성별"@, Lang::En => "Gender"@ },
    {
        match self.lang {
            Lang::Ko => "성별",
            Lang::En => "Gender",
        }
    }

    /// Fixed label, by language.
    pub fn day_boundary_label(&self) -> (r: &'static str)
        ensures
            r@ == match self.lang { Lang::Ko => "일주 경계"@, Lang::En => "Day boundary"@ },
    {
        match self.lang {
            Lang::Ko => "일주 경계",
            Lang::En => "Day boundary",
        }
    }

    /// Fixed label, by language.
    pub fn pillars_heading(&self) -> (r: &'static str)
        ensures
            r@ == match self.lang { Lang::Ko => "천간/지지"@, Lang::En => "Stems/Branches"@ },
    {
        match self.lang {
            Lang::Ko => "천간/지지",
            Lang::En => "Stems/Branches",
        }
    }

    /// Fixed label, by language.
    pub fn hidden_stems_heading(&self) -> (r: &'static str)
        ensures
            r@ == match self.lang { Lang::Ko => "지장간"@, Lang::En => "Hidden Stems"@ },
    {
        match self.lang {
            Lang::Ko => "지장간",
            Lang::En => "Hidden Stems",
        }
    }

    /// Fixed label, by language.
    pub fn ten_gods_heading(&self) -> (r: &'static str)
        ensures
            r@ == match self.lang { Lang::Ko => "십성(일간 기준)"@, Lang::En => "Ten Gods (Day stem)"@ },
    {
        match self.lang {
            Lang::Ko => "십성(일간 기준)",
            Lang::En => "Ten Gods (Day stem)",
        }
    }

    /// Fixed label, by language.
    pub fn twelve_stages_heading(&self) -> (r: &'static str)
        ensures
            r@ == match self.lang { Lang::Ko => "12운성(일간 기준)"@, Lang::En => "12 Stages (Day stem)"@ },
    {
        match self.lang {
            Lang::Ko => "12운성(일간 기준)",
            Lang::En => "12 Stages (Day stem)",
        }
    }

    /// Fixed label, by language.
    pub fn twelve_shinsal_heading(&self) -> (r: &'static str)
        ensures
            r@ == match self.lang { Lang::Ko => "12신살(연지 삼합 기준)"@, Lang::En => "12 Shinsal (Year branch trine)"@ },
    {
        match self.lang {
            Lang::Ko => "12신살(연지 삼합 기준)",
            Lang::En => "12 Shinsal (Year branch trine)",
        }
    }

    /// Fixed label, by language.
    pub fn strength_heading(&self) -> (r: &'static str)
        ensures
            r@ == match self.lang { Lang::Ko => "신강/신약(간단 판정)"@, Lang::En => "Strength (simple)"@ },
    {
        match self.lang {
            Lang::Ko => "신강/신약(간단 판정)",
            Lang::En => "Strength (simple)",
        }
    }

    /// Fixed label, by language.
    pub fn elements_heading(&self) -> (r: &'static str)
        ensures
            r@ == match self.lang { Lang::Ko => "오행 분포(천간+지지)"@, Lang::En => "Five Elements (stems + branches)"@ },
    {
        match self.lang {
            Lang::Ko => "오행 분포(천간+지지)",
            Lang::En => "Five Elements (stems + branches)",
        }
    }

    /// Fixed label, by language.
    pub fn daewon_heading(&self) -> (r: &'static str)
        ensures
            r@ == match self.lang { Lang::Ko => "대운"@, Lang::En => "Decennial Luck"@ },
    {
        match self.lang {
            Lang::Ko => "대운",
            Lang::En => "Decennial Luck",
        }
    }

    /// Fixed label, by language.
    pub fn yearly_luck_heading(&self) -> (r: &'static str)
        ensures
            r@ == match self.lang { Lang::Ko => "연운 (입춘 기준)"@, Lang::En => "Yearly Luck (Lichun)"@ },
    {
        match self.lang {
            Lang::Ko => "연운 (입춘 기준)",
            Lang::En => "Yearly Luck (Lichun)",
        }
    }

    /// Fixed label, by language.
    pub fn terms_heading(&self) -> (r: &'static str)
        ensures
            r@ == match self.lang { Lang::Ko => "절기"@, Lang::En => "Solar Terms"@ },
    {
        match self.lang {
            Lang::Ko => "절기",
            Lang::En => "Solar Terms",
        }
    }

    /// Fixed label, by language.
    pub fn tz_label(&self) -> (r: &'static str)
        ensures
            r@ == match self.lang { Lang::Ko => "기준"@, Lang::En => "time zone"@ },
    {
        match self.lang {
            Lang::Ko => "기준",
            Lang::En => "time zone",
        }
    }

    /// Fixed label, by language.
    pub fn stem_word(&self) -> (r: &'static str)
        ensures
            r@ == match self.lang { Lang::Ko => "천간"@, Lang::En => "Stem"@ },
    {
        match self.lang {
            Lang::Ko => "천간",
            Lang::En => "Stem",
        }
    }

    /// Fixed label, by language.
    pub fn branch_word(&self) -> (r: &'static str)
        ensures
            r@ == match self.lang { Lang::Ko => "지지"@, Lang::En => "Branch"@ },
    {
        match self.lang {
            Lang::Ko => "지지",
            Lang::En => "Branch",
        }
    }

    /// Fixed label, by language.
    pub fn day_stem_word(&self) -> (r: &'static str)
        ensures
            r@ == match self.lang { Lang::Ko => "일간"@, Lang::En => "Day stem"@ },
    {
        match self.lang {
            Lang::Ko => "일간",
            Lang::En => "Day stem",
        }
    }

    /// Fixed label, by language.
    pub fn stems_label(&self) -> (r: &'static str)
        ensures
            r@ == match self.lang { Lang::Ko => "천간"@, Lang::En => "Stems"@ },
    {
        match self.lang {
            Lang::Ko => "천간",
            Lang::En => "Stems",
        }
    }

    /// Fixed label, by language.
    pub fn branches_label(&self) -> (r: &'static str)
        ensures
            r@ == match self.lang { Lang::Ko => "지지"@, Lang::En => "Branches"@ },
    {
        match self.lang {
            Lang::Ko => "지지",
            Lang::En => "Branches",
        }
    }

    /// Fixed label, by language.
    pub fn branches_main_label(&self) -> (r: &'static str)
        ensures
            r@ == match self.lang { Lang::Ko => "지지(본기)"@, Lang::En => "Branches (main)"@ },
    {
        match self.lang {
            Lang::Ko => "지지(본기)",
            Lang::En => "Branches (main)",
        }
    }

    /// Fixed label, by language.
    pub fn ten_gods_label(&self) -> (r: &'static str)
        ensures
            r@ == match self.lang { Lang::Ko => "십성"@, Lang::En => "Ten Gods"@ },
    {
        match self.lang {
            Lang::Ko => "십성",
            Lang::En => "Ten Gods",
        }
    }

    /// Fixed label, by language.
    pub fn year_luck_label(&self) -> (r: &'static str)
        ensures
            r@ == match self.lang { Lang::Ko => "세운"@, Lang::En => "Annual Pillar"@ },
    {
        match self.lang {
            Lang::Ko => "세운",
            Lang::En => "Annual Pillar",
        }
    }

    /// Fixed label, by language.
    pub fn start_label(&self) -> (r: &'static str)
        ensures
            r@ == match self.lang { Lang::Ko => "시작"@, Lang::En => "start"@ },
    {
        match self.lang {
            Lang::Ko => "시작",
            Lang::En => "start",
        }
    }

    /// Fixed label, by language.
    pub fn year_unit(&self) -> (r: &'static str)
        ensures
            r@ == match self.lang { Lang::Ko => "년"@, Lang::En => "y"@ },
    {
        match self.lang {
            Lang::Ko => "년",
            Lang::En => "y",
        }
    }

    /// Fixed label, by language.
    pub fn month_unit(&self) -> (r: &'static str)
        ensures
            r@ == match self.lang { Lang::Ko => "개월"@, Lang::En => "m"@ },
    {
        match self.lang {
            Lang::Ko => "개월",
            Lang::En => "m",
        }
    }

    /// Fixed label, by language.
    pub fn score_label(&self) -> (r: &'static str)
        ensures
            r@ == match self.lang { Lang::Ko => "점수"@, Lang::En => "Score"@ },
    {
        match self.lang {
            Lang::Ko => "점수",
            Lang::En => "Score",
        }
    }

    /// Fixed label, by language.
    pub fn basis_label(&self) -> (r: &'static str)
        ensures
            r@ == match self.lang { Lang::Ko => "기준"@, Lang::En => "Basis"@ },
    {
        match self.lang {
            Lang::Ko => "기준",
            Lang::En => "Basis",
        }
    }

    /// Fixed label, by language.
    pub fn verdict_label(&self) -> (r: &'static str)
        ensures
            r@ == match self.lang { Lang::Ko => "판정"@, Lang::En => "Verdict"@ },
    {
        match self.lang {
            Lang::Ko => "판정",
            Lang::En => "Verdict",
        }
    }

    /// Fixed label, by language.
    pub fn root_label(&self) -> (r: &'static str)
        ensures
            r@ == match self.lang { Lang::Ko => "뿌리"@, Lang::En => "Roots"@ },
    {
        match self.lang {
            Lang::Ko => "뿌리",
            Lang::En => "Roots",
        }
    }

    /// Fixed label, by language.
    pub fn support_label(&self) -> (r: &'static str)
        ensures
            r@ == match self.lang { Lang::Ko => "지원"@, Lang::En => "Support"@ },
    {
        match self.lang {
            Lang::Ko => "지원",
            Lang::En => "Support",
        }
    }

    /// Fixed label, by language.
    pub fn drain_label(&self) -> (r: &'static str)
        ensures
            r@ == match self.lang { Lang::Ko => "억제"@, Lang::En => "Drain"@ },
    {
        match self.lang {
            Lang::Ko => "억제",
            Lang::En => "Drain",
        }
    }

    /// Fixed label, by language.
    pub fn month_stage_label(&self) -> (r: &'static str)
        ensures
            r@ == match self.lang { Lang::Ko => "월지 운성"@, Lang::En => "Month branch stage"@ },
    {
        match self.lang {
            Lang::Ko => "월지 운성",
            Lang::En => "Month branch stage",
        }
    }

    /// Fixed label, by language.
    pub fn location_label(&self) -> (r: &'static str)
        ensures
            r@ == match self.lang { Lang::Ko => "위치"@, Lang::En => "Location"@ },
    {
        match self.lang {
            Lang::Ko => "위치",
            Lang::En => "Location",
        }
    }

    /// Fixed label, by language.
    pub fn longitude_label(&self) -> (r: &'static str)
        ensures
            r@ == match self.lang { Lang::Ko => "경도"@, Lang::En => "Longitude"@ },
    {
        match self.lang {
            Lang::Ko => "경도",
            Lang::En => "Longitude",
        }
    }

    /// Fixed label, by language.
    pub fn std_meridian_label(&self) -> (r: &'static str)
        ensures
            r@ == match self.lang { Lang::Ko => "표준경도"@, Lang::En => "Std meridian"@ },
    {
        match self.lang {
            Lang::Ko => "표준경도",
            Lang::En => "Std meridian",
        }
    }

    /// Fixed label, by language.
    pub fn correction_label(&self) -> (r: &'static str)
        ensures
            r@ == match self.lang { Lang::Ko => "보정"@, Lang::En => "Correction"@ },
    {
        match self.lang {
            Lang::Ko => "보정",
            Lang::En => "Correction",
        }
    }

    /// Per-pillar label, by language.
    pub fn pillar_kind_label(&self, kind: PillarKind) -> (r: &'static str)
        ensures
            r@ == match (self.lang, kind) {
                (Lang::Ko, PillarKind::Year) => "연주"@,
                (Lang::Ko, PillarKind::Month) => "월주"@,
                (Lang::Ko, PillarKind::Day) => "일주"@,
                (Lang::Ko, PillarKind::Hour) => "시주"@,
                (Lang::En, PillarKind::Year) => "Year Pillar"@,
                (Lang::En, PillarKind::Month) => "Month Pillar"@,
                (Lang::En, PillarKind::Day) => "Day Pillar"@,
                (Lang::En, PillarKind::Hour) => "Hour Pillar"@,
            },
    {
        match (self.lang, kind) {
            (Lang::Ko, PillarKind::Year) => "연주",
            (Lang::Ko, PillarKind::Month) => "월주",
            (Lang::Ko, PillarKind::Day) => "일주",
            (Lang::Ko, PillarKind::Hour) => "시주",
            (Lang::En, PillarKind::Year) => "Year Pillar",
            (Lang::En, PillarKind::Month) => "Month Pillar",
            (Lang::En, PillarKind::Day) => "Day Pillar",
            (Lang::En, PillarKind::Hour) => "Hour Pillar",
        }
    }

    /// Per-pillar label, by language.
    pub fn stem_kind_label(&self, kind: PillarKind) -> (r: &'static str)
        ensures
            r@ == match (self.lang, kind) {
                (Lang::Ko, PillarKind::Year) => "연간"@,
                (Lang::Ko, PillarKind::Month) => "월간"@,
                (Lang::Ko, PillarKind::Day) => "일간"@,
                (Lang::Ko, PillarKind::Hour) => "시간"@,
                (Lang::En, PillarKind::Year) => "Year stem"@,
                (Lang::En, PillarKind::Month) => "Month stem"@,
                (Lang::En, PillarKind::Day) => "Day stem"@,
                (Lang::En, PillarKind::Hour) => "Hour stem"@,
            },
    {
        match (self.lang, kind) {
            (Lang::Ko, PillarKind::Year) => "연간",
            (Lang::Ko, PillarKind::Month) => "월간",
            (Lang::Ko, PillarKind::Day) => "일간",
            (Lang::Ko, PillarKind::Hour) => "시간",
            (Lang::En, PillarKind::Year) => "Year stem",
            (Lang::En, PillarKind::Month) => "Month stem",
            (Lang::En, PillarKind::Day) => "Day stem",
            (Lang::En, PillarKind::Hour) => "Hour stem",
        }
    }

    /// Per-pillar label, by language.
    pub fn branch_kind_label(&self, kind: PillarKind) -> (r: &'static str)
        ensures
            r@ == match (self.lang, kind) {
                (Lang::Ko, PillarKind::Year) => "연지"@,
                (Lang::Ko, PillarKind::Month) => "월지"@,
                (Lang::Ko, PillarKind::Day) => "일지"@,
                (Lang::Ko, PillarKind::Hour) => "시지"@,
                (Lang::En, PillarKind::Year) => "Year branch"@,
                (Lang::En, PillarKind::Month) => "Month branch"@,
                (Lang::En, PillarKind::Day) => "Day branch"@,
                (Lang::En, PillarKind::Hour) => "Hour branch"@,
            },
    {
        match (self.lang, kind) {
            (Lang::Ko, PillarKind::Year) => "연지",
            (Lang::Ko, PillarKind::Month) => "월지",
            (Lang::Ko, PillarKind::Day) => "일지",
            (Lang::Ko, PillarKind::Hour) => "시지",
            (Lang::En, PillarKind::Year) => "Year branch",
            (Lang::En, PillarKind::Month) => "Month branch",
            (Lang::En, PillarKind::Day) => "Day branch",
            (Lang::En, PillarKind::Hour) => "Hour branch",
        }
    }

    /// Direction of the decennial walk.
    pub fn direction_label(&self, value: Direction) -> (r: &'static str)
        ensures
            r@ == match (self.lang, value) {
                (Lang::Ko, Direction::Forward) => "순행"@,
                (Lang::Ko, Direction::Backward) => "역행"@,
                (Lang::En, Direction::Forward) => "Forward"@,
                (Lang::En, Direction::Backward) => "Backward"@,
            },
    {
        match (self.lang, value) {
            (Lang::Ko, Direction::Forward) => "순행",
            (Lang::Ko, Direction::Backward) => "역행",
            (Lang::En, Direction::Forward) => "Forward",
            (Lang::En, Direction::Backward) => "Backward",
        }
    }

    /// Gender value.
    pub fn gender_value(&self, value: Gender) -> (r: &'static str)
        ensures
            r@ == match (self.lang, value) {
                (Lang::Ko, Gender::Male) => "남"@,
                (Lang::Ko, Gender::Female) => "여"@,
                (Lang::En, Gender::Male) => "Male"@,
                (Lang::En, Gender::Female) => "Female"@,
            },
    {
        match (self.lang, value) {
            (Lang::Ko, Gender::Male) => "남",
            (Lang::Ko, Gender::Female) => "여",
            (Lang::En, Gender::Male) => "Male",
            (Lang::En, Gender::Female) => "Female",
        }
    }

    /// Strength class label.
    pub fn strength_class_label(&self, value: StrengthClass) -> (r: &'static str)
        ensures
            r@ == match (self.lang, value) {
                (Lang::Ko, StrengthClass::Strong) => "강"@,
                (Lang::Ko, StrengthClass::Weak) => "약"@,
                (Lang::Ko, StrengthClass::Neutral) => "중"@,
                (Lang::En, StrengthClass::Strong) => "Strong"@,
                (Lang::En, StrengthClass::Weak) => "Weak"@,
                (Lang::En, StrengthClass::Neutral) => "Neutral"@,
            },
    {
        match (self.lang, value) {
            (Lang::Ko, StrengthClass::Strong) => "강",
            (Lang::Ko, StrengthClass::Weak) => "약",
            (Lang::Ko, StrengthClass::Neutral) => "중",
            (Lang::En, StrengthClass::Strong) => "Strong",
            (Lang::En, StrengthClass::Weak) => "Weak",
            (Lang::En, StrengthClass::Neutral) => "Neutral",
        }
    }

    /// Strength verdict label.
    pub fn strength_verdict_label(&self, value: StrengthVerdict) -> (r: &'static str)
        ensures
            r@ == match (self.lang, value) {
                (Lang::Ko, StrengthVerdict::Strong) => "신강"@,
                (Lang::Ko, StrengthVerdict::Weak) => "신약"@,
                (Lang::Ko, StrengthVerdict::Neutral) => "중화"@,
                (Lang::En, StrengthVerdict::Strong) => "Strong"@,
                (Lang::En, StrengthVerdict::Weak) => "Weak"@,
                (Lang::En, StrengthVerdict::Neutral) => "Balanced"@,
            },
    {
        match (self.lang, value) {
            (Lang::Ko, StrengthVerdict::Strong) => "신강",
            (Lang::Ko, StrengthVerdict::Weak) => "신약",
            (Lang::Ko, StrengthVerdict::Neutral) => "중화",
            (Lang::En, StrengthVerdict::Strong) => "Strong",
            (Lang::En, StrengthVerdict::Weak) => "Weak",
            (Lang::En, StrengthVerdict::Neutral) => "Balanced",
        }
    }

    /// Element label with its hanja.
    pub fn element_label(&self, value: Element) -> (r: &'static str)
        ensures
            r@ == match (self.lang, value) {
                (Lang::Ko, Element::Wood) => "목(木)"@,
                (Lang::Ko, Element::Fire) => "화(火)"@,
                (Lang::Ko, Element::Earth) => "토(土)"@,
                (Lang::Ko, Element::Metal) => "금(金)"@,
                (Lang::Ko, Element::Water) => "수(水)"@,
                (Lang::En, Element::Wood) => "Wood (木)"@,
                (Lang::En, Element::Fire) => "Fire (火)"@,
                (Lang::En, Element::Earth) => "Earth (土)"@,
                (Lang::En, Element::Metal) => "Metal (金)"@,
                (Lang::En, Element::Water) => "Water (水)"@,
            },
    {
        match (self.lang, value) {
            (Lang::Ko, Element::Wood) => "목(木)",
            (Lang::Ko, Element::Fire) => "화(火)",
            (Lang::Ko, Element::Earth) => "토(土)",
            (Lang::Ko, Element::Metal) => "금(金)",
            (Lang::Ko, Element::Water) => "수(水)",
            (Lang::En, Element::Wood) => "Wood (木)",
            (Lang::En, Element::Fire) => "Fire (火)",
            (Lang::En, Element::Earth) => "Earth (土)",
            (Lang::En, Element::Metal) => "Metal (金)",
            (Lang::En, Element::Water) => "Water (水)",
        }
    }

    /// Short element label.
    pub fn element_short_label(&self, value: Element) -> (r: &'static str)
        ensures
            r@ == match (self.lang, value) {
                (Lang::Ko, Element::Wood) => "목"@,
                (Lang::Ko, Element::Fire) => "화"@,
                (Lang::Ko, Element::Earth) => "토"@,
                (Lang::Ko, Element::Metal) => "금"@,
                (Lang::Ko, Element::Water) => "수"@,
                (Lang::En, Element::Wood) => "Wood"@,
                (Lang::En, Element::Fire) => "Fire"@,
                (Lang::En, Element::Earth) => "Earth"@,
                (Lang::En, Element::Metal) => "Metal"@,
                (Lang::En, Element::Water) => "Water"@,
            },
    {
        match (self.lang, value) {
            (Lang::Ko, Element::Wood) => "목",
            (Lang::Ko, Element::Fire) => "화",
            (Lang::Ko, Element::Earth) => "토",
            (Lang::Ko, Element::Metal) => "금",
            (Lang::Ko, Element::Water) => "수",
            (Lang::En, Element::Wood) => "Wood",
            (Lang::En, Element::Fire) => "Fire",
            (Lang::En, Element::Earth) => "Earth",
            (Lang::En, Element::Metal) => "Metal",
            (Lang::En, Element::Water) => "Water",
        }
    }

    /// Ten-God label.
    pub fn ten_god_label(&self, value: TenGod) -> (r: &'static str)
        ensures
            r@ == match (self.lang, value) {
                (Lang::Ko, TenGod::BiGyeon) => "비견(比肩)"@,
                (Lang::Ko, TenGod::GeopJae) => "겁재(劫財)"@,
                (Lang::Ko, TenGod::SikShin) => "식신(食神)"@,
                (Lang::Ko, TenGod::SangGwan) => "상관(傷官)"@,
                (Lang::Ko, TenGod::PyeonJae) => "편재(偏財)"@,
                (Lang::Ko, TenGod::JeongJae) => "정재(正財)"@,
                (Lang::Ko, TenGod::ChilSal) => "칠살(七殺)"@,
                (Lang::Ko, TenGod::JeongGwan) => "정관(正官)"@,
                (Lang::Ko, TenGod::PyeonIn) => "편인(偏印)"@,
                (Lang::Ko, TenGod::JeongIn) => "정인(正印)"@,
                (Lang::En, TenGod::BiGyeon) => "Companion (比肩)"@,
                (Lang::En, TenGod::GeopJae) => "Rob Wealth (劫財)"@,
                (Lang::En, TenGod::SikShin) => "Eating God (食神)"@,
                (Lang::En, TenGod::SangGwan) => "Hurting Officer (傷官)"@,
                (Lang::En, TenGod::PyeonJae) => "Indirect Wealth (偏財)"@,
                (Lang::En, TenGod::JeongJae) => "Direct Wealth (正財)"@,
                (Lang::En, TenGod::ChilSal) => "Seven Killings (七殺)"@,
                (Lang::En, TenGod::JeongGwan) => "Direct Officer (正官)"@,
                (Lang::En, TenGod::PyeonIn) => "Indirect Resource (偏印)"@,
                (Lang::En, TenGod::JeongIn) => "Direct Resource (正印)"@,
            },
    {
        match (self.lang, value) {
            (Lang::Ko, TenGod::BiGyeon) => "비견(比肩)",
            (Lang::Ko, TenGod::GeopJae) => "겁재(劫財)",
            (Lang::Ko, TenGod::SikShin) => "식신(食神)",
            (Lang::Ko, TenGod::SangGwan) => "상관(傷官)",
            (Lang::Ko, TenGod::PyeonJae) => "편재(偏財)",
            (Lang::Ko, TenGod::JeongJae) => "정재(正財)",
            (Lang::Ko, TenGod::ChilSal) => "칠살(七殺)",
            (Lang::Ko, TenGod::JeongGwan) => "정관(正官)",
            (Lang::Ko, TenGod::PyeonIn) => "편인(偏印)",
            (Lang::Ko, TenGod::JeongIn) => "정인(正印)",
            (Lang::En, TenGod::BiGyeon) => "Companion (比肩)",
            (Lang::En, TenGod::GeopJae) => "Rob Wealth (劫財)",
            (Lang::En, TenGod::SikShin) => "Eating God (食神)",
            (Lang::En, TenGod::SangGwan) => "Hurting Officer (傷官)",
            (Lang::En, TenGod::PyeonJae) => "Indirect Wealth (偏財)",
            (Lang::En, TenGod::JeongJae) => "Direct Wealth (正財)",
            (Lang::En, TenGod::ChilSal) => "Seven Killings (七殺)",
            (Lang::En, TenGod::JeongGwan) => "Direct Officer (正官)",
            (Lang::En, TenGod::PyeonIn) => "Indirect Resource (偏印)",
            (Lang::En, TenGod::JeongIn) => "Direct Resource (正印)",
        }
    }

    /// Polarity label: yang or yin.
    pub fn polarity_label(&self, is_yang: bool) -> (r: &'static str)
        ensures
            r@ == match (self.lang, is_yang) {
                (Lang::Ko, true) => "양"@,
                (Lang::Ko, false) => "음"@,
                (Lang::En, true) => "Yang"@,
                (Lang::En, false) => "Yin"@,
            },
    {
        match (self.lang, is_yang) {
            (Lang::Ko, true) => "양",
            (Lang::Ko, false) => "음",
            (Lang::En, true) => "Yang",
            (Lang::En, false) => "Yin",
        }
    }

    /// Twelve-Stage name at an index.
    pub fn stage_label(&self, index: usize) -> (r: &'static str)
        requires
            index < 12,
        ensures
            r@ == match self.lang {
                Lang::Ko => stage_name_ko_at(index as int),
                Lang::En => stage_name_en_at(index as int),
            },
    {
        match self.lang {
            Lang::Ko => stage_name_ko(index),
            Lang::En => stage_name_en(index),
        }
    }

    /// Twelve-Shinsal name at an index.
    pub fn shinsal_label(&self, index: usize) -> (r: &'static str)
        requires
            index < 12,
        ensures
            r@ == match self.lang {
                Lang::Ko => shinsal_name_ko_at(index as int),
                Lang::En => shinsal_name_en_at(index as int),
            },
    {
        match self.lang {
            Lang::Ko => shinsal_name_ko(index),
            Lang::En => shinsal_name_en(index),
        }
    }

    /// Stem name in the chosen language.
    pub fn stem_name(&self, stem: usize) -> (r: &'static str)
        requires
            stem < 10,
        ensures
            r@ == match self.lang {
                Lang::Ko => stem_name_ko_at(stem as int),
                Lang::En => stem_name_en_at(stem as int),
            },
    {
        match self.lang {
            Lang::Ko => stem_name_ko(stem),
            Lang::En => stem_name_en(stem),
        }
    }

    /// Branch name in the chosen language.
    pub fn branch_name(&self, branch: usize) -> (r: &'static str)
        requires
            branch < 12,
        ensures
            r@ == match self.lang {
                Lang::Ko => branch_name_ko_at(branch as int),
                Lang::En => branch_name_en_at(branch as int),
            },
    {
        match self.lang {
            Lang::Ko => branch_name_ko(branch),
            Lang::En => branch_name_en(branch),
        }
    }

    /// Stem label with its hanja, as `name(hanja)`.
    pub fn stem_label(&self, stem: usize) -> (r: String)
        requires
            stem < 10,
        ensures
            r@ == (match self.lang {
                Lang::Ko => stem_name_ko_at(stem as int),
                Lang::En => stem_name_en_at(stem as int),
            }) + "("@ + stem_hanja_at(stem as int) + ")"@,
    {
        let mut s = String::from_str(self.stem_name(stem));
        s.append("(");
        s.append(stem_hanja(stem));
        s.append(")");
        s
    }

    /// Branch label with its hanja, as `name(hanja)`.
    pub fn branch_label(&self, branch: usize) -> (r: String)
        requires
            branch < 12,
        ensures
            r@ == (match self.lang {
                Lang::Ko => branch_name_ko_at(branch as int),
                Lang::En => branch_name_en_at(branch as int),
            }) + "("@ + branch_hanja_at(branch as int) + ")"@,
    {
        let mut s = String::from_str(self.branch_name(branch));
        s.append("(");
        s.append(branch_hanja(branch));
        s.append(")");
        s
    }

    /// Pillar label: stem and branch names followed by both hanja.
    pub fn pillar_label(&self, pillar: Pillar) -> (r: String)
        requires
            pillar.wf(),
        ensures
            r@ == (match self.lang {
                Lang::Ko => stem_name_ko_at(pillar.stem as int),
                Lang::En => stem_name_en_at(pillar.stem as int),
            }) + (match self.lang {
                Lang::Ko => branch_name_ko_at(pillar.branch as int),
                Lang::En => branch_name_en_at(pillar.branch as int),
            }) + "("@ + stem_hanja_at(pillar.stem as int) + branch_hanja_at(pillar.branch as int)
                + ")"@,
    {
        let mut s = String::from_str(self.stem_name(pillar.stem));
        s.append(self.branch_name(pillar.branch));
        s.append("(");
        s.append(stem_hanja(pillar.stem));
        s.append(branch_hanja(pillar.branch));
        s.append(")");
        s
    }

    /// Term name with its hanja.
    pub fn term_name(&self, term: &TermDef) -> (r: String)
        ensures
            r@ == match self.lang {
                Lang::Ko => term.name_ko@ + "("@ + term.name_hanja@ + ")"@,
                Lang::En => term.name_en@ + " ("@ + term.name_hanja@ + ")"@,
            },
    {
        match self.lang {
            Lang::Ko => {
                let mut s = String::from_str(term.name_ko);
                s.append("(");
                s.append(term.name_hanja);
                s.append(")");
                s
            },
            Lang::En => {
                let mut s = String::from_str(term.name_en);
                s.append(" (");
                s.append(term.name_hanja);
                s.append(")");
                s
            },
        }
    }

    /// Heading of the monthly-luck section for a year.
    pub fn monthly_luck_heading(&self, year: i32) -> (r: String)
        ensures
            r@ == match self.lang {
                Lang::Ko => "월운 ("@ + decimal_of(year as int) + "년, 입춘~다음 입춘)"@,
                Lang::En => "Monthly Luck ("@ + decimal_of(year as int)
                    + ": Lichun to next Lichun)"@,
            },
    {
        let y = decimal_string(year as i64);
        match self.lang {
            Lang::Ko => {
                let mut s = String::from_str("월운 (");
                s.append(y.as_str());
                s.append("년, 입춘~다음 입춘)");
                s
            },
            Lang::En => {
                let mut s = String::from_str("Monthly Luck (");
                s.append(y.as_str());
                s.append(": Lichun to next Lichun)");
                s
            },
        }
    }

    /// Hidden-stem column label of one pillar.
    pub fn branches_hidden_label(&self, kind: PillarKind) -> (r: String)
        ensures
            r@ == match (self.lang, kind) {
                (Lang::Ko, PillarKind::Year) => "연지(지장간)"@,
                (Lang::Ko, PillarKind::Month) => "월지(지장간)"@,
                (Lang::Ko, PillarKind::Day) => "일지(지장간)"@,
                (Lang::Ko, PillarKind::Hour) => "시지(지장간)"@,
                (Lang::En, PillarKind::Year) => "Year branch (hidden)"@,
                (Lang::En, PillarKind::Month) => "Month branch (hidden)"@,
                (Lang::En, PillarKind::Day) => "Day branch (hidden)"@,
                (Lang::En, PillarKind::Hour) => "Hour branch (hidden)"@,
            },
    {
        let mut s = String::from_str(self.branch_kind_label(kind));
        match self.lang {
            Lang::Ko => {
                s.append("(지장간)");
            },
            Lang::En => {
                s.append(" (hidden)");
            },
        }
        proof {
            reveal_strlit("연지");
            reveal_strlit("월지");
            reveal_strlit("일지");
            reveal_strlit("시지");
            reveal_strlit("(지장간)");
            reveal_strlit("연지(지장간)");
            reveal_strlit("월지(지장간)");
            reveal_strlit("일지(지장간)");
            reveal_strlit("시지(지장간)");
            reveal_strlit("Year branch");
            reveal_strlit("Month branch");
            reveal_strlit("Day branch");
            reveal_strlit("Hour branch");
            reveal_strlit(" (hidden)");
            reveal_strlit("Year branch (hidden)");
            reveal_strlit("Month branch (hidden)");
            reveal_strlit("Day branch (hidden)");
            reveal_strlit("Hour branch (hidden)");
            assert(s@ =~= match (self.lang, kind) {
                (Lang::Ko, PillarKind::Year) => "연지(지장간)"@,
                (Lang::Ko, PillarKind::Month) => "월지(지장간)"@,
                (Lang::Ko, PillarKind::Day) => "일지(지장간)"@,
                (Lang::Ko, PillarKind::Hour) => "시지(지장간)"@,
                (Lang::En, PillarKind::Year) => "Year branch (hidden)"@,
                (Lang::En, PillarKind::Month) => "Month branch (hidden)"@,
                (Lang::En, PillarKind::Day) => "Day branch (hidden)"@,
                (Lang::En, PillarKind::Hour) => "Hour branch (hidden)"@,
            });
        }
        s
    }

    /// Calendar label of the input: solar, lunar, or lunar leap month.
    pub fn calendar_label(&self, is_lunar: bool, leap: bool) -> (r: String)
        ensures
            r@ == match self.lang {
                Lang::Ko => if is_lunar {
                    if leap {
                        "음력(윤달)"@
                    } else {
                        "음력"@
                    }
                } else {
                    "양력"@
                },
                Lang::En => if is_lunar {
                    if leap {
                        "Lunar (Leap)"@
                    } else {
                        "Lunar"@
                    }
                } else {
                    "Solar"@
                },
            },
    {
        match self.lang {
            Lang::Ko => if is_lunar {
                if leap {
                    String::from_str("음력(윤달)")
                } else {
                    String::from_str("음력")
                }
            } else {
                String::from_str("양력")
            },
            Lang::En => if is_lunar {
                if leap {
                    String::from_str("Lunar (Leap)")
                } else {
                    String::from_str("Lunar")
                }
            } else {
                String::from_str("Solar")
            },
        }
    }

    /// A year label: the number alone in English, with a year suffix in
    /// Korean.
    pub fn format_year_label(&self, year: i32) -> (r: String)
        ensures
            r@ == match self.lang {
                Lang::Ko => decimal_of(year as int) + "년"@,
                Lang::En => decimal_of(year as int),
            },
    {
        let y = decimal_string(year as i64);
        match self.lang {
            Lang::Ko => {
                let mut s = y;
                s.append("년");
                s
            },
            Lang::En => y,
        }
    }

    /// Month label of a month branch.
    pub fn month_label(&self, branch: usize) -> (r: String)
        requires
            branch < 12,
        ensures
            r@ == match self.lang {
                Lang::Ko => branch_name_ko_at(branch as int) + "월"@,
                Lang::En => branch_name_en_at(branch as int) + " Month"@,
            },
    {
        match self.lang {
            Lang::Ko => {
                let mut s = String::from_str(branch_name_ko(branch));
                s.append("월");
                s
            },
            Lang::En => {
                let mut s = String::from_str(branch_name_en(branch));
                s.append(" Month");
                s
            },
        }
    }

    /// An age given in months, as years plus leftover months; `aligned`
    /// pads a one-digit year count to width two.
    pub fn format_age(&self, months: i32, aligned: bool) -> (r: String)
        requires
            0 <= months,
        ensures
            ({
                let years = months as int / 12;
                let rem = months as int % 12;
                let ytext = (if aligned && years < 10 {
                    seq![' '] + decimal_digits_of(years)
                } else {
                    decimal_digits_of(years)
                }) + (match self.lang {
                    Lang::Ko => "년"@,
                    Lang::En => "y"@,
                });
                r@ == ytext + (if rem == 0 {
                    Seq::<char>::empty()
                } else {
                    seq![' '] + decimal_digits_of(rem) + (match self.lang {
                        Lang::Ko => "개월"@,
                        Lang::En => "m"@,
                    })
                })
            }),
    {
        proof {
            reveal_strlit(" ");
            assert(" "@ =~= seq![' ']);
        }
        let years: i32 = months / 12;
        let rem: i32 = months % 12;
        let mut s = String::new();
        if aligned && years < 10 {
            s.append(" ");
            proof {
                reveal_strlit(" ");
            }
        }
        let ystr = decimal_string(years as i64);
        s.append(ystr.as_str());
        s.append(self.year_unit());
        if rem != 0 {
            s.append(" ");
            proof {
                reveal_strlit(" ");
            }
            let rstr = decimal_string(rem as i64);
            s.append(rstr.as_str());
            s.append(self.month_unit());
        }
        s
    }
}

/// Table entry, by index.
pub fn stem_name_ko(i: usize) -> (r: &'static str)
    requires
        i < 10,
    ensures
        r@ == stem_name_ko_at(i as int),
{
    match i {
        0 => "갑",
        1 => "을",
        2 => "병",
        3 => "정",
        4 => "무",
        5 => "기",
        6 => "경",
        7 => "신",
        8 => "임",
        _ => "계",
    }
}

/// Table entry, by index.
pub fn stem_name_en(i: usize) -> (r: &'static str)
    requires
        i < 10,
    ensures
        r@ == stem_name_en_at(i as int),
{
    match i {
        0 => "Gap",
        1 => "Eul",
        2 => "Byeong",
        3 => "Jeong",
        4 => "Mu",
        5 => "Gi",
        6 => "Gyeong",
        7 => "Sin",
        8 => "Im",
        _ => "Gye",
    }
}

/// Table entry, by index.
pub fn stem_hanja(i: usize) -> (r: &'static str)
    requires
        i < 10,
    ensures
        r@ == stem_hanja_at(i as int),
{
    match i {
        0 => "甲",
        1 => "乙",
        2 => "丙",
        3 => "丁",
        4 => "戊",
        5 => "己",
        6 => "庚",
        7 => "辛",
        8 => "壬",
        _ => "癸",
    }
}

/// Table entry, by index.
pub fn branch_name_ko(i: usize) -> (r: &'static str)
    requires
        i < 12,
    ensures
        r@ == branch_name_ko_at(i as int),
{
    match i {
        0 => "자",
        1 => "축",
        2 => "인",
        3 => "묘",
        4 => "진",
        5 => "사",
        6 => "오",
        7 => "미",
        8 => "신",
        9 => "유",
        10 => "술",
        _ => "해",
    }
}

/// Table entry, by index.
pub fn branch_name_en(i: usize) -> (r: &'static str)
    requires
        i < 12,
    ensures
        r@ == branch_name_en_at(i as int),
{
    match i {
        0 => "Ja",
        1 => "Chuk",
        2 => "In",
        3 => "Myo",
        4 => "Jin",
        5 => "Sa",
        6 => "O",
        7 => "Mi",
        8 => "Sin",
        9 => "Yu",
        10 => "Sul",
        _ => "Hae",
    }
}

/// Table entry, by index.
pub fn branch_hanja(i: usize) -> (r: &'static str)
    requires
        i < 12,
    ensures
        r@ == branch_hanja_at(i as int),
{
    match i {
        0 => "子",
        1 => "丑",
        2 => "寅",
        3 => "卯",
        4 => "辰",
        5 => "巳",
        6 => "午",
        7 => "未",
        8 => "申",
        9 => "酉",
        10 => "戌",
        _ => "亥",
    }
}

/// Table entry, by index.
pub fn stage_name_ko(i: usize) -> (r: &'static str)
    requires
        i < 12,
    ensures
        r@ == stage_name_ko_at(i as int),
{
    match i {
        0 => "장생(長生)",
        1 => "목욕(沐浴)",
        2 => "관대(冠帶)",
        3 => "건록(建祿)",
        4 => "제왕(帝旺)",
        5 => "쇠(衰)",
        6 => "병(病)",
        7 => "사(死)",
        8 => "묘(墓)",
        9 => "절(絶)",
        10 => "태(胎)",
        _ => "양(養)",
    }
}

/// Table entry, by index.
pub fn stage_name_en(i: usize) -> (r: &'static str)
    requires
        i < 12,
    ensures
        r@ == stage_name_en_at(i as int),
{
    match i {
        0 => "Changsheng (長生)",
        1 => "Muyu (沐浴)",
        2 => "Guandai (冠帶)",
        3 => "Jianlu (建祿)",
        4 => "Dewang (帝旺)",
        5 => "Shuai (衰)",
        6 => "Bing (病)",
        7 => "Si (死)",
        8 => "Mu (墓)",
        9 => "Jue (絶)",
        10 => "Tai (胎)",
        _ => "Yang (養)",
    }
}

/// Table entry, by index.
pub fn shinsal_name_ko(i: usize) -> (r: &'static str)
    requires
        i < 12,
    ensures
        r@ == shinsal_name_ko_at(i as int),
{
    match i {
        0 => "지살(地殺)",
        1 => "년살(年殺)",
        2 => "월살(月殺)",
        3 => "망신살(亡身殺)",
        4 => "장성살(將星殺)",
        5 => "반안살(攀鞍殺)",
        6 => "역마살(驛馬殺)",
        7 => "육해살(六害殺)",
        8 => "화개살(華蓋殺)",
        9 => "겁살(劫殺)",
        10 => "재살(災殺)",
        _ => "천살(天殺)",
    }
}

/// Table entry, by index.
pub fn shinsal_name_en(i: usize) -> (r: &'static str)
    requires
        i < 12,
    ensures
        r@ == shinsal_name_en_at(i as int),
{
    match i {
        0 => "Earth Kill (地殺)",
        1 => "Year Kill (年殺)",
        2 => "Month Kill (月殺)",
        3 => "Loss Star (亡身殺)",
        4 => "General Star (將星殺)",
        5 => "Mounting Saddle (攀鞍殺)",
        6 => "Travel Horse (驛馬殺)",
        7 => "Six Harm (六害殺)",
        8 => "Canopy (華蓋殺)",
        9 => "Robbery (劫殺)",
        10 => "Disaster (災殺)",
        _ => "Heaven Kill (天殺)",
    }
}

} // verus!
