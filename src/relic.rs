//! Relic records: stat kinds, set and slot identities, and the parsing of
//! recognised stat text such as `暴击率+10%` into a typed stat.

use vstd::prelude::*;
use crate::decimal::{Decimal, number_of};
use crate::text::{chars_of, has_char, same_text};
use vstd::string::StrSliceExecFns;

verus! {

broadcast use vstd::string::group_string_axioms;

/// The kinds of stat a relic can carry; flat and percentage forms differ.
#[derive(Clone, Copy, Debug, Hash, PartialEq, Eq, Structural)]
pub enum RelicStatName {
    HP,
    HPPercentage,
    ATK,
    ATKPercentage,
    DEFPercentage,
    SPD,
    CRITRate,
    CRITDMG,
    BreakEffect,
    OutgoingHealingBoost,
    EnergyRegenerationRate,
    EffectHitRate,
    PhysicalDMGBoost,
    FireDMGBoost,
    IceDMGBoost,
    LightningDMGBoost,
    WindDMGBoost,
    QuantumDMGBoost,
    ImaginaryDMGBoost,
    DEF,
    EffectRES,
}

/// The equip position of a relic.
#[derive(Clone, Copy, Debug, Hash, PartialEq, Eq, Structural)]
pub enum RelicSlot {
    Head,
    Hands,
    Body,
    Feet,
    PlanarSphere,
    LinkRope,
}

/// The relic sets, one per collectible set.
#[derive(Clone, Copy, Debug, Hash, PartialEq, Eq, Structural)]
pub enum RelicSetName {
    PasserbyofWanderingCloud,  // 云无留迹的过客
    MusketeerofWildWheat,  // 野穗伴行的快枪手
    KnightofPurityPalace,  // 净庭教宗的圣骑士
    HunterofGlacialForest,  // 密林卧雪的猎人
    ChampionofStreetwiseBoxing,  // 街头出身的拳王
    GuardofWutheringSnow,  // 戍卫风雪的铁卫
    FiresmithofLavaForging,  // 熔岩锻铸的火匠
    GeniusofBrilliantStars,  // 繁星璀璨的天才
    BandofSizzlingThunder,  // 激奏雷电的乐队
    EagleofTwilightLine,  // 晨昏交界的翔鹰
    ThiefofShootingMeteor,  // 流星追迹的怪盗
    WastelanderofBanditryDesert,  // 盗匪荒漠的废土客
    LongevousDisciple,  // 宝命长存的莳者
    MessengerTraversingHackerspace,  // 骇域漫游的信使
    TheAshblazingGrandDuke,  // 毁烬焚骨的大公
    PrisonerinDeepConfinement,  // 幽锁深牢的系囚
    PioneerDiverofDeadWaters,  // 死水深潜的先驱
    WatchmakerMasterofDreamMachinations,  // 机心戏梦的钟表匠
    IronCavalryAgainsttheScourge,  // 荡除蠹灾的铁骑
    TheWindSoaringValorous,  // 风举云飞的勇烈
    SpaceSealingStation,  // 太空封印站
    FleetoftheAgeless,  // 不老者的仙舟
    PanCosmicCommercialEnterprise,  // 泛银河商业公司
    BelobogoftheArchitects,  // 筑城者的贝洛伯格
    CelestialDifferentiator,  // 星体差分机
    InertSalsotto,  // 停止转动的萨尔索图
    TaliaKingdomofBanditry,  // 盗贼公国塔利亚
    SprightlyVonwacq,  // 生命的翁瓦克
    RutilantArena,  // 繁星竞技场
    BrokenKeel,  // 折断的龙骨
    FirmamentFrontlineGlamoth,  // 苍穹战线格拉默
    PenaconyLandoftheDreams,  // 梦想之地匹诺康尼
    DuranDynastyofRunningWolves,  // 奔狼的都蓝王朝
    ForgeoftheKalpagniLantern,  // 劫火莲灯铸炼宫
}

/// The stat kind a Chinese stat name denotes; the three stats with a flat
/// and a percentage form are told apart by `pct`.
pub open spec fn stat_name_of(name: Seq<char>, pct: bool) -> Option<RelicStatName> {
    if name == "生命值"@ {
        Some(if pct { RelicStatName::HPPercentage } else { RelicStatName::HP })
    } else if name == "攻击力"@ {
        Some(if pct { RelicStatName::ATKPercentage } else { RelicStatName::ATK })
    } else if name == "防御力"@ {
        Some(if pct { RelicStatName::DEFPercentage } else { RelicStatName::DEF })
    } else if name == "速度"@ {
        Some(RelicStatName::SPD)
    } else if name == "暴击率"@ {
        Some(RelicStatName::CRITRate)
    } else if name == "暴击伤害"@ {
        Some(RelicStatName::CRITDMG)
    } else if name == "击破特攻"@ {
        Some(RelicStatName::BreakEffect)
    } else if name == "治疗量加成"@ {
        Some(RelicStatName::OutgoingHealingBoost)
    } else if name == "能量恢复效率"@ {
        Some(RelicStatName::EnergyRegenerationRate)
    } else if name == "效果命中"@ {
        Some(RelicStatName::EffectHitRate)
    } else if name == "物理属性伤害提高"@ {
        Some(RelicStatName::PhysicalDMGBoost)
    } else if name == "火属性伤害提高"@ {
        Some(RelicStatName::FireDMGBoost)
    } else if name == "冰属性伤害提高"@ {
        Some(RelicStatName::IceDMGBoost)
    } else if name == "雷属性伤害提高"@ {
        Some(RelicStatName::LightningDMGBoost)
    } else if name == "风属性伤害提高"@ {
        Some(RelicStatName::WindDMGBoost)
    } else if name == "量子属性伤害提高"@ {
        Some(RelicStatName::QuantumDMGBoost)
    } else if name == "虚数属性伤害提高"@ {
        Some(RelicStatName::ImaginaryDMGBoost)
    } else if name == "效果抵抗"@ {
        Some(RelicStatName::EffectRES)
    } else {
        None
    }
}

impl RelicStatName {
    /// Looks up a Chinese stat name.
    pub fn from_zh_cn(name: &str, is_percentage: bool) -> (r: Option<RelicStatName>)
        ensures
            r == stat_name_of(name@, is_percentage),
    {
        if same_text(name, "生命值") {
            Some(if is_percentage { RelicStatName::HPPercentage } else { RelicStatName::HP })
        } else if same_text(name, "攻击力") {
            Some(if is_percentage { RelicStatName::ATKPercentage } else { RelicStatName::ATK })
        } else if same_text(name, "防御力") {
            Some(if is_percentage { RelicStatName::DEFPercentage } else { RelicStatName::DEF })
        } else if same_text(name, "速度") {
            Some(RelicStatName::SPD)
        } else if same_text(name, "暴击率") {
            Some(RelicStatName::CRITRate)
        } else if same_text(name, "暴击伤害") {
            Some(RelicStatName::CRITDMG)
        } else if same_text(name, "击破特攻") {
            Some(RelicStatName::BreakEffect)
        } else if same_text(name, "治疗量加成") {
            Some(RelicStatName::OutgoingHealingBoost)
        } else if same_text(name, "能量恢复效率") {
            Some(RelicStatName::EnergyRegenerationRate)
        } else if same_text(name, "效果命中") {
            Some(RelicStatName::EffectHitRate)
        } else if same_text(name, "物理属性伤害提高") {
            Some(RelicStatName::PhysicalDMGBoost)
        } else if same_text(name, "火属性伤害提高") {
            Some(RelicStatName::FireDMGBoost)
        } else if same_text(name, "冰属性伤害提高") {
            Some(RelicStatName::IceDMGBoost)
        } else if same_text(name, "雷属性伤害提高") {
            Some(RelicStatName::LightningDMGBoost)
        } else if same_text(name, "风属性伤害提高") {
            Some(RelicStatName::WindDMGBoost)
        } else if same_text(name, "量子属性伤害提高") {
            Some(RelicStatName::QuantumDMGBoost)
        } else if same_text(name, "虚数属性伤害提高") {
            Some(RelicStatName::ImaginaryDMGBoost)
        } else if same_text(name, "效果抵抗") {
            Some(RelicStatName::EffectRES)
        } else {
            None
        }
    }
}

/// One stat of a relic: its kind and its value, percentages as fractions.
#[derive(Clone, Copy, Debug)]
pub struct RelicStat {
    pub name: RelicStatName,
    pub value: Decimal,
}

impl RelicStat {
    /// Two stats are the same when their kinds match and their values agree
    /// once truncated to thousandths.
    pub open spec fn same_as(self, other: RelicStat) -> bool {
        self.name == other.name && self.value.milli_spec() == other.value.milli_spec()
    }
}

impl PartialEq for RelicStat {
    fn eq(&self, other: &RelicStat) -> (r: bool) {
        self.name == other.name && self.value.milli() == other.value.milli()
    }
}

impl vstd::std_specs::cmp::PartialEqSpecImpl for RelicStat {
    open spec fn obeys_eq_spec() -> bool {
        true
    }

    open spec fn eq_spec(&self, other: &RelicStat) -> bool {
        self.same_as(*other)
    }
}

impl Eq for RelicStat {
}

/// The position of a stat kind in declaration order.
pub open spec fn kind_index(n: RelicStatName) -> u8 {
    match n {
        RelicStatName::HP => 0,
        RelicStatName::HPPercentage => 1,
        RelicStatName::ATK => 2,
        RelicStatName::ATKPercentage => 3,
        RelicStatName::DEFPercentage => 4,
        RelicStatName::SPD => 5,
        RelicStatName::CRITRate => 6,
        RelicStatName::CRITDMG => 7,
        RelicStatName::BreakEffect => 8,
        RelicStatName::OutgoingHealingBoost => 9,
        RelicStatName::EnergyRegenerationRate => 10,
        RelicStatName::EffectHitRate => 11,
        RelicStatName::PhysicalDMGBoost => 12,
        RelicStatName::FireDMGBoost => 13,
        RelicStatName::IceDMGBoost => 14,
        RelicStatName::LightningDMGBoost => 15,
        RelicStatName::WindDMGBoost => 16,
        RelicStatName::QuantumDMGBoost => 17,
        RelicStatName::ImaginaryDMGBoost => 18,
        RelicStatName::DEF => 19,
        RelicStatName::EffectRES => 20,
    }
}

impl RelicStatName {
    /// The position of this stat kind in declaration order.
    pub fn index(&self) -> (r: u8)
        ensures
            r == kind_index(*self),
    {
        match self {
            RelicStatName::HP => 0,
            RelicStatName::HPPercentage => 1,
            RelicStatName::ATK => 2,
            RelicStatName::ATKPercentage => 3,
            RelicStatName::DEFPercentage => 4,
            RelicStatName::SPD => 5,
            RelicStatName::CRITRate => 6,
            RelicStatName::CRITDMG => 7,
            RelicStatName::BreakEffect => 8,
            RelicStatName::OutgoingHealingBoost => 9,
            RelicStatName::EnergyRegenerationRate => 10,
            RelicStatName::EffectHitRate => 11,
            RelicStatName::PhysicalDMGBoost => 12,
            RelicStatName::FireDMGBoost => 13,
            RelicStatName::IceDMGBoost => 14,
            RelicStatName::LightningDMGBoost => 15,
            RelicStatName::WindDMGBoost => 16,
            RelicStatName::QuantumDMGBoost => 17,
            RelicStatName::ImaginaryDMGBoost => 18,
            RelicStatName::DEF => 19,
            RelicStatName::EffectRES => 20,
        }
    }
}

/// std's `Hash` for `u8` feeds the value to the hasher; nothing is claimed
/// about the hasher's state.
pub assume_specification<H: core::hash::Hasher>[ <u8 as core::hash::Hash>::hash::<H> ](
    v: &u8,
    state: &mut H,
);

/// std's `Hash` for `u128` feeds the value to the hasher; nothing is claimed
/// about the hasher's state.
pub assume_specification<H: core::hash::Hasher>[ <u128 as core::hash::Hash>::hash::<H> ](
    v: &u128,
    state: &mut H,
);

impl core::hash::Hash for RelicStat {
    /// Hashes what equality compares: the kind and the value in thousandths.
    fn hash<H: core::hash::Hasher>(&self, state: &mut H) {
        self.name.index().hash(state);
        self.value.milli().hash(state);
    }
}

/// The text with every percent sign and digit-grouping comma removed.
pub open spec fn without_marks(s: Seq<char>) -> Seq<char> {
    s.filter(|c: char| c != '%' && c != ',')
}

/// Relies on regex's `Regex::new`, which accepts the character class `[%,]`,
/// and `Regex::replace_all`, which with that class and an empty replacement
/// removes every `%` and `,` and keeps the other characters in order.
#[verifier::external_body]
fn strip_marks(pattern: &str, s: &str) -> (r: String)
    requires
        pattern@ == "[%,]"@,
    ensures
        r@ == without_marks(s@),
{
    regex::Regex::new(pattern).unwrap().replace_all(s, "").into_owned()
}

/// `k` is the position of the one and only `+` of `s`.
pub open spec fn single_plus_at(s: Seq<char>, k: int) -> bool {
    &&& 0 <= k < s.len()
    &&& s[k] == '+'
    &&& forall|j: int| 0 <= j < s.len() && j != k ==> s[j] != '+'
}

/// The stat a name part and a value part denote.
pub open spec fn stat_of_parts(name: Seq<char>, value: Seq<char>) -> Option<RelicStat> {
    let pct = value.contains('%');
    match stat_name_of(name, pct) {
        None => None,
        Some(n) => match number_of(without_marks(value)) {
            None => None,
            Some(d) => if !pct {
                Some(RelicStat { name: n, value: d })
            } else if d.scale + 2 <= u32::MAX {
                Some(RelicStat { name: n, value: d.hundredth_spec() })
            } else {
                None
            },
        },
    }
}

/// The stat a text `<name>+<value>[%]` denotes; none unless it holds
/// exactly one `+`.
pub open spec fn stat_of(s: Seq<char>) -> Option<RelicStat> {
    if exists|k: int| single_plus_at(s, k) {
        let k = choose|k: int| single_plus_at(s, k);
        stat_of_parts(s.subrange(0, k), s.subrange(k + 1, s.len() as int))
    } else {
        None
    }
}

impl RelicStat {
    /// Parses a recognised stat text such as `生命值+4,123` or `暴击率+10%`.
    pub fn from_zh_cn_raw(s: &str) -> (r: Option<RelicStat>)
        ensures
            r == stat_of(s@),
    {
        let cs = chars_of(s);
        let n = cs.len();
        let mut found: Option<usize> = None;
        let mut i: usize = 0;
        while i < n
            invariant
                cs@ == s@,
                n == cs@.len(),
                i <= n,
                found is None ==> forall|j: int| 0 <= j < i ==> cs@[j] != '+',
                found matches Some(k) ==> k < i && cs@[k as int] == '+' && forall|j: int|
                    0 <= j < i && j != k ==> cs@[j] != '+',
            decreases n - i,
        {
            if cs[i] == '+' {
                if let Some(k) = found {
                    proof {
                        assert forall|m: int| !single_plus_at(s@, m) by {
                            if single_plus_at(s@, m) {
                                assert(m == k as int || m == i as int);
                            }
                        }
                    }
                    return None;
                }
                found = Some(i);
            }
            i = i + 1;
        }
        let k = match found {
            None => {
                proof {
                    assert forall|m: int| !single_plus_at(s@, m) by {
                        if 0 <= m < n {
                            assert(cs@[m] != '+');
                        }
                    }
                }
                return None;
            },
            Some(k) => k,
        };
        proof {
            assert(single_plus_at(s@, k as int));
            let c = choose|m: int| single_plus_at(s@, m);
            assert(c == k as int);
        }
        let name = s.substring_char(0, k);
        let value = s.substring_char(k + 1, n);
        let pct = has_char(value, '%');
        let stat_name = match RelicStatName::from_zh_cn(name, pct) {
            Some(v) => v,
            None => return None,
        };
        let digits = strip_marks("[%,]", value);
        let dcs = chars_of(digits.as_str());
        let d = match Decimal::parse_chars(&dcs) {
            Some(d) => d,
            None => return None,
        };
        if pct {
            match d.hundredth() {
                Some(h) => Some(RelicStat { name: stat_name, value: h }),
                None => None,
            }
        } else {
            Some(RelicStat { name: stat_name, value: d })
        }
    }
}

} // verus!
