use std::collections::hash_map::DefaultHasher;
use std::hash::{Hash, Hasher};
use yas_relic::catalog::resolve_identity;
use yas_relic::decimal::Decimal;
use yas_relic::relic::{RelicSetName, RelicSlot, RelicStat, RelicStatName};

fn dec(mantissa: u64, scale: u32) -> Decimal {
    Decimal { mantissa, scale }
}

#[test]
fn parse_stat_percentage_is_a_fraction() {
    let s = RelicStat::from_zh_cn_raw("暴击率+10%").unwrap();
    assert_eq!(s.name, RelicStatName::CRITRate);
    assert_eq!(s.value.mantissa, 10);
    assert_eq!(s.value.scale, 2);
    assert_eq!(s.value.milli(), 100);
    assert!(s == RelicStat { name: RelicStatName::CRITRate, value: dec(10, 2) });
}

#[test]
fn parse_stat_with_grouping_comma() {
    let s = RelicStat::from_zh_cn_raw("生命值+4,123").unwrap();
    assert_eq!(s.name, RelicStatName::HP);
    assert_eq!(s.value.mantissa, 4123);
    assert_eq!(s.value.scale, 0);
    assert_eq!(s.value.milli(), 4_123_000);
}

#[test]
fn parse_stat_rejects_garbage() {
    assert!(RelicStat::from_zh_cn_raw("garbage").is_none());
    assert!(RelicStat::from_zh_cn_raw("生命值+1+2").is_none());
    assert!(RelicStat::from_zh_cn_raw("").is_none());
    assert!(RelicStat::from_zh_cn_raw("未知+5").is_none());
    assert!(RelicStat::from_zh_cn_raw("生命值+abc").is_none());
    assert!(RelicStat::from_zh_cn_raw("生命值+").is_none());
    assert!(RelicStat::from_zh_cn_raw("生命值+1.2.3").is_none());
    assert!(RelicStat::from_zh_cn_raw("生命值+99999999999999999999").is_none());
}

#[test]
fn parse_stat_flat_and_percentage_forms() {
    let flat = RelicStat::from_zh_cn_raw("攻击力+52").unwrap();
    assert_eq!(flat.name, RelicStatName::ATK);
    let pct = RelicStat::from_zh_cn_raw("攻击力+3.5%").unwrap();
    assert_eq!(pct.name, RelicStatName::ATKPercentage);
    assert_eq!(pct.value.mantissa, 35);
    assert_eq!(pct.value.scale, 3);
    assert_eq!(pct.value.milli(), 35);
    let def = RelicStat::from_zh_cn_raw("防御力+5.4%").unwrap();
    assert_eq!(def.name, RelicStatName::DEFPercentage);
    let spd = RelicStat::from_zh_cn_raw("速度+2.3").unwrap();
    assert_eq!(spd.name, RelicStatName::SPD);
    assert_eq!(spd.value.milli(), 2300);
}

#[test]
fn stat_names_resolve() {
    assert_eq!(RelicStatName::from_zh_cn("生命值", false), Some(RelicStatName::HP));
    assert_eq!(RelicStatName::from_zh_cn("生命值", true), Some(RelicStatName::HPPercentage));
    assert_eq!(RelicStatName::from_zh_cn("效果抵抗", false), Some(RelicStatName::EffectRES));
    assert_eq!(RelicStatName::from_zh_cn("量子属性伤害提高", true), Some(RelicStatName::QuantumDMGBoost));
    assert_eq!(RelicStatName::from_zh_cn("生命", false), None);
}

#[test]
fn stats_equal_at_three_decimals() {
    let a = RelicStat { name: RelicStatName::HP, value: dec(10_000_001, 4) };
    let b = RelicStat { name: RelicStatName::HP, value: dec(10_000_002, 4) };
    let c = RelicStat { name: RelicStatName::HP, value: dec(1001, 0) };
    assert!(a == b);
    assert!(a != c);
    let d = RelicStat { name: RelicStatName::ATK, value: dec(10_000_001, 4) };
    assert!(a != d);
}

#[test]
fn decimal_thousandths_truncate() {
    assert_eq!(dec(12_345, 4).milli(), 1234);
    assert_eq!(dec(7, 0).milli(), 7000);
    assert_eq!(dec(5, 1).milli(), 500);
    assert_eq!(dec(u64::MAX, 30).milli(), 0);
    assert_eq!(dec(u64::MAX, 0).milli(), u64::MAX as u128 * 1000);
    assert_eq!(dec(9, 22).milli(), 0);
}

#[test]
fn decimal_parsing_forms() {
    let parse = |s: &str| Decimal::parse_chars(&s.chars().collect());
    let d = parse("12.50").unwrap();
    assert_eq!((d.mantissa, d.scale), (1250, 2));
    let d = parse(".5").unwrap();
    assert_eq!((d.mantissa, d.scale), (5, 1));
    let d = parse("5.").unwrap();
    assert_eq!((d.mantissa, d.scale), (5, 0));
    assert!(parse(".").is_none());
    assert!(parse("").is_none());
    assert!(parse("1e3").is_none());
    assert!(parse("-1").is_none());
}

#[test]
fn relic_names_resolve_to_set_and_slot() {
    assert_eq!(
        resolve_identity("过客的逢春木簪"),
        Some((RelicSetName::PasserbyofWanderingCloud, RelicSlot::Head))
    );
    assert_eq!(RelicSetName::from_zh_cn("铸炼宫的莲华灯芯"), Some(RelicSetName::ForgeoftheKalpagniLantern));
    assert_eq!(RelicSlot::from_zh_cn("铸炼宫的莲华灯芯"), Some(RelicSlot::LinkRope));
    assert_eq!(RelicSlot::from_zh_cn("「黑塔」的空间站点"), Some(RelicSlot::PlanarSphere));
    assert_eq!(RelicSetName::from_zh_cn("过客的逢春木"), None);
    assert_eq!(RelicSlot::from_zh_cn(""), None);
}

#[test]
fn hundredth_raises_scale() {
    let d = dec(10, 0).hundredth().unwrap();
    assert_eq!((d.mantissa, d.scale), (10, 2));
    assert!(dec(1, u32::MAX - 1).hundredth().is_none());
    assert!(dec(1, u32::MAX - 2).hundredth().is_some());
}

fn hash_of(s: &RelicStat) -> u64 {
    let mut h = DefaultHasher::new();
    s.hash(&mut h);
    h.finish()
}

#[test]
fn equal_stats_hash_alike() {
    let a = RelicStat { name: RelicStatName::HP, value: dec(10_000_001, 4) };
    let b = RelicStat { name: RelicStatName::HP, value: dec(10_000_002, 4) };
    let c = RelicStat { name: RelicStatName::HP, value: dec(1000, 0) };
    assert_eq!(hash_of(&a), hash_of(&b));
    assert_eq!(hash_of(&a), hash_of(&c));
    assert_eq!(RelicStatName::HP.index(), 0);
    assert_eq!(RelicStatName::EffectRES.index(), 20);
}
