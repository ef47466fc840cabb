use yas_relic::decimal::Decimal;
use yas_relic::relic::{RelicSetName, RelicSlot, RelicStat, RelicStatName};
use yas_relic::scan::InternalRelic;
use yas_relic::utils::encode_lpcstr;

#[test]
fn stat_keys() {
    assert_eq!(RelicStatName::HPPercentage.to_hood(), "hp_");
    assert_eq!(RelicStatName::CRITRate.to_hood(), "critRate");
    assert_eq!(RelicStatName::CRITRate.to_srod(), "crit_");
    assert_eq!(RelicStatName::BreakEffect.to_srod(), "brEff_");
    assert_eq!(RelicStatName::EffectRES.to_hood(), "effRes");
}

#[test]
fn set_and_slot_keys() {
    assert_eq!(RelicSetName::PanCosmicCommercialEnterprise.to_hood(), "PanCosmicCommercialEnterprise");
    assert_eq!(RelicSetName::PanCosmicCommercialEnterprise.to_srod(), "PanGalacticCommercialEnterprise");
    assert_eq!(RelicSetName::ForgeoftheKalpagniLantern.to_hood(), "ForgeoftheKalpagniLantern");
    assert_eq!(RelicSetName::BrokenKeel.to_srod(), "BrokenKeel");
    assert_eq!(RelicSlot::Hands.to_hood(), "hands");
    assert_eq!(RelicSlot::Hands.to_srod(), "hand");
    assert_eq!(RelicSlot::LinkRope.to_srod(), "rope");
    assert_eq!(RelicSlot::PlanarSphere.to_hood(), "planarSphere");
}

#[test]
fn present_sub_stats_keep_order() {
    let s = |n: RelicStatName, m: u64| RelicStat { name: n, value: Decimal { mantissa: m, scale: 0 } };
    let r = InternalRelic {
        set_name: RelicSetName::BrokenKeel,
        slot: RelicSlot::LinkRope,
        star: 5,
        level: 15,
        lock: false,
        main_stat: s(RelicStatName::ATK, 1),
        sub_stat_1: None,
        sub_stat_2: Some(s(RelicStatName::SPD, 2)),
        sub_stat_3: None,
        sub_stat_4: Some(s(RelicStatName::HP, 3)),
        equip: None,
    };
    let v = r.sub_stats();
    assert_eq!(v.len(), 2);
    assert_eq!(v[0].name, RelicStatName::SPD);
    assert_eq!(v[1].name, RelicStatName::HP);
}

#[test]
fn lpcstr_is_zero_terminated() {
    assert_eq!(encode_lpcstr("Shcore.dll"), vec![83, 104, 99, 111, 114, 101, 46, 100, 108, 108, 0]);
    assert_eq!(encode_lpcstr(""), vec![0]);
    assert_eq!(encode_lpcstr("é"), vec![-61, -87, 0]);
}
