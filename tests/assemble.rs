use yas_relic::relic::{RelicSetName, RelicSlot, RelicStatName};
use yas_relic::scan::{lookup_owner, YasScanResult};

fn record(level: &str, location: &str) -> YasScanResult {
    YasScanResult {
        name: "快枪手的野穗毡帽".to_string(),
        main_stat_name: "生命值".to_string(),
        main_stat_value: "705".to_string(),
        sub_stat_1: "暴击率+3.2%".to_string(),
        sub_stat_2: "".to_string(),
        sub_stat_3: "速度+4".to_string(),
        sub_stat_4: "bad".to_string(),
        level: level.to_string(),
        location: location.to_string(),
        rarity: 5,
        lock: true,
    }
}

#[test]
fn level_without_marker_is_refused() {
    assert!(record("80", "").to_internal_relic().is_none());
}

#[test]
fn level_with_marker_is_read() {
    let r = record("+80", "").to_internal_relic().unwrap();
    assert_eq!(r.level, 80);
    assert_eq!(r.set_name, RelicSetName::MusketeerofWildWheat);
    assert_eq!(r.slot, RelicSlot::Head);
    assert_eq!(r.star, 5);
    assert!(r.lock);
    assert_eq!(r.main_stat.name, RelicStatName::HP);
    assert_eq!(r.main_stat.value.milli(), 705_000);
    assert_eq!(r.sub_stat_1.unwrap().name, RelicStatName::CRITRate);
    assert!(r.sub_stat_2.is_none());
    assert_eq!(r.sub_stat_3.unwrap().name, RelicStatName::SPD);
    assert!(r.sub_stat_4.is_none());
    assert_eq!(r.equip, None);
}

#[test]
fn marker_must_lead_the_level() {
    assert!(record("8+0", "").to_internal_relic().is_none());
    assert!(record("80+", "").to_internal_relic().is_none());
    assert_eq!(record("+0", "").to_internal_relic().unwrap().level, 0);
}

#[test]
fn bad_level_number_is_refused() {
    assert!(record("+", "").to_internal_relic().is_none());
    assert!(record("+8x", "").to_internal_relic().is_none());
    assert!(record("+99999999999", "").to_internal_relic().is_none());
}

#[test]
fn unknown_name_is_refused() {
    let mut r = record("+15", "");
    r.name = "不存在的遗器".to_string();
    assert!(r.to_internal_relic().is_none());
}

#[test]
fn bad_main_stat_is_refused() {
    let mut r = record("+15", "");
    r.main_stat_value = "七百".to_string();
    assert!(r.to_internal_relic().is_none());
}

#[test]
fn percentage_main_stat() {
    let mut r = record("+15", "");
    r.main_stat_name = "攻击力".to_string();
    r.main_stat_value = "43.2%".to_string();
    let x = r.to_internal_relic().unwrap();
    assert_eq!(x.main_stat.name, RelicStatName::ATKPercentage);
    assert_eq!(x.main_stat.value.milli(), 432);
}

#[test]
fn equipped_owner_is_resolved() {
    let owners = vec![("希儿".to_string(), "Seele".to_string())];
    let x = record("+15", "希儿已装备").assemble(&owners).unwrap();
    assert_eq!(x.equip, Some("Seele".to_string()));
    let y = record("+15", "姬子已装备").assemble(&owners).unwrap();
    assert_eq!(y.equip, None);
    let z = record("+15", "希儿").assemble(&owners).unwrap();
    assert_eq!(z.equip, None);
    let w = record("+15", "希儿已装备").to_internal_relic().unwrap();
    assert_eq!(w.equip, None);
}

#[test]
fn owner_lookup_takes_first_match() {
    let owners = vec![
        ("希儿".to_string(), "Seele".to_string()),
        ("希儿".to_string(), "Other".to_string()),
        ("姬子".to_string(), "Himeko".to_string()),
    ];
    assert_eq!(lookup_owner(&owners, "希儿"), Some("Seele".to_string()));
    assert_eq!(lookup_owner(&owners, "姬子"), Some("Himeko".to_string()));
    assert_eq!(lookup_owner(&owners, "三月七"), None);
    assert_eq!(lookup_owner(&Vec::new(), "希儿"), None);
}
