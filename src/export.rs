//! The keys under which relic data is exported: two export formats name
//! stats, sets and slots differently.

use vstd::prelude::*;
use crate::relic::{RelicSetName, RelicSlot, RelicStat, RelicStatName};
use crate::scan::InternalRelic;

verus! {

broadcast use vstd::string::group_string_axioms;

/// The key of a stat kind in the HOOD format.
pub open spec fn hood_stat_key(x: RelicStatName) -> Seq<char> {
    match x {
        RelicStatName::HP => "hp"@,
        RelicStatName::HPPercentage => "hp_"@,
        RelicStatName::ATK => "atk"@,
        RelicStatName::ATKPercentage => "atk_"@,
        RelicStatName::DEFPercentage => "def_"@,
        RelicStatName::SPD => "spd"@,
        RelicStatName::CRITRate => "critRate"@,
        RelicStatName::CRITDMG => "critDMG"@,
        RelicStatName::BreakEffect => "break"@,
        RelicStatName::OutgoingHealingBoost => "heal"@,
        RelicStatName::EnergyRegenerationRate => "enerRegen"@,
        RelicStatName::EffectHitRate => "eff"@,
        RelicStatName::PhysicalDMGBoost => "physicalDmg"@,
        RelicStatName::FireDMGBoost => "fireDmg"@,
        RelicStatName::IceDMGBoost => "iceDmg"@,
        RelicStatName::LightningDMGBoost => "lightningDmg"@,
        RelicStatName::WindDMGBoost => "windDmg"@,
        RelicStatName::QuantumDMGBoost => "quantumDmg"@,
        RelicStatName::ImaginaryDMGBoost => "imaginaryDmg"@,
        RelicStatName::DEF => "def"@,
        RelicStatName::EffectRES => "effRes"@,
    }
}

/// The key of a stat kind in the SROD format.
pub open spec fn srod_stat_key(x: RelicStatName) -> Seq<char> {
    match x {
        RelicStatName::HP => "hp"@,
        RelicStatName::HPPercentage => "hp_"@,
        RelicStatName::ATK => "atk"@,
        RelicStatName::ATKPercentage => "atk_"@,
        RelicStatName::DEFPercentage => "def_"@,
        RelicStatName::SPD => "spd"@,
        RelicStatName::CRITRate => "crit_"@,
        RelicStatName::CRITDMG => "crit_dmg_"@,
        RelicStatName::BreakEffect => "brEff_"@,
        RelicStatName::OutgoingHealingBoost => "heal_"@,
        RelicStatName::EnergyRegenerationRate => "enerRegen_"@,
        RelicStatName::EffectHitRate => "eff_"@,
        RelicStatName::PhysicalDMGBoost => "physical_dmg_"@,
        RelicStatName::FireDMGBoost => "fire_dmg_"@,
        RelicStatName::IceDMGBoost => "ice_dmg_"@,
        RelicStatName::LightningDMGBoost => "lightning_dmg_"@,
        RelicStatName::WindDMGBoost => "wind_dmg_"@,
        RelicStatName::QuantumDMGBoost => "quantum_dmg_"@,
        RelicStatName::ImaginaryDMGBoost => "imaginary_dmg_"@,
        RelicStatName::DEF => "def"@,
        RelicStatName::EffectRES => "eff_res_"@,
    }
}

/// The name of a relic set: the name of its variant.
pub open spec fn set_key(x: RelicSetName) -> Seq<char> {
    match x {
        RelicSetName::PasserbyofWanderingCloud => "PasserbyofWanderingCloud"@,
        RelicSetName::MusketeerofWildWheat => "MusketeerofWildWheat"@,
        RelicSetName::KnightofPurityPalace => "KnightofPurityPalace"@,
        RelicSetName::HunterofGlacialForest => "HunterofGlacialForest"@,
        RelicSetName::ChampionofStreetwiseBoxing => "ChampionofStreetwiseBoxing"@,
        RelicSetName::GuardofWutheringSnow => "GuardofWutheringSnow"@,
        RelicSetName::FiresmithofLavaForging => "FiresmithofLavaForging"@,
        RelicSetName::GeniusofBrilliantStars => "GeniusofBrilliantStars"@,
        RelicSetName::BandofSizzlingThunder => "BandofSizzlingThunder"@,
        RelicSetName::EagleofTwilightLine => "EagleofTwilightLine"@,
        RelicSetName::ThiefofShootingMeteor => "ThiefofShootingMeteor"@,
        RelicSetName::WastelanderofBanditryDesert => "WastelanderofBanditryDesert"@,
        RelicSetName::LongevousDisciple => "LongevousDisciple"@,
        RelicSetName::MessengerTraversingHackerspace => "MessengerTraversingHackerspace"@,
        RelicSetName::TheAshblazingGrandDuke => "TheAshblazingGrandDuke"@,
        RelicSetName::PrisonerinDeepConfinement => "PrisonerinDeepConfinement"@,
        RelicSetName::PioneerDiverofDeadWaters => "PioneerDiverofDeadWaters"@,
        RelicSetName::WatchmakerMasterofDreamMachinations => "WatchmakerMasterofDreamMachinations"@,
        RelicSetName::IronCavalryAgainsttheScourge => "IronCavalryAgainsttheScourge"@,
        RelicSetName::TheWindSoaringValorous => "TheWindSoaringValorous"@,
        RelicSetName::SpaceSealingStation => "SpaceSealingStation"@,
        RelicSetName::FleetoftheAgeless => "FleetoftheAgeless"@,
        RelicSetName::PanCosmicCommercialEnterprise => "PanCosmicCommercialEnterprise"@,
        RelicSetName::BelobogoftheArchitects => "BelobogoftheArchitects"@,
        RelicSetName::CelestialDifferentiator => "CelestialDifferentiator"@,
        RelicSetName::InertSalsotto => "InertSalsotto"@,
        RelicSetName::TaliaKingdomofBanditry => "TaliaKingdomofBanditry"@,
        RelicSetName::SprightlyVonwacq => "SprightlyVonwacq"@,
        RelicSetName::RutilantArena => "RutilantArena"@,
        RelicSetName::BrokenKeel => "BrokenKeel"@,
        RelicSetName::FirmamentFrontlineGlamoth => "FirmamentFrontlineGlamoth"@,
        RelicSetName::PenaconyLandoftheDreams => "PenaconyLandoftheDreams"@,
        RelicSetName::DuranDynastyofRunningWolves => "DuranDynastyofRunningWolves"@,
        RelicSetName::ForgeoftheKalpagniLantern => "ForgeoftheKalpagniLantern"@,
    }
}

/// The key of a slot in the HOOD format.
pub open spec fn hood_slot_key(x: RelicSlot) -> Seq<char> {
    match x {
        RelicSlot::Head => "head"@,
        RelicSlot::Hands => "hands"@,
        RelicSlot::Body => "body"@,
        RelicSlot::Feet => "feet"@,
        RelicSlot::PlanarSphere => "planarSphere"@,
        RelicSlot::LinkRope => "linkRope"@,
    }
}

/// The key of a slot in the SROD format.
pub open spec fn srod_slot_key(x: RelicSlot) -> Seq<char> {
    match x {
        RelicSlot::Head => "head"@,
        RelicSlot::Hands => "hand"@,
        RelicSlot::Body => "body"@,
        RelicSlot::Feet => "feet"@,
        RelicSlot::PlanarSphere => "sphere"@,
        RelicSlot::LinkRope => "rope"@,
    }
}

/// The key of a relic set in the SROD format: its name, but for one set
/// that the format names after its other title.
pub open spec fn srod_set_key(x: RelicSetName) -> Seq<char> {
    match x {
        RelicSetName::PanCosmicCommercialEnterprise => "PanGalacticCommercialEnterprise"@,
        _ => set_key(x),
    }
}

impl RelicStatName {
    /// The key of this stat kind in the HOOD format.
    pub fn to_hood(&self) -> (r: String)
        ensures
            r@ == hood_stat_key(*self),
    {
        let t: &str = match self {
            RelicStatName::HP => "hp",
            RelicStatName::HPPercentage => "hp_",
            RelicStatName::ATK => "atk",
            RelicStatName::ATKPercentage => "atk_",
            RelicStatName::DEFPercentage => "def_",
            RelicStatName::SPD => "spd",
            RelicStatName::CRITRate => "critRate",
            RelicStatName::CRITDMG => "critDMG",
            RelicStatName::BreakEffect => "break",
            RelicStatName::OutgoingHealingBoost => "heal",
            RelicStatName::EnergyRegenerationRate => "enerRegen",
            RelicStatName::EffectHitRate => "eff",
            RelicStatName::PhysicalDMGBoost => "physicalDmg",
            RelicStatName::FireDMGBoost => "fireDmg",
            RelicStatName::IceDMGBoost => "iceDmg",
            RelicStatName::LightningDMGBoost => "lightningDmg",
            RelicStatName::WindDMGBoost => "windDmg",
            RelicStatName::QuantumDMGBoost => "quantumDmg",
            RelicStatName::ImaginaryDMGBoost => "imaginaryDmg",
            RelicStatName::DEF => "def",
            RelicStatName::EffectRES => "effRes",
        };
        t.to_owned()
    }

    /// The key of this stat kind in the SROD format.
    pub fn to_srod(&self) -> (r: String)
        ensures
            r@ == srod_stat_key(*self),
    {
        let t: &str = match self {
            RelicStatName::HP => "hp",
            RelicStatName::HPPercentage => "hp_",
            RelicStatName::ATK => "atk",
            RelicStatName::ATKPercentage => "atk_",
            RelicStatName::DEFPercentage => "def_",
            RelicStatName::SPD => "spd",
            RelicStatName::CRITRate => "crit_",
            RelicStatName::CRITDMG => "crit_dmg_",
            RelicStatName::BreakEffect => "brEff_",
            RelicStatName::OutgoingHealingBoost => "heal_",
            RelicStatName::EnergyRegenerationRate => "enerRegen_",
            RelicStatName::EffectHitRate => "eff_",
            RelicStatName::PhysicalDMGBoost => "physical_dmg_",
            RelicStatName::FireDMGBoost => "fire_dmg_",
            RelicStatName::IceDMGBoost => "ice_dmg_",
            RelicStatName::LightningDMGBoost => "lightning_dmg_",
            RelicStatName::WindDMGBoost => "wind_dmg_",
            RelicStatName::QuantumDMGBoost => "quantum_dmg_",
            RelicStatName::ImaginaryDMGBoost => "imaginary_dmg_",
            RelicStatName::DEF => "def",
            RelicStatName::EffectRES => "eff_res_",
        };
        t.to_owned()
    }
}

impl RelicSetName {
    /// The name of this set: the name of its variant.
    pub fn name(&self) -> (r: String)
        ensures
            r@ == set_key(*self),
    {
        let t: &str = match self {
            RelicSetName::PasserbyofWanderingCloud => "PasserbyofWanderingCloud",
            RelicSetName::MusketeerofWildWheat => "MusketeerofWildWheat",
            RelicSetName::KnightofPurityPalace => "KnightofPurityPalace",
            RelicSetName::HunterofGlacialForest => "HunterofGlacialForest",
            RelicSetName::ChampionofStreetwiseBoxing => "ChampionofStreetwiseBoxing",
            RelicSetName::GuardofWutheringSnow => "GuardofWutheringSnow",
            RelicSetName::FiresmithofLavaForging => "FiresmithofLavaForging",
            RelicSetName::GeniusofBrilliantStars => "GeniusofBrilliantStars",
            RelicSetName::BandofSizzlingThunder => "BandofSizzlingThunder",
            RelicSetName::EagleofTwilightLine => "EagleofTwilightLine",
            RelicSetName::ThiefofShootingMeteor => "ThiefofShootingMeteor",
            RelicSetName::WastelanderofBanditryDesert => "WastelanderofBanditryDesert",
            RelicSetName::LongevousDisciple => "LongevousDisciple",
            RelicSetName::MessengerTraversingHackerspace => "MessengerTraversingHackerspace",
            RelicSetName::TheAshblazingGrandDuke => "TheAshblazingGrandDuke",
            RelicSetName::PrisonerinDeepConfinement => "PrisonerinDeepConfinement",
            RelicSetName::PioneerDiverofDeadWaters => "PioneerDiverofDeadWaters",
            RelicSetName::WatchmakerMasterofDreamMachinations => "WatchmakerMasterofDreamMachinations",
            RelicSetName::IronCavalryAgainsttheScourge => "IronCavalryAgainsttheScourge",
            RelicSetName::TheWindSoaringValorous => "TheWindSoaringValorous",
            RelicSetName::SpaceSealingStation => "SpaceSealingStation",
            RelicSetName::FleetoftheAgeless => "FleetoftheAgeless",
            RelicSetName::PanCosmicCommercialEnterprise => "PanCosmicCommercialEnterprise",
            RelicSetName::BelobogoftheArchitects => "BelobogoftheArchitects",
            RelicSetName::CelestialDifferentiator => "CelestialDifferentiator",
            RelicSetName::InertSalsotto => "InertSalsotto",
            RelicSetName::TaliaKingdomofBanditry => "TaliaKingdomofBanditry",
            RelicSetName::SprightlyVonwacq => "SprightlyVonwacq",
            RelicSetName::RutilantArena => "RutilantArena",
            RelicSetName::BrokenKeel => "BrokenKeel",
            RelicSetName::FirmamentFrontlineGlamoth => "FirmamentFrontlineGlamoth",
            RelicSetName::PenaconyLandoftheDreams => "PenaconyLandoftheDreams",
            RelicSetName::DuranDynastyofRunningWolves => "DuranDynastyofRunningWolves",
            RelicSetName::ForgeoftheKalpagniLantern => "ForgeoftheKalpagniLantern",
        };
        t.to_owned()
    }

    /// The key of this set in the HOOD format: its name.
    pub fn to_hood(&self) -> (r: String)
        ensures
            r@ == set_key(*self),
    {
        self.name()
    }

    /// The key of this set in the SROD format.
    pub fn to_srod(&self) -> (r: String)
        ensures
            r@ == srod_set_key(*self),
    {
        match self {
            RelicSetName::PanCosmicCommercialEnterprise => "PanGalacticCommercialEnterprise".to_owned(),
            _ => self.name(),
        }
    }
}

impl RelicSlot {
    /// The key of this slot in the HOOD format.
    pub fn to_hood(&self) -> (r: String)
        ensures
            r@ == hood_slot_key(*self),
    {
        let t: &str = match self {
            RelicSlot::Head => "head",
            RelicSlot::Hands => "hands",
            RelicSlot::Body => "body",
            RelicSlot::Feet => "feet",
            RelicSlot::PlanarSphere => "planarSphere",
            RelicSlot::LinkRope => "linkRope",
        };
        t.to_owned()
    }

    /// The key of this slot in the SROD format.
    pub fn to_srod(&self) -> (r: String)
        ensures
            r@ == srod_slot_key(*self),
    {
        let t: &str = match self {
            RelicSlot::Head => "head",
            RelicSlot::Hands => "hand",
            RelicSlot::Body => "body",
            RelicSlot::Feet => "feet",
            RelicSlot::PlanarSphere => "sphere",
            RelicSlot::LinkRope => "rope",
        };
        t.to_owned()
    }
}

/// The sub-stats that are present, in their order on the panel.
pub open spec fn present_stats(x: InternalRelic) -> Seq<RelicStat> {
    let s1 = match x.sub_stat_1 { Some(s) => seq![s], None => Seq::empty() };
    let s2 = match x.sub_stat_2 { Some(s) => seq![s], None => Seq::empty() };
    let s3 = match x.sub_stat_3 { Some(s) => seq![s], None => Seq::empty() };
    let s4 = match x.sub_stat_4 { Some(s) => seq![s], None => Seq::empty() };
    s1 + s2 + s3 + s4
}

impl InternalRelic {
    /// The sub-stats that are present, in their order on the panel.
    pub fn sub_stats(&self) -> (r: Vec<RelicStat>)
        ensures
            r@ == present_stats(*self),
    {
        let mut r: Vec<RelicStat> = Vec::new();
        if let Some(s) = self.sub_stat_1 {
            r.push(s);
        }
        if let Some(s) = self.sub_stat_2 {
            r.push(s);
        }
        if let Some(s) = self.sub_stat_3 {
            r.push(s);
        }
        if let Some(s) = self.sub_stat_4 {
            r.push(s);
        }
        assert(r@ =~= present_stats(*self));
        r
    }
}

} // verus!
