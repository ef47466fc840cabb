//! The catalog of relic display names: each Chinese display name resolves
//! to the set it belongs to and the slot it is worn in.

use vstd::prelude::*;
use crate::relic::{RelicSetName, RelicSlot};
use crate::text::same_text;

verus! {

/// The set and slot of the relic with a given display name.
pub open spec fn relic_identity(name: Seq<char>) -> Option<(RelicSetName, RelicSlot)> {
    if name == "过客的逢春木簪"@ {
        Some((RelicSetName::PasserbyofWanderingCloud, RelicSlot::Head))
    } else if name == "过客的游龙臂鞲"@ {
        Some((RelicSetName::PasserbyofWanderingCloud, RelicSlot::Hands))
    } else if name == "过客的残绣风衣"@ {
        Some((RelicSetName::PasserbyofWanderingCloud, RelicSlot::Body))
    } else if name == "过客的冥途游履"@ {
        Some((RelicSetName::PasserbyofWanderingCloud, RelicSlot::Feet))
    } else if name == "快枪手的野穗毡帽"@ {
        Some((RelicSetName::MusketeerofWildWheat, RelicSlot::Head))
    } else if name == "快枪手的粗革手套"@ {
        Some((RelicSetName::MusketeerofWildWheat, RelicSlot::Hands))
    } else if name == "快枪手的猎风披肩"@ {
        Some((RelicSetName::MusketeerofWildWheat, RelicSlot::Body))
    } else if name == "快枪手的铆钉马靴"@ {
        Some((RelicSetName::MusketeerofWildWheat, RelicSlot::Feet))
    } else if name == "圣骑的宽恕盔面"@ {
        Some((RelicSetName::KnightofPurityPalace, RelicSlot::Head))
    } else if name == "圣骑的沉默誓环"@ {
        Some((RelicSetName::KnightofPurityPalace, RelicSlot::Hands))
    } else if name == "圣骑的肃穆胸甲"@ {
        Some((RelicSetName::KnightofPurityPalace, RelicSlot::Body))
    } else if name == "圣骑的秩序铁靴"@ {
        Some((RelicSetName::KnightofPurityPalace, RelicSlot::Feet))
    } else if name == "雪猎的荒神兜帽"@ {
        Some((RelicSetName::HunterofGlacialForest, RelicSlot::Head))
    } else if name == "雪猎的巨蜥手套"@ {
        Some((RelicSetName::HunterofGlacialForest, RelicSlot::Hands))
    } else if name == "雪猎的冰龙披风"@ {
        Some((RelicSetName::HunterofGlacialForest, RelicSlot::Body))
    } else if name == "雪猎的鹿皮软靴"@ {
        Some((RelicSetName::HunterofGlacialForest, RelicSlot::Feet))
    } else if name == "拳王的冠军护头"@ {
        Some((RelicSetName::ChampionofStreetwiseBoxing, RelicSlot::Head))
    } else if name == "拳王的重炮拳套"@ {
        Some((RelicSetName::ChampionofStreetwiseBoxing, RelicSlot::Hands))
    } else if name == "拳王的贴身护胸"@ {
        Some((RelicSetName::ChampionofStreetwiseBoxing, RelicSlot::Body))
    } else if name == "拳王的弧步战靴"@ {
        Some((RelicSetName::ChampionofStreetwiseBoxing, RelicSlot::Feet))
    } else if name == "铁卫的铸铁面盔"@ {
        Some((RelicSetName::GuardofWutheringSnow, RelicSlot::Head))
    } else if name == "铁卫的银鳞手甲"@ {
        Some((RelicSetName::GuardofWutheringSnow, RelicSlot::Hands))
    } else if name == "铁卫的旧制军服"@ {
        Some((RelicSetName::GuardofWutheringSnow, RelicSlot::Body))
    } else if name == "铁卫的白银护胫"@ {
        Some((RelicSetName::GuardofWutheringSnow, RelicSlot::Feet))
    } else if name == "火匠的黑曜目镜"@ {
        Some((RelicSetName::FiresmithofLavaForging, RelicSlot::Head))
    } else if name == "火匠的御火戒指"@ {
        Some((RelicSetName::FiresmithofLavaForging, RelicSlot::Hands))
    } else if name == "火匠的阻燃围裙"@ {
        Some((RelicSetName::FiresmithofLavaForging, RelicSlot::Body))
    } else if name == "火匠的合金义肢"@ {
        Some((RelicSetName::FiresmithofLavaForging, RelicSlot::Feet))
    } else if name == "天才的超距遥感"@ {
        Some((RelicSetName::GeniusofBrilliantStars, RelicSlot::Head))
    } else if name == "天才的频变捕手"@ {
        Some((RelicSetName::GeniusofBrilliantStars, RelicSlot::Hands))
    } else if name == "天才的元域深潜"@ {
        Some((RelicSetName::GeniusofBrilliantStars, RelicSlot::Body))
    } else if name == "天才的引力漫步"@ {
        Some((RelicSetName::GeniusofBrilliantStars, RelicSlot::Feet))
    } else if name == "乐队的偏光墨镜"@ {
        Some((RelicSetName::BandofSizzlingThunder, RelicSlot::Head))
    } else if name == "乐队的巡演手绳"@ {
        Some((RelicSetName::BandofSizzlingThunder, RelicSlot::Hands))
    } else if name == "乐队的钉刺皮衣"@ {
        Some((RelicSetName::BandofSizzlingThunder, RelicSlot::Body))
    } else if name == "乐队的铆钉短靴"@ {
        Some((RelicSetName::BandofSizzlingThunder, RelicSlot::Feet))
    } else if name == "翔鹰的长喙头盔"@ {
        Some((RelicSetName::EagleofTwilightLine, RelicSlot::Head))
    } else if name == "翔鹰的鹰击指环"@ {
        Some((RelicSetName::EagleofTwilightLine, RelicSlot::Hands))
    } else if name == "翔鹰的翼装束带"@ {
        Some((RelicSetName::EagleofTwilightLine, RelicSlot::Body))
    } else if name == "翔鹰的绒羽绑带"@ {
        Some((RelicSetName::EagleofTwilightLine, RelicSlot::Feet))
    } else if name == "怪盗的千人假面"@ {
        Some((RelicSetName::ThiefofShootingMeteor, RelicSlot::Head))
    } else if name == "怪盗的绘纹手套"@ {
        Some((RelicSetName::ThiefofShootingMeteor, RelicSlot::Hands))
    } else if name == "怪盗的纤钢爪钩"@ {
        Some((RelicSetName::ThiefofShootingMeteor, RelicSlot::Body))
    } else if name == "怪盗的流星快靴"@ {
        Some((RelicSetName::ThiefofShootingMeteor, RelicSlot::Feet))
    } else if name == "废土客的呼吸面罩"@ {
        Some((RelicSetName::WastelanderofBanditryDesert, RelicSlot::Head))
    } else if name == "废土客的荒漠终端"@ {
        Some((RelicSetName::WastelanderofBanditryDesert, RelicSlot::Hands))
    } else if name == "废土客的修士长袍"@ {
        Some((RelicSetName::WastelanderofBanditryDesert, RelicSlot::Body))
    } else if name == "废土客的动力腿甲"@ {
        Some((RelicSetName::WastelanderofBanditryDesert, RelicSlot::Feet))
    } else if name == "莳者的复明义眼"@ {
        Some((RelicSetName::LongevousDisciple, RelicSlot::Head))
    } else if name == "莳者的机巧木手"@ {
        Some((RelicSetName::LongevousDisciple, RelicSlot::Hands))
    } else if name == "莳者的承露羽衣"@ {
        Some((RelicSetName::LongevousDisciple, RelicSlot::Body))
    } else if name == "莳者的天人丝履"@ {
        Some((RelicSetName::LongevousDisciple, RelicSlot::Feet))
    } else if name == "信使的全息目镜"@ {
        Some((RelicSetName::MessengerTraversingHackerspace, RelicSlot::Head))
    } else if name == "信使的百变义手"@ {
        Some((RelicSetName::MessengerTraversingHackerspace, RelicSlot::Hands))
    } else if name == "信使的密信挎包"@ {
        Some((RelicSetName::MessengerTraversingHackerspace, RelicSlot::Body))
    } else if name == "信使的酷跑板鞋"@ {
        Some((RelicSetName::MessengerTraversingHackerspace, RelicSlot::Feet))
    } else if name == "大公的冥焰冠冕"@ {
        Some((RelicSetName::TheAshblazingGrandDuke, RelicSlot::Head))
    } else if name == "大公的绒火指套"@ {
        Some((RelicSetName::TheAshblazingGrandDuke, RelicSlot::Hands))
    } else if name == "大公的蒙恩长袍"@ {
        Some((RelicSetName::TheAshblazingGrandDuke, RelicSlot::Body))
    } else if name == "大公的绅雅礼靴"@ {
        Some((RelicSetName::TheAshblazingGrandDuke, RelicSlot::Feet))
    } else if name == "系囚的合啮拘笼"@ {
        Some((RelicSetName::PrisonerinDeepConfinement, RelicSlot::Head))
    } else if name == "系囚的铅石梏铐"@ {
        Some((RelicSetName::PrisonerinDeepConfinement, RelicSlot::Hands))
    } else if name == "系囚的幽闭缚束"@ {
        Some((RelicSetName::PrisonerinDeepConfinement, RelicSlot::Body))
    } else if name == "系囚的绝足锁桎"@ {
        Some((RelicSetName::PrisonerinDeepConfinement, RelicSlot::Feet))
    } else if name == "先驱的绝热围壳"@ {
        Some((RelicSetName::PioneerDiverofDeadWaters, RelicSlot::Head))
    } else if name == "先驱的虚极罗盘"@ {
        Some((RelicSetName::PioneerDiverofDeadWaters, RelicSlot::Hands))
    } else if name == "先驱的密合铅衣"@ {
        Some((RelicSetName::PioneerDiverofDeadWaters, RelicSlot::Body))
    } else if name == "先驱的泊星桩锚"@ {
        Some((RelicSetName::PioneerDiverofDeadWaters, RelicSlot::Feet))
    } else if name == "钟表匠的极目透镜"@ {
        Some((RelicSetName::WatchmakerMasterofDreamMachinations, RelicSlot::Head))
    } else if name == "钟表匠的交运腕表"@ {
        Some((RelicSetName::WatchmakerMasterofDreamMachinations, RelicSlot::Hands))
    } else if name == "钟表匠的空幻礼服"@ {
        Some((RelicSetName::WatchmakerMasterofDreamMachinations, RelicSlot::Body))
    } else if name == "钟表匠的隐梦革履"@ {
        Some((RelicSetName::WatchmakerMasterofDreamMachinations, RelicSlot::Feet))
    } else if name == "铁骑的索敌战盔"@ {
        Some((RelicSetName::IronCavalryAgainsttheScourge, RelicSlot::Head))
    } else if name == "铁骑的摧坚铁腕"@ {
        Some((RelicSetName::IronCavalryAgainsttheScourge, RelicSlot::Hands))
    } else if name == "铁骑的银影装甲"@ {
        Some((RelicSetName::IronCavalryAgainsttheScourge, RelicSlot::Body))
    } else if name == "铁骑的行空护胫"@ {
        Some((RelicSetName::IronCavalryAgainsttheScourge, RelicSlot::Feet))
    } else if name == "勇烈的玄枵面甲"@ {
        Some((RelicSetName::TheWindSoaringValorous, RelicSlot::Head))
    } else if name == "勇烈的钩爪腕甲"@ {
        Some((RelicSetName::TheWindSoaringValorous, RelicSlot::Hands))
    } else if name == "勇烈的飞翎瓷甲"@ {
        Some((RelicSetName::TheWindSoaringValorous, RelicSlot::Body))
    } else if name == "勇烈的逐猎腿甲"@ {
        Some((RelicSetName::TheWindSoaringValorous, RelicSlot::Feet))
    } else if name == "「黑塔」的空间站点"@ {
        Some((RelicSetName::SpaceSealingStation, RelicSlot::PlanarSphere))
    } else if name == "「黑塔」的漫历轨迹"@ {
        Some((RelicSetName::SpaceSealingStation, RelicSlot::LinkRope))
    } else if name == "罗浮仙舟的天外楼船"@ {
        Some((RelicSetName::FleetoftheAgeless, RelicSlot::PlanarSphere))
    } else if name == "罗浮仙舟的建木枝蔓"@ {
        Some((RelicSetName::FleetoftheAgeless, RelicSlot::LinkRope))
    } else if name == "公司的巨构总部"@ {
        Some((RelicSetName::PanCosmicCommercialEnterprise, RelicSlot::PlanarSphere))
    } else if name == "公司的贸易航道"@ {
        Some((RelicSetName::PanCosmicCommercialEnterprise, RelicSlot::LinkRope))
    } else if name == "贝洛伯格的存护堡垒"@ {
        Some((RelicSetName::BelobogoftheArchitects, RelicSlot::PlanarSphere))
    } else if name == "贝洛伯格的铁卫防线"@ {
        Some((RelicSetName::BelobogoftheArchitects, RelicSlot::LinkRope))
    } else if name == "螺丝星的机械烈阳"@ {
        Some((RelicSetName::CelestialDifferentiator, RelicSlot::PlanarSphere))
    } else if name == "螺丝星的环星孔带"@ {
        Some((RelicSetName::CelestialDifferentiator, RelicSlot::LinkRope))
    } else if name == "萨尔索图的移动城市"@ {
        Some((RelicSetName::InertSalsotto, RelicSlot::PlanarSphere))
    } else if name == "萨尔索图的晨昏界线"@ {
        Some((RelicSetName::InertSalsotto, RelicSlot::LinkRope))
    } else if name == "塔利亚的钉壳小镇"@ {
        Some((RelicSetName::TaliaKingdomofBanditry, RelicSlot::PlanarSphere))
    } else if name == "塔利亚的裸皮电线"@ {
        Some((RelicSetName::TaliaKingdomofBanditry, RelicSlot::LinkRope))
    } else if name == "翁瓦克的诞生之岛"@ {
        Some((RelicSetName::SprightlyVonwacq, RelicSlot::PlanarSphere))
    } else if name == "翁瓦克的环岛海岸"@ {
        Some((RelicSetName::SprightlyVonwacq, RelicSlot::LinkRope))
    } else if name == "泰科铵的镭射球场"@ {
        Some((RelicSetName::RutilantArena, RelicSlot::PlanarSphere))
    } else if name == "泰科铵的弧光赛道"@ {
        Some((RelicSetName::RutilantArena, RelicSlot::LinkRope))
    } else if name == "伊须磨洲的残船鲸落"@ {
        Some((RelicSetName::BrokenKeel, RelicSlot::PlanarSphere))
    } else if name == "伊须磨洲的坼裂缆索"@ {
        Some((RelicSetName::BrokenKeel, RelicSlot::LinkRope))
    } else if name == "格拉默的铁骑兵团"@ {
        Some((RelicSetName::FirmamentFrontlineGlamoth, RelicSlot::PlanarSphere))
    } else if name == "格拉默的寂静坟碑"@ {
        Some((RelicSetName::FirmamentFrontlineGlamoth, RelicSlot::LinkRope))
    } else if name == "匹诺康尼的堂皇饭店"@ {
        Some((RelicSetName::PenaconyLandoftheDreams, RelicSlot::PlanarSphere))
    } else if name == "匹诺康尼的逐梦轨道"@ {
        Some((RelicSetName::PenaconyLandoftheDreams, RelicSlot::LinkRope))
    } else if name == "都蓝的器兽缰辔"@ {
        Some((RelicSetName::DuranDynastyofRunningWolves, RelicSlot::PlanarSphere))
    } else if name == "都蓝的穹窿金帐"@ {
        Some((RelicSetName::DuranDynastyofRunningWolves, RelicSlot::LinkRope))
    } else if name == "铸炼宫的焰轮天绸"@ {
        Some((RelicSetName::ForgeoftheKalpagniLantern, RelicSlot::PlanarSphere))
    } else if name == "铸炼宫的莲华灯芯"@ {
        Some((RelicSetName::ForgeoftheKalpagniLantern, RelicSlot::LinkRope))
    } else {
        None
    }
}

/// Looks a display name up in the catalog; exact match only.
pub fn resolve_identity(name: &str) -> (r: Option<(RelicSetName, RelicSlot)>)
    ensures
        r == relic_identity(name@),
{
    if same_text(name, "过客的逢春木簪") {
        Some((RelicSetName::PasserbyofWanderingCloud, RelicSlot::Head))
    } else if same_text(name, "过客的游龙臂鞲") {
        Some((RelicSetName::PasserbyofWanderingCloud, RelicSlot::Hands))
    } else if same_text(name, "过客的残绣风衣") {
        Some((RelicSetName::PasserbyofWanderingCloud, RelicSlot::Body))
    } else if same_text(name, "过客的冥途游履") {
        Some((RelicSetName::PasserbyofWanderingCloud, RelicSlot::Feet))
    } else if same_text(name, "快枪手的野穗毡帽") {
        Some((RelicSetName::MusketeerofWildWheat, RelicSlot::Head))
    } else if same_text(name, "快枪手的粗革手套") {
        Some((RelicSetName::MusketeerofWildWheat, RelicSlot::Hands))
    } else if same_text(name, "快枪手的猎风披肩") {
        Some((RelicSetName::MusketeerofWildWheat, RelicSlot::Body))
    } else if same_text(name, "快枪手的铆钉马靴") {
        Some((RelicSetName::MusketeerofWildWheat, RelicSlot::Feet))
    } else if same_text(name, "圣骑的宽恕盔面") {
        Some((RelicSetName::KnightofPurityPalace, RelicSlot::Head))
    } else if same_text(name, "圣骑的沉默誓环") {
        Some((RelicSetName::KnightofPurityPalace, RelicSlot::Hands))
    } else if same_text(name, "圣骑的肃穆胸甲") {
        Some((RelicSetName::KnightofPurityPalace, RelicSlot::Body))
    } else if same_text(name, "圣骑的秩序铁靴") {
        Some((RelicSetName::KnightofPurityPalace, RelicSlot::Feet))
    } else if same_text(name, "雪猎的荒神兜帽") {
        Some((RelicSetName::HunterofGlacialForest, RelicSlot::Head))
    } else if same_text(name, "雪猎的巨蜥手套") {
        Some((RelicSetName::HunterofGlacialForest, RelicSlot::Hands))
    } else if same_text(name, "雪猎的冰龙披风") {
        Some((RelicSetName::HunterofGlacialForest, RelicSlot::Body))
    } else if same_text(name, "雪猎的鹿皮软靴") {
        Some((RelicSetName::HunterofGlacialForest, RelicSlot::Feet))
    } else if same_text(name, "拳王的冠军护头") {
        Some((RelicSetName::ChampionofStreetwiseBoxing, RelicSlot::Head))
    } else if same_text(name, "拳王的重炮拳套") {
        Some((RelicSetName::ChampionofStreetwiseBoxing, RelicSlot::Hands))
    } else if same_text(name, "拳王的贴身护胸") {
        Some((RelicSetName::ChampionofStreetwiseBoxing, RelicSlot::Body))
    } else if same_text(name, "拳王的弧步战靴") {
        Some((RelicSetName::ChampionofStreetwiseBoxing, RelicSlot::Feet))
    } else if same_text(name, "铁卫的铸铁面盔") {
        Some((RelicSetName::GuardofWutheringSnow, RelicSlot::Head))
    } else if same_text(name, "铁卫的银鳞手甲") {
        Some((RelicSetName::GuardofWutheringSnow, RelicSlot::Hands))
    } else if same_text(name, "铁卫的旧制军服") {
        Some((RelicSetName::GuardofWutheringSnow, RelicSlot::Body))
    } else if same_text(name, "铁卫的白银护胫") {
        Some((RelicSetName::GuardofWutheringSnow, RelicSlot::Feet))
    } else if same_text(name, "火匠的黑曜目镜") {
        Some((RelicSetName::FiresmithofLavaForging, RelicSlot::Head))
    } else if same_text(name, "火匠的御火戒指") {
        Some((RelicSetName::FiresmithofLavaForging, RelicSlot::Hands))
    } else if same_text(name, "火匠的阻燃围裙") {
        Some((RelicSetName::FiresmithofLavaForging, RelicSlot::Body))
    } else if same_text(name, "火匠的合金义肢") {
        Some((RelicSetName::FiresmithofLavaForging, RelicSlot::Feet))
    } else if same_text(name, "天才的超距遥感") {
        Some((RelicSetName::GeniusofBrilliantStars, RelicSlot::Head))
    } else if same_text(name, "天才的频变捕手") {
        Some((RelicSetName::GeniusofBrilliantStars, RelicSlot::Hands))
    } else if same_text(name, "天才的元域深潜") {
        Some((RelicSetName::GeniusofBrilliantStars, RelicSlot::Body))
    } else if same_text(name, "天才的引力漫步") {
        Some((RelicSetName::GeniusofBrilliantStars, RelicSlot::Feet))
    } else if same_text(name, "乐队的偏光墨镜") {
        Some((RelicSetName::BandofSizzlingThunder, RelicSlot::Head))
    } else if same_text(name, "乐队的巡演手绳") {
        Some((RelicSetName::BandofSizzlingThunder, RelicSlot::Hands))
    } else if same_text(name, "乐队的钉刺皮衣") {
        Some((RelicSetName::BandofSizzlingThunder, RelicSlot::Body))
    } else if same_text(name, "乐队的铆钉短靴") {
        Some((RelicSetName::BandofSizzlingThunder, RelicSlot::Feet))
    } else if same_text(name, "翔鹰的长喙头盔") {
        Some((RelicSetName::EagleofTwilightLine, RelicSlot::Head))
    } else if same_text(name, "翔鹰的鹰击指环") {
        Some((RelicSetName::EagleofTwilightLine, RelicSlot::Hands))
    } else if same_text(name, "翔鹰的翼装束带") {
        Some((RelicSetName::EagleofTwilightLine, RelicSlot::Body))
    } else if same_text(name, "翔鹰的绒羽绑带") {
        Some((RelicSetName::EagleofTwilightLine, RelicSlot::Feet))
    } else if same_text(name, "怪盗的千人假面") {
        Some((RelicSetName::ThiefofShootingMeteor, RelicSlot::Head))
    } else if same_text(name, "怪盗的绘纹手套") {
        Some((RelicSetName::ThiefofShootingMeteor, RelicSlot::Hands))
    } else if same_text(name, "怪盗的纤钢爪钩") {
        Some((RelicSetName::ThiefofShootingMeteor, RelicSlot::Body))
    } else if same_text(name, "怪盗的流星快靴") {
        Some((RelicSetName::ThiefofShootingMeteor, RelicSlot::Feet))
    } else if same_text(name, "废土客的呼吸面罩") {
        Some((RelicSetName::WastelanderofBanditryDesert, RelicSlot::Head))
    } else if same_text(name, "废土客的荒漠终端") {
        Some((RelicSetName::WastelanderofBanditryDesert, RelicSlot::Hands))
    } else if same_text(name, "废土客的修士长袍") {
        Some((RelicSetName::WastelanderofBanditryDesert, RelicSlot::Body))
    } else if same_text(name, "废土客的动力腿甲") {
        Some((RelicSetName::WastelanderofBanditryDesert, RelicSlot::Feet))
    } else if same_text(name, "莳者的复明义眼") {
        Some((RelicSetName::LongevousDisciple, RelicSlot::Head))
    } else if same_text(name, "莳者的机巧木手") {
        Some((RelicSetName::LongevousDisciple, RelicSlot::Hands))
    } else if same_text(name, "莳者的承露羽衣") {
        Some((RelicSetName::LongevousDisciple, RelicSlot::Body))
    } else if same_text(name, "莳者的天人丝履") {
        Some((RelicSetName::LongevousDisciple, RelicSlot::Feet))
    } else if same_text(name, "信使的全息目镜") {
        Some((RelicSetName::MessengerTraversingHackerspace, RelicSlot::Head))
    } else if same_text(name, "信使的百变义手") {
        Some((RelicSetName::MessengerTraversingHackerspace, RelicSlot::Hands))
    } else if same_text(name, "信使的密信挎包") {
        Some((RelicSetName::MessengerTraversingHackerspace, RelicSlot::Body))
    } else if same_text(name, "信使的酷跑板鞋") {
        Some((RelicSetName::MessengerTraversingHackerspace, RelicSlot::Feet))
    } else if same_text(name, "大公的冥焰冠冕") {
        Some((RelicSetName::TheAshblazingGrandDuke, RelicSlot::Head))
    } else if same_text(name, "大公的绒火指套") {
        Some((RelicSetName::TheAshblazingGrandDuke, RelicSlot::Hands))
    } else if same_text(name, "大公的蒙恩长袍") {
        Some((RelicSetName::TheAshblazingGrandDuke, RelicSlot::Body))
    } else if same_text(name, "大公的绅雅礼靴") {
        Some((RelicSetName::TheAshblazingGrandDuke, RelicSlot::Feet))
    } else if same_text(name, "系囚的合啮拘笼") {
        Some((RelicSetName::PrisonerinDeepConfinement, RelicSlot::Head))
    } else if same_text(name, "系囚的铅石梏铐") {
        Some((RelicSetName::PrisonerinDeepConfinement, RelicSlot::Hands))
    } else if same_text(name, "系囚的幽闭缚束") {
        Some((RelicSetName::PrisonerinDeepConfinement, RelicSlot::Body))
    } else if same_text(name, "系囚的绝足锁桎") {
        Some((RelicSetName::PrisonerinDeepConfinement, RelicSlot::Feet))
    } else if same_text(name, "先驱的绝热围壳") {
        Some((RelicSetName::PioneerDiverofDeadWaters, RelicSlot::Head))
    } else if same_text(name, "先驱的虚极罗盘") {
        Some((RelicSetName::PioneerDiverofDeadWaters, RelicSlot::Hands))
    } else if same_text(name, "先驱的密合铅衣") {
        Some((RelicSetName::PioneerDiverofDeadWaters, RelicSlot::Body))
    } else if same_text(name, "先驱的泊星桩锚") {
        Some((RelicSetName::PioneerDiverofDeadWaters, RelicSlot::Feet))
    } else if same_text(name, "钟表匠的极目透镜") {
        Some((RelicSetName::WatchmakerMasterofDreamMachinations, RelicSlot::Head))
    } else if same_text(name, "钟表匠的交运腕表") {
        Some((RelicSetName::WatchmakerMasterofDreamMachinations, RelicSlot::Hands))
    } else if same_text(name, "钟表匠的空幻礼服") {
        Some((RelicSetName::WatchmakerMasterofDreamMachinations, RelicSlot::Body))
    } else if same_text(name, "钟表匠的隐梦革履") {
        Some((RelicSetName::WatchmakerMasterofDreamMachinations, RelicSlot::Feet))
    } else if same_text(name, "铁骑的索敌战盔") {
        Some((RelicSetName::IronCavalryAgainsttheScourge, RelicSlot::Head))
    } else if same_text(name, "铁骑的摧坚铁腕") {
        Some((RelicSetName::IronCavalryAgainsttheScourge, RelicSlot::Hands))
    } else if same_text(name, "铁骑的银影装甲") {
        Some((RelicSetName::IronCavalryAgainsttheScourge, RelicSlot::Body))
    } else if same_text(name, "铁骑的行空护胫") {
        Some((RelicSetName::IronCavalryAgainsttheScourge, RelicSlot::Feet))
    } else if same_text(name, "勇烈的玄枵面甲") {
        Some((RelicSetName::TheWindSoaringValorous, RelicSlot::Head))
    } else if same_text(name, "勇烈的钩爪腕甲") {
        Some((RelicSetName::TheWindSoaringValorous, RelicSlot::Hands))
    } else if same_text(name, "勇烈的飞翎瓷甲") {
        Some((RelicSetName::TheWindSoaringValorous, RelicSlot::Body))
    } else if same_text(name, "勇烈的逐猎腿甲") {
        Some((RelicSetName::TheWindSoaringValorous, RelicSlot::Feet))
    } else if same_text(name, "「黑塔」的空间站点") {
        Some((RelicSetName::SpaceSealingStation, RelicSlot::PlanarSphere))
    } else if same_text(name, "「黑塔」的漫历轨迹") {
        Some((RelicSetName::SpaceSealingStation, RelicSlot::LinkRope))
    } else if same_text(name, "罗浮仙舟的天外楼船") {
        Some((RelicSetName::FleetoftheAgeless, RelicSlot::PlanarSphere))
    } else if same_text(name, "罗浮仙舟的建木枝蔓") {
        Some((RelicSetName::FleetoftheAgeless, RelicSlot::LinkRope))
    } else if same_text(name, "公司的巨构总部") {
        Some((RelicSetName::PanCosmicCommercialEnterprise, RelicSlot::PlanarSphere))
    } else if same_text(name, "公司的贸易航道") {
        Some((RelicSetName::PanCosmicCommercialEnterprise, RelicSlot::LinkRope))
    } else if same_text(name, "贝洛伯格的存护堡垒") {
        Some((RelicSetName::BelobogoftheArchitects, RelicSlot::PlanarSphere))
    } else if same_text(name, "贝洛伯格的铁卫防线") {
        Some((RelicSetName::BelobogoftheArchitects, RelicSlot::LinkRope))
    } else if same_text(name, "螺丝星的机械烈阳") {
        Some((RelicSetName::CelestialDifferentiator, RelicSlot::PlanarSphere))
    } else if same_text(name, "螺丝星的环星孔带") {
        Some((RelicSetName::CelestialDifferentiator, RelicSlot::LinkRope))
    } else if same_text(name, "萨尔索图的移动城市") {
        Some((RelicSetName::InertSalsotto, RelicSlot::PlanarSphere))
    } else if same_text(name, "萨尔索图的晨昏界线") {
        Some((RelicSetName::InertSalsotto, RelicSlot::LinkRope))
    } else if same_text(name, "塔利亚的钉壳小镇") {
        Some((RelicSetName::TaliaKingdomofBanditry, RelicSlot::PlanarSphere))
    } else if same_text(name, "塔利亚的裸皮电线") {
        Some((RelicSetName::TaliaKingdomofBanditry, RelicSlot::LinkRope))
    } else if same_text(name, "翁瓦克的诞生之岛") {
        Some((RelicSetName::SprightlyVonwacq, RelicSlot::PlanarSphere))
    } else if same_text(name, "翁瓦克的环岛海岸") {
        Some((RelicSetName::SprightlyVonwacq, RelicSlot::LinkRope))
    } else if same_text(name, "泰科铵的镭射球场") {
        Some((RelicSetName::RutilantArena, RelicSlot::PlanarSphere))
    } else if same_text(name, "泰科铵的弧光赛道") {
        Some((RelicSetName::RutilantArena, RelicSlot::LinkRope))
    } else if same_text(name, "伊须磨洲的残船鲸落") {
        Some((RelicSetName::BrokenKeel, RelicSlot::PlanarSphere))
    } else if same_text(name, "伊须磨洲的坼裂缆索") {
        Some((RelicSetName::BrokenKeel, RelicSlot::LinkRope))
    } else if same_text(name, "格拉默的铁骑兵团") {
        Some((RelicSetName::FirmamentFrontlineGlamoth, RelicSlot::PlanarSphere))
    } else if same_text(name, "格拉默的寂静坟碑") {
        Some((RelicSetName::FirmamentFrontlineGlamoth, RelicSlot::LinkRope))
    } else if same_text(name, "匹诺康尼的堂皇饭店") {
        Some((RelicSetName::PenaconyLandoftheDreams, RelicSlot::PlanarSphere))
    } else if same_text(name, "匹诺康尼的逐梦轨道") {
        Some((RelicSetName::PenaconyLandoftheDreams, RelicSlot::LinkRope))
    } else if same_text(name, "都蓝的器兽缰辔") {
        Some((RelicSetName::DuranDynastyofRunningWolves, RelicSlot::PlanarSphere))
    } else if same_text(name, "都蓝的穹窿金帐") {
        Some((RelicSetName::DuranDynastyofRunningWolves, RelicSlot::LinkRope))
    } else if same_text(name, "铸炼宫的焰轮天绸") {
        Some((RelicSetName::ForgeoftheKalpagniLantern, RelicSlot::PlanarSphere))
    } else if same_text(name, "铸炼宫的莲华灯芯") {
        Some((RelicSetName::ForgeoftheKalpagniLantern, RelicSlot::LinkRope))
    } else {
        None
    }
}

impl RelicSetName {
    /// The set of the relic with this display name.
    pub fn from_zh_cn(s: &str) -> (r: Option<RelicSetName>)
        ensures
            r == (match relic_identity(s@) {
                Some(p) => Some(p.0),
                None => None,
            }),
    {
        match resolve_identity(s) {
            Some(p) => Some(p.0),
            None => None,
        }
    }
}

impl RelicSlot {
    /// The slot of the relic with this display name.
    pub fn from_zh_cn(s: &str) -> (r: Option<RelicSlot>)
        ensures
            r == (match relic_identity(s@) {
                Some(p) => Some(p.1),
                None => None,
            }),
    {
        match resolve_identity(s) {
            Some(p) => Some(p.1),
            None => None,
        }
    }
}

} // verus!
