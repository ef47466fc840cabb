//! Assembly of one recognised relic panel into a validated relic record.

use vstd::prelude::*;
use vstd::string::StrSliceExecFns;
use vstd::string::StringExecFns;
use crate::catalog::{relic_identity, resolve_identity};
use crate::decimal::{parse_unsigned, unsigned_of};
use crate::relic::{stat_of, RelicSetName, RelicSlot, RelicStat};
use crate::text::{chars_of, contains_text, has_text, same_text};

verus! {

broadcast use vstd::string::group_string_axioms;

/// The raw text fields recognised on one relic panel.
#[derive(Clone, Debug)]
pub struct YasScanResult {
    pub name: String,
    pub main_stat_name: String,
    pub main_stat_value: String,
    pub sub_stat_1: String,
    pub sub_stat_2: String,
    pub sub_stat_3: String,
    pub sub_stat_4: String,
    pub level: String,
    pub location: String,
    pub rarity: u32,
    pub lock: bool,
}

/// A validated relic.
#[derive(Clone, Debug, Hash, PartialEq, Eq)]
pub struct InternalRelic {
    pub set_name: RelicSetName,
    pub slot: RelicSlot,
    pub star: u32,
    pub level: u32,
    pub lock: bool,
    pub main_stat: RelicStat,
    pub sub_stat_1: Option<RelicStat>,
    pub sub_stat_2: Option<RelicStat>,
    pub sub_stat_3: Option<RelicStat>,
    pub sub_stat_4: Option<RelicStat>,
    pub equip: Option<String>,
}

/// The characters of an optional text.
pub open spec fn text_view(o: Option<String>) -> Option<Seq<char>> {
    match o {
        Some(s) => Some(s@),
        None => None,
    }
}

/// The key of the first owner entry whose display name is `name`.
pub open spec fn owner_in(owners: Seq<(String, String)>, name: Seq<char>) -> Option<Seq<char>>
    decreases owners.len(),
{
    if owners.len() == 0 {
        None
    } else if owners[0].0@ == name {
        Some(owners[0].1@)
    } else {
        owner_in(owners.drop_first(), name)
    }
}

/// The owner of an equipped relic: the location text names it followed by
/// a three-character "equipped" mark.
pub open spec fn equip_of(location: Seq<char>, owners: Seq<(String, String)>) -> Option<Seq<char>> {
    if contains_text(location, "已装备"@) {
        owner_in(owners, location.subrange(0, location.len() - 3))
    } else {
        None
    }
}

/// The level a level text gives: it must start with the `+` marker, which
/// is dropped before the rest is read as an unsigned integer.
pub open spec fn level_of(level: Seq<char>) -> Option<u32> {
    if level.len() > 0 && level[0] == '+' {
        unsigned_of(level.drop_first())
    } else {
        None
    }
}

/// The text a main stat is parsed from: its name, `+`, its value.
pub open spec fn main_stat_text(r: YasScanResult) -> Seq<char> {
    r.main_stat_name@ + seq!['+'] + r.main_stat_value@
}

impl YasScanResult {
    /// The record names a known relic, carries a level marker and level,
    /// and has a main stat that parses.
    pub open spec fn assembles(self) -> bool {
        &&& relic_identity(self.name@) is Some
        &&& level_of(self.level@) is Some
        &&& stat_of(main_stat_text(self)) is Some
    }

    /// `x` is the relic this record describes, given the owner catalog.
    pub open spec fn assembled_as(self, x: InternalRelic, owners: Seq<(String, String)>) -> bool {
        &&& relic_identity(self.name@) == Some((x.set_name, x.slot))
        &&& x.star == self.rarity
        &&& level_of(self.level@) == Some(x.level)
        &&& x.lock == self.lock
        &&& stat_of(main_stat_text(self)) == Some(x.main_stat)
        &&& x.sub_stat_1 == stat_of(self.sub_stat_1@)
        &&& x.sub_stat_2 == stat_of(self.sub_stat_2@)
        &&& x.sub_stat_3 == stat_of(self.sub_stat_3@)
        &&& x.sub_stat_4 == stat_of(self.sub_stat_4@)
        &&& text_view(x.equip) == equip_of(self.location@, owners)
    }
}

/// Finds the key of the owner with display name `name`.
pub fn lookup_owner(owners: &Vec<(String, String)>, name: &str) -> (r: Option<String>)
    ensures
        text_view(r) == owner_in(owners@, name@),
{
    let n = owners.len();
    let mut i: usize = 0;
    assert(owners@.subrange(0, n as int) =~= owners@);
    while i < n
        invariant
            n == owners@.len(),
            i <= n,
            owner_in(owners@, name@) == owner_in(owners@.subrange(i as int, n as int), name@),
        decreases n - i,
    {
        let ghost rest = owners@.subrange(i as int, n as int);
        assert(rest.drop_first() =~= owners@.subrange(i + 1, n as int));
        if same_text(owners[i].0.as_str(), name) {
            return Some(owners[i].1.clone());
        }
        i = i + 1;
    }
    None
}

/// Reads the level from a level text such as `+15`.
fn read_level(level: &str) -> (r: Option<u32>)
    ensures
        r == level_of(level@),
{
    let cs = chars_of(level);
    if cs.len() == 0 || cs[0] != '+' {
        return None;
    }
    assert(cs@.subrange(1, cs@.len() as int) =~= level@.drop_first());
    parse_unsigned(&cs, 1)
}

/// Resolves the owner an equipped relic's location text names.
fn read_equip(location: &str, owners: &Vec<(String, String)>) -> (r: Option<String>)
    ensures
        text_view(r) == equip_of(location@, owners@),
{
    if !has_text(location, "已装备") {
        return None;
    }
    proof {
        reveal_strlit("已装备");
    }
    let n = location.unicode_len();
    let owner = location.substring_char(0, n - 3);
    lookup_owner(owners, owner)
}

impl YasScanResult {
    /// Builds the relic this record describes, resolving an equipped relic's
    /// owner against `owners` (display name, key); an owner that cannot be
    /// resolved leaves the relic unequipped.
    pub fn assemble(&self, owners: &Vec<(String, String)>) -> (r: Option<InternalRelic>)
        ensures
            r is Some <==> self.assembles(),
            r matches Some(x) ==> self.assembled_as(x, owners@),
    {
        let (set_name, slot) = match resolve_identity(self.name.as_str()) {
            Some(p) => p,
            None => return None,
        };
        let level = match read_level(self.level.as_str()) {
            Some(v) => v,
            None => return None,
        };
        let main_text = self.main_stat_name.clone().concat("+").concat(self.main_stat_value.as_str());
        proof {
            reveal_strlit("+");
            assert(main_text@ =~= main_stat_text(*self));
        }
        let main_stat = match RelicStat::from_zh_cn_raw(main_text.as_str()) {
            Some(s) => s,
            None => return None,
        };
        let sub_stat_1 = RelicStat::from_zh_cn_raw(self.sub_stat_1.as_str());
        let sub_stat_2 = RelicStat::from_zh_cn_raw(self.sub_stat_2.as_str());
        let sub_stat_3 = RelicStat::from_zh_cn_raw(self.sub_stat_3.as_str());
        let sub_stat_4 = RelicStat::from_zh_cn_raw(self.sub_stat_4.as_str());
        let equip = read_equip(self.location.as_str(), owners);
        Some(
            InternalRelic {
                set_name,
                slot,
                star: self.rarity,
                level,
                lock: self.lock,
                main_stat,
                sub_stat_1,
                sub_stat_2,
                sub_stat_3,
                sub_stat_4,
                equip,
            },
        )
    }

    /// Builds the relic this record describes, with no owner catalog: an
    /// equipped relic is recorded as unequipped.
    pub fn to_internal_relic(&self) -> (r: Option<InternalRelic>)
        ensures
            r is Some <==> self.assembles(),
            r matches Some(x) ==> self.assembled_as(x, Seq::empty()),
    {
        let owners: Vec<(String, String)> = Vec::new();
        self.assemble(&owners)
    }
}

} // verus!
