//! Per-player statistics, as the server's JSON reports them.
//!
//! The persistent statistics file groups counters by category, each
//! category a mapping from identifiers such as `minecraft:jump` to counts.
//! The surrounding binary deserializes the file and hands the counters
//! over as plain pairs; the library holds them in [`StatMap`], a mapping
//! with verified lookup, and extracts the commonly wanted counters.

use vstd::prelude::*;
use vstd::string::StringExecFns;

use crate::text::str_eq;

verus! {

/// The value recorded for `key`: the last entry wins, as repeated inserts
/// into a mapping would leave it.
pub open spec fn stat_lookup(entries: Seq<(Seq<char>, i32)>, key: Seq<char>) -> Option<i32>
    decreases entries.len(),
{
    if entries.len() == 0 {
        None
    } else if entries.last().0 == key {
        Some(entries.last().1)
    } else {
        stat_lookup(entries.drop_last(), key)
    }
}

/// The mapping a list of entries builds up.
pub open spec fn stat_assoc_map(entries: Seq<(Seq<char>, i32)>) -> Map<Seq<char>, i32>
    decreases entries.len(),
{
    if entries.len() == 0 {
        Map::empty()
    } else {
        stat_assoc_map(entries.drop_last()).insert(entries.last().0, entries.last().1)
    }
}

/// Searching the entries from the latest backward agrees with the map
/// they build up.
proof fn lemma_stat_assoc_map_is_lookup(entries: Seq<(Seq<char>, i32)>, key: Seq<char>)
    ensures
        stat_assoc_map(entries).contains_key(key) <==> stat_lookup(entries, key) is Some,
        stat_assoc_map(entries).contains_key(key) ==> stat_lookup(entries, key) == Some(
            stat_assoc_map(entries)[key],
        ),
    decreases entries.len(),
{
    if entries.len() > 0 {
        lemma_stat_assoc_map_is_lookup(entries.drop_last(), key);
    }
}

/// What a lookup in `m` yields.
pub open spec fn stat_opt(m: Map<Seq<char>, i32>, key: Seq<char>) -> Option<i32> {
    if m.contains_key(key) {
        Some(m[key])
    } else {
        None
    }
}

/// One category of counters: statistic identifiers and their counts.
pub struct StatMap {
    entries: Vec<(String, i32)>,
}

impl View for StatMap {
    type V = Map<Seq<char>, i32>;

    closed spec fn view(&self) -> Map<Seq<char>, i32> {
        stat_assoc_map(self.entries.deep_view())
    }
}

impl StatMap {
    /// An empty category.
    pub fn new() -> (m: Self)
        ensures
            m@ == Map::<Seq<char>, i32>::empty(),
    {
        let m = StatMap { entries: Vec::new() };
        proof {
            assert(m.entries.deep_view() =~= Seq::<(Seq<char>, i32)>::empty());
        }
        m
    }

    /// Record a count for an identifier, replacing any earlier one.
    pub fn insert(&mut self, key: &str, count: i32)
        ensures
            final(self)@ == old(self)@.insert(key@, count),
    {
        let ghost old_dv = self.entries.deep_view();
        self.entries.push((key.to_owned(), count));
        proof {
            assert(self.entries.deep_view() =~= old_dv.push((key@, count)));
            assert(self.entries.deep_view().drop_last() =~= old_dv);
        }
    }

    /// The count recorded for an identifier.
    pub fn get(&self, key: &str) -> (r: Option<i32>)
        ensures
            r == stat_opt(self@, key@),
    {
        proof {
            lemma_stat_assoc_map_is_lookup(self.entries.deep_view(), key@);
        }
        let mut i: usize = self.entries.len();
        proof {
            assert(self.entries.deep_view().take(self.entries@.len() as int)
                =~= self.entries.deep_view());
        }
        while i > 0
            invariant
                i <= self.entries@.len(),
                stat_lookup(self.entries.deep_view(), key@) == stat_lookup(
                    self.entries.deep_view().take(i as int),
                    key@,
                ),
            decreases i,
        {
            i = i - 1;
            let hit = str_eq(self.entries[i].0.as_str(), key);
            proof {
                lemma_stat_assoc_map_is_lookup(self.entries.deep_view(), key@);
                let prefix = self.entries.deep_view().take(i + 1);
                assert(prefix.last() == (self.entries@[i as int].0@, self.entries@[i as int].1));
                assert(prefix.drop_last() =~= self.entries.deep_view().take(i as int));
            }
            if hit {
                return Some(self.entries[i].1);
            }
        }
        proof {
            assert(self.entries.deep_view().take(0) =~= Seq::<(Seq<char>, i32)>::empty());
        }
        None
    }

    /// The recorded entries in insertion order; a later entry for a key
    /// supersedes an earlier one, and together they build up exactly the
    /// category's mapping.
    pub fn entries(&self) -> (r: &Vec<(String, i32)>)
        ensures
            stat_assoc_map(r.deep_view()) == self@,
    {
        &self.entries
    }
}

/// The categories of a player's statistics. A category the file omits is
/// absent, not empty.
pub struct StatCategories {
    /// Custom statistics: movement, deaths, time played and more.
    pub custom: StatMap,
    /// Blocks broken or mined.
    pub mined: Option<StatMap>,
    /// Items crafted.
    pub crafted: Option<StatMap>,
    /// Items used.
    pub used: Option<StatMap>,
    /// Items broken: tools, armor and the like.
    pub broken: Option<StatMap>,
    /// Items picked up.
    pub picked_up: Option<StatMap>,
    /// Items dropped.
    pub dropped: Option<StatMap>,
    /// Mobs and players killed.
    pub killed: Option<StatMap>,
    /// Times killed by mobs and players.
    pub killed_by: Option<StatMap>,
    /// Custom entity interactions, such as trading with villagers.
    pub custom_entity: Option<StatMap>,
}

/// A player's statistics, organized by category.
pub struct MinecraftStats {
    /// The counters, by category.
    pub stats: StatCategories,
    /// The data version the file was written with.
    pub data_version: i32,
}

/// A category a caller can ask the bot for.
#[derive(Debug, Clone, Copy, PartialEq, Eq, Structural)]
pub enum GetStatsOption {
    Custom,
    Mined,
    Crafted,
    Used,
    Broken,
    PickedUp,
    Dropped,
    Killed,
    KilledBy,
    CustomEntity,
}

/// The commonly wanted counters of the custom category, as the community
/// wiki lists them; a counter the player has not touched is absent.
pub struct CommonCustomStats {
    pub aviate_one_cm: Option<i32>,
    pub boat_one_cm: Option<i32>,
    pub climb_one_cm: Option<i32>,
    pub crouch_one_cm: Option<i32>,
    pub fall_one_cm: Option<i32>,
    pub fly_one_cm: Option<i32>,
    pub horse_one_cm: Option<i32>,
    pub minecart_one_cm: Option<i32>,
    pub pig_one_cm: Option<i32>,
    pub sprint_one_cm: Option<i32>,
    pub strider_one_cm: Option<i32>,
    pub swim_one_cm: Option<i32>,
    pub walk_on_water_one_cm: Option<i32>,
    pub walk_under_water_one_cm: Option<i32>,
    pub walk_one_cm: Option<i32>,
    pub animals_bred: Option<i32>,
    pub bell_ring: Option<i32>,
    pub eat_cake_slice: Option<i32>,
    pub cauldron_filled: Option<i32>,
    pub cauldron_used: Option<i32>,
    pub chest_opened: Option<i32>,
    pub clean_armor: Option<i32>,
    pub clean_banner: Option<i32>,
    pub clean_shulker_box: Option<i32>,
    pub enchant_item: Option<i32>,
    pub fish_caught: Option<i32>,
    pub inspect_dispenser: Option<i32>,
    pub inspect_dropper: Option<i32>,
    pub inspect_hopper: Option<i32>,
    pub interact_with_anvil: Option<i32>,
    pub interact_with_beacon: Option<i32>,
    pub interact_with_blast_furnace: Option<i32>,
    pub interact_with_brewingstand: Option<i32>,
    pub interact_with_campfire: Option<i32>,
    pub interact_with_cartography_table: Option<i32>,
    pub interact_with_crafting_table: Option<i32>,
    pub interact_with_furnace: Option<i32>,
    pub interact_with_grindstone: Option<i32>,
    pub interact_with_lectern: Option<i32>,
    pub interact_with_loom: Option<i32>,
    pub interact_with_smithing_table: Option<i32>,
    pub interact_with_smoker: Option<i32>,
    pub interact_with_stonecutter: Option<i32>,
    pub open_barrel: Option<i32>,
    pub open_enderchest: Option<i32>,
    pub play_noteblock: Option<i32>,
    pub play_record: Option<i32>,
    pub pot_flower: Option<i32>,
    pub shulker_box_opened: Option<i32>,
    pub sleep_in_bed: Option<i32>,
    pub talked_to_villager: Option<i32>,
    pub target_hit: Option<i32>,
    pub traded_with_villager: Option<i32>,
    pub trigger_trapped_chest: Option<i32>,
    pub tune_noteblock: Option<i32>,
    pub use_cauldron: Option<i32>,
    pub damage_absorbed: Option<i32>,
    pub damage_blocked_by_shield: Option<i32>,
    pub damage_dealt: Option<i32>,
    pub damage_dealt_absorbed: Option<i32>,
    pub damage_dealt_resisted: Option<i32>,
    pub damage_resisted: Option<i32>,
    pub damage_taken: Option<i32>,
    pub deaths: Option<i32>,
    pub mob_kills: Option<i32>,
    pub player_kills: Option<i32>,
    pub crouch_time: Option<i32>,
    pub jump: Option<i32>,
    pub leave_game: Option<i32>,
    pub play_time: Option<i32>,
    pub sneak_time: Option<i32>,
    pub time_since_death: Option<i32>,
    pub time_since_rest: Option<i32>,
    pub total_world_time: Option<i32>,
    pub raid_trigger: Option<i32>,
    pub raid_win: Option<i32>,
}

/// The display name of a statistics category.
pub open spec fn spec_readable_name(c: Seq<char>) -> Seq<char> {
    if c == "minecraft:custom"@ {
        "Custom Statistic"@
    } else if c == "minecraft:mined"@ {
        "Mined Statistic"@
    } else if c == "minecraft:crafted"@ {
        "Crafted Statistic"@
    } else if c == "minecraft:used"@ {
        "Used Statistic"@
    } else if c == "minecraft:broken"@ {
        "Broken Statistic"@
    } else if c == "minecraft:picked_up"@ {
        "Picked Up Statistic"@
    } else if c == "minecraft:dropped"@ {
        "Dropped Statistic"@
    } else if c == "minecraft:killed"@ {
        "Killed Statistic"@
    } else if c == "minecraft:killed_by"@ {
        "Killed By Statistic"@
    } else if c == "minecraft:custom_entity"@ {
        "Custom Entity Statistic"@
    } else {
        "Unknown Statistic"@
    }
}

impl MinecraftStats {
    /// Gather the commonly wanted counters out of the custom category.
    /// Each field is exactly what the category records for its
    /// identifier, absent when the category has no entry for it.
    pub fn get_common_custom_stats(&self) -> (r: CommonCustomStats)
        ensures
            r.aviate_one_cm == stat_opt(self.stats.custom@, "minecraft:aviate_one_cm"@),
            r.boat_one_cm == stat_opt(self.stats.custom@, "minecraft:boat_one_cm"@),
            r.climb_one_cm == stat_opt(self.stats.custom@, "minecraft:climb_one_cm"@),
            r.crouch_one_cm == stat_opt(self.stats.custom@, "minecraft:crouch_one_cm"@),
            r.fall_one_cm == stat_opt(self.stats.custom@, "minecraft:fall_one_cm"@),
            r.fly_one_cm == stat_opt(self.stats.custom@, "minecraft:fly_one_cm"@),
            r.horse_one_cm == stat_opt(self.stats.custom@, "minecraft:horse_one_cm"@),
            r.minecart_one_cm == stat_opt(self.stats.custom@, "minecraft:minecart_one_cm"@),
            r.pig_one_cm == stat_opt(self.stats.custom@, "minecraft:pig_one_cm"@),
            r.sprint_one_cm == stat_opt(self.stats.custom@, "minecraft:sprint_one_cm"@),
            r.strider_one_cm == stat_opt(self.stats.custom@, "minecraft:strider_one_cm"@),
            r.swim_one_cm == stat_opt(self.stats.custom@, "minecraft:swim_one_cm"@),
            r.walk_on_water_one_cm == stat_opt(self.stats.custom@, "minecraft:walk_on_water_one_cm"@),
            r.walk_under_water_one_cm == stat_opt(self.stats.custom@, "minecraft:walk_under_water_one_cm"@),
            r.walk_one_cm == stat_opt(self.stats.custom@, "minecraft:walk_one_cm"@),
            r.animals_bred == stat_opt(self.stats.custom@, "minecraft:animals_bred"@),
            r.bell_ring == stat_opt(self.stats.custom@, "minecraft:bell_ring"@),
            r.eat_cake_slice == stat_opt(self.stats.custom@, "minecraft:eat_cake_slice"@),
            r.cauldron_filled == stat_opt(self.stats.custom@, "minecraft:cauldron_filled"@),
            r.cauldron_used == stat_opt(self.stats.custom@, "minecraft:cauldron_used"@),
            r.chest_opened == stat_opt(self.stats.custom@, "minecraft:chest_opened"@),
            r.clean_armor == stat_opt(self.stats.custom@, "minecraft:clean_armor"@),
            r.clean_banner == stat_opt(self.stats.custom@, "minecraft:clean_banner"@),
            r.clean_shulker_box == stat_opt(self.stats.custom@, "minecraft:clean_shulker_box"@),
            r.enchant_item == stat_opt(self.stats.custom@, "minecraft:enchant_item"@),
            r.fish_caught == stat_opt(self.stats.custom@, "minecraft:fish_caught"@),
            r.inspect_dispenser == stat_opt(self.stats.custom@, "minecraft:inspect_dispenser"@),
            r.inspect_dropper == stat_opt(self.stats.custom@, "minecraft:inspect_dropper"@),
            r.inspect_hopper == stat_opt(self.stats.custom@, "minecraft:inspect_hopper"@),
            r.interact_with_anvil == stat_opt(self.stats.custom@, "minecraft:interact_with_anvil"@),
            r.interact_with_beacon == stat_opt(self.stats.custom@, "minecraft:interact_with_beacon"@),
            r.interact_with_blast_furnace == stat_opt(self.stats.custom@, "minecraft:interact_with_blast_furnace"@),
            r.interact_with_brewingstand == stat_opt(self.stats.custom@, "minecraft:interact_with_brewingstand"@),
            r.interact_with_campfire == stat_opt(self.stats.custom@, "minecraft:interact_with_campfire"@),
            r.interact_with_cartography_table == stat_opt(self.stats.custom@, "minecraft:interact_with_cartography_table"@),
            r.interact_with_crafting_table == stat_opt(self.stats.custom@, "minecraft:interact_with_crafting_table"@),
            r.interact_with_furnace == stat_opt(self.stats.custom@, "minecraft:interact_with_furnace"@),
            r.interact_with_grindstone == stat_opt(self.stats.custom@, "minecraft:interact_with_grindstone"@),
            r.interact_with_lectern == stat_opt(self.stats.custom@, "minecraft:interact_with_lectern"@),
            r.interact_with_loom == stat_opt(self.stats.custom@, "minecraft:interact_with_loom"@),
            r.interact_with_smithing_table == stat_opt(self.stats.custom@, "minecraft:interact_with_smithing_table"@),
            r.interact_with_smoker == stat_opt(self.stats.custom@, "minecraft:interact_with_smoker"@),
            r.interact_with_stonecutter == stat_opt(self.stats.custom@, "minecraft:interact_with_stonecutter"@),
            r.open_barrel == stat_opt(self.stats.custom@, "minecraft:open_barrel"@),
            r.open_enderchest == stat_opt(self.stats.custom@, "minecraft:open_enderchest"@),
            r.play_noteblock == stat_opt(self.stats.custom@, "minecraft:play_noteblock"@),
            r.play_record == stat_opt(self.stats.custom@, "minecraft:play_record"@),
            r.pot_flower == stat_opt(self.stats.custom@, "minecraft:pot_flower"@),
            r.shulker_box_opened == stat_opt(self.stats.custom@, "minecraft:shulker_box_opened"@),
            r.sleep_in_bed == stat_opt(self.stats.custom@, "minecraft:sleep_in_bed"@),
            r.talked_to_villager == stat_opt(self.stats.custom@, "minecraft:talked_to_villager"@),
            r.target_hit == stat_opt(self.stats.custom@, "minecraft:target_hit"@),
            r.traded_with_villager == stat_opt(self.stats.custom@, "minecraft:traded_with_villager"@),
            r.trigger_trapped_chest == stat_opt(self.stats.custom@, "minecraft:trigger_trapped_chest"@),
            r.tune_noteblock == stat_opt(self.stats.custom@, "minecraft:tune_noteblock"@),
            r.use_cauldron == stat_opt(self.stats.custom@, "minecraft:use_cauldron"@),
            r.damage_absorbed == stat_opt(self.stats.custom@, "minecraft:damage_absorbed"@),
            r.damage_blocked_by_shield == stat_opt(self.stats.custom@, "minecraft:damage_blocked_by_shield"@),
            r.damage_dealt == stat_opt(self.stats.custom@, "minecraft:damage_dealt"@),
            r.damage_dealt_absorbed == stat_opt(self.stats.custom@, "minecraft:damage_dealt_absorbed"@),
            r.damage_dealt_resisted == stat_opt(self.stats.custom@, "minecraft:damage_dealt_resisted"@),
            r.damage_resisted == stat_opt(self.stats.custom@, "minecraft:damage_resisted"@),
            r.damage_taken == stat_opt(self.stats.custom@, "minecraft:damage_taken"@),
            r.deaths == stat_opt(self.stats.custom@, "minecraft:deaths"@),
            r.mob_kills == stat_opt(self.stats.custom@, "minecraft:mob_kills"@),
            r.player_kills == stat_opt(self.stats.custom@, "minecraft:player_kills"@),
            r.crouch_time == stat_opt(self.stats.custom@, "minecraft:crouch_time"@),
            r.jump == stat_opt(self.stats.custom@, "minecraft:jump"@),
            r.leave_game == stat_opt(self.stats.custom@, "minecraft:leave_game"@),
            r.play_time == stat_opt(self.stats.custom@, "minecraft:play_time"@),
            r.sneak_time == stat_opt(self.stats.custom@, "minecraft:sneak_time"@),
            r.time_since_death == stat_opt(self.stats.custom@, "minecraft:time_since_death"@),
            r.time_since_rest == stat_opt(self.stats.custom@, "minecraft:time_since_rest"@),
            r.total_world_time == stat_opt(self.stats.custom@, "minecraft:total_world_time"@),
            r.raid_trigger == stat_opt(self.stats.custom@, "minecraft:raid_trigger"@),
            r.raid_win == stat_opt(self.stats.custom@, "minecraft:raid_win"@),
    {
        CommonCustomStats {
            aviate_one_cm: self.stats.custom.get("minecraft:aviate_one_cm"),
            boat_one_cm: self.stats.custom.get("minecraft:boat_one_cm"),
            climb_one_cm: self.stats.custom.get("minecraft:climb_one_cm"),
            crouch_one_cm: self.stats.custom.get("minecraft:crouch_one_cm"),
            fall_one_cm: self.stats.custom.get("minecraft:fall_one_cm"),
            fly_one_cm: self.stats.custom.get("minecraft:fly_one_cm"),
            horse_one_cm: self.stats.custom.get("minecraft:horse_one_cm"),
            minecart_one_cm: self.stats.custom.get("minecraft:minecart_one_cm"),
            pig_one_cm: self.stats.custom.get("minecraft:pig_one_cm"),
            sprint_one_cm: self.stats.custom.get("minecraft:sprint_one_cm"),
            strider_one_cm: self.stats.custom.get("minecraft:strider_one_cm"),
            swim_one_cm: self.stats.custom.get("minecraft:swim_one_cm"),
            walk_on_water_one_cm: self.stats.custom.get("minecraft:walk_on_water_one_cm"),
            walk_under_water_one_cm: self.stats.custom.get("minecraft:walk_under_water_one_cm"),
            walk_one_cm: self.stats.custom.get("minecraft:walk_one_cm"),
            animals_bred: self.stats.custom.get("minecraft:animals_bred"),
            bell_ring: self.stats.custom.get("minecraft:bell_ring"),
            eat_cake_slice: self.stats.custom.get("minecraft:eat_cake_slice"),
            cauldron_filled: self.stats.custom.get("minecraft:cauldron_filled"),
            cauldron_used: self.stats.custom.get("minecraft:cauldron_used"),
            chest_opened: self.stats.custom.get("minecraft:chest_opened"),
            clean_armor: self.stats.custom.get("minecraft:clean_armor"),
            clean_banner: self.stats.custom.get("minecraft:clean_banner"),
            clean_shulker_box: self.stats.custom.get("minecraft:clean_shulker_box"),
            enchant_item: self.stats.custom.get("minecraft:enchant_item"),
            fish_caught: self.stats.custom.get("minecraft:fish_caught"),
            inspect_dispenser: self.stats.custom.get("minecraft:inspect_dispenser"),
            inspect_dropper: self.stats.custom.get("minecraft:inspect_dropper"),
            inspect_hopper: self.stats.custom.get("minecraft:inspect_hopper"),
            interact_with_anvil: self.stats.custom.get("minecraft:interact_with_anvil"),
            interact_with_beacon: self.stats.custom.get("minecraft:interact_with_beacon"),
            interact_with_blast_furnace: self.stats.custom.get("minecraft:interact_with_blast_furnace"),
            interact_with_brewingstand: self.stats.custom.get("minecraft:interact_with_brewingstand"),
            interact_with_campfire: self.stats.custom.get("minecraft:interact_with_campfire"),
            interact_with_cartography_table: self.stats.custom.get("minecraft:interact_with_cartography_table"),
            interact_with_crafting_table: self.stats.custom.get("minecraft:interact_with_crafting_table"),
            interact_with_furnace: self.stats.custom.get("minecraft:interact_with_furnace"),
            interact_with_grindstone: self.stats.custom.get("minecraft:interact_with_grindstone"),
            interact_with_lectern: self.stats.custom.get("minecraft:interact_with_lectern"),
            interact_with_loom: self.stats.custom.get("minecraft:interact_with_loom"),
            interact_with_smithing_table: self.stats.custom.get("minecraft:interact_with_smithing_table"),
            interact_with_smoker: self.stats.custom.get("minecraft:interact_with_smoker"),
            interact_with_stonecutter: self.stats.custom.get("minecraft:interact_with_stonecutter"),
            open_barrel: self.stats.custom.get("minecraft:open_barrel"),
            open_enderchest: self.stats.custom.get("minecraft:open_enderchest"),
            play_noteblock: self.stats.custom.get("minecraft:play_noteblock"),
            play_record: self.stats.custom.get("minecraft:play_record"),
            pot_flower: self.stats.custom.get("minecraft:pot_flower"),
            shulker_box_opened: self.stats.custom.get("minecraft:shulker_box_opened"),
            sleep_in_bed: self.stats.custom.get("minecraft:sleep_in_bed"),
            talked_to_villager: self.stats.custom.get("minecraft:talked_to_villager"),
            target_hit: self.stats.custom.get("minecraft:target_hit"),
            traded_with_villager: self.stats.custom.get("minecraft:traded_with_villager"),
            trigger_trapped_chest: self.stats.custom.get("minecraft:trigger_trapped_chest"),
            tune_noteblock: self.stats.custom.get("minecraft:tune_noteblock"),
            use_cauldron: self.stats.custom.get("minecraft:use_cauldron"),
            damage_absorbed: self.stats.custom.get("minecraft:damage_absorbed"),
            damage_blocked_by_shield: self.stats.custom.get("minecraft:damage_blocked_by_shield"),
            damage_dealt: self.stats.custom.get("minecraft:damage_dealt"),
            damage_dealt_absorbed: self.stats.custom.get("minecraft:damage_dealt_absorbed"),
            damage_dealt_resisted: self.stats.custom.get("minecraft:damage_dealt_resisted"),
            damage_resisted: self.stats.custom.get("minecraft:damage_resisted"),
            damage_taken: self.stats.custom.get("minecraft:damage_taken"),
            deaths: self.stats.custom.get("minecraft:deaths"),
            mob_kills: self.stats.custom.get("minecraft:mob_kills"),
            player_kills: self.stats.custom.get("minecraft:player_kills"),
            crouch_time: self.stats.custom.get("minecraft:crouch_time"),
            jump: self.stats.custom.get("minecraft:jump"),
            leave_game: self.stats.custom.get("minecraft:leave_game"),
            play_time: self.stats.custom.get("minecraft:play_time"),
            sneak_time: self.stats.custom.get("minecraft:sneak_time"),
            time_since_death: self.stats.custom.get("minecraft:time_since_death"),
            time_since_rest: self.stats.custom.get("minecraft:time_since_rest"),
            total_world_time: self.stats.custom.get("minecraft:total_world_time"),
            raid_trigger: self.stats.custom.get("minecraft:raid_trigger"),
            raid_win: self.stats.custom.get("minecraft:raid_win"),
        }
    }

    /// The display name of a statistics category.
    pub fn get_readable_name(category: &str) -> (r: String)
        ensures
            r@ == spec_readable_name(category@),
    {
        if str_eq(category, "minecraft:custom") {
            String::from_str("Custom Statistic")
        } else if str_eq(category, "minecraft:mined") {
            String::from_str("Mined Statistic")
        } else if str_eq(category, "minecraft:crafted") {
            String::from_str("Crafted Statistic")
        } else if str_eq(category, "minecraft:used") {
            String::from_str("Used Statistic")
        } else if str_eq(category, "minecraft:broken") {
            String::from_str("Broken Statistic")
        } else if str_eq(category, "minecraft:picked_up") {
            String::from_str("Picked Up Statistic")
        } else if str_eq(category, "minecraft:dropped") {
            String::from_str("Dropped Statistic")
        } else if str_eq(category, "minecraft:killed") {
            String::from_str("Killed Statistic")
        } else if str_eq(category, "minecraft:killed_by") {
            String::from_str("Killed By Statistic")
        } else if str_eq(category, "minecraft:custom_entity") {
            String::from_str("Custom Entity Statistic")
        } else {
            String::from_str("Unknown Statistic")
        }
    }
}

} // verus!
