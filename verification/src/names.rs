//! Display names for raw statistic identifiers.
//!
//! Minecraft reports statistics under identifiers such as
//! `minecraft:zombie`; each table here maps the identifiers of one
//! category to a phrase fit for a reader. The tables cover the common
//! entries of each category; an identifier outside a table is rendered by
//! [`convert_to_readable`] instead.

use vstd::prelude::*;
use vstd::string::StrSliceExecFns;
use vstd::string::StringExecFns;

use crate::sections::kv_get;
use crate::sections::kv_lookup;

verus! {

/// The mapping a list of entries builds up: a later entry for the same
/// key replaces the earlier one.
pub open spec fn assoc_map(entries: Seq<(Seq<char>, Seq<char>)>) -> Map<Seq<char>, Seq<char>>
    decreases entries.len(),
{
    if entries.len() == 0 {
        Map::empty()
    } else {
        assoc_map(entries.drop_last()).insert(entries.last().0, entries.last().1)
    }
}

/// Searching the entries from the latest backward agrees with the map
/// they build up.
proof fn lemma_assoc_map_is_lookup(entries: Seq<(Seq<char>, Seq<char>)>, key: Seq<char>)
    ensures
        assoc_map(entries).contains_key(key) <==> kv_lookup(entries, key) is Some,
        assoc_map(entries).contains_key(key) ==> assoc_map(entries)[key] == kv_lookup(
            entries,
            key,
        ).unwrap(),
    decreases entries.len(),
{
    if entries.len() > 0 {
        lemma_assoc_map_is_lookup(entries.drop_last(), key);
    }
}

/// A table of display names, keyed by statistic identifier.
pub struct StatNames {
    entries: Vec<(String, String)>,
}

impl View for StatNames {
    type V = Map<Seq<char>, Seq<char>>;

    closed spec fn view(&self) -> Map<Seq<char>, Seq<char>> {
        assoc_map(self.entries.deep_view())
    }
}

impl StatNames {
    /// An empty table.
    pub fn new() -> (m: Self)
        ensures
            m@ == Map::<Seq<char>, Seq<char>>::empty(),
    {
        let m = StatNames { entries: Vec::new() };
        proof {
            assert(m.entries.deep_view() =~= Seq::<(Seq<char>, Seq<char>)>::empty());
        }
        m
    }

    /// Record a display name for an identifier, replacing any earlier one.
    pub fn insert(&mut self, key: &str, name: &str)
        ensures
            final(self)@ == old(self)@.insert(key@, name@),
    {
        let ghost old_dv = self.entries.deep_view();
        self.entries.push((key.to_owned(), name.to_owned()));
        proof {
            assert(self.entries.deep_view() =~= old_dv.push((key@, name@)));
            assert(self.entries.deep_view().drop_last() =~= old_dv);
        }
    }

    /// The display name recorded for an identifier.
    pub fn get(&self, key: &str) -> (r: Option<String>)
        ensures
            match r {
                Some(v) => self@.contains_key(key@) && v@ == self@[key@],
                None => !self@.contains_key(key@),
            },
    {
        proof {
            lemma_assoc_map_is_lookup(self.entries.deep_view(), key@);
        }
        kv_get(&self.entries, key)
    }
}

/// The table of display names for deaths to each kind of mob or player.
pub open spec fn spec_killed_by_stat_names() -> Map<Seq<char>, Seq<char>> {
    Map::<Seq<char>, Seq<char>>::empty().insert(
        "minecraft:zombie"@,
        "Killed by Zombies"@,
    ).insert(
        "minecraft:skeleton"@,
        "Killed by Skeletons"@,
    ).insert(
        "minecraft:creeper"@,
        "Killed by Creepers"@,
    ).insert(
        "minecraft:spider"@,
        "Killed by Spiders"@,
    ).insert(
        "minecraft:enderman"@,
        "Killed by Endermen"@,
    ).insert(
        "minecraft:witch"@,
        "Killed by Witches"@,
    ).insert(
        "minecraft:slime"@,
        "Killed by Slimes"@,
    ).insert(
        "minecraft:phantom"@,
        "Killed by Phantoms"@,
    ).insert(
        "minecraft:drowned"@,
        "Killed by Drowned"@,
    ).insert(
        "minecraft:blaze"@,
        "Killed by Blazes"@,
    ).insert(
        "minecraft:ghast"@,
        "Killed by Ghasts"@,
    ).insert(
        "minecraft:magma_cube"@,
        "Killed by Magma Cubes"@,
    ).insert(
        "minecraft:wither_skeleton"@,
        "Killed by Wither Skeletons"@,
    ).insert(
        "minecraft:piglin"@,
        "Killed by Piglins"@,
    ).insert(
        "minecraft:piglin_brute"@,
        "Killed by Piglin Brutes"@,
    ).insert(
        "minecraft:hoglin"@,
        "Killed by Hoglins"@,
    ).insert(
        "minecraft:zoglin"@,
        "Killed by Zoglins"@,
    ).insert(
        "minecraft:vindicator"@,
        "Killed by Vindicators"@,
    ).insert(
        "minecraft:evoker"@,
        "Killed by Evokers"@,
    ).insert(
        "minecraft:ravager"@,
        "Killed by Ravagers"@,
    ).insert(
        "minecraft:ender_dragon"@,
        "Killed by Ender Dragons"@,
    ).insert(
        "minecraft:wither"@,
        "Killed by Withers"@,
    ).insert(
        "minecraft:elder_guardian"@,
        "Killed by Elder Guardians"@,
    ).insert(
        "minecraft:bee"@,
        "Killed by Bees"@,
    ).insert(
        "minecraft:wolf"@,
        "Killed by Wolves"@,
    ).insert(
        "minecraft:iron_golem"@,
        "Killed by Iron Golems"@,
    ).insert(
        "minecraft:player"@,
        "Killed by Players"@,
    )
}

/// Build the table of display names for deaths to each kind of mob or player.
pub fn create_killed_by_stat_names() -> (m: StatNames)
    ensures
        m@ == spec_killed_by_stat_names(),
{
    let mut m = StatNames::new();
    m.insert("minecraft:zombie", "Killed by Zombies");
    m.insert("minecraft:skeleton", "Killed by Skeletons");
    m.insert("minecraft:creeper", "Killed by Creepers");
    m.insert("minecraft:spider", "Killed by Spiders");
    m.insert("minecraft:enderman", "Killed by Endermen");
    m.insert("minecraft:witch", "Killed by Witches");
    m.insert("minecraft:slime", "Killed by Slimes");
    m.insert("minecraft:phantom", "Killed by Phantoms");
    m.insert("minecraft:drowned", "Killed by Drowned");
    m.insert("minecraft:blaze", "Killed by Blazes");
    m.insert("minecraft:ghast", "Killed by Ghasts");
    m.insert("minecraft:magma_cube", "Killed by Magma Cubes");
    m.insert("minecraft:wither_skeleton", "Killed by Wither Skeletons");
    m.insert("minecraft:piglin", "Killed by Piglins");
    m.insert("minecraft:piglin_brute", "Killed by Piglin Brutes");
    m.insert("minecraft:hoglin", "Killed by Hoglins");
    m.insert("minecraft:zoglin", "Killed by Zoglins");
    m.insert("minecraft:vindicator", "Killed by Vindicators");
    m.insert("minecraft:evoker", "Killed by Evokers");
    m.insert("minecraft:ravager", "Killed by Ravagers");
    m.insert("minecraft:ender_dragon", "Killed by Ender Dragons");
    m.insert("minecraft:wither", "Killed by Withers");
    m.insert("minecraft:elder_guardian", "Killed by Elder Guardians");
    m.insert("minecraft:bee", "Killed by Bees");
    m.insert("minecraft:wolf", "Killed by Wolves");
    m.insert("minecraft:iron_golem", "Killed by Iron Golems");
    m.insert("minecraft:player", "Killed by Players");
    m
}

/// The table of display names for the custom statistics: movement, interactions, combat and more.
pub open spec fn spec_custom_stat_names() -> Map<Seq<char>, Seq<char>> {
    Map::<Seq<char>, Seq<char>>::empty().insert(
        "minecraft:aviate_one_cm"@,
        "Distance by Elytra"@,
    ).insert(
        "minecraft:boat_one_cm"@,
        "Distance by Boat"@,
    ).insert(
        "minecraft:climb_one_cm"@,
        "Distance Climbed"@,
    ).insert(
        "minecraft:crouch_one_cm"@,
        "Distance Crouched"@,
    ).insert(
        "minecraft:fall_one_cm"@,
        "Distance Fallen"@,
    ).insert(
        "minecraft:fly_one_cm"@,
        "Distance Flown"@,
    ).insert(
        "minecraft:horse_one_cm"@,
        "Distance by Horse"@,
    ).insert(
        "minecraft:minecart_one_cm"@,
        "Distance by Minecart"@,
    ).insert(
        "minecraft:pig_one_cm"@,
        "Distance by Pig"@,
    ).insert(
        "minecraft:sprint_one_cm"@,
        "Distance Sprinted"@,
    ).insert(
        "minecraft:strider_one_cm"@,
        "Distance on Strider"@,
    ).insert(
        "minecraft:swim_one_cm"@,
        "Distance Swum"@,
    ).insert(
        "minecraft:walk_on_water_one_cm"@,
        "Distance Walked on Water"@,
    ).insert(
        "minecraft:walk_under_water_one_cm"@,
        "Distance Walked under Water"@,
    ).insert(
        "minecraft:walk_one_cm"@,
        "Distance Walked"@,
    ).insert(
        "minecraft:animals_bred"@,
        "Animals Bred"@,
    ).insert(
        "minecraft:bell_ring"@,
        "Bell Rings"@,
    ).insert(
        "minecraft:eat_cake_slice"@,
        "Cake Slices Eaten"@,
    ).insert(
        "minecraft:cauldron_filled"@,
        "Cauldrons Filled"@,
    ).insert(
        "minecraft:cauldron_used"@,
        "Water Taken from Cauldron"@,
    ).insert(
        "minecraft:chest_opened"@,
        "Chests Opened"@,
    ).insert(
        "minecraft:clean_armor"@,
        "Armor Pieces Cleaned"@,
    ).insert(
        "minecraft:clean_banner"@,
        "Banners Cleaned"@,
    ).insert(
        "minecraft:clean_shulker_box"@,
        "Shulker Boxes Cleaned"@,
    ).insert(
        "minecraft:enchant_item"@,
        "Items Enchanted"@,
    ).insert(
        "minecraft:fish_caught"@,
        "Fish Caught"@,
    ).insert(
        "minecraft:inspect_dispenser"@,
        "Dispensers Searched"@,
    ).insert(
        "minecraft:inspect_dropper"@,
        "Droppers Searched"@,
    ).insert(
        "minecraft:inspect_hopper"@,
        "Hoppers Searched"@,
    ).insert(
        "minecraft:interact_with_anvil"@,
        "Interactions with Anvil"@,
    ).insert(
        "minecraft:interact_with_beacon"@,
        "Interactions with Beacon"@,
    ).insert(
        "minecraft:interact_with_blast_furnace"@,
        "Interactions with Blast Furnace"@,
    ).insert(
        "minecraft:interact_with_brewingstand"@,
        "Interactions with Brewing Stand"@,
    ).insert(
        "minecraft:interact_with_campfire"@,
        "Interactions with Campfire"@,
    ).insert(
        "minecraft:interact_with_cartography_table"@,
        "Interactions with Cartography Table"@,
    ).insert(
        "minecraft:interact_with_crafting_table"@,
        "Interactions with Crafting Table"@,
    ).insert(
        "minecraft:interact_with_furnace"@,
        "Interactions with Furnace"@,
    ).insert(
        "minecraft:interact_with_grindstone"@,
        "Interactions with Grindstone"@,
    ).insert(
        "minecraft:interact_with_lectern"@,
        "Interactions with Lectern"@,
    ).insert(
        "minecraft:interact_with_loom"@,
        "Interactions with Loom"@,
    ).insert(
        "minecraft:interact_with_smithing_table"@,
        "Interactions with Smithing Table"@,
    ).insert(
        "minecraft:interact_with_smoker"@,
        "Interactions with Smoker"@,
    ).insert(
        "minecraft:interact_with_stonecutter"@,
        "Interactions with Stonecutter"@,
    ).insert(
        "minecraft:open_barrel"@,
        "Barrels Opened"@,
    ).insert(
        "minecraft:open_enderchest"@,
        "Ender Chests Opened"@,
    ).insert(
        "minecraft:play_noteblock"@,
        "Note Blocks Played"@,
    ).insert(
        "minecraft:play_record"@,
        "Records Played"@,
    ).insert(
        "minecraft:pot_flower"@,
        "Flowers Potted"@,
    ).insert(
        "minecraft:shulker_box_opened"@,
        "Shulker Boxes Opened"@,
    ).insert(
        "minecraft:sleep_in_bed"@,
        "Times Slept in a Bed"@,
    ).insert(
        "minecraft:talked_to_villager"@,
        "Talks with Villagers"@,
    ).insert(
        "minecraft:target_hit"@,
        "Targets Hit"@,
    ).insert(
        "minecraft:traded_with_villager"@,
        "Traded with Villagers"@,
    ).insert(
        "minecraft:trigger_trapped_chest"@,
        "Trapped Chests Triggered"@,
    ).insert(
        "minecraft:tune_noteblock"@,
        "Note Blocks Tuned"@,
    ).insert(
        "minecraft:use_cauldron"@,
        "Cauldrons Used"@,
    ).insert(
        "minecraft:damage_absorbed"@,
        "Damage Absorbed"@,
    ).insert(
        "minecraft:damage_blocked_by_shield"@,
        "Damage Blocked by Shield"@,
    ).insert(
        "minecraft:damage_dealt"@,
        "Damage Dealt"@,
    ).insert(
        "minecraft:damage_dealt_absorbed"@,
        "Damage Dealt (Absorbed)"@,
    ).insert(
        "minecraft:damage_dealt_resisted"@,
        "Damage Dealt (Resisted)"@,
    ).insert(
        "minecraft:damage_resisted"@,
        "Damage Resisted"@,
    ).insert(
        "minecraft:damage_taken"@,
        "Damage Taken"@,
    ).insert(
        "minecraft:deaths"@,
        "Number of Deaths"@,
    ).insert(
        "minecraft:mob_kills"@,
        "Mob Kills"@,
    ).insert(
        "minecraft:player_kills"@,
        "Player Kills"@,
    ).insert(
        "minecraft:crouch_time"@,
        "Time Crouched"@,
    ).insert(
        "minecraft:jump"@,
        "Jumps"@,
    ).insert(
        "minecraft:leave_game"@,
        "Games Quit"@,
    ).insert(
        "minecraft:play_time"@,
        "Play Time"@,
    ).insert(
        "minecraft:sneak_time"@,
        "Time Sneaked"@,
    ).insert(
        "minecraft:time_since_death"@,
        "Time Since Last Death"@,
    ).insert(
        "minecraft:time_since_rest"@,
        "Time Since Last Rest"@,
    ).insert(
        "minecraft:total_world_time"@,
        "Total World Time"@,
    ).insert(
        "minecraft:raid_trigger"@,
        "Raids Triggered"@,
    ).insert(
        "minecraft:raid_win"@,
        "Raids Won"@,
    )
}

/// Build the table of display names for the custom statistics: movement, interactions, combat and more.
pub fn create_custom_stat_names() -> (m: StatNames)
    ensures
        m@ == spec_custom_stat_names(),
{
    let mut m = StatNames::new();
    m.insert("minecraft:aviate_one_cm", "Distance by Elytra");
    m.insert("minecraft:boat_one_cm", "Distance by Boat");
    m.insert("minecraft:climb_one_cm", "Distance Climbed");
    m.insert("minecraft:crouch_one_cm", "Distance Crouched");
    m.insert("minecraft:fall_one_cm", "Distance Fallen");
    m.insert("minecraft:fly_one_cm", "Distance Flown");
    m.insert("minecraft:horse_one_cm", "Distance by Horse");
    m.insert("minecraft:minecart_one_cm", "Distance by Minecart");
    m.insert("minecraft:pig_one_cm", "Distance by Pig");
    m.insert("minecraft:sprint_one_cm", "Distance Sprinted");
    m.insert("minecraft:strider_one_cm", "Distance on Strider");
    m.insert("minecraft:swim_one_cm", "Distance Swum");
    m.insert("minecraft:walk_on_water_one_cm", "Distance Walked on Water");
    m.insert("minecraft:walk_under_water_one_cm", "Distance Walked under Water");
    m.insert("minecraft:walk_one_cm", "Distance Walked");
    m.insert("minecraft:animals_bred", "Animals Bred");
    m.insert("minecraft:bell_ring", "Bell Rings");
    m.insert("minecraft:eat_cake_slice", "Cake Slices Eaten");
    m.insert("minecraft:cauldron_filled", "Cauldrons Filled");
    m.insert("minecraft:cauldron_used", "Water Taken from Cauldron");
    m.insert("minecraft:chest_opened", "Chests Opened");
    m.insert("minecraft:clean_armor", "Armor Pieces Cleaned");
    m.insert("minecraft:clean_banner", "Banners Cleaned");
    m.insert("minecraft:clean_shulker_box", "Shulker Boxes Cleaned");
    m.insert("minecraft:enchant_item", "Items Enchanted");
    m.insert("minecraft:fish_caught", "Fish Caught");
    m.insert("minecraft:inspect_dispenser", "Dispensers Searched");
    m.insert("minecraft:inspect_dropper", "Droppers Searched");
    m.insert("minecraft:inspect_hopper", "Hoppers Searched");
    m.insert("minecraft:interact_with_anvil", "Interactions with Anvil");
    m.insert("minecraft:interact_with_beacon", "Interactions with Beacon");
    m.insert("minecraft:interact_with_blast_furnace", "Interactions with Blast Furnace");
    m.insert("minecraft:interact_with_brewingstand", "Interactions with Brewing Stand");
    m.insert("minecraft:interact_with_campfire", "Interactions with Campfire");
    m.insert("minecraft:interact_with_cartography_table", "Interactions with Cartography Table");
    m.insert("minecraft:interact_with_crafting_table", "Interactions with Crafting Table");
    m.insert("minecraft:interact_with_furnace", "Interactions with Furnace");
    m.insert("minecraft:interact_with_grindstone", "Interactions with Grindstone");
    m.insert("minecraft:interact_with_lectern", "Interactions with Lectern");
    m.insert("minecraft:interact_with_loom", "Interactions with Loom");
    m.insert("minecraft:interact_with_smithing_table", "Interactions with Smithing Table");
    m.insert("minecraft:interact_with_smoker", "Interactions with Smoker");
    m.insert("minecraft:interact_with_stonecutter", "Interactions with Stonecutter");
    m.insert("minecraft:open_barrel", "Barrels Opened");
    m.insert("minecraft:open_enderchest", "Ender Chests Opened");
    m.insert("minecraft:play_noteblock", "Note Blocks Played");
    m.insert("minecraft:play_record", "Records Played");
    m.insert("minecraft:pot_flower", "Flowers Potted");
    m.insert("minecraft:shulker_box_opened", "Shulker Boxes Opened");
    m.insert("minecraft:sleep_in_bed", "Times Slept in a Bed");
    m.insert("minecraft:talked_to_villager", "Talks with Villagers");
    m.insert("minecraft:target_hit", "Targets Hit");
    m.insert("minecraft:traded_with_villager", "Traded with Villagers");
    m.insert("minecraft:trigger_trapped_chest", "Trapped Chests Triggered");
    m.insert("minecraft:tune_noteblock", "Note Blocks Tuned");
    m.insert("minecraft:use_cauldron", "Cauldrons Used");
    m.insert("minecraft:damage_absorbed", "Damage Absorbed");
    m.insert("minecraft:damage_blocked_by_shield", "Damage Blocked by Shield");
    m.insert("minecraft:damage_dealt", "Damage Dealt");
    m.insert("minecraft:damage_dealt_absorbed", "Damage Dealt (Absorbed)");
    m.insert("minecraft:damage_dealt_resisted", "Damage Dealt (Resisted)");
    m.insert("minecraft:damage_resisted", "Damage Resisted");
    m.insert("minecraft:damage_taken", "Damage Taken");
    m.insert("minecraft:deaths", "Number of Deaths");
    m.insert("minecraft:mob_kills", "Mob Kills");
    m.insert("minecraft:player_kills", "Player Kills");
    m.insert("minecraft:crouch_time", "Time Crouched");
    m.insert("minecraft:jump", "Jumps");
    m.insert("minecraft:leave_game", "Games Quit");
    m.insert("minecraft:play_time", "Play Time");
    m.insert("minecraft:sneak_time", "Time Sneaked");
    m.insert("minecraft:time_since_death", "Time Since Last Death");
    m.insert("minecraft:time_since_rest", "Time Since Last Rest");
    m.insert("minecraft:total_world_time", "Total World Time");
    m.insert("minecraft:raid_trigger", "Raids Triggered");
    m.insert("minecraft:raid_win", "Raids Won");
    m
}

/// The table of display names for mined block statistics.
pub open spec fn spec_mined_stat_names() -> Map<Seq<char>, Seq<char>> {
    Map::<Seq<char>, Seq<char>>::empty().insert(
        "minecraft:stone"@,
        "Stone Mined"@,
    ).insert(
        "minecraft:dirt"@,
        "Dirt Mined"@,
    ).insert(
        "minecraft:grass_block"@,
        "Grass Blocks Mined"@,
    ).insert(
        "minecraft:gravel"@,
        "Gravel Mined"@,
    ).insert(
        "minecraft:sand"@,
        "Sand Mined"@,
    ).insert(
        "minecraft:coal_ore"@,
        "Coal Ore Mined"@,
    ).insert(
        "minecraft:iron_ore"@,
        "Iron Ore Mined"@,
    ).insert(
        "minecraft:gold_ore"@,
        "Gold Ore Mined"@,
    ).insert(
        "minecraft:diamond_ore"@,
        "Diamond Ore Mined"@,
    ).insert(
        "minecraft:redstone_ore"@,
        "Redstone Ore Mined"@,
    ).insert(
        "minecraft:lapis_ore"@,
        "Lapis Lazuli Ore Mined"@,
    ).insert(
        "minecraft:emerald_ore"@,
        "Emerald Ore Mined"@,
    ).insert(
        "minecraft:nether_quartz_ore"@,
        "Nether Quartz Ore Mined"@,
    ).insert(
        "minecraft:ancient_debris"@,
        "Ancient Debris Mined"@,
    ).insert(
        "minecraft:oak_log"@,
        "Oak Logs Mined"@,
    ).insert(
        "minecraft:spruce_log"@,
        "Spruce Logs Mined"@,
    ).insert(
        "minecraft:birch_log"@,
        "Birch Logs Mined"@,
    ).insert(
        "minecraft:jungle_log"@,
        "Jungle Logs Mined"@,
    ).insert(
        "minecraft:acacia_log"@,
        "Acacia Logs Mined"@,
    ).insert(
        "minecraft:dark_oak_log"@,
        "Dark Oak Logs Mined"@,
    ).insert(
        "minecraft:crimson_stem"@,
        "Crimson Stems Mined"@,
    ).insert(
        "minecraft:warped_stem"@,
        "Warped Stems Mined"@,
    ).insert(
        "minecraft:deepslate"@,
        "Deepslate Mined"@,
    ).insert(
        "minecraft:deepslate_coal_ore"@,
        "Deepslate Coal Ore Mined"@,
    ).insert(
        "minecraft:deepslate_iron_ore"@,
        "Deepslate Iron Ore Mined"@,
    ).insert(
        "minecraft:deepslate_gold_ore"@,
        "Deepslate Gold Ore Mined"@,
    ).insert(
        "minecraft:deepslate_diamond_ore"@,
        "Deepslate Diamond Ore Mined"@,
    ).insert(
        "minecraft:deepslate_redstone_ore"@,
        "Deepslate Redstone Ore Mined"@,
    ).insert(
        "minecraft:deepslate_lapis_ore"@,
        "Deepslate Lapis Ore Mined"@,
    ).insert(
        "minecraft:deepslate_emerald_ore"@,
        "Deepslate Emerald Ore Mined"@,
    )
}

/// Build the table of display names for mined block statistics.
pub fn create_mined_stat_names() -> (m: StatNames)
    ensures
        m@ == spec_mined_stat_names(),
{
    let mut m = StatNames::new();
    m.insert("minecraft:stone", "Stone Mined");
    m.insert("minecraft:dirt", "Dirt Mined");
    m.insert("minecraft:grass_block", "Grass Blocks Mined");
    m.insert("minecraft:gravel", "Gravel Mined");
    m.insert("minecraft:sand", "Sand Mined");
    m.insert("minecraft:coal_ore", "Coal Ore Mined");
    m.insert("minecraft:iron_ore", "Iron Ore Mined");
    m.insert("minecraft:gold_ore", "Gold Ore Mined");
    m.insert("minecraft:diamond_ore", "Diamond Ore Mined");
    m.insert("minecraft:redstone_ore", "Redstone Ore Mined");
    m.insert("minecraft:lapis_ore", "Lapis Lazuli Ore Mined");
    m.insert("minecraft:emerald_ore", "Emerald Ore Mined");
    m.insert("minecraft:nether_quartz_ore", "Nether Quartz Ore Mined");
    m.insert("minecraft:ancient_debris", "Ancient Debris Mined");
    m.insert("minecraft:oak_log", "Oak Logs Mined");
    m.insert("minecraft:spruce_log", "Spruce Logs Mined");
    m.insert("minecraft:birch_log", "Birch Logs Mined");
    m.insert("minecraft:jungle_log", "Jungle Logs Mined");
    m.insert("minecraft:acacia_log", "Acacia Logs Mined");
    m.insert("minecraft:dark_oak_log", "Dark Oak Logs Mined");
    m.insert("minecraft:crimson_stem", "Crimson Stems Mined");
    m.insert("minecraft:warped_stem", "Warped Stems Mined");
    m.insert("minecraft:deepslate", "Deepslate Mined");
    m.insert("minecraft:deepslate_coal_ore", "Deepslate Coal Ore Mined");
    m.insert("minecraft:deepslate_iron_ore", "Deepslate Iron Ore Mined");
    m.insert("minecraft:deepslate_gold_ore", "Deepslate Gold Ore Mined");
    m.insert("minecraft:deepslate_diamond_ore", "Deepslate Diamond Ore Mined");
    m.insert("minecraft:deepslate_redstone_ore", "Deepslate Redstone Ore Mined");
    m.insert("minecraft:deepslate_lapis_ore", "Deepslate Lapis Ore Mined");
    m.insert("minecraft:deepslate_emerald_ore", "Deepslate Emerald Ore Mined");
    m
}

/// The table of display names for crafted item statistics.
pub open spec fn spec_crafted_stat_names() -> Map<Seq<char>, Seq<char>> {
    Map::<Seq<char>, Seq<char>>::empty().insert(
        "minecraft:wooden_pickaxe"@,
        "Wooden Pickaxes Crafted"@,
    ).insert(
        "minecraft:stone_pickaxe"@,
        "Stone Pickaxes Crafted"@,
    ).insert(
        "minecraft:iron_pickaxe"@,
        "Iron Pickaxes Crafted"@,
    ).insert(
        "minecraft:golden_pickaxe"@,
        "Golden Pickaxes Crafted"@,
    ).insert(
        "minecraft:diamond_pickaxe"@,
        "Diamond Pickaxes Crafted"@,
    ).insert(
        "minecraft:netherite_pickaxe"@,
        "Netherite Pickaxes Crafted"@,
    ).insert(
        "minecraft:wooden_sword"@,
        "Wooden Swords Crafted"@,
    ).insert(
        "minecraft:stone_sword"@,
        "Stone Swords Crafted"@,
    ).insert(
        "minecraft:iron_sword"@,
        "Iron Swords Crafted"@,
    ).insert(
        "minecraft:golden_sword"@,
        "Golden Swords Crafted"@,
    ).insert(
        "minecraft:diamond_sword"@,
        "Diamond Swords Crafted"@,
    ).insert(
        "minecraft:netherite_sword"@,
        "Netherite Swords Crafted"@,
    ).insert(
        "minecraft:leather_helmet"@,
        "Leather Helmets Crafted"@,
    ).insert(
        "minecraft:iron_helmet"@,
        "Iron Helmets Crafted"@,
    ).insert(
        "minecraft:diamond_helmet"@,
        "Diamond Helmets Crafted"@,
    ).insert(
        "minecraft:netherite_helmet"@,
        "Netherite Helmets Crafted"@,
    ).insert(
        "minecraft:crafting_table"@,
        "Crafting Tables Crafted"@,
    ).insert(
        "minecraft:furnace"@,
        "Furnaces Crafted"@,
    ).insert(
        "minecraft:chest"@,
        "Chests Crafted"@,
    ).insert(
        "minecraft:torch"@,
        "Torches Crafted"@,
    )
}

/// Build the table of display names for crafted item statistics.
pub fn create_crafted_stat_names() -> (m: StatNames)
    ensures
        m@ == spec_crafted_stat_names(),
{
    let mut m = StatNames::new();
    m.insert("minecraft:wooden_pickaxe", "Wooden Pickaxes Crafted");
    m.insert("minecraft:stone_pickaxe", "Stone Pickaxes Crafted");
    m.insert("minecraft:iron_pickaxe", "Iron Pickaxes Crafted");
    m.insert("minecraft:golden_pickaxe", "Golden Pickaxes Crafted");
    m.insert("minecraft:diamond_pickaxe", "Diamond Pickaxes Crafted");
    m.insert("minecraft:netherite_pickaxe", "Netherite Pickaxes Crafted");
    m.insert("minecraft:wooden_sword", "Wooden Swords Crafted");
    m.insert("minecraft:stone_sword", "Stone Swords Crafted");
    m.insert("minecraft:iron_sword", "Iron Swords Crafted");
    m.insert("minecraft:golden_sword", "Golden Swords Crafted");
    m.insert("minecraft:diamond_sword", "Diamond Swords Crafted");
    m.insert("minecraft:netherite_sword", "Netherite Swords Crafted");
    m.insert("minecraft:leather_helmet", "Leather Helmets Crafted");
    m.insert("minecraft:iron_helmet", "Iron Helmets Crafted");
    m.insert("minecraft:diamond_helmet", "Diamond Helmets Crafted");
    m.insert("minecraft:netherite_helmet", "Netherite Helmets Crafted");
    m.insert("minecraft:crafting_table", "Crafting Tables Crafted");
    m.insert("minecraft:furnace", "Furnaces Crafted");
    m.insert("minecraft:chest", "Chests Crafted");
    m.insert("minecraft:torch", "Torches Crafted");
    m
}

/// The table of display names for used item statistics.
pub open spec fn spec_used_stat_names() -> Map<Seq<char>, Seq<char>> {
    Map::<Seq<char>, Seq<char>>::empty().insert(
        "minecraft:apple"@,
        "Apples Eaten"@,
    ).insert(
        "minecraft:mushroom_stew"@,
        "Mushroom Stew Eaten"@,
    ).insert(
        "minecraft:bread"@,
        "Bread Eaten"@,
    ).insert(
        "minecraft:porkchop"@,
        "Raw Porkchops Eaten"@,
    ).insert(
        "minecraft:cooked_porkchop"@,
        "Cooked Porkchops Eaten"@,
    ).insert(
        "minecraft:golden_apple"@,
        "Golden Apples Eaten"@,
    ).insert(
        "minecraft:enchanted_golden_apple"@,
        "Enchanted Golden Apples Eaten"@,
    ).insert(
        "minecraft:potion"@,
        "Potions Drunk"@,
    ).insert(
        "minecraft:wooden_pickaxe"@,
        "Wooden Pickaxes Used"@,
    ).insert(
        "minecraft:stone_pickaxe"@,
        "Stone Pickaxes Used"@,
    ).insert(
        "minecraft:iron_pickaxe"@,
        "Iron Pickaxes Used"@,
    ).insert(
        "minecraft:golden_pickaxe"@,
        "Golden Pickaxes Used"@,
    ).insert(
        "minecraft:diamond_pickaxe"@,
        "Diamond Pickaxes Used"@,
    ).insert(
        "minecraft:netherite_pickaxe"@,
        "Netherite Pickaxes Used"@,
    ).insert(
        "minecraft:water_bucket"@,
        "Water Buckets Used"@,
    ).insert(
        "minecraft:lava_bucket"@,
        "Lava Buckets Used"@,
    ).insert(
        "minecraft:milk_bucket"@,
        "Milk Buckets Used"@,
    ).insert(
        "minecraft:ender_pearl"@,
        "Ender Pearls Thrown"@,
    ).insert(
        "minecraft:snowball"@,
        "Snowballs Thrown"@,
    ).insert(
        "minecraft:egg"@,
        "Eggs Thrown"@,
    )
}

/// Build the table of display names for used item statistics.
pub fn create_used_stat_names() -> (m: StatNames)
    ensures
        m@ == spec_used_stat_names(),
{
    let mut m = StatNames::new();
    m.insert("minecraft:apple", "Apples Eaten");
    m.insert("minecraft:mushroom_stew", "Mushroom Stew Eaten");
    m.insert("minecraft:bread", "Bread Eaten");
    m.insert("minecraft:porkchop", "Raw Porkchops Eaten");
    m.insert("minecraft:cooked_porkchop", "Cooked Porkchops Eaten");
    m.insert("minecraft:golden_apple", "Golden Apples Eaten");
    m.insert("minecraft:enchanted_golden_apple", "Enchanted Golden Apples Eaten");
    m.insert("minecraft:potion", "Potions Drunk");
    m.insert("minecraft:wooden_pickaxe", "Wooden Pickaxes Used");
    m.insert("minecraft:stone_pickaxe", "Stone Pickaxes Used");
    m.insert("minecraft:iron_pickaxe", "Iron Pickaxes Used");
    m.insert("minecraft:golden_pickaxe", "Golden Pickaxes Used");
    m.insert("minecraft:diamond_pickaxe", "Diamond Pickaxes Used");
    m.insert("minecraft:netherite_pickaxe", "Netherite Pickaxes Used");
    m.insert("minecraft:water_bucket", "Water Buckets Used");
    m.insert("minecraft:lava_bucket", "Lava Buckets Used");
    m.insert("minecraft:milk_bucket", "Milk Buckets Used");
    m.insert("minecraft:ender_pearl", "Ender Pearls Thrown");
    m.insert("minecraft:snowball", "Snowballs Thrown");
    m.insert("minecraft:egg", "Eggs Thrown");
    m
}

/// The table of display names for broken item statistics.
pub open spec fn spec_broken_stat_names() -> Map<Seq<char>, Seq<char>> {
    Map::<Seq<char>, Seq<char>>::empty().insert(
        "minecraft:wooden_pickaxe"@,
        "Wooden Pickaxes Broken"@,
    ).insert(
        "minecraft:stone_pickaxe"@,
        "Stone Pickaxes Broken"@,
    ).insert(
        "minecraft:iron_pickaxe"@,
        "Iron Pickaxes Broken"@,
    ).insert(
        "minecraft:golden_pickaxe"@,
        "Golden Pickaxes Broken"@,
    ).insert(
        "minecraft:diamond_pickaxe"@,
        "Diamond Pickaxes Broken"@,
    ).insert(
        "minecraft:netherite_pickaxe"@,
        "Netherite Pickaxes Broken"@,
    ).insert(
        "minecraft:wooden_sword"@,
        "Wooden Swords Broken"@,
    ).insert(
        "minecraft:stone_sword"@,
        "Stone Swords Broken"@,
    ).insert(
        "minecraft:iron_sword"@,
        "Iron Swords Broken"@,
    ).insert(
        "minecraft:golden_sword"@,
        "Golden Swords Broken"@,
    ).insert(
        "minecraft:diamond_sword"@,
        "Diamond Swords Broken"@,
    ).insert(
        "minecraft:netherite_sword"@,
        "Netherite Swords Broken"@,
    ).insert(
        "minecraft:leather_helmet"@,
        "Leather Helmets Broken"@,
    ).insert(
        "minecraft:iron_helmet"@,
        "Iron Helmets Broken"@,
    ).insert(
        "minecraft:diamond_helmet"@,
        "Diamond Helmets Broken"@,
    ).insert(
        "minecraft:netherite_helmet"@,
        "Netherite Helmets Broken"@,
    )
}

/// Build the table of display names for broken item statistics.
pub fn create_broken_stat_names() -> (m: StatNames)
    ensures
        m@ == spec_broken_stat_names(),
{
    let mut m = StatNames::new();
    m.insert("minecraft:wooden_pickaxe", "Wooden Pickaxes Broken");
    m.insert("minecraft:stone_pickaxe", "Stone Pickaxes Broken");
    m.insert("minecraft:iron_pickaxe", "Iron Pickaxes Broken");
    m.insert("minecraft:golden_pickaxe", "Golden Pickaxes Broken");
    m.insert("minecraft:diamond_pickaxe", "Diamond Pickaxes Broken");
    m.insert("minecraft:netherite_pickaxe", "Netherite Pickaxes Broken");
    m.insert("minecraft:wooden_sword", "Wooden Swords Broken");
    m.insert("minecraft:stone_sword", "Stone Swords Broken");
    m.insert("minecraft:iron_sword", "Iron Swords Broken");
    m.insert("minecraft:golden_sword", "Golden Swords Broken");
    m.insert("minecraft:diamond_sword", "Diamond Swords Broken");
    m.insert("minecraft:netherite_sword", "Netherite Swords Broken");
    m.insert("minecraft:leather_helmet", "Leather Helmets Broken");
    m.insert("minecraft:iron_helmet", "Iron Helmets Broken");
    m.insert("minecraft:diamond_helmet", "Diamond Helmets Broken");
    m.insert("minecraft:netherite_helmet", "Netherite Helmets Broken");
    m
}

/// The table of display names for picked up item statistics.
pub open spec fn spec_picked_up_stat_names() -> Map<Seq<char>, Seq<char>> {
    Map::<Seq<char>, Seq<char>>::empty().insert(
        "minecraft:diamond"@,
        "Diamonds Picked Up"@,
    ).insert(
        "minecraft:iron_ingot"@,
        "Iron Ingots Picked Up"@,
    ).insert(
        "minecraft:gold_ingot"@,
        "Gold Ingots Picked Up"@,
    ).insert(
        "minecraft:netherite_ingot"@,
        "Netherite Ingots Picked Up"@,
    ).insert(
        "minecraft:emerald"@,
        "Emeralds Picked Up"@,
    ).insert(
        "minecraft:coal"@,
        "Coal Picked Up"@,
    ).insert(
        "minecraft:lapis_lazuli"@,
        "Lapis Lazuli Picked Up"@,
    ).insert(
        "minecraft:redstone"@,
        "Redstone Picked Up"@,
    ).insert(
        "minecraft:quartz"@,
        "Nether Quartz Picked Up"@,
    ).insert(
        "minecraft:apple"@,
        "Apples Picked Up"@,
    ).insert(
        "minecraft:arrow"@,
        "Arrows Picked Up"@,
    ).insert(
        "minecraft:bone"@,
        "Bones Picked Up"@,
    ).insert(
        "minecraft:string"@,
        "String Picked Up"@,
    ).insert(
        "minecraft:feather"@,
        "Feathers Picked Up"@,
    )
}

/// Build the table of display names for picked up item statistics.
pub fn create_picked_up_stat_names() -> (m: StatNames)
    ensures
        m@ == spec_picked_up_stat_names(),
{
    let mut m = StatNames::new();
    m.insert("minecraft:diamond", "Diamonds Picked Up");
    m.insert("minecraft:iron_ingot", "Iron Ingots Picked Up");
    m.insert("minecraft:gold_ingot", "Gold Ingots Picked Up");
    m.insert("minecraft:netherite_ingot", "Netherite Ingots Picked Up");
    m.insert("minecraft:emerald", "Emeralds Picked Up");
    m.insert("minecraft:coal", "Coal Picked Up");
    m.insert("minecraft:lapis_lazuli", "Lapis Lazuli Picked Up");
    m.insert("minecraft:redstone", "Redstone Picked Up");
    m.insert("minecraft:quartz", "Nether Quartz Picked Up");
    m.insert("minecraft:apple", "Apples Picked Up");
    m.insert("minecraft:arrow", "Arrows Picked Up");
    m.insert("minecraft:bone", "Bones Picked Up");
    m.insert("minecraft:string", "String Picked Up");
    m.insert("minecraft:feather", "Feathers Picked Up");
    m
}

/// The table of display names for dropped item statistics.
pub open spec fn spec_dropped_stat_names() -> Map<Seq<char>, Seq<char>> {
    Map::<Seq<char>, Seq<char>>::empty().insert(
        "minecraft:diamond"@,
        "Diamonds Dropped"@,
    ).insert(
        "minecraft:iron_ingot"@,
        "Iron Ingots Dropped"@,
    ).insert(
        "minecraft:gold_ingot"@,
        "Gold Ingots Dropped"@,
    ).insert(
        "minecraft:netherite_ingot"@,
        "Netherite Ingots Dropped"@,
    ).insert(
        "minecraft:emerald"@,
        "Emeralds Dropped"@,
    ).insert(
        "minecraft:coal"@,
        "Coal Dropped"@,
    ).insert(
        "minecraft:lapis_lazuli"@,
        "Lapis Lazuli Dropped"@,
    ).insert(
        "minecraft:redstone"@,
        "Redstone Dropped"@,
    ).insert(
        "minecraft:quartz"@,
        "Nether Quartz Dropped"@,
    ).insert(
        "minecraft:apple"@,
        "Apples Dropped"@,
    ).insert(
        "minecraft:arrow"@,
        "Arrows Dropped"@,
    ).insert(
        "minecraft:bone"@,
        "Bones Dropped"@,
    ).insert(
        "minecraft:string"@,
        "String Dropped"@,
    ).insert(
        "minecraft:feather"@,
        "Feathers Dropped"@,
    )
}

/// Build the table of display names for dropped item statistics.
pub fn create_dropped_stat_names() -> (m: StatNames)
    ensures
        m@ == spec_dropped_stat_names(),
{
    let mut m = StatNames::new();
    m.insert("minecraft:diamond", "Diamonds Dropped");
    m.insert("minecraft:iron_ingot", "Iron Ingots Dropped");
    m.insert("minecraft:gold_ingot", "Gold Ingots Dropped");
    m.insert("minecraft:netherite_ingot", "Netherite Ingots Dropped");
    m.insert("minecraft:emerald", "Emeralds Dropped");
    m.insert("minecraft:coal", "Coal Dropped");
    m.insert("minecraft:lapis_lazuli", "Lapis Lazuli Dropped");
    m.insert("minecraft:redstone", "Redstone Dropped");
    m.insert("minecraft:quartz", "Nether Quartz Dropped");
    m.insert("minecraft:apple", "Apples Dropped");
    m.insert("minecraft:arrow", "Arrows Dropped");
    m.insert("minecraft:bone", "Bones Dropped");
    m.insert("minecraft:string", "String Dropped");
    m.insert("minecraft:feather", "Feathers Dropped");
    m
}

/// The table of display names for killed entity statistics.
pub open spec fn spec_killed_stat_names() -> Map<Seq<char>, Seq<char>> {
    Map::<Seq<char>, Seq<char>>::empty().insert(
        "minecraft:zombie"@,
        "Zombies Killed"@,
    ).insert(
        "minecraft:skeleton"@,
        "Skeletons Killed"@,
    ).insert(
        "minecraft:creeper"@,
        "Creepers Killed"@,
    ).insert(
        "minecraft:spider"@,
        "Spiders Killed"@,
    ).insert(
        "minecraft:enderman"@,
        "Endermen Killed"@,
    ).insert(
        "minecraft:witch"@,
        "Witches Killed"@,
    ).insert(
        "minecraft:slime"@,
        "Slimes Killed"@,
    ).insert(
        "minecraft:phantom"@,
        "Phantoms Killed"@,
    ).insert(
        "minecraft:drowned"@,
        "Drowned Killed"@,
    ).insert(
        "minecraft:blaze"@,
        "Blazes Killed"@,
    ).insert(
        "minecraft:ghast"@,
        "Ghasts Killed"@,
    ).insert(
        "minecraft:magma_cube"@,
        "Magma Cubes Killed"@,
    ).insert(
        "minecraft:wither_skeleton"@,
        "Wither Skeletons Killed"@,
    ).insert(
        "minecraft:piglin"@,
        "Piglins Killed"@,
    ).insert(
        "minecraft:piglin_brute"@,
        "Piglin Brutes Killed"@,
    ).insert(
        "minecraft:hoglin"@,
        "Hoglins Killed"@,
    ).insert(
        "minecraft:zoglin"@,
        "Zoglins Killed"@,
    ).insert(
        "minecraft:pig"@,
        "Pigs Killed"@,
    ).insert(
        "minecraft:cow"@,
        "Cows Killed"@,
    ).insert(
        "minecraft:sheep"@,
        "Sheep Killed"@,
    ).insert(
        "minecraft:chicken"@,
        "Chickens Killed"@,
    ).insert(
        "minecraft:rabbit"@,
        "Rabbits Killed"@,
    ).insert(
        "minecraft:squid"@,
        "Squids Killed"@,
    ).insert(
        "minecraft:dolphin"@,
        "Dolphins Killed"@,
    ).insert(
        "minecraft:turtle"@,
        "Turtles Killed"@,
    ).insert(
        "minecraft:bat"@,
        "Bats Killed"@,
    ).insert(
        "minecraft:fox"@,
        "Foxes Killed"@,
    ).insert(
        "minecraft:ocelot"@,
        "Ocelots Killed"@,
    ).insert(
        "minecraft:strider"@,
        "Striders Killed"@,
    ).insert(
        "minecraft:ender_dragon"@,
        "Ender Dragons Killed"@,
    ).insert(
        "minecraft:wither"@,
        "Withers Killed"@,
    ).insert(
        "minecraft:elder_guardian"@,
        "Elder Guardians Killed"@,
    ).insert(
        "minecraft:player"@,
        "Players Killed"@,
    ).insert(
        "minecraft:villager"@,
        "Villagers Killed"@,
    )
}

/// Build the table of display names for killed entity statistics.
pub fn create_killed_stat_names() -> (m: StatNames)
    ensures
        m@ == spec_killed_stat_names(),
{
    let mut m = StatNames::new();
    m.insert("minecraft:zombie", "Zombies Killed");
    m.insert("minecraft:skeleton", "Skeletons Killed");
    m.insert("minecraft:creeper", "Creepers Killed");
    m.insert("minecraft:spider", "Spiders Killed");
    m.insert("minecraft:enderman", "Endermen Killed");
    m.insert("minecraft:witch", "Witches Killed");
    m.insert("minecraft:slime", "Slimes Killed");
    m.insert("minecraft:phantom", "Phantoms Killed");
    m.insert("minecraft:drowned", "Drowned Killed");
    m.insert("minecraft:blaze", "Blazes Killed");
    m.insert("minecraft:ghast", "Ghasts Killed");
    m.insert("minecraft:magma_cube", "Magma Cubes Killed");
    m.insert("minecraft:wither_skeleton", "Wither Skeletons Killed");
    m.insert("minecraft:piglin", "Piglins Killed");
    m.insert("minecraft:piglin_brute", "Piglin Brutes Killed");
    m.insert("minecraft:hoglin", "Hoglins Killed");
    m.insert("minecraft:zoglin", "Zoglins Killed");
    m.insert("minecraft:pig", "Pigs Killed");
    m.insert("minecraft:cow", "Cows Killed");
    m.insert("minecraft:sheep", "Sheep Killed");
    m.insert("minecraft:chicken", "Chickens Killed");
    m.insert("minecraft:rabbit", "Rabbits Killed");
    m.insert("minecraft:squid", "Squids Killed");
    m.insert("minecraft:dolphin", "Dolphins Killed");
    m.insert("minecraft:turtle", "Turtles Killed");
    m.insert("minecraft:bat", "Bats Killed");
    m.insert("minecraft:fox", "Foxes Killed");
    m.insert("minecraft:ocelot", "Ocelots Killed");
    m.insert("minecraft:strider", "Striders Killed");
    m.insert("minecraft:ender_dragon", "Ender Dragons Killed");
    m.insert("minecraft:wither", "Withers Killed");
    m.insert("minecraft:elder_guardian", "Elder Guardians Killed");
    m.insert("minecraft:player", "Players Killed");
    m.insert("minecraft:villager", "Villagers Killed");
    m
}

// ---------------------------------------------------------------------------
// Fallback rendering of identifiers
// ---------------------------------------------------------------------------

/// `c` uppercased when it is an ASCII lowercase letter, unchanged
/// otherwise.
pub open spec fn upper_char(c: char) -> char {
    if 'a' <= c <= 'z' {
        (c as int - 32) as char
    } else {
        c
    }
}

/// `c` lowercased when it is an ASCII uppercase letter, unchanged
/// otherwise.
pub open spec fn lower_char(c: char) -> char {
    if 'A' <= c <= 'Z' {
        (c as int + 32) as char
    } else {
        c
    }
}

/// A character that separates words once underscores have become spaces.
pub open spec fn is_word_break(c: char) -> bool {
    c == '_' || c == ' '
}

/// The index of the first `c` at or after `from`, or the length when
/// there is none.
pub open spec fn spec_find_char(s: Seq<char>, from: int, c: char) -> int
    decreases s.len() - from,
{
    if from < 0 || from >= s.len() {
        s.len() as int
    } else if s[from] == c {
        from
    } else {
        spec_find_char(s, from + 1, c)
    }
}

/// Where the first occurrence lands: at a `c`, past only non-`c`
/// characters, and within the sequence or just past its end.
pub proof fn lemma_find_char_shape(s: Seq<char>, from: int, c: char)
    requires
        0 <= from <= s.len(),
    ensures
        ({
            let r = spec_find_char(s, from, c);
            &&& from <= r <= s.len()
            &&& r < s.len() ==> s[r] == c
            &&& forall|j: int| from <= j < r ==> s[j] != c
        }),
    decreases s.len() - from,
{
    if from < s.len() && s[from] != c {
        lemma_find_char_shape(s, from + 1, c);
    }
}

/// The identifier's display segment: everything between the first colon
/// and the next colon or the end.
pub open spec fn spec_key_segment(s: Seq<char>) -> Seq<char> {
    let ci = spec_find_char(s, 0, ':');
    let cj = spec_find_char(s, ci + 1, ':');
    s.subrange(ci + 1, cj)
}

/// The segment rendered readably: an underscore becomes a space; a
/// character that opens a word — at the start, or after an underscore or
/// space — is uppercased; every other character is lowercased.
pub open spec fn spec_readable_segment(seg: Seq<char>) -> Seq<char> {
    Seq::new(
        seg.len(),
        |i: int|
            if is_word_break(seg[i]) {
                ' '
            } else if i == 0 || is_word_break(seg[i - 1]) {
                upper_char(seg[i])
            } else {
                lower_char(seg[i])
            },
    )
}

/// A raw identifier rendered readably: its segment after the first colon,
/// underscores as spaces, each word capitalized.
pub open spec fn spec_convert_to_readable(s: Seq<char>) -> Seq<char> {
    spec_readable_segment(spec_key_segment(s))
}

/// An identifier [`convert_to_readable`] accepts: ASCII, with a colon,
/// and a display segment whose words are all nonempty.
pub open spec fn convertible_key(s: Seq<char>) -> bool {
    let ci = spec_find_char(s, 0, ':');
    let seg = spec_key_segment(s);
    &&& vstd::utf8::is_ascii_chars(s)
    &&& ci < s.len()
    &&& seg.len() > 0
    &&& !is_word_break(seg[0])
    &&& !is_word_break(seg[seg.len() - 1])
    &&& forall|i: int|
        0 < i < seg.len() ==> !(is_word_break(#[trigger] seg[i - 1]) && is_word_break(seg[i]))
}

/// Render a raw identifier such as `minecraft:play_time` readably: take
/// the segment after the colon, turn underscores into spaces, and
/// capitalize each word.
pub fn convert_to_readable(key: &str) -> (r: String)
    requires
        convertible_key(key@),
    ensures
        r@ == spec_convert_to_readable(key@),
{
    proof {
        vstd::string::is_ascii_spec_bytes(key);
    }
    let bytes = key.as_bytes_vec();
    let n = bytes.len();
    let ghost s = key@;
    proof {
        assert(bytes@.len() == s.len());
        assert(forall|j: int| 0 <= j < s.len() ==> bytes@[j] == (#[trigger] s[j]) as u8);
        lemma_find_char_shape(s, 0, ':');
    }
    // find the first colon
    let mut ci: usize = 0;
    while ci < n && bytes[ci] != 58
        invariant
            0 <= ci <= n,
            n == s.len(),
            bytes@.len() == s.len(),
            forall|j: int| 0 <= j < s.len() ==> bytes@[j] == (#[trigger] s[j]) as u8,
            forall|j: int| 0 <= j < ci ==> s[j] != ':',
        decreases n - ci,
    {
        proof {
            assert(s[ci as int] as u8 != 58);
        }
        ci = ci + 1;
    }
    proof {
        assert(ci == spec_find_char(s, 0, ':')) by {
            lemma_find_char_shape(s, 0, ':');
            if ci < n {
                assert(s[ci as int] as u8 == 58);
                assert(s[ci as int] == ':');
            }
        }
    }
    // find the next colon, or the end
    let mut cj: usize = ci + 1;
    while cj < n && bytes[cj] != 58
        invariant
            ci + 1 <= cj <= n,
            n == s.len(),
            ci < s.len(),
            bytes@.len() == s.len(),
            forall|j: int| 0 <= j < s.len() ==> bytes@[j] == (#[trigger] s[j]) as u8,
            forall|j: int| ci < j < cj ==> s[j] != ':',
        decreases n - cj,
    {
        proof {
            assert(s[cj as int] as u8 != 58);
        }
        cj = cj + 1;
    }
    proof {
        assert(cj == spec_find_char(s, ci + 1, ':')) by {
            lemma_find_char_shape(s, ci + 1, ':');
            if cj < n {
                assert(s[cj as int] as u8 == 58);
                assert(s[cj as int] == ':');
            }
        }
    }
    let ghost seg = spec_key_segment(s);
    let ghost t = spec_readable_segment(seg);
    // render the segment byte by byte
    let mut out: Vec<u8> = Vec::new();
    let mut i: usize = ci + 1;
    while i < cj
        invariant
            ci + 1 <= i <= cj <= n,
            n == s.len(),
            bytes@.len() == s.len(),
            forall|j: int| 0 <= j < s.len() ==> bytes@[j] == (#[trigger] s[j]) as u8,
            vstd::utf8::is_ascii_chars(s),
            seg == s.subrange(ci + 1, cj as int),
            t == spec_readable_segment(seg),
            out@.len() == i - (ci + 1),
            forall|j: int| 0 <= j < out@.len() ==> out@[j] == (#[trigger] t[j]) as u8,
        decreases cj - i,
    {
        let b = bytes[i];
        let ghost k = i - (ci + 1);
        proof {
            assert(seg[k] == s[i as int]);
            assert(b == seg[k] as u8);
            assert((seg[k] as int) < 128);
            if k > 0 {
                assert(seg[k - 1] == s[i as int - 1]);
            }
        }
        let prev_break: bool = if i == ci + 1 {
            false
        } else {
            let pb = bytes[i - 1];
            pb == 95 || pb == 32
        };
        let ob: u8 = if b == 95 || b == 32 {
            32
        } else if i == ci + 1 || prev_break {
            if 97 <= b && b <= 122 {
                b - 32
            } else {
                b
            }
        } else {
            if 65 <= b && b <= 90 {
                b + 32
            } else {
                b
            }
        };
        proof {
            assert(ob == t[k] as u8);
        }
        out.push(ob);
        i = i + 1;
    }
    proof {
        assert(vstd::utf8::is_ascii_chars(t)) by {
            assert forall|j: int| 0 <= j < t.len() implies ((#[trigger] t[j]) as nat) < 128 by {
                assert(seg[j] == s[ci + 1 + j]);
                if j > 0 {
                    assert(seg[j - 1] == s[ci + j]);
                }
            }
        }
        vstd::utf8::is_ascii_chars_encode_utf8(t);
        assert(vstd::utf8::encode_utf8(t) =~= out@);
        vstd::utf8::encode_utf8_valid_utf8(t);
        vstd::utf8::encode_utf8_decode_utf8(t);
    }
    match crate::text::utf8_to_string(out) {
        Some(r) => r,
        None => String::new(),
    }
}

/// Render an identifier readably when [`convert_to_readable`] accepts it.
pub fn try_convert_to_readable(key: &str) -> (r: Option<String>)
    ensures
        match r {
            Some(v) => convertible_key(key@) && v@ == spec_convert_to_readable(key@),
            None => !convertible_key(key@),
        },
{
    if !key.is_ascii() {
        return None;
    }
    proof {
        vstd::string::is_ascii_spec_bytes(key);
    }
    let bytes = key.as_bytes_vec();
    let n = bytes.len();
    let ghost s = key@;
    // scan once to check the shape: a colon, then a nonempty segment with
    // no empty words
    let mut ci: usize = 0;
    while ci < n && bytes[ci] != 58
        invariant
            0 <= ci <= n,
            n == s.len(),
            bytes@.len() == s.len(),
            forall|j: int| 0 <= j < s.len() ==> bytes@[j] == (#[trigger] s[j]) as u8,
            forall|j: int| 0 <= j < ci ==> s[j] != ':',
        decreases n - ci,
    {
        proof {
            assert(s[ci as int] as u8 != 58);
        }
        ci = ci + 1;
    }
    proof {
        assert(ci == spec_find_char(s, 0, ':')) by {
            lemma_find_char_shape(s, 0, ':');
            if ci < n {
                assert(s[ci as int] as u8 == 58);
                assert(s[ci as int] == ':');
            }
        }
    }
    if ci == n {
        return None;
    }
    let mut cj: usize = ci + 1;
    while cj < n && bytes[cj] != 58
        invariant
            ci + 1 <= cj <= n,
            n == s.len(),
            ci < s.len(),
            bytes@.len() == s.len(),
            forall|j: int| 0 <= j < s.len() ==> bytes@[j] == (#[trigger] s[j]) as u8,
            forall|j: int| ci < j < cj ==> s[j] != ':',
        decreases n - cj,
    {
        proof {
            assert(s[cj as int] as u8 != 58);
        }
        cj = cj + 1;
    }
    proof {
        assert(cj == spec_find_char(s, ci + 1, ':')) by {
            lemma_find_char_shape(s, ci + 1, ':');
            if cj < n {
                assert(s[cj as int] as u8 == 58);
                assert(s[cj as int] == ':');
            }
        }
    }
    let ghost seg = spec_key_segment(s);
    if cj == ci + 1 {
        return None;
    }
    let mut i: usize = ci + 1;
    let mut prev_was_break = true;
    while i < cj
        invariant
            s == key@,
            ci + 1 <= i <= cj <= n,
            n == s.len(),
            ci < s.len(),
            bytes@.len() == s.len(),
            vstd::utf8::is_ascii_chars(s),
            forall|j: int| 0 <= j < s.len() ==> bytes@[j] == (#[trigger] s[j]) as u8,
            ci == spec_find_char(s, 0, ':'),
            cj == spec_find_char(s, ci + 1, ':'),
            seg == s.subrange(ci + 1, cj as int),
            seg == spec_key_segment(s),
            seg.len() > 0,
            i > ci + 1 ==> prev_was_break == is_word_break(seg[i - (ci + 1) - 1]),
            i == ci + 1 ==> prev_was_break,
            forall|j: int|
                0 < j < i - (ci + 1) ==> !(is_word_break(#[trigger] seg[j - 1]) && is_word_break(
                    seg[j],
                )),
            i > ci + 1 ==> !is_word_break(seg[0]),
        decreases cj - i,
    {
        let b = bytes[i];
        let ghost k = i - (ci + 1);
        proof {
            assert(seg[k] == s[i as int]);
            assert(b == seg[k] as u8);
            assert((seg[k] as nat) < 128);
        }
        let this_break = b == 95 || b == 32;
        proof {
            assert(this_break == is_word_break(seg[k])) by {
                vstd::utf8::char_u32_cast(seg[k], seg[k] as u32);
            }
        }
        if prev_was_break && this_break {
            proof {
                if k == 0 {
                    assert(is_word_break(seg[0]));
                } else {
                    assert(is_word_break(seg[k - 1]) && is_word_break(seg[k]));
                }
                assert(!convertible_key(s));
            }
            return None;
        }
        prev_was_break = this_break;
        i = i + 1;
    }
    if prev_was_break {
        return None;
    }
    proof {
        assert(!is_word_break(seg[seg.len() - 1]));
        assert(convertible_key(s));
    }
    Some(convert_to_readable(key))
}

} // verus!
