use stats_parser::cache::{find_uuid, Findable, UserCache};
use stats_parser::names::{
    convert_to_readable, create_broken_stat_names, create_crafted_stat_names,
    create_custom_stat_names, create_dropped_stat_names, create_killed_by_stat_names,
    create_killed_stat_names, create_mined_stat_names, create_picked_up_stat_names,
    create_used_stat_names, try_convert_to_readable, StatNames,
};
use stats_parser::stats::{MinecraftStats, StatCategories, StatMap};

fn categories_with_custom(custom: StatMap) -> MinecraftStats {
    MinecraftStats {
        stats: StatCategories {
            custom,
            mined: None,
            crafted: None,
            used: None,
            broken: None,
            picked_up: None,
            dropped: None,
            killed: None,
            killed_by: None,
            custom_entity: None,
        },
        data_version: 3465,
    }
}

#[test]
fn killed_by_table_entries() {
    let t = create_killed_by_stat_names();
    assert_eq!(t.get("minecraft:zombie").as_deref(), Some("Killed by Zombies"));
    assert_eq!(t.get("minecraft:player").as_deref(), Some("Killed by Players"));
    assert_eq!(t.get("minecraft:armadillo"), None);
}

#[test]
fn custom_table_entries() {
    let t = create_custom_stat_names();
    assert_eq!(t.get("minecraft:play_time").as_deref(), Some("Play Time"));
    assert_eq!(
        t.get("minecraft:damage_dealt_absorbed").as_deref(),
        Some("Damage Dealt (Absorbed)")
    );
    assert_eq!(t.get("minecraft:raid_win").as_deref(), Some("Raids Won"));
}

#[test]
fn mined_table_entries() {
    let t = create_mined_stat_names();
    assert_eq!(t.get("minecraft:deepslate_emerald_ore").as_deref(), Some("Deepslate Emerald Ore Mined"));
}

#[test]
fn crafted_table_entries() {
    let t = create_crafted_stat_names();
    assert_eq!(t.get("minecraft:netherite_sword").as_deref(), Some("Netherite Swords Crafted"));
}

#[test]
fn used_table_entries() {
    let t = create_used_stat_names();
    assert_eq!(t.get("minecraft:ender_pearl").as_deref(), Some("Ender Pearls Thrown"));
}

#[test]
fn broken_table_entries() {
    let t = create_broken_stat_names();
    assert_eq!(t.get("minecraft:leather_helmet").as_deref(), Some("Leather Helmets Broken"));
}

#[test]
fn picked_up_table_entries() {
    let t = create_picked_up_stat_names();
    assert_eq!(t.get("minecraft:lapis_lazuli").as_deref(), Some("Lapis Lazuli Picked Up"));
}

#[test]
fn dropped_table_entries() {
    let t = create_dropped_stat_names();
    assert_eq!(t.get("minecraft:feather").as_deref(), Some("Feathers Dropped"));
}

#[test]
fn killed_table_entries() {
    let t = create_killed_stat_names();
    assert_eq!(t.get("minecraft:ender_dragon").as_deref(), Some("Ender Dragons Killed"));
    assert_eq!(t.get("minecraft:villager").as_deref(), Some("Villagers Killed"));
}

#[test]
fn stat_names_insert_replaces() {
    let mut t = StatNames::new();
    t.insert("minecraft:stone", "First");
    t.insert("minecraft:stone", "Second");
    assert_eq!(t.get("minecraft:stone").as_deref(), Some("Second"));
}

#[test]
fn readable_name_of_categories() {
    assert_eq!(MinecraftStats::get_readable_name("minecraft:custom"), "Custom Statistic");
    assert_eq!(MinecraftStats::get_readable_name("minecraft:killed_by"), "Killed By Statistic");
    assert_eq!(MinecraftStats::get_readable_name("minecraft:something"), "Unknown Statistic");
}

#[test]
fn common_custom_stats_picks_counters() {
    let mut custom = StatMap::new();
    custom.insert("minecraft:play_time", 123456);
    custom.insert("minecraft:deaths", 7);
    custom.insert("minecraft:jump", 4242);
    let stats = categories_with_custom(custom);
    let common = stats.get_common_custom_stats();
    assert_eq!(common.play_time, Some(123456));
    assert_eq!(common.deaths, Some(7));
    assert_eq!(common.jump, Some(4242));
    assert_eq!(common.walk_one_cm, None);
    assert_eq!(common.raid_win, None);
}

#[test]
fn stat_map_insert_replaces() {
    let mut m = StatMap::new();
    m.insert("minecraft:deaths", 1);
    m.insert("minecraft:deaths", 2);
    assert_eq!(m.get("minecraft:deaths"), Some(2));
    assert_eq!(m.get("minecraft:jump"), None);
}

#[test]
fn convert_identifier_to_readable() {
    assert_eq!(convert_to_readable("minecraft:play_time"), "Play Time");
    assert_eq!(convert_to_readable("minecraft:jump"), "Jump");
    assert_eq!(
        convert_to_readable("minecraft:walk_under_water_one_cm"),
        "Walk Under Water One Cm"
    );
    assert_eq!(convert_to_readable("minecraft:DAMAGE_dealt"), "Damage Dealt");
}

#[test]
fn convert_takes_segment_after_first_colon() {
    assert_eq!(convert_to_readable("a:bc:d"), "Bc");
}

#[test]
fn try_convert_rejects_malformed_identifiers() {
    assert_eq!(try_convert_to_readable("no_colon_here"), None);
    assert_eq!(try_convert_to_readable("minecraft:"), None);
    assert_eq!(try_convert_to_readable("minecraft:_x"), None);
    assert_eq!(try_convert_to_readable("minecraft:x_"), None);
    assert_eq!(try_convert_to_readable("minecraft:a__b"), None);
    assert_eq!(
        try_convert_to_readable("minecraft:mob_kills").as_deref(),
        Some("Mob Kills")
    );
}

#[test]
fn find_player_by_uuid() {
    let cache = vec![
        UserCache::new("Alice".to_string(), "u-1".to_string(), "2024-01-01".to_string()),
        UserCache::new("Bob".to_string(), "u-2".to_string(), "2024-01-02".to_string()),
    ];
    assert_eq!("u-2".to_string().find_player(cache.clone()), "Bob");
    assert_eq!("u-9".to_string().find_player(cache), "Unknown");
}

#[test]
fn find_uuid_by_name() {
    let cache = vec![
        UserCache::new("Alice".to_string(), "u-1".to_string(), "2024-01-01".to_string()),
        UserCache::new("Bob".to_string(), "u-2".to_string(), "2024-01-02".to_string()),
    ];
    assert_eq!(find_uuid("Alice", &cache), "u-1");
    assert_eq!(find_uuid("Carol", &cache), "");
}

#[test]
fn user_cache_keeps_expiry() {
    let entry = UserCache::new("A".to_string(), "u".to_string(), "2024-06-30".to_string());
    assert_eq!(entry.expires_on(), "2024-06-30");
}
