use game_booster::cpu::CpuPriority;
use game_booster::profiles::{GamingProfile, ProfileManager};

#[test]
fn presets_are_distinct_and_tuned() {
    let presets = GamingProfile::get_all_presets();
    let ids: Vec<&str> = presets.iter().map(|p| p.id.as_str()).collect();
    assert_eq!(ids, ["valorant", "league", "cs2", "apex", "fortnite", "overwatch2"]);
    let cs2 = GamingProfile::cs2();
    assert_eq!(cs2.game_affinity, Some(vec![0, 1, 2, 3]));
    assert_eq!(cs2.background_cpu_limit, Some(5));
    assert_eq!(cs2.background_priority, CpuPriority::Idle);
    let fortnite = GamingProfile::fortnite();
    assert_eq!(fortnite.background_network_limit, Some(512));
    assert_eq!(fortnite.ram_threshold, 75);
    let default = GamingProfile::default();
    assert_eq!(default.id, "default");
    assert_eq!(default.ram_threshold, 85);
}

#[test]
fn manager_activation() {
    let mut m = ProfileManager::new();
    assert_eq!(m.get_all_profiles().len(), 6);
    assert!(m.get_active_profile().is_none());
    assert!(m.activate_profile("cs2").is_ok());
    assert_eq!(m.get_active_profile().unwrap().name, "Counter-Strike 2");
    assert_eq!(m.activate_profile("nope"), Err("Profile not found: nope".to_string()));
    assert_eq!(m.get_active_profile().unwrap().id, "cs2");
    m.deactivate_profile();
    assert!(m.get_active_profile().is_none());
}

#[test]
fn manager_add_replaces_by_id() {
    let mut m = ProfileManager::new();
    let mut custom = GamingProfile::default();
    custom.id = "mine".to_string();
    m.add_profile(custom);
    assert_eq!(m.get_all_profiles().len(), 7);
    let mut again = GamingProfile::valorant();
    again.ram_threshold = 60;
    m.add_profile(again);
    assert_eq!(m.get_all_profiles().len(), 7);
    assert_eq!(m.get_profile("valorant").unwrap().ram_threshold, 60);
    assert!(m.get_profile("missing").is_none());
}

#[test]
fn priority_descriptions() {
    assert_eq!(CpuPriority::Normal.description(), "Normal - Standard priority");
    assert_eq!(
        CpuPriority::Realtime.description(),
        "Realtime - Highest priority, DANGEROUS if misused!"
    );
}
