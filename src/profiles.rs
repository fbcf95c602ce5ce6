//! Gaming profiles: presets for popular games and a manager that holds them
//! and knows which one is active.

use vstd::prelude::*;
use crate::cpu::CpuPriority;
use crate::disk::{default_disk_options, DiskCleaningOptions};
use crate::text::append;

verus! {

/// How the machine is tuned while one game runs.
#[derive(Clone, Debug)]
pub struct GamingProfile {
    pub id: String,
    pub name: String,
    /// The game's executable, e.g. `cs2.exe`.
    pub game_executable: String,
    pub description: String,
    pub icon: String,
    pub auto_clean_ram: bool,
    /// Memory usage, in percent, at which memory is cleaned.
    pub ram_threshold: u8,
    pub clean_disk_before_launch: bool,
    pub disk_options: DiskCleaningOptions,
    pub game_priority: CpuPriority,
    /// The cores the game is pinned to.
    pub game_affinity: Option<Vec<usize>>,
    pub limit_background_apps: bool,
    pub background_priority: CpuPriority,
    /// Percent of the CPU left to background programs.
    pub background_cpu_limit: Option<u32>,
    pub network_priority: bool,
    pub limit_background_network: bool,
    /// KB/s left to background programs.
    pub background_network_limit: Option<u32>,
    pub disable_defender: bool,
    pub disable_windows_update: bool,
    pub disable_superfetch: bool,
    pub enable_game_mode: bool,
    pub disable_fullscreen_optimizations: bool,
}

/// The balanced default profile.
pub open spec fn default_profile_spec(p: GamingProfile) -> bool {
    &&& p.id@ == "default"@
    &&& p.name@ == "Default Gaming Profile"@
    &&& p.game_executable@ == "game.exe"@
    &&& p.description@ == "Balanced gaming optimization"@
    &&& p.icon@ == "🎮"@
    &&& p.auto_clean_ram == true
    &&& p.ram_threshold == 85
    &&& p.clean_disk_before_launch == false
    &&& p.disk_options == default_disk_options()
    &&& p.game_priority == CpuPriority::High
    &&& p.game_affinity is None
    &&& p.limit_background_apps == true
    &&& p.background_priority == CpuPriority::BelowNormal
    &&& p.background_cpu_limit == Some(10u32)
    &&& p.network_priority == true
    &&& p.limit_background_network == true
    &&& p.background_network_limit == Some(512u32)
    &&& p.disable_defender == false
    &&& p.disable_windows_update == true
    &&& p.disable_superfetch == true
    &&& p.enable_game_mode == true
    &&& p.disable_fullscreen_optimizations == false
}

/// Valorant's preset: CPU and network first.
pub open spec fn valorant_spec(p: GamingProfile) -> bool {
    &&& p.id@ == "valorant"@
    &&& p.name@ == "Valorant"@
    &&& p.game_executable@ == "VALORANT-Win64-Shipping.exe"@
    &&& p.description@ == "Optimized for Valorant - Focus on CPU and network"@
    &&& p.icon@ == "🎯"@
    &&& p.auto_clean_ram == true
    &&& p.ram_threshold == 80
    &&& p.clean_disk_before_launch == false
    &&& p.disk_options == default_disk_options()
    &&& p.game_priority == CpuPriority::High
    &&& p.game_affinity is None
    &&& p.limit_background_apps == true
    &&& p.background_priority == CpuPriority::Idle
    &&& p.background_cpu_limit == Some(10u32)
    &&& p.network_priority == true
    &&& p.limit_background_network == true
    &&& p.background_network_limit == Some(256u32)
    &&& p.disable_defender == false
    &&& p.disable_windows_update == true
    &&& p.disable_superfetch == true
    &&& p.enable_game_mode == true
    &&& p.disable_fullscreen_optimizations == false
}

/// League of Legends' preset.
pub open spec fn league_of_legends_spec(p: GamingProfile) -> bool {
    &&& p.id@ == "league"@
    &&& p.name@ == "League of Legends"@
    &&& p.game_executable@ == "League of Legends.exe"@
    &&& p.description@ == "Optimized for League of Legends"@
    &&& p.icon@ == "⚔️"@
    &&& p.auto_clean_ram == true
    &&& p.ram_threshold == 75
    &&& p.clean_disk_before_launch == false
    &&& p.disk_options == default_disk_options()
    &&& p.game_priority == CpuPriority::High
    &&& p.game_affinity is None
    &&& p.limit_background_apps == true
    &&& p.background_priority == CpuPriority::BelowNormal
    &&& p.background_cpu_limit == Some(10u32)
    &&& p.network_priority == true
    &&& p.limit_background_network == true
    &&& p.background_network_limit == Some(512u32)
    &&& p.disable_defender == false
    &&& p.disable_windows_update == true
    &&& p.disable_superfetch == true
    &&& p.enable_game_mode == true
    &&& p.disable_fullscreen_optimizations == false
}

/// Counter-Strike 2's preset: maximum performance on the first four cores.
pub open spec fn cs2_spec(p: GamingProfile) -> bool {
    &&& p.id@ == "cs2"@
    &&& p.name@ == "Counter-Strike 2"@
    &&& p.game_executable@ == "cs2.exe"@
    &&& p.description@ == "Optimized for CS2 - Maximum performance"@
    &&& p.icon@ == "🔫"@
    &&& p.auto_clean_ram == true
    &&& p.ram_threshold == 85
    &&& p.clean_disk_before_launch == false
    &&& p.disk_options == default_disk_options()
    &&& p.game_priority == CpuPriority::High
    &&& p.game_affinity matches Some(cores) && cores@ == seq![0usize, 1, 2, 3]
    &&& p.limit_background_apps == true
    &&& p.background_priority == CpuPriority::Idle
    &&& p.background_cpu_limit == Some(5u32)
    &&& p.network_priority == true
    &&& p.limit_background_network == true
    &&& p.background_network_limit == Some(128u32)
    &&& p.disable_defender == false
    &&& p.disable_windows_update == true
    &&& p.disable_superfetch == true
    &&& p.enable_game_mode == true
    &&& p.disable_fullscreen_optimizations == true
}

/// Apex Legends' preset.
pub open spec fn apex_legends_spec(p: GamingProfile) -> bool {
    &&& p.id@ == "apex"@
    &&& p.name@ == "Apex Legends"@
    &&& p.game_executable@ == "r5apex.exe"@
    &&& p.description@ == "Optimized for Apex Legends"@
    &&& p.icon@ == "🏆"@
    &&& p.auto_clean_ram == true
    &&& p.ram_threshold == 80
    &&& p.clean_disk_before_launch == false
    &&& p.disk_options == default_disk_options()
    &&& p.game_priority == CpuPriority::High
    &&& p.game_affinity is None
    &&& p.limit_background_apps == true
    &&& p.background_priority == CpuPriority::BelowNormal
    &&& p.background_cpu_limit == Some(10u32)
    &&& p.network_priority == true
    &&& p.limit_background_network == true
    &&& p.background_network_limit == Some(256u32)
    &&& p.disable_defender == false
    &&& p.disable_windows_update == true
    &&& p.disable_superfetch == true
    &&& p.enable_game_mode == true
    &&& p.disable_fullscreen_optimizations == false
}

/// Fortnite's preset.
pub open spec fn fortnite_spec(p: GamingProfile) -> bool {
    &&& p.id@ == "fortnite"@
    &&& p.name@ == "Fortnite"@
    &&& p.game_executable@ == "FortniteClient-Win64-Shipping.exe"@
    &&& p.description@ == "Optimized for Fortnite"@
    &&& p.icon@ == "🏗️"@
    &&& p.auto_clean_ram == true
    &&& p.ram_threshold == 75
    &&& p.clean_disk_before_launch == false
    &&& p.disk_options == default_disk_options()
    &&& p.game_priority == CpuPriority::High
    &&& p.game_affinity is None
    &&& p.limit_background_apps == true
    &&& p.background_priority == CpuPriority::BelowNormal
    &&& p.background_cpu_limit == Some(10u32)
    &&& p.network_priority == true
    &&& p.limit_background_network == true
    &&& p.background_network_limit == Some(512u32)
    &&& p.disable_defender == false
    &&& p.disable_windows_update == true
    &&& p.disable_superfetch == true
    &&& p.enable_game_mode == true
    &&& p.disable_fullscreen_optimizations == false
}

/// Overwatch 2's preset.
pub open spec fn overwatch2_spec(p: GamingProfile) -> bool {
    &&& p.id@ == "overwatch2"@
    &&& p.name@ == "Overwatch 2"@
    &&& p.game_executable@ == "Overwatch.exe"@
    &&& p.description@ == "Optimized for Overwatch 2"@
    &&& p.icon@ == "🎮"@
    &&& p.auto_clean_ram == true
    &&& p.ram_threshold == 80
    &&& p.clean_disk_before_launch == false
    &&& p.disk_options == default_disk_options()
    &&& p.game_priority == CpuPriority::High
    &&& p.game_affinity is None
    &&& p.limit_background_apps == true
    &&& p.background_priority == CpuPriority::BelowNormal
    &&& p.background_cpu_limit == Some(10u32)
    &&& p.network_priority == true
    &&& p.limit_background_network == true
    &&& p.background_network_limit == Some(256u32)
    &&& p.disable_defender == false
    &&& p.disable_windows_update == true
    &&& p.disable_superfetch == true
    &&& p.enable_game_mode == true
    &&& p.disable_fullscreen_optimizations == false
}

impl Default for GamingProfile {
    fn default() -> (r: Self)
        ensures
            default_profile_spec(r),
    {
        GamingProfile {
            id: "default".to_owned(),
            name: "Default Gaming Profile".to_owned(),
            game_executable: "game.exe".to_owned(),
            description: "Balanced gaming optimization".to_owned(),
            icon: "🎮".to_owned(),
            auto_clean_ram: true,
            ram_threshold: 85,
            clean_disk_before_launch: false,
            disk_options: DiskCleaningOptions::default(),
            game_priority: CpuPriority::High,
            game_affinity: None,
            limit_background_apps: true,
            background_priority: CpuPriority::BelowNormal,
            background_cpu_limit: Some(10),
            network_priority: true,
            limit_background_network: true,
            background_network_limit: Some(512),
            disable_defender: false,
            disable_windows_update: true,
            disable_superfetch: true,
            enable_game_mode: true,
            disable_fullscreen_optimizations: false,
        }
    }
}

impl GamingProfile {
    /// Valorant's preset: CPU and network first.
    pub fn valorant() -> (r: Self)
        ensures
            valorant_spec(r),
    {
        GamingProfile {
            id: "valorant".to_owned(),
            name: "Valorant".to_owned(),
            game_executable: "VALORANT-Win64-Shipping.exe".to_owned(),
            description: "Optimized for Valorant - Focus on CPU and network".to_owned(),
            icon: "🎯".to_owned(),
            auto_clean_ram: true,
            ram_threshold: 80,
            clean_disk_before_launch: false,
            disk_options: DiskCleaningOptions::default(),
            game_priority: CpuPriority::High,
            game_affinity: None,
            limit_background_apps: true,
            background_priority: CpuPriority::Idle,
            background_cpu_limit: Some(10),
            network_priority: true,
            limit_background_network: true,
            background_network_limit: Some(256),
            disable_defender: false,
            disable_windows_update: true,
            disable_superfetch: true,
            enable_game_mode: true,
            disable_fullscreen_optimizations: false,
        }
    }

    /// League of Legends' preset.
    pub fn league_of_legends() -> (r: Self)
        ensures
            league_of_legends_spec(r),
    {
        GamingProfile {
            id: "league".to_owned(),
            name: "League of Legends".to_owned(),
            game_executable: "League of Legends.exe".to_owned(),
            description: "Optimized for League of Legends".to_owned(),
            icon: "⚔️".to_owned(),
            auto_clean_ram: true,
            ram_threshold: 75,
            clean_disk_before_launch: false,
            disk_options: DiskCleaningOptions::default(),
            game_priority: CpuPriority::High,
            game_affinity: None,
            limit_background_apps: true,
            background_priority: CpuPriority::BelowNormal,
            background_cpu_limit: Some(10),
            network_priority: true,
            limit_background_network: true,
            background_network_limit: Some(512),
            disable_defender: false,
            disable_windows_update: true,
            disable_superfetch: true,
            enable_game_mode: true,
            disable_fullscreen_optimizations: false,
        }
    }

    /// Counter-Strike 2's preset: maximum performance on the first four cores.
    pub fn cs2() -> (r: Self)
        ensures
            cs2_spec(r),
    {
        GamingProfile {
            id: "cs2".to_owned(),
            name: "Counter-Strike 2".to_owned(),
            game_executable: "cs2.exe".to_owned(),
            description: "Optimized for CS2 - Maximum performance".to_owned(),
            icon: "🔫".to_owned(),
            auto_clean_ram: true,
            ram_threshold: 85,
            clean_disk_before_launch: false,
            disk_options: DiskCleaningOptions::default(),
            game_priority: CpuPriority::High,
            game_affinity: Some(vec![0, 1, 2, 3]),
            limit_background_apps: true,
            background_priority: CpuPriority::Idle,
            background_cpu_limit: Some(5),
            network_priority: true,
            limit_background_network: true,
            background_network_limit: Some(128),
            disable_defender: false,
            disable_windows_update: true,
            disable_superfetch: true,
            enable_game_mode: true,
            disable_fullscreen_optimizations: true,
        }
    }

    /// Apex Legends' preset.
    pub fn apex_legends() -> (r: Self)
        ensures
            apex_legends_spec(r),
    {
        GamingProfile {
            id: "apex".to_owned(),
            name: "Apex Legends".to_owned(),
            game_executable: "r5apex.exe".to_owned(),
            description: "Optimized for Apex Legends".to_owned(),
            icon: "🏆".to_owned(),
            auto_clean_ram: true,
            ram_threshold: 80,
            clean_disk_before_launch: false,
            disk_options: DiskCleaningOptions::default(),
            game_priority: CpuPriority::High,
            game_affinity: None,
            limit_background_apps: true,
            background_priority: CpuPriority::BelowNormal,
            background_cpu_limit: Some(10),
            network_priority: true,
            limit_background_network: true,
            background_network_limit: Some(256),
            disable_defender: false,
            disable_windows_update: true,
            disable_superfetch: true,
            enable_game_mode: true,
            disable_fullscreen_optimizations: false,
        }
    }

    /// Fortnite's preset.
    pub fn fortnite() -> (r: Self)
        ensures
            fortnite_spec(r),
    {
        GamingProfile {
            id: "fortnite".to_owned(),
            name: "Fortnite".to_owned(),
            game_executable: "FortniteClient-Win64-Shipping.exe".to_owned(),
            description: "Optimized for Fortnite".to_owned(),
            icon: "🏗️".to_owned(),
            auto_clean_ram: true,
            ram_threshold: 75,
            clean_disk_before_launch: false,
            disk_options: DiskCleaningOptions::default(),
            game_priority: CpuPriority::High,
            game_affinity: None,
            limit_background_apps: true,
            background_priority: CpuPriority::BelowNormal,
            background_cpu_limit: Some(10),
            network_priority: true,
            limit_background_network: true,
            background_network_limit: Some(512),
            disable_defender: false,
            disable_windows_update: true,
            disable_superfetch: true,
            enable_game_mode: true,
            disable_fullscreen_optimizations: false,
        }
    }

    /// Overwatch 2's preset.
    pub fn overwatch2() -> (r: Self)
        ensures
            overwatch2_spec(r),
    {
        GamingProfile {
            id: "overwatch2".to_owned(),
            name: "Overwatch 2".to_owned(),
            game_executable: "Overwatch.exe".to_owned(),
            description: "Optimized for Overwatch 2".to_owned(),
            icon: "🎮".to_owned(),
            auto_clean_ram: true,
            ram_threshold: 80,
            clean_disk_before_launch: false,
            disk_options: DiskCleaningOptions::default(),
            game_priority: CpuPriority::High,
            game_affinity: None,
            limit_background_apps: true,
            background_priority: CpuPriority::BelowNormal,
            background_cpu_limit: Some(10),
            network_priority: true,
            limit_background_network: true,
            background_network_limit: Some(256),
            disable_defender: false,
            disable_windows_update: true,
            disable_superfetch: true,
            enable_game_mode: true,
            disable_fullscreen_optimizations: false,
        }
    }

    /// Every preset, in a fixed order.
    pub fn get_all_presets() -> (r: Vec<Self>)
        ensures
            presets_spec(r@),
    {
        let mut v: Vec<GamingProfile> = Vec::new();
        v.push(GamingProfile::valorant());
        v.push(GamingProfile::league_of_legends());
        v.push(GamingProfile::cs2());
        v.push(GamingProfile::apex_legends());
        v.push(GamingProfile::fortnite());
        v.push(GamingProfile::overwatch2());
        v
    }
}

/// `s` holds the six presets, in their fixed order.
pub open spec fn presets_spec(s: Seq<GamingProfile>) -> bool {
    &&& s.len() == 6
    &&& valorant_spec(s[0])
    &&& league_of_legends_spec(s[1])
    &&& cs2_spec(s[2])
    &&& apex_legends_spec(s[3])
    &&& fortnite_spec(s[4])
    &&& overwatch2_spec(s[5])
}

/// No two profiles of `s` share an id.
pub open spec fn profile_ids_unique(s: Seq<GamingProfile>) -> bool {
    forall|i: int, j: int|
        0 <= i < s.len() && 0 <= j < s.len() && i != j ==> #[trigger] s[i].id@ != #[trigger] s[j].id@
}

/// Some profile of `s` has the id `id`.
pub open spec fn has_profile(s: Seq<GamingProfile>, id: Seq<char>) -> bool {
    exists|i: int| 0 <= i < s.len() && #[trigger] s[i].id@ == id
}

/// The position of the profile with id `id` in `s`.
pub open spec fn profile_index(s: Seq<GamingProfile>, id: Seq<char>) -> int {
    choose|i: int| 0 <= i < s.len() && #[trigger] s[i].id@ == id
}

/// `s` with `p` stored under its id: replacing the profile with that id, or
/// appended when there is none.
pub open spec fn insert_profile_spec(s: Seq<GamingProfile>, p: GamingProfile) -> Seq<GamingProfile> {
    if has_profile(s, p.id@) {
        s.update(profile_index(s, p.id@), p)
    } else {
        s.push(p)
    }
}

/// The error text for a profile id that is not known.
pub open spec fn not_found_message(id: Seq<char>) -> Seq<char> {
    "Profile not found: "@ + id
}

/// The profiles, keyed by their unique id, and the id of the active one.
pub struct ProfileManager {
    profiles: Vec<GamingProfile>,
    active_profile: Option<String>,
}

impl View for ProfileManager {
    type V = Seq<GamingProfile>;

    closed spec fn view(&self) -> Seq<GamingProfile> {
        self.profiles@
    }
}

impl ProfileManager {
    /// Ids are unique, and the active id, if any, names a stored profile.
    pub open spec fn wf(&self) -> bool {
        &&& profile_ids_unique(self@)
        &&& (self.active_spec() matches Some(id) ==> has_profile(self@, id))
    }

    /// The id of the active profile.
    pub closed spec fn active_spec(&self) -> Option<Seq<char>> {
        match self.active_profile {
            Some(id) => Some(id@),
            None => None,
        }
    }

    /// A manager holding the presets, with none active.
    pub fn new() -> (r: Self)
        ensures
            r.wf(),
            presets_spec(r@),
            r.active_spec() is None,
    {
        let r = ProfileManager { profiles: GamingProfile::get_all_presets(), active_profile: None };
        proof {
            reveal_strlit("valorant");
            reveal_strlit("league");
            reveal_strlit("cs2");
            reveal_strlit("apex");
            reveal_strlit("fortnite");
            reveal_strlit("overwatch2");
            assert forall|i: int, j: int|
                0 <= i < r@.len() && 0 <= j < r@.len() && i != j implies #[trigger] r@[i].id@
                != #[trigger] r@[j].id@ by {
                assert(r@[i].id@[0] != r@[j].id@[0] || r@[i].id@.len() != r@[j].id@.len());
            }
        }
        r
    }

    /// The position of the profile with id `id`.
    fn find(&self, id: &String) -> (r: Option<usize>)
        requires
            profile_ids_unique(self@),
        ensures
            match r {
                Some(i) => i < self@.len() && self@[i as int].id@ == id@ && profile_index(self@, id@)
                    == i && has_profile(self@, id@),
                None => !has_profile(self@, id@),
            },
    {
        let mut i: usize = 0;
        while i < self.profiles.len()
            invariant
                profile_ids_unique(self@),
                i <= self.profiles@.len(),
                forall|j: int| 0 <= j < i ==> #[trigger] self.profiles@[j].id@ != id@,
            decreases self.profiles.len() - i,
        {
            if self.profiles[i].id == *id {
                proof {
                    assert(self@[i as int].id@ == id@);
                    let k = profile_index(self@, id@);
                    assert(0 <= k < self@.len() && self@[k].id@ == id@);
                    if k != i as int {
                        assert(self@[k].id@ != self@[i as int].id@);
                    }
                }
                return Some(i);
            }
            i += 1;
        }
        None
    }

    /// Stores `profile` under its id, replacing any profile with that id.
    pub fn add_profile(&mut self, profile: GamingProfile)
        requires
            old(self).wf(),
        ensures
            final(self).wf(),
            final(self)@ == insert_profile_spec(old(self)@, profile),
            final(self).active_spec() == old(self).active_spec(),
    {
        match self.find(&profile.id) {
            Some(i) => {
                self.profiles.set(i, profile);
            },
            None => {
                self.profiles.push(profile);
            },
        }
        proof {
            if let Some(a) = self.active_spec() {
                let k = profile_index(old(self)@, a);
                assert(old(self)@[k].id@ == a);
                assert(self@[k].id@ == a);
            }
        }
    }

    /// The profile with id `id`.
    pub fn get_profile(&self, id: &str) -> (r: Option<&GamingProfile>)
        requires
            self.wf(),
        ensures
            r is Some == has_profile(self@, id@),
            r matches Some(p) ==> *p == self@[profile_index(self@, id@)] && p.id@ == id@,
    {
        let key = id.to_owned();
        match self.find(&key) {
            Some(i) => Some(&self.profiles[i]),
            None => None,
        }
    }

    /// Every profile, in store order.
    pub fn get_all_profiles(&self) -> (r: Vec<&GamingProfile>)
        ensures
            r@.len() == self@.len(),
            forall|i: int| 0 <= i < r@.len() ==> *#[trigger] r@[i] == self@[i],
    {
        let mut out: Vec<&GamingProfile> = Vec::new();
        let mut i: usize = 0;
        while i < self.profiles.len()
            invariant
                i <= self.profiles@.len(),
                out@.len() == i,
                forall|j: int| 0 <= j < i ==> *#[trigger] out@[j] == self.profiles@[j],
            decreases self.profiles.len() - i,
        {
            out.push(&self.profiles[i]);
            i += 1;
        }
        out
    }

    /// Makes the profile with id `id` the active one; an error naming the
    /// id when there is no such profile, and then nothing changes.
    pub fn activate_profile(&mut self, id: &str) -> (r: Result<(), String>)
        requires
            old(self).wf(),
        ensures
            final(self).wf(),
            final(self)@ == old(self)@,
            r is Ok == has_profile(old(self)@, id@),
            r is Ok ==> final(self).active_spec() == Some(id@),
            r matches Err(e) ==> e@ == not_found_message(id@) && final(self).active_spec() == old(
                self,
            ).active_spec(),
    {
        let key = id.to_owned();
        match self.find(&key) {
            Some(_) => {
                self.active_profile = Some(key);
                Ok(())
            },
            None => {
                let mut message = "Profile not found: ".to_owned();
                append(&mut message, id);
                Err(message)
            },
        }
    }

    /// Leaves no profile active.
    pub fn deactivate_profile(&mut self)
        requires
            old(self).wf(),
        ensures
            final(self).wf(),
            final(self)@ == old(self)@,
            final(self).active_spec() is None,
    {
        self.active_profile = None;
    }

    /// The active profile, if one is active.
    pub fn get_active_profile(&self) -> (r: Option<&GamingProfile>)
        requires
            self.wf(),
        ensures
            match self.active_spec() {
                Some(id) => r matches Some(p) && *p == self@[profile_index(self@, id)],
                None => r is None,
            },
    {
        match &self.active_profile {
            Some(id) => match self.find(id) {
                Some(i) => Some(&self.profiles[i]),
                None => None,
            },
            None => None,
        }
    }
}

} // verus!
