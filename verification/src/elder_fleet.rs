//! Elder Fleet campaign: Minmatar Republic against Amarr Empire, five
//! missions of enemy waves, each closed by a commander.

use vstd::prelude::*;
use crate::enemy::{EnemyBehavior, EnemyVariant, WaveShip, wave_behavior, wave_behavior_spec};
use crate::rng::{random_u32_below, random_usize_below};
use crate::states::GameState;
use crate::text::str_eq;

verus! {

/// Number of missions in the campaign.
pub const EF_TOTAL_MISSIONS: u32 = 5;

/// Largest wave the campaign spawns.
pub const EF_MAX_WAVE_SIZE: u32 = 12;

/// Progress through the Elder Fleet campaign.
#[derive(Debug, Clone, Copy, Default, PartialEq, Eq, Structural)]
pub struct ElderFleetCampaignState {
    pub current_mission: u32,
    pub current_wave: u32,
    pub waves_in_mission: u32,
    pub enemies_remaining: u32,
    pub mission_complete: bool,
    pub boss_spawned: bool,
}

/// Waves in a mission: three for the first two, four for the next two,
/// five from then on.
pub open spec fn waves_for_mission(mission: u32) -> u32 {
    if mission <= 1 {
        3
    } else if mission <= 3 {
        4
    } else {
        5
    }
}

impl ElderFleetCampaignState {
    /// Back to the start of the campaign.
    pub fn reset(&mut self)
        ensures
            *final(self) == (ElderFleetCampaignState {
                current_mission: 0,
                current_wave: 0,
                waves_in_mission: 0,
                enemies_remaining: 0,
                mission_complete: false,
                boss_spawned: false,
            }),
    {
        self.current_mission = 0;
        self.current_wave = 0;
        self.waves_in_mission = 0;
        self.enemies_remaining = 0;
        self.mission_complete = false;
        self.boss_spawned = false;
    }

    /// Begin a mission from its first wave.
    pub fn start_mission(&mut self, mission: u32)
        ensures
            *final(self) == (ElderFleetCampaignState {
                current_mission: mission,
                current_wave: 0,
                waves_in_mission: waves_for_mission(mission),
                enemies_remaining: 0,
                mission_complete: false,
                boss_spawned: false,
            }),
    {
        self.current_mission = mission;
        self.current_wave = 0;
        self.enemies_remaining = 0;
        self.mission_complete = false;
        self.boss_spawned = false;
        self.waves_in_mission = match mission {
            0 => 3,
            1 => 3,
            2 => 4,
            3 => 4,
            _ => 5,
        };
    }
}

/// One Elder Fleet mission. Boss health is a whole number of hit points.
#[derive(Debug, Clone, Copy)]
pub struct EFMissionInfo {
    pub name: &'static str,
    pub system: &'static str,
    pub description: &'static str,
    pub boss_name: &'static str,
    pub boss_health: u32,
    pub boss_phases: u32,
    pub boss_type_id: u32,
}

/// Boss of each mission: health, phases and hull, for the Minmatar side.
pub open spec fn minmatar_bosses() -> Seq<(u32, u32, u32)> {
    seq![(300u32, 2u32, 597u32), (400, 2, 589), (600, 3, 603), (800, 3, 624), (1200, 4, 643)]
}

/// Boss of each mission: health, phases and hull, for the Amarr side.
pub open spec fn amarr_bosses() -> Seq<(u32, u32, u32)> {
    seq![(300u32, 2u32, 587u32), (400, 2, 11371), (600, 3, 602), (800, 3, 625), (1200, 4, 639)]
}

/// Boss figures of a list of missions.
pub open spec fn bosses_of(m: Seq<EFMissionInfo>) -> Seq<(u32, u32, u32)> {
    m.map_values(|i: EFMissionInfo| (i.boss_health, i.boss_phases, i.boss_type_id))
}

/// Missions of the Minmatar campaign (the enemy is Amarr).
pub fn minmatar_missions() -> (r: Vec<EFMissionInfo>)
    ensures
        r@.len() == 5,
        bosses_of(r@) == minmatar_bosses(),
{
    let r = vec![
        EFMissionInfo {
            name: "First Blood",
            system: "Arzad",
            description: "Your first strike against Amarr slavers. Prove the Republic's resolve.",
            boss_name: "Squadron Leader",
            boss_health: 300,
            boss_phases: 2,
            boss_type_id: 597,
        },
        EFMissionInfo {
            name: "Slave Revolt",
            system: "Hedion",
            description: "Liberate a slave transport before it reaches the processing hub.",
            boss_name: "Holder's Champion",
            boss_health: 400,
            boss_phases: 2,
            boss_type_id: 589,
        },
        EFMissionInfo {
            name: "Station Assault",
            system: "Neran",
            description: "A fortified orbital station blocks our supply lines. Take it down.",
            boss_name: "Station Commander",
            boss_health: 600,
            boss_phases: 3,
            boss_type_id: 603,
        },
        EFMissionInfo {
            name: "Imperial Response",
            system: "Varkal",
            description: "The Empire sends a battlecruiser task force. Stand your ground.",
            boss_name: "Harbinger Captain",
            boss_health: 800,
            boss_phases: 3,
            boss_type_id: 624,
        },
        EFMissionInfo {
            name: "Empire's End",
            system: "Amarr Prime",
            description: "Strike at the heart of the Empire. End the occupation.",
            boss_name: "Imperial Admiral",
            boss_health: 1200,
            boss_phases: 4,
            boss_type_id: 643,
        },
    ];
    assert(bosses_of(r@) =~= minmatar_bosses());
    r
}

/// Missions of the Amarr campaign (the enemy is Minmatar).
pub fn amarr_missions() -> (r: Vec<EFMissionInfo>)
    ensures
        r@.len() == 5,
        bosses_of(r@) == amarr_bosses(),
{
    let r = vec![
        EFMissionInfo {
            name: "Insurrection Suppression",
            system: "Arzad",
            description: "Crush the Minmatar raiders before the revolt spreads.",
            boss_name: "Rifter Berserker",
            boss_health: 300,
            boss_phases: 2,
            boss_type_id: 587,
        },
        EFMissionInfo {
            name: "Convoy Defense",
            system: "Hedion",
            description: "Protect the slave transport from Minmatar pirates.",
            boss_name: "Wolf Assault Lead",
            boss_health: 400,
            boss_phases: 2,
            boss_type_id: 11371,
        },
        EFMissionInfo {
            name: "Border Reclamation",
            system: "Neran",
            description: "Reclaim the border station from Minmatar insurgents.",
            boss_name: "Stabber Raid Captain",
            boss_health: 600,
            boss_phases: 3,
            boss_type_id: 602,
        },
        EFMissionInfo {
            name: "Heretic's Bane",
            system: "Varkal",
            description: "A Minmatar strike force threatens sacred ground.",
            boss_name: "Hurricane Warlord",
            boss_health: 800,
            boss_phases: 3,
            boss_type_id: 625,
        },
        EFMissionInfo {
            name: "Purity Restored",
            system: "Minmatar Border",
            description: "Drive the heretics from imperial space. Restore divine order.",
            boss_name: "Republic Fleet Admiral",
            boss_health: 1200,
            boss_phases: 4,
            boss_type_id: 639,
        },
    ];
    assert(bosses_of(r@) =~= amarr_bosses());
    r
}

/// The player flies for the Minmatar when the chosen faction is
/// `minmatar`, or when none was chosen.
pub open spec fn plays_minmatar(player_faction: Option<&str>) -> bool {
    match player_faction {
        None => true,
        Some(f) => f@ == "minmatar"@,
    }
}

/// Whether the player flies for the Minmatar.
pub fn is_minmatar_player(player_faction: Option<&str>) -> (r: bool)
    ensures
        r == plays_minmatar(player_faction),
{
    match player_faction {
        None => true,
        Some(f) => str_eq(f, "minmatar"),
    }
}

/// The campaign's missions for the player's side.
pub fn missions_for(player_faction: Option<&str>) -> (r: Vec<EFMissionInfo>)
    ensures
        r@.len() == 5,
        bosses_of(r@) == if plays_minmatar(player_faction) { minmatar_bosses() } else { amarr_bosses() },
{
    if is_minmatar_player(player_faction) {
        minmatar_missions()
    } else {
        amarr_missions()
    }
}

/// Score awarded for a commander with the given health.
pub open spec fn boss_score_spec(boss_health: u32) -> u64 {
    (boss_health * 2) as u64
}

/// Score awarded for a commander: twice its base health.
pub fn boss_score(boss_health: u32) -> (r: u64)
    ensures
        r == boss_score_spec(boss_health),
{
    boss_health as u64 * 2
}

/// Effect of `update_ef_mission`: the new state and the screen to move to.
pub open spec fn update_mission_spec(s: ElderFleetCampaignState) -> (ElderFleetCampaignState, Option<GameState>) {
    if s.current_wave >= s.waves_in_mission && s.enemies_remaining == 0 && !s.boss_spawned {
        (ElderFleetCampaignState { boss_spawned: true, ..s }, Some(GameState::BossIntro))
    } else {
        (s, None)
    }
}

/// Once every wave is spawned and cleared, call the commander in (once).
pub fn update_ef_mission(state: &mut ElderFleetCampaignState) -> (r: Option<GameState>)
    ensures
        (*final(state), r) == update_mission_spec(*old(state)),
{
    if state.current_wave >= state.waves_in_mission && state.enemies_remaining == 0
        && !state.boss_spawned {
        state.boss_spawned = true;
        Some(GameState::BossIntro)
    } else {
        None
    }
}

/// Record how many enemies are alive.
pub fn check_ef_wave_complete(state: &mut ElderFleetCampaignState, live_enemies: u32)
    ensures
        *final(state) == (ElderFleetCampaignState { enemies_remaining: live_enemies, ..*old(state) }),
{
    state.enemies_remaining = live_enemies;
}

/// Effect of `check_ef_boss_defeated`: the new state and the next screen.
pub open spec fn boss_defeated_spec(s: ElderFleetCampaignState, boss_alive: bool) -> (ElderFleetCampaignState, Option<GameState>) {
    if !boss_alive && s.boss_spawned {
        let t = ElderFleetCampaignState {
            mission_complete: true,
            current_mission: (s.current_mission + 1) as u32,
            ..s
        };
        (t, Some(if t.current_mission >= EF_TOTAL_MISSIONS { GameState::Victory } else { GameState::StageComplete }))
    } else {
        (s, None)
    }
}

/// When the commander is gone, the mission is complete: the campaign moves
/// to the next mission, or to victory after the fifth.
pub fn check_ef_boss_defeated(state: &mut ElderFleetCampaignState, boss_alive: bool) -> (r: Option<GameState>)
    requires
        !boss_alive && old(state).boss_spawned ==> old(state).current_mission < u32::MAX,
    ensures
        (*final(state), r) == boss_defeated_spec(*old(state), boss_alive),
{
    if !boss_alive && state.boss_spawned {
        state.mission_complete = true;
        state.current_mission = state.current_mission + 1;
        if state.current_mission >= EF_TOTAL_MISSIONS {
            Some(GameState::Victory)
        } else {
            Some(GameState::StageComplete)
        }
    } else {
        None
    }
}

/// One enemy of an Elder Fleet wave.
#[derive(Debug, Clone, Copy, PartialEq, Eq, Structural)]
pub enum EFSpawn {
    Variant(EnemyVariant),
    Ship(WaveShip),
}

/// Hulls of generic enemies, by the player's side.
pub open spec fn ef_hulls(minmatar: bool) -> Seq<u32> {
    if minmatar {
        seq![597u32, 589, 591, 603]
    } else {
        seq![587u32, 585, 598, 602]
    }
}

/// Specialised enemies that can appear, by the player's side.
pub open spec fn ef_variants(minmatar: bool) -> Seq<EnemyVariant> {
    if minmatar {
        seq![EnemyVariant::PunisherTank, EnemyVariant::ExecutionerElite]
    } else {
        seq![EnemyVariant::RifterBerserker]
    }
}

/// Chance, in percent, that an enemy is a specialised variant.
pub const EF_VARIANT_PERCENT: u32 = 15;

/// The enemy chosen by a percent roll in `0..100`, a pick among variants or
/// hulls, and a behaviour roll in `0..4`.
pub open spec fn ef_spawn_spec(minmatar: bool, roll: u32, pick: int, behavior_roll: u32) -> EFSpawn {
    if roll < EF_VARIANT_PERCENT {
        EFSpawn::Variant(ef_variants(minmatar)[pick])
    } else {
        EFSpawn::Ship(WaveShip { type_id: ef_hulls(minmatar)[pick], behavior: wave_behavior_spec(behavior_roll) })
    }
}

/// `e` is an enemy the campaign can spawn for this side.
pub open spec fn is_ef_spawn(minmatar: bool, e: EFSpawn) -> bool {
    exists|roll: u32, pick: int, b: u32| roll < 100 && b < 4 && 0 <= pick && (if roll < EF_VARIANT_PERCENT {
        pick < ef_variants(minmatar).len()
    } else {
        pick < 4
    }) && e == ef_spawn_spec(minmatar, roll, pick, b)
}

/// The enemy chosen by a percent roll in `0..100`, a pick among the side's
/// variants (on a roll under fifteen) or its four generic hulls (otherwise),
/// and a behaviour roll in `0..4` for a generic hull.
pub fn ef_spawn_for_rolls(minmatar: bool, roll: u32, pick: usize, behavior_roll: u32) -> (e: EFSpawn)
    requires
        roll < 100,
        behavior_roll < 4,
        pick < (if roll < EF_VARIANT_PERCENT { ef_variants(minmatar).len() } else { 4 }),
    ensures
        e == ef_spawn_spec(minmatar, roll, pick as int, behavior_roll),
{
    if roll < EF_VARIANT_PERCENT {
        let variants: [EnemyVariant; 2] = if minmatar {
            [EnemyVariant::PunisherTank, EnemyVariant::ExecutionerElite]
        } else {
            [EnemyVariant::RifterBerserker, EnemyVariant::RifterBerserker]
        };
        proof {
            assert(variants@[pick as int] == ef_variants(minmatar)[pick as int]);
        }
        EFSpawn::Variant(variants[pick])
    } else {
        let hulls: [u32; 4] = if minmatar { [597, 589, 591, 603] } else { [587, 585, 598, 602] };
        assert(hulls@ =~= ef_hulls(minmatar));
        EFSpawn::Ship(WaveShip { type_id: hulls[pick], behavior: wave_behavior(behavior_roll) })
    }
}

/// Size of the next wave: four plus the mission and wave numbers, at most
/// twelve.
pub open spec fn ef_wave_size(s: ElderFleetCampaignState) -> u32 {
    let n = 4 + s.current_mission + s.current_wave;
    if n < EF_MAX_WAVE_SIZE { n as u32 } else { EF_MAX_WAVE_SIZE }
}

/// Whether `spawn_ef_wave` spawns a wave in this state.
pub open spec fn ef_wave_due(s: ElderFleetCampaignState, live_enemies: u32) -> bool {
    s.enemies_remaining == 0 && s.current_wave < s.waves_in_mission && live_enemies == 0
}

/// Campaign state after `spawn_ef_wave`.
pub open spec fn spawn_wave_state_spec(s: ElderFleetCampaignState, live_enemies: u32) -> ElderFleetCampaignState {
    if ef_wave_due(s, live_enemies) {
        ElderFleetCampaignState {
            current_wave: (s.current_wave + 1) as u32,
            enemies_remaining: ef_wave_size(s),
            ..s
        }
    } else if s.enemies_remaining == 0 && s.current_wave < s.waves_in_mission {
        ElderFleetCampaignState { enemies_remaining: live_enemies, ..s }
    } else {
        s
    }
}

/// Choose the next wave, once the previous one is gone. While enemies are
/// still alive their number is recorded instead. Each enemy is, with a
/// fifteen percent chance, one of the side's specialised variants, and
/// otherwise one of its generic hulls with a random behaviour.
pub fn spawn_ef_wave(
    state: &mut ElderFleetCampaignState,
    player_faction: Option<&str>,
    live_enemies: u32,
) -> (r: Vec<EFSpawn>)
    requires
        ef_wave_due(*old(state), live_enemies) ==> 4 + old(state).current_mission
            + old(state).current_wave <= u32::MAX,
    ensures
        *final(state) == spawn_wave_state_spec(*old(state), live_enemies),
        ef_wave_due(*old(state), live_enemies) ==> r@.len() == ef_wave_size(*old(state)),
        !ef_wave_due(*old(state), live_enemies) ==> r@.len() == 0,
        forall|i: int| 0 <= i < r@.len() ==> is_ef_spawn(plays_minmatar(player_faction), #[trigger] r@[i]),
{
    if state.enemies_remaining > 0 || state.current_wave >= state.waves_in_mission {
        return Vec::new();
    }
    if live_enemies > 0 {
        state.enemies_remaining = live_enemies;
        return Vec::new();
    }
    let minmatar = is_minmatar_player(player_faction);
    let variant_count: usize = if minmatar { 2 } else { 1 };
    let base_count = 4 + state.current_mission;
    let wanted = base_count + state.current_wave;
    let enemy_count = if wanted < EF_MAX_WAVE_SIZE { wanted } else { EF_MAX_WAVE_SIZE };
    let mut r: Vec<EFSpawn> = Vec::new();
    let mut i: u32 = 0;
    while i < enemy_count
        invariant
            i <= enemy_count,
            r@.len() == i,
            variant_count == ef_variants(minmatar).len(),
            forall|j: int| 0 <= j < i ==> is_ef_spawn(minmatar, #[trigger] r@[j]),
        decreases enemy_count - i,
    {
        let roll = random_u32_below(100);
        let e = if roll < EF_VARIANT_PERCENT {
            let pick = random_usize_below(variant_count);
            ef_spawn_for_rolls(minmatar, roll, pick, 0)
        } else {
            let pick = random_usize_below(4);
            let b = random_u32_below(4);
            ef_spawn_for_rolls(minmatar, roll, pick, b)
        };
        r.push(e);
        i = i + 1;
    }
    state.current_wave = state.current_wave + 1;
    state.enemies_remaining = enemy_count;
    r
}


/// A wave is spawned and then destroyed to the last ship.
pub open spec fn fight_wave(s: ElderFleetCampaignState) -> ElderFleetCampaignState {
    ElderFleetCampaignState { enemies_remaining: 0, ..spawn_wave_state_spec(s, 0) }
}

/// `k` waves are spawned and destroyed in turn.
pub open spec fn fight_waves(s: ElderFleetCampaignState, k: nat) -> ElderFleetCampaignState
    decreases k,
{
    if k == 0 {
        s
    } else {
        fight_wave(fight_waves(s, (k - 1) as nat))
    }
}

/// Starting a mission.
pub open spec fn start_mission_spec(m: u32) -> ElderFleetCampaignState {
    ElderFleetCampaignState {
        current_mission: m,
        current_wave: 0,
        waves_in_mission: waves_for_mission(m),
        enemies_remaining: 0,
        mission_complete: false,
        boss_spawned: false,
    }
}

proof fn lemma_fight_waves(m: u32, k: nat)
    ensures
        fight_waves(start_mission_spec(m), k) == (ElderFleetCampaignState {
            current_wave: if k < waves_for_mission(m) { k as u32 } else { waves_for_mission(m) },
            ..start_mission_spec(m)
        }),
    decreases k,
{
    if k > 0 {
        lemma_fight_waves(m, (k - 1) as nat);
    }
}

/// A mission calls its commander in once the mission's waves have all been
/// spawned and destroyed, and not before: three waves in the first two
/// missions, four in the next two, five after that.
pub proof fn law_commander_after_all_waves(m: u32, k: nat)
    ensures
        update_mission_spec(fight_waves(start_mission_spec(m), k)).1 == if k >= waves_for_mission(m) {
            Some(GameState::BossIntro)
        } else {
            None
        },
{
    lemma_fight_waves(m, k);
}

/// The commander is called in at most once per mission.
pub proof fn law_commander_called_once(s: ElderFleetCampaignState)
    ensures
        update_mission_spec(update_mission_spec(s).0).1 is None,
{
}

/// A wave never holds more than twelve enemies, and grows by one with each
/// mission and with each wave until then.
pub proof fn law_wave_size(s: ElderFleetCampaignState)
    ensures
        ef_wave_size(s) <= EF_MAX_WAVE_SIZE,
        4 + s.current_mission + s.current_wave <= EF_MAX_WAVE_SIZE ==> ef_wave_size(s) == 4 + s.current_mission + s.current_wave,
{
}

/// Defeating the commander completes the mission and advances to the next
/// one; the fifth mission ends the campaign in victory.
pub proof fn law_campaign_ends_after_fifth_mission(s: ElderFleetCampaignState)
    requires
        s.boss_spawned,
        s.current_mission < u32::MAX,
    ensures
        boss_defeated_spec(s, false).0.mission_complete,
        boss_defeated_spec(s, false).0.current_mission == s.current_mission + 1,
        boss_defeated_spec(s, false).1 == Some(
            if s.current_mission + 1 >= EF_TOTAL_MISSIONS { GameState::Victory } else { GameState::StageComplete },
        ),
        boss_defeated_spec(s, true) == (s, None::<GameState>),
{
}

/// Ship class shown for an Elder Fleet commander's hull.
pub open spec fn ef_ship_class_spec(type_id: u32) -> Seq<char> {
    if type_id == 587 {
        "Rifter Frigate"@
    } else if type_id == 585 {
        "Slasher Interceptor"@
    } else if type_id == 598 {
        "Breacher Assault"@
    } else if type_id == 602 {
        "Stabber Cruiser"@
    } else if type_id == 11371 {
        "Wolf Assault Frigate"@
    } else if type_id == 625 {
        "Hurricane Battlecruiser"@
    } else if type_id == 639 {
        "Tempest Battleship"@
    } else if type_id == 597 {
        "Punisher Frigate"@
    } else if type_id == 589 {
        "Executioner Interceptor"@
    } else if type_id == 591 {
        "Tormentor Assault"@
    } else if type_id == 603 {
        "Maller Cruiser"@
    } else if type_id == 624 {
        "Harbinger Battlecruiser"@
    } else if type_id == 643 {
        "Apocalypse Battleship"@
    } else {
        "Unknown"@
    }
}

/// Ship class shown for an Elder Fleet commander's hull.
pub fn get_ef_ship_class(type_id: u32) -> (r: &'static str)
    ensures
        r@ == ef_ship_class_spec(type_id),
{
    match type_id {
        587 => "Rifter Frigate",
        585 => "Slasher Interceptor",
        598 => "Breacher Assault",
        602 => "Stabber Cruiser",
        11371 => "Wolf Assault Frigate",
        625 => "Hurricane Battlecruiser",
        639 => "Tempest Battleship",
        597 => "Punisher Frigate",
        589 => "Executioner Interceptor",
        591 => "Tormentor Assault",
        603 => "Maller Cruiser",
        624 => "Harbinger Battlecruiser",
        643 => "Apocalypse Battleship",
        _ => "Unknown",
    }
}

/// The commander is never called in while ships of the last wave are still
/// alive, nor before every wave of the mission has been spawned: then the
/// mission update changes nothing and moves to no other screen.
pub proof fn law_no_commander_while_enemies_remain(s: ElderFleetCampaignState)
    requires
        s.enemies_remaining > 0 || s.current_wave < s.waves_in_mission || s.boss_spawned,
    ensures
        update_mission_spec(s).1 is None,
        update_mission_spec(s).0 == s,
{
}

} // verus!
