use rebellion::factions::Faction;
use rebellion::menus::{
    cg_factions_for, cg_victory_text, danger_label, invasion_victory_text, has_mode_select, invasion_choice, kills_label,
    mode_select_outcome, phase_text, phase_tone, shows_wave_announcement, two_option_nav,
    wave_label, InvasionSide, PhaseTone,
};
use rebellion::states::GameState;
use rebellion::text::{decimal_string, str_eq};
use rebellion::tracking::{advance_waypoint, push_sample, DevConfig};

#[test]
fn two_option_navigation() {
    assert_eq!(two_option_nav(1, true, true, false), (0, true));
    assert_eq!(two_option_nav(0, true, true, false), (0, false));
    assert_eq!(two_option_nav(0, true, false, true), (1, true));
    assert_eq!(two_option_nav(1, true, false, true), (1, false));
    assert_eq!(two_option_nav(1, false, true, false), (1, false));
}

#[test]
fn mode_select_confirm_and_back() {
    assert_eq!(mode_select_outcome(0, true, false), (Some(GameState::DifficultySelect), false));
    assert_eq!(mode_select_outcome(1, true, false), (Some(GameState::Playing), true));
    assert_eq!(mode_select_outcome(1, false, true), (Some(GameState::FactionSelect), false));
    assert_eq!(mode_select_outcome(1, true, true), (Some(GameState::FactionSelect), true));
    assert_eq!(mode_select_outcome(0, false, false), (None, false));
}

#[test]
fn caldari_gallente_sides() {
    assert_eq!(cg_factions_for(0), (Faction::Caldari, Faction::Gallente));
    assert_eq!(cg_factions_for(1), (Faction::Gallente, Faction::Caldari));
    assert!(has_mode_select(Faction::Caldari));
    assert!(!has_mode_select(Faction::Gallente));
}

#[test]
fn invasion_side_choice() {
    assert_eq!(invasion_choice(true, false, false), (Some(InvasionSide::Edencom), Some(GameState::Playing)));
    assert_eq!(invasion_choice(true, true, false), (Some(InvasionSide::Triglavian), Some(GameState::Playing)));
    assert_eq!(invasion_choice(false, false, true), (None, Some(GameState::MainMenu)));
    assert_eq!(invasion_choice(false, false, false), (None, None));
}

#[test]
fn nightmare_wave_texts() {
    assert!(shows_wave_announcement(1));
    assert!(!shows_wave_announcement(2));
    assert!(shows_wave_announcement(5));
    assert!(shows_wave_announcement(20));
    assert_eq!(danger_label(9), None);
    assert_eq!(danger_label(10), Some("DANGER INCREASING"));
    assert_eq!(danger_label(20), Some("EXTREME DANGER"));
    assert_eq!(wave_label(15), "WAVE 15");
    assert_eq!(wave_label(0), "WAVE 0");
    assert_eq!(kills_label(1234), "KILLS: 1234");
}

#[test]
fn boss_phase_texts() {
    assert_eq!(phase_text(1), "Single Phase");
    assert_eq!(phase_text(2), "Two Phases");
    assert_eq!(phase_text(3), "Three Phases \u{2022} Challenging");
    assert_eq!(phase_text(4), "Four Phases \u{2022} Dangerous");
    assert_eq!(phase_text(7), "Multi-Phase");
    assert_eq!(phase_tone(2), PhaseTone::Normal);
    assert_eq!(phase_tone(3), PhaseTone::Challenging);
    assert_eq!(phase_tone(9), PhaseTone::Dangerous);
}

#[test]
fn decimal_text() {
    assert_eq!(decimal_string(0), "0");
    assert_eq!(decimal_string(7), "7");
    assert_eq!(decimal_string(90210), "90210");
    assert_eq!(decimal_string(u64::MAX), u64::MAX.to_string());
    assert!(str_eq("abc", "abc"));
    assert!(!str_eq("abc", "abd"));
    assert!(!str_eq("abc", "ab"));
}

#[test]
fn waypoints_stop_at_the_last() {
    assert_eq!(advance_waypoint(0, 3), (1, false));
    assert_eq!(advance_waypoint(1, 3), (2, false));
    assert_eq!(advance_waypoint(2, 3), (2, true));
    assert_eq!(advance_waypoint(0, 0), (0, true));
}

#[test]
fn sample_window_keeps_the_newest() {
    let mut v: Vec<u32> = Vec::new();
    for i in 0..5u32 {
        push_sample(&mut v, 3, i);
    }
    assert_eq!(v, vec![2, 3, 4]);
    let mut w: Vec<u32> = vec![1];
    push_sample(&mut w, 0, 9);
    assert_eq!(w, vec![9]);
}

#[test]
fn dev_overlays_start_hidden() {
    let d = DevConfig::default();
    assert!(!d.show_environment_colliders);
    assert!(!d.show_player_hitbox);
}

#[test]
fn victory_screen_texts() {
    let c = cg_victory_text(Faction::Caldari);
    assert_eq!(c.header, "CALDARI PRIME SECURED");
    assert_eq!(c.motto, "FOR THE STATE");
    let g = cg_victory_text(Faction::Gallente);
    assert_eq!(g.header, "CALDARI PRIME LIBERATED");
    assert_eq!(g.motto, "LIBERTÉ POUR TOUS");
    assert_eq!(g.author, "— Federation High Command");
    let other = cg_victory_text(Faction::Amarr);
    assert_eq!(other.header, "CAMPAIGN COMPLETE");
    assert_eq!(other.quote, "\"Well fought.\"");
    assert_eq!(invasion_victory_text(Some("edencom")).0, "NEW EDEN DEFENDED");
    assert_eq!(invasion_victory_text(Some("triglavian")).1, "The Flow Is Proven");
    assert_eq!(invasion_victory_text(Some("amarr")).0, "CAMPAIGN COMPLETE");
    assert_eq!(invasion_victory_text(None).2, "\"Well fought.\"");
}
