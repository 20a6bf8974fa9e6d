use rebellion::analytics::{AnalyticsCounts, NameCounts, SessionCounts};

fn session(ship: &str, difficulty: &str, stage: u32) -> SessionCounts {
    let mut s = SessionCounts::new();
    s.mission_started(ship.to_string(), String::new(), difficulty.to_string(), stage);
    s
}

#[test]
fn analytics_data_default_empty() {
    let data = AnalyticsCounts::new();
    assert!(data.deaths_by_stage.is_empty());
    assert!(data.ship_picks.is_empty());
    assert!(data.difficulty_picks.is_empty());
    assert_eq!(data.total_sessions, 0);
    assert!(data.stages_completed.is_empty());
}

#[test]
fn session_analytics_default() {
    let session = SessionCounts::new();
    assert_eq!(session.kills, 0);
    assert_eq!(session.bosses_defeated, 0);
    assert!(session.ship_name.is_empty());
}

#[test]
fn record_session_increments_counters() {
    let mut analytics = AnalyticsCounts::new();
    let mut session = SessionCounts::new();
    session.mission_started("Rifter".into(), "Minmatar".into(), "Newbro".into(), 3);

    analytics.record_session(&session);

    assert_eq!(analytics.total_sessions, 1);
    assert_eq!(analytics.ship_picks.get("Rifter"), Some(1));
    assert_eq!(analytics.difficulty_picks.get("Newbro"), Some(1));
    assert!(analytics.deaths_by_stage.is_empty());
}

#[test]
fn record_session_accumulates() {
    let mut analytics = AnalyticsCounts::new();
    let session = session("Rifter", "Newbro", 0);

    analytics.record_session(&session);
    analytics.record_session(&session);

    assert_eq!(analytics.total_sessions, 2);
    assert_eq!(analytics.ship_picks.get("Rifter"), Some(2));
    assert_eq!(analytics.ship_picks.len(), 1);
}

#[test]
fn victory_counts_the_session_but_no_death() {
    let mut analytics = AnalyticsCounts::new();
    analytics.end_session_victory(&session("Rifter", "Newbro", 3));
    assert_eq!(analytics.total_sessions, 1);
    assert_eq!(analytics.ship_picks.get("Rifter"), Some(1));
    assert!(analytics.deaths_by_stage.is_empty());
}

#[test]
fn empty_picks_are_not_counted() {
    let mut analytics = AnalyticsCounts::new();
    analytics.end_session_victory(&session("", "", 0));
    assert_eq!(analytics.total_sessions, 1);
    assert!(analytics.ship_picks.is_empty());
    assert!(analytics.difficulty_picks.is_empty());
}

#[test]
fn deaths_are_counted_by_stage() {
    let mut analytics = AnalyticsCounts::new();
    analytics.end_session_death(&session("Rifter", "Newbro", 2));
    analytics.end_session_death(&session("Slasher", "Newbro", 2));
    analytics.end_session_death(&session("Rifter", "Elite", 4));
    assert_eq!(analytics.deaths_by_stage.get(&2), Some(&2));
    assert_eq!(analytics.deaths_by_stage.get(&4), Some(&1));
    assert_eq!(analytics.total_sessions, 3);
    assert_eq!(analytics.ship_picks.get("Rifter"), Some(2));
    assert_eq!(analytics.ship_picks.get("Slasher"), Some(1));
    assert_eq!(analytics.difficulty_picks.get("Newbro"), Some(2));
}

#[test]
fn stage_completions_are_counted() {
    let mut analytics = AnalyticsCounts::new();
    analytics.record_stage_complete(&session("Rifter", "Newbro", 1));
    analytics.record_stage_complete(&session("Rifter", "Newbro", 1));
    assert_eq!(analytics.stages_completed.get(&1), Some(&2));
    assert_eq!(analytics.total_sessions, 0);
}

#[test]
fn session_events_count_kills_and_bosses() {
    let mut s = session("Rifter", "Newbro", 1);
    s.enemy_killed();
    s.enemy_killed();
    s.boss_defeated();
    assert_eq!(s.kills, 2);
    assert_eq!(s.bosses_defeated, 1);
    s.start();
    assert_eq!(s.kills, 0);
    assert_eq!(s.bosses_defeated, 0);
    assert_eq!(s.ship_name, "Rifter");
}

#[test]
fn name_counts_set_get_and_pairs() {
    let mut n = NameCounts::new();
    n.set("Newbro", 4);
    n.bump("Newbro");
    n.bump("Elite");
    assert_eq!(n.get("Newbro"), Some(5));
    assert_eq!(n.get("Elite"), Some(1));
    assert_eq!(n.get("Nightmare"), None);
    let mut pairs = n.pairs();
    pairs.sort();
    assert_eq!(pairs, vec![("Elite".to_string(), 1), ("Newbro".to_string(), 5)]);
    let m = NameCounts::from_pairs(vec![("a".to_string(), 1), ("b".to_string(), 2), ("a".to_string(), 7)]);
    assert_eq!(m.len(), 2);
    assert_eq!(m.get("a"), Some(7));
    assert_eq!(m.get("b"), Some(2));
}
