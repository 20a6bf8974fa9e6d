use rebellion::factions::{faction_icon_filename, Faction};
use rebellion::save_policy::{choose_load_source, plan_save, LoadSource, ReadOutcome, SaveStep};

#[test]
fn load_prefers_the_save_then_the_backup() {
    assert_eq!(choose_load_source(ReadOutcome::Parsed, ReadOutcome::Failed), LoadSource::Primary);
    assert_eq!(choose_load_source(ReadOutcome::Parsed, ReadOutcome::Parsed), LoadSource::Primary);
    assert_eq!(choose_load_source(ReadOutcome::Missing, ReadOutcome::Parsed), LoadSource::Backup);
    assert_eq!(choose_load_source(ReadOutcome::Failed, ReadOutcome::Parsed), LoadSource::Backup);
    assert_eq!(choose_load_source(ReadOutcome::Failed, ReadOutcome::Missing), LoadSource::Defaults);
    assert_eq!(choose_load_source(ReadOutcome::Missing, ReadOutcome::Missing), LoadSource::Defaults);
    assert_eq!(choose_load_source(ReadOutcome::Missing, ReadOutcome::Failed), LoadSource::Defaults);
}

#[test]
fn save_keeps_the_only_valid_copy() {
    let new = b"{\"a\":2}";
    assert_eq!(plan_save(None, false, new), SaveStep::Replace);
    assert_eq!(plan_save(Some(new), true, new), SaveStep::Unchanged);
    assert_eq!(plan_save(Some(b"{\"a\":1}"), true, new), SaveStep::BackupThenReplace);
    assert_eq!(plan_save(Some(b"{\"a\""), false, new), SaveStep::PreserveThenReplace);
    assert_eq!(plan_save(Some(b""), false, new), SaveStep::PreserveThenReplace);
    assert_eq!(plan_save(Some(b"{\"a\":2} "), true, new), SaveStep::BackupThenReplace);
}

#[test]
fn faction_icon_files() {
    assert_eq!(faction_icon_filename(Faction::Amarr), "amarr.png");
    assert_eq!(faction_icon_filename(Faction::Caldari), "caldari.png");
    assert_eq!(faction_icon_filename(Faction::Gallente), "gallente.png");
    assert_eq!(faction_icon_filename(Faction::Minmatar), "minmatar.png");
}
