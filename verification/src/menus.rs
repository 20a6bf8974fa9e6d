//! Menu choices and on-screen texts of the campaign screens.

use vstd::prelude::*;
use crate::factions::Faction;
use crate::states::GameState;
use crate::text::{decimal, decimal_string, str_eq};
use vstd::string::*;

verus! {

/// Selection on a two-option screen after one frame: moving toward the
/// first option selects it, moving toward the second selects it, but only
/// when the input cooldown is over and the selection actually changes.
/// Returns the new selection and whether it moved (which restarts the
/// cooldown).
pub open spec fn two_option_nav_spec(selected: usize, ready: bool, toward_first: bool, toward_second: bool) -> (usize, bool) {
    if ready && toward_first && selected > 0 {
        (0, true)
    } else if ready && !(toward_first && selected > 0) && toward_second && selected < 1 {
        (1, true)
    } else {
        (selected, false)
    }
}

/// Navigate a two-option screen.
pub fn two_option_nav(selected: usize, ready: bool, toward_first: bool, toward_second: bool) -> (r: (usize, bool))
    ensures
        r == two_option_nav_spec(selected, ready, toward_first, toward_second),
{
    if ready {
        if toward_first && selected > 0 {
            return (0, true);
        } else if toward_second && selected < 1 {
            return (1, true);
        }
    }
    (selected, false)
}

/// Where the Caldari mode screen leads: the second option starts The Last
/// Stand straight away, the first goes to difficulty selection; going back
/// returns to faction selection and wins over a confirmation in the same
/// frame. The flag says whether The Last Stand starts.
pub open spec fn mode_select_outcome_spec(selected: usize, confirm: bool, back: bool) -> (Option<GameState>, bool) {
    let start_last_stand = confirm && selected == 1;
    let next = if back {
        Some(GameState::FactionSelect)
    } else if confirm {
        Some(if selected == 1 { GameState::Playing } else { GameState::DifficultySelect })
    } else {
        None
    };
    (next, start_last_stand)
}

/// Where the Caldari mode screen leads this frame.
pub fn mode_select_outcome(selected: usize, confirm: bool, back: bool) -> (r: (Option<GameState>, bool))
    ensures
        r == mode_select_outcome_spec(selected, confirm, back),
{
    let mut next: Option<GameState> = None;
    let mut start_last_stand = false;
    if confirm {
        if selected == 1 {
            start_last_stand = true;
            next = Some(GameState::Playing);
        } else {
            next = Some(GameState::DifficultySelect);
        }
    }
    if back {
        next = Some(GameState::FactionSelect);
    }
    (next, start_last_stand)
}

/// Player and enemy faction for a selection on the Caldari-Gallente faction
/// screen: the first panel is Caldari.
pub fn cg_factions_for(selected: usize) -> (r: (Faction, Faction))
    ensures
        r == if selected == 0 { (Faction::Caldari, Faction::Gallente) } else { (Faction::Gallente, Faction::Caldari) },
{
    if selected == 0 {
        (Faction::Caldari, Faction::Gallente)
    } else {
        (Faction::Gallente, Faction::Caldari)
    }
}

/// Whether a faction goes on to the mode screen (only Caldari has modes);
/// the others go straight to difficulty selection.
pub fn has_mode_select(player: Faction) -> (r: bool)
    ensures
        r == (player == Faction::Caldari),
{
    player == Faction::Caldari
}

/// Side picked on the Triglavian invasion faction screen.
#[derive(Debug, Clone, Copy, PartialEq, Eq, Structural)]
pub enum InvasionSide {
    Edencom,
    Triglavian,
}

/// Outcome of one frame of the invasion faction screen: left picks EDENCOM,
/// right picks the Triglavians (and wins when both are pressed); either
/// starts play, and going back to the menu wins over both.
pub open spec fn invasion_choice_spec(left: bool, right: bool, back: bool) -> (Option<InvasionSide>, Option<GameState>) {
    let side = if right {
        Some(InvasionSide::Triglavian)
    } else if left {
        Some(InvasionSide::Edencom)
    } else {
        None
    };
    let next = if back {
        Some(GameState::MainMenu)
    } else if left || right {
        Some(GameState::Playing)
    } else {
        None
    };
    (side, next)
}

/// Outcome of one frame of the invasion faction screen.
pub fn invasion_choice(left: bool, right: bool, back: bool) -> (r: (Option<InvasionSide>, Option<GameState>))
    ensures
        r == invasion_choice_spec(left, right, back),
{
    let mut side: Option<InvasionSide> = None;
    let mut next: Option<GameState> = None;
    if left {
        side = Some(InvasionSide::Edencom);
        next = Some(GameState::Playing);
    }
    if right {
        side = Some(InvasionSide::Triglavian);
        next = Some(GameState::Playing);
    }
    if back {
        next = Some(GameState::MainMenu);
    }
    (side, next)
}

/// Whether an endless-mode wave gets a full-screen announcement: the first
/// wave and every fifth.
pub fn shows_wave_announcement(wave: u32) -> (r: bool)
    ensures
        r == (wave == 1 || wave % 5 == 0),
{
    wave == 1 || wave % 5 == 0
}

/// Warning shown under a wave announcement.
pub open spec fn danger_label_spec(wave: u32) -> Option<Seq<char>> {
    if wave >= 20 {
        Some("EXTREME DANGER"@)
    } else if wave >= 10 {
        Some("DANGER INCREASING"@)
    } else {
        None
    }
}

/// Warning shown under a wave announcement, if any.
pub fn danger_label(wave: u32) -> (r: Option<&'static str>)
    ensures
        r matches Some(s) ==> danger_label_spec(wave) == Some(s@),
        r is None <==> danger_label_spec(wave) is None,
{
    if wave >= 20 {
        Some("EXTREME DANGER")
    } else if wave >= 10 {
        Some("DANGER INCREASING")
    } else {
        None
    }
}

/// `prefix` followed by the decimal form of `n`.
fn labelled_number(prefix: &str, n: u32) -> (r: String)
    ensures
        r@ == prefix@ + decimal(n as nat),
{
    let mut s = String::from_str(prefix);
    let digits = decimal_string(n as u64);
    s.append(digits.as_str());
    s
}

/// Wave counter text.
pub fn wave_label(wave: u32) -> (r: String)
    ensures
        r@ == "WAVE "@ + decimal(wave as nat),
{
    labelled_number("WAVE ", wave)
}

/// Kill counter text.
pub fn kills_label(kills: u32) -> (r: String)
    ensures
        r@ == "KILLS: "@ + decimal(kills as nat),
{
    labelled_number("KILLS: ", kills)
}

/// Difficulty line of a boss introduction, by number of phases.
pub open spec fn phase_text_spec(phases: u32) -> Seq<char> {
    if phases == 1 {
        "Single Phase"@
    } else if phases == 2 {
        "Two Phases"@
    } else if phases == 3 {
        "Three Phases \u{2022} Challenging"@
    } else if phases == 4 {
        "Four Phases \u{2022} Dangerous"@
    } else {
        "Multi-Phase"@
    }
}

/// Difficulty line of a boss introduction, by number of phases.
pub fn phase_text(phases: u32) -> (r: &'static str)
    ensures
        r@ == phase_text_spec(phases),
{
    match phases {
        1 => "Single Phase",
        2 => "Two Phases",
        3 => "Three Phases \u{2022} Challenging",
        4 => "Four Phases \u{2022} Dangerous",
        _ => "Multi-Phase",
    }
}

/// How a boss's phase count is highlighted.
#[derive(Debug, Clone, Copy, PartialEq, Eq, Structural)]
pub enum PhaseTone {
    Normal,
    Challenging,
    Dangerous,
}

/// Highlight for a boss's phase count: four or more is dangerous, three
/// challenging.
pub fn phase_tone(phases: u32) -> (r: PhaseTone)
    ensures
        r == if phases >= 4 {
            PhaseTone::Dangerous
        } else if phases >= 3 {
            PhaseTone::Challenging
        } else {
            PhaseTone::Normal
        },
{
    if phases >= 4 {
        PhaseTone::Dangerous
    } else if phases >= 3 {
        PhaseTone::Challenging
    } else {
        PhaseTone::Normal
    }
}

/// Texts of the Caldari–Gallente campaign's victory screen.
#[derive(Debug, Clone, Copy)]
pub struct VictoryText {
    pub header: &'static str,
    pub subtitle: &'static str,
    pub quote: &'static str,
    pub author: &'static str,
    pub motto: &'static str,
}

/// Header, subtitle, quote, author and motto of the campaign's victory
/// screen, by the player's faction.
pub open spec fn cg_victory_text_spec(player: Faction) -> (Seq<char>, Seq<char>, Seq<char>, Seq<char>, Seq<char>) {
    match player {
        Faction::Caldari => (
            "CALDARI PRIME SECURED"@,
            "The State Stands Victorious"@,
            "\"The Caldari way is the only way.\""@,
            "\u{2014} Caldari Navy Command"@,
            "FOR THE STATE"@,
        ),
        Faction::Gallente => (
            "CALDARI PRIME LIBERATED"@,
            "Freedom Prevails"@,
            "\"Liberty must be defended, at any cost.\""@,
            "\u{2014} Federation High Command"@,
            "LIBERT\u{c9} POUR TOUS"@,
        ),
        _ => (
            "CAMPAIGN COMPLETE"@,
            "Victory Achieved"@,
            "\"Well fought.\""@,
            "\u{2014} Command"@,
            "VICTORY"@,
        ),
    }
}

/// The campaign's victory-screen texts for the player's faction.
pub fn cg_victory_text(player: Faction) -> (r: VictoryText)
    ensures
        (r.header@, r.subtitle@, r.quote@, r.author@, r.motto@) == cg_victory_text_spec(player),
{
    match player {
        Faction::Caldari => VictoryText {
            header: "CALDARI PRIME SECURED",
            subtitle: "The State Stands Victorious",
            quote: "\"The Caldari way is the only way.\"",
            author: "\u{2014} Caldari Navy Command",
            motto: "FOR THE STATE",
        },
        Faction::Gallente => VictoryText {
            header: "CALDARI PRIME LIBERATED",
            subtitle: "Freedom Prevails",
            quote: "\"Liberty must be defended, at any cost.\"",
            author: "\u{2014} Federation High Command",
            motto: "LIBERT\u{c9} POUR TOUS",
        },
        _ => VictoryText {
            header: "CAMPAIGN COMPLETE",
            subtitle: "Victory Achieved",
            quote: "\"Well fought.\"",
            author: "\u{2014} Command",
            motto: "VICTORY",
        },
    }
}

/// Header, subtitle and quote of the invasion's victory screen, by the side
/// the player chose (`edencom` or `triglavian`).
pub open spec fn invasion_victory_text_spec(side: Option<Seq<char>>) -> (Seq<char>, Seq<char>, Seq<char>) {
    if side == Some("edencom"@) {
        (
            "NEW EDEN DEFENDED"@,
            "The Invasion Has Been Repelled"@,
            "\"We stood together. That was our strength.\"\n\u{2014} EDENCOM Command"@,
        )
    } else if side == Some("triglavian"@) {
        (
            "POCHVEN CLAIMED"@,
            "The Flow Is Proven"@,
            "\"Those who resist are unworthy. Those who prove are Clade.\"\n\u{2014} Zorya Triglav"@,
        )
    } else {
        ("CAMPAIGN COMPLETE"@, "Victory Achieved"@, "\"Well fought.\""@)
    }
}

/// The invasion's victory-screen header, subtitle and quote.
pub fn invasion_victory_text(side: Option<&str>) -> (r: (&'static str, &'static str, &'static str))
    ensures
        (r.0@, r.1@, r.2@) == invasion_victory_text_spec(
            match side {
                Some(s) => Some(s@),
                None => None,
            },
        ),
{
    let chosen = match side {
        Some(s) => s,
        None => {
            return ("CAMPAIGN COMPLETE", "Victory Achieved", "\"Well fought.\"");
        },
    };
    if str_eq(chosen, "edencom") {
        (
            "NEW EDEN DEFENDED",
            "The Invasion Has Been Repelled",
            "\"We stood together. That was our strength.\"\n\u{2014} EDENCOM Command",
        )
    } else if str_eq(chosen, "triglavian") {
        (
            "POCHVEN CLAIMED",
            "The Flow Is Proven",
            "\"Those who resist are unworthy. Those who prove are Clade.\"\n\u{2014} Zorya Triglav",
        )
    } else {
        ("CAMPAIGN COMPLETE", "Victory Achieved", "\"Well fought.\"")
    }
}

} // verus!
