//! How progress is written and read back: the only valid copy of a save is
//! never truncated, and a load falls back from the save to its backup to the
//! defaults. The reading, writing and parsing themselves are done by the
//! caller, which hands in what it found.

use vstd::prelude::*;

verus! {

/// What reading one copy of the save gave.
#[derive(Debug, Clone, Copy, PartialEq, Eq, Structural)]
pub enum ReadOutcome {
    /// The file was read and parsed.
    Parsed,
    /// There is no such file.
    Missing,
    /// The file exists but could not be read or parsed.
    Failed,
}

/// Which copy a load takes its progress from.
#[derive(Debug, Clone, Copy, PartialEq, Eq, Structural)]
pub enum LoadSource {
    Primary,
    Backup,
    Defaults,
}

/// The copy a load uses: the save when it parses, else the backup when it
/// parses, else the defaults.
pub open spec fn load_source_spec(primary: ReadOutcome, backup: ReadOutcome) -> LoadSource {
    if primary == ReadOutcome::Parsed {
        LoadSource::Primary
    } else if backup == ReadOutcome::Parsed {
        LoadSource::Backup
    } else {
        LoadSource::Defaults
    }
}

/// Chooses where a load takes its progress from. The backup is only looked at
/// when the save itself did not parse; the save file is never touched by a load.
pub fn choose_load_source(primary: ReadOutcome, backup: ReadOutcome) -> (r: LoadSource)
    ensures
        r == load_source_spec(primary, backup),
{
    match primary {
        ReadOutcome::Parsed => LoadSource::Primary,
        _ => match backup {
            ReadOutcome::Parsed => LoadSource::Backup,
            _ => LoadSource::Defaults,
        },
    }
}

/// What a save does with the file already on disk before it writes the new
/// contents.
#[derive(Debug, Clone, Copy, PartialEq, Eq, Structural)]
pub enum SaveStep {
    /// The file already holds exactly the new contents: nothing is written.
    Unchanged,
    /// The file holds another valid save: it becomes the backup first.
    BackupThenReplace,
    /// The file cannot be parsed: it is kept aside under a new name first.
    PreserveThenReplace,
    /// There is no file yet: the new contents are written.
    Replace,
}

/// The step a save takes, given the bytes already on disk (if any), whether
/// they parse as a save, and the new bytes.
pub open spec fn save_step_spec(previous: Option<Seq<u8>>, previous_parses: bool, data: Seq<u8>) -> SaveStep {
    match previous {
        None => SaveStep::Replace,
        Some(p) => if p == data {
            SaveStep::Unchanged
        } else if previous_parses {
            SaveStep::BackupThenReplace
        } else {
            SaveStep::PreserveThenReplace
        },
    }
}

/// Whether two byte strings are equal.
fn bytes_equal(a: &[u8], b: &[u8]) -> (r: bool)
    ensures
        r == (a@ == b@),
{
    if a.len() != b.len() {
        return false;
    }
    let mut i: usize = 0;
    while i < a.len()
        invariant
            i <= a@.len(),
            a@.len() == b@.len(),
            forall|j: int| 0 <= j < i ==> a@[j] == b@[j],
        decreases a@.len() - i,
    {
        if a[i] != b[i] {
            return false;
        }
        i = i + 1;
    }
    assert(a@ =~= b@);
    true
}

/// Plans a save from what is on disk now. `previous` is `None` when there is
/// no file; `previous_parses` says whether its bytes parse as a save.
pub fn plan_save(previous: Option<&[u8]>, previous_parses: bool, data: &[u8]) -> (r: SaveStep)
    ensures
        r == save_step_spec(
            match previous {
                Some(p) => Some(p@),
                None => None,
            },
            previous_parses,
            data@,
        ),
{
    match previous {
        None => SaveStep::Replace,
        Some(p) => {
            if bytes_equal(p, data) {
                SaveStep::Unchanged
            } else if previous_parses {
                SaveStep::BackupThenReplace
            } else {
                SaveStep::PreserveThenReplace
            }
        },
    }
}

/// A valid save is never simply overwritten: whenever the file on disk parses
/// and differs from the new contents, it is kept as the backup before the
/// new contents replace it, and a file that does not parse is kept aside.
pub proof fn law_valid_copy_is_kept(previous: Seq<u8>, previous_parses: bool, data: Seq<u8>)
    requires
        previous != data,
    ensures
        previous_parses ==> save_step_spec(Some(previous), previous_parses, data)
            == SaveStep::BackupThenReplace,
        !previous_parses ==> save_step_spec(Some(previous), previous_parses, data)
            == SaveStep::PreserveThenReplace,
{
}

/// Saving the same contents again writes nothing.
pub proof fn law_same_contents_not_rewritten(data: Seq<u8>, previous_parses: bool)
    ensures
        save_step_spec(Some(data), previous_parses, data) == SaveStep::Unchanged,
{
}

/// A load prefers the save, uses the backup only when the save does not
/// parse, and falls back to the defaults only when neither parses.
pub proof fn law_load_prefers_save(primary: ReadOutcome, backup: ReadOutcome)
    ensures
        primary == ReadOutcome::Parsed <==> load_source_spec(primary, backup) == LoadSource::Primary,
        load_source_spec(primary, backup) == LoadSource::Backup <==> (primary
            != ReadOutcome::Parsed && backup == ReadOutcome::Parsed),
        load_source_spec(primary, backup) == LoadSource::Defaults <==> (primary
            != ReadOutcome::Parsed && backup != ReadOutcome::Parsed),
{
}

} // verus!
