//! Records and their statuses.
//!
//! A record of some player on some demon is a (player, demon)-record. It has one of four
//! statuses: 'submitted', 'under consideration', 'approved' and 'rejected'. An approved
//! record is the only approved (player, demon)-record; a rejected record is the only
//! (player, demon)-record of any status. The plans in `consistency` keep it so.
use crate::demon::MinimalDemon;
use crate::error::{CoreError, DemonlistError};
use crate::video::{self, url_parse, video_verdict};
use crate::movement::NamedId;
use crate::nationality::Nationality;
use crate::player::DatabasePlayer;
use crate::submitter::Submitter;
use crate::text::{case_fixed_from, lemma_case_fixed_from, lowercase, owned, str_eq, to_lowercase};
use vstd::prelude::*;

verus! {

#[derive(Debug, Eq, PartialEq, Structural, Clone, Copy, Hash)]
pub enum RecordStatus {
    Submitted,
    Approved,
    Rejected,
    UnderConsideration,
}

/// How the database spells a status.
pub open spec fn status_sql_name(status: RecordStatus) -> Seq<char> {
    match status {
        RecordStatus::Submitted => "SUBMITTED"@,
        RecordStatus::Approved => "APPROVED"@,
        RecordStatus::Rejected => "REJECTED"@,
        RecordStatus::UnderConsideration => "UNDER_CONSIDERATION"@,
    }
}

/// How a status is shown to users and written in requests.
pub open spec fn status_display_name(status: RecordStatus) -> Seq<char> {
    match status {
        RecordStatus::Submitted => "submitted"@,
        RecordStatus::Approved => "approved"@,
        RecordStatus::Rejected => "rejected"@,
        RecordStatus::UnderConsideration => "under consideration"@,
    }
}

/// The status that a database name spells, if any.
pub open spec fn status_of_sql_name(name: Seq<char>) -> Option<RecordStatus> {
    if name == "SUBMITTED"@ {
        Some(RecordStatus::Submitted)
    } else if name == "APPROVED"@ {
        Some(RecordStatus::Approved)
    } else if name == "REJECTED"@ {
        Some(RecordStatus::Rejected)
    } else if name == "UNDER_CONSIDERATION"@ {
        Some(RecordStatus::UnderConsideration)
    } else {
        None
    }
}

/// The status that a (lower-cased) display name spells, if any.
pub open spec fn status_of_display_name(name: Seq<char>) -> Option<RecordStatus> {
    if name == "approved"@ {
        Some(RecordStatus::Approved)
    } else if name == "submitted"@ {
        Some(RecordStatus::Submitted)
    } else if name == "rejected"@ {
        Some(RecordStatus::Rejected)
    } else if name == "under consideration"@ {
        Some(RecordStatus::UnderConsideration)
    } else {
        None
    }
}

impl RecordStatus {
    /// The database spelling of this status.
    pub fn to_sql(self) -> (r: String)
        ensures
            r@ == status_sql_name(self),
    {
        match self {
            RecordStatus::Submitted => owned("SUBMITTED"),
            RecordStatus::Approved => owned("APPROVED"),
            RecordStatus::Rejected => owned("REJECTED"),
            RecordStatus::UnderConsideration => owned("UNDER_CONSIDERATION"),
        }
    }

    /// Reads the database spelling of a status; the database holds no other.
    pub fn from_sql(sql: &str) -> (r: RecordStatus)
        requires
            status_of_sql_name(sql@) is Some,
        ensures
            Some(r) == status_of_sql_name(sql@),
    {
        if str_eq(sql, "SUBMITTED") {
            RecordStatus::Submitted
        } else if str_eq(sql, "APPROVED") {
            RecordStatus::Approved
        } else if str_eq(sql, "REJECTED") {
            RecordStatus::Rejected
        } else {
            RecordStatus::UnderConsideration
        }
    }

    /// The display name of this status ("submitted", "approved", ...).
    pub fn as_str(&self) -> (r: &'static str)
        ensures
            r@ == status_display_name(*self),
    {
        match self {
            RecordStatus::Submitted => "submitted",
            RecordStatus::Approved => "approved",
            RecordStatus::Rejected => "rejected",
            RecordStatus::UnderConsideration => "under consideration",
        }
    }

    /// The display name of this status as an owned string.
    pub fn to_string(&self) -> (r: String)
        ensures
            r@ == status_display_name(*self),
    {
        owned(self.as_str())
    }

    /// Reads a status from its display name, in any case; the name `as_str` gives reads
    /// back as the status.
    pub fn from_name(name: &str) -> (r: Option<RecordStatus>)
        ensures
            r == status_of_display_name(lowercase(name@)),
            forall|s: RecordStatus| #[trigger] status_display_name(s) == name@ ==> r == Some(s),
    {
        proof {
            reveal_strlit("submitted");
            reveal_strlit("approved");
            reveal_strlit("rejected");
            reveal_strlit("under consideration");
            reveal_with_fuel(case_fixed_from, 20);
            lemma_case_fixed_from("submitted"@, 0);
            lemma_case_fixed_from("approved"@, 0);
            lemma_case_fixed_from("rejected"@, 0);
            lemma_case_fixed_from("under consideration"@, 0);
            law_status_display_roundtrip(RecordStatus::Submitted);
            law_status_display_roundtrip(RecordStatus::Approved);
            law_status_display_roundtrip(RecordStatus::Rejected);
            law_status_display_roundtrip(RecordStatus::UnderConsideration);
        }
        let lower = to_lowercase(name);
        let lower = lower.as_str();
        if str_eq(lower, "approved") {
            Some(RecordStatus::Approved)
        } else if str_eq(lower, "submitted") {
            Some(RecordStatus::Submitted)
        } else if str_eq(lower, "rejected") {
            Some(RecordStatus::Rejected)
        } else if str_eq(lower, "under consideration") {
            Some(RecordStatus::UnderConsideration)
        } else {
            None
        }
    }
}

impl Default for RecordStatus {
    fn default() -> (r: Self)
        ensures
            r == RecordStatus::Submitted,
    {
        RecordStatus::Submitted
    }
}

/// Law: reading a status back from its database spelling gives the status.
pub proof fn law_status_sql_roundtrip(status: RecordStatus)
    ensures
        status_of_sql_name(status_sql_name(status)) == Some(status),
{
    reveal_strlit("SUBMITTED");
    reveal_strlit("APPROVED");
    reveal_strlit("REJECTED");
    reveal_strlit("UNDER_CONSIDERATION");
    assert("APPROVED"@[0] != "SUBMITTED"@[0]);
    assert("REJECTED"@[0] != "SUBMITTED"@[0]);
    assert("REJECTED"@[0] != "APPROVED"@[0]);
    assert("UNDER_CONSIDERATION"@[0] != "SUBMITTED"@[0]);
    assert("UNDER_CONSIDERATION"@[0] != "APPROVED"@[0]);
    assert("UNDER_CONSIDERATION"@[0] != "REJECTED"@[0]);
}

/// Law: reading a status back from its display name gives the status.
pub proof fn law_status_display_roundtrip(status: RecordStatus)
    ensures
        status_of_display_name(status_display_name(status)) == Some(status),
{
    reveal_strlit("submitted");
    reveal_strlit("approved");
    reveal_strlit("rejected");
    reveal_strlit("under consideration");
    assert("approved"@[0] != "submitted"@[0]);
    assert("rejected"@[0] != "submitted"@[0]);
    assert("rejected"@[0] != "approved"@[0]);
    assert("under consideration"@[0] != "submitted"@[0]);
    assert("under consideration"@[0] != "approved"@[0]);
    assert("under consideration"@[0] != "rejected"@[0]);
}

#[derive(Debug, Hash)]
pub struct FullRecord {
    pub id: i32,
    pub progress: i16,
    pub video: Option<String>,
    pub status: RecordStatus,
    pub player: DatabasePlayer,
    pub demon: MinimalDemon,
    pub submitter: Option<Submitter>,
    pub raw_footage: Option<String>,
}

#[derive(Debug, Hash)]
pub struct MinimalRecordPD {
    pub id: i32,
    pub progress: i16,
    pub video: Option<String>,
    pub status: RecordStatus,
    pub demon: MinimalDemon,
    pub player: DatabasePlayer,
}

#[derive(Debug, Hash, PartialEq, Eq)]
pub struct MinimalRecordD {
    pub id: i32,
    pub progress: i16,
    pub video: Option<String>,
    pub status: RecordStatus,
    pub demon: MinimalDemon,
}

#[derive(Debug, Hash, PartialEq, Eq)]
pub struct MinimalRecordP {
    pub id: i32,
    pub progress: i16,
    pub video: Option<String>,
    pub status: RecordStatus,
    pub player: DatabasePlayer,
    pub nationality: Option<Nationality>,
}

/// A change to a record, each field optional. `video: Some(None)` removes the video. The
/// new demon is given by name or by id, not both.
#[derive(Debug)]
pub struct PatchRecord {
    pub progress: Option<i16>,
    pub video: Option<Option<String>>,
    pub status: Option<RecordStatus>,
    pub player: Option<String>,
    pub demon: Option<String>,
    pub demon_id: Option<i32>,
}

/// How a patch names the record's new demon.
#[derive(Debug, PartialEq, Eq)]
pub enum DemonChange {
    Name(String),
    Id(i32),
}

impl PatchRecord {
    /// The new demon the patch asks for, if any; asking by name and by id at once is refused.
    pub fn demon_change(&self) -> (r: Result<Option<DemonChange>, DemonlistError>)
        ensures
            match (self.demon, self.demon_id) {
                (Some(name), None) => r matches Ok(Some(DemonChange::Name(n))) && n@ == name@,
                (None, Some(id)) => r == Ok::<Option<DemonChange>, DemonlistError>(Some(DemonChange::Id(id))),
                (Some(_), Some(_)) => r == Err::<Option<DemonChange>, DemonlistError>(
                    DemonlistError::Core(CoreError::MutuallyExclusive),
                ),
                (None, None) => r == Ok::<Option<DemonChange>, DemonlistError>(None),
            },
    {
        match (&self.demon, &self.demon_id) {
            (Some(name), None) => Ok(Some(DemonChange::Name(name.clone()))),
            (None, Some(id)) => Ok(Some(DemonChange::Id(*id))),
            (Some(_), Some(_)) => Err(DemonlistError::Core(CoreError::MutuallyExclusive)),
            (None, None) => Ok(None),
        }
    }
}

/// What setting a record's video to `requested` does, given the record's current video and
/// the id of a record that already uses the requested video in canonical form (if any):
/// the canonical video to store, `None` when it is the current video already, or why it is
/// refused.
pub open spec fn video_change_outcome(
    current: Option<Seq<char>>,
    requested: Seq<char>,
    duplicate: Option<i32>,
) -> Result<Option<Seq<char>>, DemonlistError> {
    match video_verdict(url_parse(requested)) {
        Err(e) => Err(e),
        Ok(v) => if current == Some(v) {
            Ok(None)
        } else if duplicate is Some {
            Err(DemonlistError::DuplicateVideo { id: duplicate->Some_0 })
        } else {
            Ok(Some(v))
        },
    }
}

/// Decides a change of a record's video: the canonical form of `requested`, unless the
/// record has it already (then `None`), a different record uses it (`duplicate` is that
/// record's id), or it is refused as a video.
pub fn video_change(current: &Option<String>, requested: &str, duplicate: Option<i32>) -> (r: Result<Option<String>, DemonlistError>)
    ensures
        match r {
            Ok(Some(v)) => video_change_outcome(
                match current {
                    Some(c) => Some(c@),
                    None => None,
                },
                requested@,
                duplicate,
            ) == Ok::<Option<Seq<char>>, DemonlistError>(Some(v@)),
            Ok(None) => video_change_outcome(
                match current {
                    Some(c) => Some(c@),
                    None => None,
                },
                requested@,
                duplicate,
            ) == Ok::<Option<Seq<char>>, DemonlistError>(None),
            Err(e) => video_change_outcome(
                match current {
                    Some(c) => Some(c@),
                    None => None,
                },
                requested@,
                duplicate,
            ) == Err::<Option<Seq<char>>, DemonlistError>(e),
        },
{
    let v = match video::validate(requested) {
        Ok(v) => v,
        Err(e) => {
            return Err(e);
        },
    };
    if let Some(c) = current {
        if *c == v {
            return Ok(None);
        }
    }
    if let Some(id) = duplicate {
        return Err(DemonlistError::DuplicateVideo { id });
    }
    Ok(Some(v))
}

/// Law: setting a record's video to one whose canonical form it already has changes
/// nothing, whatever record the duplicate lookup found (it may be the record itself);
/// another record's use of the video refuses only a real change; a refused link is refused
/// as the video checks refuse it; and a change stores the canonical form.
pub proof fn law_video_change(current: Option<Seq<char>>, requested: Seq<char>, duplicate: Option<i32>)
    ensures
        video_verdict(url_parse(requested)) matches Ok(v) && current == Some(v) ==> video_change_outcome(
            current,
            requested,
            duplicate,
        ) == Ok::<Option<Seq<char>>, DemonlistError>(None),
        video_verdict(url_parse(requested)) matches Err(e) ==> video_change_outcome(current, requested, duplicate)
            == Err::<Option<Seq<char>>, DemonlistError>(e),
        video_change_outcome(current, requested, duplicate) matches Err(DemonlistError::DuplicateVideo { id }) ==> (duplicate
            == Some(id) && (video_verdict(url_parse(requested)) matches Ok(v) && current != Some(v))),
        video_change_outcome(current, requested, duplicate) matches Ok(Some(w)) ==> video_verdict(url_parse(requested))
            == Ok::<Seq<char>, DemonlistError>(w) && current != Some(w) && duplicate is None,
        video_verdict(url_parse(requested)) matches Ok(v) ==> (current != Some(v) && duplicate is None
            ==> video_change_outcome(current, requested, duplicate) == Ok::<Option<Seq<char>>, DemonlistError>(Some(v))),
{
}

/// Law: the spellings of the statuses that the database and the requests use, and that
/// other readers of them rely on.
pub proof fn law_status_spellings()
    ensures
        status_sql_name(RecordStatus::Submitted) == "SUBMITTED"@ && status_sql_name(RecordStatus::Approved) == "APPROVED"@
            && status_sql_name(RecordStatus::Rejected) == "REJECTED"@ && status_sql_name(RecordStatus::UnderConsideration)
            == "UNDER_CONSIDERATION"@,
        status_display_name(RecordStatus::Submitted) == "submitted"@ && status_display_name(RecordStatus::Approved)
            == "approved"@ && status_display_name(RecordStatus::Rejected) == "rejected"@ && status_display_name(
            RecordStatus::UnderConsideration,
        ) == "under consideration"@,
{
}

// ---------------------------------------------------------------------------------------
// The audit log of a record

/// A modification of a record as the audit log stores it: each field that changed, with
/// its value before the change.
#[derive(Debug)]
pub struct RecordModificationData {
    pub progress: Option<i16>,
    pub video: Option<String>,
    pub status: Option<RecordStatus>,
    pub player: Option<NamedId>,
    pub demon: Option<NamedId>,
}

/// A row of the record modification log, with the names of the player and the demon
/// joined in where they still exist.
#[derive(Debug)]
pub struct RecordModificationRow {
    pub progress: Option<i16>,
    pub video: Option<String>,
    pub status: Option<String>,
    pub player_id: Option<i32>,
    pub player_name: Option<String>,
    pub demon_id: Option<i32>,
    pub demon_name: Option<String>,
}

fn named(id: Option<i32>, name: Option<String>) -> (r: Option<NamedId>)
    ensures
        r == (match id {
            Some(i) => Some(NamedId { id: i, name }),
            None => None,
        }),
{
    match id {
        Some(i) => Some(NamedId { id: i, name }),
        None => None,
    }
}

impl RecordModificationData {
    /// Reads a modification log row: a player or demon is named where its id was logged.
    pub fn from_row(row: RecordModificationRow) -> (r: RecordModificationData)
        requires
            row.status matches Some(s) ==> status_of_sql_name(s@) is Some,
        ensures
            r.progress == row.progress,
            r.video == row.video,
            r.status == (match row.status {
                Some(s) => status_of_sql_name(s@),
                None => None,
            }),
            r.player == (match row.player_id {
                Some(id) => Some(NamedId { id, name: row.player_name }),
                None => None,
            }),
            r.demon == (match row.demon_id {
                Some(id) => Some(NamedId { id, name: row.demon_name }),
                None => None,
            }),
    {
        let status = match &row.status {
            Some(s) => Some(RecordStatus::from_sql(s.as_str())),
            None => None,
        };
        RecordModificationData {
            progress: row.progress,
            video: row.video,
            status,
            player: named(row.player_id, row.player_name),
            demon: named(row.demon_id, row.demon_name),
        }
    }
}

} // verus!
