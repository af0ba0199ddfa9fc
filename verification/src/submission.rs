//! Record submissions: the checks a submission passes before it becomes a record.
use crate::config::ListConfig;
use crate::consistency::{after_submission, blocks_submission, consistent, law_submission_keeps_consistency, RecordRow};
use crate::demon::MinimalDemon;
use crate::error::DemonlistError;
use crate::player::DatabasePlayer;
use crate::record::RecordStatus;
use crate::text::{blank, is_blank};
use crate::video::{self, parse_url, url_parse, video_verdict};
use vstd::prelude::*;

verus! {

/// A record as submitted: the demon by id, the player by name.
#[derive(Debug)]
pub struct Submission {
    pub progress: i16,
    pub player: String,
    pub demon: i32,
    pub video: Option<String>,
    pub raw_footage: Option<String>,
    pub status: RecordStatus,
    /// An initial, submitter provided note for the record.
    pub note: Option<String>,
}

/// A submission whose video is in canonical form and whose player and demon are known.
#[derive(Debug)]
pub struct NormalizedSubmission {
    pub progress: i16,
    pub player: DatabasePlayer,
    pub demon: MinimalDemon,
    pub status: RecordStatus,
    pub video: Option<String>,
    pub raw_footage: Option<String>,
    pub note: Option<String>,
}

/// A submission that passed every check and can be added as a record.
#[derive(Debug)]
pub struct ValidatedSubmission {
    pub progress: i16,
    pub video: Option<String>,
    pub raw_footage: Option<String>,
    pub status: RecordStatus,
    pub player: DatabasePlayer,
    pub demon: MinimalDemon,
    pub note: Option<String>,
}

/// An existing record found while checking a submission: its id and status.
#[derive(Debug, Clone, Copy, PartialEq, Eq, Structural)]
pub struct ExistingRecord {
    pub id: i32,
    pub status: RecordStatus,
}

impl Submission {
    pub fn has_video(&self) -> (r: bool)
        ensures
            r == self.video is Some,
    {
        self.video.is_some()
    }

    pub fn status(&self) -> (r: RecordStatus)
        ensures
            r == self.status,
    {
        self.status
    }

    /// The submitted video in canonical form, or why it is refused.
    pub fn normalized_video(&self) -> (r: Result<Option<String>, DemonlistError>)
        ensures
            match self.video {
                None => r == Ok::<Option<String>, DemonlistError>(None),
                Some(v) => match r {
                    Ok(Some(s)) => video_verdict(url_parse(v@)) == Ok::<Seq<char>, DemonlistError>(s@),
                    Ok(None) => false,
                    Err(e) => video_verdict(url_parse(v@)) == Err::<Seq<char>, DemonlistError>(e),
                },
            },
    {
        match &self.video {
            Some(v) => match video::validate(v.as_str()) {
                Ok(s) => Ok(Some(s)),
                Err(e) => Err(e),
            },
            None => Ok(None),
        }
    }

    /// The submission with its video replaced by the canonical one and with its player and
    /// demon resolved.
    pub fn into_normalized(self, video: Option<String>, player: DatabasePlayer, demon: MinimalDemon) -> (r: NormalizedSubmission)
        ensures
            r == (NormalizedSubmission {
                progress: self.progress,
                player,
                demon,
                status: self.status,
                video,
                raw_footage: self.raw_footage,
                note: self.note,
            }),
    {
        NormalizedSubmission {
            progress: self.progress,
            player,
            demon,
            status: self.status,
            video,
            raw_footage: self.raw_footage,
            note: self.note,
        }
    }
}

/// Why a normalized submission is refused, if it is, given the list's sizes, the demon's
/// record requirement, the record that already uses the submission's video (if any), the
/// record of the pair that stands against the submission (a rejected one, one under
/// consideration, or an approved one with at least as much progress; if any), and whether
/// the raw footage parses as a URL. The checks are made in this order.
pub open spec fn submission_refusal(
    s: NormalizedSubmission,
    config: ListConfig,
    requirement: i16,
    same_video: Option<ExistingRecord>,
    standing: Option<ExistingRecord>,
    raw_is_url: bool,
) -> Option<DemonlistError> {
    if s.player.banned {
        Some(DemonlistError::PlayerBanned)
    } else if s.demon.position > config.extended_list_size && s.status == RecordStatus::Submitted {
        Some(DemonlistError::SubmitLegacy)
    } else if s.demon.position > config.list_size && s.progress != 100 && s.status == RecordStatus::Submitted {
        Some(DemonlistError::Non100Extended)
    } else if s.progress > 100 || s.progress < requirement {
        Some(DemonlistError::InvalidProgress { requirement })
    } else if s.video is Some && same_video is Some {
        Some(DemonlistError::SubmissionExists { existing: same_video->Some_0.id, status: same_video->Some_0.status })
    } else if standing is Some {
        Some(DemonlistError::SubmissionExists { existing: standing->Some_0.id, status: standing->Some_0.status })
    } else if s.raw_footage is Some && !raw_is_url {
        Some(DemonlistError::MalformedRawUrl)
    } else if s.raw_footage is None && s.status == RecordStatus::Submitted {
        Some(DemonlistError::RawRequired)
    } else {
        None
    }
}

/// Whether the submission's raw footage, if there is any, parses as a URL.
pub open spec fn raw_footage_is_url(s: NormalizedSubmission) -> bool {
    match s.raw_footage {
        Some(raw) => url_parse(raw@) is Some,
        None => true,
    }
}

impl NormalizedSubmission {
    /// Checks the submission against the list's rules. The facts that the database
    /// holds are given: the demon's record requirement, the record that already uses the
    /// submission's video (only read when the submission has a video), and the record of
    /// the pair that stands against the submission.
    pub fn validate(
        self,
        config: &ListConfig,
        requirement: i16,
        same_video: Option<ExistingRecord>,
        standing: Option<ExistingRecord>,
    ) -> (r: Result<ValidatedSubmission, DemonlistError>)
        ensures
            match submission_refusal(self, *config, requirement, same_video, standing, raw_footage_is_url(self)) {
                Some(e) => r == Err::<ValidatedSubmission, DemonlistError>(e),
                None => r == Ok::<ValidatedSubmission, DemonlistError>(
                    ValidatedSubmission {
                        progress: self.progress,
                        video: self.video,
                        raw_footage: self.raw_footage,
                        status: self.status,
                        player: self.player,
                        demon: self.demon,
                        note: self.note,
                    },
                ),
            },
    {
        // Banned players can't have records on the list
        if self.player.banned {
            return Err(DemonlistError::PlayerBanned);
        }
        let submitted = matches!(self.status, RecordStatus::Submitted);
        // No submissions for the legacy list (list moderators add those directly)
        if self.demon.position > config.extended_list_size && submitted {
            return Err(DemonlistError::SubmitLegacy);
        }
        // Only 100% submissions for the extended list
        if self.demon.position > config.list_size && self.progress != 100 && submitted {
            return Err(DemonlistError::Non100Extended);
        }
        if self.progress > 100 || self.progress < requirement {
            return Err(DemonlistError::InvalidProgress { requirement });
        }
        if self.video.is_some() {
            if let Some(row) = same_video {
                return Err(DemonlistError::SubmissionExists { existing: row.id, status: row.status });
            }
        }
        if let Some(row) = standing {
            return Err(DemonlistError::SubmissionExists { existing: row.id, status: row.status });
        }
        match &self.raw_footage {
            Some(raw) => {
                if parse_url(raw.as_str()).is_none() {
                    return Err(DemonlistError::MalformedRawUrl);
                }
            },
            None => {
                // list moderators can add records without raw footage
                if submitted {
                    return Err(DemonlistError::RawRequired);
                }
            },
        }
        Ok(
            ValidatedSubmission {
                progress: self.progress,
                video: self.video,
                raw_footage: self.raw_footage,
                status: self.status,
                player: self.player,
                demon: self.demon,
                note: self.note,
            },
        )
    }
}

impl ValidatedSubmission {
    /// The record is added as 'submitted' and then moved to its requested status when
    /// that differs (which also updates the player's score).
    pub fn needs_status_change(&self) -> (r: bool)
        ensures
            r == (self.status != RecordStatus::Submitted),
    {
        !matches!(self.status, RecordStatus::Submitted)
    }

    /// The initial note is stored unless it is blank.
    pub fn stores_note(&self) -> (r: bool)
        ensures
            r == (self.note matches Some(n) && !blank(n@)),
    {
        match &self.note {
            Some(n) => !is_blank(n.as_str()),
            None => false,
        }
    }

    /// The row the new record is added as, under the id the database gave it.
    pub fn new_row(&self, id: i32) -> (r: RecordRow)
        ensures
            r.id == id,
            r.player == self.player.id,
            r.demon == self.demon.id,
            r.progress == self.progress,
            r.status == RecordStatus::Submitted,
            r.video == self.video,
    {
        let video = match &self.video {
            Some(v) => Some(v.clone()),
            None => None,
        };
        RecordRow {
            id,
            player: self.player.id,
            demon: self.demon.id,
            progress: self.progress,
            status: RecordStatus::Submitted,
            video,
        }
    }
}

/// The row a submission is added as, under id `id`.
pub open spec fn submission_row(s: NormalizedSubmission, id: i32) -> RecordRow {
    RecordRow {
        id,
        player: s.player.id,
        demon: s.demon.id,
        progress: s.progress,
        status: RecordStatus::Submitted,
        video: s.video,
    }
}

/// Law: a submission that the checks accept, with the standing record looked up in a
/// consistent table, leaves the table consistent once it is added with its requested
/// status.
pub proof fn law_accepted_submission_keeps_consistency(
    t: Map<i32, RecordRow>,
    s: NormalizedSubmission,
    config: ListConfig,
    requirement: i16,
    same_video: Option<ExistingRecord>,
    standing: Option<ExistingRecord>,
    id: i32,
)
    requires
        consistent(t),
        !t.dom().contains(id),
        standing is None ==> forall|rid: i32|
            #[trigger] t.dom().contains(rid) ==> !blocks_submission(submission_row(s, id), t[rid]),
        submission_refusal(s, config, requirement, same_video, standing, raw_footage_is_url(s)) is None,
    ensures
        consistent(after_submission(t, submission_row(s, id), s.status)),
{
    law_submission_keeps_consistency(t, submission_row(s, id), s.status);
}

/// Law: the checks accept no submission whose pair holds a rejected record, a record under
/// consideration or an approved record with at least as much progress, nor one whose video
/// another record uses, when the records they are given were looked up in the table (a
/// lookup finds a record whenever there is one).
pub proof fn law_blocked_submissions_are_refused(
    t: Map<i32, RecordRow>,
    s: NormalizedSubmission,
    config: ListConfig,
    requirement: i16,
    same_video: Option<ExistingRecord>,
    standing: Option<ExistingRecord>,
    id: i32,
)
    requires
        standing is None ==> forall|rid: i32|
            #[trigger] t.dom().contains(rid) ==> !blocks_submission(submission_row(s, id), t[rid]),
        s.video is Some && same_video is None ==> forall|rid: i32|
            #[trigger] t.dom().contains(rid) ==> t[rid].video != s.video,
    ensures
        submission_refusal(s, config, requirement, same_video, standing, raw_footage_is_url(s)) is None ==> {
            &&& forall|rid: i32| #[trigger] t.dom().contains(rid) ==> !blocks_submission(submission_row(s, id), t[rid])
            &&& s.video is Some ==> forall|rid: i32| #[trigger] t.dom().contains(rid) ==> t[rid].video != s.video
        },
{
}

/// Law: what the submission checks accept, and why they refuse. A submission is accepted
/// exactly when its player is not banned, a plain submission is for the main or extended
/// list and is a 100% record beyond the main list, its progress lies in
/// `[requirement, 100]`, no record uses its video, no record of its pair stands against it,
/// its raw footage (if any) is a URL, and a plain submission has raw footage, whatever the
/// demon's position. Each refusal names a cause that holds; a banned player is refused
/// first.
pub proof fn law_submission_checks(
    s: NormalizedSubmission,
    config: ListConfig,
    requirement: i16,
    same_video: Option<ExistingRecord>,
    standing: Option<ExistingRecord>,
    raw_is_url: bool,
)
    ensures
        submission_refusal(s, config, requirement, same_video, standing, raw_is_url) is None <==> {
            &&& !s.player.banned
            &&& s.status == RecordStatus::Submitted ==> s.demon.position <= config.extended_list_size
            &&& s.status == RecordStatus::Submitted && s.demon.position > config.list_size ==> s.progress == 100
            &&& requirement <= s.progress <= 100
            &&& s.video is Some ==> same_video is None
            &&& standing is None
            &&& s.raw_footage is Some ==> raw_is_url
            &&& s.status == RecordStatus::Submitted ==> s.raw_footage is Some
        },
        s.player.banned ==> submission_refusal(s, config, requirement, same_video, standing, raw_is_url) == Some(
            DemonlistError::PlayerBanned,
        ),
        submission_refusal(s, config, requirement, same_video, standing, raw_is_url) == Some(DemonlistError::SubmitLegacy)
            ==> s.status == RecordStatus::Submitted && s.demon.position > config.extended_list_size,
        submission_refusal(s, config, requirement, same_video, standing, raw_is_url) == Some(DemonlistError::Non100Extended)
            ==> s.status == RecordStatus::Submitted && s.demon.position > config.list_size && s.progress != 100,
        submission_refusal(s, config, requirement, same_video, standing, raw_is_url) matches Some(
            DemonlistError::InvalidProgress { requirement: r },
        ) ==> r == requirement && (s.progress < requirement || s.progress > 100),
        submission_refusal(s, config, requirement, same_video, standing, raw_is_url) matches Some(
            DemonlistError::SubmissionExists { existing, status },
        ) ==> (s.video is Some && same_video == Some(ExistingRecord { id: existing, status })) || standing == Some(
            ExistingRecord { id: existing, status },
        ),
        submission_refusal(s, config, requirement, same_video, standing, raw_is_url) == Some(DemonlistError::MalformedRawUrl)
            ==> s.raw_footage is Some && !raw_is_url,
        submission_refusal(s, config, requirement, same_video, standing, raw_is_url) == Some(DemonlistError::RawRequired)
            ==> s.raw_footage is None && s.status == RecordStatus::Submitted,
{
}

} // verus!
