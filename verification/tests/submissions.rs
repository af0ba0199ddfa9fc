use pointercrate_demonlist::config::ListConfig;
use pointercrate_demonlist::demon::MinimalDemon;
use pointercrate_demonlist::error::DemonlistError;
use pointercrate_demonlist::player::DatabasePlayer;
use pointercrate_demonlist::record::RecordStatus;
use pointercrate_demonlist::submission::{ExistingRecord, NormalizedSubmission, Submission};

fn config() -> ListConfig {
    ListConfig::new(75, 150).unwrap()
}

fn submission(progress: i16, banned: bool, position: i16, status: RecordStatus, raw: Option<&str>) -> NormalizedSubmission {
    NormalizedSubmission {
        progress,
        player: DatabasePlayer { id: 1, name: "stardust1971".to_string(), banned },
        demon: MinimalDemon { id: 1, position, name: "Bloodbath".to_string() },
        status,
        video: Some("https://www.youtube.com/watch?v=dQw4w9WgXcQ".to_string()),
        raw_footage: raw.map(|r| r.to_string()),
        note: None,
    }
}

#[test]
fn test_banned_cannot_submit() {
    let result = NormalizedSubmission {
        progress: 100,
        player: DatabasePlayer { id: 1, name: "stardust1971".to_string(), banned: true },
        demon: MinimalDemon { id: 1, position: 1, name: "Bloodbath".to_string() },
        status: RecordStatus::Submitted,
        video: None,
        raw_footage: None,
        note: None,
    }
    .validate(&config(), 50, None, None);

    assert!(result.is_err());
    assert_eq!(result.unwrap_err(), DemonlistError::PlayerBanned)
}

#[test]
fn legacy_and_extended_rules() {
    let raw = Some("https://example.com/raw.mp4");
    assert_eq!(
        submission(100, false, 151, RecordStatus::Submitted, raw).validate(&config(), 100, None, None).unwrap_err(),
        DemonlistError::SubmitLegacy
    );
    assert_eq!(
        submission(90, false, 100, RecordStatus::Submitted, raw).validate(&config(), 50, None, None).unwrap_err(),
        DemonlistError::Non100Extended
    );
    // list moderators may add such records directly
    assert!(submission(90, false, 151, RecordStatus::Approved, raw).validate(&config(), 50, None, None).is_ok());
}

#[test]
fn progress_and_duplicates() {
    let raw = Some("https://example.com/raw.mp4");
    assert_eq!(
        submission(40, false, 1, RecordStatus::Submitted, raw).validate(&config(), 55, None, None).unwrap_err(),
        DemonlistError::InvalidProgress { requirement: 55 }
    );
    assert_eq!(
        submission(101, false, 1, RecordStatus::Submitted, raw).validate(&config(), 55, None, None).unwrap_err(),
        DemonlistError::InvalidProgress { requirement: 55 }
    );
    let same_video = Some(ExistingRecord { id: 7, status: RecordStatus::Rejected });
    assert_eq!(
        submission(60, false, 1, RecordStatus::Submitted, raw).validate(&config(), 55, same_video, None).unwrap_err(),
        DemonlistError::SubmissionExists { status: RecordStatus::Rejected, existing: 7 }
    );
    let standing = Some(ExistingRecord { id: 9, status: RecordStatus::Approved });
    assert_eq!(
        submission(60, false, 1, RecordStatus::Submitted, raw).validate(&config(), 55, None, standing).unwrap_err(),
        DemonlistError::SubmissionExists { status: RecordStatus::Approved, existing: 9 }
    );
}

#[test]
fn raw_footage_rules() {
    assert_eq!(
        submission(60, false, 1, RecordStatus::Submitted, Some("not a url")).validate(&config(), 55, None, None).unwrap_err(),
        DemonlistError::MalformedRawUrl
    );
    assert_eq!(
        submission(60, false, 1, RecordStatus::Submitted, None).validate(&config(), 55, None, None).unwrap_err(),
        DemonlistError::RawRequired
    );
    assert!(submission(60, false, 1, RecordStatus::Approved, None).validate(&config(), 55, None, None).is_ok());
    let ok = submission(60, false, 1, RecordStatus::Submitted, Some("https://example.com/raw.mp4"))
        .validate(&config(), 55, None, None)
        .unwrap();
    assert_eq!(ok.progress, 60);
    assert!(!ok.needs_status_change());
    let row = ok.new_row(12);
    assert_eq!((row.id, row.player, row.demon, row.progress, row.status), (12, 1, 1, 60, RecordStatus::Submitted));
}

#[test]
fn submitted_videos_are_normalized() {
    let s = Submission {
        progress: 100,
        player: "Riot".to_string(),
        demon: 1,
        video: Some("https://youtu.be/dQw4w9WgXcQ".to_string()),
        raw_footage: None,
        status: RecordStatus::Submitted,
        note: Some("  ".to_string()),
    };
    assert!(s.has_video());
    assert_eq!(s.status(), RecordStatus::Submitted);
    let video = s.normalized_video().unwrap();
    assert_eq!(video.as_deref(), Some("https://www.youtube.com/watch?v=dQw4w9WgXcQ"));
    let normalized = s.into_normalized(
        video,
        DatabasePlayer { id: 3, name: "Riot".to_string(), banned: false },
        MinimalDemon { id: 1, position: 1, name: "Bloodbath".to_string() },
    );
    let validated = normalized.validate(&config(), 50, None, None);
    // no raw footage on a plain submission
    assert_eq!(validated.unwrap_err(), DemonlistError::RawRequired);

    let s = Submission {
        progress: 100,
        player: "Riot".to_string(),
        demon: 1,
        video: Some("https://example.com/v".to_string()),
        raw_footage: None,
        status: RecordStatus::Submitted,
        note: None,
    };
    assert_eq!(s.normalized_video(), Err(DemonlistError::UnsupportedVideoHost));
}

#[test]
fn notes_of_submissions() {
    let mut s = submission(100, false, 1, RecordStatus::UnderConsideration, None);
    s.note = Some(" \n ".to_string());
    let v = s.validate(&config(), 50, None, None).unwrap();
    assert!(!v.stores_note());
    assert!(v.needs_status_change());
    let mut s = submission(100, false, 1, RecordStatus::UnderConsideration, None);
    s.note = Some(" nice ".to_string());
    let v = s.validate(&config(), 50, None, None).unwrap();
    assert!(v.stores_note());
}
