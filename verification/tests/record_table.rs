use pointercrate_demonlist::consistency::{
    plan_ban, plan_demon_change, plan_move, plan_player_change, plan_progress_change, plan_status_change, RecordRow,
};
use pointercrate_demonlist::error::DemonlistError;
use pointercrate_demonlist::player::DatabasePlayer;
use pointercrate_demonlist::record::RecordStatus;

fn row(id: i32, player: i32, demon: i32, progress: i16, status: RecordStatus) -> RecordRow {
    RecordRow { id, player, demon, progress, status, video: Some(format!("https://vimeo.com/{}", id)) }
}

#[test]
fn rejecting_deletes_the_whole_pair() {
    let rows = vec![
        row(1, 10, 20, 50, RecordStatus::Submitted),
        row(2, 10, 20, 80, RecordStatus::Approved),
        row(3, 10, 20, 60, RecordStatus::UnderConsideration),
    ];
    assert_eq!(plan_status_change(&rows, &rows[0], RecordStatus::Rejected), vec![2, 3]);
}

#[test]
fn approving_deletes_what_it_outdoes() {
    let rows = vec![
        row(1, 10, 20, 70, RecordStatus::Submitted),
        row(2, 10, 20, 60, RecordStatus::Approved),
        row(3, 10, 20, 70, RecordStatus::Submitted),
        row(4, 10, 20, 90, RecordStatus::Submitted),
    ];
    assert_eq!(plan_status_change(&rows, &rows[0], RecordStatus::Approved), vec![2, 3]);
    // an approved record that stays approved, or one moving between submitted states, deletes nothing
    assert!(plan_status_change(&rows, &rows[1], RecordStatus::Approved).is_empty());
    assert!(plan_status_change(&rows, &rows[0], RecordStatus::UnderConsideration).is_empty());
    let rejected = row(5, 10, 20, 70, RecordStatus::Rejected);
    assert!(plan_status_change(&vec![rejected.clone_row()], &rejected, RecordStatus::Approved).is_empty());
}

trait CloneRow {
    fn clone_row(&self) -> RecordRow;
}

impl CloneRow for RecordRow {
    fn clone_row(&self) -> RecordRow {
        RecordRow { id: self.id, player: self.player, demon: self.demon, progress: self.progress, status: self.status, video: self.video.clone() }
    }
}

#[test]
fn moving_an_approved_record_takes_over_a_better_one() {
    let moved = row(1, 10, 20, 60, RecordStatus::Approved);
    let target = vec![
        row(2, 11, 20, 80, RecordStatus::Approved),
        row(3, 11, 20, 70, RecordStatus::Submitted),
        row(4, 11, 20, 95, RecordStatus::Submitted),
    ];
    let plan = plan_move(&target, &moved, 11, 20);
    assert_eq!(plan.removed, vec![2, 3]);
    assert_eq!(plan.notes_from, vec![3]);
    assert_eq!(plan.adopted, Some((80, Some("https://vimeo.com/2".to_string()))));
}

#[test]
fn moving_other_records() {
    let target = vec![row(2, 11, 20, 80, RecordStatus::Approved), row(3, 11, 20, 40, RecordStatus::Submitted)];
    let rejected = row(1, 10, 20, 60, RecordStatus::Rejected);
    let plan = plan_move(&target, &rejected, 11, 20);
    assert_eq!(plan.removed, vec![2, 3]);
    assert_eq!(plan.notes_from, vec![2, 3]);
    assert_eq!(plan.adopted, None);
    let submitted = row(1, 10, 20, 60, RecordStatus::Submitted);
    let plan = plan_move(&target, &submitted, 11, 20);
    assert!(plan.removed.is_empty() && plan.adopted.is_none());
    let approved = row(1, 10, 20, 90, RecordStatus::Approved);
    let plan = plan_move(&target, &approved, 11, 20);
    assert_eq!(plan.removed, vec![2, 3]);
    assert_eq!(plan.adopted, None);
    // staying in the same pair changes nothing
    let plan = plan_move(&target, &row(9, 11, 20, 10, RecordStatus::Approved), 11, 20);
    assert!(plan.removed.is_empty() && plan.adopted.is_none());
}

#[test]
fn banned_players_hold_rejected_records_only() {
    let rec = row(1, 10, 20, 60, RecordStatus::Approved);
    let banned = DatabasePlayer { id: 11, name: "x".to_string(), banned: true };
    assert!(matches!(plan_player_change(&vec![], &rec, &banned), Err(DemonlistError::PlayerBanned)));
    let rec = row(1, 10, 20, 60, RecordStatus::Rejected);
    assert!(plan_player_change(&vec![], &rec, &banned).is_ok());
}

#[test]
fn changing_progress() {
    let rec = row(1, 10, 20, 60, RecordStatus::Approved);
    let rows = vec![
        row(1, 10, 20, 60, RecordStatus::Approved),
        row(2, 10, 20, 50, RecordStatus::Submitted),
        row(3, 10, 20, 90, RecordStatus::Submitted),
        row(4, 10, 20, 95, RecordStatus::UnderConsideration),
    ];
    let plan = plan_progress_change(&rows, &rec, 70, 50).ok().unwrap();
    assert_eq!(plan.removed, vec![2]);
    assert!(matches!(plan_progress_change(&rows, &rec, 40, 50), Err(DemonlistError::InvalidProgress { requirement: 50 })));
    assert!(matches!(plan_progress_change(&rows, &rec, 101, 50), Err(DemonlistError::InvalidProgress { requirement: 50 })));
    let submitted = row(2, 10, 20, 50, RecordStatus::Submitted);
    let plan = plan_progress_change(&rows, &submitted, 70, 50).ok().unwrap();
    assert!(plan.removed.is_empty());
}

#[test]
fn banning_a_player() {
    let rows = vec![
        row(1, 10, 20, 60, RecordStatus::Approved),
        row(2, 10, 21, 50, RecordStatus::Submitted),
        row(3, 10, 22, 90, RecordStatus::Rejected),
        row(4, 10, 23, 95, RecordStatus::UnderConsideration),
    ];
    let plan = plan_ban(&rows, 10);
    assert_eq!(plan.removed, vec![2, 4]);
    assert_eq!(plan.rejected, vec![1, 3]);
}

#[test]
fn changing_demons_needs_the_requirement() {
    let rec = row(1, 10, 20, 60, RecordStatus::Approved);
    assert!(plan_demon_change(&vec![], &rec, 21, 60).is_ok());
    assert!(matches!(plan_demon_change(&vec![], &rec, 21, 61), Err(DemonlistError::InvalidProgress { requirement: 61 })));
}

#[test]
fn a_record_moved_to_another_demon_takes_precedence() {
    let rec = row(1, 10, 20, 60, RecordStatus::Approved);
    let target = vec![row(2, 10, 21, 50, RecordStatus::Approved), row(3, 10, 21, 70, RecordStatus::Submitted)];
    let plan = plan_demon_change(&target, &rec, 21, 40).ok().unwrap();
    assert_eq!(plan.removed, vec![2]);
    assert_eq!(plan.notes_from, vec![2]);
    assert_eq!(plan.adopted, None);
    let better = vec![row(4, 10, 21, 90, RecordStatus::Approved)];
    let plan = plan_demon_change(&better, &rec, 21, 40).ok().unwrap();
    assert_eq!(plan.removed, vec![4]);
    assert_eq!(plan.adopted, Some((90, Some("https://vimeo.com/4".to_string()))));
}

#[test]
fn a_submission_moved_next_to_a_rejected_record_replaces_it() {
    let submitted = row(1, 10, 20, 60, RecordStatus::Submitted);
    let target = vec![row(2, 11, 20, 100, RecordStatus::Rejected)];
    let plan = plan_move(&target, &submitted, 11, 20);
    assert_eq!(plan.removed, vec![2]);
    assert_eq!(plan.notes_from, vec![2]);
}
