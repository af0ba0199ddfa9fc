use pointercrate_demonlist::config::ListConfig;
use pointercrate_demonlist::demon::{Demon, MinimalDemon, TimeShiftedDemon};
use pointercrate_demonlist::text::decimal_string;
use pointercrate_demonlist::movement::{movement_log, AuditEntry, AuditEntryKind, MovementLogEntry, MovementReason, NamedId, MICROS_PER_DAY};
use pointercrate_demonlist::nationality::{group_best_records, group_creations, BestRecordRow, CreationRow};
use pointercrate_demonlist::pages::{
    chart_labels, claimed_progress, count_completions, demon_page_description, demon_page_title, headline, list_sections,
    neighbour_links, overview_panels, qualifying_progress, position_chart_data, position_chart_labels, score_entries, shows_records_panel, standing_today, year_only_labels, Standing, DemonsTab, Destination, Headline, ListIntegrationTab, PlayersPage, RecordSubmitter,
    RecordsPage, SubmittersPage, Tardis,
};
use pointercrate_demonlist::permissions::{LIST_ADMINISTRATOR_BIT, LIST_HELPER_BIT, LIST_MODERATOR_BIT};
use pointercrate_demonlist::player::DatabasePlayer;
use pointercrate_demonlist::record::{MinimalRecordD, MinimalRecordP, RecordStatus};

fn config() -> ListConfig {
    ListConfig::new(75, 150).unwrap()
}

fn player(id: i32, name: &str) -> DatabasePlayer {
    DatabasePlayer { id, name: name.to_string(), banned: false }
}

fn demon(id: i32, position: i16) -> Demon {
    Demon {
        base: MinimalDemon { id, position, name: format!("demon {}", id) },
        requirement: 50,
        video: None,
        thumbnail: String::new(),
        publisher: player(1, "p"),
        verifier: player(1, "p"),
        level_id: None,
    }
}

#[test]
fn account_tabs_by_permission() {
    assert!(DemonsTab.should_display_for(LIST_MODERATOR_BIT));
    assert!(DemonsTab.should_display_for(LIST_ADMINISTRATOR_BIT));
    assert!(!DemonsTab.should_display_for(LIST_HELPER_BIT));
    assert!(RecordsPage.should_display_for(LIST_HELPER_BIT));
    assert!(!RecordsPage.should_display_for(0));
    assert!(PlayersPage.should_display_for(LIST_MODERATOR_BIT));
    assert!(SubmittersPage.should_display_for(LIST_ADMINISTRATOR_BIT));
    assert!(ListIntegrationTab("discord").should_display_for(0));
    assert_eq!(DemonsTab.initialization_script(), "/static/demonlist/js/account/demon.js");
    assert_eq!(DemonsTab.tab_id(), 5);
}

#[test]
fn the_time_machine_keeps_its_visibility() {
    let mut tardis = Tardis::new(true);
    assert!(tardis.visible());
    let destination = Destination { timestamp_micros: 1_600_000_000_000_000, utc_offset_seconds: 3600 };
    tardis.activate(destination, vec![], true);
    assert!(tardis.visible());
    assert!(matches!(tardis, Tardis::Activated { destination: d, show_destination: true, .. } if d == destination));
    let mut hidden = Tardis::new(false);
    hidden.activate(destination, vec![], false);
    assert!(!hidden.visible());
}

#[test]
fn the_submitter_offers_main_and_extended_demons() {
    let demons = vec![demon(1, 1), demon(2, 75), demon(3, 150), demon(4, 151)];
    let holder = player(9, "h");
    let submitter = RecordSubmitter::new(true, &demons, Some(&holder), Some(2));
    let ids: Vec<i32> = submitter.selectable_demons(&config()).iter().map(|d| d.base.id).collect();
    assert_eq!(ids, vec![1, 2, 3]);
    assert_eq!(submitter.initial_demon, Some(2));
}

#[test]
fn sections_of_the_list() {
    assert_eq!(list_sections(200, &config()), (75, 150));
    assert_eq!(list_sections(100, &config()), (75, 100));
    assert_eq!(list_sections(30, &config()), (30, 30));
}

#[test]
fn chart_labels_skip_repeats() {
    assert!(year_only_labels(31));
    assert!(!year_only_labels(30));
    let dates: Vec<String> = ["Jan 20", "Jan 20", "Mar 20", "Jan 20"].iter().map(|s| s.to_string()).collect();
    assert_eq!(chart_labels(&dates), vec!["Added (Jan 20)", "", "Mar 20", "Jan 20"]);
}

#[test]
fn headlines() {
    let a = player(1, "a");
    let b = player(2, "b");
    assert_eq!(headline(&vec![], &a, &a), Headline::NoCreators { same: true });
    assert_eq!(headline(&vec![a.clone()], &a, &a), Headline::ByCreator);
    assert_eq!(headline(&vec![a.clone()], &b, &b), Headline::OneCreator { same: true });
    assert_eq!(headline(&vec![a.clone()], &a, &b), Headline::OneCreatorIsPublisher);
    assert_eq!(headline(&vec![a.clone()], &b, &a), Headline::OneCreatorIsVerifier);
    assert_eq!(headline(&vec![a.clone(), b.clone()], &a, &b), Headline::TwoCreators { same: false });
    assert_eq!(headline(&vec![a.clone(), b.clone(), a.clone()], &a, &a), Headline::MoreCreators { same: true });
}

#[test]
fn demon_page_panels() {
    assert_eq!(neighbour_links(1, 10), (false, true));
    assert_eq!(neighbour_links(10, 10), (true, false));
    assert_eq!(neighbour_links(5, 10), (true, true));
    assert_eq!(qualifying_progress(10, 60, &config()), Some(60));
    assert_eq!(qualifying_progress(100, 60, &config()), Some(100));
    assert_eq!(qualifying_progress(151, 60, &config()), None);
    assert!(shows_records_panel(0, 150, &config()));
    assert!(!shows_records_panel(0, 151, &config()));
    assert!(shows_records_panel(3, 151, &config()));
}

#[test]
fn completions_and_claimed_progress() {
    let record_p = |id: i32, progress: i16| MinimalRecordP {
        id,
        progress,
        video: None,
        status: RecordStatus::Approved,
        player: player(id, "x"),
        nationality: None,
    };
    assert_eq!(count_completions(&vec![record_p(1, 100), record_p(2, 60), record_p(3, 100)]), 2);
    let record_d = |id: i32, demon_id: i32, progress: i16| MinimalRecordD {
        id,
        progress,
        video: None,
        status: RecordStatus::Approved,
        demon: MinimalDemon { id: demon_id, position: 1, name: "d".to_string() },
    };
    let records = vec![record_d(1, 4, 70), record_d(2, 5, 80), record_d(3, 5, 90)];
    assert_eq!(claimed_progress(&vec![6], &records, 6), 100);
    assert_eq!(claimed_progress(&vec![], &records, 5), 80);
    assert_eq!(claimed_progress(&vec![], &records, 7), 0);
}

fn named(id: i32, name: &str) -> NamedId {
    NamedId { id, name: Some(name.to_string()) }
}

#[test]
fn movement_logs_explain_moves() {
    let day = MICROS_PER_DAY;
    let audit = vec![
        AuditEntry { time: 10, kind: AuditEntryKind::Addition },
        AuditEntry { time: day + 5, kind: AuditEntryKind::Modification { position: Some(3) } },
        AuditEntry { time: 2 * day + 5, kind: AuditEntryKind::Modification { position: Some(4) } },
        AuditEntry { time: 3 * day + 5, kind: AuditEntryKind::Modification { position: None } },
        AuditEntry { time: 4 * day + day / 2, kind: AuditEntryKind::Modification { position: Some(5) } },
        AuditEntry { time: 5 * day + 7, kind: AuditEntryKind::Modification { position: Some(-1) } },
    ];
    let additions = vec![(2 * day + 5, named(20, "newcomer"))];
    let moves = vec![(day + 5, named(1, "this"))];
    let log = movement_log(&audit, 1, &additions, &moves, Some(6));
    assert_eq!(
        log,
        vec![
            MovementLogEntry { reason: MovementReason::Added, time: 10, new_position: Some(3) },
            MovementLogEntry { reason: MovementReason::Moved, time: day + 5, new_position: Some(4) },
            MovementLogEntry {
                reason: MovementReason::OtherAddedAbove { other: named(20, "newcomer") },
                time: 2 * day + 5,
                new_position: Some(5),
            },
            MovementLogEntry { reason: MovementReason::Unknown, time: 4 * day + day / 2, new_position: Some(6) },
        ]
    );
}

#[test]
fn moves_of_other_demons_keep_the_position() {
    let audit = vec![
        AuditEntry { time: 1, kind: AuditEntryKind::Addition },
        AuditEntry { time: 2, kind: AuditEntryKind::Modification { position: Some(8) } },
    ];
    let moves = vec![(2, named(30, "other"))];
    let log = movement_log(&audit, 1, &vec![], &moves, Some(9));
    assert_eq!(
        log,
        vec![
            MovementLogEntry { reason: MovementReason::Added, time: 1, new_position: Some(8) },
            MovementLogEntry { reason: MovementReason::OtherMoved { other: named(30, "other") }, time: 2, new_position: Some(9) },
        ]
    );
}

#[test]
fn nation_rows_are_grouped_by_demon() {
    let best = |id: i32, name: &str, player: &str| BestRecordRow {
        progress: 100,
        demon_id: id,
        demon_name: name.to_string(),
        position: id as i16,
        player_name: player.to_string(),
    };
    let grouped = group_best_records(&vec![best(1, "A", "x"), best(1, "A", "y"), best(2, "B", "z"), best(3, "A", "w")]);
    assert_eq!(grouped.len(), 3);
    assert_eq!(grouped[0].players, vec!["x", "y"]);
    assert_eq!((grouped[1].id, grouped[1].demon.as_str()), (2, "B"));
    assert_eq!(grouped[2].players, vec!["w"]);
    let creation = |id: i32, name: &str, player: &str| CreationRow {
        demon_id: id,
        demon_name: name.to_string(),
        position: id as i16,
        player_name: player.to_string(),
    };
    let created = group_creations(&vec![creation(4, "C", "a"), creation(4, "C", "b")]);
    assert_eq!(created.len(), 1);
    assert_eq!(created[0].players, vec!["a", "b"]);
}

#[test]
fn numbers_in_decimal() {
    assert_eq!(decimal_string(0), "0");
    assert_eq!(decimal_string(7), "7");
    assert_eq!(decimal_string(150), "150");
    assert_eq!(decimal_string(-42), "-42");
    assert_eq!(decimal_string(i32::MAX), "2147483647");
    assert_eq!(decimal_string(i32::MIN), "-2147483648");
}

#[test]
fn demon_page_titles() {
    assert_eq!(demon_page_title(&demon(3, 12), &config()), "#12 - demon 3 - Geometry Dash Demonlist");
    assert_eq!(demon_page_title(&demon(3, 150), &config()), "#150 - demon 3 - Geometry Dash Demonlist");
    assert_eq!(demon_page_title(&demon(3, 151), &config()), "demon 3 - Geometry Dash Demonlist");
    assert_eq!(demon_page_description("T", Some("hard")), "T: hard");
    assert_eq!(demon_page_description("T", None), "T: <No Description Provided>");
}

#[test]
fn overview_panels_follow_the_time_machine() {
    let demons = vec![demon(1, 1), demon(2, 150), demon(3, 151)];
    let ids = |panels: Vec<(&Demon, Option<i16>)>| panels.iter().map(|(d, p)| (d.base.id, *p)).collect::<Vec<_>>();
    let tardis = Tardis::new(true);
    assert_eq!(ids(overview_panels(&tardis, &demons, &config())), vec![(1, None), (2, None)]);
    let mut tardis = Tardis::new(false);
    let then = vec![
        TimeShiftedDemon { current_demon: demon(3, 2), position_now: 151 },
        TimeShiftedDemon { current_demon: demon(4, 160), position_now: 1 },
    ];
    tardis.activate(Destination { timestamp_micros: 0, utc_offset_seconds: 0 }, then, false);
    assert_eq!(ids(overview_panels(&tardis, &demons, &config())), vec![(3, Some(151))]);
    assert_eq!(standing_today(151, &config()), Standing::Legacy);
    assert_eq!(standing_today(150, &config()), Standing::At(150));
}

#[test]
fn a_deleted_demons_log_ends_without_a_position() {
    let audit = vec![
        AuditEntry { time: 1, kind: AuditEntryKind::Addition },
        AuditEntry { time: 2, kind: AuditEntryKind::Modification { position: Some(8) } },
        AuditEntry { time: 3, kind: AuditEntryKind::Deletion },
    ];
    let moves = vec![(2, named(30, "other"))];
    let log = movement_log(&audit, 1, &vec![], &moves, None);
    assert_eq!(
        log,
        vec![
            MovementLogEntry { reason: MovementReason::Added, time: 1, new_position: Some(8) },
            MovementLogEntry { reason: MovementReason::OtherMoved { other: named(30, "other") }, time: 2, new_position: None },
        ]
    );
}

#[test]
fn demon_panel_scores_and_position_chart() {
    assert_eq!(score_entries(10, &config()), (true, true));
    assert_eq!(score_entries(100, &config()), (true, false));
    assert_eq!(score_entries(151, &config()), (false, false));
    let dates: Vec<String> = ["Jan 20", "Jan 20"].iter().map(|s| s.to_string()).collect();
    assert_eq!(position_chart_labels(&dates), vec!["Added (Jan 20)", "", "Now"]);
    assert_eq!(position_chart_data(&vec![5, 3], 4), vec![5, 3, 4]);
}
