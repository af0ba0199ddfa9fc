use pointercrate_demonlist::claim::{ClaimBy, PatchPlayerClaim, PlayerClaim};
use pointercrate_demonlist::config::ListConfig;
use pointercrate_demonlist::creator::{merge_creators, Creator};
use pointercrate_demonlist::demon::{Demon, FetchedDemon, MinimalDemon, PostDemon};
use pointercrate_demonlist::error::{CoreError, DemonlistError};
use pointercrate_demonlist::nationality::{Nationality, Subdivision};
use pointercrate_demonlist::note::{NewNote, Note, PatchNote};
use pointercrate_demonlist::permissions::{has_permission, list_administrator, list_helper, list_moderator};
use pointercrate_demonlist::player::{
    ban_change, claim_merge, normalized_name, player_not_found, rename_plan, with_nation, with_subdivision,
    without_subdivision, BanChange, ClaimMerge, DatabasePlayer, RenamePlan,
};

fn player(id: i32, name: &str) -> DatabasePlayer {
    DatabasePlayer { id, name: name.to_string(), banned: false }
}

fn germany() -> Nationality {
    Nationality { iso_country_code: "DE".to_string(), nation: "Germany".to_string(), subdivision: None }
}

fn bavaria() -> Subdivision {
    Subdivision { iso_code: "BY".to_string(), name: "Bavaria".to_string() }
}

#[test]
fn player_names_are_trimmed() {
    assert_eq!(normalized_name(" PlasmaLust "), "PlasmaLust");
    assert_eq!(normalized_name("\tstardust1971\n"), "stardust1971");
    let once = normalized_name(" \u{2003}Zoink  ");
    assert_eq!(normalized_name(&once), once);
    assert_eq!(
        player_not_found("  nobody "),
        DemonlistError::PlayerNotFoundName { player_name: "nobody".to_string() }
    );
}

#[test]
fn renaming_players() {
    assert_eq!(rename_plan("Mullsy", " Mullsy "), RenamePlan::Unchanged);
    assert_eq!(rename_plan("Mullsy", "mullsy"), RenamePlan::Rename { name: "mullsy".to_string(), merge_check: false });
    assert_eq!(rename_plan("Mullsy", " Zoink"), RenamePlan::Rename { name: "Zoink".to_string(), merge_check: true });
}

#[test]
fn ban_flags() {
    assert_eq!(ban_change(false, Some(true)), BanChange::Ban);
    assert_eq!(ban_change(true, Some(true)), BanChange::Keep);
    assert_eq!(ban_change(true, Some(false)), BanChange::Unban);
    assert_eq!(ban_change(false, Some(false)), BanChange::Keep);
    assert_eq!(ban_change(true, None), BanChange::Keep);
}

#[test]
fn merging_claims() {
    let keep = player(1, "a");
    let with = player(2, "b");
    assert_eq!(
        claim_merge(&keep, &with, true, true),
        Err(DemonlistError::ConflictingClaims { player1: "a".to_string(), player2: "b".to_string() })
    );
    assert_eq!(claim_merge(&keep, &with, true, false), Ok(ClaimMerge::DropOthers));
    assert_eq!(claim_merge(&keep, &with, false, true), Ok(ClaimMerge::DropOwnAndTransfer));
    assert_eq!(claim_merge(&keep, &with, false, false), Ok(ClaimMerge::Transfer));
}

#[test]
fn subdivisions_need_a_nation() {
    assert_eq!(with_subdivision(None, "BY".to_string(), Some(bavaria())), Err(DemonlistError::NoNationSet));
    assert_eq!(
        with_subdivision(Some(germany()), "XX".to_string(), None),
        Err(DemonlistError::SubdivisionNotFound { subdivision_code: "XX".to_string(), nation_code: "DE".to_string() })
    );
    let set = with_subdivision(Some(germany()), "BY".to_string(), Some(bavaria())).unwrap();
    assert_eq!(set.subdivision, Some(bavaria()));
    assert_eq!(set.iso_country_code, "DE");
    assert_eq!(without_subdivision(Some(set.clone())), Some(germany()));
    assert_eq!(without_subdivision(None), None);
    assert_eq!(with_nation(set), germany());
}

#[test]
fn claims_of_members() {
    let held = ClaimBy { player: player(7, "x"), verified: true };
    let claim = PlayerClaim::of_member(3, 7, Some(held), false).unwrap();
    assert_eq!((claim.user_id, claim.player_id, claim.verified, claim.lock_submissions), (3, 7, true, false));
    let other = ClaimBy { player: player(8, "y"), verified: true };
    assert!(matches!(
        PlayerClaim::of_member(3, 7, Some(other), false),
        Err(DemonlistError::ClaimNotFound { member_id: 3, player_id: 7 })
    ));
    assert!(matches!(
        PlayerClaim::of_member(3, 7, None, true),
        Err(DemonlistError::ClaimNotFound { member_id: 3, player_id: 7 })
    ));
}

#[test]
fn patching_claims() {
    let mut claim = PlayerClaim { user_id: 1, player_id: 2, verified: false, lock_submissions: false };
    assert!(!claim.apply_patch(&PatchPlayerClaim { verified: None, lock_submissions: Some(true) }));
    assert!(claim.lock_submissions && !claim.verified);
    assert!(claim.apply_patch(&PatchPlayerClaim { verified: Some(true), lock_submissions: None }));
    assert!(claim.verified && claim.lock_submissions);
    assert!(!claim.set_verified(false));
    assert!(!claim.verified);
}

#[test]
fn notes() {
    assert!(matches!(
        Note::create_on(1, 2, NewNote { content: "  \n".to_string(), is_public: true }),
        Err(DemonlistError::NoteEmpty)
    ));
    let note = Note::create_on(1, 2, NewNote { content: "nice".to_string(), is_public: false }).unwrap();
    assert_eq!((note.id, note.record, note.content.as_str(), note.is_public), (2, 1, "nice", false));
    assert!(!note.transferred && note.author.is_none() && note.editors.is_empty());
    let note = note.apply_patch(PatchNote { content: None, is_public: Some(true) }).unwrap();
    assert!(note.is_public);
    assert_eq!(note.content, "nice");
    assert!(matches!(
        note.apply_patch(PatchNote { content: Some(" ".to_string()), is_public: None }),
        Err(DemonlistError::NoteEmpty)
    ));
}

#[test]
fn creators() {
    assert_eq!(Creator::get(4, 5, true), Ok(Creator { demon: 4, creator: 5 }));
    assert_eq!(Creator::get(4, 5, false), Err(DemonlistError::CreatorNotFound { demon_id: 4, player_id: 5 }));
    assert_eq!(Creator::insert(4, 5, true), Err(DemonlistError::CreatorExists));
    assert_eq!(Creator::insert(4, 5, false), Ok(Creator { demon: 4, creator: 5 }));
}

#[test]
fn requirements_and_positions() {
    assert_eq!(Demon::validate_requirement(0), Ok(()));
    assert_eq!(Demon::validate_requirement(100), Ok(()));
    assert_eq!(Demon::validate_requirement(101), Err(DemonlistError::InvalidRequirement));
    assert_eq!(Demon::validate_requirement(-1), Err(DemonlistError::InvalidRequirement));
    assert_eq!(Demon::validate_position(1, 0), Ok(()));
    assert_eq!(Demon::validate_position(76, 75), Ok(()));
    assert_eq!(Demon::validate_position(77, 75), Err(DemonlistError::InvalidPosition { maximal: 76 }));
    assert_eq!(Demon::validate_position(0, 75), Err(DemonlistError::InvalidPosition { maximal: 76 }));
}

fn minimal(id: i32, position: i16, name: &str) -> MinimalDemon {
    MinimalDemon { id, position, name: name.to_string() }
}

#[test]
fn demons_by_name() {
    assert_eq!(
        MinimalDemon::unique_by_name("Bloodbath", vec![]),
        Err(DemonlistError::DemonNotFoundName { demon_name: "Bloodbath".to_string() })
    );
    assert_eq!(MinimalDemon::unique_by_name("Bloodbath", vec![minimal(1, 5, "Bloodbath")]), Ok(minimal(1, 5, "Bloodbath")));
    assert_eq!(
        MinimalDemon::unique_by_name("Bloodbath", vec![minimal(1, 5, "Bloodbath"), minimal(2, 9, "Bloodbath")]),
        Err(DemonlistError::DemonNameNotUnique { demons: vec![minimal(2, 9, "Bloodbath"), minimal(1, 5, "Bloodbath")] })
    );
}

#[test]
fn demons_from_rows() {
    let demon = Demon::from_fetched(FetchedDemon {
        demon_id: 1,
        demon_name: "Sakupen Circles".to_string(),
        position: 3,
        requirement: 50,
        video: None,
        thumbnail: "https://i.ytimg.com/vi/abc/mqdefault.jpg".to_string(),
        publisher_id: 10,
        publisher_name: "Diamond".to_string(),
        publisher_banned: false,
        verifier_id: 11,
        verifier_name: "Diamond".to_string(),
        verifier_banned: false,
        level_id: Some(90475597),
    });
    assert_eq!(demon.base, minimal(1, 3, "Sakupen Circles"));
    assert_eq!(demon.requirement, 50);
    assert_eq!(demon.publisher, player(10, "Diamond"));
    assert_eq!(demon.verifier, player(11, "Diamond"));
    assert_eq!(demon.level_id, Some(90475597));
}

fn post(position: i16, requirement: i16, video: Option<&str>) -> PostDemon {
    PostDemon {
        name: "Tartarus".to_string(),
        position,
        requirement,
        verifier: "Dolphy".to_string(),
        publisher: "Riot".to_string(),
        creators: vec![],
        video: video.map(|v| v.to_string()),
    }
}

#[test]
fn new_demons_are_checked_in_order() {
    assert_eq!(post(1, 55, None).check(0), Ok(None));
    assert_eq!(
        post(2, 55, Some("https://youtu.be/dQw4w9WgXcQ")).check(10),
        Ok(Some("https://www.youtube.com/watch?v=dQw4w9WgXcQ".to_string()))
    );
    assert_eq!(post(50, 101, Some("nope")).check(10), Err(DemonlistError::InvalidRequirement));
    assert_eq!(post(50, 55, Some("ftp://youtube.com/watch?v=dQw4w9WgXcQ")).check(10), Err(DemonlistError::Core(CoreError::InvalidUrlScheme)));
    assert_eq!(post(50, 55, None).check(10), Err(DemonlistError::InvalidPosition { maximal: 11 }));
}

#[test]
fn list_configurations() {
    assert!(ListConfig::new(75, 150).is_some());
    assert!(ListConfig::new(75, 75).is_some());
    assert!(ListConfig::new(0, 150).is_none());
    assert!(ListConfig::new(150, 75).is_none());
    let config = ListConfig::new(75, 150).unwrap();
    assert_eq!((config.list_size(), config.extended_list_size()), (75, 150));
}

#[test]
fn list_permissions_imply_each_other() {
    let helper = list_helper();
    let moderator = list_moderator();
    let administrator = list_administrator();
    assert_eq!(helper.name, "List Helper");
    assert!(has_permission(administrator.bit, moderator));
    assert!(has_permission(administrator.bit, helper));
    assert!(has_permission(moderator.bit, helper));
    assert!(!has_permission(helper.bit, moderator));
    assert!(!has_permission(moderator.bit, administrator));
    assert!(!has_permission(0, helper));
    assert!(has_permission(0x1 | helper.bit, helper));
}

#[test]
fn merging_players_merges_their_creator_entries() {
    let c = |demon: i32, creator: i32| Creator { demon, creator };
    let table = vec![c(1, 10), c(1, 20), c(2, 20), c(3, 30), c(2, 30)];
    assert_eq!(merge_creators(&table, 10, 20), vec![c(1, 10), c(2, 10), c(3, 30), c(2, 30)]);
    assert_eq!(merge_creators(&table, 30, 20), vec![c(1, 10), c(1, 30), c(3, 30), c(2, 30)]);
    assert_eq!(merge_creators(&table, 10, 99), table);
}

#[test]
fn merging_players_moves_their_credits() {
    let mut demon = Demon::from_fetched(FetchedDemon {
        demon_id: 1,
        demon_name: "Tartarus".to_string(),
        position: 3,
        requirement: 50,
        video: None,
        thumbnail: String::new(),
        publisher_id: 20,
        publisher_name: "Riot".to_string(),
        publisher_banned: false,
        verifier_id: 21,
        verifier_name: "Dolphy".to_string(),
        verifier_banned: false,
        level_id: None,
    });
    let keep = player(10, "Riot2");
    demon.merge_credits(&keep, 20);
    assert_eq!(demon.publisher, keep);
    assert_eq!(demon.verifier, player(21, "Dolphy"));
    demon.merge_credits(&keep, 21);
    assert_eq!(demon.verifier, keep);
}
