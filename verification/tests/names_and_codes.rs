use pointercrate_demonlist::error::{CoreError, DemonlistError};
use pointercrate_demonlist::list::List;
use pointercrate_demonlist::nationality::{Continent, Nationality, NationalityRankingPagination, DEMONLIST_NATION_RANKING, RATED_PLUS_NATION_RANKING};
use pointercrate_demonlist::record::{video_change, DemonChange, PatchRecord, RecordStatus};
use pointercrate_demonlist::player::normalized_name;
use pointercrate_demonlist::text::{is_blank, str_eq};

#[test]
fn list_names_and_keys() {
    assert_eq!(List::Demonlist.as_str(), "demonlist");
    assert_eq!(List::RatedPlus.as_str(), "ratedplus");
    assert_eq!(List::Demonlist.to_key(), "list-demonlist");
    assert_eq!(List::RatedPlus.to_key(), "list-ratedplus");
    assert_eq!(List::RatedPlus.to_string(), "ratedplus");
    assert_eq!(List::default(), List::Demonlist);
}

#[test]
fn lists_are_read_in_any_case() {
    assert_eq!(List::from_str("DemonList"), Ok(List::Demonlist));
    assert_eq!(List::from_str("RATEDPLUS"), Ok(List::RatedPlus));
    assert_eq!(List::from_str("legacy"), Err(CoreError::UnprocessableEntity));
}

#[test]
fn record_statuses() {
    assert_eq!(RecordStatus::UnderConsideration.to_sql(), "UNDER_CONSIDERATION");
    assert_eq!(RecordStatus::from_sql("APPROVED"), RecordStatus::Approved);
    assert_eq!(RecordStatus::from_sql("UNDER_CONSIDERATION"), RecordStatus::UnderConsideration);
    assert_eq!(RecordStatus::Rejected.as_str(), "rejected");
    assert_eq!(RecordStatus::UnderConsideration.to_string(), "under consideration");
    assert_eq!(RecordStatus::from_name("Under Consideration"), Some(RecordStatus::UnderConsideration));
    assert_eq!(RecordStatus::from_name("APPROVED"), Some(RecordStatus::Approved));
    assert_eq!(RecordStatus::from_name("pending"), None);
    assert_eq!(RecordStatus::default(), RecordStatus::Submitted);
    for s in [RecordStatus::Submitted, RecordStatus::Approved, RecordStatus::Rejected, RecordStatus::UnderConsideration] {
        assert_eq!(RecordStatus::from_sql(&s.to_sql()), s);
        assert_eq!(RecordStatus::from_name(s.as_str()), Some(s));
    }
}

#[test]
fn continents() {
    assert_eq!(Continent::MiddleAmerica.to_sql(), "Central America");
    assert_eq!(Continent::AustraliaAndOceania.to_sql(), "Australia and Oceania");
    assert_eq!(Continent::AustraliaAndOceania.as_str(), "australia");
    assert_eq!(Continent::from_name("North America"), Ok(Continent::NorthAmerica));
    assert_eq!(Continent::from_name("Oceania"), Err(CoreError::UnprocessableEntity));
}

#[test]
fn same_country_ignores_subdivisions() {
    let a = Nationality { iso_country_code: "US".to_string(), nation: "United States".to_string(), subdivision: None };
    let b = Nationality {
        iso_country_code: "US".to_string(),
        nation: "United States".to_string(),
        subdivision: Some(pointercrate_demonlist::nationality::Subdivision { iso_code: "CA".to_string(), name: "California".to_string() }),
    };
    let c = Nationality { iso_country_code: "DE".to_string(), nation: "Germany".to_string(), subdivision: None };
    assert!(a.same_country_as(&b));
    assert!(!a.same_country_as(&c));
}

#[test]
fn nation_ranking_queries() {
    let q = NationalityRankingPagination { list: None, continent: Some(Continent::Europe), name_contains: None };
    assert_eq!(q.query(), DEMONLIST_NATION_RANKING);
    assert_eq!(q.continent_filter().unwrap(), "Europe");
    let q = NationalityRankingPagination { list: Some(List::RatedPlus), continent: None, name_contains: None };
    assert_eq!(q.query(), RATED_PLUS_NATION_RANKING);
    assert_eq!(q.ranked_list(), List::RatedPlus);
    assert!(q.continent_filter().is_none());
}

#[test]
fn error_codes_and_keys() {
    assert_eq!(DemonlistError::PlayerBanned.error_code(), 42218);
    assert_eq!(DemonlistError::SubmissionExists { status: RecordStatus::Approved, existing: 3 }.error_code(), 42217);
    assert_eq!(DemonlistError::DemonNotFound { demon_id: 1 }.error_code(), 40401);
    assert_eq!(DemonlistError::MalformedVideoUrl.error_code(), 40001);
    assert_eq!(DemonlistError::NoteEmpty.message_key(), "error-demonlist-noteempty");
    assert_eq!(DemonlistError::NoThirdPartySubmissions.message_key(), "nothirdpartysubmissions-error-malformedvideourl");
    assert_eq!(DemonlistError::from_core(CoreError::NotFound), DemonlistError::Core(CoreError::NotFound));
    assert_eq!(DemonlistError::BannedFromSubmissions.error_code(), 40304);
    assert_eq!(DemonlistError::ClaimUnverified.error_code(), 40306);
    assert_eq!(DemonlistError::VpsDetected.error_code(), 40307);
    assert_eq!(DemonlistError::DuplicateVideo { id: 1 }.error_code(), 40906);
    assert_eq!(DemonlistError::AlreadyClaimed.error_code(), 42231);
    assert_eq!(DemonlistError::InvalidLevelId.error_code(), 42235);
    assert_eq!(DemonlistError::DemonNotFoundPosition { demon_position: 3 }.message_key(), "error-demonlist-demonnotfoundposition");
    assert_eq!(DemonlistError::RecordNotFound { record_id: 3 }.message_key(), "error-demonlist-recordnotfound");
}

#[test]
fn changing_a_records_video() {
    let current = Some("https://www.youtube.com/watch?v=dQw4w9WgXcQ".to_string());
    assert_eq!(video_change(&current, "https://youtu.be/dQw4w9WgXcQ", None), Ok(None));
    assert_eq!(video_change(&current, "https://youtu.be/aaaaaaaaaaa", Some(9)), Err(DemonlistError::DuplicateVideo { id: 9 }));
    assert_eq!(
        video_change(&current, "https://youtu.be/aaaaaaaaaaa", None),
        Ok(Some("https://www.youtube.com/watch?v=aaaaaaaaaaa".to_string()))
    );
    assert_eq!(video_change(&None, "no video", None), Err(DemonlistError::MalformedVideoUrl));
}

#[test]
fn text_helpers() {
    assert_eq!(normalized_name("\t PlasmaLust \u{3000}\n"), "PlasmaLust");
    assert!(is_blank(" \u{a0}\t"));
    assert!(is_blank(""));
    assert!(!is_blank("  x "));
    assert!(str_eq("abc", "abc"));
    assert!(!str_eq("abc", "abd"));
}

#[test]
fn names_read_back_as_what_they_name() {
    for status in [RecordStatus::Submitted, RecordStatus::Approved, RecordStatus::Rejected, RecordStatus::UnderConsideration] {
        assert_eq!(RecordStatus::from_name(status.as_str()), Some(status));
        assert_eq!(RecordStatus::from_sql(&status.to_sql()), status);
    }
    for list in [List::Demonlist, List::RatedPlus] {
        assert_eq!(List::from_str(list.as_str()), Ok(list));
    }
    assert_eq!(Continent::from_name(Continent::MiddleAmerica.as_str()), Ok(Continent::MiddleAmerica));
    assert_eq!(Continent::from_name("North AMERICA"), Ok(Continent::NorthAmerica));
}

#[test]
fn patches_name_the_new_demon_once() {
    use_patch(None, None, Ok(None));
    use_patch(Some("Bloodbath"), None, Ok(Some(DemonChange::Name("Bloodbath".to_string()))));
    use_patch(None, Some(4), Ok(Some(DemonChange::Id(4))));
    use_patch(Some("Bloodbath"), Some(4), Err(DemonlistError::Core(CoreError::MutuallyExclusive)));
}

fn use_patch(demon: Option<&str>, demon_id: Option<i32>, expected: Result<Option<DemonChange>, DemonlistError>) {
    let patch = PatchRecord {
        progress: None,
        video: None,
        status: None,
        player: None,
        demon: demon.map(|d| d.to_string()),
        demon_id,
    };
    assert_eq!(patch.demon_change(), expected);
}
