use pointercrate_demonlist::movement::NamedId;
use pointercrate_demonlist::record::{RecordModificationData, RecordModificationRow, RecordStatus};
use pointercrate_demonlist::gd::{
    i16_to_level_length, i16_to_level_rating, level_length_to_i16, level_rating_to_i16, password_from_db, password_to_db,
    DemonRating, LevelLength, LevelRating, Password,
};

#[test]
fn ratings_are_stored_as_small_codes() {
    assert_eq!(level_rating_to_i16(LevelRating::Auto), 1);
    assert_eq!(level_rating_to_i16(LevelRating::Easy), 2);
    assert_eq!(level_rating_to_i16(LevelRating::Normal), 3);
    assert_eq!(level_rating_to_i16(LevelRating::Hard), 4);
    assert_eq!(level_rating_to_i16(LevelRating::Harder), 5);
    assert_eq!(level_rating_to_i16(LevelRating::Insane), 6);
    assert_eq!(level_rating_to_i16(LevelRating::NotAvailable), 7);
    assert_eq!(level_rating_to_i16(LevelRating::Demon(DemonRating::Easy)), 1);
    assert_eq!(level_rating_to_i16(LevelRating::Demon(DemonRating::Extreme)), 5);
    assert_eq!(level_rating_to_i16(LevelRating::Unknown(3)), 300);
    assert_eq!(level_rating_to_i16(LevelRating::Demon(DemonRating::Unknown(-2))), -200);
}

#[test]
fn stored_ratings_read_back() {
    for rating in [
        LevelRating::Auto,
        LevelRating::Easy,
        LevelRating::Hard,
        LevelRating::Harder,
        LevelRating::Insane,
        LevelRating::NotAvailable,
        LevelRating::Demon(DemonRating::Easy),
        LevelRating::Demon(DemonRating::Medium),
        LevelRating::Demon(DemonRating::Hard),
        LevelRating::Demon(DemonRating::Insane),
        LevelRating::Demon(DemonRating::Extreme),
        LevelRating::Unknown(12),
        LevelRating::Demon(DemonRating::Unknown(-7)),
    ] {
        assert_eq!(i16_to_level_rating(level_rating_to_i16(rating), rating.is_demon()), rating);
    }
}

#[test]
fn normal_reads_back_as_not_available() {
    assert_eq!(i16_to_level_rating(level_rating_to_i16(LevelRating::Normal), false), LevelRating::NotAvailable);
}

#[test]
fn zero_and_large_codes_read_back_as_unknown() {
    assert_eq!(i16_to_level_rating(0, false), LevelRating::Unknown(0));
    assert_eq!(i16_to_level_rating(0, true), LevelRating::Demon(DemonRating::Unknown(0)));
    assert_eq!(i16_to_level_rating(250, false), LevelRating::Unknown(2));
    assert_eq!(i16_to_level_rating(-250, true), LevelRating::Demon(DemonRating::Unknown(-2)));
    assert_eq!(i16_to_level_length(199), LevelLength::Unknown(1));
    assert_eq!(i16_to_level_length(-100), LevelLength::Unknown(-1));
}

#[test]
fn lengths_round_trip() {
    for (length, code) in [
        (LevelLength::Tiny, 1),
        (LevelLength::Short, 2),
        (LevelLength::Medium, 3),
        (LevelLength::Long, 4),
        (LevelLength::ExtraLong, 5),
        (LevelLength::Platformer, 6),
        (LevelLength::Unknown(4), 400),
    ] {
        assert_eq!(level_length_to_i16(length), code);
        assert_eq!(i16_to_level_length(code), length);
    }
}

#[test]
fn passwords_round_trip() {
    assert_eq!(password_to_db(Password::NoCopy), None);
    assert_eq!(password_to_db(Password::FreeCopy), Some(-1));
    assert_eq!(password_to_db(Password::PasswordCopy(123456)), Some(123456));
    assert_eq!(password_from_db(None), Password::NoCopy);
    assert_eq!(password_from_db(Some(-1)), Password::FreeCopy);
    assert_eq!(password_from_db(Some(123456)), Password::PasswordCopy(123456));
    assert_eq!(password_from_db(password_to_db(Password::PasswordCopy(3_000_000_000))), Password::PasswordCopy(3_000_000_000));
}

#[test]
fn the_largest_password_reads_back_as_free_copy() {
    assert_eq!(password_from_db(password_to_db(Password::PasswordCopy(u32::MAX))), Password::FreeCopy);
}

#[test]
fn record_modification_rows() {
    let data = RecordModificationData::from_row(RecordModificationRow {
        progress: Some(80),
        video: None,
        status: Some("UNDER_CONSIDERATION".to_string()),
        player_id: Some(4),
        player_name: None,
        demon_id: None,
        demon_name: Some("gone".to_string()),
    });
    assert_eq!(data.progress, Some(80));
    assert_eq!(data.status, Some(RecordStatus::UnderConsideration));
    assert_eq!(data.player, Some(NamedId { id: 4, name: None }));
    assert_eq!(data.demon, None);
}
