use pointercrate_demonlist::error::{CoreError, DemonlistError};
use pointercrate_demonlist::video::{presentation, validate, YOUTUBE_FORMAT, TWITCH_FORMAT, VIMEO_FORMAT};

#[test]
fn youtube_links_become_canonical() {
    assert_eq!(validate("https://www.youtube.com/watch?v=dQw4w9WgXcQ").unwrap(), "https://www.youtube.com/watch?v=dQw4w9WgXcQ");
    assert_eq!(validate("http://m.youtube.com/watch?v=dQw4w9WgXcQ&t=10").unwrap(), "https://www.youtube.com/watch?v=dQw4w9WgXcQ");
    assert_eq!(validate("https://youtube.com/watch?feature=share&v=dQw4w9WgXcQ").unwrap(), "https://www.youtube.com/watch?v=dQw4w9WgXcQ");
    assert_eq!(validate("https://youtu.be/dQw4w9WgXcQ").unwrap(), "https://www.youtube.com/watch?v=dQw4w9WgXcQ");
}

#[test]
fn youtube_ids_keep_eleven_characters() {
    assert_eq!(validate("https://www.youtube.com/watch?v=dQw4w9WgXcQextra").unwrap(), "https://www.youtube.com/watch?v=dQw4w9WgXcQ");
    assert_eq!(validate("https://youtu.be/abc").unwrap(), "https://www.youtube.com/watch?v=abc");
}

#[test]
fn youtube_links_of_other_shapes_are_refused() {
    let expected = DemonlistError::Core(CoreError::InvalidUrlFormat { expected: YOUTUBE_FORMAT });
    assert_eq!(validate("https://www.youtube.com/watch?x=1"), Err(expected.clone()));
    assert_eq!(validate("https://www.youtube.com/embed/dQw4w9WgXcQ"), Err(expected.clone()));
    assert_eq!(validate("https://youtu.be/a/b"), Err(expected));
}

#[test]
fn other_hosts_become_canonical() {
    assert_eq!(validate("https://twitch.tv/videos/12345").unwrap(), "https://www.twitch.tv/videos/12345");
    assert_eq!(validate("https://www.twitch.tv/somechannel/v/12345").unwrap(), "https://www.twitch.tv/videos/12345");
    assert_eq!(validate("https://www.everyplay.com/videos/777").unwrap(), "https://everyplay.com/videos/777");
    assert_eq!(validate("https://bilibili.com/video/BV1xx").unwrap(), "https://www.bilibili.com/video/BV1xx");
    assert_eq!(validate("https://www.vimeo.com/4242").unwrap(), "https://vimeo.com/4242");
}

#[test]
fn other_hosts_of_other_shapes_are_refused() {
    assert_eq!(
        validate("https://www.twitch.tv/somechannel"),
        Err(DemonlistError::Core(CoreError::InvalidUrlFormat { expected: TWITCH_FORMAT }))
    );
    assert_eq!(
        validate("https://vimeo.com/a/b"),
        Err(DemonlistError::Core(CoreError::InvalidUrlFormat { expected: VIMEO_FORMAT }))
    );
}

#[test]
fn refused_links() {
    assert_eq!(validate("not a url"), Err(DemonlistError::MalformedVideoUrl));
    assert_eq!(validate("ftp://www.youtube.com/watch?v=abc"), Err(DemonlistError::Core(CoreError::InvalidUrlScheme)));
    assert_eq!(
        validate("https://user:pw@www.youtube.com/watch?v=abc"),
        Err(DemonlistError::Core(CoreError::UrlAuthenticated))
    );
    assert_eq!(validate("https://127.0.0.1/watch?v=abc"), Err(DemonlistError::Core(CoreError::UnprocessableEntity)));
    assert_eq!(validate("https://dailymotion.com/video/x"), Err(DemonlistError::UnsupportedVideoHost));
}

#[test]
fn stored_videos_are_presented_by_host() {
    let (host, embed) = presentation("https://www.youtube.com/watch?v=dQw4w9WgXcQ").unwrap();
    assert_eq!(host, "YouTube");
    assert_eq!(embed.unwrap(), "https://www.youtube.com/embed/dQw4w9WgXcQ");
    let (host, embed) = presentation("https://www.twitch.tv/videos/12345").unwrap();
    assert_eq!(host, "Twitch");
    assert_eq!(embed.unwrap(), "https://player.twitch.tv/?video=12345&autoplay=false");
    let (host, embed) = presentation("https://vimeo.com/4242").unwrap();
    assert_eq!(host, "Vimeo");
    assert!(embed.is_none());
    assert!(presentation("https://example.com/x").is_none());
    assert!(presentation("nonsense").is_none());
}
