//! Video links: which hosts the list takes, and the one canonical link each video is
//! stored under.
use crate::error::{CoreError, DemonlistError};
use crate::text::{concat, str_eq};
use vstd::prelude::*;
use vstd::string::*;

verus! {

pub const YOUTUBE_FORMAT: &'static str = "https://www.youtube.com/watch?v={video_id}' or 'https://m.youtube.com/watch?v={video_id}' or 'https://youtube.com/watch?v={video_id}' or 'https://youtu.be/{video_id}";

pub const TWITCH_FORMAT: &'static str = "https://www.twitch.tv/videos/{video_id}' or 'https://twitch.tv/videos/{video_id}' or'https://www.twitch.tv/{channel_name}/v/{video_id}' or'https://twitch.tv/{channel_name}/v/{video_id}";

pub const EVERYPLAY_FORMAT: &'static str = "https://everyplay.com/videos/{video_id}' or'https://www.everyplay.com/videos/{video_id}";

pub const VIMEO_FORMAT: &'static str = "https://vimeo.com/{video_id}' or'https://www.vimeo.com/{video_id}";

pub const BILIBILI_FORMAT: &'static str = "'https://www.bilibili.com/video/{video_id}' or'https://bilibili.com/video/{video_id}";

/// What the rules read of a parsed URL.
pub struct UrlParts {
    pub scheme: Seq<char>,
    pub username: Seq<char>,
    pub has_password: bool,
    pub domain: Option<Seq<char>>,
    pub path: Seq<char>,
    pub query_pairs: Seq<(Seq<char>, Seq<char>)>,
    pub path_segments: Option<Seq<Seq<char>>>,
}

/// A URL taken apart: its scheme, credentials, domain (none for an IP address or an
/// opaque URL), path, decoded query pairs in order, and path segments (none for a URL
/// that cannot be a base).
#[derive(Debug)]
pub struct ParsedUrl {
    pub scheme: String,
    pub username: String,
    pub has_password: bool,
    pub domain: Option<String>,
    pub path: String,
    pub query_pairs: Vec<(String, String)>,
    pub path_segments: Option<Vec<String>>,
}

impl View for ParsedUrl {
    type V = UrlParts;

    open spec fn view(&self) -> UrlParts {
        UrlParts {
            scheme: self.scheme@,
            username: self.username@,
            has_password: self.has_password,
            domain: match self.domain {
                Some(d) => Some(d@),
                None => None,
            },
            path: self.path@,
            query_pairs: self.query_pairs@.map_values(|p: (String, String)| (p.0@, p.1@)),
            path_segments: match self.path_segments {
                Some(s) => Some(s@.map_values(|x: String| x@)),
                None => None,
            },
        }
    }
}

/// What `url::Url::parse` makes of a text: `None` where it refuses it. The WHATWG URL
/// standard it follows takes pages to state, so the result is only named.
pub uninterp spec fn url_parse(input: Seq<char>) -> Option<UrlParts>;

/// Calls `url::Url::parse` and takes the result apart into the parts the rules read:
/// `scheme`, `username`, `password().is_some()`, `domain`, `path`, `query_pairs` (decoded,
/// in order) and `path_segments`. The contract claims only that the result is what
/// `url_parse` names for the input.
#[verifier::external_body]
pub(crate) fn parse_url(input: &str) -> (r: Option<ParsedUrl>)
    ensures
        match r {
            Some(u) => url_parse(input@) == Some(u@),
            None => url_parse(input@) is None,
        },
{
    let u = url::Url::parse(input).ok()?;
    Some(ParsedUrl {
        scheme: u.scheme().to_string(),
        username: u.username().to_string(),
        has_password: u.password().is_some(),
        domain: u.domain().map(|d| d.to_string()),
        path: u.path().to_string(),
        query_pairs: u.query_pairs().map(|(k, v)| (k.into_owned(), v.into_owned())).collect(),
        path_segments: u.path_segments().map(|s| s.map(|x| x.to_string()).collect()),
    })
}

/// The first `n` characters of `s` (all of them if there are fewer).
pub open spec fn at_most(s: Seq<char>, n: int) -> Seq<char> {
    if s.len() <= n {
        s
    } else {
        s.take(n)
    }
}

/// The value of the first query pair whose key is `key`.
pub open spec fn query_value(pairs: Seq<(Seq<char>, Seq<char>)>, key: Seq<char>) -> Option<Seq<char>>
    decreases pairs.len(),
{
    if pairs.len() == 0 {
        None
    } else if pairs[0].0 == key {
        Some(pairs[0].1)
    } else {
        query_value(pairs.drop_first(), key)
    }
}

pub open spec fn is_youtube_host(d: Seq<char>) -> bool {
    d == "www.youtube.com"@ || d == "m.youtube.com"@ || d == "youtube.com"@
}

pub open spec fn is_twitch_host(d: Seq<char>) -> bool {
    d == "www.twitch.tv"@ || d == "twitch.tv"@
}

pub open spec fn is_everyplay_host(d: Seq<char>) -> bool {
    d == "everyplay.com"@ || d == "www.everyplay.com"@
}

pub open spec fn is_bilibili_host(d: Seq<char>) -> bool {
    d == "www.bilibili.com"@ || d == "bilibili.com"@
}

pub open spec fn is_vimeo_host(d: Seq<char>) -> bool {
    d == "vimeo.com"@ || d == "www.vimeo.com"@
}

pub open spec fn format_error(expected: &'static str) -> Result<Seq<char>, DemonlistError> {
    Err(DemonlistError::Core(CoreError::InvalidUrlFormat { expected }))
}

/// The canonical YouTube link of a video id: at most its first 11 characters count.
pub open spec fn youtube_link(id: Seq<char>) -> Seq<char> {
    "https://www.youtube.com/watch?v="@ + at_most(id, 11)
}

/// What the list stores for a video, by host, from the URL's parts.
pub open spec fn video_by_host(u: UrlParts, d: Seq<char>) -> Result<Seq<char>, DemonlistError> {
    if is_youtube_host(d) {
        if u.path == "/watch"@ && query_value(u.query_pairs, "v"@) is Some {
            Ok(youtube_link(query_value(u.query_pairs, "v"@)->Some_0))
        } else {
            format_error(YOUTUBE_FORMAT)
        }
    } else if d == "youtu.be"@ {
        match u.path_segments {
            Some(s) if s.len() == 1 => Ok(youtube_link(s[0])),
            _ => format_error(YOUTUBE_FORMAT),
        }
    } else if is_twitch_host(d) {
        match u.path_segments {
            Some(s) if s.len() == 2 && s[0] == "videos"@ => Ok("https://www.twitch.tv/videos/"@ + s[1]),
            Some(s) if s.len() == 3 && s[1] == "v"@ => Ok("https://www.twitch.tv/videos/"@ + s[2]),
            _ => format_error(TWITCH_FORMAT),
        }
    } else if is_everyplay_host(d) {
        match u.path_segments {
            Some(s) if s.len() == 2 && s[0] == "videos"@ => Ok("https://everyplay.com/videos/"@ + s[1]),
            _ => format_error(EVERYPLAY_FORMAT),
        }
    } else if is_bilibili_host(d) {
        match u.path_segments {
            Some(s) if s.len() == 2 && s[0] == "video"@ => Ok("https://www.bilibili.com/video/"@ + s[1]),
            _ => format_error(BILIBILI_FORMAT),
        }
    } else if is_vimeo_host(d) {
        match u.path_segments {
            Some(s) if s.len() == 1 => Ok("https://vimeo.com/"@ + s[0]),
            _ => format_error(VIMEO_FORMAT),
        }
    } else {
        Err(DemonlistError::UnsupportedVideoHost)
    }
}

/// What the list makes of a video link that parsed to `parsed`: the canonical link of the
/// video, or why the link is refused.
pub open spec fn video_verdict(parsed: Option<UrlParts>) -> Result<Seq<char>, DemonlistError> {
    match parsed {
        None => Err(DemonlistError::MalformedVideoUrl),
        Some(u) => if !(u.scheme == "http"@ || u.scheme == "https"@) {
            Err(DemonlistError::Core(CoreError::InvalidUrlScheme))
        } else if u.username.len() != 0 || u.has_password {
            Err(DemonlistError::Core(CoreError::UrlAuthenticated))
        } else {
            match u.domain {
                Some(d) => video_by_host(u, d),
                None => Err(DemonlistError::Core(CoreError::UnprocessableEntity)),
            }
        },
    }
}

/// The verdict as an exec value: the canonical link as a `String`.
pub open spec fn verdict_matches(r: Result<String, DemonlistError>, v: Result<Seq<char>, DemonlistError>) -> bool {
    match r {
        Ok(s) => v == Ok::<Seq<char>, DemonlistError>(s@),
        Err(e) => v == Err::<Seq<char>, DemonlistError>(e),
    }
}

fn first_query_value<'a>(pairs: &'a Vec<(String, String)>, key: &str) -> (r: Option<&'a String>)
    ensures
        match r {
            Some(v) => query_value(pairs@.map_values(|p: (String, String)| (p.0@, p.1@)), key@) == Some(v@),
            None => query_value(pairs@.map_values(|p: (String, String)| (p.0@, p.1@)), key@) is None,
        },
{
    let ghost all = pairs@.map_values(|p: (String, String)| (p.0@, p.1@));
    let mut i: usize = 0;
    assert(all.skip(0) =~= all);
    while i < pairs.len()
        invariant
            i <= pairs@.len(),
            all == pairs@.map_values(|p: (String, String)| (p.0@, p.1@)),
            query_value(all, key@) == query_value(all.skip(i as int), key@),
        decreases pairs@.len() - i,
    {
        assert(all.skip(i as int)[0] == all[i as int]);
        if str_eq(pairs[i].0.as_str(), key) {
            return Some(&pairs[i].1);
        }
        assert(all.skip(i as int).drop_first() =~= all.skip(i + 1));
        i = i + 1;
    }
    assert(all.skip(i as int).len() == 0);
    None
}

/// The first `n` characters of `s`.
fn first_chars(s: &str, n: usize) -> (r: &str)
    ensures
        r@ == at_most(s@, n as int),
{
    let len = s.unicode_len();
    if len <= n {
        let r = s.substring_char(0, len);
        assert(r@ =~= s@);
        r
    } else {
        s.substring_char(0, n)
    }
}

fn segments_view(s: &Vec<String>) -> (r: Ghost<Seq<Seq<char>>>)
    ensures
        r@ == s@.map_values(|x: String| x@),
{
    Ghost(s@.map_values(|x: String| x@))
}

/// The canonical link of a video that parsed to `u`, or why the link is refused.
pub fn validate_parsed(u: &ParsedUrl) -> (r: Result<String, DemonlistError>)
    ensures
        verdict_matches(r, video_verdict(Some(u@))),
{
    if !(str_eq(u.scheme.as_str(), "http") || str_eq(u.scheme.as_str(), "https")) {
        return Err(DemonlistError::Core(CoreError::InvalidUrlScheme));
    }
    if u.username.as_str().unicode_len() != 0 || u.has_password {
        return Err(DemonlistError::Core(CoreError::UrlAuthenticated));
    }
    let d = match &u.domain {
        Some(d) => d.as_str(),
        None => {
            return Err(DemonlistError::Core(CoreError::UnprocessableEntity));
        },
    };
    let ghost v = u@;
    let ghost segs: Option<Seq<Seq<char>>> = v.path_segments;
    if str_eq(d, "www.youtube.com") || str_eq(d, "m.youtube.com") || str_eq(d, "youtube.com") {
        if str_eq(u.path.as_str(), "/watch") {
            if let Some(id) = first_query_value(&u.query_pairs, "v") {
                return Ok(concat("https://www.youtube.com/watch?v=", first_chars(id.as_str(), 11)));
            }
        }
        return Err(DemonlistError::Core(CoreError::InvalidUrlFormat { expected: YOUTUBE_FORMAT }));
    }
    if str_eq(d, "youtu.be") {
        if let Some(s) = &u.path_segments {
            let Ghost(sv) = segments_view(s);
            if s.len() == 1 {
                assert(sv[0] == s@[0]@);
                return Ok(concat("https://www.youtube.com/watch?v=", first_chars(s[0].as_str(), 11)));
            }
        }
        return Err(DemonlistError::Core(CoreError::InvalidUrlFormat { expected: YOUTUBE_FORMAT }));
    }
    if str_eq(d, "www.twitch.tv") || str_eq(d, "twitch.tv") {
        if let Some(s) = &u.path_segments {
            let Ghost(sv) = segments_view(s);
            if s.len() == 2 && str_eq(s[0].as_str(), "videos") {
                assert(sv[0] == s@[0]@ && sv[1] == s@[1]@);
                return Ok(concat("https://www.twitch.tv/videos/", s[1].as_str()));
            }
            if s.len() == 3 && str_eq(s[1].as_str(), "v") {
                assert(sv[1] == s@[1]@ && sv[2] == s@[2]@);
                return Ok(concat("https://www.twitch.tv/videos/", s[2].as_str()));
            }
            assert(s.len() == 2 ==> sv[0] == s@[0]@);
            assert(s.len() == 3 ==> sv[1] == s@[1]@);
        }
        return Err(DemonlistError::Core(CoreError::InvalidUrlFormat { expected: TWITCH_FORMAT }));
    }
    if str_eq(d, "everyplay.com") || str_eq(d, "www.everyplay.com") {
        if let Some(s) = &u.path_segments {
            let Ghost(sv) = segments_view(s);
            if s.len() == 2 && str_eq(s[0].as_str(), "videos") {
                assert(sv[0] == s@[0]@ && sv[1] == s@[1]@);
                return Ok(concat("https://everyplay.com/videos/", s[1].as_str()));
            }
            assert(s.len() == 2 ==> sv[0] == s@[0]@);
        }
        return Err(DemonlistError::Core(CoreError::InvalidUrlFormat { expected: EVERYPLAY_FORMAT }));
    }
    if str_eq(d, "www.bilibili.com") || str_eq(d, "bilibili.com") {
        if let Some(s) = &u.path_segments {
            let Ghost(sv) = segments_view(s);
            if s.len() == 2 && str_eq(s[0].as_str(), "video") {
                assert(sv[0] == s@[0]@ && sv[1] == s@[1]@);
                return Ok(concat("https://www.bilibili.com/video/", s[1].as_str()));
            }
            assert(s.len() == 2 ==> sv[0] == s@[0]@);
        }
        return Err(DemonlistError::Core(CoreError::InvalidUrlFormat { expected: BILIBILI_FORMAT }));
    }
    if str_eq(d, "vimeo.com") || str_eq(d, "www.vimeo.com") {
        if let Some(s) = &u.path_segments {
            let Ghost(sv) = segments_view(s);
            if s.len() == 1 {
                assert(sv[0] == s@[0]@);
                return Ok(concat("https://vimeo.com/", s[0].as_str()));
            }
        }
        return Err(DemonlistError::Core(CoreError::InvalidUrlFormat { expected: VIMEO_FORMAT }));
    }
    Err(DemonlistError::UnsupportedVideoHost)
}

/// Checks a video link and gives the one link the list stores for that video.
pub fn validate(url: &str) -> (r: Result<String, DemonlistError>)
    ensures
        verdict_matches(r, video_verdict(url_parse(url@))),
{
    match parse_url(url) {
        Some(u) => validate_parsed(&u),
        None => Err(DemonlistError::MalformedVideoUrl),
    }
}

/// The name of the site a stored video link points to, by the link's domain.
pub open spec fn host_label(d: Seq<char>) -> Option<Seq<char>> {
    if d == "www.youtube.com"@ {
        Some("YouTube"@)
    } else if d == "www.twitch.tv"@ {
        Some("Twitch"@)
    } else if d == "everyplay.com"@ {
        Some("Everyplay"@)
    } else if d == "www.bilibili.com"@ {
        Some("Bilibili"@)
    } else if d == "vimeo.com"@ {
        Some("Vimeo"@)
    } else {
        None
    }
}

/// The link to embed a stored video with, where the site offers one.
pub open spec fn embed_link(u: UrlParts) -> Option<Seq<char>> {
    match u.domain {
        Some(d) => if d == "www.youtube.com"@ {
            match query_value(u.query_pairs, "v"@) {
                Some(id) => Some("https://www.youtube.com/embed/"@ + id),
                None => None,
            }
        } else if d == "www.twitch.tv"@ {
            match u.path_segments {
                Some(s) if s.len() >= 2 => Some("https://player.twitch.tv/?video="@ + s[1] + "&autoplay=false"@),
                _ => None,
            }
        } else {
            None
        },
        None => None,
    }
}

/// The name of the site a stored video is hosted on. Stored links are canonical, so
/// their domain is one of the five the list stores links under.
pub fn host_of(u: &ParsedUrl) -> (r: &'static str)
    requires
        u@.domain matches Some(d) && host_label(d) is Some,
    ensures
        Some(r@) == host_label(u@.domain->Some_0),
{
    let d = match &u.domain {
        Some(d) => d.as_str(),
        None => "",
    };
    if str_eq(d, "www.youtube.com") {
        "YouTube"
    } else if str_eq(d, "www.twitch.tv") {
        "Twitch"
    } else if str_eq(d, "everyplay.com") {
        "Everyplay"
    } else if str_eq(d, "www.bilibili.com") {
        "Bilibili"
    } else {
        "Vimeo"
    }
}

/// The link to embed a stored video with, if its site offers one.
pub fn embed_of(u: &ParsedUrl) -> (r: Option<String>)
    ensures
        match r {
            Some(s) => embed_link(u@) == Some(s@),
            None => embed_link(u@) is None,
        },
{
    let d = match &u.domain {
        Some(d) => d.as_str(),
        None => {
            return None;
        },
    };
    if str_eq(d, "www.youtube.com") {
        match first_query_value(&u.query_pairs, "v") {
            Some(id) => Some(concat("https://www.youtube.com/embed/", id.as_str())),
            None => None,
        }
    } else if str_eq(d, "www.twitch.tv") {
        match &u.path_segments {
            Some(s) => {
                let Ghost(sv) = segments_view(s);
                if s.len() >= 2 {
                    assert(sv[1] == s@[1]@);
                    let link = concat("https://player.twitch.tv/?video=", s[1].as_str());
                    let link = concat(link.as_str(), "&autoplay=false");
                    Some(link)
                } else {
                    None
                }
            },
            None => None,
        }
    } else {
        None
    }
}

/// How a stored video is shown on a demon's page: the name of its site and, where the
/// site offers one, the link to embed it with. `None` for a link that is no URL or whose
/// site the list does not store links for.
pub fn presentation(video: &str) -> (r: Option<(&'static str, Option<String>)>)
    ensures
        match r {
            Some((host, embed)) => url_parse(video@) matches Some(u) && u.domain matches Some(d)
                && host_label(d) == Some(host@) && match embed {
                Some(e) => embed_link(u) == Some(e@),
                None => embed_link(u) is None,
            },
            None => !(url_parse(video@) matches Some(u) && u.domain matches Some(d) && host_label(d) is Some),
        },
{
    let u = match parse_url(video) {
        Some(u) => u,
        None => {
            return None;
        },
    };
    let known = match &u.domain {
        Some(d) => {
            let d = d.as_str();
            str_eq(d, "www.youtube.com") || str_eq(d, "www.twitch.tv") || str_eq(d, "everyplay.com") || str_eq(
                d,
                "www.bilibili.com",
            ) || str_eq(d, "vimeo.com")
        },
        None => false,
    };
    if !known {
        return None;
    }
    Some((host_of(&u), embed_of(&u)))
}

/// The canonical prefixes the list stores video links under.
pub open spec fn canonical_prefix(p: Seq<char>) -> bool {
    ||| p == "https://www.youtube.com/watch?v="@
    ||| p == "https://www.twitch.tv/videos/"@
    ||| p == "https://everyplay.com/videos/"@
    ||| p == "https://www.bilibili.com/video/"@
    ||| p == "https://vimeo.com/"@
}

/// Law: every video link the list accepts is stored as one of five canonical prefixes
/// followed by the video's id, and a YouTube id keeps at most 11 characters.
pub proof fn law_accepted_videos_are_canonical(parsed: Option<UrlParts>)
    ensures
        video_verdict(parsed) matches Ok(link) ==> exists|prefix: Seq<char>, id: Seq<char>|
            canonical_prefix(prefix) && link == prefix + id && (prefix == "https://www.youtube.com/watch?v="@
                ==> id.len() <= 11),
{
    if let Ok(link) = video_verdict(parsed) {
        let u = parsed->Some_0;
        let d = u.domain->Some_0;
        if is_youtube_host(d) {
            let id = at_most(query_value(u.query_pairs, "v"@)->Some_0, 11);
            assert(canonical_prefix("https://www.youtube.com/watch?v="@) && link == "https://www.youtube.com/watch?v="@ + id);
        } else if d == "youtu.be"@ {
            let id = at_most(u.path_segments->Some_0[0], 11);
            assert(canonical_prefix("https://www.youtube.com/watch?v="@) && link == "https://www.youtube.com/watch?v="@ + id);
        } else if is_twitch_host(d) {
            let s = u.path_segments->Some_0;
            if s.len() == 2 && s[0] == "videos"@ {
                assert(canonical_prefix("https://www.twitch.tv/videos/"@) && link == "https://www.twitch.tv/videos/"@ + s[1]);
            } else {
                assert(canonical_prefix("https://www.twitch.tv/videos/"@) && link == "https://www.twitch.tv/videos/"@ + s[2]);
            }
            reveal_strlit("https://www.twitch.tv/videos/");
            reveal_strlit("https://www.youtube.com/watch?v=");
            assert("https://www.twitch.tv/videos/"@ != "https://www.youtube.com/watch?v="@) by {
                assert("https://www.twitch.tv/videos/"@[12] != "https://www.youtube.com/watch?v="@[12]);
            }
        } else if is_everyplay_host(d) {
            let s = u.path_segments->Some_0;
            assert(canonical_prefix("https://everyplay.com/videos/"@) && link == "https://everyplay.com/videos/"@ + s[1]);
            reveal_strlit("https://everyplay.com/videos/");
            reveal_strlit("https://www.youtube.com/watch?v=");
            assert("https://everyplay.com/videos/"@ != "https://www.youtube.com/watch?v="@) by {
                assert("https://everyplay.com/videos/"@[8] != "https://www.youtube.com/watch?v="@[8]);
            }
        } else if is_bilibili_host(d) {
            let s = u.path_segments->Some_0;
            assert(canonical_prefix("https://www.bilibili.com/video/"@) && link == "https://www.bilibili.com/video/"@ + s[1]);
            reveal_strlit("https://www.bilibili.com/video/");
            reveal_strlit("https://www.youtube.com/watch?v=");
            assert("https://www.bilibili.com/video/"@ != "https://www.youtube.com/watch?v="@) by {
                assert("https://www.bilibili.com/video/"@[12] != "https://www.youtube.com/watch?v="@[12]);
            }
        } else {
            let s = u.path_segments->Some_0;
            assert(canonical_prefix("https://vimeo.com/"@) && link == "https://vimeo.com/"@ + s[0]);
            reveal_strlit("https://vimeo.com/");
            reveal_strlit("https://www.youtube.com/watch?v=");
            assert("https://vimeo.com/"@ != "https://www.youtube.com/watch?v="@) by {
                assert("https://vimeo.com/"@[8] != "https://www.youtube.com/watch?v="@[8]);
            }
        }
    }
}

/// The host names the rules know are pairwise different.
proof fn lemma_host_names_differ()
    ensures
        "www.youtube.com"@ != "m.youtube.com"@,
        "www.youtube.com"@ != "youtube.com"@,
        "www.youtube.com"@ != "youtu.be"@,
        "www.youtube.com"@ != "www.twitch.tv"@,
        "www.youtube.com"@ != "twitch.tv"@,
        "www.youtube.com"@ != "everyplay.com"@,
        "www.youtube.com"@ != "www.everyplay.com"@,
        "www.youtube.com"@ != "www.bilibili.com"@,
        "www.youtube.com"@ != "bilibili.com"@,
        "www.youtube.com"@ != "vimeo.com"@,
        "www.youtube.com"@ != "www.vimeo.com"@,
        "m.youtube.com"@ != "youtube.com"@,
        "m.youtube.com"@ != "youtu.be"@,
        "m.youtube.com"@ != "www.twitch.tv"@,
        "m.youtube.com"@ != "twitch.tv"@,
        "m.youtube.com"@ != "everyplay.com"@,
        "m.youtube.com"@ != "www.everyplay.com"@,
        "m.youtube.com"@ != "www.bilibili.com"@,
        "m.youtube.com"@ != "bilibili.com"@,
        "m.youtube.com"@ != "vimeo.com"@,
        "m.youtube.com"@ != "www.vimeo.com"@,
        "youtube.com"@ != "youtu.be"@,
        "youtube.com"@ != "www.twitch.tv"@,
        "youtube.com"@ != "twitch.tv"@,
        "youtube.com"@ != "everyplay.com"@,
        "youtube.com"@ != "www.everyplay.com"@,
        "youtube.com"@ != "www.bilibili.com"@,
        "youtube.com"@ != "bilibili.com"@,
        "youtube.com"@ != "vimeo.com"@,
        "youtube.com"@ != "www.vimeo.com"@,
        "youtu.be"@ != "www.twitch.tv"@,
        "youtu.be"@ != "twitch.tv"@,
        "youtu.be"@ != "everyplay.com"@,
        "youtu.be"@ != "www.everyplay.com"@,
        "youtu.be"@ != "www.bilibili.com"@,
        "youtu.be"@ != "bilibili.com"@,
        "youtu.be"@ != "vimeo.com"@,
        "youtu.be"@ != "www.vimeo.com"@,
        "www.twitch.tv"@ != "twitch.tv"@,
        "www.twitch.tv"@ != "everyplay.com"@,
        "www.twitch.tv"@ != "www.everyplay.com"@,
        "www.twitch.tv"@ != "www.bilibili.com"@,
        "www.twitch.tv"@ != "bilibili.com"@,
        "www.twitch.tv"@ != "vimeo.com"@,
        "www.twitch.tv"@ != "www.vimeo.com"@,
        "twitch.tv"@ != "everyplay.com"@,
        "twitch.tv"@ != "www.everyplay.com"@,
        "twitch.tv"@ != "www.bilibili.com"@,
        "twitch.tv"@ != "bilibili.com"@,
        "twitch.tv"@ != "vimeo.com"@,
        "twitch.tv"@ != "www.vimeo.com"@,
        "everyplay.com"@ != "www.everyplay.com"@,
        "everyplay.com"@ != "www.bilibili.com"@,
        "everyplay.com"@ != "bilibili.com"@,
        "everyplay.com"@ != "vimeo.com"@,
        "everyplay.com"@ != "www.vimeo.com"@,
        "www.everyplay.com"@ != "www.bilibili.com"@,
        "www.everyplay.com"@ != "bilibili.com"@,
        "www.everyplay.com"@ != "vimeo.com"@,
        "www.everyplay.com"@ != "www.vimeo.com"@,
        "www.bilibili.com"@ != "bilibili.com"@,
        "www.bilibili.com"@ != "vimeo.com"@,
        "www.bilibili.com"@ != "www.vimeo.com"@,
        "bilibili.com"@ != "vimeo.com"@,
        "bilibili.com"@ != "www.vimeo.com"@,
        "vimeo.com"@ != "www.vimeo.com"@,
{
    reveal_strlit("www.youtube.com");
    reveal_strlit("m.youtube.com");
    reveal_strlit("youtube.com");
    reveal_strlit("youtu.be");
    reveal_strlit("www.twitch.tv");
    reveal_strlit("twitch.tv");
    reveal_strlit("everyplay.com");
    reveal_strlit("www.everyplay.com");
    reveal_strlit("www.bilibili.com");
    reveal_strlit("bilibili.com");
    reveal_strlit("vimeo.com");
    reveal_strlit("www.vimeo.com");
    assert("www.youtube.com"@.len() != "m.youtube.com"@.len());
    assert("www.youtube.com"@.len() != "youtube.com"@.len());
    assert("www.youtube.com"@.len() != "youtu.be"@.len());
    assert("www.youtube.com"@.len() != "www.twitch.tv"@.len());
    assert("www.youtube.com"@.len() != "twitch.tv"@.len());
    assert("www.youtube.com"@.len() != "everyplay.com"@.len());
    assert("www.youtube.com"@.len() != "www.everyplay.com"@.len());
    assert("www.youtube.com"@.len() != "www.bilibili.com"@.len());
    assert("www.youtube.com"@.len() != "bilibili.com"@.len());
    assert("www.youtube.com"@.len() != "vimeo.com"@.len());
    assert("www.youtube.com"@.len() != "www.vimeo.com"@.len());
    assert("m.youtube.com"@.len() != "youtube.com"@.len());
    assert("m.youtube.com"@.len() != "youtu.be"@.len());
    assert("m.youtube.com"@[0] != "www.twitch.tv"@[0]);
    assert("m.youtube.com"@.len() != "twitch.tv"@.len());
    assert("m.youtube.com"@[0] != "everyplay.com"@[0]);
    assert("m.youtube.com"@.len() != "www.everyplay.com"@.len());
    assert("m.youtube.com"@.len() != "www.bilibili.com"@.len());
    assert("m.youtube.com"@.len() != "bilibili.com"@.len());
    assert("m.youtube.com"@.len() != "vimeo.com"@.len());
    assert("m.youtube.com"@[0] != "www.vimeo.com"@[0]);
    assert("youtube.com"@.len() != "youtu.be"@.len());
    assert("youtube.com"@.len() != "www.twitch.tv"@.len());
    assert("youtube.com"@.len() != "twitch.tv"@.len());
    assert("youtube.com"@.len() != "everyplay.com"@.len());
    assert("youtube.com"@.len() != "www.everyplay.com"@.len());
    assert("youtube.com"@.len() != "www.bilibili.com"@.len());
    assert("youtube.com"@.len() != "bilibili.com"@.len());
    assert("youtube.com"@.len() != "vimeo.com"@.len());
    assert("youtube.com"@.len() != "www.vimeo.com"@.len());
    assert("youtu.be"@.len() != "www.twitch.tv"@.len());
    assert("youtu.be"@.len() != "twitch.tv"@.len());
    assert("youtu.be"@.len() != "everyplay.com"@.len());
    assert("youtu.be"@.len() != "www.everyplay.com"@.len());
    assert("youtu.be"@.len() != "www.bilibili.com"@.len());
    assert("youtu.be"@.len() != "bilibili.com"@.len());
    assert("youtu.be"@.len() != "vimeo.com"@.len());
    assert("youtu.be"@.len() != "www.vimeo.com"@.len());
    assert("www.twitch.tv"@.len() != "twitch.tv"@.len());
    assert("www.twitch.tv"@[0] != "everyplay.com"@[0]);
    assert("www.twitch.tv"@.len() != "www.everyplay.com"@.len());
    assert("www.twitch.tv"@.len() != "www.bilibili.com"@.len());
    assert("www.twitch.tv"@.len() != "bilibili.com"@.len());
    assert("www.twitch.tv"@.len() != "vimeo.com"@.len());
    assert("www.twitch.tv"@[4] != "www.vimeo.com"@[4]);
    assert("twitch.tv"@.len() != "everyplay.com"@.len());
    assert("twitch.tv"@.len() != "www.everyplay.com"@.len());
    assert("twitch.tv"@.len() != "www.bilibili.com"@.len());
    assert("twitch.tv"@.len() != "bilibili.com"@.len());
    assert("twitch.tv"@[0] != "vimeo.com"@[0]);
    assert("twitch.tv"@.len() != "www.vimeo.com"@.len());
    assert("everyplay.com"@.len() != "www.everyplay.com"@.len());
    assert("everyplay.com"@.len() != "www.bilibili.com"@.len());
    assert("everyplay.com"@.len() != "bilibili.com"@.len());
    assert("everyplay.com"@.len() != "vimeo.com"@.len());
    assert("everyplay.com"@[0] != "www.vimeo.com"@[0]);
    assert("www.everyplay.com"@.len() != "www.bilibili.com"@.len());
    assert("www.everyplay.com"@.len() != "bilibili.com"@.len());
    assert("www.everyplay.com"@.len() != "vimeo.com"@.len());
    assert("www.everyplay.com"@.len() != "www.vimeo.com"@.len());
    assert("www.bilibili.com"@.len() != "bilibili.com"@.len());
    assert("www.bilibili.com"@.len() != "vimeo.com"@.len());
    assert("www.bilibili.com"@.len() != "www.vimeo.com"@.len());
    assert("bilibili.com"@.len() != "vimeo.com"@.len());
    assert("bilibili.com"@.len() != "www.vimeo.com"@.len());
    assert("vimeo.com"@.len() != "www.vimeo.com"@.len());
}

/// Law: the first checks on a parsed link, in order: an unparsed link is malformed, a
/// scheme other than http or https is refused, so are credentials, and so is a link
/// without a domain name.
pub proof fn law_video_link_refusals(u: UrlParts)
    ensures
        video_verdict(None) == Err::<Seq<char>, DemonlistError>(DemonlistError::MalformedVideoUrl),
        !(u.scheme == "http"@ || u.scheme == "https"@) ==> video_verdict(Some(u)) == Err::<Seq<char>, DemonlistError>(
            DemonlistError::Core(CoreError::InvalidUrlScheme),
        ),
        (u.scheme == "http"@ || u.scheme == "https"@) && (u.username.len() != 0 || u.has_password) ==> video_verdict(
            Some(u),
        ) == Err::<Seq<char>, DemonlistError>(DemonlistError::Core(CoreError::UrlAuthenticated)),
        (u.scheme == "http"@ || u.scheme == "https"@) && u.username.len() == 0 && !u.has_password && u.domain is None ==> video_verdict(Some(u)) == Err::<Seq<char>, DemonlistError>(
            DemonlistError::Core(CoreError::UnprocessableEntity),
        ),
{
}

/// Law: a link on a domain other than the twelve the list knows is refused as an
/// unsupported host.
pub proof fn law_unknown_hosts_are_refused(u: UrlParts, d: Seq<char>)
    requires
        (u.scheme == "http"@ || u.scheme == "https"@) && u.username.len() == 0 && !u.has_password,
        u.domain == Some(d),
        d != "www.youtube.com"@,
        d != "m.youtube.com"@,
        d != "youtube.com"@,
        d != "youtu.be"@,
        d != "www.twitch.tv"@,
        d != "twitch.tv"@,
        d != "everyplay.com"@,
        d != "www.everyplay.com"@,
        d != "www.bilibili.com"@,
        d != "bilibili.com"@,
        d != "vimeo.com"@,
        d != "www.vimeo.com"@,
    ensures
        video_verdict(Some(u)) == Err::<Seq<char>, DemonlistError>(DemonlistError::UnsupportedVideoHost),
{
}

proof fn lemma_query_value_first(pairs: Seq<(Seq<char>, Seq<char>)>, key: Seq<char>, k: int)
    requires
        0 <= k < pairs.len(),
        pairs[k].0 == key,
        forall|j: int| 0 <= j < k ==> pairs[j].0 != key,
    ensures
        query_value(pairs, key) == Some(pairs[k].1),
    decreases k,
{
    if k > 0 {
        assert(pairs[0].0 != key);
        lemma_query_value_first(pairs.drop_first(), key, k - 1);
    }
}

proof fn lemma_query_value_absent(pairs: Seq<(Seq<char>, Seq<char>)>, key: Seq<char>)
    requires
        forall|j: int| 0 <= j < pairs.len() ==> pairs[j].0 != key,
    ensures
        query_value(pairs, key) is None,
    decreases pairs.len(),
{
    if pairs.len() > 0 {
        assert(pairs[0].0 != key);
        lemma_query_value_absent(pairs.drop_first(), key);
    }
}

/// Law: a YouTube watch link is stored under the value of its first `v` query pair, cut
/// to 11 characters; one on another path or without a `v` pair is refused. A youtu.be
/// link is stored under its single path segment, cut the same way.
pub proof fn law_youtube_links(u: UrlParts, k: int, id: Seq<char>)
    ensures
        (u.scheme == "http"@ || u.scheme == "https"@) && u.username.len() == 0 && !u.has_password && (u.domain == Some("www.youtube.com"@) || u.domain == Some("m.youtube.com"@) || u.domain == Some("youtube.com"@)) && u.path == "/watch"@ && 0 <= k < u.query_pairs.len() && u.query_pairs[k] == ("v"@, id)
            && (forall|j: int| 0 <= j < k ==> u.query_pairs[j].0 != "v"@) ==> video_verdict(Some(u))
            == Ok::<Seq<char>, DemonlistError>("https://www.youtube.com/watch?v="@ + (if id.len() <= 11 { id } else { id.subrange(0, 11) })),
        (u.scheme == "http"@ || u.scheme == "https"@) && u.username.len() == 0 && !u.has_password && (u.domain == Some("www.youtube.com"@) || u.domain == Some("m.youtube.com"@) || u.domain == Some("youtube.com"@)) && (u.path != "/watch"@ || forall|j: int| 0 <= j < u.query_pairs.len() ==> u.query_pairs[j].0
            != "v"@) ==> video_verdict(Some(u)) == Err::<Seq<char>, DemonlistError>(
            DemonlistError::Core(CoreError::InvalidUrlFormat { expected: YOUTUBE_FORMAT }),
        ),
        (u.scheme == "http"@ || u.scheme == "https"@) && u.username.len() == 0 && !u.has_password && u.domain == Some("youtu.be"@) && u.path_segments == Some(seq![id]) ==> video_verdict(Some(u))
            == Ok::<Seq<char>, DemonlistError>("https://www.youtube.com/watch?v="@ + (if id.len() <= 11 { id } else { id.subrange(0, 11) })),
{
    lemma_host_names_differ();
    if 0 <= k < u.query_pairs.len() && u.query_pairs[k] == ("v"@, id) && (forall|j: int| 0 <= j < k ==> u.query_pairs[j].0 != "v"@) {
        lemma_query_value_first(u.query_pairs, "v"@, k);
    }
    if forall|j: int| 0 <= j < u.query_pairs.len() ==> u.query_pairs[j].0 != "v"@ {
        lemma_query_value_absent(u.query_pairs, "v"@);
    }
}

/// Law: a Twitch video link (`videos/<id>` or `<channel>/v/<id>`) is stored as
/// `https://www.twitch.tv/videos/<id>`.
pub proof fn law_twitch_links(u: UrlParts, channel: Seq<char>, id: Seq<char>)
    ensures
        (u.scheme == "http"@ || u.scheme == "https"@) && u.username.len() == 0 && !u.has_password && (u.domain == Some("www.twitch.tv"@) || u.domain == Some("twitch.tv"@)) && u.path_segments == Some(seq!["videos"@, id])
            ==> video_verdict(Some(u)) == Ok::<Seq<char>, DemonlistError>("https://www.twitch.tv/videos/"@ + id),
        (u.scheme == "http"@ || u.scheme == "https"@) && u.username.len() == 0 && !u.has_password && (u.domain == Some("www.twitch.tv"@) || u.domain == Some("twitch.tv"@)) && u.path_segments == Some(seq![channel, "v"@, id])
            ==> video_verdict(Some(u)) == Ok::<Seq<char>, DemonlistError>("https://www.twitch.tv/videos/"@ + id),
{
    lemma_host_names_differ();
}

/// Law: an Everyplay video link `videos/<id>` is stored as `https://everyplay.com/videos/<id>`.
pub proof fn law_everyplay_links(u: UrlParts, id: Seq<char>)
    ensures
        (u.scheme == "http"@ || u.scheme == "https"@) && u.username.len() == 0 && !u.has_password && (u.domain == Some("everyplay.com"@) || u.domain == Some("www.everyplay.com"@)) && u.path_segments == Some(seq!["videos"@, id])
            ==> video_verdict(Some(u)) == Ok::<Seq<char>, DemonlistError>("https://everyplay.com/videos/"@ + id),
{
    lemma_host_names_differ();
}

/// Law: a Bilibili video link `video/<id>` is stored as `https://www.bilibili.com/video/<id>`.
pub proof fn law_bilibili_links(u: UrlParts, id: Seq<char>)
    ensures
        (u.scheme == "http"@ || u.scheme == "https"@) && u.username.len() == 0 && !u.has_password && (u.domain == Some("www.bilibili.com"@) || u.domain == Some("bilibili.com"@)) && u.path_segments == Some(seq!["video"@, id])
            ==> video_verdict(Some(u)) == Ok::<Seq<char>, DemonlistError>("https://www.bilibili.com/video/"@ + id),
{
    lemma_host_names_differ();
}

/// Law: a Vimeo link with a single path segment `<id>` is stored as `https://vimeo.com/<id>`.
pub proof fn law_vimeo_links(u: UrlParts, id: Seq<char>)
    ensures
        (u.scheme == "http"@ || u.scheme == "https"@) && u.username.len() == 0 && !u.has_password && (u.domain == Some("vimeo.com"@) || u.domain == Some("www.vimeo.com"@)) && u.path_segments == Some(seq![id])
            ==> video_verdict(Some(u)) == Ok::<Seq<char>, DemonlistError>("https://vimeo.com/"@ + id),
{
    lemma_host_names_differ();
}

/// Law: a link on a known host whose path has another shape than that host's video links
/// is refused with the formats that host takes.
pub proof fn law_misshapen_links_are_refused(u: UrlParts)
    ensures
        (u.scheme == "http"@ || u.scheme == "https"@) && u.username.len() == 0 && !u.has_password && u.domain == Some("youtu.be"@) && !(u.path_segments matches Some(s) && s.len() == 1) ==> video_verdict(Some(u)) == Err::<Seq<char>, DemonlistError>(DemonlistError::Core(CoreError::InvalidUrlFormat { expected: YOUTUBE_FORMAT })),
        (u.scheme == "http"@ || u.scheme == "https"@) && u.username.len() == 0 && !u.has_password && (u.domain == Some("www.twitch.tv"@) || u.domain == Some("twitch.tv"@)) && !(u.path_segments matches Some(s) && ((s.len() == 2 && s[0]
            == "videos"@) || (s.len() == 3 && s[1] == "v"@))) ==> video_verdict(Some(u)) == Err::<Seq<char>, DemonlistError>(DemonlistError::Core(CoreError::InvalidUrlFormat { expected: TWITCH_FORMAT })),
        (u.scheme == "http"@ || u.scheme == "https"@) && u.username.len() == 0 && !u.has_password && (u.domain == Some("everyplay.com"@) || u.domain == Some("www.everyplay.com"@)) && !(u.path_segments matches Some(s) && s.len() == 2 && s[0]
            == "videos"@) ==> video_verdict(Some(u)) == Err::<Seq<char>, DemonlistError>(DemonlistError::Core(CoreError::InvalidUrlFormat { expected: EVERYPLAY_FORMAT })),
        (u.scheme == "http"@ || u.scheme == "https"@) && u.username.len() == 0 && !u.has_password && (u.domain == Some("www.bilibili.com"@) || u.domain == Some("bilibili.com"@)) && !(u.path_segments matches Some(s) && s.len() == 2 && s[0]
            == "video"@) ==> video_verdict(Some(u)) == Err::<Seq<char>, DemonlistError>(DemonlistError::Core(CoreError::InvalidUrlFormat { expected: BILIBILI_FORMAT })),
        (u.scheme == "http"@ || u.scheme == "https"@) && u.username.len() == 0 && !u.has_password && (u.domain == Some("vimeo.com"@) || u.domain == Some("www.vimeo.com"@)) && !(u.path_segments matches Some(s) && s.len() == 1) ==> video_verdict(Some(u)) == Err::<Seq<char>, DemonlistError>(DemonlistError::Core(CoreError::InvalidUrlFormat { expected: VIMEO_FORMAT })),
{
    lemma_host_names_differ();
}

} // verus!
