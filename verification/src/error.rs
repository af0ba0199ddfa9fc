//! The errors the demonlist answers refused requests with.
use crate::demon::MinimalDemon;
use crate::record::RecordStatus;
use vstd::prelude::*;

verus! {

/// Errors that are not specific to the demonlist. Their numeric codes belong to
/// the shared core of the site and are assigned there.
#[derive(Debug, PartialEq, Eq, Clone)]
pub enum CoreError {
    NotFound,
    Unauthorized,
    UnprocessableEntity,
    /// Two fields of a request were given that exclude each other.
    MutuallyExclusive,
    /// A URL whose scheme is neither `http` nor `https`.
    InvalidUrlScheme,
    /// A URL that carries a user name or a password.
    UrlAuthenticated,
    /// A URL that does not have one of the shapes given in `expected`.
    InvalidUrlFormat { expected: &'static str },
    DatabaseError,
}

#[derive(Debug, PartialEq, Eq, Clone)]
pub enum DemonlistError {
    Core(CoreError),
    MalformedVideoUrl,
    /// `403 FORBIDDEN`: someone whose IP address is banned from submitting records tried to
    /// submit one.
    BannedFromSubmissions,
    ClaimUnverified,
    VpsDetected,
    /// `403 FORBIDDEN`: a record was submitted for a player who does not permit others to
    /// submit records for them.
    NoThirdPartySubmissions,
    SubmitterNotFound { id: i32 },
    NoteNotFound { note_id: i32, record_id: i32 },
    CreatorNotFound { demon_id: i32, player_id: i32 },
    NationalityNotFound { iso_code: String },
    SubdivisionNotFound { subdivision_code: String, nation_code: String },
    PlayerNotFound { player_id: i32 },
    PlayerNotFoundName { player_name: String },
    DemonNotFound { demon_id: i32 },
    DemonNotFoundName { demon_name: String },
    DemonNotFoundPosition { demon_position: i16 },
    RecordNotFound { record_id: i32 },
    ClaimNotFound { member_id: i32, player_id: i32 },
    CreatorExists,
    /// `409 CONFLICT`: another record already uses this video.
    DuplicateVideo { id: i32 },
    /// `409 CONFLICT`: a subdivision was set for a player without a nation.
    NoNationSet,
    ConflictingClaims { player1: String, player2: String },
    /// `422 UNPROCESSABLE ENTITY`: a record requirement outside of `[0, 100]`.
    InvalidRequirement,
    /// `422 UNPROCESSABLE ENTITY`: a position that would leave holes in the list, or is
    /// smaller than 1. `maximal` is the largest position a new demon can be added at.
    InvalidPosition { maximal: i16 },
    /// `422 UNPROCESSABLE ENTITY`: progress outside of `[requirement, 100]`.
    InvalidProgress { requirement: i16 },
    /// `422 UNPROCESSABLE ENTITY`: a record that conflicts with the submission exists.
    SubmissionExists { status: RecordStatus, existing: i32 },
    /// `422 UNPROCESSABLE ENTITY`: the player is banned.
    PlayerBanned,
    /// `422 UNPROCESSABLE ENTITY`: submissions for the legacy list are not taken.
    SubmitLegacy,
    /// `422 UNPROCESSABLE ENTITY`: only 100% records are taken for the extended list.
    Non100Extended,
    /// `422 UNPROCESSABLE ENTITY`: the video is hosted on a site the list does not take.
    UnsupportedVideoHost,
    /// `422 UNPROCESSABLE ENTITY`: several demons carry the given name.
    DemonNameNotUnique { demons: Vec<MinimalDemon> },
    /// `422 UNPROCESSABLE ENTITY`: a note without content.
    NoteEmpty,
    AlreadyClaimed,
    /// `422 UNPROCESSABLE ENTITY`: a submission without raw footage.
    RawRequired,
    /// `422 UNPROCESSABLE ENTITY`: raw footage that is no URL.
    MalformedRawUrl,
    InvalidLevelId,
}

/// The numeric code of each error of the demonlist itself.
pub open spec fn demonlist_error_code(e: DemonlistError) -> u16 {
    match e {
        DemonlistError::Core(_) => 0,
        DemonlistError::SubmitterNotFound { .. } => 40401,
        DemonlistError::NoteNotFound { .. } => 40401,
        DemonlistError::CreatorNotFound { .. } => 40401,
        DemonlistError::CreatorExists => 40905,
        DemonlistError::InvalidRequirement => 42212,
        DemonlistError::InvalidPosition { .. } => 42213,
        DemonlistError::NoteEmpty => 42230,
        DemonlistError::MalformedVideoUrl => 40001,
        DemonlistError::BannedFromSubmissions => 40304,
        DemonlistError::ClaimUnverified => 40306,
        DemonlistError::VpsDetected => 40307,
        DemonlistError::NoThirdPartySubmissions => 40308,
        DemonlistError::NationalityNotFound { .. } => 40401,
        DemonlistError::SubdivisionNotFound { .. } => 40401,
        DemonlistError::PlayerNotFound { .. } => 40401,
        DemonlistError::PlayerNotFoundName { .. } => 40401,
        DemonlistError::DemonNotFound { .. } => 40401,
        DemonlistError::DemonNotFoundName { .. } => 40401,
        DemonlistError::DemonNotFoundPosition { .. } => 40401,
        DemonlistError::RecordNotFound { .. } => 40401,
        DemonlistError::ClaimNotFound { .. } => 40401,
        DemonlistError::DuplicateVideo { .. } => 40906,
        DemonlistError::NoNationSet => 40907,
        DemonlistError::ConflictingClaims { .. } => 40908,
        DemonlistError::InvalidProgress { .. } => 42215,
        DemonlistError::SubmissionExists { .. } => 42217,
        DemonlistError::PlayerBanned => 42218,
        DemonlistError::SubmitLegacy => 42219,
        DemonlistError::Non100Extended => 42220,
        DemonlistError::UnsupportedVideoHost => 42224,
        DemonlistError::DemonNameNotUnique { .. } => 42228,
        DemonlistError::AlreadyClaimed => 42231,
        DemonlistError::RawRequired => 42232,
        DemonlistError::MalformedRawUrl => 42233,
        DemonlistError::InvalidLevelId => 42235,
    }
}

impl DemonlistError {
    /// The error code of an error of the demonlist itself. Errors wrapped in `Core`
    /// take their code from the shared core of the site.
    pub fn error_code(&self) -> (r: u16)
        requires
            !(self is Core),
        ensures
            r == demonlist_error_code(*self),
    {
        match self {
            DemonlistError::Core(_) => 0,
            DemonlistError::SubmitterNotFound { .. } => 40401,
            DemonlistError::NoteNotFound { .. } => 40401,
            DemonlistError::CreatorNotFound { .. } => 40401,
            DemonlistError::CreatorExists => 40905,
            DemonlistError::InvalidRequirement => 42212,
            DemonlistError::InvalidPosition { .. } => 42213,
            DemonlistError::NoteEmpty => 42230,
            DemonlistError::MalformedVideoUrl => 40001,
            DemonlistError::BannedFromSubmissions => 40304,
            DemonlistError::ClaimUnverified => 40306,
            DemonlistError::VpsDetected => 40307,
            DemonlistError::NoThirdPartySubmissions => 40308,
            DemonlistError::NationalityNotFound { .. } => 40401,
            DemonlistError::SubdivisionNotFound { .. } => 40401,
            DemonlistError::PlayerNotFound { .. } => 40401,
            DemonlistError::PlayerNotFoundName { .. } => 40401,
            DemonlistError::DemonNotFound { .. } => 40401,
            DemonlistError::DemonNotFoundName { .. } => 40401,
            DemonlistError::DemonNotFoundPosition { .. } => 40401,
            DemonlistError::RecordNotFound { .. } => 40401,
            DemonlistError::ClaimNotFound { .. } => 40401,
            DemonlistError::DuplicateVideo { .. } => 40906,
            DemonlistError::NoNationSet => 40907,
            DemonlistError::ConflictingClaims { .. } => 40908,
            DemonlistError::InvalidProgress { .. } => 42215,
            DemonlistError::SubmissionExists { .. } => 42217,
            DemonlistError::PlayerBanned => 42218,
            DemonlistError::SubmitLegacy => 42219,
            DemonlistError::Non100Extended => 42220,
            DemonlistError::UnsupportedVideoHost => 42224,
            DemonlistError::DemonNameNotUnique { .. } => 42228,
            DemonlistError::AlreadyClaimed => 42231,
            DemonlistError::RawRequired => 42232,
            DemonlistError::MalformedRawUrl => 42233,
            DemonlistError::InvalidLevelId => 42235,
        }
    }

    /// Wraps a core error, as `From<CoreError>` does.
    pub fn from_core(error: CoreError) -> (r: DemonlistError)
        ensures
            r == DemonlistError::Core(error),
    {
        DemonlistError::Core(error)
    }
}

/// The key under which the message of each error of the demonlist is translated.
pub open spec fn error_message_key(e: DemonlistError) -> Seq<char> {
    match e {
        DemonlistError::Core(_) => Seq::empty(),
        DemonlistError::MalformedVideoUrl => "error-demonlist-malformedvideourl"@,
        DemonlistError::BannedFromSubmissions => "error-demonlist-bannedfromsubmissions"@,
        DemonlistError::ClaimUnverified => "error-demonlist-claimunverified"@,
        DemonlistError::VpsDetected => "error-demonlist-vpsdetected"@,
        DemonlistError::NoThirdPartySubmissions => "nothirdpartysubmissions-error-malformedvideourl"@,
        DemonlistError::SubmitterNotFound { .. } => "error-demonlist-submitternotfound"@,
        DemonlistError::NoteNotFound { .. } => "error-demonlist-notenotfound"@,
        DemonlistError::CreatorNotFound { .. } => "error-demonlist-creatornotfound"@,
        DemonlistError::NationalityNotFound { .. } => "error-demonlist-nationalitynotfound"@,
        DemonlistError::SubdivisionNotFound { .. } => "error-demonlist-subdivisionnotfound"@,
        DemonlistError::PlayerNotFound { .. } => "error-demonlist-playernotfound"@,
        DemonlistError::PlayerNotFoundName { .. } => "error-demonlist-playernotfoundname"@,
        DemonlistError::DemonNotFound { .. } => "error-demonlist-demonnotfound"@,
        DemonlistError::DemonNotFoundName { .. } => "error-demonlist-demonnotfoundname"@,
        DemonlistError::DemonNotFoundPosition { .. } => "error-demonlist-demonnotfoundposition"@,
        DemonlistError::RecordNotFound { .. } => "error-demonlist-recordnotfound"@,
        DemonlistError::ClaimNotFound { .. } => "error-demonlist-claimnotfound"@,
        DemonlistError::CreatorExists => "error-demonlist-creatorexists"@,
        DemonlistError::DuplicateVideo { .. } => "error-demonlist-duplicatevideo"@,
        DemonlistError::NoNationSet => "error-demonlist-nonationset"@,
        DemonlistError::ConflictingClaims { .. } => "error-demonlist-conflictingclaims"@,
        DemonlistError::InvalidRequirement => "error-demonlist-invalidrequirement"@,
        DemonlistError::InvalidPosition { .. } => "error-demonlist-invalidposition"@,
        DemonlistError::InvalidProgress { .. } => "error-demonlist-invalidprogress"@,
        DemonlistError::SubmissionExists { .. } => "error-demonlist-submissionexists"@,
        DemonlistError::PlayerBanned => "error-demonlist-playerbanned"@,
        DemonlistError::SubmitLegacy => "error-demonlist-submitlegacy"@,
        DemonlistError::Non100Extended => "error-demonlist-non100extended"@,
        DemonlistError::UnsupportedVideoHost => "error-demonlist-unsupportedvideohost"@,
        DemonlistError::DemonNameNotUnique { .. } => "error-demonlist-demonnamenotunique"@,
        DemonlistError::NoteEmpty => "error-demonlist-noteempty"@,
        DemonlistError::AlreadyClaimed => "error-demonlist-alreadyclaimed"@,
        DemonlistError::RawRequired => "error-demonlist-rawrequired"@,
        DemonlistError::MalformedRawUrl => "error-demonlist-malformedrawurl"@,
        DemonlistError::InvalidLevelId => "error-demonlist-invalidlevelid"@,
    }
}

impl DemonlistError {
    /// The key under which this error's message is translated. Errors wrapped in `Core`
    /// take their message from the shared core of the site.
    pub fn message_key(&self) -> (r: &'static str)
        requires
            !(self is Core),
        ensures
            r@ == error_message_key(*self),
    {
        match self {
            DemonlistError::Core(_) => "",
            DemonlistError::MalformedVideoUrl => "error-demonlist-malformedvideourl",
            DemonlistError::BannedFromSubmissions => "error-demonlist-bannedfromsubmissions",
            DemonlistError::ClaimUnverified => "error-demonlist-claimunverified",
            DemonlistError::VpsDetected => "error-demonlist-vpsdetected",
            DemonlistError::NoThirdPartySubmissions => "nothirdpartysubmissions-error-malformedvideourl",
            DemonlistError::SubmitterNotFound { .. } => "error-demonlist-submitternotfound",
            DemonlistError::NoteNotFound { .. } => "error-demonlist-notenotfound",
            DemonlistError::CreatorNotFound { .. } => "error-demonlist-creatornotfound",
            DemonlistError::NationalityNotFound { .. } => "error-demonlist-nationalitynotfound",
            DemonlistError::SubdivisionNotFound { .. } => "error-demonlist-subdivisionnotfound",
            DemonlistError::PlayerNotFound { .. } => "error-demonlist-playernotfound",
            DemonlistError::PlayerNotFoundName { .. } => "error-demonlist-playernotfoundname",
            DemonlistError::DemonNotFound { .. } => "error-demonlist-demonnotfound",
            DemonlistError::DemonNotFoundName { .. } => "error-demonlist-demonnotfoundname",
            DemonlistError::DemonNotFoundPosition { .. } => "error-demonlist-demonnotfoundposition",
            DemonlistError::RecordNotFound { .. } => "error-demonlist-recordnotfound",
            DemonlistError::ClaimNotFound { .. } => "error-demonlist-claimnotfound",
            DemonlistError::CreatorExists => "error-demonlist-creatorexists",
            DemonlistError::DuplicateVideo { .. } => "error-demonlist-duplicatevideo",
            DemonlistError::NoNationSet => "error-demonlist-nonationset",
            DemonlistError::ConflictingClaims { .. } => "error-demonlist-conflictingclaims",
            DemonlistError::InvalidRequirement => "error-demonlist-invalidrequirement",
            DemonlistError::InvalidPosition { .. } => "error-demonlist-invalidposition",
            DemonlistError::InvalidProgress { .. } => "error-demonlist-invalidprogress",
            DemonlistError::SubmissionExists { .. } => "error-demonlist-submissionexists",
            DemonlistError::PlayerBanned => "error-demonlist-playerbanned",
            DemonlistError::SubmitLegacy => "error-demonlist-submitlegacy",
            DemonlistError::Non100Extended => "error-demonlist-non100extended",
            DemonlistError::UnsupportedVideoHost => "error-demonlist-unsupportedvideohost",
            DemonlistError::DemonNameNotUnique { .. } => "error-demonlist-demonnamenotunique",
            DemonlistError::NoteEmpty => "error-demonlist-noteempty",
            DemonlistError::AlreadyClaimed => "error-demonlist-alreadyclaimed",
            DemonlistError::RawRequired => "error-demonlist-rawrequired",
            DemonlistError::MalformedRawUrl => "error-demonlist-malformedrawurl",
            DemonlistError::InvalidLevelId => "error-demonlist-invalidlevelid",
        }
    }
}

} // verus!
