//! Demons: the levels that the list ranks, and the checks made before one is added.
use crate::error::DemonlistError;
use crate::player::DatabasePlayer;
use crate::record::MinimalRecordP;
use crate::video::{self, url_parse, video_verdict};
use vstd::prelude::*;

verus! {

#[derive(Debug, Hash, PartialEq, Eq, Clone)]
pub struct MinimalDemon {
    pub id: i32,
    pub position: i16,
    pub name: String,
}

#[derive(Debug, Hash, PartialEq, Eq, Clone)]
pub struct Demon {
    pub base: MinimalDemon,
    pub requirement: i16,
    pub video: Option<String>,
    pub thumbnail: String,
    pub publisher: DatabasePlayer,
    pub verifier: DatabasePlayer,
    pub level_id: Option<u64>,
}

#[derive(Debug, Hash, PartialEq, Eq)]
pub struct FullDemon {
    pub demon: Demon,
    pub creators: Vec<DatabasePlayer>,
    pub records: Vec<MinimalRecordP>,
}

/// A demon as it was placed at some earlier time, with its position today.
#[derive(Debug, Clone)]
pub struct TimeShiftedDemon {
    pub current_demon: Demon,
    pub position_now: i16,
}

/// The data a new demon is created from.
#[derive(Debug)]
pub struct PostDemon {
    pub name: String,
    pub position: i16,
    pub requirement: i16,
    pub verifier: String,
    pub publisher: String,
    pub creators: Vec<String>,
    pub video: Option<String>,
}

/// A record requirement is a percentage.
pub open spec fn valid_requirement(requirement: i16) -> bool {
    0 <= requirement <= 100
}

impl Demon {
    /// Accepts a record requirement in `[0, 100]`.
    pub fn validate_requirement(requirement: i16) -> (r: Result<(), DemonlistError>)
        ensures
            r is Ok <==> valid_requirement(requirement),
            r is Err ==> r == Err::<(), DemonlistError>(DemonlistError::InvalidRequirement),
    {
        if requirement < 0 || requirement > 100 {
            return Err(DemonlistError::InvalidRequirement);
        }
        Ok(())
    }

    /// Accepts a position for a new demon when the lowest demon on the list sits at
    /// `current_max` (0 for an empty list): the position must be at least 1 and leave no
    /// hole, so at most `current_max + 1`.
    pub fn validate_position(position: i16, current_max: i16) -> (r: Result<(), DemonlistError>)
        requires
            current_max < i16::MAX,
        ensures
            r is Ok <==> 1 <= position <= current_max + 1,
            r is Err ==> r == Err::<(), DemonlistError>(
                DemonlistError::InvalidPosition { maximal: (current_max + 1) as i16 },
            ),
    {
        let maximal = current_max + 1;
        if position < 1 || position > maximal {
            return Err(DemonlistError::InvalidPosition { maximal });
        }
        Ok(())
    }
}

impl MinimalDemon {
    /// Picks the demon a name designates among the demons that carry it: none is an error,
    /// and so are several. In the error for several, the first demon found is listed last.
    pub fn unique_by_name(name: &str, found: Vec<MinimalDemon>) -> (r: Result<MinimalDemon, DemonlistError>)
        ensures
            found@.len() == 0 ==> (r matches Err(DemonlistError::DemonNotFoundName { demon_name })
                && demon_name@ == name@),
            found@.len() == 1 ==> r == Ok::<MinimalDemon, DemonlistError>(found@[0]),
            found@.len() > 1 ==> (r matches Err(DemonlistError::DemonNameNotUnique { demons })
                && demons@ == found@.drop_first().push(found@[0])),
    {
        let mut found = found;
        let n = found.len();
        if n == 0 {
            return Err(DemonlistError::DemonNotFoundName { demon_name: crate::text::owned(name) });
        }
        let first = found.remove(0);
        if n == 1 {
            return Ok(first);
        }
        found.push(first);
        Err(DemonlistError::DemonNameNotUnique { demons: found })
    }
}

/// A demon as the database returns it, with its verifier and publisher.
#[derive(Debug)]
pub struct FetchedDemon {
    pub demon_id: i32,
    pub demon_name: String,
    pub position: i16,
    pub requirement: i16,
    pub video: Option<String>,
    pub thumbnail: String,
    pub publisher_id: i32,
    pub publisher_name: String,
    pub publisher_banned: bool,
    pub verifier_id: i32,
    pub verifier_name: String,
    pub verifier_banned: bool,
    pub level_id: Option<i64>,
}

impl Demon {
    /// Builds a demon from its database row; the level id is read as unsigned.
    pub fn from_fetched(fetched: FetchedDemon) -> (r: Demon)
        ensures
            r.base == (MinimalDemon { id: fetched.demon_id, name: fetched.demon_name, position: fetched.position }),
            r.requirement == fetched.requirement,
            r.video == fetched.video,
            r.thumbnail == fetched.thumbnail,
            r.publisher == (DatabasePlayer {
                id: fetched.publisher_id,
                name: fetched.publisher_name,
                banned: fetched.publisher_banned,
            }),
            r.verifier == (DatabasePlayer {
                id: fetched.verifier_id,
                name: fetched.verifier_name,
                banned: fetched.verifier_banned,
            }),
            r.level_id == (match fetched.level_id {
                Some(id) => Some(id as u64),
                None => None,
            }),
    {
        let level_id = match fetched.level_id {
            Some(id) => Some(id as u64),
            None => None,
        };
        Demon {
            base: MinimalDemon { id: fetched.demon_id, name: fetched.demon_name, position: fetched.position },
            requirement: fetched.requirement,
            video: fetched.video,
            thumbnail: fetched.thumbnail,
            publisher: DatabasePlayer { id: fetched.publisher_id, name: fetched.publisher_name, banned: fetched.publisher_banned },
            verifier: DatabasePlayer { id: fetched.verifier_id, name: fetched.verifier_name, banned: fetched.verifier_banned },
            level_id,
        }
    }
}

/// Why a new demon is refused before anything is stored, if it is: first its record
/// requirement, then its video, then its position on a list whose lowest demon is at
/// `current_max`.
pub open spec fn new_demon_refusal(data: PostDemon, current_max: i16) -> Option<DemonlistError> {
    if !valid_requirement(data.requirement) {
        Some(DemonlistError::InvalidRequirement)
    } else if data.video matches Some(v) && video_verdict(url_parse(v@)) is Err {
        Some(video_verdict(url_parse(data.video->Some_0@))->Err_0)
    } else if !(1 <= data.position <= current_max + 1) {
        Some(DemonlistError::InvalidPosition { maximal: (current_max + 1) as i16 })
    } else {
        None
    }
}

impl PostDemon {
    /// Checks a new demon before it is added: the requirement, the video (giving back its
    /// canonical form) and the position, in this order.
    pub fn check(&self, current_max: i16) -> (r: Result<Option<String>, DemonlistError>)
        requires
            current_max < i16::MAX,
        ensures
            match new_demon_refusal(*self, current_max) {
                Some(e) => r == Err::<Option<String>, DemonlistError>(e),
                None => match self.video {
                    None => r == Ok::<Option<String>, DemonlistError>(None),
                    Some(v) => r matches Ok(Some(c)) && video_verdict(url_parse(v@))
                        == Ok::<Seq<char>, DemonlistError>(c@),
                },
            },
    {
        Demon::validate_requirement(self.requirement)?;
        let video = match &self.video {
            Some(v) => match video::validate(v.as_str()) {
                Ok(c) => Some(c),
                Err(e) => {
                    return Err(e);
                },
            },
            None => None,
        };
        Demon::validate_position(self.position, current_max)?;
        Ok(video)
    }
}

fn copy_player(p: &DatabasePlayer) -> (r: DatabasePlayer)
    ensures
        r == *p,
{
    DatabasePlayer { id: p.id, name: p.name.clone(), banned: p.banned }
}

impl Demon {
    /// When player `with` is merged into player `keep`, the demons `with` verified or
    /// published are credited to `keep`.
    pub fn merge_credits(&mut self, keep: &DatabasePlayer, with: i32)
        ensures
            final(self).base == old(self).base,
            final(self).requirement == old(self).requirement,
            final(self).video == old(self).video,
            final(self).thumbnail == old(self).thumbnail,
            final(self).level_id == old(self).level_id,
            final(self).verifier == (if old(self).verifier.id == with {
                *keep
            } else {
                old(self).verifier
            }),
            final(self).publisher == (if old(self).publisher.id == with {
                *keep
            } else {
                old(self).publisher
            }),
    {
        if self.verifier.id == with {
            self.verifier = copy_player(keep);
        }
        if self.publisher.id == with {
            self.publisher = copy_player(keep);
        }
    }
}

/// Law: a new demon is refused for a record requirement outside `[0, 100]` first, then for
/// a video the video checks refuse, then for a position outside `[1, current_max + 1]`;
/// nothing else refuses it.
pub proof fn law_new_demon_checks(data: PostDemon, current_max: i16)
    requires
        current_max < i16::MAX,
    ensures
        !(0 <= data.requirement <= 100) ==> new_demon_refusal(data, current_max) == Some(DemonlistError::InvalidRequirement),
        data.video matches Some(v) ==> (0 <= data.requirement <= 100 && video_verdict(url_parse(v@)) is Err
            ==> new_demon_refusal(data, current_max) == Some(video_verdict(url_parse(v@))->Err_0)),
        0 <= data.requirement <= 100 && (data.video is Some ==> video_verdict(url_parse(data.video->Some_0@)) is Ok)
            && !(1 <= data.position <= current_max + 1) ==> new_demon_refusal(data, current_max) == Some(
            DemonlistError::InvalidPosition { maximal: (current_max + 1) as i16 },
        ),
        new_demon_refusal(data, current_max) is None <==> (0 <= data.requirement <= 100 && (data.video is Some
            ==> video_verdict(url_parse(data.video->Some_0@)) is Ok) && 1 <= data.position <= current_max + 1),
{
}

} // verus!
