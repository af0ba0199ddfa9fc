//! Players: their names, bans and the decisions taken when a player is patched or merged.
use crate::error::DemonlistError;
use crate::nationality::{Nationality, Subdivision};
use crate::text::{lowercase, owned, str_eq, to_lowercase, trim, trimmed};
use vstd::prelude::*;

verus! {

#[derive(Debug, Hash, PartialEq, Eq, Clone)]
pub struct DatabasePlayer {
    pub id: i32,
    pub name: String,
    pub banned: bool,
}

/// A change to a player, each field optional. For `nationality` and `subdivision`,
/// `Some(None)` clears the value.
#[derive(Debug, Default)]
pub struct PatchPlayer {
    pub name: Option<String>,
    pub banned: Option<bool>,
    pub nationality: Option<Option<String>>,
    pub subdivision: Option<Option<String>>,
}

/// Player names are looked up and stored without surrounding whitespace.
pub fn normalized_name(name: &str) -> (r: String)
    ensures
        r@ == trimmed(name@),
{
    owned(trim(name))
}

/// The error for a player name that no player carries; it names the trimmed name.
pub fn player_not_found(name: &str) -> (r: DemonlistError)
    ensures
        r matches DemonlistError::PlayerNotFoundName { player_name } && player_name@ == trimmed(name@),
{
    DemonlistError::PlayerNotFoundName { player_name: normalized_name(name) }
}

/// What renaming a player takes.
#[derive(Debug, PartialEq, Eq)]
pub enum RenamePlan {
    /// The trimmed name is the current name: nothing to do.
    Unchanged,
    /// Rename to `name`. When `merge_check` holds, the new name differs from the current
    /// one other than in case, and a player who already carries it is merged into this one
    /// first.
    Rename { name: String, merge_check: bool },
}

/// Plans renaming a player called `current` to `requested`.
pub fn rename_plan(current: &str, requested: &str) -> (r: RenamePlan)
    ensures
        trimmed(requested@) == current@ ==> r == RenamePlan::Unchanged,
        trimmed(requested@) != current@ ==> (r matches RenamePlan::Rename { name, merge_check }
            && name@ == trimmed(requested@) && merge_check == (lowercase(trimmed(requested@))
            != lowercase(current@))),
{
    let name = trim(requested);
    if str_eq(name, current) {
        return RenamePlan::Unchanged;
    }
    let a = to_lowercase(name);
    let b = to_lowercase(current);
    let merge_check = !(a == b);
    RenamePlan::Rename { name: owned(name), merge_check }
}

/// How a ban flag in a patch changes a player.
#[derive(Debug, PartialEq, Eq, Structural, Clone, Copy)]
pub enum BanChange {
    Keep,
    /// Ban the player: their submissions go and all their records are rejected.
    Ban,
    Unban,
}

/// How a requested ban flag changes a player who is currently `banned` or not.
pub fn ban_change(banned: bool, requested: Option<bool>) -> (r: BanChange)
    ensures
        r == (match requested {
            Some(true) if !banned => BanChange::Ban,
            Some(false) if banned => BanChange::Unban,
            _ => BanChange::Keep,
        }),
{
    match requested {
        Some(b) => if b && !banned {
            BanChange::Ban
        } else if !b && banned {
            BanChange::Unban
        } else {
            BanChange::Keep
        },
        None => BanChange::Keep,
    }
}

/// What merging a player into another takes for their claims.
#[derive(Debug, PartialEq, Eq, Structural, Clone, Copy)]
pub enum ClaimMerge {
    /// Only the kept player has a verified claim: the other player's claims are deleted.
    DropOthers,
    /// Only the merged player has a verified claim: the kept player's claims are deleted
    /// and the merged player's claims move to the kept player.
    DropOwnAndTransfer,
    /// Neither has a verified claim: the merged player's claims move to the kept player.
    Transfer,
}

/// Plans the claims of a merge of the player `with` into the player `keep`, given whether
/// each has a verified claim. Two verified claims conflict.
pub fn claim_merge(keep: &DatabasePlayer, with: &DatabasePlayer, keep_claimed: bool, with_claimed: bool) -> (r: Result<ClaimMerge, DemonlistError>)
    ensures
        keep_claimed && with_claimed ==> (r matches Err(DemonlistError::ConflictingClaims { player1, player2 })
            && player1@ == keep.name@ && player2@ == with.name@),
        keep_claimed && !with_claimed ==> r == Ok::<ClaimMerge, DemonlistError>(ClaimMerge::DropOthers),
        !keep_claimed && with_claimed ==> r == Ok::<ClaimMerge, DemonlistError>(ClaimMerge::DropOwnAndTransfer),
        !keep_claimed && !with_claimed ==> r == Ok::<ClaimMerge, DemonlistError>(ClaimMerge::Transfer),
{
    if keep_claimed && with_claimed {
        Err(DemonlistError::ConflictingClaims { player1: keep.name.clone(), player2: with.name.clone() })
    } else if keep_claimed {
        Ok(ClaimMerge::DropOthers)
    } else if with_claimed {
        Ok(ClaimMerge::DropOwnAndTransfer)
    } else {
        Ok(ClaimMerge::Transfer)
    }
}

/// The nationality a player has after setting a subdivision: it needs a nation, and the
/// subdivision must be one of that nation's (`found` is what the nation lists under the
/// code, if anything).
pub fn with_subdivision(nationality: Option<Nationality>, code: String, found: Option<Subdivision>) -> (r: Result<Nationality, DemonlistError>)
    ensures
        nationality is None ==> r == Err::<Nationality, DemonlistError>(DemonlistError::NoNationSet),
        nationality matches Some(n) ==> match found {
            Some(s) => r == Ok::<Nationality, DemonlistError>(Nationality { subdivision: Some(s), ..n }),
            None => r == Err::<Nationality, DemonlistError>(
                DemonlistError::SubdivisionNotFound { subdivision_code: code, nation_code: n.iso_country_code },
            ),
        },
{
    match nationality {
        None => Err(DemonlistError::NoNationSet),
        Some(n) => match found {
            Some(s) => Ok(Nationality { iso_country_code: n.iso_country_code, nation: n.nation, subdivision: Some(s) }),
            None => Err(DemonlistError::SubdivisionNotFound { subdivision_code: code, nation_code: n.iso_country_code }),
        },
    }
}

/// The nationality a player has after clearing the subdivision: a player without a nation
/// keeps none.
pub fn without_subdivision(nationality: Option<Nationality>) -> (r: Option<Nationality>)
    ensures
        r == (match nationality {
            Some(n) => Some(Nationality { subdivision: None, ..n }),
            None => None,
        }),
{
    match nationality {
        Some(n) => Some(Nationality { iso_country_code: n.iso_country_code, nation: n.nation, subdivision: None }),
        None => None,
    }
}

/// The nationality a player has after setting a nation: the subdivision is cleared.
pub fn with_nation(nation: Nationality) -> (r: Nationality)
    ensures
        r == (Nationality { subdivision: None, ..nation }),
{
    Nationality { iso_country_code: nation.iso_country_code, nation: nation.nation, subdivision: None }
}

} // verus!
