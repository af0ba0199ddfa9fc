//! Claims of site users on players.
use crate::error::DemonlistError;
use crate::player::DatabasePlayer;
use vstd::prelude::*;

verus! {

#[derive(Debug)]
pub struct PlayerClaim {
    pub user_id: i32,
    pub player_id: i32,
    pub verified: bool,
    /// Whether the claiming user asked that records for this player may only be submitted
    /// while they are logged in.
    pub lock_submissions: bool,
}

/// The claim a user holds, with the claimed player.
#[derive(Debug)]
pub struct ClaimBy {
    pub player: DatabasePlayer,
    pub verified: bool,
}

/// A change to a claim, each field optional.
#[derive(Debug)]
pub struct PatchPlayerClaim {
    pub verified: Option<bool>,
    pub lock_submissions: Option<bool>,
}

impl PlayerClaim {
    /// The claim of user `member_id` on player `player_id`, given the claim the user holds
    /// (`held`) and the lock flag stored with it: a user's claim on another player, or no
    /// claim at all, is not found.
    pub fn of_member(member_id: i32, player_id: i32, held: Option<ClaimBy>, lock_submissions: bool) -> (r: Result<PlayerClaim, DemonlistError>)
        ensures
            match held {
                Some(c) if c.player.id == player_id => r matches Ok(claim) && claim.user_id == member_id
                    && claim.player_id == player_id && claim.verified == c.verified && claim.lock_submissions
                    == lock_submissions,
                _ => r matches Err(DemonlistError::ClaimNotFound { member_id: m, player_id: p }) && m == member_id
                    && p == player_id,
            },
    {
        match held {
            Some(c) => if c.player.id == player_id {
                Ok(PlayerClaim { user_id: member_id, player_id, verified: c.verified, lock_submissions })
            } else {
                Err(DemonlistError::ClaimNotFound { member_id, player_id })
            },
            None => Err(DemonlistError::ClaimNotFound { member_id, player_id }),
        }
    }

    /// Sets whether the claim is verified. Returns whether the other claims on the player
    /// must be deleted, which a verified claim takes.
    pub fn set_verified(&mut self, verified: bool) -> (drop_others: bool)
        ensures
            final(self).verified == verified,
            final(self).user_id == old(self).user_id,
            final(self).player_id == old(self).player_id,
            final(self).lock_submissions == old(self).lock_submissions,
            drop_others == verified,
    {
        self.verified = verified;
        verified
    }

    pub fn set_lock_submissions(&mut self, lock_submissions: bool)
        ensures
            final(self).lock_submissions == lock_submissions,
            final(self).user_id == old(self).user_id,
            final(self).player_id == old(self).player_id,
            final(self).verified == old(self).verified,
    {
        self.lock_submissions = lock_submissions;
    }

    /// Applies a patch: first the verification flag, then the lock flag. Returns whether
    /// the other claims on the player must be deleted.
    pub fn apply_patch(&mut self, patch: &PatchPlayerClaim) -> (drop_others: bool)
        ensures
            final(self).verified == (match patch.verified {
                Some(v) => v,
                None => old(self).verified,
            }),
            final(self).lock_submissions == (match patch.lock_submissions {
                Some(l) => l,
                None => old(self).lock_submissions,
            }),
            final(self).user_id == old(self).user_id,
            final(self).player_id == old(self).player_id,
            drop_others == (patch.verified == Some(true)),
    {
        let mut drop_others = false;
        if let Some(verified) = patch.verified {
            drop_others = self.set_verified(verified);
        }
        if let Some(lock_submissions) = patch.lock_submissions {
            self.set_lock_submissions(lock_submissions);
        }
        drop_others
    }
}

} // verus!
