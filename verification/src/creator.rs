//! Creators of demons.
use crate::error::DemonlistError;
use vstd::prelude::*;

verus! {

/// Player `creator` helped create demon `demon`.
#[derive(Debug, Hash, PartialEq, Eq, Structural, Clone, Copy)]
pub struct Creator {
    pub demon: i32,
    pub creator: i32,
}

#[derive(Debug)]
pub struct PostCreator {
    pub creator: String,
}

impl Creator {
    /// The creator entry of player `player_id` on demon `demon_id`, if the entry `exists`.
    pub fn get(demon_id: i32, player_id: i32, exists: bool) -> (r: Result<Creator, DemonlistError>)
        ensures
            exists ==> r == Ok::<Creator, DemonlistError>(Creator { demon: demon_id, creator: player_id }),
            !exists ==> r == Err::<Creator, DemonlistError>(
                DemonlistError::CreatorNotFound { demon_id, player_id },
            ),
    {
        if exists {
            Ok(Creator { demon: demon_id, creator: player_id })
        } else {
            Err(DemonlistError::CreatorNotFound { demon_id, player_id })
        }
    }

    /// The creator entry to add for player `player_id` on demon `demon_id`; an entry that
    /// already `exists` is refused.
    pub fn insert(demon_id: i32, player_id: i32, exists: bool) -> (r: Result<Creator, DemonlistError>)
        ensures
            exists ==> r == Err::<Creator, DemonlistError>(DemonlistError::CreatorExists),
            !exists ==> r == Ok::<Creator, DemonlistError>(Creator { demon: demon_id, creator: player_id }),
    {
        match Creator::get(demon_id, player_id, exists) {
            Ok(_) => Err(DemonlistError::CreatorExists),
            Err(_) => Ok(Creator { demon: demon_id, creator: player_id }),
        }
    }
}

// ---------------------------------------------------------------------------------------
// Merging the creator entries of two players

/// What becomes of the entry `c` when player `with` is merged into player `keep`: an entry
/// of `with` on a demon that `keep` already created is deleted, any other entry of `with`
/// is given to `keep`, and other entries stay.
pub open spec fn merge_step(table: Seq<Creator>, c: Creator, keep: i32, with: i32) -> Option<Creator> {
    if c.creator == with {
        if table.contains(Creator { demon: c.demon, creator: keep }) {
            None
        } else {
            Some(Creator { demon: c.demon, creator: keep })
        }
    } else {
        Some(c)
    }
}

/// The first `n` entries of `table` after the merge, in order.
pub open spec fn merged_prefix(table: Seq<Creator>, n: int, keep: i32, with: i32) -> Seq<Creator>
    decreases n,
{
    if n <= 0 {
        Seq::empty()
    } else {
        let before = merged_prefix(table, n - 1, keep, with);
        match merge_step(table, table[n - 1], keep, with) {
            Some(c) => before.push(c),
            None => before,
        }
    }
}

/// The creator table after merging player `with` into player `keep`.
pub open spec fn creators_after_merge(table: Seq<Creator>, keep: i32, with: i32) -> Seq<Creator> {
    merged_prefix(table, table.len() as int, keep, with)
}

fn has_creator(table: &Vec<Creator>, demon: i32, player: i32) -> (r: bool)
    ensures
        r == table@.contains(Creator { demon, creator: player }),
{
    let mut i: usize = 0;
    while i < table.len()
        invariant
            i <= table@.len(),
            forall|k: int| 0 <= k < i ==> table@[k] != (Creator { demon, creator: player }),
        decreases table@.len() - i,
    {
        if table[i].demon == demon && table[i].creator == player {
            assert(table@[i as int] == Creator { demon, creator: player });
            return true;
        }
        i = i + 1;
    }
    false
}

/// The creator table after merging player `with` into player `keep`: `with`'s entries on
/// demons that `keep` created already are deleted, and the rest go to `keep`.
pub fn merge_creators(table: &Vec<Creator>, keep: i32, with: i32) -> (r: Vec<Creator>)
    ensures
        r@ == creators_after_merge(table@, keep, with),
{
    let mut out: Vec<Creator> = Vec::new();
    let mut i: usize = 0;
    while i < table.len()
        invariant
            i <= table@.len(),
            out@ == merged_prefix(table@, i as int, keep, with),
        decreases table@.len() - i,
    {
        let c = table[i];
        if c.creator == with {
            if !has_creator(table, c.demon, keep) {
                out.push(Creator { demon: c.demon, creator: keep });
            }
        } else {
            out.push(c);
        }
        i = i + 1;
    }
    out
}

/// An entry is in the merged table exactly when some entry of the table becomes it.
pub proof fn lemma_merged_contains(table: Seq<Creator>, n: int, keep: i32, with: i32, c: Creator)
    requires
        0 <= n <= table.len(),
    ensures
        merged_prefix(table, n, keep, with).contains(c) <==> exists|i: int|
            0 <= i < n && #[trigger] merge_step(table, table[i], keep, with) == Some(c),
    decreases n,
{
    if n > 0 {
        lemma_merged_contains(table, n - 1, keep, with, c);
        let before = merged_prefix(table, n - 1, keep, with);
        let last = merge_step(table, table[n - 1], keep, with);
        if merged_prefix(table, n, keep, with).contains(c) {
            let k = choose|k: int| 0 <= k < merged_prefix(table, n, keep, with).len() && merged_prefix(table, n, keep, with)[k] == c;
            if k < before.len() {
                assert(before[k] == c);
                assert(before.contains(c));
            } else {
                assert(last == Some(c));
            }
        }
        if exists|i: int| 0 <= i < n && #[trigger] merge_step(table, table[i], keep, with) == Some(c) {
            let i = choose|i: int| 0 <= i < n && #[trigger] merge_step(table, table[i], keep, with) == Some(c);
            if i < n - 1 {
                let k = choose|k: int| 0 <= k < before.len() && before[k] == c;
                assert(merged_prefix(table, n, keep, with)[k] == c);
            } else {
                let m = merged_prefix(table, n, keep, with);
                assert(m[m.len() - 1] == c);
            }
        }
    }
}

/// Law: merging player `with` into another player `keep` leaves `with` credited for no
/// demon; `keep` is credited afterwards for exactly the demons either was credited for
/// before; every other player keeps their entries; and a table without duplicate entries
/// gets none.
pub proof fn law_merge_creators(table: Seq<Creator>, keep: i32, with: i32)
    requires
        keep != with,
    ensures
        forall|d: i32| !#[trigger] creators_after_merge(table, keep, with).contains(Creator { demon: d, creator: with }),
        forall|d: i32| #[trigger] creators_after_merge(table, keep, with).contains(Creator { demon: d, creator: keep })
            <==> (table.contains(Creator { demon: d, creator: keep }) || table.contains(Creator { demon: d, creator: with })),
        forall|c: Creator| c.creator != keep && c.creator != with ==> (#[trigger] creators_after_merge(table, keep, with).contains(c)
            <==> table.contains(c)),
        table.no_duplicates() ==> creators_after_merge(table, keep, with).no_duplicates(),
{
    let n = table.len() as int;
    assert forall|d: i32| !#[trigger] creators_after_merge(table, keep, with).contains(Creator { demon: d, creator: with }) by {
        lemma_merged_contains(table, n, keep, with, Creator { demon: d, creator: with });
    }
    assert forall|d: i32| #[trigger] creators_after_merge(table, keep, with).contains(Creator { demon: d, creator: keep })
        <==> (table.contains(Creator { demon: d, creator: keep }) || table.contains(Creator { demon: d, creator: with })) by {
        let target = Creator { demon: d, creator: keep };
        lemma_merged_contains(table, n, keep, with, target);
        if table.contains(target) {
            let i = choose|i: int| 0 <= i < n && table[i] == target;
            assert(merge_step(table, table[i], keep, with) == Some(target));
        } else if table.contains(Creator { demon: d, creator: with }) {
            let i = choose|i: int| 0 <= i < n && table[i] == Creator { demon: d, creator: with };
            assert(merge_step(table, table[i], keep, with) == Some(target));
        }
        if creators_after_merge(table, keep, with).contains(target) {
            let i = choose|i: int| 0 <= i < n && #[trigger] merge_step(table, table[i], keep, with) == Some(target);
            if table[i].creator == with {
                assert(table[i] == Creator { demon: d, creator: with });
            } else {
                assert(table[i] == target);
            }
        }
    }
    assert forall|c: Creator| c.creator != keep && c.creator != with implies (#[trigger] creators_after_merge(table, keep, with).contains(c)
        <==> table.contains(c)) by {
        lemma_merged_contains(table, n, keep, with, c);
        if table.contains(c) {
            let i = choose|i: int| 0 <= i < n && table[i] == c;
            assert(merge_step(table, table[i], keep, with) == Some(c));
        }
    }
    if table.no_duplicates() {
        lemma_merged_no_duplicates(table, n, keep, with);
    }
}

proof fn lemma_merged_no_duplicates(table: Seq<Creator>, n: int, keep: i32, with: i32)
    requires
        keep != with,
        0 <= n <= table.len(),
        table.no_duplicates(),
    ensures
        merged_prefix(table, n, keep, with).no_duplicates(),
    decreases n,
{
    if n > 0 {
        lemma_merged_no_duplicates(table, n - 1, keep, with);
        let before = merged_prefix(table, n - 1, keep, with);
        match merge_step(table, table[n - 1], keep, with) {
            Some(c) => {
                lemma_merged_contains(table, n - 1, keep, with, c);
                if before.contains(c) {
                    let i = choose|i: int| 0 <= i < n - 1 && #[trigger] merge_step(table, table[i], keep, with) == Some(c);
                    let j = n - 1;
                    if table[i].creator == with && table[j].creator == with {
                        assert(table[i] == table[j]);
                    } else if table[i].creator == with {
                        assert(table[j] == c);
                        assert(table.contains(Creator { demon: c.demon, creator: keep }));
                    } else if table[j].creator == with {
                        assert(table[i] == c);
                        assert(table.contains(Creator { demon: c.demon, creator: keep }));
                    } else {
                        assert(table[i] == table[j]);
                    }
                }
                let m = before.push(c);
                assert forall|a: int, b: int| 0 <= a < m.len() && 0 <= b < m.len() && a != b implies m[a] != m[b] by {
                    if a < before.len() && b < before.len() {
                    } else if a < before.len() {
                        assert(before[a] != c);
                    } else {
                        assert(before[b] != c);
                    }
                }
            },
            None => {},
        }
    }
}

} // verus!
