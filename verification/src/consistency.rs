//! Keeping the record table consistent.
//!
//! The table holds at most one approved (player, demon)-record, and a rejected
//! (player, demon)-record is the only record of its pair. Every change that can break
//! this is planned here from the rows that the change concerns: which rows to delete
//! (their notes move to the changed record first) and what else changes. The laws at
//! the end of each section prove that carrying out a plan keeps the table consistent.
use crate::error::DemonlistError;
use crate::player::DatabasePlayer;
use crate::record::RecordStatus;
use vstd::prelude::*;

verus! {

/// One row of the record table, as far as the consistency rules read it.
#[derive(Debug)]
pub struct RecordRow {
    pub id: i32,
    pub player: i32,
    pub demon: i32,
    pub progress: i16,
    pub status: RecordStatus,
    pub video: Option<String>,
}

/// Both rows are records of the same player on the same demon.
pub open spec fn same_pair(a: RecordRow, b: RecordRow) -> bool {
    a.player == b.player && a.demon == b.demon
}

/// The row is a record of `player` on `demon`.
pub open spec fn in_pair(row: RecordRow, player: i32, demon: i32) -> bool {
    row.player == player && row.demon == demon
}

/// The record table, keyed by record id.
pub open spec fn keyed_by_id(t: Map<i32, RecordRow>) -> bool {
    forall|id: i32| #[trigger] t.dom().contains(id) ==> t[id].id == id
}

/// The record table is consistent: no rejected record shares its pair with another
/// record, and no two approved records share a pair.
pub open spec fn consistent(t: Map<i32, RecordRow>) -> bool {
    &&& keyed_by_id(t)
    &&& forall|a: i32, b: i32|
        #![trigger t[a], t[b]]
        t.dom().contains(a) && t.dom().contains(b) && a != b && same_pair(t[a], t[b]) ==> {
            &&& t[a].status != RecordStatus::Rejected
            &&& !(t[a].status == RecordStatus::Approved && t[b].status == RecordStatus::Approved)
        }
}

/// The ids of the rows that `pick` selects, in the order of the rows.
pub open spec fn select_ids(rows: Seq<RecordRow>, pick: spec_fn(RecordRow) -> bool) -> Seq<i32>
    decreases rows.len(),
{
    if rows.len() == 0 {
        Seq::empty()
    } else if pick(rows.last()) {
        select_ids(rows.drop_last(), pick).push(rows.last().id)
    } else {
        select_ids(rows.drop_last(), pick)
    }
}

/// The ids of the table's rows that `pick` selects.
pub open spec fn selected(t: Map<i32, RecordRow>, pick: spec_fn(RecordRow) -> bool) -> Set<i32> {
    Set::new(|id: i32| t.dom().contains(id) && pick(t[id]))
}

/// `rows` are exactly the table's records of `player` on `demon`, as a query fetches them.
pub open spec fn fetched_pair(rows: Seq<RecordRow>, t: Map<i32, RecordRow>, player: i32, demon: i32) -> bool {
    &&& forall|k: int|
        0 <= k < rows.len() ==> t.dom().contains(#[trigger] rows[k].id) && t[rows[k].id] == rows[k]
            && in_pair(rows[k], player, demon)
    &&& forall|id: i32|
        #[trigger] t.dom().contains(id) && in_pair(t[id], player, demon) ==> exists|k: int|
            0 <= k < rows.len() && rows[k].id == id
}

/// `rows` are exactly the table's records of `player`, on any demon.
pub open spec fn fetched_player(rows: Seq<RecordRow>, t: Map<i32, RecordRow>, player: i32) -> bool {
    &&& forall|k: int|
        0 <= k < rows.len() ==> t.dom().contains(#[trigger] rows[k].id) && t[rows[k].id] == rows[k]
            && rows[k].player == player
    &&& forall|id: i32|
        #[trigger] t.dom().contains(id) && t[id].player == player ==> exists|k: int|
            0 <= k < rows.len() && rows[k].id == id
}

pub proof fn lemma_select_ids_contains(rows: Seq<RecordRow>, pick: spec_fn(RecordRow) -> bool, id: i32)
    ensures
        select_ids(rows, pick).contains(id) <==> exists|k: int|
            0 <= k < rows.len() && rows[k].id == id && pick(#[trigger] rows[k]),
    decreases rows.len(),
{
    if rows.len() > 0 {
        let prefix = rows.drop_last();
        let s = select_ids(prefix, pick);
        let last = rows.last();
        lemma_select_ids_contains(prefix, pick, id);
        if pick(last) {
            assert(select_ids(rows, pick) == s.push(last.id));
            if s.push(last.id).contains(id) {
                let j = choose|j: int| 0 <= j < s.push(last.id).len() && s.push(last.id)[j] == id;
                if j < s.len() {
                    assert(s[j] == id);
                    assert(s.contains(id));
                    let k = choose|k: int| 0 <= k < prefix.len() && prefix[k].id == id && pick(#[trigger] prefix[k]);
                    assert(rows[k] == prefix[k]);
                } else {
                    assert(rows[rows.len() - 1] == last);
                }
            }
            if exists|k: int| 0 <= k < rows.len() && rows[k].id == id && pick(#[trigger] rows[k]) {
                let k = choose|k: int| 0 <= k < rows.len() && rows[k].id == id && pick(#[trigger] rows[k]);
                if k < rows.len() - 1 {
                    assert(prefix[k] == rows[k]);
                    let j = choose|j: int| 0 <= j < s.len() && s[j] == id;
                    assert(s.push(last.id)[j] == id);
                } else {
                    assert(s.push(last.id)[s.len() as int] == id);
                }
            }
        } else {
            assert(select_ids(rows, pick) == s);
            if s.contains(id) {
                let k = choose|k: int| 0 <= k < prefix.len() && prefix[k].id == id && pick(#[trigger] prefix[k]);
                assert(rows[k] == prefix[k]);
            }
            if exists|k: int| 0 <= k < rows.len() && rows[k].id == id && pick(#[trigger] rows[k]) {
                let k = choose|k: int| 0 <= k < rows.len() && rows[k].id == id && pick(#[trigger] rows[k]);
                if k < rows.len() - 1 {
                    assert(prefix[k] == rows[k]);
                } else {
                    assert(rows[k] == last);
                }
            }
        }
    }
}

/// Ids chosen from the fetched rows of a pair are the ids chosen from the table.
pub proof fn lemma_fetched_pair_selects(
    rows: Seq<RecordRow>,
    t: Map<i32, RecordRow>,
    player: i32,
    demon: i32,
    pick: spec_fn(RecordRow) -> bool,
)
    requires
        keyed_by_id(t),
        fetched_pair(rows, t, player, demon),
        forall|r: RecordRow| #[trigger] pick(r) ==> in_pair(r, player, demon),
    ensures
        select_ids(rows, pick).to_set() =~= selected(t, pick),
{
    assert forall|id: i32| select_ids(rows, pick).to_set().contains(id) <==> selected(t, pick).contains(id) by {
        lemma_select_ids_contains(rows, pick, id);
        if selected(t, pick).contains(id) {
            let k = choose|k: int| 0 <= k < rows.len() && rows[k].id == id;
            assert(rows[k] == t[id]);
            assert(pick(rows[k]));
        }
    }
}

/// Ids chosen from the fetched rows of a player are the ids chosen from the table.
pub proof fn lemma_fetched_player_selects(
    rows: Seq<RecordRow>,
    t: Map<i32, RecordRow>,
    player: i32,
    pick: spec_fn(RecordRow) -> bool,
)
    requires
        keyed_by_id(t),
        fetched_player(rows, t, player),
        forall|r: RecordRow| #[trigger] pick(r) ==> r.player == player,
    ensures
        select_ids(rows, pick).to_set() =~= selected(t, pick),
{
    assert forall|id: i32| select_ids(rows, pick).to_set().contains(id) <==> selected(t, pick).contains(id) by {
        lemma_select_ids_contains(rows, pick, id);
        if selected(t, pick).contains(id) {
            let k = choose|k: int| 0 <= k < rows.len() && rows[k].id == id;
            assert(rows[k] == t[id]);
            assert(pick(rows[k]));
        }
    }
}

// ---------------------------------------------------------------------------------------
// Changing a record's status

/// Whether `row` is deleted when `record` moves to status `new_status`: moving to
/// 'rejected' deletes every other record of the pair; moving a submission (or a record
/// under consideration) to 'approved' deletes the other records of the pair with at most
/// its progress. Nothing else is deleted.
pub open spec fn removed_on_status_change(record: RecordRow, new_status: RecordStatus, row: RecordRow) -> bool {
    &&& row.id != record.id
    &&& same_pair(row, record)
    &&& match new_status {
        RecordStatus::Rejected => true,
        RecordStatus::Approved => (record.status == RecordStatus::Submitted || record.status
            == RecordStatus::UnderConsideration) && row.progress <= record.progress,
        _ => false,
    }
}

pub open spec fn status_change_pick(record: RecordRow, new_status: RecordStatus) -> spec_fn(RecordRow) -> bool {
    |row: RecordRow| removed_on_status_change(record, new_status, row)
}

/// The table after `record` moved to `new_status`.
pub open spec fn after_status_change(t: Map<i32, RecordRow>, record: RecordRow, new_status: RecordStatus) -> Map<i32, RecordRow> {
    t.remove_keys(selected(t, status_change_pick(record, new_status))).insert(
        record.id,
        RecordRow { status: new_status, ..record },
    )
}

/// Law: which records a status change deletes, by the ids it plans from the pair's rows.
/// Only other records of the same pair ever go. Rejecting deletes all of them. Approving a
/// submission or a record under consideration deletes exactly those with at most its
/// progress, and never one with more. Any other change deletes nothing.
pub proof fn law_status_change_removals(rows: Seq<RecordRow>, record: RecordRow, new_status: RecordStatus, id: i32)
    ensures
        select_ids(rows, status_change_pick(record, new_status)).contains(id) ==> exists|k: int|
            0 <= k < rows.len() && rows[k].id == id && id != record.id && rows[k].player == record.player
                && rows[k].demon == record.demon,
        new_status == RecordStatus::Rejected ==> (select_ids(rows, status_change_pick(record, new_status)).contains(id)
            <==> exists|k: int|
            0 <= k < rows.len() && rows[k].id == id && id != record.id && rows[k].player == record.player
                && rows[k].demon == record.demon),
        new_status == RecordStatus::Approved && (record.status == RecordStatus::Submitted || record.status
            == RecordStatus::UnderConsideration) ==> (select_ids(rows, status_change_pick(record, new_status)).contains(
            id,
        ) <==> exists|k: int|
            0 <= k < rows.len() && rows[k].id == id && id != record.id && rows[k].player == record.player
                && rows[k].demon == record.demon && rows[k].progress <= record.progress),
        new_status == RecordStatus::Approved && select_ids(rows, status_change_pick(record, new_status)).contains(id)
            ==> exists|k: int| 0 <= k < rows.len() && rows[k].id == id && rows[k].progress <= record.progress,
        (new_status == RecordStatus::Approved && !(record.status == RecordStatus::Submitted || record.status
            == RecordStatus::UnderConsideration)) || new_status == RecordStatus::Submitted || new_status
            == RecordStatus::UnderConsideration ==> !select_ids(rows, status_change_pick(record, new_status)).contains(id),
{
    lemma_select_ids_contains(rows, status_change_pick(record, new_status), id);
}

/// Law: on a table whose ids are keys, approving a record deletes no record with more
/// progress than it: every record that is gone had at most its progress.
pub proof fn law_approval_keeps_better_records(t: Map<i32, RecordRow>, record: RecordRow)
    requires
        keyed_by_id(t),
    ensures
        forall|id: i32|
            #[trigger] t.dom().contains(id) && !after_status_change(t, record, RecordStatus::Approved).dom().contains(id)
                ==> t[id].progress <= record.progress,
        forall|id: i32|
            #[trigger] t.dom().contains(id) && t[id].progress > record.progress ==> after_status_change(
                t,
                record,
                RecordStatus::Approved,
            ).dom().contains(id),
{
}

/// The ids of the records to delete (after moving their notes to `record`) before
/// `record` moves to `new_status`, chosen from the records of its pair.
pub fn plan_status_change(pair_rows: &Vec<RecordRow>, record: &RecordRow, new_status: RecordStatus) -> (removed: Vec<i32>)
    ensures
        removed@ == select_ids(pair_rows@, status_change_pick(*record, new_status)),
{
    let mut removed: Vec<i32> = Vec::new();
    let mut i: usize = 0;
    while i < pair_rows.len()
        invariant
            i <= pair_rows@.len(),
            removed@ == select_ids(pair_rows@.take(i as int), status_change_pick(*record, new_status)),
        decreases pair_rows@.len() - i,
    {
        let row = &pair_rows[i];
        let pick = row.id != record.id && row.player == record.player && row.demon == record.demon
            && match new_status {
            RecordStatus::Rejected => true,
            RecordStatus::Approved => (matches!(record.status, RecordStatus::Submitted) || matches!(
                record.status,
                RecordStatus::UnderConsideration
            )) && row.progress <= record.progress,
            _ => false,
        };
        assert(pair_rows@.take(i + 1).drop_last() =~= pair_rows@.take(i as int));
        if pick {
            removed.push(row.id);
        }
        i = i + 1;
    }
    assert(pair_rows@.take(pair_rows@.len() as int) =~= pair_rows@);
    removed
}

/// Law: after a record is rejected it is the only record of its pair; after a submission
/// (or a record under consideration) is approved, no other record of its pair with at most
/// its progress remains.
pub proof fn law_status_change_clears_pair(t: Map<i32, RecordRow>, record: RecordRow, new_status: RecordStatus)
    requires
        keyed_by_id(t),
        t.dom().contains(record.id),
        t[record.id] == record,
    ensures
        new_status == RecordStatus::Rejected ==> forall|id: i32|
            #[trigger] after_status_change(t, record, new_status).dom().contains(id) && same_pair(
                after_status_change(t, record, new_status)[id],
                record,
            ) ==> id == record.id,
        new_status == RecordStatus::Approved && (record.status == RecordStatus::Submitted || record.status
            == RecordStatus::UnderConsideration) ==> forall|id: i32|
            #[trigger] after_status_change(t, record, new_status).dom().contains(id) && id != record.id
                && same_pair(after_status_change(t, record, new_status)[id], record) ==> after_status_change(
                t,
                record,
                new_status,
            )[id].progress > record.progress,
{
    let t2 = after_status_change(t, record, new_status);
    let pick = status_change_pick(record, new_status);
    assert forall|id: i32| #[trigger] t2.dom().contains(id) && id != record.id implies t2[id] == t[id] && !pick(t[id]) by {}
}

/// Law: moving a record to a new status as planned keeps the table consistent, provided
/// that a submission (or a record under consideration) that becomes approved has at least
/// the progress of the approved record of its pair, if there is one.
pub proof fn law_status_change_keeps_consistency(t: Map<i32, RecordRow>, record: RecordRow, new_status: RecordStatus)
    requires
        consistent(t),
        t.dom().contains(record.id),
        t[record.id] == record,
        new_status == RecordStatus::Approved && (record.status == RecordStatus::Submitted
            || record.status == RecordStatus::UnderConsideration) ==> forall|id: i32|
            #[trigger] t.dom().contains(id) && id != record.id && same_pair(t[id], record)
                && t[id].status == RecordStatus::Approved ==> t[id].progress <= record.progress,
    ensures
        consistent(after_status_change(t, record, new_status)),
{
    let pick = status_change_pick(record, new_status);
    let t2 = after_status_change(t, record, new_status);
    assert(!selected(t, pick).contains(record.id));
    assert forall|a: i32, b: i32|
        #![trigger t2[a], t2[b]]
        t2.dom().contains(a) && t2.dom().contains(b) && a != b && same_pair(t2[a], t2[b]) implies {
            &&& t2[a].status != RecordStatus::Rejected
            &&& !(t2[a].status == RecordStatus::Approved && t2[b].status == RecordStatus::Approved)
        } by {
        assert(t.dom().contains(a) && t.dom().contains(b));
        if a == record.id {
            assert(t[b] == t2[b]);
            assert(!pick(t[b]));
            assert(same_pair(t[a], t[b]));
        } else if b == record.id {
            assert(t[a] == t2[a]);
            assert(!pick(t[a]));
            assert(same_pair(t[a], t[b]));
        } else {
            assert(t[a] == t2[a] && t[b] == t2[b]);
        }
    }
}

// ---------------------------------------------------------------------------------------
// Moving a record to another player

/// The index of the first row that `pick` selects.
pub open spec fn first_index(rows: Seq<RecordRow>, pick: spec_fn(RecordRow) -> bool) -> Option<int>
    decreases rows.len(),
{
    if rows.len() == 0 {
        None
    } else {
        match first_index(rows.drop_last(), pick) {
            Some(i) => Some(i),
            None => if pick(rows.last()) {
                Some(rows.len() - 1)
            } else {
                None
            },
        }
    }
}

/// `row` is an approved record of `player` on `demon` with more progress than `record`.
pub open spec fn outdoes(record: RecordRow, player: i32, demon: i32, row: RecordRow) -> bool {
    in_pair(row, player, demon) && row.status == RecordStatus::Approved && row.progress > record.progress
}

pub open spec fn outdoes_pick(record: RecordRow, player: i32, demon: i32) -> spec_fn(RecordRow) -> bool {
    |row: RecordRow| outdoes(record, player, demon, row)
}

/// Whether the move of `record` into the pair (`player`, `demon`) deletes `row`, where
/// `progress` is the progress `record` ends up with. Nothing is deleted when the pair
/// does not change. The moved record takes precedence over the records it conflicts
/// with: a rejected record deletes every record of its new pair; any other record deletes
/// the rejected records of its new pair; an approved record also deletes those with at
/// most `progress`.
pub open spec fn removed_on_move(record: RecordRow, player: i32, demon: i32, progress: i16, row: RecordRow) -> bool {
    &&& in_pair(row, player, demon)
    &&& !in_pair(record, player, demon)
    &&& (record.status == RecordStatus::Rejected || row.status == RecordStatus::Rejected || (record.status
        == RecordStatus::Approved && row.progress <= progress))
}

pub open spec fn move_pick(record: RecordRow, player: i32, demon: i32, progress: i16) -> spec_fn(RecordRow) -> bool {
    |row: RecordRow| removed_on_move(record, player, demon, progress, row)
}

/// The row whose progress and video an approved record takes over when it moves into
/// the pair: the first approved record there with more progress.
pub open spec fn move_adopts(rows: Seq<RecordRow>, record: RecordRow, player: i32, demon: i32) -> Option<int> {
    if record.status == RecordStatus::Approved && !in_pair(record, player, demon) {
        first_index(rows, outdoes_pick(record, player, demon))
    } else {
        None
    }
}

/// The progress `record` ends up with after the move.
pub open spec fn move_progress(rows: Seq<RecordRow>, record: RecordRow, player: i32, demon: i32) -> i16 {
    match move_adopts(rows, record, player, demon) {
        Some(k) => rows[k].progress,
        None => record.progress,
    }
}

/// Notes move from every deleted record but the one whose progress is taken over.
pub open spec fn move_notes_pick(rows: Seq<RecordRow>, record: RecordRow, player: i32, demon: i32) -> spec_fn(RecordRow) -> bool {
    |row: RecordRow|
        removed_on_move(record, player, demon, move_progress(rows, record, player, demon), row) && match move_adopts(
            rows,
            record,
            player,
            demon,
        ) {
            Some(k) => row.id != rows[k].id,
            None => true,
        }
}

/// What moving a record into another (player, demon) pair takes: the records to delete,
/// the records whose notes move to the moved record before they are deleted, and the
/// progress and video that the moved record takes over.
#[derive(Debug)]
pub struct MovePlan {
    pub removed: Vec<i32>,
    pub notes_from: Vec<i32>,
    pub adopted: Option<(i16, Option<String>)>,
}

fn copy_video(video: &Option<String>) -> (r: Option<String>)
    ensures
        r == *video,
{
    match video {
        Some(v) => Some(v.clone()),
        None => None,
    }
}

/// Plans moving `record` into the pair (`player`, `demon`), from the records of that pair.
pub fn plan_move(target_rows: &Vec<RecordRow>, record: &RecordRow, player: i32, demon: i32) -> (plan: MovePlan)
    ensures
        plan.removed@ == select_ids(
            target_rows@,
            move_pick(*record, player, demon, move_progress(target_rows@, *record, player, demon)),
        ),
        plan.notes_from@ == select_ids(target_rows@, move_notes_pick(target_rows@, *record, player, demon)),
        plan.adopted == (match move_adopts(target_rows@, *record, player, demon) {
            Some(k) => Some((target_rows@[k].progress, target_rows@[k].video)),
            None => None,
        }),
{
    let rows = target_rows;
    let same = record.player == player && record.demon == demon;
    // the approved record with more progress, if `record` is an approved record that moves
    let mut adopt: Option<usize> = None;
    if matches!(record.status, RecordStatus::Approved) && !same {
        let mut i: usize = 0;
        while i < rows.len() && adopt.is_none()
            invariant
                i <= rows@.len(),
                record.status == RecordStatus::Approved,
                !in_pair(*record, player, demon),
                adopt is None ==> first_index(rows@.take(i as int), outdoes_pick(*record, player, demon)) is None,
                adopt matches Some(k) ==> k < rows@.len() && first_index(rows@, outdoes_pick(*record, player, demon)) == Some(k as int),
            decreases rows@.len() - i,
        {
            let row = &rows[i];
            assert(rows@.take(i + 1).drop_last() =~= rows@.take(i as int));
            if row.player == player && row.demon == demon && matches!(row.status, RecordStatus::Approved)
                && row.progress > record.progress {
                proof {
                    lemma_first_index_prefix(rows@, outdoes_pick(*record, player, demon), i as int);
                }
                adopt = Some(i);
            }
            i = i + 1;
        }
        if adopt.is_none() {
            assert(rows@.take(rows@.len() as int) =~= rows@);
        }
    }
    let ghost adopts = move_adopts(rows@, *record, player, demon);
    assert(adopt matches Some(k) ==> adopts == Some(k as int));
    assert(adopt is None ==> adopts is None);
    let progress = match adopt {
        Some(k) => rows[k].progress,
        None => record.progress,
    };
    let adopted_id = match adopt {
        Some(k) => Some(rows[k].id),
        None => None,
    };
    let ghost pick = move_pick(*record, player, demon, progress);
    let ghost notes_pick = move_notes_pick(rows@, *record, player, demon);
    let mut removed: Vec<i32> = Vec::new();
    let mut notes_from: Vec<i32> = Vec::new();
    let mut i: usize = 0;
    while i < rows.len()
        invariant
            i <= rows@.len(),
            progress == move_progress(rows@, *record, player, demon),
            pick == move_pick(*record, player, demon, progress),
            notes_pick == move_notes_pick(rows@, *record, player, demon),
            adopted_id == (match adopts {
                Some(k) => Some(rows@[k].id),
                None => None::<i32>,
            }),
            adopts == move_adopts(rows@, *record, player, demon),
            same == in_pair(*record, player, demon),
            removed@ == select_ids(rows@.take(i as int), pick),
            notes_from@ == select_ids(rows@.take(i as int), notes_pick),
        decreases rows@.len() - i,
    {
        let row = &rows[i];
        assert(rows@.take(i + 1).drop_last() =~= rows@.take(i as int));
        let gone = row.player == player && row.demon == demon && !same && (matches!(
            record.status,
            RecordStatus::Rejected
        ) || matches!(row.status, RecordStatus::Rejected) || (matches!(record.status, RecordStatus::Approved)
            && row.progress <= progress));
        if gone {
            removed.push(row.id);
            let keep_notes = match adopted_id {
                Some(id) => row.id != id,
                None => true,
            };
            if keep_notes {
                notes_from.push(row.id);
            }
        }
        i = i + 1;
    }
    assert(rows@.take(rows@.len() as int) =~= rows@);
    let adopted = match adopt {
        Some(k) => Some((rows[k].progress, copy_video(&rows[k].video))),
        None => None,
    };
    MovePlan { removed, notes_from, adopted }
}

pub proof fn lemma_first_index_prefix(rows: Seq<RecordRow>, pick: spec_fn(RecordRow) -> bool, i: int)
    requires
        0 <= i < rows.len(),
        first_index(rows.take(i), pick) is None,
        pick(rows[i]),
    ensures
        first_index(rows, pick) == Some(i),
        first_index(rows.take(i + 1), pick) == Some(i),
    decreases rows.len() - i,
{
    assert(rows.take(i + 1).drop_last() =~= rows.take(i));
    if i + 1 < rows.len() {
        lemma_first_index_extend(rows, pick, i + 1);
    } else {
        assert(rows.take(i + 1) =~= rows);
    }
}

pub proof fn lemma_first_index_extend(rows: Seq<RecordRow>, pick: spec_fn(RecordRow) -> bool, n: int)
    requires
        0 < n <= rows.len(),
        first_index(rows.take(n), pick) is Some,
    ensures
        first_index(rows, pick) == first_index(rows.take(n), pick),
    decreases rows.len() - n,
{
    if n < rows.len() {
        assert(rows.take(n + 1).drop_last() =~= rows.take(n));
        lemma_first_index_extend(rows, pick, n + 1);
    } else {
        assert(rows.take(n) =~= rows);
    }
}

/// The approved record of the pair (`player`, `demon`) in the table with more progress
/// than `record`, when `record` is approved and moves into that pair.
pub open spec fn table_outdoing(t: Map<i32, RecordRow>, record: RecordRow, player: i32, demon: i32) -> Option<i32> {
    if record.status == RecordStatus::Approved && !in_pair(record, player, demon) && exists|id: i32|
        #[trigger] t.dom().contains(id) && outdoes(record, player, demon, t[id]) {
        Some(choose|id: i32| #[trigger] t.dom().contains(id) && outdoes(record, player, demon, t[id]))
    } else {
        None
    }
}

/// The progress and video `record` has after moving into the pair.
pub open spec fn table_move_result(t: Map<i32, RecordRow>, record: RecordRow, player: i32, demon: i32) -> (i16, Option<String>) {
    match table_outdoing(t, record, player, demon) {
        Some(id) => (t[id].progress, t[id].video),
        None => (record.progress, record.video),
    }
}

/// The table after `record` moved into the pair (`player`, `demon`).
pub open spec fn after_move(t: Map<i32, RecordRow>, record: RecordRow, player: i32, demon: i32) -> Map<i32, RecordRow> {
    let (progress, video) = table_move_result(t, record, player, demon);
    t.remove_keys(selected(t, move_pick(record, player, demon, progress))).insert(
        record.id,
        RecordRow { player, demon, progress, video, ..record },
    )
}

/// A plan made from the fetched records of the pair agrees with the table: it takes over
/// the same record's progress and video and deletes the same records.
pub proof fn lemma_move_plan_matches_table(rows: Seq<RecordRow>, t: Map<i32, RecordRow>, record: RecordRow, player: i32, demon: i32)
    requires
        consistent(t),
        fetched_pair(rows, t, player, demon),
    ensures
        move_adopts(rows, record, player, demon) matches Some(k) ==> 0 <= k < rows.len()
            && table_outdoing(t, record, player, demon) == Some(rows[k].id),
        move_adopts(rows, record, player, demon) is None ==> table_outdoing(t, record, player, demon) is None,
        move_progress(rows, record, player, demon) == table_move_result(t, record, player, demon).0,
        select_ids(rows, move_pick(record, player, demon, move_progress(rows, record, player, demon))).to_set()
            =~= selected(t, move_pick(record, player, demon, table_move_result(t, record, player, demon).0)),
{
    let pick = outdoes_pick(record, player, demon);
    lemma_first_index_bounds(rows, pick);
    if record.status == RecordStatus::Approved && !in_pair(record, player, demon) {
        match first_index(rows, pick) {
            Some(k) => {
                let id = rows[k].id;
                assert(t.dom().contains(id) && t[id] == rows[k]);
                assert(outdoes(record, player, demon, t[id]));
                let c = choose|c: i32| #[trigger] t.dom().contains(c) && outdoes(record, player, demon, t[c]);
                if c != id {
                    assert(same_pair(t[c], t[id]));
                    assert(t[c].status == RecordStatus::Approved && t[id].status == RecordStatus::Approved);
                    assert(false);
                }
            },
            None => {
                if exists|id: i32| #[trigger] t.dom().contains(id) && outdoes(record, player, demon, t[id]) {
                    let id = choose|id: i32| #[trigger] t.dom().contains(id) && outdoes(record, player, demon, t[id]);
                    let k = choose|k: int| 0 <= k < rows.len() && rows[k].id == id;
                    assert(rows[k] == t[id]);
                    lemma_first_index_none(rows, pick, k);
                }
            },
        }
    }
    let progress = move_progress(rows, record, player, demon);
    let mp = move_pick(record, player, demon, progress);
    assert forall|r: RecordRow| #[trigger] mp(r) implies in_pair(r, player, demon) by {}
    lemma_fetched_pair_selects(rows, t, player, demon, mp);
}

pub proof fn lemma_first_index_bounds(rows: Seq<RecordRow>, pick: spec_fn(RecordRow) -> bool)
    ensures
        first_index(rows, pick) matches Some(k) ==> 0 <= k < rows.len() && pick(rows[k]),
    decreases rows.len(),
{
    if rows.len() > 0 {
        lemma_first_index_bounds(rows.drop_last(), pick);
        if let Some(k) = first_index(rows.drop_last(), pick) {
            assert(rows[k] == rows.drop_last()[k]);
        }
    }
}

pub proof fn lemma_first_index_none(rows: Seq<RecordRow>, pick: spec_fn(RecordRow) -> bool, k: int)
    requires
        0 <= k < rows.len(),
        pick(rows[k]),
    ensures
        first_index(rows, pick) is Some,
    decreases rows.len(),
{
    if k < rows.len() - 1 {
        assert(rows.drop_last()[k] == rows[k]);
        lemma_first_index_none(rows.drop_last(), pick, k);
    }
}

/// Law: moving a record into another (player, demon) pair as planned keeps the table
/// consistent.
pub proof fn law_move_keeps_consistency(t: Map<i32, RecordRow>, record: RecordRow, player: i32, demon: i32)
    requires
        consistent(t),
        t.dom().contains(record.id),
        t[record.id] == record,
        !in_pair(record, player, demon),
    ensures
        consistent(after_move(t, record, player, demon)),
{
    let (progress, video) = table_move_result(t, record, player, demon);
    let pick = move_pick(record, player, demon, progress);
    let moved = RecordRow { player, demon, progress, video, ..record };
    let t2 = after_move(t, record, player, demon);
    assert(!selected(t, pick).contains(record.id));
    assert(t2[record.id] == moved);
    if let Some(c) = table_outdoing(t, record, player, demon) {
        assert(t.dom().contains(c) && outdoes(record, player, demon, t[c]));
    }
    assert(progress >= record.progress);
    assert forall|a: i32, b: i32|
        #![trigger t2[a], t2[b]]
        t2.dom().contains(a) && t2.dom().contains(b) && a != b && same_pair(t2[a], t2[b]) implies {
            &&& t2[a].status != RecordStatus::Rejected
            &&& !(t2[a].status == RecordStatus::Approved && t2[b].status == RecordStatus::Approved)
        } by {
        assert(t.dom().contains(a) && t.dom().contains(b));
        if a == record.id || b == record.id {
            let o = if a == record.id { b } else { a };
            assert(t2[o] == t[o]);
            assert(in_pair(t[o], player, demon));
            assert(!pick(t[o]));
            if record.status == RecordStatus::Approved && t[o].status == RecordStatus::Approved {
                assert(t[o].progress > progress);
                assert(outdoes(record, player, demon, t[o]));
                let c = table_outdoing(t, record, player, demon)->Some_0;
                assert(t.dom().contains(c) && outdoes(record, player, demon, t[c]));
                if c != o {
                    assert(same_pair(t[c], t[o]));
                }
                assert(false);
            }
        } else {
            assert(t[a] == t2[a] && t[b] == t2[b]);
        }
    }
}

// ---------------------------------------------------------------------------------------
// Changing a record's progress

/// Changing the progress of an approved record to `progress` deletes the submissions of
/// its pair with less progress; they hand their notes over to the record first.
pub open spec fn removed_on_progress_change(record: RecordRow, progress: i16, row: RecordRow) -> bool {
    &&& same_pair(row, record)
    &&& record.status == RecordStatus::Approved
    &&& row.status == RecordStatus::Submitted
    &&& row.progress < progress
}

pub open spec fn progress_change_pick(record: RecordRow, progress: i16) -> spec_fn(RecordRow) -> bool {
    |row: RecordRow| removed_on_progress_change(record, progress, row)
}

/// The table after `record`'s progress changed to `progress`.
pub open spec fn after_progress_change(t: Map<i32, RecordRow>, record: RecordRow, progress: i16) -> Map<i32, RecordRow> {
    t.remove_keys(selected(t, progress_change_pick(record, progress))).insert(record.id, RecordRow { progress, ..record })
}

/// Progress is a percentage of at least the demon's requirement.
pub open spec fn valid_progress(progress: i16, requirement: i16) -> bool {
    requirement <= progress <= 100
}

/// What changing a record's progress takes: the submissions to delete, whose notes move
/// to the record first.
#[derive(Debug)]
pub struct ProgressPlan {
    pub removed: Vec<i32>,
}

/// Plans changing `record`'s progress to `progress`, for a demon with the given record
/// requirement, from the records of its pair. Progress outside of `[requirement, 100]` is
/// refused.
pub fn plan_progress_change(pair_rows: &Vec<RecordRow>, record: &RecordRow, progress: i16, requirement: i16) -> (r: Result<ProgressPlan, DemonlistError>)
    ensures
        r is Err <==> !valid_progress(progress, requirement),
        r is Err ==> r->Err_0 == (DemonlistError::InvalidProgress { requirement }),
        r matches Ok(plan) ==> plan.removed@ == select_ids(pair_rows@, progress_change_pick(*record, progress)),
{
    if progress > 100 || progress < requirement {
        return Err(DemonlistError::InvalidProgress { requirement });
    }
    let rows = pair_rows;
    let mut removed: Vec<i32> = Vec::new();
    let mut i: usize = 0;
    while i < rows.len()
        invariant
            i <= rows@.len(),
            removed@ == select_ids(rows@.take(i as int), progress_change_pick(*record, progress)),
        decreases rows@.len() - i,
    {
        let row = &rows[i];
        assert(rows@.take(i + 1).drop_last() =~= rows@.take(i as int));
        if row.player == record.player && row.demon == record.demon && matches!(record.status, RecordStatus::Approved)
            && matches!(row.status, RecordStatus::Submitted) && row.progress < progress {
            removed.push(row.id);
        }
        i = i + 1;
    }
    assert(rows@.take(rows@.len() as int) =~= rows@);
    Ok(ProgressPlan { removed })
}

/// Law: changing a record's progress as planned keeps the table consistent, and an
/// approved record is left with no submission of its pair that has less progress.
pub proof fn law_progress_change_keeps_consistency(t: Map<i32, RecordRow>, record: RecordRow, progress: i16)
    requires
        consistent(t),
        t.dom().contains(record.id),
        t[record.id] == record,
    ensures
        consistent(after_progress_change(t, record, progress)),
        record.status == RecordStatus::Approved ==> forall|id: i32|
            #[trigger] after_progress_change(t, record, progress).dom().contains(id) && id != record.id && same_pair(
                after_progress_change(t, record, progress)[id],
                record,
            ) && after_progress_change(t, record, progress)[id].status == RecordStatus::Submitted
                ==> after_progress_change(t, record, progress)[id].progress >= progress,
{
    let pick = progress_change_pick(record, progress);
    let t2 = after_progress_change(t, record, progress);
    assert(!selected(t, pick).contains(record.id));
    assert forall|a: i32, b: i32|
        #![trigger t2[a], t2[b]]
        t2.dom().contains(a) && t2.dom().contains(b) && a != b && same_pair(t2[a], t2[b]) implies {
            &&& t2[a].status != RecordStatus::Rejected
            &&& !(t2[a].status == RecordStatus::Approved && t2[b].status == RecordStatus::Approved)
        } by {
        assert(t.dom().contains(a) && t.dom().contains(b));
        assert(same_pair(t[a], t[b]));
    }
    if record.status == RecordStatus::Approved {
        assert forall|id: i32|
            #[trigger] t2.dom().contains(id) && id != record.id && same_pair(t2[id], record) && t2[id].status
                == RecordStatus::Submitted implies t2[id].progress >= progress by {
            assert(!pick(t[id]));
        }
    }
}

// ---------------------------------------------------------------------------------------
// Banning a player

/// Banning a player deletes their submissions and records under consideration ...
pub open spec fn removed_on_ban(player: i32, row: RecordRow) -> bool {
    row.player == player && (row.status == RecordStatus::Submitted || row.status == RecordStatus::UnderConsideration)
}

/// ... and rejects all their other records.
pub open spec fn rejected_on_ban(player: i32, row: RecordRow) -> bool {
    row.player == player && !(row.status == RecordStatus::Submitted || row.status == RecordStatus::UnderConsideration)
}

pub open spec fn ban_removed_pick(player: i32) -> spec_fn(RecordRow) -> bool {
    |row: RecordRow| removed_on_ban(player, row)
}

pub open spec fn ban_rejected_pick(player: i32) -> spec_fn(RecordRow) -> bool {
    |row: RecordRow| rejected_on_ban(player, row)
}

/// The table after banning `player`.
pub open spec fn after_ban(t: Map<i32, RecordRow>, player: i32) -> Map<i32, RecordRow> {
    Map::new(
        |id: i32| t.dom().contains(id) && !removed_on_ban(player, t[id]),
        |id: i32|
            if t[id].player == player {
                RecordRow { status: RecordStatus::Rejected, ..t[id] }
            } else {
                t[id]
            },
    )
}

/// What banning a player takes: the records to delete and the records to reject.
#[derive(Debug)]
pub struct BanPlan {
    pub removed: Vec<i32>,
    pub rejected: Vec<i32>,
}

/// Plans banning `player` from the player's records.
pub fn plan_ban(player_rows: &Vec<RecordRow>, player: i32) -> (plan: BanPlan)
    ensures
        plan.removed@ == select_ids(player_rows@, ban_removed_pick(player)),
        plan.rejected@ == select_ids(player_rows@, ban_rejected_pick(player)),
{
    let rows = player_rows;
    let mut removed: Vec<i32> = Vec::new();
    let mut rejected: Vec<i32> = Vec::new();
    let mut i: usize = 0;
    while i < rows.len()
        invariant
            i <= rows@.len(),
            removed@ == select_ids(rows@.take(i as int), ban_removed_pick(player)),
            rejected@ == select_ids(rows@.take(i as int), ban_rejected_pick(player)),
        decreases rows@.len() - i,
    {
        let row = &rows[i];
        assert(rows@.take(i + 1).drop_last() =~= rows@.take(i as int));
        if row.player == player {
            if matches!(row.status, RecordStatus::Submitted) || matches!(row.status, RecordStatus::UnderConsideration) {
                removed.push(row.id);
            } else {
                rejected.push(row.id);
            }
        }
        i = i + 1;
    }
    assert(rows@.take(rows@.len() as int) =~= rows@);
    BanPlan { removed, rejected }
}

/// Law: banning a player as planned keeps the table consistent and leaves the player
/// with rejected records only.
pub proof fn law_ban_keeps_consistency(t: Map<i32, RecordRow>, player: i32)
    requires
        consistent(t),
    ensures
        consistent(after_ban(t, player)),
        forall|id: i32|
            #[trigger] after_ban(t, player).dom().contains(id) && after_ban(t, player)[id].player == player
                ==> after_ban(t, player)[id].status == RecordStatus::Rejected,
{
    let t2 = after_ban(t, player);
    assert forall|a: i32, b: i32|
        #![trigger t2[a], t2[b]]
        t2.dom().contains(a) && t2.dom().contains(b) && a != b && same_pair(t2[a], t2[b]) implies {
            &&& t2[a].status != RecordStatus::Rejected
            &&& !(t2[a].status == RecordStatus::Approved && t2[b].status == RecordStatus::Approved)
        } by {
        assert(t.dom().contains(a) && t.dom().contains(b));
        assert(same_pair(t[a], t[b]));
        if t[a].player == player {
            // both remaining records were approved or rejected: impossible in a consistent table
            assert(!removed_on_ban(player, t[a]) && !removed_on_ban(player, t[b]));
            assert(false);
        }
    }
}

// ---------------------------------------------------------------------------------------
// Adding a record from a submission

/// A record of the submission's pair that stands against it: a rejected record, one
/// under consideration, or an approved record with at least as much progress.
pub open spec fn blocks_submission(new: RecordRow, row: RecordRow) -> bool {
    &&& same_pair(row, new)
    &&& (row.status == RecordStatus::Rejected || row.status == RecordStatus::UnderConsideration || (row.status
        == RecordStatus::Approved && row.progress >= new.progress))
}

/// The table after a submission was added as a record: it is added as 'submitted', and
/// then moved to its requested status if that differs.
pub open spec fn after_submission(t: Map<i32, RecordRow>, new: RecordRow, status: RecordStatus) -> Map<i32, RecordRow> {
    let submitted = RecordRow { status: RecordStatus::Submitted, ..new };
    let t1 = t.insert(new.id, submitted);
    if status == RecordStatus::Submitted {
        t1
    } else {
        after_status_change(t1, submitted, status)
    }
}

/// Law: adding a record for a submission that no record of its pair stands against keeps
/// the table consistent, whatever status it is added with.
pub proof fn law_submission_keeps_consistency(t: Map<i32, RecordRow>, new: RecordRow, status: RecordStatus)
    requires
        consistent(t),
        !t.dom().contains(new.id),
        forall|id: i32| #[trigger] t.dom().contains(id) ==> !blocks_submission(new, t[id]),
    ensures
        consistent(after_submission(t, new, status)),
{
    let submitted = RecordRow { status: RecordStatus::Submitted, ..new };
    let t1 = t.insert(new.id, submitted);
    assert forall|a: i32, b: i32|
        #![trigger t1[a], t1[b]]
        t1.dom().contains(a) && t1.dom().contains(b) && a != b && same_pair(t1[a], t1[b]) implies {
            &&& t1[a].status != RecordStatus::Rejected
            &&& !(t1[a].status == RecordStatus::Approved && t1[b].status == RecordStatus::Approved)
        } by {
        if a == new.id {
            assert(!blocks_submission(new, t[b]));
        } else if b == new.id {
            assert(!blocks_submission(new, t[a]));
        } else {
            assert(t1[a] == t[a] && t1[b] == t[b]);
        }
    }
    assert(consistent(t1));
    if status != RecordStatus::Submitted {
        assert forall|id: i32|
            #[trigger] t1.dom().contains(id) && id != submitted.id && same_pair(t1[id], submitted)
                && t1[id].status == RecordStatus::Approved implies t1[id].progress <= submitted.progress by {
            assert(!blocks_submission(new, t[id]));
        }
        law_status_change_keeps_consistency(t1, submitted, status);
    }
}

// ---------------------------------------------------------------------------------------
// Changing a record's holder or demon

/// Plans making `player` the holder of `record`, from the records of the pair the record
/// moves into. A banned player can only hold rejected records.
pub fn plan_player_change(target_rows: &Vec<RecordRow>, record: &RecordRow, player: &DatabasePlayer) -> (r: Result<MovePlan, DemonlistError>)
    ensures
        player.banned && record.status != RecordStatus::Rejected ==> r == Err::<MovePlan, DemonlistError>(
            DemonlistError::PlayerBanned,
        ),
        !(player.banned && record.status != RecordStatus::Rejected) ==> (r matches Ok(plan)
            && plan.removed@ == select_ids(
            target_rows@,
            move_pick(*record, player.id, record.demon, move_progress(target_rows@, *record, player.id, record.demon)),
        ) && plan.notes_from@ == select_ids(
            target_rows@,
            move_notes_pick(target_rows@, *record, player.id, record.demon),
        ) && plan.adopted == (match move_adopts(target_rows@, *record, player.id, record.demon) {
            Some(k) => Some((target_rows@[k].progress, target_rows@[k].video)),
            None => None,
        })),
{
    if player.banned && !matches!(record.status, RecordStatus::Rejected) {
        return Err(DemonlistError::PlayerBanned);
    }
    Ok(plan_move(target_rows, record, player.id, record.demon))
}

/// Plans moving `record` to demon `demon`, whose record requirement is `requirement`, from
/// the records of the pair the record joins: the record needs at least the requirement's
/// progress, and then moves as into any other pair.
pub fn plan_demon_change(target_rows: &Vec<RecordRow>, record: &RecordRow, demon: i32, requirement: i16) -> (r: Result<MovePlan, DemonlistError>)
    ensures
        r is Err <==> record.progress < requirement,
        r is Err ==> r == Err::<MovePlan, DemonlistError>(DemonlistError::InvalidProgress { requirement }),
        r matches Ok(plan) ==> plan.removed@ == select_ids(
            target_rows@,
            move_pick(*record, record.player, demon, move_progress(target_rows@, *record, record.player, demon)),
        ) && plan.notes_from@ == select_ids(
            target_rows@,
            move_notes_pick(target_rows@, *record, record.player, demon),
        ) && plan.adopted == (match move_adopts(target_rows@, *record, record.player, demon) {
            Some(k) => Some((target_rows@[k].progress, target_rows@[k].video)),
            None => None,
        }),
{
    if record.progress < requirement {
        return Err(DemonlistError::InvalidProgress { requirement });
    }
    Ok(plan_move(target_rows, record, record.player, demon))
}

/// Law: moving a record to another demon as planned keeps the table consistent.
pub proof fn law_demon_change_keeps_consistency(t: Map<i32, RecordRow>, record: RecordRow, demon: i32)
    requires
        consistent(t),
        t.dom().contains(record.id),
        t[record.id] == record,
        record.demon != demon,
    ensures
        consistent(after_move(t, record, record.player, demon)),
{
    law_move_keeps_consistency(t, record, record.player, demon);
}

// ---------------------------------------------------------------------------------------
// Merging players: the merged player's records move one after the other

/// The table after the records `ids` moved, in order, to player `keep`, each staying on
/// its demon; an id no longer in the table, or already `keep`'s, is passed over.
pub open spec fn after_moves_to(t: Map<i32, RecordRow>, ids: Seq<i32>, keep: i32) -> Map<i32, RecordRow>
    decreases ids.len(),
{
    if ids.len() == 0 {
        t
    } else {
        let t1 = after_moves_to(t, ids.drop_last(), keep);
        let id = ids.last();
        if t1.dom().contains(id) && t1[id].player != keep {
            after_move(t1, t1[id], keep, t1[id].demon)
        } else {
            t1
        }
    }
}

proof fn lemma_moves_to(t: Map<i32, RecordRow>, ids: Seq<i32>, keep: i32, with: i32)
    requires
        consistent(t),
        keep != with,
    ensures
        consistent(after_moves_to(t, ids, keep)),
        forall|id: i32|
            #[trigger] after_moves_to(t, ids, keep).dom().contains(id) && after_moves_to(t, ids, keep)[id].player == with
                ==> t.dom().contains(id) && t[id].player == with && !ids.contains(id),
    decreases ids.len(),
{
    if ids.len() > 0 {
        let prefix = ids.drop_last();
        lemma_moves_to(t, prefix, keep, with);
        let t1 = after_moves_to(t, prefix, keep);
        let x = ids.last();
        let t2 = after_moves_to(t, ids, keep);
        if t1.dom().contains(x) && t1[x].player != keep {
            let r = t1[x];
            assert(r.id == x);
            law_move_keeps_consistency(t1, r, keep, r.demon);
        }
        assert forall|id: i32| #[trigger] t2.dom().contains(id) && t2[id].player == with implies t.dom().contains(id)
            && t[id].player == with && !ids.contains(id) by {
            if t1.dom().contains(x) && t1[x].player != keep {
                assert(id != x);
                assert(t1.dom().contains(id) && t2[id] == t1[id]);
            } else {
                assert(t2 == t1);
                if id == x {
                    assert(t1[x].player == keep);
                }
            }
            assert(!prefix.contains(id));
            if ids.contains(id) {
                let k = choose|k: int| 0 <= k < ids.len() && ids[k] == id;
                if k < ids.len() - 1 {
                    assert(prefix[k] == id);
                }
            }
        }
    }
}

/// Law: merging player `with` into player `keep` moves each of `with`'s records to `keep`
/// (`ids` lists them); the table stays consistent, and afterwards no record is `with`'s.
pub proof fn law_merge_moves_records(t: Map<i32, RecordRow>, ids: Seq<i32>, keep: i32, with: i32)
    requires
        consistent(t),
        keep != with,
        forall|id: i32| #[trigger] t.dom().contains(id) && t[id].player == with ==> ids.contains(id),
    ensures
        consistent(after_moves_to(t, ids, keep)),
        forall|id: i32|
            #[trigger] after_moves_to(t, ids, keep).dom().contains(id) ==> after_moves_to(t, ids, keep)[id].player
                != with,
{
    lemma_moves_to(t, ids, keep, with);
}

// ---------------------------------------------------------------------------------------
// What each plan deletes, stated over the rows it is made from

/// Law: changing an approved record's progress deletes exactly the submissions of its pair
/// with less than the new progress; a record of any other status deletes nothing.
pub proof fn law_progress_change_removals(rows: Seq<RecordRow>, record: RecordRow, progress: i16, id: i32)
    ensures
        select_ids(rows, progress_change_pick(record, progress)).contains(id) <==> record.status
            == RecordStatus::Approved && exists|k: int|
            0 <= k < rows.len() && rows[k].id == id && rows[k].player == record.player && rows[k].demon == record.demon
                && rows[k].status == RecordStatus::Submitted && rows[k].progress < progress,
{
    lemma_select_ids_contains(rows, progress_change_pick(record, progress), id);
}

/// Law: banning a player deletes exactly their submissions and records under
/// consideration, and rejects exactly their other records.
pub proof fn law_ban_plan(rows: Seq<RecordRow>, player: i32, id: i32)
    ensures
        select_ids(rows, ban_removed_pick(player)).contains(id) <==> exists|k: int|
            0 <= k < rows.len() && rows[k].id == id && rows[k].player == player && (rows[k].status
                == RecordStatus::Submitted || rows[k].status == RecordStatus::UnderConsideration),
        select_ids(rows, ban_rejected_pick(player)).contains(id) <==> exists|k: int|
            0 <= k < rows.len() && rows[k].id == id && rows[k].player == player && (rows[k].status
                == RecordStatus::Approved || rows[k].status == RecordStatus::Rejected),
{
    lemma_select_ids_contains(rows, ban_removed_pick(player), id);
    lemma_select_ids_contains(rows, ban_rejected_pick(player), id);
}

/// Law: which records of the pair (`player`, `demon`) a move of `record` into it deletes,
/// where `progress` is the progress the record ends up with. Nothing goes when the record
/// stays in its pair. Otherwise a rejected record deletes every record of the pair, any
/// record deletes the pair's rejected records, an approved record also deletes those with
/// at most `progress`, and a submission or a record under consideration deletes nothing
/// else.
pub proof fn law_move_removals(rows: Seq<RecordRow>, record: RecordRow, player: i32, demon: i32, progress: i16, id: i32)
    ensures
        record.player == player && record.demon == demon ==> !select_ids(rows, move_pick(record, player, demon, progress)).contains(id),
        !(record.player == player && record.demon == demon) ==> (select_ids(rows, move_pick(record, player, demon, progress)).contains(id)
            <==> exists|k: int|
            0 <= k < rows.len() && rows[k].id == id && rows[k].player == player && rows[k].demon == demon && (record.status
                == RecordStatus::Rejected || rows[k].status == RecordStatus::Rejected || (record.status
                == RecordStatus::Approved && rows[k].progress <= progress))),
{
    lemma_select_ids_contains(rows, move_pick(record, player, demon, progress), id);
}

/// Law: an approved record that moves into a pair holding an approved record with more
/// progress takes over the progress of the first such record, and otherwise keeps its own;
/// any other record keeps its progress.
pub proof fn law_move_progress(rows: Seq<RecordRow>, record: RecordRow, player: i32, demon: i32)
    ensures
        move_progress(rows, record, player, demon) >= record.progress,
        !(record.status == RecordStatus::Approved && !(record.player == player && record.demon == demon))
            ==> move_progress(rows, record, player, demon) == record.progress,
        record.status == RecordStatus::Approved && !(record.player == player && record.demon == demon) ==> (
        move_progress(rows, record, player, demon) == record.progress <==> forall|k: int|
            0 <= k < rows.len() ==> !(rows[k].player == player && rows[k].demon == demon && rows[k].status
                == RecordStatus::Approved && rows[k].progress > record.progress)),
        record.status == RecordStatus::Approved && !(record.player == player && record.demon == demon) ==> forall|k: int|
            0 <= k < rows.len() && rows[k].player == player && rows[k].demon == demon && rows[k].status
                == RecordStatus::Approved && rows[k].progress > record.progress && (forall|j: int|
                0 <= j < k ==> !(rows[j].player == player && rows[j].demon == demon && rows[j].status
                    == RecordStatus::Approved && rows[j].progress > record.progress)) ==> move_progress(
                rows,
                record,
                player,
                demon,
            ) == rows[k].progress,
{
    let pick = outdoes_pick(record, player, demon);
    lemma_first_index_bounds(rows, pick);
    if record.status == RecordStatus::Approved && !(record.player == player && record.demon == demon) {
        if first_index(rows, pick) is None {
            assert forall|k: int| 0 <= k < rows.len() implies !(rows[k].player == player && rows[k].demon == demon
                && rows[k].status == RecordStatus::Approved && rows[k].progress > record.progress) by {
                if rows[k].player == player && rows[k].demon == demon && rows[k].status == RecordStatus::Approved
                    && rows[k].progress > record.progress {
                    lemma_first_index_none(rows, pick, k);
                }
            }
        }
        assert forall|k: int|
            0 <= k < rows.len() && rows[k].player == player && rows[k].demon == demon && rows[k].status
                == RecordStatus::Approved && rows[k].progress > record.progress && (forall|j: int|
                0 <= j < k ==> !(rows[j].player == player && rows[j].demon == demon && rows[j].status
                    == RecordStatus::Approved && rows[j].progress > record.progress)) implies move_progress(
            rows,
            record,
            player,
            demon,
        ) == rows[k].progress by {
            lemma_first_index_is(rows, pick, k);
        }
    }
}

proof fn lemma_first_index_is(rows: Seq<RecordRow>, pick: spec_fn(RecordRow) -> bool, k: int)
    requires
        0 <= k < rows.len(),
        pick(rows[k]),
        forall|j: int| 0 <= j < k ==> !pick(rows[j]),
    ensures
        first_index(rows, pick) == Some(k),
    decreases rows.len(),
{
    if k < rows.len() - 1 {
        assert(rows.drop_last()[k] == rows[k]);
        assert forall|j: int| 0 <= j < k implies !pick(rows.drop_last()[j]) by {
            assert(rows.drop_last()[j] == rows[j]);
        }
        lemma_first_index_is(rows.drop_last(), pick, k);
    } else {
        if first_index(rows.drop_last(), pick) is Some {
            lemma_first_index_bounds(rows.drop_last(), pick);
            let j = first_index(rows.drop_last(), pick)->Some_0;
            assert(rows.drop_last()[j] == rows[j]);
        }
    }
}

} // verus!
