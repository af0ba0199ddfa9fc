//! The movement log of a demon: how and why its position changed, read from the audit log.
use vstd::prelude::*;

verus! {

/// A user or a demon: its id and, where known, its name.
#[derive(Debug, PartialEq, Eq)]
pub struct NamedId {
    pub id: i32,
    pub name: Option<String>,
}

/// The kind of an audit log entry of a demon. A modification carries the demon's
/// position before the change, if the change moved it.
#[derive(Debug)]
pub enum AuditEntryKind {
    Addition,
    Modification { position: Option<i16> },
    Deletion,
}

/// An audit log entry of a demon; `time` counts microseconds since the Unix epoch.
#[derive(Debug)]
pub struct AuditEntry {
    pub time: i64,
    pub kind: AuditEntryKind,
}

#[derive(Debug, PartialEq, Eq)]
pub enum MovementReason {
    Added,
    Moved,
    OtherAddedAbove { other: NamedId },
    OtherMoved { other: NamedId },
    Unknown,
}

#[derive(Debug, PartialEq, Eq)]
pub struct MovementLogEntry {
    pub reason: MovementReason,
    pub time: i64,
    /// `None` only for the last entry of a demon that was deleted.
    pub new_position: Option<i16>,
}

/// Microseconds in a day.
pub const MICROS_PER_DAY: i64 = 86_400_000_000;

/// Log entries made at exactly 12:00:00 were generated from deltas: their reason cannot
/// be known.
pub open spec fn at_noon(time: i64) -> bool {
    time % MICROS_PER_DAY == 43_200_000_000
}

/// The demon recorded under `time`: the last of the entries with that time, as a map
/// filled from them in order keeps it.
pub open spec fn recorded_at(entries: Seq<(i64, NamedId)>, time: i64) -> Option<NamedId>
    decreases entries.len(),
{
    if entries.len() == 0 {
        None
    } else if entries.last().0 == time {
        Some(entries.last().1)
    } else {
        recorded_at(entries.drop_last(), time)
    }
}

/// `log` with the new position of its last entry set to `position`.
pub open spec fn set_last_position(log: Seq<MovementLogEntry>, position: Option<i16>) -> Seq<MovementLogEntry> {
    if log.len() == 0 {
        log
    } else {
        log.update(log.len() - 1, MovementLogEntry { new_position: position, ..log.last() })
    }
}

/// The movement log after reading one more audit entry of demon `demon_id`; `additions`
/// are the demons added at each time, `moves` the demons that were moved at each time.
pub open spec fn movement_step(
    log: Seq<MovementLogEntry>,
    entry: AuditEntry,
    demon_id: i32,
    additions: Seq<(i64, NamedId)>,
    moves: Seq<(i64, NamedId)>,
) -> Seq<MovementLogEntry> {
    let time = entry.time;
    match entry.kind {
        AuditEntryKind::Addition => log.push(MovementLogEntry { reason: MovementReason::Added, time, new_position: None }),
        AuditEntryKind::Modification { position: Some(old) } => if old == -1 {
            log
        } else {
            let log = set_last_position(log, Some(old));
            if at_noon(time) {
                log.push(MovementLogEntry { reason: MovementReason::Unknown, time, new_position: None })
            } else {
                match recorded_at(moves, time) {
                    Some(m) => if m.id == demon_id {
                        log.push(MovementLogEntry { reason: MovementReason::Moved, time, new_position: None })
                    } else {
                        log.push(MovementLogEntry { reason: MovementReason::OtherMoved { other: m }, time, new_position: Some(old) })
                    },
                    None => match recorded_at(additions, time) {
                        Some(a) => log.push(MovementLogEntry { reason: MovementReason::OtherAddedAbove { other: a }, time, new_position: None }),
                        None => log.push(MovementLogEntry { reason: MovementReason::Unknown, time, new_position: None }),
                    },
                }
            }
        },
        _ => log,
    }
}

/// The movement log of the audit entries, before the current position is filled in.
pub open spec fn movement_log_of(
    entries: Seq<AuditEntry>,
    demon_id: i32,
    additions: Seq<(i64, NamedId)>,
    moves: Seq<(i64, NamedId)>,
) -> Seq<MovementLogEntry>
    decreases entries.len(),
{
    if entries.len() == 0 {
        Seq::empty()
    } else {
        movement_step(movement_log_of(entries.drop_last(), demon_id, additions, moves), entries.last(), demon_id, additions, moves)
    }
}

fn copy_named(n: &NamedId) -> (r: NamedId)
    ensures
        r == *n,
{
    NamedId {
        id: n.id,
        name: match &n.name {
            Some(s) => Some(s.clone()),
            None => None,
        },
    }
}

fn find_recorded<'a>(entries: &'a Vec<(i64, NamedId)>, time: i64) -> (r: Option<&'a NamedId>)
    ensures
        match r {
            Some(n) => recorded_at(entries@, time) == Some(*n),
            None => recorded_at(entries@, time) is None,
        },
{
    let mut i = entries.len();
    assert(entries@.take(i as int) =~= entries@);
    while i > 0
        invariant
            i <= entries@.len(),
            recorded_at(entries@, time) == recorded_at(entries@.take(i as int), time),
        decreases i,
    {
        assert(entries@.take(i as int).last() == entries@[i - 1]);
        assert(entries@.take(i as int).drop_last() =~= entries@.take(i - 1));
        if entries[i - 1].0 == time {
            return Some(&entries[i - 1].1);
        }
        i = i - 1;
    }
    None
}

fn set_last(log: &mut Vec<MovementLogEntry>, position: Option<i16>)
    ensures
        final(log)@ == set_last_position(old(log)@, position),
{
    if log.len() > 0 {
        let mut last = log.pop().unwrap();
        last.new_position = position;
        log.push(last);
        assert(log@ =~= set_last_position(old(log)@, position));
    }
}

fn is_at_noon(time: i64) -> (r: bool)
    ensures
        r == at_noon(time),
{
    let rem = time % MICROS_PER_DAY;
    let rem = if rem < 0 {
        rem + MICROS_PER_DAY
    } else {
        rem
    };
    rem == 43_200_000_000
}

/// The movement log of demon `demon_id`, read from its audit log in order; `additions`
/// and `moves` list, by time, the demons that were added and that were moved (their
/// position set to -1 on the way); `current_position` is the demon's position today,
/// which the last entry moves it to, or `None` for a deleted demon, whose last entry then
/// has no new position.
pub fn movement_log(
    audit_log: &Vec<AuditEntry>,
    demon_id: i32,
    additions: &Vec<(i64, NamedId)>,
    moves: &Vec<(i64, NamedId)>,
    current_position: Option<i16>,
) -> (r: Vec<MovementLogEntry>)
    ensures
        r@ == set_last_position(movement_log_of(audit_log@, demon_id, additions@, moves@), current_position),
{
    let mut log: Vec<MovementLogEntry> = Vec::new();
    let mut i: usize = 0;
    while i < audit_log.len()
        invariant
            i <= audit_log@.len(),
            log@ == movement_log_of(audit_log@.take(i as int), demon_id, additions@, moves@),
        decreases audit_log@.len() - i,
    {
        let entry = &audit_log[i];
        assert(audit_log@.take(i + 1).drop_last() =~= audit_log@.take(i as int));
        assert(audit_log@.take(i + 1).last() == audit_log@[i as int]);
        let time = entry.time;
        match &entry.kind {
            AuditEntryKind::Addition => {
                log.push(MovementLogEntry { reason: MovementReason::Added, time, new_position: None });
            },
            AuditEntryKind::Modification { position: Some(old) } => {
                let old = *old;
                if old != -1 {
                    set_last(&mut log, Some(old));
                    if is_at_noon(time) {
                        log.push(MovementLogEntry { reason: MovementReason::Unknown, time, new_position: None });
                    } else {
                        match find_recorded(moves, time) {
                            Some(m) => if m.id == demon_id {
                                log.push(MovementLogEntry { reason: MovementReason::Moved, time, new_position: None });
                            } else {
                                log.push(
                                    MovementLogEntry {
                                        reason: MovementReason::OtherMoved { other: copy_named(m) },
                                        time,
                                        new_position: Some(old),
                                    },
                                );
                            },
                            None => match find_recorded(additions, time) {
                                Some(a) => {
                                    log.push(
                                        MovementLogEntry {
                                            reason: MovementReason::OtherAddedAbove { other: copy_named(a) },
                                            time,
                                            new_position: None,
                                        },
                                    );
                                },
                                None => {
                                    log.push(MovementLogEntry { reason: MovementReason::Unknown, time, new_position: None });
                                },
                            },
                        }
                    }
                }
            },
            AuditEntryKind::Modification { position: None } => {},
            AuditEntryKind::Deletion => {},
        }
        i = i + 1;
    }
    assert(audit_log@.take(audit_log@.len() as int) =~= audit_log@);
    set_last(&mut log, current_position);
    log
}

/// Law: which demon `recorded_at` gives for a time: none when no entry has that time, and
/// otherwise the demon of the last entry with that time.
pub proof fn law_recorded_at(entries: Seq<(i64, NamedId)>, time: i64)
    ensures
        recorded_at(entries, time) is None <==> forall|k: int| 0 <= k < entries.len() ==> entries[k].0 != time,
        recorded_at(entries, time) matches Some(n) ==> exists|k: int|
            0 <= k < entries.len() && entries[k] == (time, n) && forall|j: int| k < j < entries.len() ==> entries[j].0 != time,
    decreases entries.len(),
{
    if entries.len() > 0 {
        let prefix = entries.drop_last();
        law_recorded_at(prefix, time);
        if entries.last().0 == time {
            let k = entries.len() - 1;
            assert(entries[k] == (time, entries.last().1));
        } else {
            if recorded_at(prefix, time) is None {
                assert forall|k: int| 0 <= k < entries.len() implies entries[k].0 != time by {
                    if k < entries.len() - 1 {
                        assert(entries[k] == prefix[k]);
                    }
                }
            } else {
                let n = recorded_at(prefix, time)->Some_0;
                let k = choose|k: int|
                    0 <= k < prefix.len() && prefix[k] == (time, n) && forall|j: int| k < j < prefix.len() ==> prefix[j].0 != time;
                assert(entries[k] == prefix[k]);
                assert forall|j: int| k < j < entries.len() implies entries[j].0 != time by {
                    if j < entries.len() - 1 {
                        assert(entries[j] == prefix[j]);
                    }
                }
                let w = choose|w: int| 0 <= w < prefix.len() && prefix[w] == (time, n);
                assert(entries[w] == prefix[w]);
            }
        }
    }
}

/// Law: how one audit entry extends a movement log. An addition adds an entry "added". A
/// modification that moved the demon from `old` (not -1) gives the last entry the new
/// position `old` and adds an entry whose reason is "unknown" at exactly 12:00:00 (UTC) of
/// a day; otherwise "moved" when this demon was moved at that time, "another demon moved"
/// (keeping position `old`) when another one was, else "another demon added above" when
/// one was added at that time, and "unknown" only when neither was recorded. Other entries
/// change nothing.
pub proof fn law_movement_step(
    log: Seq<MovementLogEntry>,
    entry: AuditEntry,
    demon_id: i32,
    additions: Seq<(i64, NamedId)>,
    moves: Seq<(i64, NamedId)>,
    old: i16,
)
    ensures
        entry.kind is Addition ==> movement_step(log, entry, demon_id, additions, moves) == log.push(
            MovementLogEntry { reason: MovementReason::Added, time: entry.time, new_position: None },
        ),
        entry.kind is Deletion || entry.kind == (AuditEntryKind::Modification { position: None }) || entry.kind
            == (AuditEntryKind::Modification { position: Some(-1i16) }) ==> movement_step(
            log,
            entry,
            demon_id,
            additions,
            moves,
        ) == log,
        entry.kind == (AuditEntryKind::Modification { position: Some(old) }) && old != -1 ==> {
            let time = entry.time;
            let base = set_last_position(log, Some(old));
            let noon = (time as int) % 86_400_000_000 == 43_200_000_000;
            let moved = exists|k: int| 0 <= k < moves.len() && moves[k].0 == time;
            let added = exists|k: int| 0 <= k < additions.len() && additions[k].0 == time;
            let step = movement_step(log, entry, demon_id, additions, moves);
            &&& step.len() == base.len() + 1
            &&& step.drop_last() == base
            &&& step.last().time == time
            &&& noon ==> step.last() == (MovementLogEntry { reason: MovementReason::Unknown, time, new_position: None })
            &&& !noon && moved ==> (step.last().reason == MovementReason::Moved || step.last().reason is OtherMoved)
            &&& !noon && moved ==> (recorded_at(moves, time) matches Some(m) && (m.id == demon_id ==> step.last()
                == (MovementLogEntry { reason: MovementReason::Moved, time, new_position: None })) && (m.id
                != demon_id ==> step.last() == (MovementLogEntry {
                reason: MovementReason::OtherMoved { other: m },
                time,
                new_position: Some(old),
            })))
            &&& !noon && !moved && added ==> (recorded_at(additions, time) matches Some(a) && step.last() == (
            MovementLogEntry { reason: MovementReason::OtherAddedAbove { other: a }, time, new_position: None }))
            &&& step.last().reason == MovementReason::Unknown <==> (noon || (!moved && !added))
        },
{
    law_recorded_at(moves, entry.time);
    law_recorded_at(additions, entry.time);
}

} // verus!
