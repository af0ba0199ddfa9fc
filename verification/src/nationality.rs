//! Nations and their subdivisions, the continents the rankings filter by, and the
//! per-nation summaries of the stats viewer.
use crate::demon::MinimalDemon;
use crate::error::CoreError;
use crate::list::List;
use crate::text::{case_fixed_from, lemma_case_fixed_from, lowercase, owned, str_eq, to_lowercase};
use vstd::prelude::*;

verus! {

#[derive(Debug, PartialEq, Eq, Hash, Clone)]
pub struct Nationality {
    pub iso_country_code: String,
    pub nation: String,
    pub subdivision: Option<Subdivision>,
}

#[derive(Debug, Eq, PartialEq, Clone, Hash)]
pub struct Subdivision {
    pub iso_code: String,
    pub name: String,
}

impl Nationality {
    /// Whether both refer to the same country, possibly to different subdivisions of it.
    pub fn same_country_as(&self, other: &Nationality) -> (r: bool)
        ensures
            r == (self.iso_country_code@ == other.iso_country_code@),
    {
        self.iso_country_code == other.iso_country_code
    }
}

#[derive(Debug, Eq, PartialEq, Structural, Hash, Copy, Clone)]
pub enum Continent {
    Asia,
    Europe,
    AustraliaAndOceania,
    Africa,
    NorthAmerica,
    SouthAmerica,
    MiddleAmerica,
}

/// How the database names a continent.
pub open spec fn continent_sql_name(c: Continent) -> Seq<char> {
    match c {
        Continent::Asia => "Asia"@,
        Continent::Europe => "Europe"@,
        Continent::AustraliaAndOceania => "Australia and Oceania"@,
        Continent::Africa => "Africa"@,
        Continent::NorthAmerica => "North America"@,
        Continent::SouthAmerica => "South America"@,
        Continent::MiddleAmerica => "Central America"@,
    }
}

/// How requests and responses name a continent.
pub open spec fn continent_name(c: Continent) -> Seq<char> {
    match c {
        Continent::Asia => "asia"@,
        Continent::Europe => "europe"@,
        Continent::AustraliaAndOceania => "australia"@,
        Continent::Africa => "africa"@,
        Continent::NorthAmerica => "north america"@,
        Continent::SouthAmerica => "south america"@,
        Continent::MiddleAmerica => "central america"@,
    }
}

/// The continent a (lower-cased) name spells, if any.
pub open spec fn continent_of_name(name: Seq<char>) -> Option<Continent> {
    if name == "asia"@ {
        Some(Continent::Asia)
    } else if name == "europe"@ {
        Some(Continent::Europe)
    } else if name == "australia"@ {
        Some(Continent::AustraliaAndOceania)
    } else if name == "africa"@ {
        Some(Continent::Africa)
    } else if name == "north america"@ {
        Some(Continent::NorthAmerica)
    } else if name == "south america"@ {
        Some(Continent::SouthAmerica)
    } else if name == "central america"@ {
        Some(Continent::MiddleAmerica)
    } else {
        None
    }
}

impl Continent {
    pub fn to_sql(&self) -> (r: String)
        ensures
            r@ == continent_sql_name(*self),
    {
        owned(
            match self {
                Continent::Asia => "Asia",
                Continent::Europe => "Europe",
                Continent::AustraliaAndOceania => "Australia and Oceania",
                Continent::Africa => "Africa",
                Continent::NorthAmerica => "North America",
                Continent::SouthAmerica => "South America",
                Continent::MiddleAmerica => "Central America",
            },
        )
    }

    /// The name requests and responses use.
    pub fn as_str(&self) -> (r: &'static str)
        ensures
            r@ == continent_name(*self),
    {
        match self {
            Continent::Asia => "asia",
            Continent::Europe => "europe",
            Continent::AustraliaAndOceania => "australia",
            Continent::Africa => "africa",
            Continent::NorthAmerica => "north america",
            Continent::SouthAmerica => "south america",
            Continent::MiddleAmerica => "central america",
        }
    }

    /// Reads a continent from its name, in any case; the name `as_str` gives reads back as
    /// the continent.
    pub fn from_name(name: &str) -> (r: Result<Continent, CoreError>)
        ensures
            match continent_of_name(lowercase(name@)) {
                Some(c) => r == Ok::<Continent, CoreError>(c),
                None => r == Err::<Continent, CoreError>(CoreError::UnprocessableEntity),
            },
            forall|c: Continent| #[trigger] continent_name(c) == name@ ==> r == Ok::<Continent, CoreError>(c),
    {
        proof {
            reveal_strlit("asia");
            reveal_strlit("europe");
            reveal_strlit("australia");
            reveal_strlit("africa");
            reveal_strlit("north america");
            reveal_strlit("south america");
            reveal_strlit("central america");
            reveal_with_fuel(case_fixed_from, 16);
            lemma_case_fixed_from("asia"@, 0);
            lemma_case_fixed_from("europe"@, 0);
            lemma_case_fixed_from("australia"@, 0);
            lemma_case_fixed_from("africa"@, 0);
            lemma_case_fixed_from("north america"@, 0);
            lemma_case_fixed_from("south america"@, 0);
            lemma_case_fixed_from("central america"@, 0);
            law_continent_name_roundtrip(Continent::Asia);
            law_continent_name_roundtrip(Continent::Europe);
            law_continent_name_roundtrip(Continent::AustraliaAndOceania);
            law_continent_name_roundtrip(Continent::Africa);
            law_continent_name_roundtrip(Continent::NorthAmerica);
            law_continent_name_roundtrip(Continent::SouthAmerica);
            law_continent_name_roundtrip(Continent::MiddleAmerica);
        }
        let lower = to_lowercase(name);
        let l = lower.as_str();
        if str_eq(l, "asia") {
            Ok(Continent::Asia)
        } else if str_eq(l, "europe") {
            Ok(Continent::Europe)
        } else if str_eq(l, "australia") {
            Ok(Continent::AustraliaAndOceania)
        } else if str_eq(l, "africa") {
            Ok(Continent::Africa)
        } else if str_eq(l, "north america") {
            Ok(Continent::NorthAmerica)
        } else if str_eq(l, "south america") {
            Ok(Continent::SouthAmerica)
        } else if str_eq(l, "central america") {
            Ok(Continent::MiddleAmerica)
        } else {
            Err(CoreError::UnprocessableEntity)
        }
    }
}

/// Law: reading a continent's name gives the continent back.
pub proof fn law_continent_name_roundtrip(c: Continent)
    ensures
        continent_of_name(continent_name(c)) == Some(c),
{
    reveal_strlit("asia");
    reveal_strlit("europe");
    reveal_strlit("australia");
    reveal_strlit("africa");
    reveal_strlit("north america");
    reveal_strlit("south america");
    reveal_strlit("central america");
    assert("asia"@[0] != "europe"@[0] && "asia"@[1] != "australia"@[1] && "asia"@[1] != "africa"@[1]);
    assert("europe"@[0] != "australia"@[0] && "europe"@[0] != "africa"@[0]);
    assert("australia"@[1] != "africa"@[1]);
    assert("north america"@[0] != "asia"@[0] && "north america"@[0] != "europe"@[0]
        && "north america"@[0] != "australia"@[0] && "north america"@[0] != "africa"@[0]);
    assert("south america"@[0] != "asia"@[0] && "south america"@[0] != "europe"@[0]
        && "south america"@[0] != "australia"@[0] && "south america"@[0] != "africa"@[0]
        && "south america"@[0] != "north america"@[0]);
    assert("central america"@[0] != "asia"@[0] && "central america"@[0] != "europe"@[0]
        && "central america"@[0] != "australia"@[0] && "central america"@[0] != "africa"@[0]
        && "central america"@[0] != "north america"@[0] && "central america"@[0] != "south america"@[0]);
}

/// The nation ranking's query parameters.
#[derive(Debug)]
pub struct NationalityRankingPagination {
    pub list: Option<List>,
    pub continent: Option<Continent>,
    pub name_contains: Option<String>,
}

pub const DEMONLIST_NATION_RANKING: &'static str = "SELECT rank, score, nation, iso_country_code FROM ranked_nations WHERE rank IS NOT NULL AND (STRPOS(nation, $1::CITEXT) > 0 OR $1 is NULL) AND (continent::text = $2 OR $2 IS NULL)";

pub const RATED_PLUS_NATION_RANKING: &'static str = "SELECT unrated_rank as rank, unrated_score as score, nation, iso_country_code FROM ranked_nations WHERE unrated_rank IS NOT NULL AND (STRPOS(nation, $1::CITEXT) > 0 OR $1 is NULL) AND (continent::text = $2 OR $2 IS NULL)";

impl NationalityRankingPagination {
    /// The list the ranking is for; the demonlist unless another is asked for.
    pub fn ranked_list(&self) -> (r: List)
        ensures
            r == (match self.list {
                Some(l) => l,
                None => List::Demonlist,
            }),
    {
        match self.list {
            Some(l) => l,
            None => List::Demonlist,
        }
    }

    /// The query that ranks the nations on the asked for list.
    pub fn query(&self) -> (r: &'static str)
        ensures
            r == (match self.list {
                Some(List::RatedPlus) => RATED_PLUS_NATION_RANKING,
                _ => DEMONLIST_NATION_RANKING,
            }),
    {
        match self.ranked_list() {
            List::Demonlist => DEMONLIST_NATION_RANKING,
            List::RatedPlus => RATED_PLUS_NATION_RANKING,
        }
    }

    /// The continent filter in the database's spelling.
    pub fn continent_filter(&self) -> (r: Option<String>)
        ensures
            match self.continent {
                Some(c) => r matches Some(s) && s@ == continent_sql_name(c),
                None => r is None,
            },
    {
        match &self.continent {
            Some(c) => Some(c.to_sql()),
            None => None,
        }
    }
}

/// A nation's best record on a demon, with every player of the nation who holds it.
#[derive(Debug, Hash)]
pub struct BestRecord {
    pub id: i32,
    pub demon: String,
    pub position: i16,
    pub progress: i16,
    pub players: Vec<String>,
}

/// A demon that a player of the nation verified or published.
#[derive(Debug, Hash)]
pub struct MiniDemon {
    pub id: i32,
    pub demon: String,
    pub position: i16,
    pub player: String,
}

/// A demon that players of the nation created, with those players.
#[derive(Debug, Hash)]
pub struct MiniDemonWithPlayers {
    pub id: i32,
    pub demon: String,
    pub position: i16,
    pub players: Vec<String>,
}

/// What the stats viewer shows for a nation.
#[derive(Debug, Hash)]
pub struct NationalityRecord {
    pub nation: Nationality,
    pub best_records: Vec<BestRecord>,
    pub created: Vec<MiniDemonWithPlayers>,
    pub verified: Vec<MiniDemon>,
    pub published: Vec<MiniDemon>,
    pub unbeaten: Vec<MinimalDemon>,
}

/// A row of a nation's best records: one player holding the best record on a demon.
#[derive(Debug)]
pub struct BestRecordRow {
    pub progress: i16,
    pub demon_id: i32,
    pub demon_name: String,
    pub position: i16,
    pub player_name: String,
}

/// A row of a nation's creations: one player who created a demon.
#[derive(Debug)]
pub struct CreationRow {
    pub demon_id: i32,
    pub demon_name: String,
    pub position: i16,
    pub player_name: String,
}

/// A group of rows on one demon: the demon's id, name, position and progress (0 where
/// there is none), and the players of the rows.
pub struct DemonGroup {
    pub id: i32,
    pub demon: Seq<char>,
    pub position: i16,
    pub progress: i16,
    pub players: Seq<Seq<char>>,
}

/// A row as the grouping reads it: the demon's id, name, position and progress, and the
/// player's name.
pub struct GroupRow {
    pub id: i32,
    pub demon: Seq<char>,
    pub position: i16,
    pub progress: i16,
    pub player: Seq<char>,
}

/// Rows in order, with each run of consecutive rows on a demon of the same name made into
/// one group that lists the run's players in order; a group takes the id, position and
/// progress of its first row.
pub open spec fn group_rows(rows: Seq<GroupRow>) -> Seq<DemonGroup>
    decreases rows.len(),
{
    if rows.len() == 0 {
        Seq::empty()
    } else {
        let g = group_rows(rows.drop_last());
        let r = rows.last();
        if g.len() > 0 && g.last().demon == r.demon {
            g.update(
                g.len() - 1,
                DemonGroup { players: g.last().players.push(r.player), ..g.last() },
            )
        } else {
            g.push(DemonGroup { id: r.id, demon: r.demon, position: r.position, progress: r.progress, players: seq![r.player] })
        }
    }
}

/// The players of all groups, in order.
pub open spec fn all_players(groups: Seq<DemonGroup>) -> Seq<Seq<char>>
    decreases groups.len(),
{
    if groups.len() == 0 {
        Seq::empty()
    } else {
        all_players(groups.drop_last()) + groups.last().players
    }
}

pub open spec fn best_row_view(r: BestRecordRow) -> GroupRow {
    GroupRow { id: r.demon_id, demon: r.demon_name@, position: r.position, progress: r.progress, player: r.player_name@ }
}

pub open spec fn creation_row_view(r: CreationRow) -> GroupRow {
    GroupRow { id: r.demon_id, demon: r.demon_name@, position: r.position, progress: 0, player: r.player_name@ }
}

pub open spec fn best_record_view(b: BestRecord) -> DemonGroup {
    DemonGroup {
        id: b.id,
        demon: b.demon@,
        position: b.position,
        progress: b.progress,
        players: b.players@.map_values(|p: String| p@),
    }
}

pub open spec fn creation_view(m: MiniDemonWithPlayers) -> DemonGroup {
    DemonGroup {
        id: m.id,
        demon: m.demon@,
        position: m.position,
        progress: 0,
        players: m.players@.map_values(|p: String| p@),
    }
}

/// Groups a nation's best-record rows into one best record per demon (runs of rows on a
/// demon of the same name).
pub fn group_best_records(rows: &Vec<BestRecordRow>) -> (r: Vec<BestRecord>)
    ensures
        r@.map_values(|b: BestRecord| best_record_view(b)) == group_rows(
            rows@.map_values(|x: BestRecordRow| best_row_view(x)),
        ),
{
    let ghost rv = rows@.map_values(|x: BestRecordRow| best_row_view(x));
    let mut out: Vec<BestRecord> = Vec::new();
    let mut i: usize = 0;
    while i < rows.len()
        invariant
            i <= rows@.len(),
            rv == rows@.map_values(|x: BestRecordRow| best_row_view(x)),
            out@.map_values(|b: BestRecord| best_record_view(b)) == group_rows(rv.take(i as int)),
        decreases rows@.len() - i,
    {
        let row = &rows[i];
        let ghost prev = group_rows(rv.take(i as int));
        assert(rv.take(i + 1).drop_last() =~= rv.take(i as int));
        assert(rv.take(i + 1).last() == best_row_view(rows@[i as int]));
        let n = out.len();
        let same = n > 0 && out[n - 1].demon == row.demon_name;
        if same {
            let mut g = out.pop().unwrap();
            assert(best_record_view(g) == prev.last());
            g.players.push(row.player_name.clone());
            assert(g.players@.map_values(|p: String| p@) =~= prev.last().players.push(row.player_name@));
            out.push(g);
            assert(out@.map_values(|b: BestRecord| best_record_view(b)) =~= prev.update(
                prev.len() - 1,
                DemonGroup { players: prev.last().players.push(row.player_name@), ..prev.last() },
            ));
        } else {
            let mut players: Vec<String> = Vec::new();
            players.push(row.player_name.clone());
            assert(players@.map_values(|p: String| p@) =~= seq![row.player_name@]);
            out.push(
                BestRecord {
                    id: row.demon_id,
                    demon: row.demon_name.clone(),
                    position: row.position,
                    progress: row.progress,
                    players,
                },
            );
            assert(out@.map_values(|b: BestRecord| best_record_view(b)) =~= prev.push(
                DemonGroup {
                    id: row.demon_id,
                    demon: row.demon_name@,
                    position: row.position,
                    progress: row.progress,
                    players: seq![row.player_name@],
                },
            ));
        }
        i = i + 1;
    }
    assert(rv.take(rows@.len() as int) =~= rv);
    out
}

/// Groups a nation's creation rows into one entry per created demon (runs of rows on a
/// demon of the same name).
pub fn group_creations(rows: &Vec<CreationRow>) -> (r: Vec<MiniDemonWithPlayers>)
    ensures
        r@.map_values(|m: MiniDemonWithPlayers| creation_view(m)) == group_rows(
            rows@.map_values(|x: CreationRow| creation_row_view(x)),
        ),
{
    let ghost rv = rows@.map_values(|x: CreationRow| creation_row_view(x));
    let mut out: Vec<MiniDemonWithPlayers> = Vec::new();
    let mut i: usize = 0;
    while i < rows.len()
        invariant
            i <= rows@.len(),
            rv == rows@.map_values(|x: CreationRow| creation_row_view(x)),
            out@.map_values(|m: MiniDemonWithPlayers| creation_view(m)) == group_rows(rv.take(i as int)),
        decreases rows@.len() - i,
    {
        let row = &rows[i];
        let ghost prev = group_rows(rv.take(i as int));
        assert(rv.take(i + 1).drop_last() =~= rv.take(i as int));
        assert(rv.take(i + 1).last() == creation_row_view(rows@[i as int]));
        let n = out.len();
        let same = n > 0 && out[n - 1].demon == row.demon_name;
        if same {
            let mut g = out.pop().unwrap();
            assert(creation_view(g) == prev.last());
            g.players.push(row.player_name.clone());
            assert(g.players@.map_values(|p: String| p@) =~= prev.last().players.push(row.player_name@));
            out.push(g);
            assert(out@.map_values(|m: MiniDemonWithPlayers| creation_view(m)) =~= prev.update(
                prev.len() - 1,
                DemonGroup { players: prev.last().players.push(row.player_name@), ..prev.last() },
            ));
        } else {
            let mut players: Vec<String> = Vec::new();
            players.push(row.player_name.clone());
            assert(players@.map_values(|p: String| p@) =~= seq![row.player_name@]);
            out.push(
                MiniDemonWithPlayers {
                    id: row.demon_id,
                    demon: row.demon_name.clone(),
                    position: row.position,
                    players,
                },
            );
            assert(out@.map_values(|m: MiniDemonWithPlayers| creation_view(m)) =~= prev.push(
                DemonGroup {
                    id: row.demon_id,
                    demon: row.demon_name@,
                    position: row.position,
                    progress: 0,
                    players: seq![row.player_name@],
                },
            ));
        }
        i = i + 1;
    }
    assert(rv.take(rows@.len() as int) =~= rv);
    out
}

/// Law: grouping loses and reorders no player: the groups' players, in order, are the
/// rows' players; and no two neighbouring groups are on demons of the same name.
pub proof fn law_grouping_keeps_players(rows: Seq<GroupRow>)
    ensures
        all_players(group_rows(rows)) == rows.map_values(|r: GroupRow| r.player),
        forall|i: int|
            0 <= i < group_rows(rows).len() - 1 ==> #[trigger] group_rows(rows)[i].demon != group_rows(
                rows,
            )[i + 1].demon,
        group_rows(rows).len() <= rows.len(),
    decreases rows.len(),
{
    if rows.len() > 0 {
        let prefix = rows.drop_last();
        law_grouping_keeps_players(prefix);
        let g = group_rows(prefix);
        let r = rows.last();
        assert(rows.map_values(|r: GroupRow| r.player) =~= prefix.map_values(|r: GroupRow| r.player).push(r.player));
        if g.len() > 0 && g.last().demon == r.demon {
            let g2 = g.update(g.len() - 1, DemonGroup { players: g.last().players.push(r.player), ..g.last() });
            assert(g2.drop_last() =~= g.drop_last());
            assert(all_players(g2) == all_players(g.drop_last()) + g.last().players.push(r.player));
            assert(all_players(g2) =~= all_players(g).push(r.player));
            assert forall|i: int| 0 <= i < g2.len() - 1 implies #[trigger] g2[i].demon != g2[i + 1].demon by {
                assert(g[i].demon != g[i + 1].demon);
            }
        } else {
            let g2 = g.push(DemonGroup { id: r.id, demon: r.demon, position: r.position, progress: r.progress, players: seq![r.player] });
            assert(g2.drop_last() =~= g);
            assert(all_players(g2) =~= all_players(g).push(r.player));
            assert forall|i: int| 0 <= i < g2.len() - 1 implies #[trigger] g2[i].demon != g2[i + 1].demon by {
                if i < g.len() - 1 {
                    assert(g[i].demon != g[i + 1].demon);
                }
            }
        }
    }
}

} // verus!
