//! The decisions behind the list's pages: which account tabs a user sees, the time
//! machine, the record submitter, the sections of the list and what a demon's page shows.
use crate::config::ListConfig;
use crate::demon::{Demon, TimeShiftedDemon};
use crate::nationality::Nationality;
use crate::permissions::{grants, has_permission, list_helper, list_moderator, LIST_HELPER_BIT, LIST_MODERATOR_BIT};
use crate::player::DatabasePlayer;
use crate::record::MinimalRecordD;
use crate::text::{concat, decimal, decimal_string, owned};
use vstd::prelude::*;

verus! {

/// A point in time as the time machine travels to it: microseconds since the Unix epoch,
/// and the offset from UTC (in seconds) it is shown in.
#[derive(Debug, Clone, Copy, PartialEq, Eq, Structural)]
pub struct Destination {
    pub timestamp_micros: i64,
    pub utc_offset_seconds: i32,
}

// ---------------------------------------------------------------------------------------
// Account tabs

/// The tab to manage demons.
#[derive(Debug, Clone, Copy)]
pub struct DemonsTab;

/// The tab to link a user's account to a player.
#[derive(Debug, Clone, Copy)]
pub struct ListIntegrationTab(pub &'static str);

/// The tab to manage players.
#[derive(Debug, Clone, Copy)]
pub struct PlayersPage;

/// The tab to manage records.
#[derive(Debug, Clone, Copy)]
pub struct RecordsPage;

/// The tab to manage submitters.
#[derive(Debug, Clone, Copy)]
pub struct SubmittersPage;

impl DemonsTab {
    /// List moderators see it.
    pub fn should_display_for(&self, permissions_we_have: u16) -> (r: bool)
        ensures
            r == grants(permissions_we_have, LIST_MODERATOR_BIT),
    {
        has_permission(permissions_we_have, list_moderator())
    }

    pub fn initialization_script(&self) -> (r: String)
        ensures
            r@ == "/static/demonlist/js/account/demon.js"@,
    {
        owned("/static/demonlist/js/account/demon.js")
    }

    pub fn tab_id(&self) -> (r: u8)
        ensures
            r == 5,
    {
        5
    }
}

impl ListIntegrationTab {
    /// Every user sees it.
    pub fn should_display_for(&self, permissions_we_have: u16) -> (r: bool)
        ensures
            r,
    {
        true
    }

    pub fn initialization_script(&self) -> (r: String)
        ensures
            r@ == "/static/demonlist/js/account/integration.js"@,
    {
        owned("/static/demonlist/js/account/integration.js")
    }

    pub fn tab_id(&self) -> (r: u8)
        ensures
            r == 7,
    {
        7
    }
}

impl PlayersPage {
    /// List moderators see it.
    pub fn should_display_for(&self, permissions_we_have: u16) -> (r: bool)
        ensures
            r == grants(permissions_we_have, LIST_MODERATOR_BIT),
    {
        has_permission(permissions_we_have, list_moderator())
    }

    pub fn initialization_script(&self) -> (r: String)
        ensures
            r@ == "/static/demonlist/js/account/player.js"@,
    {
        owned("/static/demonlist/js/account/player.js")
    }

    pub fn tab_id(&self) -> (r: u8)
        ensures
            r == 4,
    {
        4
    }
}

impl RecordsPage {
    /// List helpers see it.
    pub fn should_display_for(&self, permissions_we_have: u16) -> (r: bool)
        ensures
            r == grants(permissions_we_have, LIST_HELPER_BIT),
    {
        has_permission(permissions_we_have, list_helper())
    }

    pub fn initialization_script(&self) -> (r: String)
        ensures
            r@ == "/static/demonlist/js/account/records.js"@,
    {
        owned("/static/demonlist/js/account/records.js")
    }

    pub fn tab_id(&self) -> (r: u8)
        ensures
            r == 3,
    {
        3
    }
}

impl SubmittersPage {
    /// List moderators see it.
    pub fn should_display_for(&self, permissions_we_have: u16) -> (r: bool)
        ensures
            r == grants(permissions_we_have, LIST_MODERATOR_BIT),
    {
        has_permission(permissions_we_have, list_moderator())
    }

    pub fn initialization_script(&self) -> (r: String)
        ensures
            r@ == "/static/demonlist/js/account/submitter.js"@,
    {
        owned("/static/demonlist/js/account/submitter.js")
    }

    pub fn tab_id(&self) -> (r: u8)
        ensures
            r == 6,
    {
        6
    }
}

// ---------------------------------------------------------------------------------------
// The time machine

/// The time machine, which shows the list as it was at some earlier time.
pub enum Tardis {
    Activated {
        destination: Destination,
        demons: Vec<TimeShiftedDemon>,
        /// Whether the time selection panel is visible.
        show_selector: bool,
        /// Whether the panel that names the destination is visible.
        show_destination: bool,
    },
    Deactivated {
        /// Whether the time selection panel is visible.
        show_selector: bool,
    },
}

impl Tardis {
    pub open spec fn selector_shown(self) -> bool {
        match self {
            Tardis::Activated { show_selector, .. } => show_selector,
            Tardis::Deactivated { show_selector } => show_selector,
        }
    }

    pub fn new(visible: bool) -> (r: Tardis)
        ensures
            r matches Tardis::Deactivated { show_selector } && show_selector == visible,
    {
        Tardis::Deactivated { show_selector: visible }
    }

    /// Travels to `destination`, where the list held `demons_then`. Whether the time
    /// selection panel is visible does not change.
    pub fn activate(&mut self, destination: Destination, demons_then: Vec<TimeShiftedDemon>, show_destination: bool)
        ensures
            *final(self) matches Tardis::Activated { destination: d, demons, show_selector, show_destination: s }
                && d == destination && demons == demons_then && s == show_destination && show_selector
                == old(self).selector_shown(),
    {
        let visible = self.visible();
        *self = Tardis::Activated { show_selector: visible, demons: demons_then, destination, show_destination };
    }

    pub fn visible(&self) -> (r: bool)
        ensures
            r == self.selector_shown(),
    {
        match self {
            Tardis::Activated { show_selector, .. } => *show_selector,
            Tardis::Deactivated { show_selector } => *show_selector,
        }
    }
}

// ---------------------------------------------------------------------------------------
// The record submitter

/// The record submission form.
pub struct RecordSubmitter<'d, 'p> {
    pub initially_visible: bool,
    pub demons: &'d [Demon],
    /// Position of the demon to preselect.
    pub initial_demon: Option<i16>,
    /// Player to preselect as the record holder.
    pub initial_holder: Option<&'p DatabasePlayer>,
}

impl<'d, 'p> RecordSubmitter<'d, 'p> {
    pub fn new(visible: bool, demons: &'d [Demon], holder: Option<&'p DatabasePlayer>, demon: Option<i16>) -> (r: RecordSubmitter<'d, 'p>)
        ensures
            r.initially_visible == visible,
            r.demons == demons,
            r.initial_holder == holder,
            r.initial_demon == demon,
    {
        RecordSubmitter { initially_visible: visible, demons, initial_demon: demon, initial_holder: holder }
    }

    /// The demons records can be submitted for: those on the main and the extended list,
    /// in order.
    pub fn selectable_demons(&self, config: &ListConfig) -> (r: Vec<&'d Demon>)
        ensures
            r@.map_values(|d: &Demon| *d) == self.demons@.filter(|d: Demon| d.base.position <= config.extended_list_size),
    {
        let demons = self.demons;
        let mut out: Vec<&'d Demon> = Vec::new();
        let mut i: usize = 0;
        while i < demons.len()
            invariant
                i <= demons@.len(),
                demons == self.demons,
                out@.map_values(|d: &Demon| *d) == demons@.take(i as int).filter(
                    |d: Demon| d.base.position <= config.extended_list_size,
                ),
            decreases demons@.len() - i,
        {
            let d = &demons[i];
            assert(demons@.take(i + 1).drop_last() =~= demons@.take(i as int));
            reveal_with_fuel(Seq::filter, 1);
            if d.base.position <= config.extended_list_size {
                out.push(d);
            }
            assert(out@.map_values(|d: &Demon| *d) =~= demons@.take(i + 1).filter(
                |d: Demon| d.base.position <= config.extended_list_size,
            ));
            i = i + 1;
        }
        assert(demons@.take(demons@.len() as int) =~= demons@);
        out
    }
}

/// The page with nothing but the record submission form.
#[derive(Debug)]
pub struct SubmitRecordPage {
    pub initial_holder: Option<DatabasePlayer>,
    /// Position of the demon initially selected.
    pub initial_demon: Option<usize>,
    pub demons: Vec<Demon>,
}

/// The individual stats viewer, with the nations that players belong to.
#[derive(Debug)]
pub struct IndividualStatsViewer {
    pub nationalities_in_use: Vec<Nationality>,
}

// ---------------------------------------------------------------------------------------
// The sections of the list

/// Where the main list of `n` demons ends and where the extended list ends: positions
/// below the first bound form the main list, those up to the second the extended list,
/// and the rest the legacy list. A short list fills the main list first.
pub open spec fn section_bounds(n: int, config: ListConfig) -> (int, int) {
    if n < config.list_size {
        (n, n)
    } else if n < config.extended_list_size {
        (config.list_size as int, n)
    } else {
        (config.list_size as int, config.extended_list_size as int)
    }
}

/// Splits a list of `n` demons into its main, extended and legacy sections.
pub fn list_sections(n: usize, config: &ListConfig) -> (r: (usize, usize))
    requires
        config.wf(),
    ensures
        r.0 == section_bounds(n as int, *config).0,
        r.1 == section_bounds(n as int, *config).1,
        r.0 <= r.1 <= n,
{
    let list_size = config.list_size as usize;
    let extended_size = config.extended_list_size as usize;
    if n < list_size {
        (n, n)
    } else if n < extended_size {
        (list_size, n)
    } else {
        (list_size, extended_size)
    }
}

// ---------------------------------------------------------------------------------------
// The overview

/// The demons the overview shows a panel for, with their position today when the time
/// machine is active: the demons of the main and the extended list (as they stood at the
/// destination, when travelling), in order.
pub open spec fn overview_panels_of(
    tardis: Tardis,
    demonlist: Seq<Demon>,
    config: ListConfig,
) -> Seq<(Demon, Option<i16>)> {
    match tardis {
        Tardis::Activated { demons, .. } => demons@.filter(
            |d: TimeShiftedDemon| d.current_demon.base.position <= config.extended_list_size,
        ).map_values(|d: TimeShiftedDemon| (d.current_demon, Some(d.position_now))),
        Tardis::Deactivated { .. } => demonlist.filter(
            |d: Demon| d.base.position <= config.extended_list_size,
        ).map_values(|d: Demon| (d, None::<i16>)),
    }
}

pub fn overview_panels<'a>(tardis: &'a Tardis, demonlist: &'a Vec<Demon>, config: &ListConfig) -> (r: Vec<(&'a Demon, Option<i16>)>)
    ensures
        r@.map_values(|p: (&Demon, Option<i16>)| (*p.0, p.1)) == overview_panels_of(*tardis, demonlist@, *config),
{
    let mut out: Vec<(&'a Demon, Option<i16>)> = Vec::new();
    match tardis {
        Tardis::Activated { demons, .. } => {
            let ghost keep = |d: TimeShiftedDemon| d.current_demon.base.position <= config.extended_list_size;
            let ghost shown = |d: TimeShiftedDemon| (d.current_demon, Some(d.position_now));
            let mut i: usize = 0;
            while i < demons.len()
                invariant
                    i <= demons@.len(),
                    keep == (|d: TimeShiftedDemon| d.current_demon.base.position <= config.extended_list_size),
                    shown == (|d: TimeShiftedDemon| (d.current_demon, Some(d.position_now))),
                    out@.map_values(|p: (&Demon, Option<i16>)| (*p.0, p.1)) == demons@.take(i as int).filter(keep).map_values(shown),
                decreases demons@.len() - i,
            {
                let d = &demons[i];
                let ghost before = demons@.take(i as int).filter(keep);
                let ghost prev = out@;
                proof {
                    assert(demons@.take(i + 1).drop_last() =~= demons@.take(i as int));
                    assert(demons@.take(i + 1).last() == demons@[i as int]);
                    reveal_with_fuel(Seq::filter, 1);
                }
                if d.current_demon.base.position <= config.extended_list_size {
                    out.push((&d.current_demon, Some(d.position_now)));
                    proof {
                        assert(demons@.take(i + 1).filter(keep) == before.push(demons@[i as int]));
                        assert(before.push(demons@[i as int]).map_values(shown) =~= before.map_values(shown).push(
                            shown(demons@[i as int]),
                        ));
                        assert(out@.map_values(|p: (&Demon, Option<i16>)| (*p.0, p.1)) =~= prev.map_values(
                            |p: (&Demon, Option<i16>)| (*p.0, p.1),
                        ).push((d.current_demon, Some(d.position_now))));
                    }
                } else {
                    assert(demons@.take(i + 1).filter(keep) == before);
                }
                i = i + 1;
            }
            assert(demons@.take(demons@.len() as int) =~= demons@);
        },
        Tardis::Deactivated { .. } => {
            let ghost keep = |d: Demon| d.base.position <= config.extended_list_size;
            let ghost shown = |d: Demon| (d, None::<i16>);
            let mut i: usize = 0;
            while i < demonlist.len()
                invariant
                    i <= demonlist@.len(),
                    keep == (|d: Demon| d.base.position <= config.extended_list_size),
                    shown == (|d: Demon| (d, None::<i16>)),
                    out@.map_values(|p: (&Demon, Option<i16>)| (*p.0, p.1)) == demonlist@.take(i as int).filter(keep).map_values(shown),
                decreases demonlist@.len() - i,
            {
                let d = &demonlist[i];
                let ghost before = demonlist@.take(i as int).filter(keep);
                let ghost prev = out@;
                proof {
                    assert(demonlist@.take(i + 1).drop_last() =~= demonlist@.take(i as int));
                    assert(demonlist@.take(i + 1).last() == demonlist@[i as int]);
                    reveal_with_fuel(Seq::filter, 1);
                }
                if d.base.position <= config.extended_list_size {
                    out.push((d, None));
                    proof {
                        assert(demonlist@.take(i + 1).filter(keep) == before.push(demonlist@[i as int]));
                        assert(before.push(demonlist@[i as int]).map_values(shown) =~= before.map_values(shown).push(
                            shown(demonlist@[i as int]),
                        ));
                        assert(out@.map_values(|p: (&Demon, Option<i16>)| (*p.0, p.1)) =~= prev.map_values(
                            |p: (&Demon, Option<i16>)| (*p.0, p.1),
                        ).push((*d, None::<i16>)));
                    }
                } else {
                    assert(demonlist@.take(i + 1).filter(keep) == before);
                }
                i = i + 1;
            }
            assert(demonlist@.take(demonlist@.len() as int) =~= demonlist@);
        },
    }
    out
}

/// Where a demon that the time machine shows stands today.
#[derive(Debug, PartialEq, Eq, Structural, Clone, Copy)]
pub enum Standing {
    /// Past the extended list.
    Legacy,
    At(i16),
}

pub fn standing_today(position_now: i16, config: &ListConfig) -> (r: Standing)
    ensures
        r == (if position_now > config.extended_list_size {
            Standing::Legacy
        } else {
            Standing::At(position_now)
        }),
{
    if position_now > config.extended_list_size {
        Standing::Legacy
    } else {
        Standing::At(position_now)
    }
}

// ---------------------------------------------------------------------------------------
// A demon's page

/// The chart of a demon's positions labels movements by year alone when there are more
/// than 30 of them, and by month otherwise.
pub fn year_only_labels(movements: usize) -> (r: bool)
    ensures
        r == (movements > 30),
{
    movements > 30
}

/// The label under each movement of the chart, from the date label each movement would
/// get: a label equal to the one before it is left empty, and the first reads
/// "Added (...)".
pub open spec fn chart_label(dates: Seq<Seq<char>>, i: int) -> Seq<char> {
    if i == 0 {
        "Added ("@ + dates[0] + ")"@
    } else if dates[i] == dates[i - 1] {
        Seq::empty()
    } else {
        dates[i]
    }
}

pub fn chart_labels(dates: &Vec<String>) -> (r: Vec<String>)
    ensures
        r@.len() == dates@.len(),
        forall|i: int| 0 <= i < dates@.len() ==> #[trigger] r@[i]@ == chart_label(dates@.map_values(|s: String| s@), i),
{
    let ghost dv = dates@.map_values(|s: String| s@);
    let mut out: Vec<String> = Vec::new();
    let mut i: usize = 0;
    while i < dates.len()
        invariant
            i <= dates@.len(),
            dv == dates@.map_values(|s: String| s@),
            out@.len() == i,
            forall|k: int| 0 <= k < i ==> #[trigger] out@[k]@ == chart_label(dv, k),
        decreases dates@.len() - i,
    {
        let label = if i == 0 {
            let l = concat("Added (", dates[0].as_str());
            concat(l.as_str(), ")")
        } else if dates[i] == dates[i - 1] {
            String::new()
        } else {
            dates[i].clone()
        };
        out.push(label);
        i = i + 1;
    }
    out
}

/// Whether two players are the same, field by field.
pub open spec fn same_player(a: DatabasePlayer, b: DatabasePlayer) -> bool {
    a.id == b.id && a.name@ == b.name@ && a.banned == b.banned
}

fn players_equal(a: &DatabasePlayer, b: &DatabasePlayer) -> (r: bool)
    ensures
        r == same_player(*a, *b),
{
    a.id == b.id && a.name == b.name && a.banned == b.banned
}

/// How a demon's headline credits its creators, verifier and publisher.
#[derive(Debug, PartialEq, Eq, Structural, Clone, Copy)]
pub enum Headline {
    /// No creators are known; `same` tells whether verifier and publisher are one player.
    NoCreators { same: bool },
    /// A single creator who also verified and published the demon.
    ByCreator,
    /// A single creator who neither verified nor published it.
    OneCreator { same: bool },
    /// A single creator who published but did not verify it.
    OneCreatorIsPublisher,
    /// A single creator who verified but did not publish it.
    OneCreatorIsVerifier,
    TwoCreators { same: bool },
    /// More than two creators: the first is named, the rest are listed on hover.
    MoreCreators { same: bool },
}

pub open spec fn headline_of(creators: Seq<DatabasePlayer>, publisher: DatabasePlayer, verifier: DatabasePlayer) -> Headline {
    let same = same_player(publisher, verifier);
    if creators.len() == 0 {
        Headline::NoCreators { same }
    } else if creators.len() == 1 {
        let c = creators[0];
        if same_player(c, publisher) && same_player(c, verifier) {
            Headline::ByCreator
        } else if !same_player(c, publisher) && !same_player(c, verifier) {
            Headline::OneCreator { same }
        } else if same_player(c, publisher) {
            Headline::OneCreatorIsPublisher
        } else {
            Headline::OneCreatorIsVerifier
        }
    } else if creators.len() == 2 {
        Headline::TwoCreators { same }
    } else {
        Headline::MoreCreators { same }
    }
}

pub fn headline(creators: &Vec<DatabasePlayer>, publisher: &DatabasePlayer, verifier: &DatabasePlayer) -> (r: Headline)
    ensures
        r == headline_of(creators@, *publisher, *verifier),
{
    let same = players_equal(publisher, verifier);
    let n = creators.len();
    if n == 0 {
        Headline::NoCreators { same }
    } else if n == 1 {
        let c = &creators[0];
        let is_publisher = players_equal(c, publisher);
        let is_verifier = players_equal(c, verifier);
        if is_publisher && is_verifier {
            Headline::ByCreator
        } else if !is_publisher && !is_verifier {
            Headline::OneCreator { same }
        } else if is_publisher {
            Headline::OneCreatorIsPublisher
        } else {
            Headline::OneCreatorIsVerifier
        }
    } else if n == 2 {
        Headline::TwoCreators { same }
    } else {
        Headline::MoreCreators { same }
    }
}

/// Links to the neighbouring demons: a previous one unless at position 1, a next one
/// unless at the end of a list of `list_len` demons.
pub fn neighbour_links(position: i16, list_len: usize) -> (r: (bool, bool))
    ensures
        r.0 == (position != 1),
        r.1 == (position as int != list_len as int),
{
    let previous = position != 1;
    let next = if position < 0 {
        true
    } else {
        position as usize != list_len
    };
    (previous, next)
}

/// The percentage a record needs to appear on a demon's page: the requirement on the main
/// list, 100 on the extended list, and none on the legacy list.
pub fn qualifying_progress(position: i16, requirement: i16, config: &ListConfig) -> (r: Option<i16>)
    ensures
        r == (if position <= config.list_size {
            Some(requirement)
        } else if position <= config.extended_list_size {
            Some(100i16)
        } else {
            None
        }),
{
    if position <= config.list_size {
        Some(requirement)
    } else if position <= config.extended_list_size {
        Some(100)
    } else {
        None
    }
}

/// The records panel of a demon's page shows when there are records, or when the demon
/// is on the main or the extended list.
pub fn shows_records_panel(records: usize, position: i16, config: &ListConfig) -> (r: bool)
    ensures
        r == (records > 0 || position <= config.extended_list_size),
{
    records > 0 || position <= config.extended_list_size
}

pub open spec fn completions_p(records: Seq<crate::record::MinimalRecordP>) -> int
    decreases records.len(),
{
    if records.len() == 0 {
        0
    } else {
        completions_p(records.drop_last()) + if records.last().progress == 100 { 1int } else { 0int }
    }
}

/// How many of a demon's records are completions (100%).
pub fn count_completions(records: &Vec<crate::record::MinimalRecordP>) -> (r: usize)
    ensures
        r == completions_p(records@),
{
    let mut count: usize = 0;
    let mut i: usize = 0;
    while i < records.len()
        invariant
            i <= records@.len(),
            count == completions_p(records@.take(i as int)),
            count <= i,
        decreases records@.len() - i,
    {
        assert(records@.take(i + 1).drop_last() =~= records@.take(i as int));
        if records[i].progress == 100 {
            count = count + 1;
        }
        i = i + 1;
    }
    assert(records@.take(records@.len() as int) =~= records@);
    count
}

/// The progress the claimed player has on a demon, as the overview shows it: 100 on a
/// demon the player verified, else the progress of their first record on it, else 0.
pub open spec fn claimed_progress_of(verified: Seq<i32>, records: Seq<MinimalRecordD>, demon_id: i32) -> i16 {
    if verified.contains(demon_id) {
        100
    } else if exists|k: int| 0 <= k < records.len() && records[k].demon.id == demon_id {
        records[choose|k: int| 0 <= k < records.len() && records[k].demon.id == demon_id && forall|j: int|
            0 <= j < k ==> records[j].demon.id != demon_id].progress
    } else {
        0
    }
}

pub fn claimed_progress(verified: &Vec<i32>, records: &Vec<MinimalRecordD>, demon_id: i32) -> (r: i16)
    ensures
        r == claimed_progress_of(verified@, records@, demon_id),
{
    let mut i: usize = 0;
    while i < verified.len()
        invariant
            i <= verified@.len(),
            forall|k: int| 0 <= k < i ==> verified@[k] != demon_id,
        decreases verified@.len() - i,
    {
        if verified[i] == demon_id {
            assert(verified@.contains(demon_id));
            return 100;
        }
        i = i + 1;
    }
    let mut j: usize = 0;
    while j < records.len()
        invariant
            j <= records@.len(),
            !verified@.contains(demon_id),
            forall|k: int| 0 <= k < j ==> records@[k].demon.id != demon_id,
        decreases records@.len() - j,
    {
        if records[j].demon.id == demon_id {
            let ghost k = choose|k: int| 0 <= k < records@.len() && records@[k].demon.id == demon_id && forall|m: int|
                0 <= m < k ==> records@[m].demon.id != demon_id;
            assert(k == j as int) by {
                if k < j as int {
                } else if k > j as int {
                    assert(records@[j as int].demon.id == demon_id);
                }
            }
            return records[j].progress;
        }
        j = j + 1;
    }
    0
}

/// The title of a demon's page: its name, preceded by its position when it is on the main
/// or the extended list.
pub open spec fn demon_title(name: Seq<char>, position: i16, config: ListConfig) -> Seq<char> {
    let title = name + " - Geometry Dash Demonlist"@;
    if position <= config.extended_list_size {
        "#"@ + decimal(position as int) + " - "@ + title
    } else {
        title
    }
}

pub fn demon_page_title(demon: &Demon, config: &ListConfig) -> (r: String)
    ensures
        r@ == demon_title(demon.base.name@, demon.base.position, *config),
{
    let title = concat(demon.base.name.as_str(), " - Geometry Dash Demonlist");
    if demon.base.position <= config.extended_list_size {
        let position = decimal_string(demon.base.position as i32);
        let prefix = concat("#", position.as_str());
        let prefix = concat(prefix.as_str(), " - ");
        let r = concat(prefix.as_str(), title.as_str());
        assert(r@ =~= demon_title(demon.base.name@, demon.base.position, *config));
        r
    } else {
        title
    }
}

/// The description of a demon's page: its title and the level's description, if the
/// level's data gave one.
pub open spec fn demon_description(title: Seq<char>, description: Option<Seq<char>>) -> Seq<char> {
    title + ": "@ + match description {
        Some(d) => d,
        None => "<No Description Provided>"@,
    }
}

pub fn demon_page_description(title: &str, description: Option<&str>) -> (r: String)
    ensures
        r@ == demon_description(
            title@,
            match description {
                Some(d) => Some(d@),
                None => None,
            },
        ),
{
    let head = concat(title, ": ");
    match description {
        Some(d) => concat(head.as_str(), d),
        None => concat(head.as_str(), "<No Description Provided>"),
    }
}

/// Which score entries a demon's panel shows: the score for 100% on the main and the
/// extended list, and the score for the record requirement on the main list alone.
pub fn score_entries(position: i16, config: &ListConfig) -> (r: (bool, bool))
    ensures
        r.0 == (position <= config.extended_list_size),
        r.1 == (position <= config.list_size),
{
    (position <= config.extended_list_size, position <= config.list_size)
}

/// The labels of the position chart: one per movement, as `chart_labels` gives them, and
/// "Now" for the current position.
pub fn position_chart_labels(dates: &Vec<String>) -> (r: Vec<String>)
    ensures
        r@.len() == dates@.len() + 1,
        forall|i: int| 0 <= i < dates@.len() ==> #[trigger] r@[i]@ == chart_label(dates@.map_values(|s: String| s@), i),
        r@[dates@.len() as int]@ == "Now"@,
{
    let mut labels = chart_labels(dates);
    labels.push(owned("Now"));
    labels
}

/// The data of the position chart: the position each movement started from, then the
/// current position.
pub fn position_chart_data(from_positions: &Vec<i16>, current: i16) -> (r: Vec<i16>)
    ensures
        r@ == from_positions@.push(current),
{
    let mut data: Vec<i16> = Vec::new();
    let mut i: usize = 0;
    while i < from_positions.len()
        invariant
            i <= from_positions@.len(),
            data@ == from_positions@.take(i as int),
        decreases from_positions@.len() - i,
    {
        data.push(from_positions[i]);
        assert(data@ =~= from_positions@.take(i + 1));
        i = i + 1;
    }
    assert(from_positions@.take(from_positions@.len() as int) =~= from_positions@);
    data.push(current);
    data
}

/// Law: how a demon's headline credits its makers. Without creators it says whether one
/// player verified and published the demon. A single creator is credited as the one who
/// made, verified and published it, as a creator only, as creator and publisher, or as
/// creator and verifier, depending on which of the two others they are. Two creators and
/// more than two are told apart.
pub proof fn law_headline(creators: Seq<DatabasePlayer>, publisher: DatabasePlayer, verifier: DatabasePlayer)
    ensures
        creators.len() == 0 ==> headline_of(creators, publisher, verifier) == (Headline::NoCreators {
            same: publisher.id == verifier.id && publisher.name@ == verifier.name@ && publisher.banned == verifier.banned,
        }),
        creators.len() == 1 && same_player(creators[0], publisher) && same_player(creators[0], verifier) ==> headline_of(
            creators,
            publisher,
            verifier,
        ) == Headline::ByCreator,
        creators.len() == 1 && same_player(creators[0], publisher) && !same_player(creators[0], verifier) ==> headline_of(
            creators,
            publisher,
            verifier,
        ) == Headline::OneCreatorIsPublisher,
        creators.len() == 1 && !same_player(creators[0], publisher) && same_player(creators[0], verifier) ==> headline_of(
            creators,
            publisher,
            verifier,
        ) == Headline::OneCreatorIsVerifier,
        creators.len() == 1 && !same_player(creators[0], publisher) && !same_player(creators[0], verifier) ==> headline_of(
            creators,
            publisher,
            verifier,
        ) == (Headline::OneCreator { same: same_player(publisher, verifier) }),
        creators.len() == 2 ==> headline_of(creators, publisher, verifier) == (Headline::TwoCreators {
            same: same_player(publisher, verifier),
        }),
        creators.len() > 2 ==> headline_of(creators, publisher, verifier) == (Headline::MoreCreators {
            same: same_player(publisher, verifier),
        }),
{
}

/// Law: the list's sections: the main list holds the first `list_size` demons (all of a
/// shorter list), the extended list the demons up to `extended_list_size`, and the legacy
/// list the rest; the sections follow each other without gap or overlap.
pub proof fn law_list_sections(n: int, config: ListConfig)
    requires
        config.wf(),
        n >= 0,
    ensures
        section_bounds(n, config).0 == (if n < config.list_size { n } else { config.list_size as int }),
        section_bounds(n, config).1 == (if n < config.extended_list_size { n } else { config.extended_list_size as int }),
        0 <= section_bounds(n, config).0 <= section_bounds(n, config).1 <= n,
{
}

/// Law: the chart labels: the first movement is labelled "Added (<date>)", a movement on
/// the same date label as the one before it is left unlabelled, and any other carries its
/// date label.
pub proof fn law_chart_labels(dates: Seq<Seq<char>>, i: int)
    requires
        0 <= i < dates.len(),
    ensures
        i == 0 ==> chart_label(dates, i) == "Added ("@ + dates[0] + ")"@,
        i > 0 && dates[i] == dates[i - 1] ==> chart_label(dates, i).len() == 0,
        i > 0 && dates[i] != dates[i - 1] ==> chart_label(dates, i) == dates[i],
{
}

/// Law: the progress the overview shows for the claimed player on a demon: 100 when the
/// player verified it, else the progress of their first record on it, else 0.
pub proof fn law_claimed_progress(verified: Seq<i32>, records: Seq<MinimalRecordD>, demon_id: i32, k: int)
    ensures
        verified.contains(demon_id) ==> claimed_progress_of(verified, records, demon_id) == 100,
        !verified.contains(demon_id) && 0 <= k < records.len() && records[k].demon.id == demon_id && (forall|j: int|
            0 <= j < k ==> records[j].demon.id != demon_id) ==> claimed_progress_of(verified, records, demon_id)
            == records[k].progress,
        !verified.contains(demon_id) && (forall|j: int| 0 <= j < records.len() ==> records[j].demon.id != demon_id)
            ==> claimed_progress_of(verified, records, demon_id) == 0,
{
    if !verified.contains(demon_id) && 0 <= k < records.len() && records[k].demon.id == demon_id && (forall|j: int|
        0 <= j < k ==> records[j].demon.id != demon_id) {
        let c = choose|c: int| 0 <= c < records.len() && records[c].demon.id == demon_id && forall|j: int|
            0 <= j < c ==> records[j].demon.id != demon_id;
        assert(c == k) by {
            if c < k {
            } else if c > k {
                assert(records[k].demon.id == demon_id);
            }
        }
    }
}

/// Law: a demon page's title names the demon and the list, preceded by "#<position> - "
/// when the demon is on the main or the extended list.
pub proof fn law_demon_title(name: Seq<char>, position: i16, config: ListConfig)
    ensures
        position <= config.extended_list_size ==> demon_title(name, position, config) == "#"@ + decimal(position as int)
            + " - "@ + name + " - Geometry Dash Demonlist"@,
        position > config.extended_list_size ==> demon_title(name, position, config) == name
            + " - Geometry Dash Demonlist"@,
{
    assert("#"@ + decimal(position as int) + " - "@ + (name + " - Geometry Dash Demonlist"@) =~= "#"@ + decimal(
        position as int,
    ) + " - "@ + name + " - Geometry Dash Demonlist"@);
}

} // verus!
