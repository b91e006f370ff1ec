//! The roster of the reporting bot, and how the catalog is reconciled into it.

use vstd::prelude::*;

use crate::casing::{kebab_case, kebab_of};
use crate::front_matter::text_of;
use crate::projects::{Author, Projects};
use crate::text::string_views;

verus! {

/// A project known to the reporting bot.
#[derive(Clone, Debug, PartialEq, Eq, Hash, Default)]
pub struct Project {
    pub emoji: String,
    pub name: String,
    pub title: String,
    pub description: String,
    pub website: String,
    pub default_section: String,
    pub usual_reporters: Vec<String>,
}

/// A section of the bot's reports.
#[derive(Clone, Debug, PartialEq, Eq, Hash, Default)]
pub struct Section {
    pub emoji: String,
    pub name: String,
    pub title: String,
    pub order: u32,
    pub usual_reporters: Vec<String>,
}

/// The bot's configuration: settings passed through unchanged, and the
/// roster of projects that reconciliation keeps in step with the catalog.
#[derive(Clone, Debug)]
pub struct Config {
    pub bot_user_id: String,
    pub reporting_room_id: String,
    pub admin_room_id: String,
    pub notice_emoji: String,
    pub image_markdown: String,
    pub video_markdown: String,
    pub verbs: Vec<String>,
    pub update_config_command: String,
    pub editors: Vec<String>,
    pub sections: Vec<Section>,
    pub projects: Vec<Project>,
}

/// What a roster entry holds, as values.
pub struct ProjectView {
    pub emoji: Seq<char>,
    pub name: Seq<char>,
    pub title: Seq<char>,
    pub description: Seq<char>,
    pub website: Seq<char>,
    pub default_section: Seq<char>,
    pub usual_reporters: Seq<Seq<char>>,
}

impl View for Project {
    type V = ProjectView;

    open spec fn view(&self) -> ProjectView {
        ProjectView {
            emoji: self.emoji@,
            name: self.name@,
            title: self.title@,
            description: self.description@,
            website: self.website@,
            default_section: self.default_section@,
            usual_reporters: string_views(self.usual_reporters@),
        }
    }
}

/// The values of roster entries.
pub open spec fn roster_views(projects: Seq<Project>) -> Seq<ProjectView> {
    projects.map_values(|p: Project| p@)
}

/// The web address of a project: its home page, else its repository, else empty.
pub open spec fn website_of(home: Option<Seq<char>>, repository: Option<Seq<char>>) -> Seq<char> {
    match home {
        Some(h) => h,
        None => match repository {
            Some(r) => r,
            None => Seq::empty(),
        },
    }
}

/// The Matrix IDs of the authors that have one, in author order.
pub open spec fn reporters_of(authors: Seq<Author>) -> Seq<Seq<char>>
    decreases authors.len(),
{
    if authors.len() == 0 {
        Seq::empty()
    } else {
        let before = reporters_of(authors.drop_last());
        match authors.last().matrix_id {
            Some(m) => before.push(m@),
            None => before,
        }
    }
}

/// The roster entry for a catalog project, given the kebab-case form of its
/// title: the emoji is a placeholder that asks for a real one.
pub open spec fn derived_project(
    name: Seq<char>,
    title: Seq<char>,
    description: Seq<char>,
    home: Option<Seq<char>>,
    repository: Option<Seq<char>>,
    authors: Seq<Author>,
    section: Seq<char>,
) -> ProjectView {
    ProjectView {
        emoji: name + "?"@,
        name: name,
        title: title,
        description: description,
        website: website_of(home, repository),
        default_section: section,
        usual_reporters: reporters_of(authors),
    }
}

/// The roster entry for a catalog project with this title.
pub open spec fn entry_project(
    title: Seq<char>,
    description: Seq<char>,
    home: Option<Seq<char>>,
    repository: Option<Seq<char>>,
    authors: Seq<Author>,
    section: Seq<char>,
) -> ProjectView {
    derived_project(kebab_of(title), title, description, home, repository, authors, section)
}

/// A catalog entry of any category, as reconciliation sees it.
pub trait CatalogEntry {
    /// The roster entry derived from this catalog entry.
    spec fn roster_view(&self) -> ProjectView;

    /// Builds the roster entry derived from this catalog entry.
    fn to_project(&self) -> (r: Project)
        ensures
            r@ == self.roster_view(),
    ;
}

/// The roster entries derived from catalog entries, in order.
pub open spec fn entry_views<E: CatalogEntry>(entries: Seq<E>) -> Seq<ProjectView> {
    entries.map_values(|e: E| e.roster_view())
}

/// Appends the roster entry of each catalog entry, in order.
pub fn append_entries<E: CatalogEntry>(out: &mut Vec<Project>, entries: &Vec<E>)
    ensures
        roster_views(final(out)@) == roster_views(old(out)@) + entry_views(entries@),
{
    let mut i: usize = 0;
    while i < entries.len()
        invariant
            i <= entries@.len(),
            roster_views(out@) == roster_views(old(out)@) + entry_views(entries@.take(i as int)),
        decreases entries@.len() - i,
    {
        let p = entries[i].to_project();
        let ghost before = out@;
        out.push(p);
        assert(roster_views(out@) =~= roster_views(before).push(p@));
        assert(entry_views(entries@.take(i + 1)) =~= entry_views(entries@.take(i as int)).push(
            entries@[i as int].roster_view(),
        ));
        i = i + 1;
    }
    assert(entries@.take(i as int) =~= entries@);
}

fn push_reporters(out: &mut Vec<String>, authors: &Vec<Author>)
    ensures
        string_views(final(out)@) == string_views(old(out)@)
            + reporters_of(authors@),
{
    let mut i: usize = 0;
    while i < authors.len()
        invariant
            i <= authors@.len(),
            string_views(out@) == string_views(old(out)@)
                + reporters_of(authors@.take(i as int)),
        decreases authors@.len() - i,
    {
        assert(authors@.take(i + 1).drop_last() =~= authors@.take(i as int));
        match &authors[i].matrix_id {
            Some(m) => {
                let ghost before = out@;
                out.push(m.clone());
                assert(string_views(out@) =~= string_views(before).push(
                    m@,
                ));
            },
            None => {},
        }
        i = i + 1;
        assert(string_views(out@) =~= string_views(old(out)@)
            + reporters_of(authors@.take(i as int)));
    }
    assert(authors@.take(i as int) =~= authors@);
}

impl Project {
    /// The roster entry for a catalog project, given the kebab-case form of
    /// its title.
    pub fn from_parts(
        name: String,
        title: &String,
        description: &String,
        home: &Option<String>,
        repository: &Option<String>,
        authors: &Vec<Author>,
        section: &str,
    ) -> (r: Project)
        ensures
            r@ == derived_project(
                name@,
                title@,
                description@,
                text_of(*home),
                text_of(*repository),
                authors@,
                section@,
            ),
    {
        let mut emoji = name.clone();
        emoji.append("?");
        let website = match home {
            Some(h) => h.clone(),
            None => match repository {
                Some(r) => r.clone(),
                None => String::new(),
            },
        };
        let mut usual_reporters: Vec<String> = Vec::new();
        push_reporters(&mut usual_reporters, authors);
        let mut default_section = String::new();
        default_section.append(section);
        let r = Project {
            emoji,
            name,
            title: title.clone(),
            description: description.clone(),
            website,
            default_section,
            usual_reporters,
        };
        assert(r@.usual_reporters =~= reporters_of(authors@));
        assert(r@.default_section =~= section@);
        r
    }

    /// The roster entry for a catalog project of the given section.
    pub fn for_entry(
        title: &String,
        description: &String,
        home: &Option<String>,
        repository: &Option<String>,
        authors: &Vec<Author>,
        section: &str,
    ) -> (r: Project)
        ensures
            r@ == entry_project(
                title@,
                description@,
                text_of(*home),
                text_of(*repository),
                authors@,
                section@,
            ),
    {
        let name = kebab_case(title.as_str());
        Project::from_parts(name, title, description, home, repository, authors, section)
    }
}

/// The position of the first roster entry with this title, if any.
pub open spec fn title_index(roster: Seq<ProjectView>, title: Seq<char>) -> Option<int>
    decreases roster.len(),
{
    if roster.len() == 0 {
        None
    } else {
        match title_index(roster.drop_last(), title) {
            Some(i) => Some(i),
            None => if roster.last().title == title {
                Some(roster.len() - 1)
            } else {
                None
            },
        }
    }
}

/// `title_index` finds the first entry with the title, and finds none only
/// where no entry has it.
pub proof fn lemma_title_index(roster: Seq<ProjectView>, title: Seq<char>)
    ensures
        match title_index(roster, title) {
            Some(i) => 0 <= i < roster.len() && roster[i].title == title && forall|j: int|
                0 <= j < i ==> #[trigger] roster[j].title != title,
            None => forall|j: int| 0 <= j < roster.len() ==> #[trigger] roster[j].title != title,
        },
    decreases roster.len(),
{
    if roster.len() > 0 {
        let shorter = roster.drop_last();
        lemma_title_index(shorter, title);
        assert(forall|j: int| 0 <= j < shorter.len() ==> shorter[j] == roster[j]);
    }
}

/// The roster after reconciling one entry: it overwrites the first entry
/// with its title, or is appended where there is none.
pub open spec fn reconcile_one(roster: Seq<ProjectView>, p: ProjectView) -> Seq<ProjectView> {
    match title_index(roster, p.title) {
        Some(i) => roster.update(i, p),
        None => roster.push(p),
    }
}

/// The roster after reconciling the incoming entries one by one, in order.
pub open spec fn reconcile_all(roster: Seq<ProjectView>, incoming: Seq<ProjectView>) -> Seq<
    ProjectView,
>
    decreases incoming.len(),
{
    if incoming.len() == 0 {
        roster
    } else {
        reconcile_one(reconcile_all(roster, incoming.drop_last()), incoming.last())
    }
}

/// How many of the incoming entries found an entry with their title when
/// their turn came.
pub open spec fn matched_count(roster: Seq<ProjectView>, incoming: Seq<ProjectView>) -> nat
    decreases incoming.len(),
{
    if incoming.len() == 0 {
        0
    } else {
        matched_count(roster, incoming.drop_last()) + if title_index(
            reconcile_all(roster, incoming.drop_last()),
            incoming.last().title,
        ) is Some {
            1nat
        } else {
            0nat
        }
    }
}

/// The counts of one reconciliation run.
#[derive(Clone, Copy, Debug, PartialEq, Eq)]
pub struct ReconcileStats {
    /// Roster entries overwritten by a catalog entry of the same title.
    pub matched: usize,
    /// Catalog entries appended because no roster entry had their title.
    pub added: usize,
    /// The size of the roster before the run.
    pub before: usize,
    /// The size of the roster after the run.
    pub after: usize,
}

/// The position of the first project with this title.
fn find_title(projects: &Vec<Project>, title: &String) -> (r: Option<usize>)
    ensures
        match r {
            Some(i) => title_index(roster_views(projects@), title@) == Some(i as int),
            None => title_index(roster_views(projects@), title@) is None,
        },
{
    let ghost roster = roster_views(projects@);
    proof {
        lemma_title_index(roster, title@);
    }
    let mut i: usize = 0;
    while i < projects.len()
        invariant
            i <= projects@.len(),
            roster == roster_views(projects@),
            match title_index(roster, title@) {
                Some(k) => 0 <= k < roster.len() && roster[k].title == title@ && forall|j: int|
                    0 <= j < k ==> #[trigger] roster[j].title != title@,
                None => forall|j: int| 0 <= j < roster.len() ==> #[trigger] roster[j].title != title@,
            },
            forall|j: int| 0 <= j < i ==> #[trigger] roster[j].title != title@,
        decreases projects@.len() - i,
    {
        if projects[i].title == *title {
            assert(roster[i as int].title == title@);
            return Some(i);
        }
        assert(roster[i as int].title != title@);
        i = i + 1;
    }
    None
}

impl Config {
    /// Reconciles the incoming entries into the roster, in order: each one
    /// overwrites the first roster entry with its title, or is appended where
    /// there is none. The other settings stay as they are.
    pub fn reconcile(&mut self, incoming: Vec<Project>) -> (stats: ReconcileStats)
        ensures
            roster_views(final(self).projects@) == reconcile_all(
                roster_views(old(self).projects@),
                roster_views(incoming@),
            ),
            stats.before == old(self).projects@.len(),
            stats.matched == matched_count(
                roster_views(old(self).projects@),
                roster_views(incoming@),
            ),
            stats.matched + stats.added == incoming@.len(),
            stats.after == final(self).projects@.len(),
            stats.after == stats.before + stats.added,
            final(self).bot_user_id == old(self).bot_user_id,
            final(self).reporting_room_id == old(self).reporting_room_id,
            final(self).admin_room_id == old(self).admin_room_id,
            final(self).notice_emoji == old(self).notice_emoji,
            final(self).image_markdown == old(self).image_markdown,
            final(self).video_markdown == old(self).video_markdown,
            final(self).verbs == old(self).verbs,
            final(self).update_config_command == old(self).update_config_command,
            final(self).editors == old(self).editors,
            final(self).sections == old(self).sections,
    {
        let ghost start = roster_views(self.projects@);
        let ghost all = roster_views(incoming@);
        let before = self.projects.len();
        let n = incoming.len();
        let mut rest = incoming;
        let mut matched: usize = 0;
        let mut added: usize = 0;
        let mut i: usize = 0;
        while i < n
            invariant
                n == all.len(),
                i <= n,
                roster_views(rest@) == all.subrange(i as int, n as int),
                roster_views(self.projects@) == reconcile_all(start, all.take(i as int)),
                matched == matched_count(start, all.take(i as int)),
                matched + added == i,
                before == start.len(),
                self.projects@.len() == before + added,
                self.bot_user_id == old(self).bot_user_id,
                self.reporting_room_id == old(self).reporting_room_id,
                self.admin_room_id == old(self).admin_room_id,
                self.notice_emoji == old(self).notice_emoji,
                self.image_markdown == old(self).image_markdown,
                self.video_markdown == old(self).video_markdown,
                self.verbs == old(self).verbs,
                self.update_config_command == old(self).update_config_command,
                self.editors == old(self).editors,
                self.sections == old(self).sections,
            decreases n - i,
        {
            assert(roster_views(rest@).len() == rest@.len());
            let ghost rest_before = rest@;
            let p = rest.remove(0);
            assert(p@ == all[i as int]) by {
                assert(roster_views(rest_before)[0] == all.subrange(i as int, n as int)[0]);
            }
            assert(rest@ =~= rest_before.subrange(1, rest_before.len() as int));
            assert(roster_views(rest@) =~= roster_views(rest_before).subrange(
                1,
                rest_before.len() as int,
            ));
            assert(roster_views(rest@) =~= all.subrange(i + 1, n as int));
            assert(all.take(i + 1).drop_last() =~= all.take(i as int));
            let ghost current = self.projects@;
            proof {
                lemma_title_index(roster_views(current), p@.title);
            }
            match find_title(&self.projects, &p.title) {
                Some(k) => {
                    self.projects[k] = p;
                    assert(roster_views(self.projects@) =~= roster_views(current).update(
                        k as int,
                        all[i as int],
                    ));
                    matched = matched + 1;
                },
                None => {
                    self.projects.push(p);
                    assert(roster_views(self.projects@) =~= roster_views(current).push(
                        all[i as int],
                    ));
                    added = added + 1;
                },
            }
            i = i + 1;
        }
        assert(all.take(n as int) =~= all);
        ReconcileStats { matched, added, before, after: self.projects.len() }
    }
}

impl Config {
    /// Reconciles every entry of the catalog into the roster, category by
    /// category in the fixed order, each category in catalog order.
    pub fn sync_catalog(&mut self, catalog: &Projects) -> (stats: ReconcileStats)
        ensures
            roster_views(final(self).projects@) == reconcile_all(
                roster_views(old(self).projects@),
                catalog.spec_roster_entries(),
            ),
            stats.before == old(self).projects@.len(),
            stats.matched == matched_count(
                roster_views(old(self).projects@),
                catalog.spec_roster_entries(),
            ),
            stats.matched + stats.added == catalog.spec_roster_entries().len(),
            stats.after == final(self).projects@.len(),
            stats.after == stats.before + stats.added,
            final(self).bot_user_id == old(self).bot_user_id,
            final(self).reporting_room_id == old(self).reporting_room_id,
            final(self).admin_room_id == old(self).admin_room_id,
            final(self).notice_emoji == old(self).notice_emoji,
            final(self).image_markdown == old(self).image_markdown,
            final(self).video_markdown == old(self).video_markdown,
            final(self).verbs == old(self).verbs,
            final(self).update_config_command == old(self).update_config_command,
            final(self).editors == old(self).editors,
            final(self).sections == old(self).sections,
    {
        let incoming = catalog.roster_entries();
        proof {
            assert(roster_views(incoming@).len() == incoming@.len());
        }
        self.reconcile(incoming)
    }
}

/// The last incoming entry with this title, if any.
pub open spec fn last_with_title(incoming: Seq<ProjectView>, title: Seq<char>) -> Option<
    ProjectView,
>
    decreases incoming.len(),
{
    if incoming.len() == 0 {
        None
    } else if incoming.last().title == title {
        Some(incoming.last())
    } else {
        last_with_title(incoming.drop_last(), title)
    }
}

/// Whether the roster entry at `j` is the first with its title.
pub open spec fn is_first_entry(roster: Seq<ProjectView>, j: int) -> bool {
    title_index(roster, roster[j].title) == Some(j)
}

/// Whether every incoming title is already in the roster.
pub open spec fn has_every_title(roster: Seq<ProjectView>, incoming: Seq<ProjectView>) -> bool {
    forall|k: int|
        0 <= k < incoming.len() ==> (#[trigger] title_index(roster, incoming[k].title)) is Some
}

/// The roster with the first entry of each title replaced by the last
/// incoming entry of that title, where there is one.
pub open spec fn with_last_entries(roster: Seq<ProjectView>, incoming: Seq<ProjectView>) -> Seq<
    ProjectView,
> {
    Seq::new(
        roster.len(),
        |j: int|
            if is_first_entry(roster, j) && last_with_title(incoming, roster[j].title) is Some {
                last_with_title(incoming, roster[j].title)->0
            } else {
                roster[j]
            },
    )
}

/// Whether the first entry of each title already is the last incoming entry
/// of that title, where there is one.
pub open spec fn is_settled(roster: Seq<ProjectView>, incoming: Seq<ProjectView>) -> bool {
    forall|j: int|
        0 <= j < roster.len() && is_first_entry(roster, j) && (#[trigger] last_with_title(
            incoming,
            roster[j].title,
        )) is Some ==> roster[j] == last_with_title(incoming, roster[j].title)->0
}

proof fn lemma_last_with_title(incoming: Seq<ProjectView>, title: Seq<char>)
    ensures
        last_with_title(incoming, title) matches Some(q) ==> q.title == title,
    decreases incoming.len(),
{
    if incoming.len() > 0 {
        lemma_last_with_title(incoming.drop_last(), title);
    }
}

/// Where two rosters have the same titles in the same places, they find
/// the same first positions.
proof fn lemma_same_titles(a: Seq<ProjectView>, b: Seq<ProjectView>, title: Seq<char>)
    requires
        a.len() == b.len(),
        forall|j: int| 0 <= j < a.len() ==> #[trigger] a[j].title == b[j].title,
    ensures
        title_index(a, title) == title_index(b, title),
    decreases a.len(),
{
    if a.len() > 0 {
        let (da, db) = (a.drop_last(), b.drop_last());
        assert forall|j: int| 0 <= j < da.len() implies #[trigger] da[j].title == db[j].title by {
            assert(da[j] == a[j] && db[j] == b[j]);
        }
        lemma_same_titles(da, db, title);
    }
}

proof fn lemma_title_index_push(roster: Seq<ProjectView>, p: ProjectView, title: Seq<char>)
    ensures
        title_index(roster.push(p), title) == match title_index(roster, title) {
            Some(i) => Some(i),
            None => if p.title == title {
                Some(roster.len() as int)
            } else {
                None
            },
        },
{
    assert(roster.push(p).drop_last() =~= roster);
}

/// Updating an entry with one of the same title keeps every first position.
proof fn lemma_update_same_title(roster: Seq<ProjectView>, i: int, p: ProjectView, title: Seq<char>)
    requires
        0 <= i < roster.len(),
        roster[i].title == p.title,
    ensures
        title_index(roster.update(i, p), title) == title_index(roster, title),
{
    let updated = roster.update(i, p);
    assert forall|j: int| 0 <= j < updated.len() implies #[trigger] updated[j].title
        == roster[j].title by {}
    lemma_same_titles(updated, roster, title);
}

/// Reconciling once leaves every incoming title in the roster.
proof fn lemma_every_title_present(roster: Seq<ProjectView>, incoming: Seq<ProjectView>)
    ensures
        has_every_title(reconcile_all(roster, incoming), incoming),
    decreases incoming.len(),
{
    if incoming.len() > 0 {
        let shorter = incoming.drop_last();
        let p = incoming.last();
        let before = reconcile_all(roster, shorter);
        let after = reconcile_all(roster, incoming);
        lemma_every_title_present(roster, shorter);
        lemma_title_index(before, p.title);
        assert forall|k: int| 0 <= k < incoming.len() implies (#[trigger] title_index(
            after,
            incoming[k].title,
        )) is Some by {
            let t = incoming[k].title;
            if k < shorter.len() {
                assert(shorter[k] == incoming[k]);
                assert(title_index(before, shorter[k].title) is Some);
            }
            match title_index(before, p.title) {
                Some(i) => {
                    lemma_update_same_title(before, i, p, t);
                },
                None => {
                    lemma_title_index_push(before, p, t);
                },
            }
        }
    }
}

/// Reconciling entries whose titles are all present replaces the first
/// entry of each title by the last incoming entry of that title, and counts
/// every incoming entry as matched.
proof fn lemma_reconcile_present(roster: Seq<ProjectView>, incoming: Seq<ProjectView>)
    requires
        has_every_title(roster, incoming),
    ensures
        reconcile_all(roster, incoming) == with_last_entries(roster, incoming),
        matched_count(roster, incoming) == incoming.len(),
    decreases incoming.len(),
{
    if incoming.len() == 0 {
        assert(with_last_entries(roster, incoming) =~= roster);
    } else {
        let shorter = incoming.drop_last();
        let p = incoming.last();
        assert forall|k: int| 0 <= k < shorter.len() implies (#[trigger] title_index(
            roster,
            shorter[k].title,
        )) is Some by {
            assert(shorter[k] == incoming[k]);
            assert(title_index(roster, incoming[k].title) is Some);
        }
        lemma_reconcile_present(roster, shorter);
        let before = with_last_entries(roster, shorter);
        assert forall|j: int| 0 <= j < before.len() implies #[trigger] before[j].title
            == roster[j].title by {
            lemma_last_with_title(shorter, roster[j].title);
        }
        lemma_same_titles(before, roster, p.title);
        assert(title_index(roster, incoming[incoming.len() - 1].title) is Some);
        lemma_title_index(roster, p.title);
        let i = title_index(roster, p.title)->0;
        let target = with_last_entries(roster, incoming);
        assert forall|j: int| 0 <= j < roster.len() implies #[trigger] before.update(i, p)[j]
            == target[j] by {
            if j == i {
                assert(is_first_entry(roster, i));
            } else if roster[j].title == p.title {
                assert(!is_first_entry(roster, j));
            } else {
                assert(last_with_title(incoming, roster[j].title) == last_with_title(
                    shorter,
                    roster[j].title,
                ));
            }
        }
        assert(before.update(i, p) =~= target);
    }
}

/// Reconciling once leaves the first entry of each incoming title equal to
/// the last incoming entry of that title.
proof fn lemma_reconcile_settles(roster: Seq<ProjectView>, incoming: Seq<ProjectView>)
    ensures
        is_settled(reconcile_all(roster, incoming), incoming),
    decreases incoming.len(),
{
    if incoming.len() > 0 {
        let shorter = incoming.drop_last();
        let p = incoming.last();
        let before = reconcile_all(roster, shorter);
        let after = reconcile_all(roster, incoming);
        lemma_reconcile_settles(roster, shorter);
        lemma_title_index(before, p.title);
        match title_index(before, p.title) {
            Some(i) => {
                assert(after == before.update(i, p));
                assert forall|j: int|
                    0 <= j < after.len() && is_first_entry(after, j) && (#[trigger] last_with_title(
                        incoming,
                        after[j].title,
                    )) is Some implies after[j] == last_with_title(
                    incoming,
                    after[j].title,
                )->0 by {
                    let t = after[j].title;
                    lemma_update_same_title(before, i, p, t);
                    if t == p.title {
                        assert(j == i);
                        assert(last_with_title(incoming, t) == Some(p));
                    } else {
                        assert(after[j] == before[j]);
                        assert(is_first_entry(before, j));
                        assert(last_with_title(incoming, t) == last_with_title(shorter, t));
                        assert(last_with_title(shorter, before[j].title) is Some);
                    }
                }
            },
            None => {
                assert(after == before.push(p));
                assert forall|j: int|
                    0 <= j < after.len() && is_first_entry(after, j) && (#[trigger] last_with_title(
                        incoming,
                        after[j].title,
                    )) is Some implies after[j] == last_with_title(
                    incoming,
                    after[j].title,
                )->0 by {
                    let t = after[j].title;
                    if j < before.len() {
                        assert(after[j] == before[j]);
                        lemma_title_index(before, t);
                        lemma_title_index_push(before, p, t);
                        assert(is_first_entry(before, j));
                        assert(t != p.title);
                        assert(last_with_title(incoming, t) == last_with_title(shorter, t));
                        assert(last_with_title(shorter, before[j].title) is Some);
                    } else {
                        assert(after[j] == p);
                        assert(last_with_title(incoming, t) == Some(p));
                    }
                }
            },
        }
    }
}

/// Reconciliation is idempotent: reconciling the same incoming entries into
/// a roster that they were already reconciled into changes nothing, and on
/// that second pass every incoming entry finds its title.
pub proof fn lemma_reconcile_idempotent(roster: Seq<ProjectView>, incoming: Seq<ProjectView>)
    ensures
        reconcile_all(reconcile_all(roster, incoming), incoming) == reconcile_all(roster, incoming),
        matched_count(reconcile_all(roster, incoming), incoming) == incoming.len(),
{
    let once = reconcile_all(roster, incoming);
    lemma_every_title_present(roster, incoming);
    lemma_reconcile_present(once, incoming);
    lemma_reconcile_settles(roster, incoming);
    assert(with_last_entries(once, incoming) =~= once);
}

} // verus!
