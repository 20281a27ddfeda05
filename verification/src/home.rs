//! The Overview page: an at-a-glance roll-up of every feature's slice. It never queries; it
//! projects the snapshot and reports navigation intents for the shell to act on.

use vstd::prelude::*;
use vstd::string::*;

use crate::model::{
    lemma_filter_take_step, GitStatus, Id, Note, NotesView, ProjectCard, ProjectsView, TasksView,
    Ticket, Todo, TodosView, ViewData,
};
use crate::outside::local_hour;
use crate::shell::Tab;
use crate::tasks::TicketOpen;
use crate::text::{decimal, join, joined, trim_end, trim_end_spec, u32_text};
use crate::todos::{is_open, open_todos};

verus! {

/// How many rows each list section shows.
pub const LIST_CAP: usize = 5;

/// How many loose notes the preview shows (their rows are taller).
pub const NOTES_CAP: usize = 3;

/// What the Overview asks the shell to do after rendering.
pub struct HomeOutcome {
    /// Switch to this tab (a stat tile or a "View all" link was clicked).
    pub goto: Option<Tab>,
    /// Open this ticket's detail in this presentation (a recent-ticket row was clicked).
    pub open_ticket: Option<(Id, TicketOpen)>,
}

impl Default for HomeOutcome {
    fn default() -> (r: Self)
        ensures
            r.goto is None,
            r.open_ticket is None,
    {
        HomeOutcome { goto: None, open_ticket: None }
    }
}

/// Transient state of the Overview (it holds nothing: the page is a projection).
pub struct HomeState;

impl Default for HomeState {
    fn default() -> (r: Self) {
        HomeState
    }
}

/// The greeting for an hour of the day: morning from 5 to 11, afternoon from 12 to 17,
/// evening otherwise.
pub open spec fn greeting_spec(hour: u32) -> Seq<char> {
    if 5 <= hour <= 11 {
        "Good morning"@
    } else if 12 <= hour <= 17 {
        "Good afternoon"@
    } else {
        "Good evening"@
    }
}

/// The greeting for an hour of the day.
pub fn greeting(hour: u32) -> (r: &'static str)
    ensures
        r@ == greeting_spec(hour),
{
    if 5 <= hour && hour <= 11 {
        "Good morning"
    } else if 12 <= hour && hour <= 17 {
        "Good afternoon"
    } else {
        "Good evening"
    }
}

impl HomeState {
    /// The greeting for the current local hour.
    pub fn greeting_now(&self) -> (r: &'static str)
        ensures
            exists|h: u32| h < 24 && r@ == greeting_spec(h),
    {
        let h = local_hour();
        greeting(h)
    }
}

/// Tickets outside terminal stages (live work).
pub open spec fn is_active(tasks: TasksView) -> spec_fn(Ticket) -> bool {
    |t: Ticket| !tasks.terminal_spec(t.stage_id)
}

/// A repository needs a look: it is one, and git does not report it up to date.
pub open spec fn needs_attention(g: GitStatus) -> bool {
    g.is_repo && !g.up_to_date
}

pub open spec fn card_needs_attention() -> spec_fn(ProjectCard) -> bool {
    |c: ProjectCard| needs_attention(c.git)
}

/// The four summary counts.
pub struct HomeStats {
    /// Tickets outside terminal stages.
    pub active_tickets: usize,
    /// Todos not done.
    pub open_todos: usize,
    /// Loose notes.
    pub loose_notes: usize,
    /// Repositories needing attention.
    pub repos_attention: usize,
}

/// The tickets outside terminal stages, in board order.
pub fn active_tickets(tasks: &TasksView) -> (r: Vec<Ticket>)
    ensures
        r@ == tasks.tickets@.filter(is_active(*tasks)),
{
    let mut r: Vec<Ticket> = Vec::new();
    let mut i: usize = 0;
    while i < tasks.tickets.len()
        invariant
            i <= tasks.tickets.len(),
            r@ == tasks.tickets@.take(i as int).filter(is_active(*tasks)),
        decreases tasks.tickets.len() - i,
    {
        proof {
            lemma_filter_take_step(tasks.tickets@, is_active(*tasks), i as int);
        }
        if !tasks.is_terminal(tasks.tickets[i].stage_id) {
            r.push(tasks.tickets[i].clone());
        }
        i = i + 1;
    }
    proof {
        assert(tasks.tickets@.take(i as int) =~= tasks.tickets@);
    }
    r
}

/// The project cards whose repository needs attention, in stored order.
pub fn attention_cards(projects: &ProjectsView) -> (r: Vec<usize>)
    ensures
        r@.map_values(|i: usize| projects.projects@[i as int]) == projects.projects@.filter(
            card_needs_attention(),
        ),
        forall|k: int| 0 <= k < r@.len() ==> #[trigger] r@[k] < projects.projects@.len(),
{
    let mut r: Vec<usize> = Vec::new();
    let mut i: usize = 0;
    while i < projects.projects.len()
        invariant
            i <= projects.projects.len(),
            r@.map_values(|i: usize| projects.projects@[i as int]) == projects.projects@.take(
                i as int,
            ).filter(card_needs_attention()),
            forall|k: int| 0 <= k < r@.len() ==> #[trigger] r@[k] < i,
        decreases projects.projects.len() - i,
    {
        proof {
            lemma_filter_take_step(projects.projects@, card_needs_attention(), i as int);
        }
        let g = &projects.projects[i].git;
        if g.is_repo && !g.up_to_date {
            let ghost before = r@;
            r.push(i);
            proof {
                assert(r@.map_values(|i: usize| projects.projects@[i as int]) =~= before.map_values(
                    |i: usize| projects.projects@[i as int],
                ).push(projects.projects@[i as int]));
            }
        }
        i = i + 1;
    }
    proof {
        assert(projects.projects@.take(i as int) =~= projects.projects@);
    }
    r
}

/// The summary tiles' counts.
pub fn stats(data: &ViewData) -> (r: HomeStats)
    ensures
        r.active_tickets == data.tasks.tickets@.filter(is_active(data.tasks)).len(),
        r.open_todos == data.todos.todos@.filter(is_open()).len(),
        r.loose_notes == data.notes.notes@.len(),
        r.repos_attention == data.projects.projects@.filter(card_needs_attention()).len(),
{
    let active = active_tickets(&data.tasks);
    let open = open_todos(&data.todos);
    let flagged = attention_cards(&data.projects);
    proof {
        assert(flagged@.map_values(|i: usize| data.projects.projects@[i as int]).len() == flagged@.len());
    }
    HomeStats {
        active_tickets: active.len(),
        open_todos: open.len(),
        loose_notes: data.notes.notes.len(),
        repos_attention: flagged.len(),
    }
}

/// A stat tile turns danger-coloured when it is an alert tile with something to act on.
pub fn tile_alert(alert: bool, value: usize) -> (r: bool)
    ensures
        r == (alert && value > 0),
{
    alert && value > 0
}

/// A stat tile of the overview.
#[derive(Clone, Copy, Debug, PartialEq, Eq, Hash, Structural)]
pub enum StatTile {
    ActiveTickets,
    OpenTodos,
    LooseNotes,
    ReposAttention,
}

/// The tiles, left to right.
pub open spec fn stat_tiles_spec() -> Seq<StatTile> {
    seq![StatTile::ActiveTickets, StatTile::OpenTodos, StatTile::LooseNotes, StatTile::ReposAttention]
}

/// The tiles, left to right.
pub fn stat_tiles() -> (r: Vec<StatTile>)
    ensures
        r@ == stat_tiles_spec(),
{
    let r = vec![StatTile::ActiveTickets, StatTile::OpenTodos, StatTile::LooseNotes, StatTile::ReposAttention];
    proof {
        assert(r@ =~= stat_tiles_spec());
    }
    r
}

impl StatTile {
    /// The tab a tile opens: the feature whose count it shows.
    pub open spec fn tab_spec(self) -> Tab {
        match self {
            StatTile::ActiveTickets => Tab::Tasks,
            StatTile::OpenTodos => Tab::Todos,
            StatTile::LooseNotes => Tab::Notes,
            StatTile::ReposAttention => Tab::Projects,
        }
    }

    /// The tab a tile opens.
    pub fn tab(self) -> (t: Tab)
        ensures
            t == self.tab_spec(),
    {
        match self {
            StatTile::ActiveTickets => Tab::Tasks,
            StatTile::OpenTodos => Tab::Todos,
            StatTile::LooseNotes => Tab::Notes,
            StatTile::ReposAttention => Tab::Projects,
        }
    }

    /// The count a tile shows.
    pub fn count(self, stats: &HomeStats) -> (n: usize)
        ensures
            n == (match self {
                StatTile::ActiveTickets => stats.active_tickets,
                StatTile::OpenTodos => stats.open_todos,
                StatTile::LooseNotes => stats.loose_notes,
                StatTile::ReposAttention => stats.repos_attention,
            }),
    {
        match self {
            StatTile::ActiveTickets => stats.active_tickets,
            StatTile::OpenTodos => stats.open_todos,
            StatTile::LooseNotes => stats.loose_notes,
            StatTile::ReposAttention => stats.repos_attention,
        }
    }

    /// The caption under a tile's count.
    pub fn label(self) -> (l: &'static str)
        ensures
            l@ == (match self {
                StatTile::ActiveTickets => "Active tickets"@,
                StatTile::OpenTodos => "Open todos"@,
                StatTile::LooseNotes => "Loose notes"@,
                StatTile::ReposAttention => "Repos need attention"@,
            }),
    {
        match self {
            StatTile::ActiveTickets => "Active tickets",
            StatTile::OpenTodos => "Open todos",
            StatTile::LooseNotes => "Loose notes",
            StatTile::ReposAttention => "Repos need attention",
        }
    }

    /// Only the repositories tile is an alert tile (its count turns red when non-zero).
    pub fn alerts(self) -> (r: bool)
        ensures
            r == (self == StatTile::ReposAttention),
    {
        match self {
            StatTile::ReposAttention => true,
            _ => false,
        }
    }
}

impl HomeOutcome {
    /// A stat tile was clicked: switch to its tab.
    pub fn tile_clicked(&mut self, tile: StatTile)
        ensures
            final(self).goto == Some(tile.tab_spec()),
            final(self).open_ticket == old(self).open_ticket,
    {
        self.goto = Some(tile.tab());
    }
}

/// `m` is the first position of a most recently updated ticket of `s`.
pub open spec fn is_first_latest(s: Seq<Ticket>, m: int) -> bool {
    &&& 0 <= m < s.len()
    &&& forall|j: int| 0 <= j < s.len() ==> #[trigger] s[j].updated_at <= s[m].updated_at
    &&& forall|j: int| 0 <= j < m ==> #[trigger] s[j].updated_at < s[m].updated_at
}

pub open spec fn first_latest(s: Seq<Ticket>) -> int {
    choose|m: int| is_first_latest(s, m)
}

/// The `k` most recently updated tickets of `s`, newest first; among equally recent ones the
/// earlier in `s` comes first.
pub open spec fn most_recent(s: Seq<Ticket>, k: nat) -> Seq<Ticket>
    decreases k,
{
    if k == 0 || s.len() == 0 {
        Seq::empty()
    } else {
        let m = first_latest(s);
        seq![s[m]] + most_recent(s.remove(m), (k - 1) as nat)
    }
}

proof fn lemma_first_latest_unique(s: Seq<Ticket>, m: int)
    requires
        is_first_latest(s, m),
    ensures
        first_latest(s) == m,
{
    let c = choose|c: int| is_first_latest(s, c);
    assert(is_first_latest(s, c));
    if c < m {
        assert(s[c].updated_at < s[m].updated_at);
        assert(s[m].updated_at <= s[c].updated_at);
    }
    if m < c {
        assert(s[m].updated_at < s[c].updated_at);
        assert(s[c].updated_at <= s[m].updated_at);
    }
}

/// Position of the first most recently updated ticket.
fn index_of_latest(v: &Vec<Ticket>) -> (m: usize)
    requires
        v@.len() > 0,
    ensures
        is_first_latest(v@, m as int),
{
    let mut m: usize = 0;
    let mut i: usize = 1;
    while i < v.len()
        invariant
            1 <= i <= v.len(),
            m < i,
            forall|j: int| 0 <= j < i ==> #[trigger] v@[j].updated_at <= v@[m as int].updated_at,
            forall|j: int| 0 <= j < m ==> #[trigger] v@[j].updated_at < v@[m as int].updated_at,
        decreases v.len() - i,
    {
        if v[i].updated_at > v[m].updated_at {
            m = i;
        }
        i = i + 1;
    }
    m
}

/// "Pick up where you left off": the most recently updated tickets outside terminal stages,
/// newest first, at most [`LIST_CAP`] of them.
pub fn recent_tickets(tasks: &TasksView) -> (r: Vec<Ticket>)
    ensures
        r@ == most_recent(tasks.tickets@.filter(is_active(*tasks)), LIST_CAP as nat),
{
    let mut work = active_tickets(tasks);
    let ghost all = work@;
    let mut r: Vec<Ticket> = Vec::new();
    let mut k: usize = 0;
    while k < LIST_CAP && work.len() > 0
        invariant
            k <= LIST_CAP,
            r@ + most_recent(work@, (LIST_CAP - k) as nat) == most_recent(all, LIST_CAP as nat),
        decreases LIST_CAP - k,
    {
        let m = index_of_latest(&work);
        proof {
            lemma_first_latest_unique(work@, m as int);
        }
        let ghost before = work@;
        let t = work.remove(m);
        proof {
            assert(most_recent(before, (LIST_CAP - k) as nat) == seq![t] + most_recent(
                work@,
                (LIST_CAP - k - 1) as nat,
            ));
            assert(r@.push(t) + most_recent(work@, (LIST_CAP - k - 1) as nat) =~= r@ + (seq![t]
                + most_recent(work@, (LIST_CAP - k - 1) as nat)));
        }
        r.push(t);
        k = k + 1;
    }
    proof {
        assert(most_recent(work@, (LIST_CAP - k) as nat) =~= Seq::<Ticket>::empty());
        assert(r@ + Seq::<Ticket>::empty() =~= r@);
    }
    r
}

/// The first open todos, at most [`LIST_CAP`] of them (checkable inline).
pub fn first_open_todos(view: &TodosView) -> (r: Vec<Todo>)
    ensures
        r@ == (if view.todos@.filter(is_open()).len() <= LIST_CAP {
            view.todos@.filter(is_open())
        } else {
            view.todos@.filter(is_open()).take(LIST_CAP as int)
        }),
{
    let mut r = open_todos(view);
    r.truncate(LIST_CAP);
    proof {
        if view.todos@.filter(is_open()).len() > LIST_CAP {
            assert(r@ =~= view.todos@.filter(is_open()).take(LIST_CAP as int));
        }
    }
    r
}

/// The newest loose notes, at most [`NOTES_CAP`] of them.
pub fn loose_notes_preview(view: &NotesView) -> (r: Vec<Note>)
    ensures
        r@ == (if view.notes@.len() <= NOTES_CAP {
            view.notes@
        } else {
            view.notes@.take(NOTES_CAP as int)
        }),
{
    let mut r: Vec<Note> = Vec::new();
    let mut i: usize = 0;
    while i < view.notes.len() && i < NOTES_CAP
        invariant
            i <= view.notes.len(),
            i <= NOTES_CAP,
            r@ == view.notes@.take(i as int),
        decreases NOTES_CAP - i,
    {
        r.push(view.notes[i].clone());
        proof {
            assert(view.notes@.take(i + 1) =~= view.notes@.take(i as int).push(view.notes@[i as int]));
        }
        i = i + 1;
    }
    proof {
        if view.notes@.len() <= NOTES_CAP {
            assert(view.notes@.take(i as int) =~= view.notes@);
        }
    }
    r
}

/// The status phrases of an out-of-sync repository: uncommitted changes (named by
/// `uncommitted`), commits behind, commits ahead; `out of sync` when none applies.
pub open spec fn sync_parts(g: GitStatus, uncommitted: Seq<char>) -> Seq<Seq<char>> {
    let a = if !g.clean {
        seq![uncommitted]
    } else {
        Seq::empty()
    };
    let b = if g.behind > 0 {
        a.push(decimal(g.behind as nat) + " behind"@)
    } else {
        a
    };
    let c = if g.ahead > 0 {
        b.push(decimal(g.ahead as nat) + " ahead"@)
    } else {
        b
    };
    if c.len() == 0 {
        seq!["out of sync"@]
    } else {
        c
    }
}

/// The phrases joined by a middle dot.
pub open spec fn sync_text(g: GitStatus, uncommitted: Seq<char>) -> Seq<char> {
    joined(sync_parts(g, uncommitted), " · "@)
}

/// Build the status phrases of an out-of-sync repository, joined by a middle dot.
pub(crate) fn sync_phrase(g: &GitStatus, uncommitted: &str) -> (r: String)
    ensures
        r@ == sync_text(*g, uncommitted@),
{
    let mut parts: Vec<String> = Vec::new();
    if !g.clean {
        parts.push(uncommitted.to_owned());
    }
    if g.behind > 0 {
        let mut p = u32_text(g.behind);
        p.append(" behind");
        parts.push(p);
    }
    if g.ahead > 0 {
        let mut p = u32_text(g.ahead);
        p.append(" ahead");
        parts.push(p);
    }
    if parts.len() == 0 {
        parts.push("out of sync".to_owned());
    }
    let r = join(&parts, " · ");
    proof {
        assert(parts@.map_values(|p: String| p@) =~= sync_parts(*g, uncommitted@));
    }
    r
}

/// The short attention label of a repository, or `None` when it needs none (up to date, or
/// not a repository): uncommitted changes, commits behind, commits ahead.
pub fn attention_label(git: &GitStatus) -> (r: Option<String>)
    ensures
        if needs_attention(*git) {
            r matches Some(l) && l@ == sync_text(*git, "uncommitted changes"@)
        } else {
            r is None
        },
{
    if !git.is_repo || git.up_to_date {
        return None;
    }
    Some(sync_phrase(git, "uncommitted changes"))
}

/// "Repositories": the name and attention label of each repository needing attention, at
/// most [`LIST_CAP`] of them.
pub fn repos_needing_attention(projects: &ProjectsView) -> (r: Vec<(String, String)>)
    ensures
        ({
            let flagged = projects.projects@.filter(card_needs_attention());
            let n = if flagged.len() <= LIST_CAP {
                flagged.len() as int
            } else {
                LIST_CAP as int
            };
            &&& r@.len() == n
            &&& forall|k: int|
                0 <= k < n ==> (#[trigger] r@[k]).0@ == flagged[k].project.name@ && r@[k].1@
                    == sync_text(flagged[k].git, "uncommitted changes"@)
        }),
{
    let cards = attention_cards(projects);
    let ghost flagged = projects.projects@.filter(card_needs_attention());
    proof {
        assert(cards@.map_values(|i: usize| projects.projects@[i as int]).len() == cards@.len());
    }
    let mut r: Vec<(String, String)> = Vec::new();
    let mut k: usize = 0;
    while k < cards.len() && k < LIST_CAP
        invariant
            k <= cards.len(),
            k <= LIST_CAP,
            flagged == cards@.map_values(|i: usize| projects.projects@[i as int]),
            forall|j: int| 0 <= j < cards@.len() ==> #[trigger] cards@[j] < projects.projects@.len(),
            r@.len() == k,
            forall|j: int|
                0 <= j < k ==> (#[trigger] r@[j]).0@ == flagged[j].project.name@ && r@[j].1@
                    == sync_text(flagged[j].git, "uncommitted changes"@),
        decreases LIST_CAP - k,
    {
        let c = &projects.projects[cards[k]];
        proof {
            assert(flagged[k as int] == projects.projects@[cards@[k as int] as int]);
        }
        let label = sync_phrase(&c.git, "uncommitted changes");
        r.push((c.project.name.clone(), label));
        k = k + 1;
    }
    r
}

/// Truncate to at most `max` characters, ellipsis included: when cut, the first `max - 1`
/// are kept, their trailing whitespace dropped, and an ellipsis appended (a cap of zero
/// leaves nothing).
pub open spec fn truncated(s: Seq<char>, max: nat) -> Seq<char> {
    if s.len() <= max {
        s
    } else if max == 0 {
        Seq::empty()
    } else {
        trim_end_spec(s.take(max - 1)) + "…"@
    }
}

/// Truncate to at most `max` characters (counted as chars, never splitting one), an ellipsis
/// marking a cut.
pub fn truncate(s: &str, max: usize) -> (r: String)
    ensures
        r@ == truncated(s@, max as nat),
        r@.len() <= max,
{
    proof {
        lemma_truncated_len(s@, max as nat);
    }
    if s.unicode_len() <= max {
        return s.to_owned();
    }
    if max == 0 {
        return String::new();
    }
    let cut = s.substring_char(0, max - 1);
    let mut r = trim_end(cut).to_owned();
    r.append("…");
    r
}

/// A position of the first most recent ticket of a non-empty sequence.
proof fn latest_index(s: Seq<Ticket>) -> (m: int)
    requires
        s.len() > 0,
    ensures
        is_first_latest(s, m),
    decreases s.len(),
{
    if s.len() == 1 {
        0
    } else {
        let init = s.drop_last();
        let k = latest_index(init);
        assert forall|j: int| 0 <= j < s.len() - 1 implies s[j].updated_at <= s[k].updated_at by {
            assert(init[j] == s[j]);
        }
        if s.last().updated_at > s[k].updated_at {
            s.len() - 1
        } else {
            assert forall|j: int| 0 <= j < k implies s[j].updated_at < s[k].updated_at by {
                assert(init[j] == s[j]);
            }
            k
        }
    }
}

/// The first most recent ticket exists in any non-empty sequence.
proof fn lemma_first_latest_exists(s: Seq<Ticket>)
    requires
        s.len() > 0,
    ensures
        is_first_latest(s, first_latest(s)),
{
    let m = latest_index(s);
    lemma_first_latest_unique(s, m);
}

/// "Pick up where you left off" lists newest first: the tickets it picks come from the list,
/// there are as many as the cap allows, each is at least as recent as the next, and none left
/// out is more recent than any picked.
pub proof fn lemma_recent_newest_first(s: Seq<Ticket>, k: nat)
    ensures
        most_recent(s, k).len() == (if s.len() < k { s.len() } else { k }),
        forall|i: int| 0 <= i < most_recent(s, k).len() ==> s.contains(#[trigger] most_recent(s, k)[i]),
        forall|i: int, j: int|
            0 <= i < j < most_recent(s, k).len() ==> (#[trigger] most_recent(s, k)[i]).updated_at
                >= (#[trigger] most_recent(s, k)[j]).updated_at,
    decreases k,
{
    if k > 0 && s.len() > 0 {
        let m = first_latest(s);
        lemma_first_latest_exists(s);
        let rest = s.remove(m);
        lemma_recent_newest_first(rest, (k - 1) as nat);
        let tail = most_recent(rest, (k - 1) as nat);
        let r = most_recent(s, k);
        assert(r == seq![s[m]] + tail);
        assert forall|i: int| 0 <= i < r.len() implies s.contains(#[trigger] r[i]) by {
            if i == 0 {
                assert(s[m] == r[0]);
            } else {
                assert(r[i] == tail[i - 1]);
                assert(rest.contains(tail[i - 1]));
                let q = choose|q: int| 0 <= q < rest.len() && rest[q] == tail[i - 1];
                if q < m {
                    assert(s[q] == r[i]);
                } else {
                    assert(s[q + 1] == r[i]);
                }
            }
        }
        assert forall|i: int, j: int| 0 <= i < j < r.len() implies (#[trigger] r[i]).updated_at >= (#[trigger] r[j]).updated_at by {
            if i == 0 {
                assert(rest.contains(tail[j - 1]));
                let q = choose|q: int| 0 <= q < rest.len() && rest[q] == tail[j - 1];
                if q < m {
                    assert(s[q] == r[j]);
                } else {
                    assert(s[q + 1] == r[j]);
                }
            } else {
                assert(r[i] == tail[i - 1]);
                assert(r[j] == tail[j - 1]);
            }
        }
    }
}

/// A truncated text is never longer than the cap, ellipsis included, and an uncut one is the
/// text itself.
pub proof fn lemma_truncated_len(s: Seq<char>, max: nat)
    ensures
        truncated(s, max).len() <= max,
        s.len() <= max ==> truncated(s, max) == s,
{
    if s.len() > max && max > 0 {
        reveal_strlit("…");
        lemma_trim_end_shortens(s.take(max - 1));
    }
}

proof fn lemma_trim_end_shortens(s: Seq<char>)
    ensures
        trim_end_spec(s).len() <= s.len(),
    decreases s.len(),
{
    if s.len() > 0 && crate::text::is_whitespace(s.last()) {
        lemma_trim_end_shortens(s.drop_last());
    }
}

} // verus!
