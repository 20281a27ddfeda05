//! Dev-only view overrides for visual review: which screen to force, and the mock state that
//! stands in for a snapshot (no database).

use vstd::prelude::*;

use crate::model::{
    Id, Micros, NotesView, Profile, ProfileView, ProfilesView, ProjectsView, Stage, TasksView,
    Ticket, TicketNote, TodosView, UserFacingError, ViewData,
};
use crate::outside::{new_id, now_micros};
use crate::text::{trim, trim_spec};

verus! {

/// Which screen to force (`onboarding`, `board`, `ticket`, `page` or `error`).
#[derive(Clone, Copy, Debug, PartialEq, Eq, Structural)]
pub enum DevView {
    Onboarding,
    Board,
    /// The ticket detail as a modal overlay.
    Ticket,
    /// The ticket detail as the full page.
    Page,
    Error,
}

/// The screen a (trimmed) override name selects.
pub open spec fn dev_view_named(name: Seq<char>) -> Option<DevView> {
    if name == "onboarding"@ {
        Some(DevView::Onboarding)
    } else if name == "board"@ {
        Some(DevView::Board)
    } else if name == "ticket"@ {
        Some(DevView::Ticket)
    } else if name == "page"@ {
        Some(DevView::Page)
    } else if name == "error"@ {
        Some(DevView::Error)
    } else {
        None
    }
}

impl DevView {
    /// The screen an override value names (surrounding whitespace ignored); `None` for any
    /// other value.
    pub fn from_name(value: &str) -> (r: Option<DevView>)
        ensures
            r == dev_view_named(trim_spec(value@)),
    {
        let name = trim(value).to_owned();
        if name == "onboarding".to_owned() {
            Some(DevView::Onboarding)
        } else if name == "board".to_owned() {
            Some(DevView::Board)
        } else if name == "ticket".to_owned() {
            Some(DevView::Ticket)
        } else if name == "page".to_owned() {
            Some(DevView::Page)
        } else if name == "error".to_owned() {
            Some(DevView::Error)
        } else {
            None
        }
    }
}

/// A mock stage.
pub open spec fn is_mock_stage(s: Stage, id: Id, name: Seq<char>, position: i32, now: Micros) -> bool {
    s.id == id && s.name@ == name && s.position == position && !s.terminal && s.created_at == now
}

/// A mock ticket.
pub open spec fn is_mock_ticket(
    t: Ticket,
    id: Id,
    stage_id: Id,
    title: Seq<char>,
    description: Seq<char>,
    position: i32,
    parent_id: Option<Id>,
    now: Micros,
) -> bool {
    &&& t.id == id
    &&& t.stage_id == stage_id
    &&& t.title@ == title
    &&& t.description@ == description
    &&& t.position == position
    &&& t.parent_id == parent_id
    &&& t.created_at == now
    &&& t.updated_at == now
}

/// The mock board: the active profile "Corey"; stages Pending, In Progress, Complete; four
/// tickets, the second a child of the first; every timestamp `now`; identifiers taken from
/// `ids` in order (profile, three stages, four tickets); nothing else.
pub open spec fn is_mock_board(d: ViewData, ids: [Id; 8], now: Micros) -> bool {
    let st = d.tasks.stages@;
    let tk = d.tasks.tickets@;
    &&& d.profile.active matches Some(p) && p.id == ids[0] && p.display_name@ == "Corey"@
        && p.last_view == ProfileView::Tasks && p.created_at == now
    &&& d.profile.profiles@.len() == 1 && Some(d.profile.profiles@[0]) == d.profile.active
    &&& st.len() == 3
    &&& is_mock_stage(st[0], ids[1], "Pending"@, 0, now)
    &&& is_mock_stage(st[1], ids[2], "In Progress"@, 1, now)
    &&& is_mock_stage(st[2], ids[3], "Complete"@, 2, now)
    &&& tk.len() == 4
    &&& is_mock_ticket(tk[0], ids[4], ids[1], "Wire up GitHub Actions"@,
        "Run cargo build + clippy on every push"@, 0, None, now)
    &&& is_mock_ticket(tk[1], ids[5], ids[1], "Ticket drag-and-drop"@,
        "Reorder within and across columns"@, 1, Some(ids[4]), now)
    &&& is_mock_ticket(tk[2], ids[6], ids[2], "Design system pass"@,
        "Soft-dark, teal, Nunito, bubbly, real icons"@, 0, None, now)
    &&& is_mock_ticket(tk[3], ids[7], ids[3], "Scaffold project"@,
        "Feature-sliced architecture + docker postgres"@, 0, None, now)
    &&& d.notes.notes@.len() == 0
    &&& d.projects.projects@.len() == 0
    &&& d.projects.worktrees@.len() == 0
    &&& d.todos.todos@.len() == 0
}

fn mock_stage(id: Id, name: &str, position: i32, now: Micros) -> (s: Stage)
    ensures
        is_mock_stage(s, id, name@, position, now),
{
    Stage { id, name: name.to_owned(), position, terminal: false, created_at: now }
}

fn mock_ticket(
    id: Id,
    stage_id: Id,
    title: &str,
    description: &str,
    position: i32,
    now: Micros,
) -> (t: Ticket)
    ensures
        is_mock_ticket(t, id, stage_id, title@, description@, position, None, now),
{
    Ticket {
        id,
        stage_id,
        title: title.to_owned(),
        description: description.to_owned(),
        position,
        parent_id: None,
        created_at: now,
        updated_at: now,
    }
}

/// The mock board built from the given identifiers and time.
pub fn mock_board_with(ids: [Id; 8], now: Micros) -> (d: ViewData)
    ensures
        is_mock_board(d, ids, now),
{
    let profile = Profile {
        id: ids[0],
        display_name: "Corey".to_owned(),
        last_view: ProfileView::Tasks,
        created_at: now,
    };
    let mut profiles: Vec<Profile> = Vec::new();
    profiles.push(profile.clone());
    let mut stages: Vec<Stage> = Vec::new();
    stages.push(mock_stage(ids[1], "Pending", 0, now));
    stages.push(mock_stage(ids[2], "In Progress", 1, now));
    stages.push(mock_stage(ids[3], "Complete", 2, now));
    let mut tickets: Vec<Ticket> = Vec::new();
    tickets.push(mock_ticket(ids[4], ids[1], "Wire up GitHub Actions", "Run cargo build + clippy on every push", 0, now));
    let mut child = mock_ticket(ids[5], ids[1], "Ticket drag-and-drop", "Reorder within and across columns", 1, now);
    child.parent_id = Some(ids[4]);
    tickets.push(child);
    tickets.push(mock_ticket(ids[6], ids[2], "Design system pass", "Soft-dark, teal, Nunito, bubbly, real icons", 0, now));
    tickets.push(mock_ticket(ids[7], ids[3], "Scaffold project", "Feature-sliced architecture + docker postgres", 0, now));
    ViewData {
        profile: ProfilesView { profiles, active: Some(profile) },
        tasks: TasksView { stages, tickets },
        notes: NotesView { notes: Vec::new() },
        projects: ProjectsView { projects: Vec::new(), worktrees: Vec::new() },
        todos: TodosView { todos: Vec::new() },
    }
}

/// A mock populated board (profile, three stages, a few tickets) with fresh random
/// identifiers, stamped with the current time.
pub fn mock_board() -> (d: ViewData)
    ensures
        exists|ids: [Id; 8], now: Micros| is_mock_board(d, ids, now),
{
    let ids = [new_id(), new_id(), new_id(), new_id(), new_id(), new_id(), new_id(), new_id()];
    let now = now_micros();
    mock_board_with(ids, now)
}

/// The bodies of the mock notes, oldest first.
pub open spec fn mock_note_bodies() -> Seq<Seq<char>> {
    seq![
        "First pass: a dragged card lifts onto a floating layer and follows the pointer."@,
        "Drops are detected by pointer position, since the cards cover the column."@,
        "Reordering columns reuses the same ghost; only the grip starts a column drag."@,
        "Remaining: keep the grab offset so a card never snaps its centre to the cursor."@,
    ]
}

/// The mock notes of a ticket: four notes on `ticket_id`, with identifiers taken from `ids`
/// in order, the bodies of [`mock_note_bodies`], every one stamped `now`. There are more of
/// them than the quick modal shows, so its cap on notes is exercised.
pub open spec fn is_mock_notes(notes: Seq<TicketNote>, ticket_id: Id, ids: [Id; 4], now: Micros) -> bool {
    &&& notes.len() == 4
    &&& forall|i: int|
        0 <= i < 4 ==> {
            &&& (#[trigger] notes[i]).id == ids[i]
            &&& notes[i].ticket_id == ticket_id
            &&& notes[i].body@ == mock_note_bodies()[i]
            &&& notes[i].created_at == now
        }
}

fn mock_note(id: Id, ticket_id: Id, body: &str, now: Micros) -> (n: TicketNote)
    ensures
        n.id == id && n.ticket_id == ticket_id && n.body@ == body@ && n.created_at == now,
{
    TicketNote { id, ticket_id, body: body.to_owned(), created_at: now }
}

/// The mock notes built from the given identifiers and time.
pub fn mock_notes_with(ticket_id: Id, ids: [Id; 4], now: Micros) -> (r: Vec<TicketNote>)
    ensures
        is_mock_notes(r@, ticket_id, ids, now),
{
    let mut r: Vec<TicketNote> = Vec::new();
    r.push(mock_note(ids[0], ticket_id, "First pass: a dragged card lifts onto a floating layer and follows the pointer.", now));
    r.push(mock_note(ids[1], ticket_id, "Drops are detected by pointer position, since the cards cover the column.", now));
    r.push(mock_note(ids[2], ticket_id, "Reordering columns reuses the same ghost; only the grip starts a column drag.", now));
    r.push(mock_note(ids[3], ticket_id, "Remaining: keep the grab offset so a card never snaps its centre to the cursor.", now));
    r
}

/// Mock notes for a ticket's detail (dev review), with fresh random identifiers, stamped with
/// the current time.
pub fn mock_notes(ticket_id: Id) -> (r: Vec<TicketNote>)
    ensures
        exists|ids: [Id; 4], now: Micros| is_mock_notes(r@, ticket_id, ids, now),
{
    let ids = [new_id(), new_id(), new_id(), new_id()];
    let now = now_micros();
    mock_notes_with(ticket_id, ids, now)
}

/// The sample error of the error-modal screen: the database is unreachable, retrying may
/// help, and there is no command output.
pub open spec fn is_mock_error(e: UserFacingError) -> bool {
    &&& e.title@ == "Database unavailable"@
    &&& e.detail@ == "cannot reach PostgreSQL at `localhost:5433/devdash`. Is the database running?"@
    &&& e.remediation@ == "Start PostgreSQL with `./scripts/db-up.sh`, then press Retry."@
    &&& e.retryable
    &&& e.output is None
}

/// A sample error for the error-modal screen.
pub fn mock_error() -> (e: UserFacingError)
    ensures
        is_mock_error(e),
{
    UserFacingError {
        title: "Database unavailable".to_owned(),
        detail: "cannot reach PostgreSQL at `localhost:5433/devdash`. Is the database running?".to_owned(),
        remediation: "Start PostgreSQL with `./scripts/db-up.sh`, then press Retry.".to_owned(),
        retryable: true,
        output: None,
    }
}

} // verus!
