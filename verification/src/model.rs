//! The data the interface renders: the snapshot of every feature's slice that the worker
//! hands over, and the messages it sends. Pure data; lookups are verified against their
//! specifications.

use vstd::prelude::*;

verus! {

/// Identifier of a stored entity (the 128-bit value of its UUID).
pub type Id = u128;

/// A point in time, in microseconds since the Unix epoch (UTC).
pub type Micros = i64;

/// Entities that carry an identifier.
pub trait Keyed {
    spec fn key(&self) -> Id;

    fn id(&self) -> (r: Id)
        ensures
            r == self.key(),
    ;
}

/// Whether some element of `s` carries `id`.
pub open spec fn holds_id<T: Keyed>(s: Seq<T>, id: Id) -> bool {
    exists|i: int| 0 <= i < s.len() && #[trigger] s[i].key() == id
}

/// `i` is the first position of `s` whose element carries `id`.
pub open spec fn is_first_with_id<T: Keyed>(s: Seq<T>, id: Id, i: int) -> bool {
    &&& 0 <= i < s.len()
    &&& s[i].key() == id
    &&& forall|j: int| 0 <= j < i ==> #[trigger] s[j].key() != id
}

/// The first element of `s` that carries `id`, if any.
pub open spec fn lookup<T: Keyed>(s: Seq<T>, id: Id) -> Option<T> {
    if holds_id(s, id) {
        Some(s[choose|i: int| is_first_with_id(s, id, i)])
    } else {
        None
    }
}

/// The element found at the first position carrying `id` is the one `lookup` names.
pub proof fn lemma_first_with_id<T: Keyed>(s: Seq<T>, id: Id, i: int)
    requires
        is_first_with_id(s, id, i),
    ensures
        lookup(s, id) == Some(s[i]),
{
    let k = choose|k: int| is_first_with_id(s, id, k);
    assert(is_first_with_id(s, id, k));
    if k < i {
        assert(s[k].key() != id);
    }
    if i < k {
        assert(s[i].key() != id);
    }
}

/// `lookup` finds something exactly when some element carries the id, and what it finds
/// carries that id and belongs to the sequence.
pub proof fn lemma_lookup<T: Keyed>(s: Seq<T>, id: Id)
    ensures
        lookup(s, id) is Some <==> holds_id(s, id),
        lookup(s, id) matches Some(t) ==> t.key() == id && s.contains(t),
{
    if holds_id(s, id) {
        let w = choose|w: int| 0 <= w < s.len() && #[trigger] s[w].key() == id;
        lemma_first_exists(s, id, w);
        let k = choose|k: int| is_first_with_id(s, id, k);
        assert(s[k] == lookup(s, id).unwrap());
    }
}

/// If some position carries the id, there is a first one.
pub proof fn lemma_first_exists<T: Keyed>(s: Seq<T>, id: Id, w: int)
    requires
        0 <= w < s.len(),
        s[w].key() == id,
    ensures
        exists|k: int| is_first_with_id(s, id, k),
    decreases w,
{
    if forall|j: int| 0 <= j < w ==> #[trigger] s[j].key() != id {
        assert(is_first_with_id(s, id, w));
    } else {
        let j = choose|j: int| 0 <= j < w && #[trigger] s[j].key() == id;
        lemma_first_exists(s, id, j);
    }
}

/// Position of the first element of `v` that carries `id`.
pub fn position_of<T: Keyed>(v: &Vec<T>, id: Id) -> (r: Option<usize>)
    ensures
        match r {
            Some(i) => is_first_with_id(v@, id, i as int) && lookup(v@, id) == Some(v@[i as int]),
            None => !holds_id(v@, id) && lookup(v@, id) is None,
        },
{
    let mut i: usize = 0;
    while i < v.len()
        invariant
            i <= v.len(),
            forall|j: int| 0 <= j < i ==> #[trigger] v@[j].key() != id,
        decreases v.len() - i,
    {
        if v[i].id() == id {
            proof {
                lemma_first_with_id(v@, id, i as int);
            }
            return Some(i);
        }
        i = i + 1;
    }
    None
}

/// When `w` is the first position whose element satisfies `pred`, the filtered sequence
/// starts with that element.
pub proof fn lemma_first_filtered<A>(s: Seq<A>, pred: spec_fn(A) -> bool, w: int)
    requires
        0 <= w < s.len(),
        pred(s[w]),
        forall|v: int| 0 <= v < w ==> !pred(#[trigger] s[v]),
    ensures
        s.filter(pred).len() > 0,
        s.filter(pred)[0] == s[w],
    decreases s.len(),
{
    reveal(Seq::filter);
    let init = s.drop_last();
    if w == s.len() - 1 {
        assert forall|x: A| #[trigger] init.contains(x) implies !pred(x) by {
            let v = choose|v: int| 0 <= v < init.len() && init[v] == x;
            assert(s[v] == x);
        }
        assert(init.all(|x: A| !pred(x)));
        init.lemma_all_neg_filter_empty(pred);
    } else {
        lemma_first_filtered(init, pred, w);
    }
}

/// Taking one more element of `s` extends the filtered prefix by that element exactly when
/// it satisfies the predicate.
pub proof fn lemma_filter_take_step<A>(s: Seq<A>, pred: spec_fn(A) -> bool, i: int)
    requires
        0 <= i < s.len(),
    ensures
        s.take(i + 1).filter(pred) == (if pred(s[i]) {
            s.take(i).filter(pred).push(s[i])
        } else {
            s.take(i).filter(pred)
        }),
{
    reveal(Seq::filter);
    assert(s.take(i + 1).drop_last() =~= s.take(i));
}

/// The page a profile last viewed, persisted per profile.
#[derive(Clone, Copy, Debug, PartialEq, Eq, Structural)]
pub enum ProfileView {
    Home,
    Tasks,
    Notes,
    Projects,
    Todos,
}

/// A profile: a self-contained workspace.
pub struct Profile {
    pub id: Id,
    pub display_name: String,
    pub last_view: ProfileView,
    pub created_at: Micros,
}

impl Clone for Profile {
    fn clone(&self) -> (r: Self)
        ensures
            r == *self,
    {
        Profile {
            id: self.id,
            display_name: self.display_name.clone(),
            last_view: self.last_view,
            created_at: self.created_at,
        }
    }
}

impl Keyed for Profile {
    open spec fn key(&self) -> Id {
        self.id
    }

    fn id(&self) -> (r: Id) {
        self.id
    }
}

/// The profile slice: every profile, and the active one (if any).
pub struct ProfilesView {
    pub profiles: Vec<Profile>,
    pub active: Option<Profile>,
}

impl ProfilesView {
    pub open spec fn active_key(&self) -> Option<Id> {
        match self.active {
            Some(p) => Some(p.id),
            None => None,
        }
    }

    /// Id of the active profile.
    pub fn active_id(&self) -> (r: Option<Id>)
        ensures
            r == self.active_key(),
    {
        match &self.active {
            Some(p) => Some(p.id),
            None => None,
        }
    }
}

/// A board column.
pub struct Stage {
    pub id: Id,
    pub name: String,
    pub position: i32,
    /// An end state (e.g. Complete): its column collapses to a count.
    pub terminal: bool,
    pub created_at: Micros,
}

impl Clone for Stage {
    fn clone(&self) -> (r: Self)
        ensures
            r == *self,
    {
        Stage {
            id: self.id,
            name: self.name.clone(),
            position: self.position,
            terminal: self.terminal,
            created_at: self.created_at,
        }
    }
}

impl Keyed for Stage {
    open spec fn key(&self) -> Id {
        self.id
    }

    fn id(&self) -> (r: Id) {
        self.id
    }
}

/// A ticket on the board.
pub struct Ticket {
    pub id: Id,
    pub stage_id: Id,
    pub title: String,
    pub description: String,
    pub position: i32,
    pub parent_id: Option<Id>,
    pub created_at: Micros,
    pub updated_at: Micros,
}

impl Clone for Ticket {
    fn clone(&self) -> (r: Self)
        ensures
            r == *self,
    {
        Ticket {
            id: self.id,
            stage_id: self.stage_id,
            title: self.title.clone(),
            description: self.description.clone(),
            position: self.position,
            parent_id: self.parent_id,
            created_at: self.created_at,
            updated_at: self.updated_at,
        }
    }
}

impl Keyed for Ticket {
    open spec fn key(&self) -> Id {
        self.id
    }

    fn id(&self) -> (r: Id) {
        self.id
    }
}

/// A note attached to a ticket.
pub struct TicketNote {
    pub id: Id,
    pub ticket_id: Id,
    pub body: String,
    pub created_at: Micros,
}

impl Clone for TicketNote {
    fn clone(&self) -> (r: Self)
        ensures
            r == *self,
    {
        TicketNote {
            id: self.id,
            ticket_id: self.ticket_id,
            body: self.body.clone(),
            created_at: self.created_at,
        }
    }
}

/// Tickets of one stage.
pub open spec fn in_stage(stage_id: Id) -> spec_fn(Ticket) -> bool {
    |t: Ticket| t.stage_id == stage_id
}

/// Tickets whose parent is `parent_id`.
pub open spec fn child_of(parent_id: Id) -> spec_fn(Ticket) -> bool {
    |t: Ticket| t.parent_id == Some(parent_id)
}

/// The tasks slice: stages in board order and every ticket.
pub struct TasksView {
    pub stages: Vec<Stage>,
    pub tickets: Vec<Ticket>,
}

impl TasksView {
    pub open spec fn has_ticket(&self, id: Id) -> bool {
        holds_id(self.tickets@, id)
    }

    pub open spec fn has_stage(&self, id: Id) -> bool {
        holds_id(self.stages@, id)
    }

    pub open spec fn ticket_spec(&self, id: Id) -> Option<Ticket> {
        lookup(self.tickets@, id)
    }

    pub open spec fn stage_spec(&self, id: Id) -> Option<Stage> {
        lookup(self.stages@, id)
    }

    /// Whether the stage with this id is a terminal one (false when there is no such stage).
    pub open spec fn terminal_spec(&self, stage_id: Id) -> bool {
        match self.stage_spec(stage_id) {
            Some(s) => s.terminal,
            None => false,
        }
    }

    /// The ticket with this id.
    pub fn ticket(&self, id: Id) -> (r: Option<&Ticket>)
        ensures
            match r {
                Some(t) => self.ticket_spec(id) == Some(*t),
                None => self.ticket_spec(id) is None,
            },
    {
        match position_of(&self.tickets, id) {
            Some(i) => Some(&self.tickets[i]),
            None => None,
        }
    }

    /// The stage with this id.
    pub fn stage(&self, id: Id) -> (r: Option<&Stage>)
        ensures
            match r {
                Some(s) => self.stage_spec(id) == Some(*s),
                None => self.stage_spec(id) is None,
            },
    {
        match position_of(&self.stages, id) {
            Some(i) => Some(&self.stages[i]),
            None => None,
        }
    }

    /// Whether the stage with this id is terminal.
    pub fn is_terminal(&self, stage_id: Id) -> (r: bool)
        ensures
            r == self.terminal_spec(stage_id),
    {
        match self.stage(stage_id) {
            Some(s) => s.terminal,
            None => false,
        }
    }

    /// The tickets of a stage, in board order.
    pub fn tickets_for(&self, stage_id: Id) -> (r: Vec<Ticket>)
        ensures
            r@ == self.tickets@.filter(in_stage(stage_id)),
    {
        let mut r: Vec<Ticket> = Vec::new();
        let mut i: usize = 0;
        while i < self.tickets.len()
            invariant
                i <= self.tickets.len(),
                r@ == self.tickets@.take(i as int).filter(in_stage(stage_id)),
            decreases self.tickets.len() - i,
        {
            proof {
                lemma_filter_take_step(self.tickets@, in_stage(stage_id), i as int);
            }
            if self.tickets[i].stage_id == stage_id {
                r.push(self.tickets[i].clone());
            }
            i = i + 1;
        }
        proof {
            assert(self.tickets@.take(i as int) =~= self.tickets@);
        }
        r
    }

    /// The children of a ticket, in board order.
    pub fn children_of(&self, parent_id: Id) -> (r: Vec<Ticket>)
        ensures
            r@ == self.tickets@.filter(child_of(parent_id)),
    {
        let mut r: Vec<Ticket> = Vec::new();
        let mut i: usize = 0;
        while i < self.tickets.len()
            invariant
                i <= self.tickets.len(),
                r@ == self.tickets@.take(i as int).filter(child_of(parent_id)),
            decreases self.tickets.len() - i,
        {
            proof {
                lemma_filter_take_step(self.tickets@, child_of(parent_id), i as int);
            }
            if self.tickets[i].parent_id == Some(parent_id) {
                r.push(self.tickets[i].clone());
            }
            i = i + 1;
        }
        proof {
            assert(self.tickets@.take(i as int) =~= self.tickets@);
        }
        r
    }

    /// The parent of a ticket, if it has one that is on the board.
    pub fn parent_of(&self, ticket: &Ticket) -> (r: Option<&Ticket>)
        ensures
            match ticket.parent_id {
                Some(p) => match r {
                    Some(t) => self.ticket_spec(p) == Some(*t),
                    None => self.ticket_spec(p) is None,
                },
                None => r is None,
            },
    {
        match ticket.parent_id {
            Some(p) => self.ticket(p),
            None => None,
        }
    }
}

/// An uncategorized note (Notes tab).
pub struct Note {
    pub id: Id,
    pub body: String,
    pub created_at: Micros,
}

impl Clone for Note {
    fn clone(&self) -> (r: Self)
        ensures
            r == *self,
    {
        Note { id: self.id, body: self.body.clone(), created_at: self.created_at }
    }
}

/// The notes slice, newest first.
pub struct NotesView {
    pub notes: Vec<Note>,
}

/// A todo item.
pub struct Todo {
    pub id: Id,
    pub body: String,
    pub done: bool,
    pub created_at: Micros,
}

impl Clone for Todo {
    fn clone(&self) -> (r: Self)
        ensures
            r == *self,
    {
        Todo { id: self.id, body: self.body.clone(), done: self.done, created_at: self.created_at }
    }
}

/// The todos slice.
pub struct TodosView {
    pub todos: Vec<Todo>,
}

/// What git reports of a project's repository.
pub struct GitStatus {
    /// The path is a git repository.
    pub is_repo: bool,
    /// No uncommitted changes.
    pub clean: bool,
    /// Commits ahead of the upstream branch.
    pub ahead: u32,
    /// Commits behind the upstream branch.
    pub behind: u32,
    pub has_upstream: bool,
    /// The comparison was made against a fresh fetch.
    pub fetched: bool,
    /// The repository needs no attention (as the git layer judges it).
    pub up_to_date: bool,
    pub branch: Option<String>,
    pub origin_url: Option<String>,
}

/// A tracked repository.
pub struct Project {
    pub id: Id,
    pub name: String,
    pub path: String,
    pub setup_script: String,
    pub teardown_script: String,
}

/// A project with its git status.
pub struct ProjectCard {
    pub project: Project,
    pub git: GitStatus,
    /// A pull is in flight.
    pub pulling: bool,
}

impl Keyed for ProjectCard {
    open spec fn key(&self) -> Id {
        self.project.id
    }

    fn id(&self) -> (r: Id) {
        self.project.id
    }
}

/// A worktree of a project created for a ticket. A removed worktree stays as a marker
/// that can be recreated.
pub struct Worktree {
    pub id: Id,
    pub project_id: Id,
    pub ticket_id: Id,
    pub branch: String,
    /// Where the worktree lives on disk.
    pub path: String,
    /// Present on disk (false for a removed, recreatable marker).
    pub live: bool,
}

impl Clone for Worktree {
    fn clone(&self) -> (r: Self)
        ensures
            r == *self,
    {
        Worktree {
            id: self.id,
            project_id: self.project_id,
            ticket_id: self.ticket_id,
            branch: self.branch.clone(),
            path: self.path.clone(),
            live: self.live,
        }
    }
}

impl Keyed for Worktree {
    open spec fn key(&self) -> Id {
        self.id
    }

    fn id(&self) -> (r: Id) {
        self.id
    }
}

/// Worktrees of one ticket.
pub open spec fn for_ticket(ticket_id: Id) -> spec_fn(Worktree) -> bool {
    |w: Worktree| w.ticket_id == ticket_id
}

/// Worktrees of one project.
pub open spec fn for_project(project_id: Id) -> spec_fn(Worktree) -> bool {
    |w: Worktree| w.project_id == project_id
}

/// Live worktrees of one project.
pub open spec fn live_in_project(project_id: Id) -> spec_fn(Worktree) -> bool {
    |w: Worktree| w.project_id == project_id && w.live
}

/// Live worktrees of one ticket.
pub open spec fn live_for_ticket(ticket_id: Id) -> spec_fn(Worktree) -> bool {
    |w: Worktree| w.ticket_id == ticket_id && w.live
}

/// The projects slice.
pub struct ProjectsView {
    pub projects: Vec<ProjectCard>,
    pub worktrees: Vec<Worktree>,
}

impl ProjectsView {
    pub open spec fn has_project(&self, id: Id) -> bool {
        holds_id(self.projects@, id)
    }

    pub open spec fn project_spec(&self, id: Id) -> Option<ProjectCard> {
        lookup(self.projects@, id)
    }

    /// The project card with this id.
    pub fn project(&self, id: Id) -> (r: Option<&ProjectCard>)
        ensures
            match r {
                Some(c) => self.project_spec(id) == Some(*c),
                None => self.project_spec(id) is None,
            },
    {
        match position_of(&self.projects, id) {
            Some(i) => Some(&self.projects[i]),
            None => None,
        }
    }

    /// Worktrees matching one of the selections above, in stored order.
    fn select_worktrees(&self, key: Id, by_ticket: bool) -> (r: Vec<Worktree>)
        ensures
            r@ == self.worktrees@.filter(
                if by_ticket {
                    for_ticket(key)
                } else {
                    for_project(key)
                },
            ),
    {
        let ghost pred = if by_ticket {
            for_ticket(key)
        } else {
            for_project(key)
        };
        let mut r: Vec<Worktree> = Vec::new();
        let mut i: usize = 0;
        while i < self.worktrees.len()
            invariant
                i <= self.worktrees.len(),
                pred == (if by_ticket {
                    for_ticket(key)
                } else {
                    for_project(key)
                }),
                r@ == self.worktrees@.take(i as int).filter(pred),
            decreases self.worktrees.len() - i,
        {
            proof {
                lemma_filter_take_step(self.worktrees@, pred, i as int);
            }
            let w = &self.worktrees[i];
            let hit = if by_ticket {
                w.ticket_id == key
            } else {
                w.project_id == key
            };
            if hit {
                r.push(w.clone());
            }
            i = i + 1;
        }
        proof {
            assert(self.worktrees@.take(i as int) =~= self.worktrees@);
        }
        r
    }

    /// This ticket's worktrees across projects (live and removed).
    pub fn worktrees_for_ticket(&self, ticket_id: Id) -> (r: Vec<Worktree>)
        ensures
            r@ == self.worktrees@.filter(for_ticket(ticket_id)),
    {
        self.select_worktrees(ticket_id, true)
    }

    /// This project's worktrees (live and removed).
    pub fn worktrees_for_project(&self, project_id: Id) -> (r: Vec<Worktree>)
        ensures
            r@ == self.worktrees@.filter(for_project(project_id)),
    {
        self.select_worktrees(project_id, false)
    }

    /// How many live worktrees a project has.
    pub fn live_count_for_project(&self, project_id: Id) -> (r: usize)
        ensures
            r == self.worktrees@.filter(live_in_project(project_id)).len(),
    {
        let mut n: usize = 0;
        let mut i: usize = 0;
        while i < self.worktrees.len()
            invariant
                i <= self.worktrees.len(),
                n == self.worktrees@.take(i as int).filter(live_in_project(project_id)).len(),
                n <= i,
            decreases self.worktrees.len() - i,
        {
            proof {
                lemma_filter_take_step(self.worktrees@, live_in_project(project_id), i as int);
            }
            if self.worktrees[i].project_id == project_id && self.worktrees[i].live {
                n = n + 1;
            }
            i = i + 1;
        }
        proof {
            assert(self.worktrees@.take(i as int) =~= self.worktrees@);
        }
        n
    }

    /// How many live worktrees a ticket has.
    pub fn live_count_for_ticket(&self, ticket_id: Id) -> (r: usize)
        ensures
            r == self.worktrees@.filter(live_for_ticket(ticket_id)).len(),
    {
        let mut n: usize = 0;
        let mut i: usize = 0;
        while i < self.worktrees.len()
            invariant
                i <= self.worktrees.len(),
                n == self.worktrees@.take(i as int).filter(live_for_ticket(ticket_id)).len(),
                n <= i,
            decreases self.worktrees.len() - i,
        {
            proof {
                lemma_filter_take_step(self.worktrees@, live_for_ticket(ticket_id), i as int);
            }
            if self.worktrees[i].ticket_id == ticket_id && self.worktrees[i].live {
                n = n + 1;
            }
            i = i + 1;
        }
        proof {
            assert(self.worktrees@.take(i as int) =~= self.worktrees@);
        }
        n
    }
}

/// The whole snapshot the worker builds for the interface.
pub struct ViewData {
    pub profile: ProfilesView,
    pub tasks: TasksView,
    pub notes: NotesView,
    pub projects: ProjectsView,
    pub todos: TodosView,
}

impl ViewData {
    /// The empty snapshot (no profile, nothing loaded).
    pub fn empty() -> (r: Self)
        ensures
            r.profile.profiles@.len() == 0,
            r.profile.active is None,
            r.tasks.stages@.len() == 0,
            r.tasks.tickets@.len() == 0,
            r.notes.notes@.len() == 0,
            r.projects.projects@.len() == 0,
            r.projects.worktrees@.len() == 0,
            r.todos.todos@.len() == 0,
    {
        ViewData {
            profile: ProfilesView { profiles: Vec::new(), active: None },
            tasks: TasksView { stages: Vec::new(), tickets: Vec::new() },
            notes: NotesView { notes: Vec::new() },
            projects: ProjectsView { projects: Vec::new(), worktrees: Vec::new() },
            todos: TodosView { todos: Vec::new() },
        }
    }

    /// Whether a profile is active.
    pub fn has_profile(&self) -> (r: bool)
        ensures
            r == self.profile.active is Some,
    {
        self.profile.active.is_some()
    }
}

/// An error shown to the owner in a blocking alert.
pub struct UserFacingError {
    pub title: String,
    pub detail: String,
    pub remediation: String,
    /// Retrying (reconnect and reload) may fix it.
    pub retryable: bool,
    /// Raw output of a failed external command, if any.
    pub output: Option<String>,
}

/// A message from the tasks worker.
pub enum TasksMessage {
    /// A ticket's notes finished loading.
    Notes { ticket_id: Id, notes: Vec<TicketNote> },
}

/// What the worker sends the interface.
pub enum AppMessage {
    /// A fresh snapshot of everything.
    Snapshot(ViewData),
    Tasks(TasksMessage),
    Error(UserFacingError),
}

} // verus!
