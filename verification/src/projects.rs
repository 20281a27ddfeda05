//! The Projects tab: the card grid, a project's detail page, the add-project and
//! create-worktree modals, and the confirmations for deleting a project and removing a
//! worktree.

use vstd::prelude::*;
use vstd::string::*;

use crate::components::Choice;
use crate::events::{ProjectsEvent, UiEvent};
use crate::model::{
    for_project, for_ticket, lemma_filter_take_step, lemma_first_filtered, lemma_lookup, GitStatus, Id,
    ProjectCard, ProjectsView, TasksView, Worktree,
};
use crate::text::{decimal, has_content, is_blank, join, joined, trim_spec, trimmed, u32_text};

verus! {

/// Draft of the open "add project" modal.
pub struct NewProjectModal {
    pub name: String,
    pub path: String,
}

impl Default for NewProjectModal {
    fn default() -> (r: Self)
        ensures
            r.name@.len() == 0,
            r.path@.len() == 0,
    {
        NewProjectModal { name: String::new(), path: String::new() }
    }
}

/// Draft of the open "setup script" editor (a project's per-worktree bash script).
pub struct SetupScriptModal {
    pub project_id: Id,
    pub script: String,
}

impl SetupScriptModal {
    /// The editor for a project's current script.
    pub fn new(project_id: Id, current: &str) -> (r: Self)
        ensures
            r.project_id == project_id,
            r.script@ == current@,
    {
        SetupScriptModal { project_id, script: current.to_owned() }
    }

    pub fn project_id(&self) -> (r: Id)
        ensures
            r == self.project_id,
    {
        self.project_id
    }
}

/// Draft of the open "create worktree" modal (always for a ticket).
pub struct NewWorktreeModal {
    pub ticket_id: Id,
    pub project_id: Option<Id>,
    pub branch: String,
}

impl NewWorktreeModal {
    /// A blank draft for a ticket.
    pub fn new(ticket_id: Id) -> (r: Self)
        ensures
            r.ticket_id == ticket_id,
            r.project_id is None,
            r.branch@.len() == 0,
    {
        NewWorktreeModal { ticket_id, project_id: None, branch: String::new() }
    }
}

/// Whether a live worktree with this id exists.
pub open spec fn has_live_worktree(projects: ProjectsView, id: Id) -> bool {
    exists|i: int|
        0 <= i < projects.worktrees@.len() && #[trigger] projects.worktrees@[i].id == id
            && projects.worktrees@[i].live
}

/// All transient UI state of the Projects tab.
pub struct ProjectsState {
    /// The open "add project" modal.
    pub adding: Option<NewProjectModal>,
    /// The project whose detail page has taken over the workspace.
    pub open_project: Option<Id>,
    /// The open setup-script editor.
    pub editing_setup_script: Option<SetupScriptModal>,
    /// A project pending a delete confirmation.
    pub confirm_delete_project: Option<Id>,
    /// A worktree pending a remove confirmation.
    pub confirm_remove_worktree: Option<Id>,
    /// The open "create worktree" modal.
    pub creating_worktree: Option<NewWorktreeModal>,
    /// A worktree row asked to open its ticket's detail.
    pub pending_open_ticket: Option<Id>,
}

impl Default for ProjectsState {
    fn default() -> (r: Self)
        ensures
            r.is_initial(),
    {
        ProjectsState {
            adding: None,
            open_project: None,
            editing_setup_script: None,
            confirm_delete_project: None,
            confirm_remove_worktree: None,
            creating_worktree: None,
            pending_open_ticket: None,
        }
    }
}

impl ProjectsState {
    /// Nothing open or pending.
    pub open spec fn is_initial(&self) -> bool {
        &&& self.adding is None
        &&& self.open_project is None
        &&& self.editing_setup_script is None
        &&& self.confirm_delete_project is None
        &&& self.confirm_remove_worktree is None
        &&& self.creating_worktree is None
        &&& self.pending_open_ticket is None
    }

    /// The page the workspace shows: the open project's detail while that project exists,
    /// else the grid (an open project that vanished is closed).
    pub fn current_page(&mut self, projects: &ProjectsView) -> (r: Option<Id>)
        ensures
            r == (match old(self).open_project {
                Some(id) => if projects.has_project(id) {
                    Some(id)
                } else {
                    None
                },
                None => None,
            }),
            *final(self) == (ProjectsState { open_project: r, ..*old(self) }),
    {
        match self.open_project {
            Some(id) => {
                proof {
                    lemma_lookup(projects.projects@, id);
                }
                if projects.project(id).is_some() {
                    Some(id)
                } else {
                    self.open_project = None;
                    None
                }
            },
            None => None,
        }
    }

    /// Postcondition of reconciling against a fresh snapshot.
    pub open spec fn reconciled(old: ProjectsState, projects: ProjectsView, new: ProjectsState) -> bool {
        &&& new.open_project == (match old.open_project {
            Some(id) => if projects.has_project(id) {
                Some(id)
            } else {
                None
            },
            None => None,
        })
        &&& new.confirm_delete_project == (match old.confirm_delete_project {
            Some(id) => if projects.has_project(id) {
                Some(id)
            } else {
                None
            },
            None => None,
        })
        &&& new.editing_setup_script == (match old.editing_setup_script {
            Some(m) => if projects.has_project(m.project_id) {
                Some(m)
            } else {
                None
            },
            None => None,
        })
        &&& new.confirm_remove_worktree == (match old.confirm_remove_worktree {
            Some(id) => if has_live_worktree(projects, id) {
                Some(id)
            } else {
                None
            },
            None => None,
        })
        &&& new.adding == old.adding
        &&& new.creating_worktree == old.creating_worktree
        &&& new.pending_open_ticket == old.pending_open_ticket
    }

    /// Close a detail page, editor or confirmation whose project vanished, and a pending
    /// remove-confirmation whose worktree is gone or already a marker.
    pub fn reconcile(&mut self, projects: &ProjectsView)
        ensures
            Self::reconciled(*old(self), *projects, *final(self)),
    {
        if let Some(id) = self.open_project {
            proof {
                lemma_lookup(projects.projects@, id);
            }
            if projects.project(id).is_none() {
                self.open_project = None;
            }
        }
        if let Some(id) = self.confirm_delete_project {
            proof {
                lemma_lookup(projects.projects@, id);
            }
            if projects.project(id).is_none() {
                self.confirm_delete_project = None;
            }
        }
        let drop_editor = match &self.editing_setup_script {
            Some(m) => {
                proof {
                    lemma_lookup(projects.projects@, m.project_id);
                }
                projects.project(m.project_id()).is_none()
            },
            None => false,
        };
        if drop_editor {
            self.editing_setup_script = None;
        }
        if let Some(id) = self.confirm_remove_worktree {
            if !live_worktree_exists(projects, id) {
                self.confirm_remove_worktree = None;
            }
        }
    }

    /// Open the create-worktree picker for a ticket (asked for by the ticket detail).
    pub fn open_create_worktree(&mut self, ticket_id: Id)
        ensures
            final(self).creating_worktree matches Some(d) && d.ticket_id == ticket_id && d.project_id
                is None && d.branch@.len() == 0,
            *final(self) == (ProjectsState { creating_worktree: final(self).creating_worktree, ..*old(self) }),
    {
        self.creating_worktree = Some(NewWorktreeModal::new(ticket_id));
    }

    /// Ask to confirm removing a worktree (from the project page or the ticket detail).
    pub fn request_remove_worktree(&mut self, worktree_id: Id)
        ensures
            *final(self) == (ProjectsState { confirm_remove_worktree: Some(worktree_id), ..*old(self) }),
    {
        self.confirm_remove_worktree = Some(worktree_id);
    }

    /// A worktree row asked to open its ticket: the shell hands it to the board.
    pub fn request_open_ticket(&mut self, ticket_id: Id)
        ensures
            *final(self) == (ProjectsState { pending_open_ticket: Some(ticket_id), ..*old(self) }),
    {
        self.pending_open_ticket = Some(ticket_id);
    }

    /// Take the pending "open this worktree's ticket" request, if any.
    pub fn take_pending_open_ticket(&mut self) -> (r: Option<Id>)
        ensures
            r == old(self).pending_open_ticket,
            *final(self) == (ProjectsState { pending_open_ticket: None, ..*old(self) }),
    {
        self.pending_open_ticket.take()
    }

    /// Open a project's detail page (a card was clicked).
    pub fn open_project_page(&mut self, project_id: Id)
        ensures
            *final(self) == (ProjectsState { open_project: Some(project_id), ..*old(self) }),
    {
        self.open_project = Some(project_id);
    }

    /// Back from a project's detail page to the grid.
    pub fn close_project_page(&mut self)
        ensures
            *final(self) == (ProjectsState { open_project: None, ..*old(self) }),
    {
        self.open_project = None;
    }

    /// Open a project's detail page directly (dev review).
    pub fn dev_open_project(&mut self, project_id: Id)
        ensures
            *final(self) == (ProjectsState { open_project: Some(project_id), ..*old(self) }),
    {
        self.open_project = Some(project_id);
    }

    /// Open the "add project" modal directly (dev review), blank.
    pub fn dev_open_add_project(&mut self)
        ensures
            final(self).adding matches Some(d) && d.name@.len() == 0 && d.path@.len() == 0,
            *final(self) == (ProjectsState { adding: final(self).adding, ..*old(self) }),
    {
        self.adding = Some(NewProjectModal::default());
    }

    /// Open a project's detail page with its setup-script editor (dev review).
    pub fn dev_open_setup_script(&mut self, project_id: Id, current: &str)
        ensures
            final(self).open_project == Some(project_id),
            final(self).editing_setup_script matches Some(m) && m.project_id == project_id
                && m.script@ == current@,
            *final(self) == (ProjectsState {
                open_project: Some(project_id),
                editing_setup_script: final(self).editing_setup_script,
                ..*old(self)
            }),
    {
        self.open_project = Some(project_id);
        self.editing_setup_script = Some(SetupScriptModal::new(project_id, current));
    }

    /// "Add project" on the grid: open the modal blank.
    pub fn open_add_project(&mut self)
        ensures
            final(self).adding matches Some(d) && d.name@.len() == 0 && d.path@.len() == 0,
            *final(self) == (ProjectsState { adding: final(self).adding, ..*old(self) }),
    {
        self.adding = Some(NewProjectModal::default());
    }

    /// "Delete project" on the detail page: ask to confirm.
    pub fn request_delete_project(&mut self, project_id: Id)
        ensures
            *final(self) == (ProjectsState { confirm_delete_project: Some(project_id), ..*old(self) }),
    {
        self.confirm_delete_project = Some(project_id);
    }

    /// Settle a frame of the add-project modal: a submit with a non-blank name and path adds
    /// the project (trimmed); Cancel or the backdrop closes the modal.
    pub fn settle_add_project(&mut self, submit: bool, cancel: bool, dismissed: bool) -> (e: Option<UiEvent>)
        ensures
            match old(self).adding {
                None => e is None && *final(self) == *old(self),
                Some(d) => if submit && has_content(d.name@) && has_content(d.path@) {
                    &&& e matches Some(UiEvent::Projects(ProjectsEvent::CreateProject { name, path }))
                        && name@ == trim_spec(d.name@) && path@ == trim_spec(d.path@)
                    &&& *final(self) == (ProjectsState { adding: None, ..*old(self) })
                } else if cancel || dismissed {
                    e is None && *final(self) == (ProjectsState { adding: None, ..*old(self) })
                } else {
                    e is None && *final(self) == *old(self)
                },
            },
    {
        let ready = match &self.adding {
            Some(d) => submit && !is_blank(&d.name) && !is_blank(&d.path),
            None => {
                return None;
            },
        };
        if ready {
            let d = self.adding.take().unwrap();
            return Some(UiEvent::Projects(ProjectsEvent::CreateProject {
                name: trimmed(&d.name),
                path: trimmed(&d.path),
            }));
        }
        if cancel || dismissed {
            self.adding = None;
        }
        None
    }

    /// Act on a frame of the delete-project confirmation: confirming deletes the project (the
    /// repository on disk is untouched) and leaves its page; cancelling clears it.
    pub fn settle_delete_project(&mut self, choice: Choice) -> (e: Option<UiEvent>)
        ensures
            match (old(self).confirm_delete_project, choice) {
                (Some(id), Choice::Confirmed) => {
                    &&& e == Some(UiEvent::Projects(ProjectsEvent::DeleteProject(id)))
                    &&& *final(self) == (ProjectsState {
                        confirm_delete_project: None,
                        open_project: None,
                        ..*old(self)
                    })
                },
                (Some(_), Choice::Cancelled) => {
                    e is None && *final(self) == (ProjectsState { confirm_delete_project: None, ..*old(self) })
                },
                _ => e is None && *final(self) == *old(self),
            },
    {
        match self.confirm_delete_project {
            Some(id) => match choice {
                Choice::Confirmed => {
                    self.confirm_delete_project = None;
                    self.open_project = None;
                    Some(UiEvent::Projects(ProjectsEvent::DeleteProject(id)))
                },
                Choice::Cancelled => {
                    self.confirm_delete_project = None;
                    None
                },
                Choice::Pending => None,
            },
            None => None,
        }
    }

    /// Act on a frame of the remove-worktree confirmation.
    pub fn settle_remove_worktree(&mut self, choice: Choice) -> (e: Option<UiEvent>)
        ensures
            match (old(self).confirm_remove_worktree, choice) {
                (Some(id), Choice::Confirmed) => {
                    &&& e == Some(UiEvent::Projects(ProjectsEvent::RemoveWorktree(id)))
                    &&& *final(self) == (ProjectsState { confirm_remove_worktree: None, ..*old(self) })
                },
                (Some(_), Choice::Cancelled) => {
                    e is None && *final(self) == (ProjectsState { confirm_remove_worktree: None, ..*old(self) })
                },
                _ => e is None && *final(self) == *old(self),
            },
    {
        match self.confirm_remove_worktree {
            Some(id) => match choice {
                Choice::Confirmed => {
                    self.confirm_remove_worktree = None;
                    Some(UiEvent::Projects(ProjectsEvent::RemoveWorktree(id)))
                },
                Choice::Cancelled => {
                    self.confirm_remove_worktree = None;
                    None
                },
                Choice::Pending => None,
            },
            None => None,
        }
    }

    /// Pick the project a new worktree lands in.
    pub fn pick_worktree_project(&mut self, project_id: Id)
        ensures
            final(self).creating_worktree == (match old(self).creating_worktree {
                Some(d) => Some(NewWorktreeModal { project_id: Some(project_id), ..d }),
                None => None,
            }),
            *final(self) == (ProjectsState { creating_worktree: final(self).creating_worktree, ..*old(self) }),
    {
        if let Some(d) = &mut self.creating_worktree {
            d.project_id = Some(project_id);
        }
    }

    /// The branch a new worktree of the draft would use: the ticket's shared branch when it
    /// has one, else the trimmed typed branch.
    pub open spec fn chosen_branch(projects: ProjectsView, d: NewWorktreeModal) -> Seq<char> {
        match shared_branch_spec(projects, d.ticket_id) {
            Some(b) => b,
            None => trim_spec(d.branch@),
        }
    }

    /// Create is enabled: some project is eligible, one is picked, and there is a branch.
    pub open spec fn can_create_worktree_spec(projects: ProjectsView, d: NewWorktreeModal) -> bool {
        &&& projects.projects@.filter(eligible_for(projects, d.ticket_id)).len() > 0
        &&& d.project_id is Some
        &&& (shared_branch_spec(projects, d.ticket_id) is Some || has_content(d.branch@))
    }

    /// Whether the create-worktree modal's Create is enabled (false when it is not open).
    pub fn can_create_worktree(&self, projects: &ProjectsView) -> (r: bool)
        ensures
            r == (match self.creating_worktree {
                Some(d) => Self::can_create_worktree_spec(*projects, d),
                None => false,
            }),
    {
        match &self.creating_worktree {
            Some(d) => {
                let shared = shared_branch(projects, d.ticket_id);
                let eligible = eligible_projects(projects, d.ticket_id);
                eligible.len() > 0 && d.project_id.is_some() && (shared.is_some() || !is_blank(&d.branch))
            },
            None => false,
        }
    }

    /// Settle a frame of the create-worktree modal: an enabled Create with a picked project
    /// and a non-empty branch creates the worktree and closes; otherwise Cancel or the
    /// backdrop closes it.
    pub fn settle_create_worktree(
        &mut self,
        projects: &ProjectsView,
        create_clicked: bool,
        cancel: bool,
        dismissed: bool,
    ) -> (e: Option<UiEvent>)
        ensures
            match old(self).creating_worktree {
                None => e is None && *final(self) == *old(self),
                Some(d) => if create_clicked && Self::can_create_worktree_spec(*projects, d) {
                    if Self::chosen_branch(*projects, d).len() > 0 {
                        &&& e matches Some(UiEvent::Projects(ProjectsEvent::CreateWorktree { project_id, ticket_id, branch }))
                            && Some(project_id) == d.project_id && ticket_id == d.ticket_id && branch@
                            == Self::chosen_branch(*projects, d)
                        &&& *final(self) == (ProjectsState { creating_worktree: None, ..*old(self) })
                    } else {
                        e is None && *final(self) == *old(self)
                    }
                } else if cancel || dismissed {
                    e is None && *final(self) == (ProjectsState { creating_worktree: None, ..*old(self) })
                } else {
                    e is None && *final(self) == *old(self)
                },
            },
    {
        let enabled = self.can_create_worktree(projects);
        let (ticket_id, chosen, typed) = match &self.creating_worktree {
            Some(d) => (d.ticket_id, d.project_id, trimmed(&d.branch)),
            None => {
                return None;
            },
        };
        let shared = shared_branch(projects, ticket_id);
        if create_clicked && enabled {
            let project_id = chosen.unwrap();
            let branch = match shared {
                Some(b) => b,
                None => typed,
            };
            if branch.as_str().is_empty() {
                return None;
            }
            self.creating_worktree = None;
            return Some(UiEvent::Projects(ProjectsEvent::CreateWorktree { project_id, ticket_id, branch }));
        }
        if cancel || dismissed {
            self.creating_worktree = None;
        }
        None
    }
}

/// Whether a live worktree with this id exists.
fn live_worktree_exists(projects: &ProjectsView, id: Id) -> (r: bool)
    ensures
        r == has_live_worktree(*projects, id),
{
    let mut i: usize = 0;
    while i < projects.worktrees.len()
        invariant
            i <= projects.worktrees.len(),
            forall|j: int| 0 <= j < i ==> !(#[trigger] projects.worktrees@[j].id == id && projects.worktrees@[j].live),
        decreases projects.worktrees.len() - i,
    {
        if projects.worktrees[i].id == id && projects.worktrees[i].live {
            return true;
        }
        i = i + 1;
    }
    false
}

/// The branch shared by a ticket's worktrees: that of its first worktree, if any.
pub open spec fn shared_branch_spec(projects: ProjectsView, ticket_id: Id) -> Option<Seq<char>> {
    let ws = projects.worktrees@.filter(for_ticket(ticket_id));
    if ws.len() > 0 {
        Some(ws[0].branch@)
    } else {
        None
    }
}

/// The branch a ticket's worktrees share (chosen with its first one).
pub fn shared_branch(projects: &ProjectsView, ticket_id: Id) -> (r: Option<String>)
    ensures
        match r {
            Some(b) => shared_branch_spec(*projects, ticket_id) == Some(b@),
            None => shared_branch_spec(*projects, ticket_id) is None,
        },
{
    let ws = projects.worktrees_for_ticket(ticket_id);
    if ws.len() > 0 {
        Some(ws[0].branch.clone())
    } else {
        None
    }
}

/// A project can get a worktree for a ticket when it has none for it yet (live or marker).
pub open spec fn eligible_for(projects: ProjectsView, ticket_id: Id) -> spec_fn(ProjectCard) -> bool {
    |c: ProjectCard|
        !(exists|i: int|
            0 <= i < projects.worktrees@.len() && #[trigger] projects.worktrees@[i].ticket_id == ticket_id
                && projects.worktrees@[i].project_id == c.project.id)
}

/// The ids of the projects eligible for a new worktree of a ticket, in stored order.
pub fn eligible_projects(projects: &ProjectsView, ticket_id: Id) -> (r: Vec<Id>)
    ensures
        r@ == projects.projects@.filter(eligible_for(*projects, ticket_id)).map_values(
            |c: ProjectCard| c.project.id,
        ),
{
    let ghost pred = eligible_for(*projects, ticket_id);
    let mut r: Vec<Id> = Vec::new();
    let mut i: usize = 0;
    while i < projects.projects.len()
        invariant
            i <= projects.projects.len(),
            pred == eligible_for(*projects, ticket_id),
            r@ == projects.projects@.take(i as int).filter(pred).map_values(|c: ProjectCard| c.project.id),
        decreases projects.projects.len() - i,
    {
        proof {
            lemma_filter_take_step(projects.projects@, pred, i as int);
        }
        let pid = projects.projects[i].project.id;
        let mut taken = false;
        let mut j: usize = 0;
        while j < projects.worktrees.len()
            invariant
                j <= projects.worktrees.len(),
                taken == (exists|k: int|
                    0 <= k < j && #[trigger] projects.worktrees@[k].ticket_id == ticket_id
                        && projects.worktrees@[k].project_id == pid),
            decreases projects.worktrees.len() - j,
        {
            if projects.worktrees[j].ticket_id == ticket_id && projects.worktrees[j].project_id == pid {
                taken = true;
            }
            j = j + 1;
        }
        if !taken {
            r.push(pid);
            proof {
                assert(projects.projects@.take(i + 1).filter(pred).map_values(|c: ProjectCard| c.project.id)
                    =~= projects.projects@.take(i as int).filter(pred).map_values(|c: ProjectCard| c.project.id).push(pid));
            }
        }
        i = i + 1;
    }
    proof {
        assert(projects.projects@.take(i as int) =~= projects.projects@);
    }
    r
}

/// A project's worktrees split into live ones and removed (recreatable) markers, each in
/// stored order.
pub fn project_worktree_lists(projects: &ProjectsView, project_id: Id) -> (r: (Vec<Worktree>, Vec<Worktree>))
    ensures
        r.0@ == projects.worktrees@.filter(for_project(project_id)).filter(|w: Worktree| w.live),
        r.1@ == projects.worktrees@.filter(for_project(project_id)).filter(|w: Worktree| !w.live),
{
    let all = projects.worktrees_for_project(project_id);
    let ghost live_p = |w: Worktree| w.live;
    let ghost marker_p = |w: Worktree| !w.live;
    let mut live: Vec<Worktree> = Vec::new();
    let mut markers: Vec<Worktree> = Vec::new();
    let mut i: usize = 0;
    while i < all.len()
        invariant
            i <= all.len(),
            live_p == (|w: Worktree| w.live),
            marker_p == (|w: Worktree| !w.live),
            live@ == all@.take(i as int).filter(live_p),
            markers@ == all@.take(i as int).filter(marker_p),
        decreases all.len() - i,
    {
        proof {
            lemma_filter_take_step(all@, live_p, i as int);
            lemma_filter_take_step(all@, marker_p, i as int);
        }
        if all[i].live {
            live.push(all[i].clone());
        } else {
            markers.push(all[i].clone());
        }
        i = i + 1;
    }
    proof {
        assert(all@.take(i as int) =~= all@);
    }
    (live, markers)
}

/// The title of a worktree's ticket, or "(ticket removed)".
pub fn ticket_title_or_removed(tasks: &TasksView, ticket_id: Id) -> (r: String)
    ensures
        r@ == (match tasks.ticket_spec(ticket_id) {
            Some(t) => t.title@,
            None => "(ticket removed)"@,
        }),
{
    match tasks.ticket(ticket_id) {
        Some(t) => t.title.clone(),
        None => "(ticket removed)".to_owned(),
    }
}

/// The name of a worktree's project, or "(project removed)".
pub fn project_name_or_removed(projects: &ProjectsView, project_id: Id) -> (r: String)
    ensures
        r@ == (match projects.project_spec(project_id) {
            Some(c) => c.project.name@,
            None => "(project removed)"@,
        }),
{
    match projects.project(project_id) {
        Some(c) => c.project.name.clone(),
        None => "(project removed)".to_owned(),
    }
}

/// The at-a-glance git indicator of a card or page header.
pub enum GitBadge {
    /// The path is not a git repository.
    NotRepo,
    UpToDate,
    /// Out of sync, with the short summary.
    OutOfSync(String),
}

/// The phrases of an out-of-sync repository's summary: commits ahead, commits behind,
/// uncommitted changes; `out of sync` when none applies.
pub open spec fn summary_parts(g: GitStatus) -> Seq<Seq<char>> {
    let a = if g.ahead > 0 {
        seq![decimal(g.ahead as nat) + " ahead"@]
    } else {
        Seq::empty()
    };
    let b = if g.behind > 0 {
        a.push(decimal(g.behind as nat) + " behind"@)
    } else {
        a
    };
    let c = if !g.clean {
        b.push("uncommitted"@)
    } else {
        b
    };
    if c.len() == 0 {
        seq!["out of sync"@]
    } else {
        c
    }
}

/// The summary phrases joined by a middle dot.
pub open spec fn summary_text(g: GitStatus) -> Seq<char> {
    joined(summary_parts(g), " · "@)
}

/// A short "N ahead · M behind · uncommitted" phrase for an out-of-sync repository.
pub fn sync_summary(git: &GitStatus) -> (r: String)
    ensures
        r@ == summary_text(*git),
{
    let mut parts: Vec<String> = Vec::new();
    if git.ahead > 0 {
        let mut p = u32_text(git.ahead);
        p.append(" ahead");
        parts.push(p);
    }
    if git.behind > 0 {
        let mut p = u32_text(git.behind);
        p.append(" behind");
        parts.push(p);
    }
    if !git.clean {
        parts.push("uncommitted".to_owned());
    }
    if parts.len() == 0 {
        parts.push("out of sync".to_owned());
    }
    let r = join(&parts, " · ");
    proof {
        assert(parts@.map_values(|p: String| p@) =~= summary_parts(*git));
    }
    r
}

/// The badge a repository shows.
pub fn git_badge(git: &GitStatus) -> (r: GitBadge)
    ensures
        !git.is_repo ==> r is NotRepo,
        git.is_repo && git.up_to_date ==> r is UpToDate,
        git.is_repo && !git.up_to_date ==> (r matches GitBadge::OutOfSync(s) && s@ == summary_text(*git)),
{
    if !git.is_repo {
        GitBadge::NotRepo
    } else if git.up_to_date {
        GitBadge::UpToDate
    } else {
        GitBadge::OutOfSync(sync_summary(git))
    }
}

/// The working-tree line of the detail page.
pub fn working_tree_text(git: &GitStatus) -> (r: &'static str)
    ensures
        r@ == (if git.clean {
            "Working tree clean"@
        } else {
            "Uncommitted changes"@
        }),
{
    if git.clean {
        "Working tree clean"
    } else {
        "Uncommitted changes"
    }
}

/// The upstream line of the detail page.
pub fn upstream_text(git: &GitStatus) -> (r: String)
    ensures
        r@ == (if !git.has_upstream {
            "No upstream tracking branch"@
        } else if git.ahead == 0 && git.behind == 0 {
            "In sync with upstream"@
        } else {
            "Upstream: "@ + summary_text(*git)
        }),
{
    if !git.has_upstream {
        "No upstream tracking branch".to_owned()
    } else if git.ahead == 0 && git.behind == 0 {
        "In sync with upstream".to_owned()
    } else {
        let mut r = "Upstream: ".to_owned();
        r.append(sync_summary(git).as_str());
        r
    }
}

/// The freshness note of the detail page.
pub fn fetch_text(git: &GitStatus) -> (r: &'static str)
    ensures
        r@ == (if git.fetched {
            "Compared against a fresh fetch."@
        } else {
            "Offline — compared against local refs. Fetch/pull yourself to refresh."@
        }),
{
    if git.fetched {
        "Compared against a fresh fetch."
    } else {
        "Offline — compared against local refs. Fetch/pull yourself to refresh."
    }
}

/// Truncate to at most `max` characters, ellipsis included: when cut, the first `max - 1`
/// are kept and an ellipsis appended (a cap of zero leaves nothing).
pub open spec fn truncated(s: Seq<char>, max: nat) -> Seq<char> {
    if s.len() <= max {
        s
    } else if max == 0 {
        Seq::empty()
    } else {
        s.take(max - 1) + "…"@
    }
}

/// Truncate to at most `max` characters, ellipsis included.
pub fn truncate(s: &str, max: usize) -> (r: String)
    ensures
        r@ == truncated(s@, max as nat),
        r@.len() <= max,
{
    if s.unicode_len() <= max {
        return s.to_owned();
    }
    if max == 0 {
        return String::new();
    }
    let mut r = s.substring_char(0, max - 1).to_owned();
    r.append("…");
    proof {
        reveal_strlit("…");
    }
    r
}

/// A card's metadata value, truncated to 42 characters, or an em-dash when absent.
pub fn meta_text(value: &Option<String>) -> (r: String)
    ensures
        r@ == (match value {
            Some(v) => truncated(v@, 42),
            None => "—"@,
        }),
{
    match value {
        Some(v) => truncate(v.as_str(), 42),
        None => "—".to_owned(),
    }
}

/// Once a ticket has a worktree, every further worktree of it reuses that worktree's branch:
/// with a project picked and some project still without a worktree for the ticket, Create is
/// enabled whatever the (hidden) branch field holds, and the worktree is created on the branch
/// of the ticket's first worktree.
pub proof fn lemma_later_worktrees_reuse_the_branch(projects: ProjectsView, d: NewWorktreeModal, k: int, w: int)
    requires
        0 <= k < projects.projects@.len(),
        forall|i: int|
            0 <= i < projects.worktrees@.len() ==> !(#[trigger] projects.worktrees@[i].ticket_id
                == d.ticket_id && projects.worktrees@[i].project_id == projects.projects@[k].project.id),
        d.project_id is Some,
        0 <= w < projects.worktrees@.len(),
        projects.worktrees@[w].ticket_id == d.ticket_id,
        forall|v: int| 0 <= v < w ==> (#[trigger] projects.worktrees@[v]).ticket_id != d.ticket_id,
    ensures
        ProjectsState::can_create_worktree_spec(projects, d),
        ProjectsState::chosen_branch(projects, d) == projects.worktrees@[w].branch@,
{
    broadcast use vstd::seq_lib::group_filter_ensures;
    let pred = eligible_for(projects, d.ticket_id);
    assert(pred(projects.projects@[k]));
    assert(projects.projects@.filter(pred).contains(projects.projects@[k]));
    lemma_first_filtered(projects.worktrees@, for_ticket(d.ticket_id), w);
}

/// The first worktree of a ticket needs a branch typed in: with none of its worktrees existing
/// and a blank branch field, Create stays disabled.
pub proof fn lemma_first_worktree_needs_a_branch(projects: ProjectsView, d: NewWorktreeModal)
    requires
        forall|i: int| 0 <= i < projects.worktrees@.len() ==> (#[trigger] projects.worktrees@[i]).ticket_id != d.ticket_id,
        !has_content(d.branch@),
    ensures
        !ProjectsState::can_create_worktree_spec(projects, d),
{
    broadcast use vstd::seq_lib::group_filter_ensures;
    assert(projects.worktrees@.all(|x: Worktree| !for_ticket(d.ticket_id)(x)));
    projects.worktrees@.lemma_all_neg_filter_empty(for_ticket(d.ticket_id));
}

} // verus!
