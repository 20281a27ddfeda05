//! What the interface asks the worker to do. Each feature has its own event type; the
//! interface emits them wrapped in [`UiEvent`].

use vstd::prelude::*;

use crate::model::{Id, ProfileView};

verus! {

/// Profile events.
pub enum ProfileEvent {
    /// Create a profile with this display name (and make it active).
    Create(String),
    /// Make this profile the active one.
    Switch(Id),
    /// Delete this profile and everything in it.
    Delete(Id),
    /// Remember this page as the active profile's last-viewed one.
    SetLastView(ProfileView),
}

/// Board events.
pub enum TasksEvent {
    CreateStage(String),
    RenameStage(Id, String),
    SetTerminalStage(Id, bool),
    DeleteStage(Id),
    /// The new order of every stage.
    ReorderStages(Vec<Id>),
    CreateTicket { stage_id: Id, title: String, description: String, note: Option<String> },
    UpdateTicket { ticket_id: Id, title: String, description: String },
    MoveTicket { ticket_id: Id, stage_id: Id },
    DeleteTicket(Id),
    CreateChild { parent_id: Id, title: String, description: String },
    /// Detach a ticket from its parent.
    UnlinkTicket(Id),
    AddNote { ticket_id: Id, body: String },
    LoadNotes(Id),
}

/// Notes-tab events.
pub enum NotesEvent {
    Add(String),
    Delete(Id),
    /// File a loose note onto a ticket (it leaves the Notes tab).
    FileIntoTicket { note_id: Id, ticket_id: Id, body: String },
}

/// Projects events.
pub enum ProjectsEvent {
    CreateProject { name: String, path: String },
    DeleteProject(Id),
    CreateWorktree { project_id: Id, ticket_id: Id, branch: String },
    OpenWorktree(Id),
    RemoveWorktree(Id),
    RecreateWorktree(Id),
}

/// Todos events.
pub enum TodosEvent {
    Add(String),
    SetDone(Id, bool),
    Delete(Id),
}

/// Everything the interface sends the worker.
pub enum UiEvent {
    /// Reconnect and reload every slice.
    ReloadAll,
    Profile(ProfileEvent),
    Tasks(TasksEvent),
    Notes(NotesEvent),
    Projects(ProjectsEvent),
    Todos(TodosEvent),
}

} // verus!
