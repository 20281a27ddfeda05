//! The ticket detail, shared by its two presentations (a quick modal and a full page): its
//! editing state, what its edits amount to, and how the board settles what the owner did.

use vstd::prelude::*;

use super::{BoardState, TicketOpen};
use crate::events::{TasksEvent, UiEvent};
use crate::model::{
    lemma_filter_take_step, live_for_ticket, Id, Micros, ProjectsView, Stage, TasksView,
    Ticket, TicketNote,
};
use crate::dev::is_mock_notes;
use crate::text::{count_label, counted, has_content, is_blank, trim_spec, trimmed};

verus! {

/// State of the open ticket detail.
pub struct TicketModal {
    pub ticket_id: Id,
    pub title: String,
    pub description: String,
    pub notes: Vec<TicketNote>,
    pub notes_loaded: bool,
    /// The "add a note" draft.
    pub new_note: String,
    /// The add-child draft.
    pub new_child_title: String,
    pub new_child_desc: String,
    pub adding_child: bool,
    /// false: modal overlay; true: full page.
    pub expanded: bool,
}

impl TicketModal {
    /// Opened on `t`: its saved title and description, no drafts, the given presentation,
    /// and notes loaded or not yet.
    pub open spec fn opened_on(self, t: Ticket, expanded: bool, notes_loaded: bool) -> bool {
        &&& self.ticket_id == t.id
        &&& self.title == t.title
        &&& self.description == t.description
        &&& self.notes@.len() == 0
        &&& self.notes_loaded == notes_loaded
        &&& self.new_note@.len() == 0
        &&& self.new_child_title@.len() == 0
        &&& self.new_child_desc@.len() == 0
        &&& !self.adding_child
        &&& self.expanded == expanded
    }

    /// Opened directly for dev review on `t`: its saved fields, no drafts, the given
    /// presentation, and the mock notes already loaded.
    pub open spec fn dev_opened_on(self, t: Ticket, expanded: bool) -> bool {
        &&& self.ticket_id == t.id
        &&& self.title == t.title
        &&& self.description == t.description
        &&& exists|ids: [Id; 4], now: Micros| is_mock_notes(self.notes@, t.id, ids, now)
        &&& self.notes_loaded
        &&& self.new_note@.len() == 0
        &&& self.new_child_title@.len() == 0
        &&& self.new_child_desc@.len() == 0
        &&& !self.adding_child
        &&& self.expanded == expanded
    }

    /// A detail for `ticket`: its saved fields, no drafts, notes not yet loaded, as a modal.
    pub fn new(ticket: &Ticket) -> (r: Self)
        ensures
            r.opened_on(*ticket, false, false),
    {
        TicketModal {
            ticket_id: ticket.id,
            title: ticket.title.clone(),
            description: ticket.description.clone(),
            notes: Vec::new(),
            notes_loaded: false,
            new_note: String::new(),
            new_child_title: String::new(),
            new_child_desc: String::new(),
            adding_child: false,
            expanded: false,
        }
    }

    /// The saved field differs from the trimmed draft (a missing ticket counts as changed).
    pub open spec fn differs(saved: Option<Seq<char>>, draft: Seq<char>) -> bool {
        match saved {
            Some(s) => s != trim_spec(draft),
            None => true,
        }
    }

    pub open spec fn title_changed_spec(self, view: TasksView) -> bool {
        Self::differs(
            match view.ticket_spec(self.ticket_id) {
                Some(t) => Some(t.title@),
                None => None,
            },
            self.title@,
        )
    }

    pub open spec fn desc_changed_spec(self, view: TasksView) -> bool {
        Self::differs(
            match view.ticket_spec(self.ticket_id) {
                Some(t) => Some(t.description@),
                None => None,
            },
            self.description@,
        )
    }

    /// Which fields differ from what is saved (compared trimmed, as a save writes them), and
    /// whether Save is enabled: some change, and a non-blank title.
    pub fn edit_status(&self, view: &TasksView) -> (r: EditStatus)
        ensures
            r.title_changed == self.title_changed_spec(*view),
            r.desc_changed == self.desc_changed_spec(*view),
            r.can_save == ((r.title_changed || r.desc_changed) && has_content(self.title@)),
    {
        let title = trimmed(&self.title);
        let desc = trimmed(&self.description);
        let (title_changed, desc_changed) = match view.ticket(self.ticket_id) {
            Some(t) => (t.title != title, t.description != desc),
            None => (true, true),
        };
        let can_save = (title_changed || desc_changed) && !is_blank(&self.title);
        EditStatus { title_changed, desc_changed, can_save }
    }

    /// The update Save sends: the trimmed title and description.
    pub fn save_event(&self) -> (e: TasksEvent)
        ensures
            e matches TasksEvent::UpdateTicket { ticket_id, title, description } && ticket_id
                == self.ticket_id && title@ == trim_spec(self.title@) && description@
                == trim_spec(self.description@),
    {
        TasksEvent::UpdateTicket {
            ticket_id: self.ticket_id,
            title: trimmed(&self.title),
            description: trimmed(&self.description),
        }
    }

    /// The add-note submission: the trimmed draft, when it holds something. The draft stays
    /// until the reloaded notes arrive.
    pub fn note_submission(&self) -> (e: Option<TasksEvent>)
        ensures
            has_content(self.new_note@) ==> (e matches Some(TasksEvent::AddNote { ticket_id, body })
                && ticket_id == self.ticket_id && body@ == trim_spec(self.new_note@)),
            !has_content(self.new_note@) ==> e is None,
    {
        if is_blank(&self.new_note) {
            None
        } else {
            Some(TasksEvent::AddNote { ticket_id: self.ticket_id, body: trimmed(&self.new_note) })
        }
    }

    /// Open the add-child form.
    pub fn start_child(&mut self)
        ensures
            *final(self) == (TicketModal { adding_child: true, ..*old(self) }),
    {
        self.adding_child = true;
    }

    /// Clear the add-child draft and close its form.
    pub fn reset_child_draft(&mut self)
        ensures
            final(self).new_child_title@.len() == 0,
            final(self).new_child_desc@.len() == 0,
            !final(self).adding_child,
            *final(self) == (TicketModal {
                new_child_title: final(self).new_child_title,
                new_child_desc: final(self).new_child_desc,
                adding_child: false,
                ..*old(self)
            }),
    {
        self.new_child_title = String::new();
        self.new_child_desc = String::new();
        self.adding_child = false;
    }

    /// "Add child": with a non-blank title, the child is created under this ticket (trimmed
    /// title and description) and the draft is reset; otherwise nothing happens.
    pub fn submit_child(&mut self) -> (e: Option<TasksEvent>)
        ensures
            has_content(old(self).new_child_title@) ==> {
                &&& e matches Some(TasksEvent::CreateChild { parent_id, title, description })
                &&& parent_id == old(self).ticket_id
                &&& title@ == trim_spec(old(self).new_child_title@)
                &&& description@ == trim_spec(old(self).new_child_desc@)
                &&& final(self).new_child_title@.len() == 0
                &&& final(self).new_child_desc@.len() == 0
                &&& !final(self).adding_child
                &&& *final(self) == (TicketModal {
                    new_child_title: final(self).new_child_title,
                    new_child_desc: final(self).new_child_desc,
                    adding_child: false,
                    ..*old(self)
                })
            },
            !has_content(old(self).new_child_title@) ==> e is None && *final(self) == *old(self),
    {
        if is_blank(&self.new_child_title) {
            return None;
        }
        let e = TasksEvent::CreateChild {
            parent_id: self.ticket_id,
            title: trimmed(&self.new_child_title),
            description: trimmed(&self.new_child_desc),
        };
        self.reset_child_draft();
        Some(e)
    }
}

/// What the detail's fields amount to.
pub struct EditStatus {
    pub title_changed: bool,
    pub desc_changed: bool,
    /// Save is enabled.
    pub can_save: bool,
}

/// Where the notes list starts: with a cap of `n` below the total, only the newest `n` show.
pub fn visible_notes_start(total: usize, limit: Option<usize>) -> (start: usize)
    ensures
        start == (match limit {
            Some(n) if total > n => (total - n) as usize,
            _ => 0,
        }),
{
    match limit {
        Some(n) => if total > n {
            total - n
        } else {
            0
        },
        None => 0,
    }
}

/// The stages a ticket can move to: every stage but its current one, in board order.
pub fn move_targets(view: &TasksView, current: Id) -> (r: Vec<Stage>)
    ensures
        r@ == view.stages@.filter(|s: Stage| s.id != current),
{
    let ghost pred = |s: Stage| s.id != current;
    let mut r: Vec<Stage> = Vec::new();
    let mut i: usize = 0;
    while i < view.stages.len()
        invariant
            i <= view.stages.len(),
            pred == (|s: Stage| s.id != current),
            r@ == view.stages@.take(i as int).filter(pred),
        decreases view.stages.len() - i,
    {
        proof {
            lemma_filter_take_step(view.stages@, pred, i as int);
        }
        if view.stages[i].id != current {
            r.push(view.stages[i].clone());
        }
        i = i + 1;
    }
    proof {
        assert(view.stages@.take(i as int) =~= view.stages@);
    }
    r
}

/// The modal's one-line hint at what is behind Expand: the note count once loaded, and the
/// live worktree count, joined by a middle dot.
pub open spec fn summary_text(notes: Option<nat>, live: nat) -> Seq<char> {
    match notes {
        Some(n) => counted(n, "note"@) + "  ·  "@ + counted(live, "worktree"@),
        None => counted(live, "worktree"@),
    }
}

impl TicketModal {
    pub fn summary(&self, projects: &ProjectsView) -> (r: String)
        ensures
            r@ == summary_text(
                if self.notes_loaded {
                    Some(self.notes@.len())
                } else {
                    None
                },
                projects.worktrees@.filter(live_for_ticket(self.ticket_id)).len(),
            ),
    {
        let live = projects.live_count_for_ticket(self.ticket_id);
        let worktrees = count_label(live, "worktree");
        if self.notes_loaded {
            let mut r = count_label(self.notes.len(), "note");
            r.append("  ·  ");
            r.append(worktrees.as_str());
            r
        } else {
            worktrees
        }
    }
}

/// What the owner did in the detail this frame.
pub struct DetailOutcome {
    /// Edits to send.
    pub events: Vec<TasksEvent>,
    /// Follow a parent/child link.
    pub navigate: Option<(Id, TicketOpen)>,
    /// Close the detail (close button).
    pub close: bool,
    /// Asked to create a worktree for this ticket.
    pub create_worktree: bool,
    /// Clicked Delete (a confirmation opens first).
    pub request_delete: bool,
    /// Asked to remove this worktree (the projects UI confirms it).
    pub remove_worktree: Option<Id>,
}

impl DetailOutcome {
    /// Nothing happened.
    pub fn new() -> (r: Self)
        ensures
            r.events@.len() == 0,
            r.navigate is None,
            !r.close,
            !r.create_worktree,
            !r.request_delete,
            r.remove_worktree is None,
    {
        DetailOutcome {
            events: Vec::new(),
            navigate: None,
            close: false,
            create_worktree: false,
            request_delete: false,
            remove_worktree: None,
        }
    }
}

/// The detail's edits, wrapped for the worker.
pub open spec fn wrapped(events: Seq<TasksEvent>) -> Seq<UiEvent> {
    events.map_values(|e: TasksEvent| UiEvent::Tasks(e))
}

impl BoardState {
    /// Postcondition of settling a frame of the detail. The edits go out in order; a Delete
    /// click only opens the confirmation (leaving the detail up); otherwise a link is followed
    /// (if its ticket still exists) or the detail closes when asked to or dismissed.
    pub open spec fn settled(
        old: BoardState,
        view: TasksView,
        out: DetailOutcome,
        dismissed: bool,
        new: BoardState,
        sent: Seq<UiEvent>,
    ) -> bool {
        let handed = BoardState {
            pending_worktree: if out.create_worktree {
                match old.modal {
                    Some(m) => Some(m.ticket_id),
                    None => old.pending_worktree,
                }
            } else {
                old.pending_worktree
            },
            pending_remove_worktree: match out.remove_worktree {
                Some(w) => Some(w),
                None => old.pending_remove_worktree,
            },
            ..old
        };
        if out.request_delete {
            &&& sent == wrapped(out.events@)
            &&& new == (BoardState {
                confirm_delete_ticket: match old.modal {
                    Some(m) => Some(m.ticket_id),
                    None => None,
                },
                ..handed
            })
        } else if out.navigate is Some {
            let (target, open) = out.navigate.unwrap();
            match view.ticket_spec(target) {
                Some(t) => {
                    &&& Self::navigated(handed, t, open, new)
                    &&& sent == wrapped(out.events@).push(
                        UiEvent::Tasks(TasksEvent::LoadNotes(t.id)),
                    )
                },
                None => new == handed && sent == wrapped(out.events@),
            }
        } else if out.close || dismissed {
            &&& sent == wrapped(out.events@)
            &&& new == (BoardState { modal: None, ..handed })
        } else {
            sent == wrapped(out.events@) && new == handed
        }
    }

    /// Settle a frame of the detail (either presentation): hand a worktree request to the
    /// shell, send the edits, then open the delete confirmation, follow a link, or close.
    /// `dismissed` is the modal's backdrop or Escape (always false for the full page).
    pub fn settle_detail(&mut self, view: &TasksView, out: DetailOutcome, dismissed: bool) -> (sent: Vec<UiEvent>)
        ensures
            Self::settled(*old(self), *view, out, dismissed, *final(self), sent@),
    {
        if out.create_worktree {
            match &self.modal {
                Some(m) => {
                    self.pending_worktree = Some(m.ticket_id);
                },
                None => {},
            }
        }
        match out.remove_worktree {
            Some(w) => {
                self.pending_remove_worktree = Some(w);
            },
            None => {},
        }
        let ghost all = out.events@;
        let DetailOutcome { events, navigate, close, create_worktree, request_delete, remove_worktree } = out;
        let mut events = events;
        let mut sent: Vec<UiEvent> = Vec::new();
        while events.len() > 0
            invariant
                sent@ + wrapped(events@) == wrapped(all),
            decreases events.len(),
        {
            let ghost before = events@;
            let e = events.remove(0);
            sent.push(UiEvent::Tasks(e));
            proof {
                assert(wrapped(before) =~= seq![UiEvent::Tasks(e)] + wrapped(events@));
            }
        }
        proof {
            assert(sent@ =~= wrapped(all));
        }
        if request_delete {
            self.confirm_delete_ticket = match &self.modal {
                Some(m) => Some(m.ticket_id),
                None => None,
            };
            return sent;
        }
        match navigate {
            Some((target, open)) => {
                match view.ticket(target) {
                    Some(t) => {
                        let ev = self.navigate_to(t, open);
                        sent.push(ev);
                    },
                    None => {},
                }
            },
            None => {
                if close || dismissed {
                    self.modal = None;
                }
            },
        }
        sent
    }
}

} // verus!
