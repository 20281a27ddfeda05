//! The board: every piece of transient board state, the ticket-detail navigation (modal or
//! full page, with a back-history), search, and the decisions its parts make.

pub mod create;
pub mod detail;
pub mod laws;
pub mod stage;

use vstd::prelude::*;
use vstd::string::*;

use crate::components::Choice;
use crate::dev::{is_mock_notes, mock_notes};
use crate::events::{TasksEvent, UiEvent};
use crate::model::{
    in_stage, lemma_filter_take_step, lemma_lookup, Id, Micros, TasksMessage, TasksView, Ticket,
};
use crate::text::{contains, lowercase, occurs_in, to_lowercase, trim, trim_spec};

use create::NewTicketModal;
use detail::TicketModal;
use stage::StageModal;

verus! {

/// How a ticket link was activated, which picks the presentation to open: left-click opens the
/// quick modal, right-click the full page.
#[derive(Clone, Copy, Debug, PartialEq, Eq, Structural)]
pub enum TicketOpen {
    /// The quick overlay modal (left-click).
    Modal,
    /// The full-page detail (right-click).
    Page,
}

impl TicketOpen {
    /// Whether this presentation is the expanded full page.
    pub fn expanded(self) -> (r: bool)
        ensures
            r == (self == TicketOpen::Page),
    {
        match self {
            TicketOpen::Page => true,
            TicketOpen::Modal => false,
        }
    }
}

/// How a ticket link's clicks this frame open it: a click opens the modal, a secondary click
/// the page, neither opens nothing.
pub fn ticket_open_from(clicked: bool, secondary_clicked: bool) -> (r: Option<TicketOpen>)
    ensures
        r == (if clicked {
            Some(TicketOpen::Modal)
        } else if secondary_clicked {
            Some(TicketOpen::Page)
        } else {
            None
        }),
{
    if clicked {
        Some(TicketOpen::Modal)
    } else if secondary_clicked {
        Some(TicketOpen::Page)
    } else {
        None
    }
}

/// One step of ticket back-history: which ticket, in which presentation.
#[derive(Clone, Copy, Debug)]
pub struct BackEntry {
    pub ticket_id: Id,
    pub expanded: bool,
}

/// Back entries whose ticket is still on the board.
pub open spec fn entry_alive(view: TasksView) -> spec_fn(BackEntry) -> bool {
    |e: BackEntry| view.has_ticket(e.ticket_id)
}

/// Position of the newest back entry whose ticket is still on the board.
pub open spec fn back_target(stack: Seq<BackEntry>, view: TasksView) -> Option<int>
    decreases stack.len(),
{
    if stack.len() == 0 {
        None
    } else if view.has_ticket(stack.last().ticket_id) {
        Some(stack.len() - 1)
    } else {
        back_target(stack.drop_last(), view)
    }
}

/// A ticket matches the board search when the query is empty or its lowercased title or
/// description contains the query.
pub open spec fn matches_query(t: Ticket, query: Seq<char>) -> bool {
    ||| query.len() == 0
    ||| occurs_in(lowercase(t.title@), query)
    ||| occurs_in(lowercase(t.description@), query)
}

pub open spec fn matching(query: Seq<char>) -> spec_fn(Ticket) -> bool {
    |t: Ticket| matches_query(t, query)
}

/// Characters kept of a ticket's description on its card.
pub const DESC_PREVIEW_MAX: usize = 90;

/// Characters kept of a ticket's title on its card (it wraps, so it gets a little more room).
pub const TITLE_MAX: usize = DESC_PREVIEW_MAX + 5;

/// Truncate to at most `max` characters, ellipsis included: when cut, the first `max - 1`
/// are kept and an ellipsis appended (a cap of zero leaves nothing).
pub open spec fn truncated(s: Seq<char>, max: nat) -> Seq<char> {
    if s.len() <= max {
        s
    } else if max == 0 {
        Seq::empty()
    } else {
        s.take(max - 1) + "…"@
    }
}

/// Truncate to at most `max` characters (never splitting one), an ellipsis marking a cut.
pub fn truncate(s: &str, max: usize) -> (r: String)
    ensures
        r@ == truncated(s@, max as nat),
        r@.len() <= max,
{
    if s.unicode_len() <= max {
        return s.to_owned();
    }
    if max == 0 {
        return String::new();
    }
    let mut r = s.substring_char(0, max - 1).to_owned();
    r.append("…");
    proof {
        reveal_strlit("…");
    }
    r
}

/// Every id but `x`.
pub open spec fn others(x: Id) -> spec_fn(Id) -> bool {
    |y: Id| y != x
}

/// Whether `v` holds `x`.
pub fn holds(v: &Vec<Id>, x: Id) -> (r: bool)
    ensures
        r == v@.contains(x),
{
    let mut i: usize = 0;
    while i < v.len()
        invariant
            i <= v.len(),
            forall|j: int| 0 <= j < i ==> v@[j] != x,
        decreases v.len() - i,
    {
        if v[i] == x {
            assert(v@[i as int] == x);
            return true;
        }
        i = i + 1;
    }
    false
}

/// All transient UI state of the board.
pub struct BoardState {
    /// The "new stage" field.
    pub new_stage_name: String,
    /// Live board search query.
    pub search: String,
    /// The open "edit stage" modal, if any.
    pub editing_stage: Option<StageModal>,
    /// Terminal stages whose tickets are currently revealed.
    pub viewing_terminal: Vec<Id>,
    /// The open "new ticket" modal, if any.
    pub new_ticket: Option<NewTicketModal>,
    /// The open ticket detail, if any (modal or full page).
    pub modal: Option<TicketModal>,
    /// Tickets viewed below the current one; "Back" pops them.
    pub back_stack: Vec<BackEntry>,
    /// The open detail asked to create a worktree for this ticket.
    pub pending_worktree: Option<Id>,
    /// The open detail asked to remove this worktree.
    pub pending_remove_worktree: Option<Id>,
    /// The open detail asked to recreate this worktree marker on a new branch.
    pub pending_recreate_worktree_as: Option<Id>,
    /// A stage pending a delete confirmation.
    pub confirm_delete_stage: Option<Id>,
    /// A ticket pending a delete confirmation.
    pub confirm_delete_ticket: Option<Id>,
}

impl Default for BoardState {
    fn default() -> (r: Self)
        ensures
            r.is_initial(),
    {
        BoardState {
            new_stage_name: String::new(),
            search: String::new(),
            editing_stage: None,
            viewing_terminal: Vec::new(),
            new_ticket: None,
            modal: None,
            back_stack: Vec::new(),
            pending_worktree: None,
            pending_remove_worktree: None,
            pending_recreate_worktree_as: None,
            confirm_delete_stage: None,
            confirm_delete_ticket: None,
        }
    }
}

impl BoardState {
    /// Nothing open, nothing typed, nothing pending.
    pub open spec fn is_initial(&self) -> bool {
        &&& self.new_stage_name@.len() == 0
        &&& self.search@.len() == 0
        &&& self.editing_stage is None
        &&& self.viewing_terminal@.len() == 0
        &&& self.new_ticket is None
        &&& self.modal is None
        &&& self.back_stack@.len() == 0
        &&& self.pending_worktree is None
        &&& self.pending_remove_worktree is None
        &&& self.pending_recreate_worktree_as is None
        &&& self.confirm_delete_stage is None
        &&& self.confirm_delete_ticket is None
    }

    /// Every field but the detail (`modal`) and its back-history agree.
    pub open spec fn same_but_detail(&self, other: &BoardState) -> bool {
        &&& self.new_stage_name == other.new_stage_name
        &&& self.search == other.search
        &&& self.editing_stage == other.editing_stage
        &&& self.viewing_terminal == other.viewing_terminal
        &&& self.new_ticket == other.new_ticket
        &&& self.pending_worktree == other.pending_worktree
        &&& self.pending_remove_worktree == other.pending_remove_worktree
        &&& self.pending_recreate_worktree_as == other.pending_recreate_worktree_as
        &&& self.confirm_delete_stage == other.confirm_delete_stage
        &&& self.confirm_delete_ticket == other.confirm_delete_ticket
    }

    /// The detail shows `t` in the given presentation, freshly opened.
    pub open spec fn shows(&self, t: Ticket, expanded: bool) -> bool {
        self.modal matches Some(m) && m.opened_on(t, expanded, false)
    }

    /// The trimmed, lowercased search query.
    pub open spec fn query_spec(&self) -> Seq<char> {
        lowercase(trim_spec(self.search@))
    }

    /// Postcondition of handling a worker message: notes that finished loading fill the open
    /// detail when it is the ticket they belong to (and clear its note draft).
    pub open spec fn applied(old: BoardState, message: TasksMessage, new: BoardState) -> bool {
        match message {
            TasksMessage::Notes { ticket_id, notes } => match old.modal {
                Some(m) => if m.ticket_id == ticket_id {
                    &&& new.modal matches Some(n) && n == (TicketModal {
                        notes: n.notes,
                        notes_loaded: true,
                        new_note: n.new_note,
                        ..m
                    }) && n.notes@ == notes@ && n.new_note@.len() == 0
                    &&& new.back_stack == old.back_stack
                    &&& new.same_but_detail(&old)
                } else {
                    new == old
                },
                None => new == old,
            },
        }
    }

    /// Handle a message routed from the worker.
    pub fn apply_message(&mut self, message: &TasksMessage)
        ensures
            Self::applied(*old(self), *message, *final(self)),
    {
        match message {
            TasksMessage::Notes { ticket_id, notes } => {
                if let Some(modal) = &mut self.modal {
                    if modal.ticket_id == *ticket_id {
                        modal.notes = notes.clone();
                        modal.notes_loaded = true;
                        modal.new_note = String::new();
                        proof {
                            assert(modal.notes@ =~= notes@);
                        }
                    }
                }
            },
        }
    }

    /// Open the delete-ticket confirmation directly (dev review).
    pub fn dev_open_delete_ticket_confirm(&mut self, ticket_id: Id)
        ensures
            *final(self) == (BoardState { confirm_delete_ticket: Some(ticket_id), ..*old(self) }),
    {
        self.confirm_delete_ticket = Some(ticket_id);
    }

    /// Preset the board search query (dev review).
    pub fn dev_set_search(&mut self, query: &str)
        ensures
            final(self).search@ == query@,
            *final(self) == (BoardState { search: final(self).search, ..*old(self) }),
    {
        self.search = query.to_owned();
    }

    /// Clear the board search.
    pub fn clear_search(&mut self)
        ensures
            final(self).search@.len() == 0,
            *final(self) == (BoardState { search: final(self).search, ..*old(self) }),
    {
        self.search = String::new();
    }

    /// The search query, trimmed and lowercased; empty when no search is in effect.
    pub fn search_query(&self) -> (r: String)
        ensures
            r@ == self.query_spec(),
    {
        to_lowercase(trim(self.search.as_str()))
    }

    /// The tickets of a stage that the board shows: all of them, or under a search only the
    /// matching ones.
    pub fn visible_tickets(&self, view: &TasksView, stage_id: Id) -> (r: Vec<Ticket>)
        ensures
            r@ == view.tickets@.filter(in_stage(stage_id)).filter(matching(self.query_spec())),
    {
        let query = self.search_query();
        let all = view.tickets_for(stage_id);
        let mut r: Vec<Ticket> = Vec::new();
        let mut i: usize = 0;
        while i < all.len()
            invariant
                i <= all.len(),
                query@ == self.query_spec(),
                r@ == all@.take(i as int).filter(matching(query@)),
            decreases all.len() - i,
        {
            proof {
                lemma_filter_take_step(all@, matching(query@), i as int);
            }
            let t = &all[i];
            let hit = query.as_str().is_empty() || contains(to_lowercase(t.title.as_str()).as_str(), query.as_str())
                || contains(to_lowercase(t.description.as_str()).as_str(), query.as_str());
            if hit {
                r.push(t.clone());
            }
            i = i + 1;
        }
        proof {
            assert(all@.take(i as int) =~= all@);
        }
        r
    }

    /// A terminal stage collapses to a count unless its tickets are revealed or a search is
    /// in effect (then its matches show).
    pub fn stage_collapsed(&self, terminal: bool, stage_id: Id) -> (r: bool)
        ensures
            r == (terminal && !self.viewing_terminal@.contains(stage_id) && self.query_spec().len()
                == 0),
    {
        terminal && !holds(&self.viewing_terminal, stage_id) && self.search_query().as_str().is_empty()
    }

    /// Reveal a terminal stage's tickets ("View tickets").
    pub fn reveal_terminal(&mut self, stage_id: Id)
        ensures
            final(self).viewing_terminal@ == (if old(self).viewing_terminal@.contains(stage_id) {
                old(self).viewing_terminal@
            } else {
                old(self).viewing_terminal@.push(stage_id)
            }),
            *final(self) == (BoardState { viewing_terminal: final(self).viewing_terminal, ..*old(self) }),
    {
        if !holds(&self.viewing_terminal, stage_id) {
            self.viewing_terminal.push(stage_id);
        }
    }

    /// Collapse a revealed terminal stage back to its count ("Hide tickets").
    pub fn hide_terminal(&mut self, stage_id: Id)
        ensures
            final(self).viewing_terminal@ == old(self).viewing_terminal@.filter(others(stage_id)),
            *final(self) == (BoardState { viewing_terminal: final(self).viewing_terminal, ..*old(self) }),
    {
        let mut kept: Vec<Id> = Vec::new();
        let mut i: usize = 0;
        while i < self.viewing_terminal.len()
            invariant
                i <= self.viewing_terminal.len(),
                self.viewing_terminal == old(self).viewing_terminal,
                kept@ == self.viewing_terminal@.take(i as int).filter(others(stage_id)),
            decreases self.viewing_terminal.len() - i,
        {
            proof {
                lemma_filter_take_step(self.viewing_terminal@, others(stage_id), i as int);
            }
            let x = self.viewing_terminal[i];
            if x != stage_id {
                kept.push(x);
            }
            i = i + 1;
        }
        proof {
            assert(self.viewing_terminal@.take(i as int) =~= self.viewing_terminal@);
        }
        self.viewing_terminal = kept;
    }

    /// Open the detail on `t` in the given presentation and ask for its notes.
    fn set_current(&mut self, ticket: &Ticket, expanded: bool) -> (ev: UiEvent)
        ensures
            final(self).shows(*ticket, expanded),
            final(self).back_stack == old(self).back_stack,
            final(self).same_but_detail(old(self)),
            ev == UiEvent::Tasks(TasksEvent::LoadNotes(ticket.id)),
    {
        let mut modal = TicketModal::new(ticket);
        modal.expanded = expanded;
        self.modal = Some(modal);
        UiEvent::Tasks(TasksEvent::LoadNotes(ticket.id))
    }

    /// Postcondition of a fresh open from outside any detail.
    pub open spec fn opened(old: BoardState, t: Ticket, open: TicketOpen, new: BoardState) -> bool {
        &&& new.shows(t, open == TicketOpen::Page)
        &&& new.back_stack@.len() == 0
        &&& new.same_but_detail(&old)
    }

    /// Open a ticket detail fresh, from outside any detail (a board card, the overview, a
    /// project's worktree row): the back-history is cleared, so "Back" closes the detail.
    pub fn open_ticket(&mut self, ticket: &Ticket, open: TicketOpen) -> (ev: UiEvent)
        ensures
            Self::opened(*old(self), *ticket, open, *final(self)),
            ev == UiEvent::Tasks(TasksEvent::LoadNotes(ticket.id)),
    {
        self.back_stack.clear();
        self.set_current(ticket, open.expanded())
    }

    /// Postcondition of following a ticket link from within a detail.
    pub open spec fn navigated(old: BoardState, t: Ticket, open: TicketOpen, new: BoardState) -> bool {
        let current_expanded = old.modal matches Some(m) && m.expanded;
        &&& new.shows(t, open == TicketOpen::Page || current_expanded)
        &&& new.back_stack@ == (match old.modal {
            Some(m) => old.back_stack@.push(BackEntry { ticket_id: m.ticket_id, expanded: m.expanded }),
            None => old.back_stack@,
        })
        &&& new.same_but_detail(&old)
    }

    /// Follow a ticket link from within a detail: the current ticket goes onto the
    /// back-history, then the new one shows. A right-click forces the full page; a left-click
    /// keeps the current presentation.
    pub fn navigate_to(&mut self, ticket: &Ticket, open: TicketOpen) -> (ev: UiEvent)
        ensures
            Self::navigated(*old(self), *ticket, open, *final(self)),
            ev == UiEvent::Tasks(TasksEvent::LoadNotes(ticket.id)),
    {
        let current_expanded = match &self.modal {
            Some(m) => m.expanded,
            None => false,
        };
        let expanded = open.expanded() || current_expanded;
        match &self.modal {
            Some(current) => {
                let entry = BackEntry { ticket_id: current.ticket_id, expanded: current.expanded };
                self.back_stack.push(entry);
            },
            None => {},
        }
        self.set_current(ticket, expanded)
    }

    /// Postcondition of expanding the current modal to the full page.
    pub open spec fn expanded_current(old: BoardState, new: BoardState) -> bool {
        &&& match old.modal {
            Some(m) => {
                &&& new.modal == Some(TicketModal { expanded: true, ..m })
                &&& new.back_stack@ == old.back_stack@.push(
                    BackEntry { ticket_id: m.ticket_id, expanded: false },
                )
            },
            None => new.modal is None && new.back_stack == old.back_stack,
        }
        &&& new.same_but_detail(&old)
    }

    /// Expand the current modal to the full page; the modal presentation goes onto the
    /// back-history so "Back" returns to it.
    pub fn expand_current(&mut self)
        ensures
            Self::expanded_current(*old(self), *final(self)),
    {
        match &self.modal {
            Some(current) => {
                let entry = BackEntry { ticket_id: current.ticket_id, expanded: false };
                self.back_stack.push(entry);
            },
            None => {},
        }
        if let Some(modal) = &mut self.modal {
            modal.expanded = true;
        }
    }

    /// Postcondition of "Back".
    pub open spec fn went_back(old: BoardState, view: TasksView, new: BoardState, ev: Option<UiEvent>) -> bool {
        &&& match back_target(old.back_stack@, view) {
            Some(k) => {
                let e = old.back_stack@[k];
                &&& new.shows(view.ticket_spec(e.ticket_id).unwrap(), e.expanded)
                &&& new.back_stack@ == old.back_stack@.take(k)
                &&& ev == Some(UiEvent::Tasks(TasksEvent::LoadNotes(e.ticket_id)))
            },
            None => {
                &&& new.modal is None
                &&& new.back_stack@.len() == 0
                &&& ev is None
            },
        }
        &&& new.same_but_detail(&old)
    }

    /// "Back": return to the newest previous ticket that is still on the board, in the
    /// presentation it was shown in; with none left, close the detail.
    pub fn go_back(&mut self, view: &TasksView) -> (ev: Option<UiEvent>)
        ensures
            Self::went_back(*old(self), *view, *final(self), ev),
    {
        let ghost start = self.back_stack@;
        while self.back_stack.len() > 0
            invariant
                back_target(self.back_stack@, *view) == back_target(start, *view),
                start == old(self).back_stack@,
                self.back_stack@ == start.take(self.back_stack@.len() as int),
                self.back_stack@.len() <= start.len(),
                self.modal == old(self).modal,
                self.same_but_detail(old(self)),
            decreases self.back_stack.len(),
        {
            let ghost before = self.back_stack@;
            let entry = self.back_stack.pop().unwrap();
            proof {
                assert(self.back_stack@ =~= before.drop_last());
                assert(self.back_stack@ =~= start.take(self.back_stack@.len() as int));
            }
            match view.ticket(entry.ticket_id) {
                Some(ticket) => {
                    proof {
                        lemma_lookup(view.tickets@, entry.ticket_id);
                        assert(entry == before.last());
                        assert(back_target(before, *view) == Some(before.len() - 1));
                        assert(start.take(before.len() - 1) =~= self.back_stack@);
                        assert(start[before.len() - 1] == entry);
                    }
                    let ev = self.set_current(ticket, entry.expanded);
                    return Some(ev);
                },
                None => {
                    proof {
                        lemma_lookup(view.tickets@, entry.ticket_id);
                    }
                },
            }
        }
        self.modal = None;
        None
    }

    /// Whether the detail is expanded to the full page (the shell renders it over the tab).
    pub fn has_expanded_ticket(&self) -> (r: bool)
        ensures
            r == (self.modal matches Some(m) && m.expanded),
    {
        match &self.modal {
            Some(m) => m.expanded,
            None => false,
        }
    }

    /// Whether the detail shows as the modal overlay (a ticket is open and not expanded to
    /// the full page).
    pub fn shows_detail_modal(&self) -> (r: bool)
        ensures
            r == (self.modal matches Some(m) && !m.expanded),
    {
        match &self.modal {
            Some(m) => !m.expanded,
            None => false,
        }
    }

    /// Close any open ticket detail and clear the back-history (a nav tab was clicked).
    pub fn close_detail(&mut self)
        ensures
            final(self).modal is None,
            final(self).back_stack@.len() == 0,
            final(self).same_but_detail(old(self)),
    {
        self.modal = None;
        self.back_stack.clear();
    }

    /// Whether "Back" would return to a previous ticket (rather than close the detail).
    pub fn can_go_back(&self) -> (r: bool)
        ensures
            r == (self.back_stack@.len() > 0),
    {
        self.back_stack.len() > 0
    }

    /// Open the ticket detail directly (dev review), with mock notes already loaded so the
    /// notes cap and the wide list are exercised.
    pub fn dev_open(&mut self, ticket: &Ticket, expanded: bool)
        ensures
            final(self).modal matches Some(m) && m.dev_opened_on(*ticket, expanded),
            final(self).back_stack == old(self).back_stack,
            final(self).same_but_detail(old(self)),
    {
        let mut modal = TicketModal::new(ticket);
        let notes = mock_notes(ticket.id);
        let ghost w: ([Id; 4], Micros) = choose|ids: [Id; 4], now: Micros| is_mock_notes(notes@, ticket.id, ids, now);
        modal.notes = notes;
        modal.notes_loaded = true;
        modal.expanded = expanded;
        proof {
            assert(is_mock_notes(modal.notes@, ticket.id, w.0, w.1));
            assert(modal.dev_opened_on(*ticket, expanded));
        }
        self.modal = Some(modal);
    }

    /// Open a ticket detail with one back-history entry beneath it (dev review of "Back").
    pub fn dev_open_with_back(&mut self, ticket: &Ticket, back_ticket_id: Id, expanded: bool)
        ensures
            final(self).modal matches Some(m) && m.dev_opened_on(*ticket, expanded),
            final(self).back_stack@ == seq![BackEntry { ticket_id: back_ticket_id, expanded: false }],
            final(self).same_but_detail(old(self)),
    {
        self.back_stack = vec![BackEntry { ticket_id: back_ticket_id, expanded: false }];
        self.dev_open(ticket, expanded);
    }
    /// Postcondition of reconciling against a fresh snapshot.
    pub open spec fn reconciled(old: BoardState, view: TasksView, new: BoardState) -> bool {
        &&& new.modal == (match old.modal {
            Some(m) => if view.has_ticket(m.ticket_id) {
                Some(m)
            } else {
                None
            },
            None => None,
        })
        &&& new.back_stack@ == old.back_stack@.filter(entry_alive(view))
        &&& new.confirm_delete_ticket == (match old.confirm_delete_ticket {
            Some(id) => if view.has_ticket(id) {
                Some(id)
            } else {
                None
            },
            None => None,
        })
        &&& new.confirm_delete_stage == (match old.confirm_delete_stage {
            Some(id) => if view.has_stage(id) {
                Some(id)
            } else {
                None
            },
            None => None,
        })
        &&& new == (BoardState {
            modal: new.modal,
            back_stack: new.back_stack,
            confirm_delete_ticket: new.confirm_delete_ticket,
            confirm_delete_stage: new.confirm_delete_stage,
            ..old
        })
    }

    /// Close a detail or confirmation whose ticket or stage vanished from the latest
    /// snapshot, and drop back-history entries for vanished tickets.
    pub fn reconcile(&mut self, view: &TasksView)
        ensures
            Self::reconciled(*old(self), *view, *final(self)),
    {
        let gone = match &self.modal {
            Some(m) => view.ticket(m.ticket_id).is_none(),
            None => false,
        };
        proof {
            if let Some(m) = old(self).modal {
                lemma_lookup(view.tickets@, m.ticket_id);
            }
        }
        if gone {
            self.modal = None;
        }
        let mut kept: Vec<BackEntry> = Vec::new();
        let mut i: usize = 0;
        while i < self.back_stack.len()
            invariant
                i <= self.back_stack.len(),
                self.back_stack == old(self).back_stack,
                kept@ == self.back_stack@.take(i as int).filter(entry_alive(*view)),
            decreases self.back_stack.len() - i,
        {
            proof {
                lemma_filter_take_step(self.back_stack@, entry_alive(*view), i as int);
                lemma_lookup(view.tickets@, self.back_stack@[i as int].ticket_id);
            }
            let e = self.back_stack[i];
            if view.ticket(e.ticket_id).is_some() {
                kept.push(e);
            }
            i = i + 1;
        }
        proof {
            assert(self.back_stack@.take(i as int) =~= self.back_stack@);
        }
        self.back_stack = kept;
        match self.confirm_delete_ticket {
            Some(id) => {
                proof {
                    lemma_lookup(view.tickets@, id);
                }
                if view.ticket(id).is_none() {
                    self.confirm_delete_ticket = None;
                }
            },
            None => {},
        }
        match self.confirm_delete_stage {
            Some(id) => {
                proof {
                    lemma_lookup(view.stages@, id);
                }
                if view.stage(id).is_none() {
                    self.confirm_delete_stage = None;
                }
            },
            None => {},
        }
    }

    /// Take the "create a worktree for this ticket" request the detail raised, if any.
    pub fn take_pending_worktree(&mut self) -> (r: Option<Id>)
        ensures
            r == old(self).pending_worktree,
            *final(self) == (BoardState { pending_worktree: None, ..*old(self) }),
    {
        self.pending_worktree.take()
    }

    /// Take the "remove worktree" request the detail raised, if any.
    pub fn take_pending_remove_worktree(&mut self) -> (r: Option<Id>)
        ensures
            r == old(self).pending_remove_worktree,
            *final(self) == (BoardState { pending_remove_worktree: None, ..*old(self) }),
    {
        self.pending_remove_worktree.take()
    }

    /// Take the "recreate a marker on a new branch" request the detail raised, if any.
    pub fn take_pending_recreate_worktree_as(&mut self) -> (r: Option<Id>)
        ensures
            r == old(self).pending_recreate_worktree_as,
            *final(self) == (BoardState { pending_recreate_worktree_as: None, ..*old(self) }),
    {
        self.pending_recreate_worktree_as.take()
    }

    /// Act on a frame of the delete-ticket confirmation: confirming deletes the ticket and
    /// leaves its detail; cancelling just clears the confirmation.
    pub fn settle_ticket_confirmation(&mut self, choice: Choice) -> (e: Option<UiEvent>)
        ensures
            match (old(self).confirm_delete_ticket, choice) {
                (Some(id), Choice::Confirmed) => {
                    &&& e == Some(UiEvent::Tasks(TasksEvent::DeleteTicket(id)))
                    &&& *final(self) == (BoardState {
                        confirm_delete_ticket: None,
                        modal: None,
                        ..*old(self)
                    })
                },
                (Some(_), Choice::Cancelled) => {
                    &&& e is None
                    &&& *final(self) == (BoardState { confirm_delete_ticket: None, ..*old(self) })
                },
                _ => e is None && *final(self) == *old(self),
            },
    {
        match self.confirm_delete_ticket {
            Some(id) => match choice {
                Choice::Confirmed => {
                    self.confirm_delete_ticket = None;
                    self.modal = None;
                    Some(UiEvent::Tasks(TasksEvent::DeleteTicket(id)))
                },
                Choice::Cancelled => {
                    self.confirm_delete_ticket = None;
                    None
                },
                Choice::Pending => None,
            },
            None => None,
        }
    }

    /// Act on a frame of the delete-stage confirmation.
    pub fn settle_stage_confirmation(&mut self, choice: Choice) -> (e: Option<UiEvent>)
        ensures
            match (old(self).confirm_delete_stage, choice) {
                (Some(id), Choice::Confirmed) => {
                    &&& e == Some(UiEvent::Tasks(TasksEvent::DeleteStage(id)))
                    &&& *final(self) == (BoardState { confirm_delete_stage: None, ..*old(self) })
                },
                (Some(_), Choice::Cancelled) => {
                    &&& e is None
                    &&& *final(self) == (BoardState { confirm_delete_stage: None, ..*old(self) })
                },
                _ => e is None && *final(self) == *old(self),
            },
    {
        match self.confirm_delete_stage {
            Some(id) => match choice {
                Choice::Confirmed => {
                    self.confirm_delete_stage = None;
                    Some(UiEvent::Tasks(TasksEvent::DeleteStage(id)))
                },
                Choice::Cancelled => {
                    self.confirm_delete_stage = None;
                    None
                },
                Choice::Pending => None,
            },
            None => None,
        }
    }
}

/// The name of the selected stage, or `fallback` when nothing (or a vanished stage) is
/// selected.
pub fn stage_name_or(view: &TasksView, selected: Option<Id>, fallback: &str) -> (r: String)
    ensures
        r@ == (match selected {
            Some(id) => match view.stage_spec(id) {
                Some(s) => s.name@,
                None => fallback@,
            },
            None => fallback@,
        }),
{
    match selected {
        Some(id) => match view.stage(id) {
            Some(s) => s.name.clone(),
            None => fallback.to_owned(),
        },
        None => fallback.to_owned(),
    }
}

} // verus!
