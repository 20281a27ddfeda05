//! The Notes tab: a composer, the list of loose notes, and the "Add to ticket" picker that
//! files a note onto an existing ticket.

use vstd::prelude::*;

use crate::events::{NotesEvent, UiEvent};
use crate::model::{lemma_filter_take_step, Id, Note, TasksView, Ticket};
use crate::text::{
    contains, has_content, is_blank, lowercase, occurs_in, to_lowercase, trim, trim_spec, trimmed,
};

verus! {

/// What the Notes tab needs the shell to do after rendering.
pub struct NotesOutcome {
    /// Turn this note (id, body) into a new ticket: the shell opens the board's create modal
    /// pre-filled.
    pub create_ticket_from: Option<(Id, String)>,
}

impl Default for NotesOutcome {
    fn default() -> (r: Self)
        ensures
            r.create_ticket_from is None,
    {
        NotesOutcome { create_ticket_from: None }
    }
}

/// Draft of the "Add to ticket" picker.
pub struct AddToTicketModal {
    pub note_id: Id,
    pub note_body: String,
    /// Ticket-title search query.
    pub search: String,
}

impl AddToTicketModal {
    /// The picker for a note, with an empty search.
    pub fn new(note: &Note) -> (r: Self)
        ensures
            r.note_id == note.id,
            r.note_body == note.body,
            r.search@.len() == 0,
    {
        AddToTicketModal { note_id: note.id, note_body: note.body.clone(), search: String::new() }
    }
}

/// Transient UI state of the Notes tab.
pub struct NotesState {
    /// The "New note" field.
    pub new_note: String,
    /// The open "Add to ticket" picker, if any.
    pub add_to_ticket: Option<AddToTicketModal>,
}

impl Default for NotesState {
    fn default() -> (r: Self)
        ensures
            r.new_note@.len() == 0,
            r.add_to_ticket is None,
    {
        NotesState { new_note: String::new(), add_to_ticket: None }
    }
}

/// A ticket whose lowercased title contains the (lowercased, trimmed) query; every ticket
/// when the query is empty.
pub open spec fn title_matches(query: Seq<char>) -> spec_fn(Ticket) -> bool {
    |t: Ticket| query.len() == 0 || occurs_in(lowercase(t.title@), query)
}

/// A ticket the picker offers: outside terminal stages (finished work is hidden from "Add to
/// ticket"), with a title matching the query.
pub open spec fn pickable(tasks: TasksView, query: Seq<char>) -> spec_fn(Ticket) -> bool {
    |t: Ticket| !tasks.terminal_spec(t.stage_id) && title_matches(query)(t)
}

/// The tickets the picker lists for a search: those outside terminal stages whose title
/// matches, in board order.
pub fn search_tickets(tasks: &TasksView, search: &String) -> (r: Vec<Ticket>)
    ensures
        r@ == tasks.tickets@.filter(pickable(*tasks, lowercase(trim_spec(search@)))),
{
    let query = to_lowercase(trim(search.as_str()));
    let mut r: Vec<Ticket> = Vec::new();
    let mut i: usize = 0;
    while i < tasks.tickets.len()
        invariant
            i <= tasks.tickets.len(),
            query@ == lowercase(trim_spec(search@)),
            r@ == tasks.tickets@.take(i as int).filter(pickable(*tasks, query@)),
        decreases tasks.tickets.len() - i,
    {
        proof {
            lemma_filter_take_step(tasks.tickets@, pickable(*tasks, query@), i as int);
        }
        let t = &tasks.tickets[i];
        if !tasks.is_terminal(t.stage_id) && (query.as_str().is_empty() || contains(
            to_lowercase(t.title.as_str()).as_str(),
            query.as_str(),
        )) {
            r.push(t.clone());
        }
        i = i + 1;
    }
    proof {
        assert(tasks.tickets@.take(i as int) =~= tasks.tickets@);
    }
    r
}

/// The hint the picker shows when no ticket is listed.
pub fn no_results_hint(tasks: &TasksView) -> (r: &'static str)
    ensures
        r@ == (if tasks.tickets@.len() == 0 {
            "No tickets yet — create one on the Tasks board first."@
        } else {
            "No tickets match that search."@
        }),
{
    if tasks.tickets.len() == 0 {
        "No tickets yet — create one on the Tasks board first."
    } else {
        "No tickets match that search."
    }
}

impl NotesState {
    /// Open the "Add to ticket" picker for a note.
    pub fn open_add_to_ticket(&mut self, note: &Note)
        ensures
            final(self).add_to_ticket matches Some(m) && m.note_id == note.id && m.note_body
                == note.body && m.search@.len() == 0,
            final(self).new_note == old(self).new_note,
    {
        self.add_to_ticket = Some(AddToTicketModal::new(note));
    }

    /// Open the "Add to ticket" picker directly (dev review).
    pub fn dev_open_add_to_ticket(&mut self, note: &Note)
        ensures
            final(self).add_to_ticket matches Some(m) && m.note_id == note.id && m.note_body
                == note.body && m.search@.len() == 0,
            final(self).new_note == old(self).new_note,
    {
        self.open_add_to_ticket(note);
    }

    /// The composer: Add or Enter adds the trimmed note, when it holds something, and clears
    /// the field.
    pub fn submit_composer(&mut self, clicked: bool, entered: bool) -> (e: Option<UiEvent>)
        ensures
            if (clicked || entered) && has_content(old(self).new_note@) {
                &&& e matches Some(UiEvent::Notes(NotesEvent::Add(b))) && b@ == trim_spec(old(self).new_note@)
                &&& final(self).new_note@.len() == 0
                &&& final(self).add_to_ticket == old(self).add_to_ticket
            } else {
                e is None && *final(self) == *old(self)
            },
    {
        if (clicked || entered) && !is_blank(&self.new_note) {
            let body = trimmed(&self.new_note);
            self.new_note = String::new();
            Some(UiEvent::Notes(NotesEvent::Add(body)))
        } else {
            None
        }
    }

    /// The tickets the open picker lists (none when it is closed).
    pub fn search_results(&self, tasks: &TasksView) -> (r: Vec<Ticket>)
        ensures
            match self.add_to_ticket {
                Some(m) => r@ == tasks.tickets@.filter(pickable(*tasks, lowercase(trim_spec(m.search@)))),
                None => r@.len() == 0,
            },
    {
        match &self.add_to_ticket {
            Some(m) => search_tickets(tasks, &m.search),
            None => Vec::new(),
        }
    }

    /// Settle a frame of the picker: picking a ticket files the note onto it; the close button
    /// or the backdrop closes the picker.
    pub fn settle_add_to_ticket(&mut self, chosen: Option<Id>, close_clicked: bool, dismissed: bool) -> (e: Option<UiEvent>)
        ensures
            match old(self).add_to_ticket {
                None => e is None && *final(self) == *old(self),
                Some(m) => match chosen {
                    Some(t) => {
                        &&& e matches Some(UiEvent::Notes(NotesEvent::FileIntoTicket { note_id, ticket_id, body }))
                            && note_id == m.note_id && ticket_id == t && body == m.note_body
                        &&& final(self).add_to_ticket is None
                        &&& final(self).new_note == old(self).new_note
                    },
                    None => if close_clicked || dismissed {
                        e is None && final(self).add_to_ticket is None && final(self).new_note
                            == old(self).new_note
                    } else {
                        e is None && *final(self) == *old(self)
                    },
                },
            },
    {
        let m = match self.add_to_ticket.take() {
            Some(m) => m,
            None => {
                return None;
            },
        };
        match chosen {
            Some(t) => Some(UiEvent::Notes(NotesEvent::FileIntoTicket {
                note_id: m.note_id,
                ticket_id: t,
                body: m.note_body,
            })),
            None => {
                if !(close_clicked || dismissed) {
                    self.add_to_ticket = Some(m);
                }
                None
            },
        }
    }
}

} // verus!
