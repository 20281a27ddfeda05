//! The "new ticket" modal: opened from a column (targeting it) or from a loose note (which
//! becomes the first note and is consumed once the ticket is created).

use vstd::prelude::*;

use super::BoardState;
use crate::events::{NotesEvent, TasksEvent, UiEvent};
use crate::model::{Id, TasksView};
use crate::text::{has_content, is_blank, trim_spec, trimmed};

verus! {

/// Draft of the open "new ticket" modal.
pub struct NewTicketModal {
    /// Stage the ticket will be created in; `None` until one is picked.
    pub stage_id: Option<Id>,
    pub title: String,
    pub description: String,
    /// Optional first note.
    pub note: String,
    /// The loose note this ticket is made from, consumed once it is created.
    pub source_note_id: Option<Id>,
}

impl NewTicketModal {
    /// A blank draft targeting a column.
    pub fn new(stage_id: Id) -> (r: Self)
        ensures
            r.stage_id == Some(stage_id),
            r.title@.len() == 0,
            r.description@.len() == 0,
            r.note@.len() == 0,
            r.source_note_id is None,
    {
        NewTicketModal {
            stage_id: Some(stage_id),
            title: String::new(),
            description: String::new(),
            note: String::new(),
            source_note_id: None,
        }
    }

    /// A draft made from a loose note: its body is the first note, the stage defaults to
    /// `default_stage`.
    pub fn from_note(note_id: Id, body: String, default_stage: Option<Id>) -> (r: Self)
        ensures
            r.stage_id == default_stage,
            r.title@.len() == 0,
            r.description@.len() == 0,
            r.note == body,
            r.source_note_id == Some(note_id),
    {
        NewTicketModal {
            stage_id: default_stage,
            title: String::new(),
            description: String::new(),
            note: body,
            source_note_id: Some(note_id),
        }
    }

    /// Create is enabled: a non-blank title and a picked stage.
    pub fn can_create(&self) -> (r: bool)
        ensures
            r == (has_content(self.title@) && self.stage_id is Some),
    {
        !is_blank(&self.title) && self.stage_id.is_some()
    }
}

impl BoardState {
    /// "+ New ticket" in a column: open the create modal targeting it.
    pub fn open_new_ticket(&mut self, stage_id: Id)
        ensures
            final(self).new_ticket matches Some(d) && d.stage_id == Some(stage_id) && d.title@.len() == 0
                && d.description@.len() == 0 && d.note@.len() == 0 && d.source_note_id is None,
            *final(self) == (BoardState { new_ticket: final(self).new_ticket, ..*old(self) }),
    {
        self.new_ticket = Some(NewTicketModal::new(stage_id));
    }

    /// Open the create modal directly (dev review).
    pub fn dev_open_new_ticket(&mut self, stage_id: Id)
        ensures
            final(self).new_ticket matches Some(d) && d.stage_id == Some(stage_id) && d.title@.len() == 0
                && d.description@.len() == 0 && d.note@.len() == 0 && d.source_note_id is None,
            *final(self) == (BoardState { new_ticket: final(self).new_ticket, ..*old(self) }),
    {
        self.open_new_ticket(stage_id);
    }

    /// Open the create modal from a loose note ("Create Ticket" on the Notes tab): the note is
    /// the first note and the stage defaults to the board's first column.
    pub fn open_new_ticket_from_note(&mut self, note_id: Id, body: String, view: &TasksView)
        ensures
            final(self).new_ticket matches Some(d) && d.stage_id == (if view.stages@.len() > 0 {
                Some(view.stages@[0].id)
            } else {
                None
            }) && d.title@.len() == 0 && d.description@.len() == 0 && d.note == body
                && d.source_note_id == Some(note_id),
            *final(self) == (BoardState { new_ticket: final(self).new_ticket, ..*old(self) }),
    {
        let default_stage = if view.stages.len() > 0 {
            Some(view.stages[0].id)
        } else {
            None
        };
        self.new_ticket = Some(NewTicketModal::from_note(note_id, body, default_stage));
    }

    /// Pick the stage the new ticket lands in.
    pub fn pick_new_ticket_stage(&mut self, stage_id: Id)
        ensures
            final(self).new_ticket == (match old(self).new_ticket {
                Some(d) => Some(NewTicketModal { stage_id: Some(stage_id), ..d }),
                None => None,
            }),
            *final(self) == (BoardState { new_ticket: final(self).new_ticket, ..*old(self) }),
    {
        if let Some(d) = &mut self.new_ticket {
            d.stage_id = Some(stage_id);
        }
    }

    /// Settle a frame of the create modal. A submit with a non-blank title and a stage
    /// creates the ticket (trimmed fields; the first note only when it holds something) and,
    /// when the draft came from a loose note, deletes that note; Cancel or the backdrop
    /// closes the modal.
    pub fn settle_create_modal(&mut self, submit: bool, cancel: bool, dismissed: bool) -> (sent: Vec<UiEvent>)
        ensures
            match old(self).new_ticket {
                None => sent@.len() == 0 && *final(self) == *old(self),
                Some(d) => if submit && has_content(d.title@) && d.stage_id is Some {
                    &&& sent@.len() == (if d.source_note_id is Some { 2int } else { 1int })
                    &&& sent@[0] matches UiEvent::Tasks(
                        TasksEvent::CreateTicket { stage_id, title, description, note },
                    ) && Some(stage_id) == d.stage_id && title@ == trim_spec(d.title@)
                        && description@ == trim_spec(d.description@) && (if has_content(d.note@) {
                        note matches Some(n) && n@ == trim_spec(d.note@)
                    } else {
                        note is None
                    })
                    &&& d.source_note_id matches Some(n) ==> sent@[1] == UiEvent::Notes(
                        NotesEvent::Delete(n),
                    )
                    &&& *final(self) == (BoardState { new_ticket: None, ..*old(self) })
                } else if cancel || dismissed {
                    sent@.len() == 0 && *final(self) == (BoardState { new_ticket: None, ..*old(self) })
                } else {
                    sent@.len() == 0 && *final(self) == *old(self)
                },
            },
    {
        let mut sent: Vec<UiEvent> = Vec::new();
        let ready = match &self.new_ticket {
            Some(d) => submit && d.can_create(),
            None => {
                return sent;
            },
        };
        if ready {
            let d = self.new_ticket.take().unwrap();
            let note = if is_blank(&d.note) {
                None
            } else {
                Some(trimmed(&d.note))
            };
            sent.push(UiEvent::Tasks(TasksEvent::CreateTicket {
                stage_id: d.stage_id.unwrap(),
                title: trimmed(&d.title),
                description: trimmed(&d.description),
                note,
            }));
            if let Some(n) = d.source_note_id {
                sent.push(UiEvent::Notes(NotesEvent::Delete(n)));
            }
            return sent;
        }
        if cancel || dismissed {
            self.new_ticket = None;
        }
        sent
    }
}

} // verus!
