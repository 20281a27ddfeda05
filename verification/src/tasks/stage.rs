//! Stage columns: adding, editing (name, terminal flag, delete) and reordering stages, and
//! dropping tickets onto a column.

use vstd::prelude::*;

use super::{others, BoardState};
use crate::events::{TasksEvent, UiEvent};
use crate::model::{lemma_filter_take_step, Id, Stage, TasksView};
use crate::text::{has_content, is_blank, trim_spec, trimmed};

verus! {

/// Draft of the open "edit stage" modal.
pub struct StageModal {
    pub id: Id,
    pub name: String,
    pub terminal: bool,
}

/// What is being dragged onto a column.
#[derive(Clone, Copy, Debug)]
pub enum DragPayload {
    /// A ticket card.
    Ticket(Id),
    /// Another column, being reordered.
    Stage(Id),
}

/// The first position of `x` in `s`, or the length when it is absent.
pub open spec fn first_pos(s: Seq<Id>, x: Id) -> int {
    if s.contains(x) {
        choose|i: int| 0 <= i < s.len() && s[i] == x && forall|j: int| 0 <= j < i ==> s[j] != x
    } else {
        s.len() as int
    }
}

/// The stage order after dropping `dragged` onto `target`: `dragged` is taken out and put
/// back at the target's original position (clamped to the end). Dragged leftward it lands
/// left of the target, dragged rightward, right of it.
pub open spec fn reordered(ids: Seq<Id>, dragged: Id, target: Id) -> Seq<Id> {
    let rest = ids.filter(others(dragged));
    let at = if first_pos(ids, target) < rest.len() {
        first_pos(ids, target)
    } else {
        rest.len() as int
    };
    rest.insert(at, dragged)
}

/// The first position of `x` in `v`, or its length.
fn find_pos(v: &Vec<Id>, x: Id) -> (r: usize)
    ensures
        r == first_pos(v@, x),
{
    let mut i: usize = 0;
    while i < v.len()
        invariant
            i <= v.len(),
            forall|j: int| 0 <= j < i ==> v@[j] != x,
        decreases v.len() - i,
    {
        if v[i] == x {
            proof {
                assert(v@.contains(x));
                let k = choose|k: int| 0 <= k < v@.len() && v@[k] == x && forall|j: int| 0 <= j < k ==> v@[j] != x;
                if k < i {
                    assert(v@[k] != x);
                }
                if i < k {
                    assert(v@[i as int] != x);
                }
            }
            return i;
        }
        i = i + 1;
    }
    proof {
        if v@.contains(x) {
            let k = choose|k: int| 0 <= k < v@.len() && v@[k] == x;
            assert(v@[k] != x);
        }
    }
    i
}

/// The stage ids in their new order after dropping `dragged` onto `target`.
pub fn reorder_stage_ids(ids: &Vec<Id>, dragged: Id, target: Id) -> (r: Vec<Id>)
    ensures
        r@ == reordered(ids@, dragged, target),
{
    let target_pos = find_pos(ids, target);
    let mut rest: Vec<Id> = Vec::new();
    let mut i: usize = 0;
    while i < ids.len()
        invariant
            i <= ids.len(),
            rest@ == ids@.take(i as int).filter(others(dragged)),
        decreases ids.len() - i,
    {
        proof {
            lemma_filter_take_step(ids@, others(dragged), i as int);
        }
        if ids[i] != dragged {
            rest.push(ids[i]);
        }
        i = i + 1;
    }
    proof {
        assert(ids@.take(i as int) =~= ids@);
    }
    let at = if target_pos < rest.len() {
        target_pos
    } else {
        rest.len()
    };
    rest.insert(at, dragged);
    rest
}

/// The ids of every stage, in board order.
pub fn stage_ids(view: &TasksView) -> (r: Vec<Id>)
    ensures
        r@ == view.stages@.map_values(|s: Stage| s.id),
{
    let mut r: Vec<Id> = Vec::new();
    let mut i: usize = 0;
    while i < view.stages.len()
        invariant
            i <= view.stages.len(),
            r@ == view.stages@.take(i as int).map_values(|s: Stage| s.id),
        decreases view.stages.len() - i,
    {
        r.push(view.stages[i].id);
        proof {
            assert(view.stages@.take(i + 1).map_values(|s: Stage| s.id) =~= view.stages@.take(
                i as int,
            ).map_values(|s: Stage| s.id).push(view.stages@[i as int].id));
        }
        i = i + 1;
    }
    proof {
        assert(view.stages@.take(i as int) =~= view.stages@);
    }
    r
}

/// Whether dropping `payload` on the column of stage `target` does something: a ticket from
/// another stage (or one no longer on the board) moves there; another column is reordered
/// onto this slot.
pub open spec fn drop_applies(view: TasksView, target: Id, payload: DragPayload) -> bool {
    match payload {
        DragPayload::Ticket(id) => match view.ticket_spec(id) {
            Some(t) => t.stage_id != target,
            None => true,
        },
        DragPayload::Stage(dragged) => dragged != target,
    }
}

/// Whether dropping `payload` on the column of stage `target` would do something (the column
/// is then highlighted as a drop target).
pub fn accepts_drop(view: &TasksView, target: Id, payload: DragPayload) -> (r: bool)
    ensures
        r == drop_applies(*view, target, payload),
{
    match payload {
        DragPayload::Ticket(id) => match view.ticket(id) {
            Some(t) => t.stage_id != target,
            None => true,
        },
        DragPayload::Stage(dragged) => dragged != target,
    }
}

/// Drop `payload` on the column of stage `target`.
pub fn drop_on_stage(view: &TasksView, target: Id, payload: DragPayload) -> (r: Option<UiEvent>)
    ensures
        match payload {
            DragPayload::Ticket(id) => r == if drop_applies(*view, target, payload) {
                Some(UiEvent::Tasks(TasksEvent::MoveTicket { ticket_id: id, stage_id: target }))
            } else {
                None
            },
            DragPayload::Stage(dragged) => if dragged != target {
                r matches Some(UiEvent::Tasks(TasksEvent::ReorderStages(ids))) && ids@ == reordered(
                    view.stages@.map_values(|s: Stage| s.id),
                    dragged,
                    target,
                )
            } else {
                r is None
            },
        },
{
    match payload {
        DragPayload::Ticket(id) => {
            if accepts_drop(view, target, payload) {
                Some(UiEvent::Tasks(TasksEvent::MoveTicket { ticket_id: id, stage_id: target }))
            } else {
                None
            }
        },
        DragPayload::Stage(dragged) => {
            if dragged != target {
                let ids = stage_ids(view);
                Some(UiEvent::Tasks(TasksEvent::ReorderStages(reorder_stage_ids(&ids, dragged, target))))
            } else {
                None
            }
        },
    }
}

/// The word under a collapsed terminal stage's count.
pub fn ticket_count_word(count: usize) -> (r: &'static str)
    ensures
        r@ == (if count == 1 {
            "ticket"@
        } else {
            "tickets"@
        }),
{
    if count == 1 {
        "ticket"
    } else {
        "tickets"
    }
}

impl BoardState {
    /// Open the edit-stage modal on `stage` (its current name and terminal flag).
    pub fn open_stage_edit(&mut self, stage: &Stage)
        ensures
            final(self).editing_stage matches Some(d) && d.id == stage.id && d.name == stage.name
                && d.terminal == stage.terminal,
            *final(self) == (BoardState { editing_stage: final(self).editing_stage, ..*old(self) }),
    {
        self.editing_stage = Some(StageModal { id: stage.id, name: stage.name.clone(), terminal: stage.terminal });
    }

    /// Open the edit-stage modal directly (dev review).
    pub fn dev_open_stage_edit(&mut self, stage: &Stage)
        ensures
            final(self).editing_stage matches Some(d) && d.id == stage.id && d.name == stage.name
                && d.terminal == stage.terminal,
            *final(self) == (BoardState { editing_stage: final(self).editing_stage, ..*old(self) }),
    {
        self.open_stage_edit(stage);
    }

    /// The "add stage" control: a click on Add or Enter in the field creates a stage with the
    /// trimmed name, when it holds something, and clears the field.
    pub fn submit_new_stage(&mut self, clicked: bool, entered: bool) -> (e: Option<UiEvent>)
        ensures
            if (clicked || entered) && has_content(old(self).new_stage_name@) {
                &&& e matches Some(UiEvent::Tasks(TasksEvent::CreateStage(n))) && n@ == trim_spec(
                    old(self).new_stage_name@,
                )
                &&& final(self).new_stage_name@.len() == 0
                &&& *final(self) == (BoardState { new_stage_name: final(self).new_stage_name, ..*old(self) })
            } else {
                e is None && *final(self) == *old(self)
            },
    {
        if (clicked || entered) && !is_blank(&self.new_stage_name) {
            let name = trimmed(&self.new_stage_name);
            self.new_stage_name = String::new();
            Some(UiEvent::Tasks(TasksEvent::CreateStage(name)))
        } else {
            None
        }
    }

    /// The events a saved stage edit sends: a rename when the trimmed name differs from the
    /// saved one, and a terminal toggle when the flag differs (a vanished stage gets both).
    pub open spec fn stage_edit_events(view: TasksView, d: StageModal, sent: Seq<UiEvent>) -> bool {
        let saved = view.stage_spec(d.id);
        let rename = match saved {
            Some(s) => s.name@ != trim_spec(d.name@),
            None => true,
        };
        let toggle = match saved {
            Some(s) => s.terminal != d.terminal,
            None => true,
        };
        let tail = if toggle {
            seq![UiEvent::Tasks(TasksEvent::SetTerminalStage(d.id, d.terminal))]
        } else {
            Seq::empty()
        };
        if rename {
            &&& sent.len() == tail.len() + 1
            &&& sent[0] matches UiEvent::Tasks(TasksEvent::RenameStage(id, n)) && id == d.id && n@
                == trim_spec(d.name@)
            &&& sent.drop_first() == tail
        } else {
            sent == tail
        }
    }

    /// Settle a frame of the edit-stage modal. Delete sends nothing yet: it closes the editor
    /// and opens the delete-stage confirmation, which alone deletes; Save (or Enter with a
    /// non-blank name) sends only what changed; Cancel or the backdrop closes without saving.
    pub fn settle_stage_modal(
        &mut self,
        view: &TasksView,
        save_clicked: bool,
        entered: bool,
        cancel_clicked: bool,
        dismissed: bool,
        delete_clicked: bool,
    ) -> (sent: Vec<UiEvent>)
        ensures
            match old(self).editing_stage {
                None => sent@.len() == 0 && *final(self) == *old(self),
                Some(d) => if delete_clicked {
                    &&& sent@.len() == 0
                    &&& *final(self) == (BoardState {
                        editing_stage: None,
                        confirm_delete_stage: Some(d.id),
                        ..*old(self)
                    })
                } else if (save_clicked || entered) && has_content(d.name@) {
                    &&& Self::stage_edit_events(*view, d, sent@)
                    &&& *final(self) == (BoardState { editing_stage: None, ..*old(self) })
                } else if cancel_clicked || dismissed {
                    sent@.len() == 0 && *final(self) == (BoardState { editing_stage: None, ..*old(self) })
                } else {
                    sent@.len() == 0 && *final(self) == *old(self)
                },
            },
    {
        let mut sent: Vec<UiEvent> = Vec::new();
        let (id, blank) = match &self.editing_stage {
            Some(d) => (d.id, is_blank(&d.name)),
            None => {
                return sent;
            },
        };
        if delete_clicked {
            self.editing_stage = None;
            self.confirm_delete_stage = Some(id);
            return sent;
        }
        if (save_clicked || entered) && !blank {
            let draft = self.editing_stage.take().unwrap();
            let name = trimmed(&draft.name);
            let saved = view.stage(id);
            let rename = match saved {
                Some(s) => s.name != name,
                None => true,
            };
            let toggle = match saved {
                Some(s) => s.terminal != draft.terminal,
                None => true,
            };
            if rename {
                sent.push(UiEvent::Tasks(TasksEvent::RenameStage(id, name)));
            }
            if toggle {
                sent.push(UiEvent::Tasks(TasksEvent::SetTerminalStage(id, draft.terminal)));
            }
            proof {
                if rename {
                    assert(sent@.drop_first() =~= (if toggle {
                        seq![UiEvent::Tasks(TasksEvent::SetTerminalStage(draft.id, draft.terminal))]
                    } else {
                        Seq::empty()
                    }));
                } else {
                    assert(sent@ =~= (if toggle {
                        seq![UiEvent::Tasks(TasksEvent::SetTerminalStage(draft.id, draft.terminal))]
                    } else {
                        Seq::empty()
                    }));
                }
            }
            return sent;
        }
        if cancel_clicked || dismissed {
            self.editing_stage = None;
        }
        sent
    }
}

} // verus!
