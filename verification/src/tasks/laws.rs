//! Laws of board navigation and stage reordering, stated over the postconditions of the
//! operations they relate.

use vstd::prelude::*;

use super::detail::TicketModal;
use super::stage::{drop_applies, first_pos, reordered, DragPayload, StageModal};
use super::{back_target, entry_alive, others, BackEntry, BoardState, TicketOpen};
use crate::events::{TasksEvent, UiEvent};
use crate::model::{lemma_first_with_id, lemma_lookup, Id, TasksView, Ticket};
use crate::text::trim_spec;

verus! {

broadcast use vstd::seq_lib::group_filter_ensures;

/// "Back" only ever picks an entry of the history whose ticket is still on the board.
pub proof fn lemma_back_target(stack: Seq<BackEntry>, view: TasksView)
    ensures
        back_target(stack, view) matches Some(k) ==> 0 <= k < stack.len() && view.has_ticket(
            stack[k].ticket_id,
        ),
    decreases stack.len(),
{
    if stack.len() > 0 && !view.has_ticket(stack.last().ticket_id) {
        lemma_back_target(stack.drop_last(), view);
    }
}

/// Following a link from a detail and then pressing "Back" returns to the ticket that was
/// showing, in the presentation it was shown in, with the history as it was before (as long
/// as that ticket is still on the board).
pub proof fn lemma_back_undoes_link(
    s0: BoardState,
    t: Ticket,
    open: TicketOpen,
    s1: BoardState,
    view: TasksView,
    s2: BoardState,
    ev: Option<UiEvent>,
)
    requires
        BoardState::navigated(s0, t, open, s1),
        BoardState::went_back(s1, view, s2, ev),
        s0.modal is Some,
        view.has_ticket(s0.modal.unwrap().ticket_id),
    ensures
        s2.shows(view.ticket_spec(s0.modal.unwrap().ticket_id).unwrap(), s0.modal.unwrap().expanded),
        s2.back_stack@ == s0.back_stack@,
        ev == Some(UiEvent::Tasks(TasksEvent::LoadNotes(s0.modal.unwrap().ticket_id))),
        s2.same_but_detail(&s0),
{
    let m = s0.modal.unwrap();
    assert(s1.back_stack@.last() == BackEntry { ticket_id: m.ticket_id, expanded: m.expanded });
    assert(back_target(s1.back_stack@, view) == Some(s1.back_stack@.len() - 1));
    assert(s1.back_stack@.take(s1.back_stack@.len() - 1) =~= s0.back_stack@);
}

/// Expanding the modal to the full page and then pressing "Back" returns to the modal
/// presentation of the same ticket, with the history as it was.
pub proof fn lemma_back_undoes_expand(
    s0: BoardState,
    s1: BoardState,
    view: TasksView,
    s2: BoardState,
    ev: Option<UiEvent>,
)
    requires
        BoardState::expanded_current(s0, s1),
        BoardState::went_back(s1, view, s2, ev),
        s0.modal is Some,
        view.has_ticket(s0.modal.unwrap().ticket_id),
    ensures
        s2.shows(view.ticket_spec(s0.modal.unwrap().ticket_id).unwrap(), false),
        s2.back_stack@ == s0.back_stack@,
        s2.same_but_detail(&s0),
{
    let m = s0.modal.unwrap();
    assert(back_target(s1.back_stack@, view) == Some(s1.back_stack@.len() - 1));
    assert(s1.back_stack@.take(s1.back_stack@.len() - 1) =~= s0.back_stack@);
}

/// A ticket opened fresh (from outside any detail) has no history: "Back" closes the detail.
pub proof fn lemma_back_closes_fresh_open(
    s0: BoardState,
    t: Ticket,
    open: TicketOpen,
    s1: BoardState,
    view: TasksView,
    s2: BoardState,
    ev: Option<UiEvent>,
)
    requires
        BoardState::opened(s0, t, open, s1),
        BoardState::went_back(s1, view, s2, ev),
    ensures
        s2.modal is None,
        ev is None,
        s2.back_stack@.len() == 0,
{
}

/// "Back" never lands on a ticket that is gone from the board.
pub proof fn lemma_back_lands_on_live_ticket(
    s0: BoardState,
    view: TasksView,
    s1: BoardState,
    ev: Option<UiEvent>,
)
    requires
        BoardState::went_back(s0, view, s1, ev),
    ensures
        s1.modal matches Some(m) ==> view.has_ticket(m.ticket_id),
{
    lemma_back_target(s0.back_stack@, view);
    if let Some(k) = back_target(s0.back_stack@, view) {
        crate::model::lemma_lookup(view.tickets@, s0.back_stack@[k].ticket_id);
    }
}

/// After reconciling with a snapshot nothing dangles: the open detail, every history entry,
/// and the pending confirmations all name entities the snapshot holds.
pub proof fn lemma_reconcile_leaves_nothing_dangling(s0: BoardState, view: TasksView, s1: BoardState)
    requires
        BoardState::reconciled(s0, view, s1),
    ensures
        s1.modal matches Some(m) ==> view.has_ticket(m.ticket_id),
        forall|i: int| 0 <= i < s1.back_stack@.len() ==> view.has_ticket(#[trigger] s1.back_stack@[i].ticket_id),
        s1.confirm_delete_ticket matches Some(id) ==> view.has_ticket(id),
        s1.confirm_delete_stage matches Some(id) ==> view.has_stage(id),
{
    assert forall|i: int| 0 <= i < s1.back_stack@.len() implies view.has_ticket(#[trigger] s1.back_stack@[i].ticket_id) by {
        assert(entry_alive(view)(s0.back_stack@.filter(entry_alive(view))[i]));
    }
}

/// Filtering out `x` from a sequence that holds it exactly once removes one element.
proof fn lemma_filter_out_unique(s: Seq<Id>, x: Id)
    requires
        s.no_duplicates(),
    ensures
        s.filter(others(x)).len() == s.len() - (if s.contains(x) { 1int } else { 0int }),
        !s.filter(others(x)).contains(x),
        forall|y: Id| y != x ==> (s.filter(others(x)).contains(y) <==> s.contains(y)),
    decreases s.len(),
{
    reveal(Seq::filter);
    if s.len() > 0 {
        let init = s.drop_last();
        assert(init.no_duplicates());
        lemma_filter_out_unique(init, x);
        assert forall|y: Id| #[trigger] s.contains(y) <==> (init.contains(y) || y == s.last()) by {
            if s.contains(y) {
                let k = choose|k: int| 0 <= k < s.len() && s[k] == y;
                if k < s.len() - 1 {
                    assert(init[k] == y);
                }
            }
            if init.contains(y) {
                let k = choose|k: int| 0 <= k < init.len() && init[k] == y;
                assert(s[k] == y);
            }
        }
        if s.last() == x {
            assert(!init.contains(x)) by {
                if init.contains(x) {
                    let k = choose|k: int| 0 <= k < init.len() && init[k] == x;
                    assert(s[k] == s[s.len() - 1]);
                }
            }
        }
        let f = s.filter(others(x));
        let fi = init.filter(others(x));
        if s.last() != x {
            assert(f == fi.push(s.last()));
            assert forall|y: Id| #[trigger] f.contains(y) <==> (fi.contains(y) || y == s.last()) by {
                if f.contains(y) {
                    let k = choose|k: int| 0 <= k < f.len() && f[k] == y;
                    if k < fi.len() {
                        assert(fi[k] == y);
                    }
                }
                if fi.contains(y) {
                    let k = choose|k: int| 0 <= k < fi.len() && fi[k] == y;
                    assert(f[k] == y);
                }
                if y == s.last() {
                    assert(f[f.len() - 1] == y);
                }
            }
        } else {
            assert(f == fi);
        }
    }
}

/// Inserting an element that fails the predicate does not change the filtered sequence.
proof fn lemma_filter_insert_skipped(s: Seq<Id>, i: int, x: Id)
    requires
        0 <= i <= s.len(),
        forall|k: int| 0 <= k < s.len() ==> s[k] != x,
    ensures
        s.insert(i, x).filter(others(x)) == s,
    decreases s.len(),
{
    reveal(Seq::filter);
    let t = s.insert(i, x);
    if s.len() == 0 {
        assert(t.drop_last() =~= Seq::<Id>::empty());
        assert(Seq::<Id>::empty().filter(others(x)) =~= Seq::<Id>::empty());
    } else if i == s.len() {
        assert(t.drop_last() =~= s);
        lemma_filter_all_kept(s, x);
    } else {
        assert(t.drop_last() =~= s.drop_last().insert(i, x));
        lemma_filter_insert_skipped(s.drop_last(), i, x);
        assert(t.last() == s.last());
        assert(s.drop_last().push(s.last()) =~= s);
    }
}

/// A sequence without `x` is unchanged by filtering `x` out.
proof fn lemma_filter_all_kept(s: Seq<Id>, x: Id)
    requires
        forall|k: int| 0 <= k < s.len() ==> s[k] != x,
    ensures
        s.filter(others(x)) == s,
    decreases s.len(),
{
    reveal(Seq::filter);
    if s.len() > 0 {
        lemma_filter_all_kept(s.drop_last(), x);
        assert(s.drop_last().push(s.last()) =~= s);
    }
}

/// Reordering stages by a drop never loses or duplicates a stage: with distinct stage ids and
/// the dragged stage among them, the new order has the same stages, holds the dragged one
/// exactly once at the target's original position (clamped to the end), and keeps every other
/// stage in its original relative order.
pub proof fn lemma_reorder_is_permutation(ids: Seq<Id>, dragged: Id, target: Id)
    requires
        ids.no_duplicates(),
        ids.contains(dragged),
    ensures
        reordered(ids, dragged, target).len() == ids.len(),
        forall|y: Id| #[trigger] reordered(ids, dragged, target).contains(y) <==> ids.contains(y),
        reordered(ids, dragged, target).filter(others(dragged)) == ids.filter(others(dragged)),
        reordered(ids, dragged, target)[if first_pos(ids, target) < ids.len() - 1 {
            first_pos(ids, target)
        } else {
            ids.len() - 1
        }] == dragged,
{
    let rest = ids.filter(others(dragged));
    lemma_filter_out_unique(ids, dragged);
    let at = if first_pos(ids, target) < rest.len() {
        first_pos(ids, target)
    } else {
        rest.len() as int
    };
    if ids.contains(target) {
        let k = choose|k: int| 0 <= k < ids.len() && ids[k] == target && forall|j: int| 0 <= j < k ==> ids[j] != target;
        assert(first_pos(ids, target) >= 0);
    }
    assert(forall|k: int| 0 <= k < rest.len() ==> rest[k] != dragged) by {
        assert forall|k: int| 0 <= k < rest.len() implies rest[k] != dragged by {
            assert(rest.contains(rest[k]));
        }
    }
    lemma_filter_insert_skipped(rest, at, dragged);
    let r = rest.insert(at, dragged);
    assert forall|y: Id| #[trigger] r.contains(y) <==> ids.contains(y) by {
        if r.contains(y) && y != dragged {
            let k = choose|k: int| 0 <= k < r.len() && r[k] == y;
            if k < at {
                assert(rest[k] == y);
            } else {
                assert(rest[k - 1] == y);
            }
            assert(rest.contains(y));
        }
        if ids.contains(y) {
            if y == dragged {
                assert(r[at] == y);
            } else {
                assert(rest.contains(y));
                let k = choose|k: int| 0 <= k < rest.len() && rest[k] == y;
                if k < at {
                    assert(r[k] == y);
                } else {
                    assert(r[k + 1] == y);
                }
            }
        }
    }
}

/// A ticket dropped on a column moves there exactly when it sits in another column: the first
/// ticket on the board carrying the dragged id decides, and whether the target column is a
/// terminal (finished) one plays no part.
pub proof fn lemma_ticket_drop_moves_across_columns(view: TasksView, target: Id, i: int)
    requires
        0 <= i < view.tickets@.len(),
        forall|j: int| 0 <= j < i ==> view.tickets@[j].id != view.tickets@[i].id,
    ensures
        drop_applies(view, target, DragPayload::Ticket(view.tickets@[i].id))
            <==> view.tickets@[i].stage_id != target,
{
    lemma_first_with_id(view.tickets@, view.tickets@[i].id, i);
}

/// A dragged ticket that is no longer on the board is accepted by any column.
pub proof fn lemma_vanished_ticket_drop_applies(view: TasksView, target: Id, id: Id)
    requires
        forall|i: int| 0 <= i < view.tickets@.len() ==> view.tickets@[i].id != id,
    ensures
        drop_applies(view, target, DragPayload::Ticket(id)),
{
    lemma_lookup(view.tickets@, id);
}

/// Saving a stage edit sends the terminal toggle exactly when the flag differs from the saved
/// stage's, and a rename exactly when the trimmed name differs, each independently of the
/// other: a flag change alone sends just the toggle, and no change sends nothing.
pub proof fn lemma_stage_edit_sends_each_change(view: TasksView, d: StageModal, i: int, sent: Seq<UiEvent>)
    requires
        0 <= i < view.stages@.len(),
        view.stages@[i].id == d.id,
        forall|j: int| 0 <= j < i ==> view.stages@[j].id != d.id,
        BoardState::stage_edit_events(view, d, sent),
    ensures
        sent.contains(UiEvent::Tasks(TasksEvent::SetTerminalStage(d.id, d.terminal)))
            <==> view.stages@[i].terminal != d.terminal,
        (sent.len() > 0 && sent[0] is Tasks && sent[0]->Tasks_0 is RenameStage)
            <==> view.stages@[i].name@ != trim_spec(d.name@),
        view.stages@[i].name@ == trim_spec(d.name@) && view.stages@[i].terminal != d.terminal
            ==> sent == seq![UiEvent::Tasks(TasksEvent::SetTerminalStage(d.id, d.terminal))],
        view.stages@[i].name@ == trim_spec(d.name@) && view.stages@[i].terminal == d.terminal
            ==> sent.len() == 0,
{
    lemma_first_with_id(view.stages@, d.id, i);
    let toggle_ev = UiEvent::Tasks(TasksEvent::SetTerminalStage(d.id, d.terminal));
    if view.stages@[i].name@ != trim_spec(d.name@) {
        if view.stages@[i].terminal != d.terminal {
            assert(sent[1] == sent.drop_first()[0]);
            assert(sent[1] == toggle_ev);
        } else {
            assert forall|k: int| 0 <= k < sent.len() implies sent[k] != toggle_ev by {
                if k > 0 {
                    assert(sent[k] == sent.drop_first()[k - 1]);
                }
            }
        }
    } else if view.stages@[i].terminal != d.terminal {
        assert(sent[0] == toggle_ev);
    }
}

/// An edited title or description counts as changed exactly when, trimmed, it differs from
/// the saved text as a sequence of characters: every textual change counts, letter case
/// included, so Save is offered for it.
pub proof fn lemma_edit_detects_every_text_change(m: TicketModal, view: TasksView, i: int)
    requires
        0 <= i < view.tickets@.len(),
        view.tickets@[i].id == m.ticket_id,
        forall|j: int| 0 <= j < i ==> view.tickets@[j].id != m.ticket_id,
    ensures
        m.title_changed_spec(view) <==> view.tickets@[i].title@ != trim_spec(m.title@),
        m.desc_changed_spec(view) <==> view.tickets@[i].description@ != trim_spec(m.description@),
{
    lemma_first_with_id(view.tickets@, m.ticket_id, i);
}

} // verus!
