use dev_dashboard::components::Choice;
use dev_dashboard::events::{NotesEvent, TasksEvent, UiEvent};
use dev_dashboard::model::{Stage, TasksMessage, TasksView, Ticket, TicketNote};
use dev_dashboard::tasks::detail::{move_targets, visible_notes_start, DetailOutcome, TicketModal};
use dev_dashboard::tasks::stage::{
    accepts_drop, drop_on_stage, reorder_stage_ids, ticket_count_word, DragPayload,
};
use dev_dashboard::tasks::{stage_name_or, ticket_open_from, truncate, BoardState, TicketOpen};

fn stage(id: u128, name: &str, terminal: bool) -> Stage {
    Stage { id, name: name.to_owned(), position: 0, terminal, created_at: 0 }
}

fn ticket(id: u128, stage_id: u128, title: &str, description: &str, parent: Option<u128>) -> Ticket {
    Ticket {
        id,
        stage_id,
        title: title.to_owned(),
        description: description.to_owned(),
        position: 0,
        parent_id: parent,
        created_at: 0,
        updated_at: 0,
    }
}

fn view() -> TasksView {
    TasksView {
        stages: vec![stage(1, "Pending", false), stage(2, "Doing", false), stage(3, "Done", true)],
        tickets: vec![
            ticket(10, 1, "Wire up CI", "Run clippy", None),
            ticket(11, 1, "Drag and drop", "Reorder cards", Some(10)),
            ticket(12, 2, "Design pass", "Teal accents", None),
            ticket(13, 3, "Scaffold", "Feature slices", None),
        ],
    }
}

fn loads(e: &UiEvent, id: u128) -> bool {
    matches!(e, UiEvent::Tasks(TasksEvent::LoadNotes(x)) if *x == id)
}

#[test]
fn ticket_open_from_clicks() {
    assert_eq!(ticket_open_from(true, false), Some(TicketOpen::Modal));
    assert_eq!(ticket_open_from(false, true), Some(TicketOpen::Page));
    assert_eq!(ticket_open_from(true, true), Some(TicketOpen::Modal));
    assert_eq!(ticket_open_from(false, false), None);
    assert!(TicketOpen::Page.expanded());
    assert!(!TicketOpen::Modal.expanded());
}

#[test]
fn open_ticket_clears_history_and_loads_notes() {
    let v = view();
    let mut b = BoardState::default();
    b.open_ticket(&v.tickets[0], TicketOpen::Modal);
    b.navigate_to(&v.tickets[1], TicketOpen::Modal);
    assert!(b.can_go_back());
    let e = b.open_ticket(&v.tickets[2], TicketOpen::Page);
    assert!(loads(&e, 12));
    assert!(!b.can_go_back());
    assert!(b.has_expanded_ticket());
    assert_eq!(b.modal.as_ref().unwrap().ticket_id, 12);
    assert_eq!(b.modal.as_ref().unwrap().title, "Design pass");
}

#[test]
fn back_undoes_a_followed_link() {
    let v = view();
    let mut b = BoardState::default();
    b.open_ticket(&v.tickets[0], TicketOpen::Page);
    b.navigate_to(&v.tickets[1], TicketOpen::Modal);
    // Following a link inside the full page stays on the full page.
    assert!(b.has_expanded_ticket());
    assert_eq!(b.modal.as_ref().unwrap().ticket_id, 11);
    let e = b.go_back(&v);
    assert!(loads(e.as_ref().unwrap(), 10));
    assert_eq!(b.modal.as_ref().unwrap().ticket_id, 10);
    assert!(b.has_expanded_ticket());
    assert!(!b.can_go_back());
    // With nothing left, Back closes the detail.
    assert!(b.go_back(&v).is_none());
    assert!(b.modal.is_none());
}

#[test]
fn back_after_expand_returns_to_the_modal() {
    let v = view();
    let mut b = BoardState::default();
    b.open_ticket(&v.tickets[2], TicketOpen::Modal);
    b.expand_current();
    assert!(b.has_expanded_ticket());
    b.go_back(&v);
    assert_eq!(b.modal.as_ref().unwrap().ticket_id, 12);
    assert!(!b.has_expanded_ticket());
}

#[test]
fn back_skips_vanished_tickets() {
    let v = view();
    let mut b = BoardState::default();
    b.open_ticket(&v.tickets[0], TicketOpen::Modal);
    b.navigate_to(&v.tickets[1], TicketOpen::Modal);
    b.navigate_to(&v.tickets[2], TicketOpen::Modal);
    // Ticket 11 disappears from the board.
    let mut v2 = view();
    v2.tickets.remove(1);
    let e = b.go_back(&v2);
    assert!(loads(e.as_ref().unwrap(), 10));
    assert_eq!(b.modal.as_ref().unwrap().ticket_id, 10);
}

#[test]
fn reconcile_drops_what_vanished() {
    let v = view();
    let mut b = BoardState::default();
    b.open_ticket(&v.tickets[0], TicketOpen::Modal);
    b.navigate_to(&v.tickets[1], TicketOpen::Modal);
    b.confirm_delete_stage = Some(3);
    b.dev_open_delete_ticket_confirm(10);
    let v2 = TasksView { stages: vec![stage(1, "Pending", false)], tickets: vec![ticket(10, 1, "Wire up CI", "", None)] };
    b.reconcile(&v2);
    assert!(b.modal.is_none());
    assert_eq!(b.back_stack.len(), 1);
    assert_eq!(b.confirm_delete_ticket, Some(10));
    assert_eq!(b.confirm_delete_stage, None);
}

#[test]
fn notes_message_fills_the_matching_detail() {
    let v = view();
    let mut b = BoardState::default();
    b.open_ticket(&v.tickets[0], TicketOpen::Modal);
    b.modal.as_mut().unwrap().new_note = "draft".to_owned();
    let notes = vec![TicketNote { id: 1, ticket_id: 10, body: "hi".to_owned(), created_at: 5 }];
    b.apply_message(&TasksMessage::Notes { ticket_id: 99, notes: notes.clone() });
    assert!(!b.modal.as_ref().unwrap().notes_loaded);
    b.apply_message(&TasksMessage::Notes { ticket_id: 10, notes });
    let m = b.modal.as_ref().unwrap();
    assert!(m.notes_loaded);
    assert_eq!(m.notes.len(), 1);
    assert_eq!(m.new_note, "");
}

#[test]
fn search_filters_case_insensitively_and_reveals_terminal_stages() {
    let v = view();
    let mut b = BoardState::default();
    assert_eq!(b.visible_tickets(&v, 1).len(), 2);
    assert!(b.stage_collapsed(true, 3));
    b.dev_set_search("  DRAG ");
    assert_eq!(b.search_query(), "drag");
    let shown = b.visible_tickets(&v, 1);
    assert_eq!(shown.len(), 1);
    assert_eq!(shown[0].id, 11);
    // Matches in the description count too.
    b.dev_set_search("TEAL");
    assert_eq!(b.visible_tickets(&v, 2).len(), 1);
    assert!(!b.stage_collapsed(true, 3));
    b.clear_search();
    b.reveal_terminal(3);
    b.reveal_terminal(3);
    assert_eq!(b.viewing_terminal, vec![3]);
    assert!(!b.stage_collapsed(true, 3));
    b.hide_terminal(3);
    assert!(b.stage_collapsed(true, 3));
}

#[test]
fn add_stage_trims_and_ignores_blank() {
    let mut b = BoardState::default();
    b.new_stage_name = "   ".to_owned();
    assert!(b.submit_new_stage(true, false).is_none());
    b.new_stage_name = "  Review  ".to_owned();
    assert!(b.submit_new_stage(false, false).is_none());
    let e = b.submit_new_stage(false, true);
    assert!(matches!(e, Some(UiEvent::Tasks(TasksEvent::CreateStage(ref n))) if n == "Review"));
    assert_eq!(b.new_stage_name, "");
}

#[test]
fn stage_edit_sends_only_changes() {
    let v = view();
    let mut b = BoardState::default();
    b.open_stage_edit(&v.stages[2]);
    b.editing_stage.as_mut().unwrap().name = " Done ".to_owned();
    let sent = b.settle_stage_modal(&v, true, false, false, false, false);
    assert!(sent.is_empty());
    assert!(b.editing_stage.is_none());

    b.dev_open_stage_edit(&v.stages[2]);
    b.editing_stage.as_mut().unwrap().name = "Shipped".to_owned();
    b.editing_stage.as_mut().unwrap().terminal = false;
    let sent = b.settle_stage_modal(&v, true, false, false, false, false);
    assert_eq!(sent.len(), 2);
    assert!(matches!(&sent[0], UiEvent::Tasks(TasksEvent::RenameStage(3, n)) if n == "Shipped"));
    assert!(matches!(&sent[1], UiEvent::Tasks(TasksEvent::SetTerminalStage(3, false))));

    b.open_stage_edit(&v.stages[0]);
    let sent = b.settle_stage_modal(&v, false, false, false, false, true);
    assert!(sent.is_empty());
    assert!(b.editing_stage.is_none());
    assert_eq!(b.confirm_delete_stage, Some(1));
    let e = b.settle_stage_confirmation(Choice::Confirmed);
    assert!(matches!(e, Some(UiEvent::Tasks(TasksEvent::DeleteStage(1)))));
    assert!(b.confirm_delete_stage.is_none());

    b.open_stage_edit(&v.stages[0]);
    b.editing_stage.as_mut().unwrap().name = "  ".to_owned();
    assert!(b.settle_stage_modal(&v, true, false, false, false, false).is_empty());
    assert!(b.editing_stage.is_some());
    b.settle_stage_modal(&v, false, false, false, true, false);
    assert!(b.editing_stage.is_none());
}

#[test]
fn reorder_lands_by_direction() {
    let ids = vec![1, 2, 3, 4];
    // Dragged rightward onto 3: lands right of it.
    assert_eq!(reorder_stage_ids(&ids, 1, 3), vec![2, 3, 1, 4]);
    // Dragged leftward onto 2: lands left of it.
    assert_eq!(reorder_stage_ids(&ids, 4, 2), vec![1, 4, 2, 3]);
    // Onto the last column.
    assert_eq!(reorder_stage_ids(&ids, 1, 4), vec![2, 3, 4, 1]);
    // An unknown target sends it to the end.
    assert_eq!(reorder_stage_ids(&ids, 2, 9), vec![1, 3, 4, 2]);
}

#[test]
fn drops_move_tickets_and_reorder_columns() {
    let v = view();
    assert!(!accepts_drop(&v, 1, DragPayload::Ticket(10)));
    assert!(accepts_drop(&v, 2, DragPayload::Ticket(10)));
    let e = drop_on_stage(&v, 2, DragPayload::Ticket(10));
    assert!(matches!(e, Some(UiEvent::Tasks(TasksEvent::MoveTicket { ticket_id: 10, stage_id: 2 }))));
    assert!(drop_on_stage(&v, 1, DragPayload::Stage(1)).is_none());
    let e = drop_on_stage(&v, 1, DragPayload::Stage(3));
    assert!(matches!(e, Some(UiEvent::Tasks(TasksEvent::ReorderStages(ref ids))) if *ids == vec![3, 1, 2]));
}

#[test]
fn confirmations_delete_only_when_confirmed() {
    let v = view();
    let mut b = BoardState::default();
    b.open_ticket(&v.tickets[0], TicketOpen::Modal);
    b.dev_open_delete_ticket_confirm(10);
    assert!(b.settle_ticket_confirmation(Choice::Pending).is_none());
    assert_eq!(b.confirm_delete_ticket, Some(10));
    assert!(b.settle_ticket_confirmation(Choice::Cancelled).is_none());
    assert!(b.confirm_delete_ticket.is_none());
    assert!(b.modal.is_some());
    b.dev_open_delete_ticket_confirm(10);
    let e = b.settle_ticket_confirmation(Choice::Confirmed);
    assert!(matches!(e, Some(UiEvent::Tasks(TasksEvent::DeleteTicket(10)))));
    assert!(b.modal.is_none());
    b.confirm_delete_stage = Some(2);
    let e = b.settle_stage_confirmation(Choice::Confirmed);
    assert!(matches!(e, Some(UiEvent::Tasks(TasksEvent::DeleteStage(2)))));
}

#[test]
fn detail_settles_delete_link_and_close() {
    let v = view();
    let mut b = BoardState::default();
    b.open_ticket(&v.tickets[0], TicketOpen::Modal);
    let mut out = DetailOutcome::new();
    out.request_delete = true;
    out.create_worktree = true;
    out.events.push(TasksEvent::UnlinkTicket(10));
    let sent = b.settle_detail(&v, out, false);
    assert_eq!(sent.len(), 1);
    assert_eq!(b.confirm_delete_ticket, Some(10));
    assert!(b.modal.is_some());
    assert_eq!(b.take_pending_worktree(), Some(10));
    assert_eq!(b.take_pending_worktree(), None);

    let mut out = DetailOutcome::new();
    out.navigate = Some((11, TicketOpen::Page));
    out.remove_worktree = Some(77);
    let sent = b.settle_detail(&v, out, false);
    assert!(loads(&sent[0], 11));
    assert!(b.has_expanded_ticket());
    assert!(b.can_go_back());
    assert_eq!(b.take_pending_remove_worktree(), Some(77));

    let sent = b.settle_detail(&v, DetailOutcome::new(), true);
    assert!(sent.is_empty());
    assert!(b.modal.is_none());
}

#[test]
fn edit_status_compares_trimmed_fields() {
    let v = view();
    let mut m = TicketModal::new(&v.tickets[0]);
    let s = m.edit_status(&v);
    assert!(!s.title_changed && !s.desc_changed && !s.can_save);
    m.title = " Wire up CI  ".to_owned();
    assert!(!m.edit_status(&v).can_save);
    m.description = "Run clippy and fmt".to_owned();
    let s = m.edit_status(&v);
    assert!(s.desc_changed && s.can_save);
    m.title = "   ".to_owned();
    assert!(!m.edit_status(&v).can_save);
    m.title = " New title ".to_owned();
    let e = m.save_event();
    assert!(matches!(e, TasksEvent::UpdateTicket { ticket_id: 10, ref title, ref description } if title == "New title" && description == "Run clippy and fmt"));
}

#[test]
fn child_and_note_submissions() {
    let v = view();
    let mut m = TicketModal::new(&v.tickets[0]);
    m.start_child();
    assert!(m.submit_child().is_none());
    assert!(m.adding_child);
    m.new_child_title = " Sub task ".to_owned();
    m.new_child_desc = " details ".to_owned();
    let e = m.submit_child();
    assert!(matches!(e, Some(TasksEvent::CreateChild { parent_id: 10, ref title, ref description }) if title == "Sub task" && description == "details"));
    assert!(!m.adding_child);
    assert_eq!(m.new_child_title, "");
    assert!(m.note_submission().is_none());
    m.new_note = "  a note ".to_owned();
    assert!(matches!(m.note_submission(), Some(TasksEvent::AddNote { ticket_id: 10, ref body }) if body == "a note"));
}

#[test]
fn notes_list_shows_the_newest() {
    assert_eq!(visible_notes_start(5, Some(2)), 3);
    assert_eq!(visible_notes_start(2, Some(2)), 0);
    assert_eq!(visible_notes_start(5, None), 0);
}

#[test]
fn relationships_and_move_targets() {
    let v = view();
    let kids = v.children_of(10);
    assert_eq!(kids.len(), 1);
    assert_eq!(kids[0].id, 11);
    assert_eq!(v.parent_of(&v.tickets[1]).unwrap().id, 10);
    assert!(v.parent_of(&v.tickets[0]).is_none());
    let targets = move_targets(&v, 2);
    assert_eq!(targets.iter().map(|s| s.id).collect::<Vec<_>>(), vec![1, 3]);
    assert_eq!(stage_name_or(&v, Some(2), "—"), "Doing");
    assert_eq!(stage_name_or(&v, Some(9), "—"), "—");
    assert_eq!(stage_name_or(&v, None, "Select a stage"), "Select a stage");
    assert_eq!(ticket_count_word(1), "ticket");
    assert_eq!(ticket_count_word(0), "tickets");
}

#[test]
fn create_modal_from_a_note_consumes_it() {
    let v = view();
    let mut b = BoardState::default();
    b.open_new_ticket_from_note(55, "captured".to_owned(), &v);
    {
        let d = b.new_ticket.as_ref().unwrap();
        assert_eq!(d.stage_id, Some(1));
        assert_eq!(d.note, "captured");
    }
    // No title yet: nothing is created.
    assert!(b.settle_create_modal(true, false, false).is_empty());
    assert!(b.new_ticket.is_some());
    b.new_ticket.as_mut().unwrap().title = " Follow up ".to_owned();
    b.pick_new_ticket_stage(2);
    let sent = b.settle_create_modal(true, false, false);
    assert_eq!(sent.len(), 2);
    assert!(matches!(&sent[0], UiEvent::Tasks(TasksEvent::CreateTicket { stage_id: 2, title, note: Some(n), .. }) if title == "Follow up" && n == "captured"));
    assert!(matches!(&sent[1], UiEvent::Notes(NotesEvent::Delete(55))));
    assert!(b.new_ticket.is_none());

    b.open_new_ticket(1);
    b.new_ticket.as_mut().unwrap().title = "T".to_owned();
    b.new_ticket.as_mut().unwrap().note = "   ".to_owned();
    let sent = b.settle_create_modal(true, false, false);
    assert_eq!(sent.len(), 1);
    assert!(matches!(&sent[0], UiEvent::Tasks(TasksEvent::CreateTicket { note: None, .. })));

    b.dev_open_new_ticket(1);
    assert!(b.settle_create_modal(false, false, true).is_empty());
    assert!(b.new_ticket.is_none());
}

#[test]
fn card_truncation_is_char_based() {
    assert_eq!(truncate("short", 10), "short");
    assert_eq!(truncate("héllo wörld", 5), "héll…");
    assert_eq!(truncate("abcdef", 3).chars().count(), 3);
    assert_eq!(truncate("abcdef", 0), "");
    assert_eq!(truncate("abc", 3), "abc");
}

#[test]
fn detail_modal_shows_only_unexpanded() {
    let v = view();
    let mut b = BoardState::default();
    assert!(!b.shows_detail_modal());
    b.open_ticket(&v.tickets[0], TicketOpen::Modal);
    assert!(b.shows_detail_modal());
    b.expand_current();
    assert!(!b.shows_detail_modal());
}
