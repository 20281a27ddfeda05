use dev_dashboard::components::Choice;
use dev_dashboard::dev::{mock_board, mock_board_with, mock_error, mock_notes, mock_notes_with, DevView};
use dev_dashboard::events::{ProfileEvent, TasksEvent, UiEvent};
use dev_dashboard::home::HomeOutcome;
use dev_dashboard::model::{
    AppMessage, ProfileView, TasksMessage, TicketNote, UserFacingError, ViewData,
};
use dev_dashboard::notes::NotesOutcome;
use dev_dashboard::profile::{OnboardingMode, SwitcherOutcome};
use dev_dashboard::shell::{error_output, DashboardApp, Screen, Tab};
use dev_dashboard::tasks::TicketOpen;
use dev_dashboard::text::{count_label, is_blank, join, trimmed};

fn ids() -> [u128; 8] {
    [1, 2, 3, 4, 5, 6, 7, 8]
}

fn err(retryable: bool) -> UserFacingError {
    UserFacingError {
        title: "Oops".into(),
        detail: "d".into(),
        remediation: "r".into(),
        retryable,
        output: Some("  fatal: not a repo \n".into()),
    }
}

#[test]
fn tabs_round_trip_through_the_persisted_page() {
    for t in [Tab::Home, Tab::Tasks, Tab::Notes, Tab::Projects, Tab::Todos] {
        assert_eq!(Tab::from_view(t.as_view()), t);
    }
    assert_eq!(Tab::Notes.as_view(), ProfileView::Notes);
    assert_eq!(Tab::from_view(ProfileView::Projects), Tab::Projects);
}

#[test]
fn dev_view_names() {
    assert_eq!(DevView::from_name(" board\n"), Some(DevView::Board));
    assert_eq!(DevView::from_name("page"), Some(DevView::Page));
    assert_eq!(DevView::from_name("onboarding"), Some(DevView::Onboarding));
    assert_eq!(DevView::from_name("ticket"), Some(DevView::Ticket));
    assert_eq!(DevView::from_name("error"), Some(DevView::Error));
    assert_eq!(DevView::from_name("Board"), None);
    assert_eq!(DevView::from_name(""), None);
}

#[test]
fn mock_board_shape() {
    let d = mock_board_with(ids(), 42);
    assert_eq!(d.profile.active.as_ref().unwrap().display_name, "Corey");
    assert_eq!(d.tasks.stages.iter().map(|s| s.name.as_str()).collect::<Vec<_>>(), vec!["Pending", "In Progress", "Complete"]);
    assert_eq!(d.tasks.tickets.len(), 4);
    assert_eq!(d.tasks.tickets[1].parent_id, Some(5));
    assert!(d.tasks.tickets.iter().all(|t| t.updated_at == 42));
    let random = mock_board();
    let p = random.profile.active.as_ref().unwrap().id;
    assert_eq!((p >> 76) & 0xf, 4);
    assert_ne!(random.tasks.stages[0].id, random.tasks.stages[1].id);
    assert!(random.tasks.tickets[0].created_at > 1_600_000_000_000_000);
    let e = mock_error();
    assert_eq!(e.title, "Database unavailable");
    assert!(e.retryable);
}

#[test]
fn loading_then_onboarding_then_dashboard() {
    let mut app = DashboardApp::new(None);
    assert_eq!(app.screen(), Screen::Loading);
    app.drain_messages(vec![AppMessage::Snapshot(ViewData::empty())]);
    assert_eq!(app.screen(), Screen::Onboarding(OnboardingMode::FirstRun));
    let mut d = mock_board_with(ids(), 0);
    d.profile.active.as_mut().unwrap().last_view = ProfileView::Notes;
    let active = d.profile.active.clone().unwrap();
    d.profile.profiles[0] = active;
    app.drain_messages(vec![AppMessage::Snapshot(d)]);
    assert_eq!(app.screen(), Screen::Dashboard);
    assert_eq!(app.active_tab, Tab::Notes, "lands on the last-viewed page");
    assert!(app.overlays_shown());
    let mut out = SwitcherOutcome::default();
    out.new_profile = true;
    app.apply_switcher(&out);
    assert_eq!(app.screen(), Screen::Onboarding(OnboardingMode::NewProfile));
    assert!(!app.overlays_shown());
    app.leave_onboarding(true);
    assert_eq!(app.screen(), Screen::Dashboard);
}

#[test]
fn same_profile_snapshot_keeps_the_detail_and_switch_resets() {
    let mut app = DashboardApp::new(None);
    app.drain_messages(vec![AppMessage::Snapshot(mock_board_with(ids(), 0))]);
    let t = app.data.tasks.tickets[0].clone();
    app.board.open_ticket(&t, TicketOpen::Modal);
    app.drain_messages(vec![
        AppMessage::Tasks(TasksMessage::Notes { ticket_id: 5, notes: vec![TicketNote { id: 1, ticket_id: 5, body: "x".into(), created_at: 0 }] }),
        AppMessage::Snapshot(mock_board_with(ids(), 1)),
    ]);
    assert_eq!(app.board.modal.as_ref().unwrap().ticket_id, 5);
    assert!(app.board.modal.as_ref().unwrap().notes_loaded);
    let mut other = ids();
    other[0] = 99;
    app.drain_messages(vec![AppMessage::Snapshot(mock_board_with(other, 1))]);
    assert!(app.board.modal.is_none());
    assert_eq!(app.active_profile_id, Some(99));
    assert_eq!(app.active_tab, Tab::Tasks);
}

#[test]
fn errors_keep_the_snapshot_and_retry_reloads() {
    let mut app = DashboardApp::new(None);
    app.drain_messages(vec![AppMessage::Snapshot(mock_board_with(ids(), 0)), AppMessage::Error(err(true))]);
    assert_eq!(app.data.tasks.tickets.len(), 4);
    assert!(app.settle_error(false, false, true).is_none());
    assert!(app.error.is_some(), "a retryable error ignores the backdrop");
    assert!(matches!(app.settle_error(true, false, false), Some(UiEvent::ReloadAll)));
    assert!(app.error.is_none());
    app.drain_messages(vec![AppMessage::Error(err(false))]);
    app.settle_error(false, false, true);
    assert!(app.error.is_none());
    assert_eq!(error_output(&err(true)).unwrap(), "fatal: not a repo");
    let mut blank = err(true);
    blank.output = Some("   ".into());
    assert_eq!(error_output(&blank), None);
}

#[test]
fn dev_overrides() {
    let app = DashboardApp::new(Some(DevView::Page));
    assert!(app.dev_mode && app.loaded);
    let m = app.board.modal.as_ref().unwrap();
    assert_eq!(m.ticket_id, app.data.tasks.tickets[1].id);
    assert!(m.expanded && m.notes_loaded);
    assert_eq!(m.notes.len(), 4, "the dev detail opens with mock notes, more than the modal shows");
    assert!(m.notes.iter().all(|n| n.ticket_id == m.ticket_id));
    let mut app = DashboardApp::new(Some(DevView::Error));
    assert_eq!(app.error.as_ref().unwrap().title, "Database unavailable");
    let sample = mock_error();
    let shown = app.error.as_ref().unwrap();
    assert_eq!(shown.detail, sample.detail);
    assert_eq!(shown.remediation, sample.remediation);
    assert!(shown.retryable && shown.output.is_none());
    app.drain_messages(vec![AppMessage::Snapshot(ViewData::empty())]);
    assert!(app.error.is_some(), "snapshots are ignored under an override");
    let app = DashboardApp::new(Some(DevView::Board));
    assert_eq!(app.data.tasks.tickets.len(), 4);
    assert!(app.board.modal.is_none());
    let app = DashboardApp::new(Some(DevView::Onboarding));
    assert_eq!(app.screen(), Screen::Onboarding(OnboardingMode::FirstRun));
}

#[test]
fn nav_home_and_notes_intents() {
    let mut app = DashboardApp::new(None);
    app.drain_messages(vec![AppMessage::Snapshot(mock_board_with(ids(), 0))]);
    let t = app.data.tasks.tickets[2].clone();
    app.board.open_ticket(&t, TicketOpen::Page);
    let e = app.select_tab(Tab::Home);
    assert!(matches!(e, UiEvent::Profile(ProfileEvent::SetLastView(ProfileView::Home))));
    assert!(app.board.modal.is_none(), "a nav click drops the detail");
    let out = HomeOutcome { goto: None, open_ticket: Some((6, TicketOpen::Page)) };
    let sent = app.apply_home_outcome(out);
    assert!(matches!(&sent[0], UiEvent::Tasks(TasksEvent::LoadNotes(6))));
    assert_eq!(app.active_tab, Tab::Tasks);
    assert!(app.board.has_expanded_ticket());
    let sent = app.apply_home_outcome(HomeOutcome { goto: Some(Tab::Todos), open_ticket: Some((404, TicketOpen::Modal)) });
    assert_eq!(sent.len(), 1);
    assert_eq!(app.active_tab, Tab::Todos);
    app.apply_notes_outcome(NotesOutcome { create_ticket_from: Some((77, "body".into())) });
    assert_eq!(app.board.new_ticket.as_ref().unwrap().source_note_id, Some(77));
    assert_eq!(app.board.new_ticket.as_ref().unwrap().stage_id, Some(2));
}

#[test]
fn cross_feature_routing() {
    let mut app = DashboardApp::new(None);
    app.drain_messages(vec![AppMessage::Snapshot(mock_board_with(ids(), 0))]);
    app.projects.request_open_ticket(7);
    let e = app.route_open_ticket();
    assert!(matches!(e, Some(UiEvent::Tasks(TasksEvent::LoadNotes(7)))));
    assert_eq!(app.board.modal.as_ref().unwrap().ticket_id, 7);
    app.board.pending_worktree = Some(7);
    app.board.pending_remove_worktree = Some(300);
    app.route_worktree_requests();
    assert_eq!(app.projects.creating_worktree.as_ref().unwrap().ticket_id, 7);
    assert_eq!(app.projects.confirm_remove_worktree, Some(300));
    assert!(app.board.pending_worktree.is_none());
    app.projects.request_open_ticket(404);
    assert!(app.route_open_ticket().is_none());
}

#[test]
fn deleting_a_profile_is_confirmed() {
    let mut app = DashboardApp::new(None);
    app.drain_messages(vec![AppMessage::Snapshot(mock_board_with(ids(), 0))]);
    let mut out = SwitcherOutcome::default();
    out.delete = Some(1);
    app.apply_switcher(&out);
    assert_eq!(app.pending_profile_deletion(), Some((1, "Corey".to_owned())));
    assert!(app.settle_delete_profile(Choice::Pending).is_none());
    assert!(matches!(app.settle_delete_profile(Choice::Confirmed), Some(UiEvent::Profile(ProfileEvent::Delete(1)))));
    assert_eq!(app.confirm_delete_profile, None);
    app.confirm_delete_profile = Some(55);
    assert_eq!(app.pending_profile_deletion(), None);
    assert_eq!(app.confirm_delete_profile, None);
}

#[test]
fn text_helpers() {
    assert_eq!(count_label(1, "note"), "1 note");
    assert_eq!(count_label(0, "worktree"), "0 worktrees");
    assert_eq!(count_label(12, "note"), "12 notes");
    assert_eq!(join(&vec!["a".to_owned(), "b".to_owned(), "c".to_owned()], " · "), "a · b · c");
    assert_eq!(join(&vec![], ", "), "");
    assert!(is_blank(&" \t\n\u{3000}".to_owned()));
    assert!(!is_blank(&" x ".to_owned()));
    assert_eq!(trimmed(&"\u{a0} hi \u{2003}".to_owned()), "hi");
}

#[test]
fn mock_notes_shape() {
    let notes = mock_notes_with(7, [1, 2, 3, 4], 100);
    assert_eq!(notes.len(), 4);
    let ids: Vec<u128> = notes.iter().map(|n| n.id).collect();
    assert_eq!(ids, vec![1, 2, 3, 4]);
    assert!(notes.iter().all(|n| n.ticket_id == 7 && n.created_at == 100));
    assert_eq!(notes[0].body, "First pass: a dragged card lifts onto a floating layer and follows the pointer.");
    let fresh = mock_notes(7);
    assert_eq!(fresh.len(), 4);
    assert_eq!(fresh[3].body, notes[3].body);
}
