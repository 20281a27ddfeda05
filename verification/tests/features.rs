use dev_dashboard::components::{choice_from, Choice};
use dev_dashboard::events::{NotesEvent, ProfileEvent, ProjectsEvent, TodosEvent, UiEvent};
use dev_dashboard::model::{
    GitStatus, Note, Profile, ProfileView, ProfilesView, Project, ProjectCard, ProjectsView,
    Stage, TasksView, Ticket, Todo, TodosView, Worktree,
};
use dev_dashboard::notes::{no_results_hint, search_tickets, NotesState};
use dev_dashboard::profile::{
    active_name, onboarding_copy, shows_back, shows_switcher, switcher_pick, OnboardingMode,
    OnboardingState, SwitcherOutcome, SwitcherPick, SwitcherStyle,
};
use dev_dashboard::projects::{
    eligible_projects, fetch_text, git_badge, meta_text, project_name_or_removed,
    project_worktree_lists, shared_branch, sync_summary, ticket_title_or_removed, truncate,
    upstream_text, working_tree_text, GitBadge, ProjectsState,
};
use dev_dashboard::theme::{input_mark, palette, primary_colors, InputMark, Rgb};
use dev_dashboard::todos::{open_todos, settle_todo_row, TodosState};

fn tk(id: u128, title: &str) -> Ticket {
    Ticket {
        id,
        stage_id: 1,
        title: title.to_owned(),
        description: String::new(),
        position: 0,
        parent_id: None,
        created_at: 0,
        updated_at: 0,
    }
}

fn profiles() -> ProfilesView {
    let a = Profile { id: 1, display_name: "Work".into(), last_view: ProfileView::Home, created_at: 0 };
    let b = Profile { id: 2, display_name: "Home".into(), last_view: ProfileView::Notes, created_at: 0 };
    ProfilesView { profiles: vec![a.clone(), b], active: Some(a) }
}

fn git(clean: bool, ahead: u32, behind: u32) -> GitStatus {
    GitStatus {
        is_repo: true,
        clean,
        ahead,
        behind,
        has_upstream: true,
        fetched: false,
        up_to_date: clean && ahead == 0 && behind == 0,
        branch: None,
        origin_url: Some("git@example.com:me/a-very-long-repository-name-that-overflows.git".into()),
    }
}

fn projects() -> ProjectsView {
    let card = |id: u128, name: &str| ProjectCard {
        project: Project { id, name: name.into(), path: "/r".into(), setup_script: String::new(), teardown_script: String::new() },
        git: git(true, 0, 0),
        pulling: false,
    };
    let wt = |id: u128, project_id: u128, ticket_id: u128, branch: &str, live: bool| Worktree {
        id,
        project_id,
        ticket_id,
        branch: branch.into(),
        path: format!("/r/{branch}"),
        live,
    };
    ProjectsView {
        projects: vec![card(1, "alpha"), card(2, "beta"), card(3, "gamma")],
        worktrees: vec![wt(100, 1, 50, "feat/x", true), wt(101, 1, 51, "feat/y", false), wt(102, 2, 50, "feat/x", false)],
    }
}

#[test]
fn choices() {
    assert_eq!(choice_from(true, true, true), Choice::Confirmed);
    assert_eq!(choice_from(false, true, false), Choice::Cancelled);
    assert_eq!(choice_from(false, false, true), Choice::Cancelled);
    assert_eq!(choice_from(false, false, false), Choice::Pending);
}

#[test]
fn theme_choices() {
    let p = palette();
    assert_eq!(p.accent, Rgb { r: 0x17, g: 0xC3, b: 0xB2 });
    assert_eq!(primary_colors(true), (p.accent, p.on_accent));
    assert_eq!(primary_colors(false), (p.surface_hover, p.text));
    assert_eq!(input_mark(true, true), InputMark::Focused);
    assert_eq!(input_mark(false, true), InputMark::Edited);
    assert_eq!(input_mark(false, false), InputMark::Plain);
}

#[test]
fn todos_composer_and_open_list() {
    let mut s = TodosState::default();
    s.new_todo = "  buy milk ".into();
    assert!(s.submit_composer(false, false).is_none());
    let e = s.submit_composer(true, false);
    assert!(matches!(e, Some(UiEvent::Todos(TodosEvent::Add(ref b))) if b == "buy milk"));
    assert_eq!(s.new_todo, "");
    assert!(s.submit_composer(true, true).is_none());
    let v = TodosView {
        todos: vec![
            Todo { id: 1, body: "a".into(), done: true, created_at: 0 },
            Todo { id: 2, body: "b".into(), done: false, created_at: 0 },
        ],
    };
    assert_eq!(open_todos(&v).iter().map(|t| t.id).collect::<Vec<_>>(), vec![2]);
}

#[test]
fn notes_composer_picker_and_search() {
    let mut s = NotesState::default();
    s.new_note = " idea ".into();
    assert!(matches!(s.submit_composer(false, true), Some(UiEvent::Notes(NotesEvent::Add(ref b))) if b == "idea"));
    let tasks = TasksView { stages: vec![], tickets: vec![tk(1, "Fix Login Bug"), tk(2, "Write docs")] };
    let note = Note { id: 9, body: "remember".into(), created_at: 0 };
    assert!(s.search_results(&tasks).is_empty());
    s.open_add_to_ticket(&note);
    assert_eq!(s.search_results(&tasks).len(), 2);
    s.add_to_ticket.as_mut().unwrap().search = "  LOGIN ".into();
    let hits = s.search_results(&tasks);
    assert_eq!(hits.len(), 1);
    assert_eq!(hits[0].id, 1);
    assert!(s.settle_add_to_ticket(None, false, false).is_none());
    assert!(s.add_to_ticket.is_some());
    let e = s.settle_add_to_ticket(Some(1), false, false);
    assert!(matches!(e, Some(UiEvent::Notes(NotesEvent::FileIntoTicket { note_id: 9, ticket_id: 1, ref body })) if body == "remember"));
    assert!(s.add_to_ticket.is_none());
    s.dev_open_add_to_ticket(&note);
    assert!(s.settle_add_to_ticket(None, false, true).is_none());
    assert!(s.add_to_ticket.is_none());
    assert_eq!(search_tickets(&tasks, &"docs".to_owned()).len(), 1);
    assert_eq!(no_results_hint(&tasks), "No tickets match that search.");
    assert_eq!(no_results_hint(&TasksView { stages: vec![], tickets: vec![] }), "No tickets yet — create one on the Tasks board first.");
}

#[test]
fn switcher_picks() {
    let v = profiles();
    assert_eq!(active_name(&v), "Work");
    assert_eq!(active_name(&ProfilesView { profiles: vec![], active: None }), "Dashboard");
    let (out, e) = switcher_pick(&v, SwitcherStyle::Nav, SwitcherPick::Profile(2));
    assert!(out.switched && !out.selected_current);
    assert!(matches!(e, Some(UiEvent::Profile(ProfileEvent::Switch(2)))));
    let (out, e) = switcher_pick(&v, SwitcherStyle::Onboarding, SwitcherPick::Profile(1));
    assert!(out.selected_current && e.is_none());
    let (out, _) = switcher_pick(&v, SwitcherStyle::Nav, SwitcherPick::NewProfile);
    assert!(out.new_profile);
    let (out, _) = switcher_pick(&v, SwitcherStyle::Onboarding, SwitcherPick::NewProfile);
    assert!(!out.new_profile);
    let (out, _) = switcher_pick(&v, SwitcherStyle::Nav, SwitcherPick::DeleteCurrent);
    assert_eq!(out.delete, Some(1));
}

#[test]
fn onboarding_screen() {
    assert_eq!(onboarding_copy(OnboardingMode::FirstRun).0, "Welcome to your Dev Dashboard");
    assert_eq!(onboarding_copy(OnboardingMode::Reselect).0, "Choose a profile");
    assert!(shows_switcher(OnboardingMode::Reselect) && !shows_switcher(OnboardingMode::FirstRun));
    assert!(shows_back(OnboardingMode::NewProfile) && !shows_back(OnboardingMode::Reselect));
    let mut s = OnboardingState::default();
    let none = SwitcherOutcome::default();
    assert_eq!(s.settle(OnboardingMode::NewProfile, true, &none, false, false).1, true);
    assert_eq!(s.settle(OnboardingMode::Reselect, true, &none, false, false).1, false);
    let mut switched = SwitcherOutcome::default();
    switched.switched = true;
    assert_eq!(s.settle(OnboardingMode::FirstRun, false, &switched, false, false).1, false);
    assert_eq!(s.settle(OnboardingMode::Reselect, false, &switched, false, false).1, true);
    s.name_input = "  Personal ".into();
    let (e, leave) = s.settle(OnboardingMode::FirstRun, false, &none, true, false);
    assert!(leave);
    assert!(matches!(e, Some(UiEvent::Profile(ProfileEvent::Create(ref n))) if n == "Personal"));
    assert_eq!(s.name_input, "");
    let (e, leave) = s.settle(OnboardingMode::FirstRun, false, &none, true, true);
    assert!(e.is_none() && !leave);
}

#[test]
fn projects_page_and_confirmations() {
    let v = projects();
    let mut s = ProjectsState::default();
    s.open_project_page(2);
    assert_eq!(s.current_page(&v), Some(2));
    s.dev_open_project(9);
    assert_eq!(s.current_page(&v), None);
    assert_eq!(s.open_project, None);
    s.request_delete_project(3);
    s.request_remove_worktree(101);
    s.dev_open_setup_script(9, "echo hi");
    s.reconcile(&v);
    assert_eq!(s.confirm_delete_project, Some(3));
    assert_eq!(s.confirm_remove_worktree, None, "a marker cannot be removed");
    assert!(s.editing_setup_script.is_none());
    assert_eq!(s.open_project, None);
    s.open_project_page(3);
    let e = s.settle_delete_project(Choice::Confirmed);
    assert!(matches!(e, Some(UiEvent::Projects(ProjectsEvent::DeleteProject(3)))));
    assert_eq!(s.open_project, None);
    s.request_remove_worktree(100);
    assert!(s.settle_remove_worktree(Choice::Cancelled).is_none());
    s.request_remove_worktree(100);
    assert!(matches!(s.settle_remove_worktree(Choice::Confirmed), Some(UiEvent::Projects(ProjectsEvent::RemoveWorktree(100)))));
    s.request_open_ticket(50);
    assert_eq!(s.take_pending_open_ticket(), Some(50));
    assert_eq!(s.take_pending_open_ticket(), None);
}

#[test]
fn add_project_needs_name_and_path() {
    let mut s = ProjectsState::default();
    s.open_add_project();
    s.adding.as_mut().unwrap().name = " Dash ".into();
    assert!(s.settle_add_project(true, false, false).is_none());
    s.adding.as_mut().unwrap().path = " /code/dash ".into();
    let e = s.settle_add_project(true, false, false);
    assert!(matches!(e, Some(UiEvent::Projects(ProjectsEvent::CreateProject { ref name, ref path })) if name == "Dash" && path == "/code/dash"));
    assert!(s.adding.is_none());
    s.dev_open_add_project();
    s.settle_add_project(false, true, false);
    assert!(s.adding.is_none());
}

#[test]
fn create_worktree_uses_the_shared_branch() {
    let v = projects();
    assert_eq!(shared_branch(&v, 50), Some("feat/x".to_owned()));
    assert_eq!(shared_branch(&v, 52), None);
    assert_eq!(eligible_projects(&v, 50), vec![3]);
    assert_eq!(eligible_projects(&v, 52), vec![1, 2, 3]);
    let mut s = ProjectsState::default();
    s.open_create_worktree(50);
    s.creating_worktree.as_mut().unwrap().branch = "ignored".into();
    assert!(s.settle_create_worktree(&v, true, false, false).is_none(), "no project picked");
    s.pick_worktree_project(3);
    let e = s.settle_create_worktree(&v, true, false, false);
    assert!(matches!(e, Some(UiEvent::Projects(ProjectsEvent::CreateWorktree { project_id: 3, ticket_id: 50, ref branch })) if branch == "feat/x"));
    assert!(s.creating_worktree.is_none());
    s.open_create_worktree(52);
    s.pick_worktree_project(1);
    s.creating_worktree.as_mut().unwrap().branch = "   ".into();
    assert!(s.settle_create_worktree(&v, true, false, false).is_none());
    s.creating_worktree.as_mut().unwrap().branch = " feat/new ".into();
    let e = s.settle_create_worktree(&v, true, false, false);
    assert!(matches!(e, Some(UiEvent::Projects(ProjectsEvent::CreateWorktree { project_id: 1, ticket_id: 52, ref branch })) if branch == "feat/new"));
    s.open_create_worktree(52);
    s.settle_create_worktree(&v, false, false, true);
    assert!(s.creating_worktree.is_none());
}

#[test]
fn worktree_lists_and_names() {
    let v = projects();
    let (live, markers) = project_worktree_lists(&v, 1);
    assert_eq!(live.iter().map(|w| w.id).collect::<Vec<_>>(), vec![100]);
    assert_eq!(markers.iter().map(|w| w.id).collect::<Vec<_>>(), vec![101]);
    assert_eq!(v.live_count_for_project(1), 1);
    assert_eq!(v.live_count_for_project(2), 0);
    assert_eq!(project_name_or_removed(&v, 2), "beta");
    assert_eq!(project_name_or_removed(&v, 8), "(project removed)");
    let tasks = TasksView { stages: vec![], tickets: vec![tk(50, "Login")] };
    assert_eq!(ticket_title_or_removed(&tasks, 50), "Login");
    assert_eq!(ticket_title_or_removed(&tasks, 51), "(ticket removed)");
}

#[test]
fn git_texts() {
    let mut g = git(false, 1, 2);
    assert_eq!(sync_summary(&g), "1 ahead · 2 behind · uncommitted");
    assert!(matches!(git_badge(&g), GitBadge::OutOfSync(ref s) if s == "1 ahead · 2 behind · uncommitted"));
    assert_eq!(working_tree_text(&g), "Uncommitted changes");
    assert_eq!(upstream_text(&g), "Upstream: 1 ahead · 2 behind · uncommitted");
    assert_eq!(fetch_text(&g), "Offline — compared against local refs. Fetch/pull yourself to refresh.");
    g = git(true, 0, 0);
    assert!(matches!(git_badge(&g), GitBadge::UpToDate));
    assert_eq!(upstream_text(&g), "In sync with upstream");
    g.has_upstream = false;
    assert_eq!(upstream_text(&g), "No upstream tracking branch");
    g.is_repo = false;
    assert!(matches!(git_badge(&g), GitBadge::NotRepo));
}

#[test]
fn project_truncation_counts_the_ellipsis() {
    assert_eq!(truncate("abcdef", 4), "abc…");
    assert_eq!(truncate("abcd", 4), "abcd");
    assert_eq!(truncate("abcdef", 0), "");
    let g = git(true, 0, 0);
    let url = meta_text(&g.origin_url);
    assert_eq!(url.chars().count(), 42);
    assert!(url.ends_with('…'));
    assert_eq!(meta_text(&None), "—");
}

#[test]
fn todo_row_events() {
    let t = Todo { id: 5, body: "ship".into(), done: false, created_at: 0 };
    assert!(settle_todo_row(&t, None, false).is_empty());
    let sent = settle_todo_row(&t, Some(true), false);
    assert_eq!(sent.len(), 1);
    assert!(matches!(sent[0], UiEvent::Todos(TodosEvent::SetDone(5, true))));
    let sent = settle_todo_row(&t, Some(false), true);
    assert_eq!(sent.len(), 2);
    assert!(matches!(sent[0], UiEvent::Todos(TodosEvent::SetDone(5, false))));
    assert!(matches!(sent[1], UiEvent::Todos(TodosEvent::Delete(5))));
}

#[test]
fn picker_hides_finished_tickets() {
    let done = Stage { id: 7, name: "Complete".into(), position: 1, terminal: true, created_at: 0 };
    let open = Stage { id: 1, name: "Pending".into(), position: 0, terminal: false, created_at: 0 };
    let mut finished = tk(2, "Login page");
    finished.stage_id = 7;
    let tasks = TasksView { stages: vec![open, done], tickets: vec![tk(1, "Login bug"), finished] };
    let hits = search_tickets(&tasks, &"login".to_owned());
    assert_eq!(hits.len(), 1);
    assert_eq!(hits[0].id, 1);
}
