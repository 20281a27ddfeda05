use dev_dashboard::home::{
    attention_label, first_open_todos, greeting, loose_notes_preview, recent_tickets,
    repos_needing_attention, stat_tiles, stats, tile_alert, truncate, HomeOutcome, HomeState,
    StatTile,
};
use dev_dashboard::shell::Tab;
use dev_dashboard::model::{
    GitStatus, Note, NotesView, Project, ProjectCard, ProjectsView, ProfilesView, Stage,
    TasksView, Ticket, Todo, TodosView, ViewData,
};

fn git(is_repo: bool, clean: bool, ahead: u32, behind: u32, up_to_date: bool) -> GitStatus {
    GitStatus {
        is_repo,
        clean,
        ahead,
        behind,
        has_upstream: true,
        fetched: true,
        up_to_date,
        branch: Some("main".to_owned()),
        origin_url: None,
    }
}

fn card(id: u128, name: &str, g: GitStatus) -> ProjectCard {
    ProjectCard {
        project: Project {
            id,
            name: name.to_owned(),
            path: format!("/repos/{name}"),
            setup_script: String::new(),
            teardown_script: String::new(),
        },
        git: g,
        pulling: false,
    }
}

fn ticket(id: u128, stage_id: u128, updated_at: i64) -> Ticket {
    Ticket {
        id,
        stage_id,
        title: format!("t{id}"),
        description: String::new(),
        position: 0,
        parent_id: None,
        created_at: 0,
        updated_at,
    }
}

fn data() -> ViewData {
    ViewData {
        profile: ProfilesView { profiles: vec![], active: None },
        tasks: TasksView {
            stages: vec![
                Stage { id: 1, name: "Doing".into(), position: 0, terminal: false, created_at: 0 },
                Stage { id: 2, name: "Done".into(), position: 1, terminal: true, created_at: 0 },
            ],
            tickets: vec![
                ticket(1, 1, 10),
                ticket(2, 1, 30),
                ticket(3, 2, 99),
                ticket(4, 1, 30),
                ticket(5, 1, 5),
                ticket(6, 1, 20),
                ticket(7, 1, 25),
            ],
        },
        notes: NotesView {
            notes: (0..5).map(|i| Note { id: i, body: format!("n{i}"), created_at: 0 }).collect(),
        },
        projects: ProjectsView {
            projects: vec![
                card(1, "clean", git(true, true, 0, 0, true)),
                card(2, "busy", git(true, false, 2, 3, false)),
                card(3, "plain", git(false, true, 0, 0, false)),
            ],
            worktrees: vec![],
        },
        todos: TodosView {
            todos: (0..7)
                .map(|i| Todo { id: i, body: format!("todo {i}"), done: i % 3 == 0, created_at: 0 })
                .collect(),
        },
    }
}

#[test]
fn greeting_by_hour() {
    assert_eq!(greeting(4), "Good evening");
    assert_eq!(greeting(5), "Good morning");
    assert_eq!(greeting(11), "Good morning");
    assert_eq!(greeting(12), "Good afternoon");
    assert_eq!(greeting(17), "Good afternoon");
    assert_eq!(greeting(18), "Good evening");
    let g = HomeState.greeting_now();
    assert!(["Good morning", "Good afternoon", "Good evening"].contains(&g));
}

#[test]
fn stat_tiles_count_each_slice() {
    let s = stats(&data());
    assert_eq!(s.active_tickets, 6);
    assert_eq!(s.open_todos, 4);
    assert_eq!(s.loose_notes, 5);
    assert_eq!(s.repos_attention, 1);
    assert!(tile_alert(true, 1));
    assert!(!tile_alert(true, 0));
    assert!(!tile_alert(false, 3));
}

#[test]
fn recent_tickets_are_newest_first_and_capped() {
    let r = recent_tickets(&data().tasks);
    // Ticket 3 is in a terminal stage; ties keep board order (2 before 4).
    assert_eq!(r.iter().map(|t| t.id).collect::<Vec<_>>(), vec![2, 4, 7, 6, 1]);
}

#[test]
fn previews_are_capped() {
    let d = data();
    let todos = first_open_todos(&d.todos);
    assert_eq!(todos.iter().map(|t| t.id).collect::<Vec<_>>(), vec![1, 2, 4, 5]);
    let notes = loose_notes_preview(&d.notes);
    assert_eq!(notes.iter().map(|n| n.id).collect::<Vec<_>>(), vec![0, 1, 2]);
}

#[test]
fn attention_labels() {
    assert_eq!(attention_label(&git(true, true, 0, 0, true)), None);
    assert_eq!(attention_label(&git(false, false, 1, 1, false)), None);
    assert_eq!(
        attention_label(&git(true, false, 2, 3, false)).unwrap(),
        "uncommitted changes · 3 behind · 2 ahead"
    );
    assert_eq!(attention_label(&git(true, true, 12, 0, false)).unwrap(), "12 ahead");
    assert_eq!(attention_label(&git(true, true, 0, 0, false)).unwrap(), "out of sync");
    let rows = repos_needing_attention(&data().projects);
    assert_eq!(rows, vec![("busy".to_owned(), "uncommitted changes · 3 behind · 2 ahead".to_owned())]);
}

#[test]
fn overview_truncation_trims_before_the_ellipsis() {
    assert_eq!(truncate("hello world again", 6), "hello…");
    assert_eq!(truncate("abcdef", 3), "ab…");
    assert_eq!(truncate("abcdef", 0), "");
    assert_eq!(truncate("tiny", 6), "tiny");
    assert_eq!(truncate("ünïcödé text", 8), "ünïcödé…");
}

#[test]
fn stat_tiles_open_their_tabs() {
    let tiles = stat_tiles();
    assert_eq!(
        tiles,
        vec![StatTile::ActiveTickets, StatTile::OpenTodos, StatTile::LooseNotes, StatTile::ReposAttention]
    );
    let tabs: Vec<Tab> = tiles.iter().map(|t| t.tab()).collect();
    assert_eq!(tabs, vec![Tab::Tasks, Tab::Todos, Tab::Notes, Tab::Projects]);
    let labels: Vec<&str> = tiles.iter().map(|t| t.label()).collect();
    assert_eq!(labels, vec!["Active tickets", "Open todos", "Loose notes", "Repos need attention"]);
    let alerts: Vec<bool> = tiles.iter().map(|t| t.alerts()).collect();
    assert_eq!(alerts, vec![false, false, false, true]);
    let s = stats(&data());
    assert_eq!(StatTile::OpenTodos.count(&s), s.open_todos);
    assert_eq!(StatTile::ReposAttention.count(&s), s.repos_attention);
    let mut out = HomeOutcome::default();
    out.tile_clicked(StatTile::LooseNotes);
    assert_eq!(out.goto, Some(Tab::Notes));
    assert!(out.open_ticket.is_none());
}
