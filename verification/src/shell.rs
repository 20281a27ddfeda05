//! The application shell: which tab is active, which screen shows, and how the shell routes
//! the worker's messages and the features' cross-feature requests.

use vstd::prelude::*;

use crate::components::Choice;
use crate::dev::{is_mock_board, is_mock_error, mock_board, mock_error, DevView};
use crate::events::{ProfileEvent, UiEvent};
use crate::home::{HomeOutcome, HomeState};
use crate::model::{
    lemma_lookup, AppMessage, Id, Micros, ProfileView, Ticket, UserFacingError, ViewData,
};
use crate::notes::{NotesOutcome, NotesState};
use crate::profile::{OnboardingMode, OnboardingState, SwitcherOutcome};
use crate::projects::ProjectsState;
use crate::tasks::{BoardState, TicketOpen};
use crate::text::{has_content, trim, trim_spec};
use crate::todos::TodosState;

verus! {

/// The active left-nav tab, one per feature.
#[derive(Clone, Copy, Debug, PartialEq, Eq, Structural)]
pub enum Tab {
    Home,
    Tasks,
    Notes,
    Projects,
    Todos,
}

impl Tab {
    pub open spec fn view_of(self) -> ProfileView {
        match self {
            Tab::Home => ProfileView::Home,
            Tab::Tasks => ProfileView::Tasks,
            Tab::Notes => ProfileView::Notes,
            Tab::Projects => ProfileView::Projects,
            Tab::Todos => ProfileView::Todos,
        }
    }

    pub open spec fn tab_of(view: ProfileView) -> Tab {
        match view {
            ProfileView::Home => Tab::Home,
            ProfileView::Tasks => Tab::Tasks,
            ProfileView::Notes => Tab::Notes,
            ProfileView::Projects => Tab::Projects,
            ProfileView::Todos => Tab::Todos,
        }
    }

    /// The persisted page this tab records as the profile's last-viewed one.
    pub fn as_view(self) -> (v: ProfileView)
        ensures
            v == self.view_of(),
    {
        match self {
            Tab::Home => ProfileView::Home,
            Tab::Tasks => ProfileView::Tasks,
            Tab::Notes => ProfileView::Notes,
            Tab::Projects => ProfileView::Projects,
            Tab::Todos => ProfileView::Todos,
        }
    }

    /// The tab to land on for a profile's persisted page.
    pub fn from_view(view: ProfileView) -> (t: Tab)
        ensures
            t == Tab::tab_of(view),
    {
        match view {
            ProfileView::Home => Tab::Home,
            ProfileView::Tasks => Tab::Tasks,
            ProfileView::Notes => Tab::Notes,
            ProfileView::Projects => Tab::Projects,
            ProfileView::Todos => Tab::Todos,
        }
    }
}

/// Tabs and persisted pages correspond one to one: recording a tab and landing on the
/// recorded page gives the same tab back, and the other way round.
pub proof fn lemma_tab_view_round_trip(t: Tab, v: ProfileView)
    ensures
        Tab::tab_of(t.view_of()) == t,
        Tab::tab_of(v).view_of() == v,
{
}

/// Which top-level screen shows.
#[derive(Clone, Copy, Debug, PartialEq, Eq, Structural)]
pub enum Screen {
    /// Before the first snapshot: a spinner, never onboarding.
    Loading,
    /// The create-profile screen in one of its modes.
    Onboarding(OnboardingMode),
    /// The nav and the active tab's workspace.
    Dashboard,
}

/// The ticket the dev override opens: the first child ticket, else the first ticket.
pub open spec fn dev_target(tickets: Seq<Ticket>) -> Option<int> {
    if exists|i: int| 0 <= i < tickets.len() && (#[trigger] tickets[i]).parent_id is Some {
        Some(choose|i: int| 0 <= i < tickets.len() && tickets[i].parent_id is Some && forall|j: int|
            0 <= j < i ==> (#[trigger] tickets[j]).parent_id is None)
    } else if tickets.len() > 0 {
        Some(0)
    } else {
        None
    }
}

/// The application shell's state (the channel to the worker lives with the caller).
pub struct DashboardApp {
    /// The latest snapshot (or the mock one under a dev override).
    pub data: ViewData,
    pub active_tab: Tab,
    pub onboarding: OnboardingState,
    pub home: HomeState,
    pub board: BoardState,
    pub notes: NotesState,
    pub projects: ProjectsState,
    pub todos: TodosState,
    /// The blocking error alert, if any.
    pub error: Option<UserFacingError>,
    /// The "new profile" create screen is showing over the app.
    pub new_profile_flow: bool,
    /// The active profile last seen, to reset transient state when it changes.
    pub active_profile_id: Option<Id>,
    /// A profile pending a delete confirmation.
    pub confirm_delete_profile: Option<Id>,
    /// The first snapshot has arrived.
    pub loaded: bool,
    /// A dev override is active: snapshots are ignored so the forced screen stays.
    pub dev_mode: bool,
}

impl DashboardApp {
    /// Every feature's transient state is fresh.
    pub open spec fn features_fresh(&self) -> bool {
        &&& self.board.is_initial()
        &&& self.notes.new_note@.len() == 0
        &&& self.notes.add_to_ticket is None
        &&& self.projects.is_initial()
        &&& self.todos.new_todo@.len() == 0
    }

    /// The state before anything happened.
    pub open spec fn is_start(&self) -> bool {
        &&& self.data.profile.profiles@.len() == 0
        &&& self.data.profile.active is None
        &&& self.data.tasks.stages@.len() == 0
        &&& self.data.tasks.tickets@.len() == 0
        &&& self.data.notes.notes@.len() == 0
        &&& self.data.projects.projects@.len() == 0
        &&& self.data.projects.worktrees@.len() == 0
        &&& self.data.todos.todos@.len() == 0
        &&& self.active_tab == Tab::Tasks
        &&& self.onboarding.name_input@.len() == 0
        &&& self.features_fresh()
        &&& self.error is None
        &&& !self.new_profile_flow
        &&& self.active_profile_id is None
        &&& self.confirm_delete_profile is None
        &&& !self.loaded
        &&& !self.dev_mode
    }

    /// Postcondition of applying a dev override.
    pub open spec fn overridden(old: DashboardApp, view: Option<DevView>, new: DashboardApp) -> bool {
        match view {
            None => new == old,
            Some(v) => {
                &&& new.dev_mode
                &&& new.loaded
                &&& new.active_tab == old.active_tab
                &&& new.new_profile_flow == old.new_profile_flow
                &&& new.confirm_delete_profile == old.confirm_delete_profile
                &&& new.active_profile_id == old.active_profile_id
                &&& new.onboarding == old.onboarding
                &&& new.home == old.home
                &&& new.notes == old.notes
                &&& new.projects == old.projects
                &&& new.todos == old.todos
                &&& (match v {
                    DevView::Onboarding => {
                        &&& new.data == old.data
                        &&& new.board == old.board
                        &&& new.error == old.error
                    },
                    DevView::Board => {
                        &&& new.board == old.board
                        &&& new.error == old.error
                        &&& exists|ids: [Id; 8], now: Micros| is_mock_board(new.data, ids, now)
                    },
                    DevView::Ticket | DevView::Page => {
                        &&& new.error == old.error
                        &&& exists|ids: [Id; 8], now: Micros| is_mock_board(new.data, ids, now)
                        &&& new.board.modal matches Some(m) && m.dev_opened_on(
                            new.data.tasks.tickets@[1],
                            v == DevView::Page,
                        )
                        &&& new.board.same_but_detail(&old.board)
                    },
                    DevView::Error => {
                        &&& new.data == old.data
                        &&& new.board == old.board
                        &&& new.error matches Some(e) && is_mock_error(e)
                    },
                })
            },
        }
    }

    /// The shell at start, with the dev override (if any) applied.
    pub fn new(dev_view: Option<DevView>) -> (r: Self)
        ensures
            exists|s: DashboardApp| s.is_start() && Self::overridden(s, dev_view, r),
    {
        let mut app = DashboardApp {
            data: ViewData::empty(),
            active_tab: Tab::Tasks,
            onboarding: OnboardingState::default(),
            home: HomeState::default(),
            board: BoardState::default(),
            notes: NotesState::default(),
            projects: ProjectsState::default(),
            todos: TodosState::default(),
            error: None,
            new_profile_flow: false,
            active_profile_id: None,
            confirm_delete_profile: None,
            loaded: false,
            dev_mode: false,
        };
        let ghost start = app;
        app.apply_dev_overrides(dev_view);
        proof {
            assert(start.is_start());
        }
        app
    }

    /// Inject the mock state a dev override asks for; a normal run (`None`) changes nothing.
    pub fn apply_dev_overrides(&mut self, view: Option<DevView>)
        ensures
            Self::overridden(*old(self), view, *final(self)),
    {
        let v = match view {
            Some(v) => v,
            None => {
                return;
            },
        };
        self.dev_mode = true;
        self.loaded = true;
        match v {
            DevView::Onboarding => {},
            DevView::Board => {
                self.data = mock_board();
            },
            DevView::Ticket => {
                self.dev_open_ticket(false);
            },
            DevView::Page => {
                self.dev_open_ticket(true);
            },
            DevView::Error => {
                self.error = Some(mock_error());
            },
        }
    }

    /// Load the mock board and open its first child ticket (else its first ticket) as the
    /// modal or the full page.
    pub fn dev_open_ticket(&mut self, expanded: bool)
        ensures
            exists|ids: [Id; 8], now: Micros| is_mock_board(final(self).data, ids, now),
            match dev_target(final(self).data.tasks.tickets@) {
                Some(i) => final(self).board.modal matches Some(m) && m.dev_opened_on(
                    final(self).data.tasks.tickets@[i],
                    expanded,
                ),
                None => final(self).board.modal == old(self).board.modal,
            },
            final(self).board.same_but_detail(&old(self).board),
            final(self).board.back_stack == old(self).board.back_stack,
            *final(self) == (DashboardApp { data: final(self).data, board: final(self).board, ..*old(self) }),
    {
        let data = mock_board();
        let mut target: Option<usize> = None;
        let mut i: usize = 0;
        while i < data.tasks.tickets.len()
            invariant
                i <= data.tasks.tickets.len(),
                target is None ==> forall|j: int| 0 <= j < i ==> (#[trigger] data.tasks.tickets@[j]).parent_id is None,
                target matches Some(k) ==> k < data.tasks.tickets.len() && data.tasks.tickets@[k as int].parent_id is Some
                    && forall|j: int| 0 <= j < k ==> (#[trigger] data.tasks.tickets@[j]).parent_id is None,
            decreases data.tasks.tickets.len() - i,
        {
            if target.is_none() && data.tasks.tickets[i].parent_id.is_some() {
                target = Some(i);
            }
            i = i + 1;
        }
        let ghost tk = data.tasks.tickets@;
        proof {
            match target {
                Some(k) => {
                    let c = choose|c: int| 0 <= c < tk.len() && tk[c].parent_id is Some && forall|j: int|
                        0 <= j < c ==> (#[trigger] tk[j]).parent_id is None;
                    assert(tk[k as int].parent_id is Some);
                    if c < k {
                        assert(tk[c].parent_id is None);
                    }
                    if k < c {
                        assert(tk[k as int].parent_id is None);
                    }
                },
                None => {
                    assert(!exists|i: int| 0 <= i < tk.len() && (#[trigger] tk[i]).parent_id is Some);
                },
            }
        }
        let pick = match target {
            Some(k) => Some(k),
            None => if data.tasks.tickets.len() > 0 {
                Some(0)
            } else {
                None
            },
        };
        if let Some(k) = pick {
            self.board.dev_open(&data.tasks.tickets[k], expanded);
        }
        self.data = data;
    }

    /// Postcondition of one worker message.
    pub open spec fn stepped(old: DashboardApp, msg: AppMessage, new: DashboardApp) -> bool {
        match msg {
            AppMessage::Snapshot(d) => {
                let active = d.profile.active_key();
                &&& new.loaded
                &&& new.data == d
                &&& if active != old.active_profile_id {
                    &&& new.features_fresh()
                    &&& new.active_profile_id == active
                    &&& new.active_tab == (match d.profile.active {
                        Some(p) => Tab::tab_of(p.last_view),
                        None => Tab::Tasks,
                    })
                } else {
                    &&& BoardState::reconciled(old.board, d.tasks, new.board)
                    &&& ProjectsState::reconciled(old.projects, d.projects, new.projects)
                    &&& new.notes == old.notes
                    &&& new.todos == old.todos
                    &&& new.active_profile_id == old.active_profile_id
                    &&& new.active_tab == old.active_tab
                }
                &&& new.onboarding == old.onboarding
                &&& new.error == old.error
                &&& new.new_profile_flow == old.new_profile_flow
                &&& new.confirm_delete_profile == old.confirm_delete_profile
                &&& new.dev_mode == old.dev_mode
            },
            AppMessage::Tasks(m) => {
                &&& BoardState::applied(old.board, m, new.board)
                &&& new == (DashboardApp { board: new.board, ..old })
            },
            AppMessage::Error(e) => new == (DashboardApp { error: Some(e), ..old }),
        }
    }

    /// Apply one worker message. A snapshot marks the app loaded and replaces the data; when
    /// the active profile changed, every feature's transient state is dropped and the tab lands
    /// on the profile's last-viewed page; otherwise the board and projects close whatever
    /// vanished. A tasks message goes to the board; an error raises the alert.
    pub fn apply_app_message(&mut self, msg: AppMessage)
        ensures
            Self::stepped(*old(self), msg, *final(self)),
    {
        match msg {
            AppMessage::Snapshot(d) => {
                self.loaded = true;
                let active = d.profile.active_id();
                if active != self.active_profile_id {
                    self.home = HomeState::default();
                    self.board = BoardState::default();
                    self.notes = NotesState::default();
                    self.projects = ProjectsState::default();
                    self.todos = TodosState::default();
                    self.active_profile_id = active;
                    self.active_tab = match &d.profile.active {
                        Some(p) => Tab::from_view(p.last_view),
                        None => Tab::Tasks,
                    };
                }
                let ghost fresh = self.board;
                self.board.reconcile(&d.tasks);
                self.projects.reconcile(&d.projects);
                proof {
                    if active != old(self).active_profile_id {
                        reveal(Seq::filter);
                        assert(fresh.back_stack@.filter(crate::tasks::entry_alive(d.tasks)) =~= Seq::<crate::tasks::BackEntry>::empty());
                    }
                }
                self.data = d;
            },
            AppMessage::Tasks(m) => {
                self.board.apply_message(&m);
            },
            AppMessage::Error(e) => {
                self.error = Some(e);
            },
        }
    }

    /// The states reachable by applying `msgs` in order.
    pub open spec fn drained(s0: DashboardApp, msgs: Seq<AppMessage>, s1: DashboardApp) -> bool
        decreases msgs.len(),
    {
        if msgs.len() == 0 {
            s1 == s0
        } else {
            exists|mid: DashboardApp|
                Self::drained(s0, msgs.drop_last(), mid) && #[trigger] Self::stepped(mid, msgs.last(), s1)
        }
    }

    /// Apply the messages the worker produced since the last frame, in order. Under a dev
    /// override they are ignored, so the forced screen stays put.
    pub fn drain_messages(&mut self, msgs: Vec<AppMessage>)
        ensures
            old(self).dev_mode ==> *final(self) == *old(self),
            !old(self).dev_mode ==> Self::drained(*old(self), msgs@, *final(self)),
    {
        if self.dev_mode {
            return;
        }
        let ghost all = msgs@;
        let mut msgs = msgs;
        while msgs.len() > 0
            invariant
                msgs@.len() <= all.len(),
                msgs@ == all.skip(all.len() - msgs@.len()),
                Self::drained(*old(self), all.take(all.len() - msgs@.len()), *self),
            decreases msgs.len(),
        {
            let ghost before = *self;
            let ghost k = all.len() - msgs@.len();
            let m = msgs.remove(0);
            proof {
                assert(m == all[k]);
                assert(msgs@ =~= all.skip(all.len() - msgs@.len()));
            }
            self.apply_app_message(m);
            proof {
                let t = all.take(k + 1);
                assert(t.drop_last() =~= all.take(k));
                assert(t.last() == all[k]);
                assert(Self::stepped(before, t.last(), *self));
            }
        }
        proof {
            assert(all.take(all.len() as int) =~= all);
        }
    }

    /// The top-level screen: loading until the first snapshot; onboarding while no profile
    /// is active (first run when none exists, else a picker); the new-profile screen while
    /// that flow is open; the dashboard otherwise.
    pub open spec fn screen_spec(&self) -> Screen {
        if !self.loaded {
            Screen::Loading
        } else if self.data.profile.active is None {
            if self.data.profile.profiles@.len() == 0 {
                Screen::Onboarding(OnboardingMode::FirstRun)
            } else {
                Screen::Onboarding(OnboardingMode::Reselect)
            }
        } else if self.new_profile_flow {
            Screen::Onboarding(OnboardingMode::NewProfile)
        } else {
            Screen::Dashboard
        }
    }

    pub fn screen(&self) -> (r: Screen)
        ensures
            r == self.screen_spec(),
    {
        if !self.loaded {
            Screen::Loading
        } else if !self.data.has_profile() {
            if self.data.profile.profiles.len() == 0 {
                Screen::Onboarding(OnboardingMode::FirstRun)
            } else {
                Screen::Onboarding(OnboardingMode::Reselect)
            }
        } else if self.new_profile_flow {
            Screen::Onboarding(OnboardingMode::NewProfile)
        } else {
            Screen::Dashboard
        }
    }

    /// The onboarding screen asked to leave: only the new-profile flow is left that way.
    pub fn leave_onboarding(&mut self, leave: bool)
        ensures
            *final(self) == (DashboardApp {
                new_profile_flow: old(self).new_profile_flow && !(leave
                    && old(self).screen_spec() == Screen::Onboarding(OnboardingMode::NewProfile)),
                ..*old(self)
            }),
    {
        if leave && self.screen() == Screen::Onboarding(OnboardingMode::NewProfile) {
            self.new_profile_flow = false;
        }
    }

    /// The features' overlays show only over the dashboard (not over a full-screen
    /// onboarding flow, nor before the first snapshot).
    pub fn overlays_shown(&self) -> (r: bool)
        ensures
            r == (self.loaded && self.data.profile.active is Some && !self.new_profile_flow),
    {
        self.loaded && self.data.has_profile() && !self.new_profile_flow
    }

    /// A nav tab was clicked: switch to it, close any ticket detail (it renders over the
    /// tab), and remember the tab as the profile's last-viewed page.
    pub fn select_tab(&mut self, tab: Tab) -> (e: UiEvent)
        ensures
            final(self).active_tab == tab,
            final(self).board.modal is None,
            final(self).board.back_stack@.len() == 0,
            final(self).board.same_but_detail(&old(self).board),
            *final(self) == (DashboardApp { active_tab: tab, board: final(self).board, ..*old(self) }),
            e == UiEvent::Profile(ProfileEvent::SetLastView(tab.view_of())),
    {
        self.active_tab = tab;
        self.board.close_detail();
        UiEvent::Profile(ProfileEvent::SetLastView(tab.as_view()))
    }

    /// Act on the nav switcher: "New profile" opens the create screen; "Delete current
    /// profile" asks to confirm deleting it.
    pub fn apply_switcher(&mut self, out: &SwitcherOutcome)
        ensures
            *final(self) == (DashboardApp {
                new_profile_flow: old(self).new_profile_flow || out.new_profile,
                confirm_delete_profile: match out.delete {
                    Some(id) => Some(id),
                    None => old(self).confirm_delete_profile,
                },
                ..*old(self)
            }),
    {
        if out.new_profile {
            self.new_profile_flow = true;
        }
        if let Some(id) = out.delete {
            self.confirm_delete_profile = Some(id);
        }
    }

    /// Act on the Overview's intents: switch tab (remembering it), or switch to Tasks and open
    /// a ticket's detail when that ticket exists.
    pub fn apply_home_outcome(&mut self, out: HomeOutcome) -> (sent: Vec<UiEvent>)
        ensures
            ({
                let s1 = match out.goto {
                    Some(t) => DashboardApp { active_tab: t, ..*old(self) },
                    None => *old(self),
                };
                let first = match out.goto {
                    Some(t) => seq![UiEvent::Profile(ProfileEvent::SetLastView(t.view_of()))],
                    None => Seq::empty(),
                };
                match out.open_ticket {
                    Some((id, open)) => match old(self).data.tasks.ticket_spec(id) {
                        Some(t) => {
                            &&& BoardState::opened(s1.board, t, open, final(self).board)
                            &&& *final(self) == (DashboardApp { active_tab: Tab::Tasks, board: final(self).board, ..s1 })
                            &&& sent@ == first.push(UiEvent::Tasks(crate::events::TasksEvent::LoadNotes(id)))
                        },
                        None => *final(self) == s1 && sent@ == first,
                    },
                    None => *final(self) == s1 && sent@ == first,
                }
            }),
    {
        let mut sent: Vec<UiEvent> = Vec::new();
        if let Some(tab) = out.goto {
            self.active_tab = tab;
            sent.push(UiEvent::Profile(ProfileEvent::SetLastView(tab.as_view())));
        }
        if let Some((id, open)) = out.open_ticket {
            match self.data.tasks.ticket(id) {
                Some(t) => {
                    proof {
                        lemma_lookup(self.data.tasks.tickets@, id);
                    }
                    self.active_tab = Tab::Tasks;
                    let ev = self.board.open_ticket(t, open);
                    sent.push(ev);
                },
                None => {},
            }
        }
        sent
    }

    /// Act on the Notes tab's intent: "Create Ticket" from a note opens the board's create
    /// modal pre-filled with it (over the Notes tab).
    pub fn apply_notes_outcome(&mut self, out: NotesOutcome)
        ensures
            match out.create_ticket_from {
                Some((id, body)) => {
                    &&& final(self).board.new_ticket matches Some(d) && d.source_note_id == Some(id)
                        && d.note == body && d.title@.len() == 0 && d.description@.len() == 0
                        && d.stage_id == (if old(self).data.tasks.stages@.len() > 0 {
                        Some(old(self).data.tasks.stages@[0].id)
                    } else {
                        None
                    })
                    &&& final(self).board == (BoardState { new_ticket: final(self).board.new_ticket, ..old(self).board })
                    &&& *final(self) == (DashboardApp { board: final(self).board, ..*old(self) })
                },
                None => *final(self) == *old(self),
            },
    {
        if let Some((id, body)) = out.create_ticket_from {
            self.board.open_new_ticket_from_note(id, body, &self.data.tasks);
        }
    }

    /// A worktree row asked to open its ticket: switch to Tasks and open it (when it still
    /// exists). The request is consumed either way.
    pub fn route_open_ticket(&mut self) -> (e: Option<UiEvent>)
        ensures
            final(self).projects == (ProjectsState { pending_open_ticket: None, ..old(self).projects }),
            match old(self).projects.pending_open_ticket {
                Some(id) => match old(self).data.tasks.ticket_spec(id) {
                    Some(t) => {
                        &&& final(self).active_tab == Tab::Tasks
                        &&& BoardState::opened(old(self).board, t, TicketOpen::Modal, final(self).board)
                        &&& e == Some(UiEvent::Tasks(crate::events::TasksEvent::LoadNotes(id)))
                        &&& *final(self) == (DashboardApp {
                            active_tab: Tab::Tasks,
                            board: final(self).board,
                            projects: final(self).projects,
                            ..*old(self)
                        })
                    },
                    None => e is None && *final(self) == (DashboardApp { projects: final(self).projects, ..*old(self) }),
                },
                None => e is None && *final(self) == (DashboardApp { projects: final(self).projects, ..*old(self) }),
            },
    {
        match self.projects.take_pending_open_ticket() {
            Some(id) => match self.data.tasks.ticket(id) {
                Some(t) => {
                    proof {
                        lemma_lookup(self.data.tasks.tickets@, id);
                    }
                    self.active_tab = Tab::Tasks;
                    Some(self.board.open_ticket(t, TicketOpen::Modal))
                },
                None => None,
            },
            None => None,
        }
    }

    /// Hand the ticket detail's worktree requests to the projects UI, which owns the
    /// create picker and the remove confirmation.
    pub fn route_worktree_requests(&mut self)
        ensures
            final(self).board == (BoardState {
                pending_worktree: None,
                pending_remove_worktree: None,
                ..old(self).board
            }),
            final(self).projects.creating_worktree == (match old(self).board.pending_worktree {
                Some(t) => final(self).projects.creating_worktree,
                None => old(self).projects.creating_worktree,
            }),
            old(self).board.pending_worktree matches Some(t) ==> (final(self).projects.creating_worktree
                matches Some(d) && d.ticket_id == t && d.project_id is None && d.branch@.len() == 0),
            final(self).projects.confirm_remove_worktree == (match old(self).board.pending_remove_worktree {
                Some(w) => Some(w),
                None => old(self).projects.confirm_remove_worktree,
            }),
            final(self).projects == (ProjectsState {
                creating_worktree: final(self).projects.creating_worktree,
                confirm_remove_worktree: final(self).projects.confirm_remove_worktree,
                ..old(self).projects
            }),
            *final(self) == (DashboardApp { board: final(self).board, projects: final(self).projects, ..*old(self) }),
    {
        if let Some(ticket_id) = self.board.take_pending_worktree() {
            self.projects.open_create_worktree(ticket_id);
        }
        if let Some(worktree_id) = self.board.take_pending_remove_worktree() {
            self.projects.request_remove_worktree(worktree_id);
        }
    }

    /// The profile whose deletion awaits confirmation, with its name; a pending confirmation
    /// for a profile that is already gone is dropped.
    pub fn pending_profile_deletion(&mut self) -> (r: Option<(Id, String)>)
        ensures
            match old(self).confirm_delete_profile {
                Some(id) => match crate::model::lookup(old(self).data.profile.profiles@, id) {
                    Some(p) => r matches Some((rid, name)) && rid == id && name == p.display_name
                        && *final(self) == *old(self),
                    None => r is None && *final(self) == (DashboardApp { confirm_delete_profile: None, ..*old(self) }),
                },
                None => r is None && *final(self) == *old(self),
            },
    {
        match self.confirm_delete_profile {
            Some(id) => match crate::model::position_of(&self.data.profile.profiles, id) {
                Some(i) => Some((id, self.data.profile.profiles[i].display_name.clone())),
                None => {
                    self.confirm_delete_profile = None;
                    None
                },
            },
            None => None,
        }
    }

    /// Act on a frame of the delete-profile confirmation: confirming deletes the profile and
    /// everything in it; cancelling just clears the confirmation.
    pub fn settle_delete_profile(&mut self, choice: Choice) -> (e: Option<UiEvent>)
        ensures
            match (old(self).confirm_delete_profile, choice) {
                (Some(id), Choice::Confirmed) => {
                    &&& e == Some(UiEvent::Profile(ProfileEvent::Delete(id)))
                    &&& *final(self) == (DashboardApp { confirm_delete_profile: None, ..*old(self) })
                },
                (Some(_), Choice::Cancelled) => {
                    e is None && *final(self) == (DashboardApp { confirm_delete_profile: None, ..*old(self) })
                },
                _ => e is None && *final(self) == *old(self),
            },
    {
        match self.confirm_delete_profile {
            Some(id) => match choice {
                Choice::Confirmed => {
                    self.confirm_delete_profile = None;
                    Some(UiEvent::Profile(ProfileEvent::Delete(id)))
                },
                Choice::Cancelled => {
                    self.confirm_delete_profile = None;
                    None
                },
                Choice::Pending => None,
            },
            None => None,
        }
    }

    /// Act on a frame of the error alert. Retry clears it and reloads everything; Dismiss
    /// clears it; the backdrop or Escape clears only a non-retryable one (a retryable error
    /// must not silently drop back to an empty app).
    pub fn settle_error(&mut self, retry: bool, dismiss: bool, backdrop: bool) -> (e: Option<UiEvent>)
        ensures
            match old(self).error {
                Some(err) => if retry {
                    e == Some(UiEvent::ReloadAll) && *final(self) == (DashboardApp { error: None, ..*old(self) })
                } else if dismiss || (backdrop && !err.retryable) {
                    e is None && *final(self) == (DashboardApp { error: None, ..*old(self) })
                } else {
                    e is None && *final(self) == *old(self)
                },
                None => e is None && *final(self) == *old(self),
            },
    {
        let retryable = match &self.error {
            Some(err) => err.retryable,
            None => {
                return None;
            },
        };
        let closed_by_backdrop = backdrop && !retryable;
        if retry {
            self.error = None;
            Some(UiEvent::ReloadAll)
        } else {
            if dismiss || closed_by_backdrop {
                self.error = None;
            }
            None
        }
    }
}

/// An error from the worker only raises the alert: the last good snapshot and everything the
/// owner had open stay as they were, so retrying cannot lose data.
pub proof fn lemma_error_keeps_snapshot(s0: DashboardApp, e: UserFacingError, s1: DashboardApp)
    requires
        DashboardApp::stepped(s0, AppMessage::Error(e), s1),
    ensures
        s1.error == Some(e),
        s1.data == s0.data,
        s1.board == s0.board,
        s1.notes == s0.notes,
        s1.projects == s0.projects,
        s1.todos == s0.todos,
        s1.active_tab == s0.active_tab,
        s1.loaded == s0.loaded,
{
}

/// A snapshot of the same profile keeps the open ticket detail (and the tab) as long as that
/// ticket is still on the board; only a profile switch drops it.
pub proof fn lemma_same_profile_keeps_detail(s0: DashboardApp, d: ViewData, s1: DashboardApp)
    requires
        DashboardApp::stepped(s0, AppMessage::Snapshot(d), s1),
        d.profile.active_key() == s0.active_profile_id,
        s0.board.modal matches Some(m) && d.tasks.has_ticket(m.ticket_id),
    ensures
        s1.board.modal == s0.board.modal,
        s1.active_tab == s0.active_tab,
        s1.data == d,
        s1.loaded,
{
}

/// A snapshot of another profile swaps the whole workspace: nothing open in one profile
/// carries into the next, and the tab lands on the new profile's last-viewed page.
pub proof fn lemma_profile_switch_resets(s0: DashboardApp, d: ViewData, s1: DashboardApp)
    requires
        DashboardApp::stepped(s0, AppMessage::Snapshot(d), s1),
        d.profile.active_key() != s0.active_profile_id,
    ensures
        s1.features_fresh(),
        s1.active_profile_id == d.profile.active_key(),
        d.profile.active matches Some(p) ==> s1.active_tab == Tab::tab_of(p.last_view),
{
}


/// The failed command's output to show verbatim: trimmed, and only when something is left.
pub fn error_output(err: &UserFacingError) -> (r: Option<String>)
    ensures
        match err.output {
            Some(o) => if has_content(o@) {
                r matches Some(s) && s@ == trim_spec(o@)
            } else {
                r is None
            },
            None => r is None,
        },
{
    match &err.output {
        Some(o) => {
            let t = trim(o.as_str());
            if t.is_empty() {
                None
            } else {
                Some(t.to_owned())
            }
        },
        None => None,
    }
}

/// With the first snapshot in and no active profile, the onboarding screen greets a first
/// run only when no profile exists; as soon as one exists it offers to choose a profile, so an
/// existing one can always be reopened. With a profile active, onboarding shows only in the
/// new-profile flow.
pub proof fn lemma_onboarding_mode_follows_the_profiles(app: DashboardApp)
    requires
        app.loaded,
    ensures
        app.data.profile.active is None && app.data.profile.profiles@.len() > 0
            ==> app.screen_spec() == Screen::Onboarding(OnboardingMode::Reselect),
        app.data.profile.active is None && app.data.profile.profiles@.len() == 0
            ==> app.screen_spec() == Screen::Onboarding(OnboardingMode::FirstRun),
        app.data.profile.active is Some ==> (app.screen_spec() == (if app.new_profile_flow {
            Screen::Onboarding(OnboardingMode::NewProfile)
        } else {
            Screen::Dashboard
        })),
{
}

} // verus!
