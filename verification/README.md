# dev_dashboard

The interface logic of a personal developer dashboard (a Tasks board of stages and tickets,
loose notes, todos, projects with git worktrees, and profiles), written in Verus.

Every decision the interface takes is a verified function of `src/`: what a click on a card
opens, where "Back" lands, what a dropped ticket or column sends, which modal a worker
snapshot closes, when a form may be submitted and what it sends, how the overview ranks and
counts things. Each states its result in `ensures` over the plain data model in
`src/model.rs`; the laws that span several calls (Back undoes a link, a snapshot never leaves
the interface pointing at something that vanished, a stage reorder is a permutation, ...)
are public proof functions.

Layout:

- `src/model.rs` — the snapshot the worker sends (profiles, stages, tickets, notes, todos,
  projects, worktrees) and its lookups.
- `src/events.rs` — what the interface asks the worker to do.
- `src/tasks/` — the board: detail navigation and back-history, the edit and create modals,
  drag-and-drop, and its laws (`laws.rs`).
- `src/home.rs`, `src/notes.rs`, `src/todos.rs`, `src/projects.rs`, `src/profile.rs` — the
  other features.
- `src/shell.rs` — the application shell: screens, tabs, message routing.
- `src/text.rs`, `src/outside.rs` — the few calls into std and outside crates, behind
  trusted wrappers with stated contracts.
- `app/` — the egui/eframe front end, which only draws and forwards to the library.
