//! The Todos tab: a composer and the list of open todos (completed ones are hidden).

use vstd::prelude::*;

use crate::events::{TodosEvent, UiEvent};
use crate::model::{lemma_filter_take_step, Todo, TodosView};
use crate::text::{has_content, is_blank, trim_spec, trimmed};

verus! {

/// Todos still to do.
pub open spec fn is_open() -> spec_fn(Todo) -> bool {
    |t: Todo| !t.done
}

/// The open todos, in stored order (checking one off hides it on the next snapshot).
pub fn open_todos(view: &TodosView) -> (r: Vec<Todo>)
    ensures
        r@ == view.todos@.filter(is_open()),
{
    let mut r: Vec<Todo> = Vec::new();
    let mut i: usize = 0;
    while i < view.todos.len()
        invariant
            i <= view.todos.len(),
            r@ == view.todos@.take(i as int).filter(is_open()),
        decreases view.todos.len() - i,
    {
        proof {
            lemma_filter_take_step(view.todos@, is_open(), i as int);
        }
        if !view.todos[i].done {
            r.push(view.todos[i].clone());
        }
        i = i + 1;
    }
    proof {
        assert(view.todos@.take(i as int) =~= view.todos@);
    }
    r
}

/// Transient UI state of the Todos tab.
pub struct TodosState {
    /// The "New todo" field.
    pub new_todo: String,
}

impl Default for TodosState {
    fn default() -> (r: Self)
        ensures
            r.new_todo@.len() == 0,
    {
        TodosState { new_todo: String::new() }
    }
}

impl TodosState {
    /// The composer: Add or Enter adds the trimmed todo, when it holds something, and clears
    /// the field.
    pub fn submit_composer(&mut self, clicked: bool, entered: bool) -> (e: Option<UiEvent>)
        ensures
            if (clicked || entered) && has_content(old(self).new_todo@) {
                &&& e matches Some(UiEvent::Todos(TodosEvent::Add(b))) && b@ == trim_spec(old(self).new_todo@)
                &&& final(self).new_todo@.len() == 0
            } else {
                e is None && *final(self) == *old(self)
            },
    {
        if (clicked || entered) && !is_blank(&self.new_todo) {
            let body = trimmed(&self.new_todo);
            self.new_todo = String::new();
            Some(UiEvent::Todos(TodosEvent::Add(body)))
        } else {
            None
        }
    }
}

/// What a todo row sends this frame: the checkbox's new state when it was toggled, then a
/// delete when the delete button was clicked.
pub fn settle_todo_row(todo: &Todo, toggled: Option<bool>, delete_clicked: bool) -> (sent: Vec<UiEvent>)
    ensures
        sent@ == (match toggled {
            Some(done) => seq![UiEvent::Todos(TodosEvent::SetDone(todo.id, done))],
            None => Seq::empty(),
        }) + (if delete_clicked {
            seq![UiEvent::Todos(TodosEvent::Delete(todo.id))]
        } else {
            Seq::empty()
        }),
{
    let mut sent: Vec<UiEvent> = Vec::new();
    if let Some(done) = toggled {
        sent.push(UiEvent::Todos(TodosEvent::SetDone(todo.id, done)));
    }
    if delete_clicked {
        sent.push(UiEvent::Todos(TodosEvent::Delete(todo.id)));
    }
    proof {
        assert(sent@ =~= (match toggled {
            Some(done) => seq![UiEvent::Todos(TodosEvent::SetDone(todo.id, done))],
            None => Seq::empty(),
        }) + (if delete_clicked {
            seq![UiEvent::Todos(TodosEvent::Delete(todo.id))]
        } else {
            Seq::empty()
        }));
    }
    sent
}

} // verus!
