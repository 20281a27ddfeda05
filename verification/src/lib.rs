//! Verified state and decision logic of a developer dashboard's user interface.

pub mod model;

pub mod text;
pub mod events;
pub mod theme;
pub mod components;
pub mod tasks;
pub mod outside;
pub mod shell;
pub mod todos;
pub mod home;
pub mod dev;
pub mod notes;
pub mod profile;
pub mod projects;
