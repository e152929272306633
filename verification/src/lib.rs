//! The interaction engine of an interactive project scaffolder.
//!
//! The engine asks for a project name, lets the operator pick a language from
//! a menu, and then says which steps create the project. It never touches the
//! terminal or the file system itself: every function maps plain values to
//! plain values, and the program around it performs the commands it is handed.
//!
//! Each executable type has a mathematical model, its view, and each
//! executable function is specified by a function on models. The laws of the
//! state machines are proof functions next to the models they speak of.

pub mod dispatch;
pub mod key;
pub mod language;
pub mod menu;
pub mod render;
pub mod selection;
pub mod session;
pub mod string_specs;
pub mod terminal;
pub mod text_entry;
