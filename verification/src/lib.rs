//! Backend of a program launcher: a catalog of programs, the engine that runs
//! their command queues one process at a time and keeps a bounded console
//! history, and the keyboard and controller input logic of the launcher.
//!
//! The engine never touches the operating system itself. The driving loop
//! polls the child process and drains its pipes, hands the results to
//! [`task_manager::TaskManager::update`], and starts the command that the
//! update hands back.

pub mod data;
pub mod history;
pub mod input;
pub mod laws;
pub mod task_manager;
pub mod text;
pub mod ui;
pub mod utils;
pub mod window;
