//! Session bookkeeping for a multi-session pseudo-terminal manager, and the
//! small pure helpers of the editor shell around it.

pub mod clipboard;
pub mod file_tree;
pub mod lifecycle;
pub mod projects;
pub mod search;
pub mod session;
pub mod shell;
pub mod window_management;
