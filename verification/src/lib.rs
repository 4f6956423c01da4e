//! The decisions behind a list of diff buffers: which files of a repository are shown for a
//! given diff base, with which status, and how each of their buffers is loaded.

pub mod base;
pub mod comparison_file;
pub mod diff;
pub mod event;
pub mod laws;
pub mod laws_list;
pub mod laws_load;
pub mod laws_state;
pub mod laws_status;
pub mod laws_view;
pub mod list;
pub mod load;
pub mod model;
pub mod operation;
pub mod path;
pub mod select;
pub mod status;
