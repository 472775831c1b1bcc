//! Interactive bookmark browser: the record model, the fuzzy search engine,
//! the modal view stack and the decisions of the event loop.

pub mod record;
pub mod search;
pub mod event;
pub mod state;
pub mod main_view;
pub mod view;
pub mod stack;
pub mod runtime;
pub mod selected_block;
pub mod walk;
