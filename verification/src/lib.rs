//! A small terminal file browser, split into verified parts.
//!
//! The library holds everything that can be stated and proved: building a
//! directory listing's display entries, the navigation state machine
//! (selection, back history, redo stack), case-insensitive substring search,
//! and the status-bar text. The binary around it does the terminal and
//! filesystem work and feeds plain values in and out.

pub mod browser;
pub mod listing;
pub mod path;
pub mod render;
pub mod search;
pub mod status;

pub use browser::Action;
pub use browser::Browser;
pub use browser::Key;
pub use listing::build_listing;
pub use listing::make_entry;
pub use listing::RawEntry;
pub use path::DirPath;
pub use search::SearchQuery;
pub use search::SearchStep;
